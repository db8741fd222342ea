//! The policy behind `Access-Control-Allow-Methods`.
use vstd::prelude::*;

use crate::bytes_util::{comma_join, copy_bytes, join_cost, separated_by_commas};
use crate::headers::{
    CorsHeaderName, HeaderEntry, opt_bytes_view, opt_entry_view, opt_named, spec_wildcard_value,
    wildcard_vec,
};
use crate::tokens::{is_token, normalize_token_list, spec_dedup, spec_upper_all};

verus! {

/// Decides the `Access-Control-Allow-Methods` value of a preflight response.
#[derive(Clone, Debug)]
pub enum AllowMethods {
    /// Emit the literal wildcard `*`.
    Any,
    /// Emit these method tokens, comma-joined in configured order; nothing
    /// when the list is empty.
    List(Vec<Vec<u8>>),
    /// Echo the request's `Access-Control-Request-Method` value verbatim,
    /// when present and non-empty.
    MirrorRequest,
}

impl AllowMethods {
    /// A configured list never joins to more bytes than a `usize` counts.
    pub open spec fn wf(&self) -> bool {
        match self {
            AllowMethods::List(l) => join_cost(l.deep_view()) <= usize::MAX,
            _ => true,
        }
    }

    /// The value emitted for a preflight request that asked for
    /// `request_method`, if any.
    pub open spec fn spec_to_header(&self, request_method: Option<Seq<u8>>) -> Option<Seq<u8>> {
        match self {
            AllowMethods::Any => Some(spec_wildcard_value()),
            AllowMethods::List(l) => if l.deep_view().len() == 0 {
                None
            } else {
                Some(comma_join(l.deep_view()))
            },
            AllowMethods::MirrorRequest => match request_method {
                Some(v) => if v.len() > 0 {
                    Some(v)
                } else {
                    None
                },
                None => None,
            },
        }
    }

    /// Allows these methods. Each must be a valid method token; it is folded
    /// to upper case, and duplicates are dropped while the configured order
    /// is kept.
    pub fn list(methods: Vec<Vec<u8>>) -> (r: Self)
        requires
            forall|i: int|
                0 <= i < methods.deep_view().len() ==> is_token(#[trigger] methods.deep_view()[i]),
            join_cost(methods.deep_view()) <= usize::MAX,
        ensures
            r matches AllowMethods::List(l) && l.deep_view() == spec_dedup(
                spec_upper_all(methods.deep_view()),
            ),
            r.wf(),
            forall|i: int|
                0 <= i < r->List_0.deep_view().len() ==> is_token(
                    #[trigger] r->List_0.deep_view()[i],
                ),
    {
        AllowMethods::List(normalize_token_list(&methods, true))
    }

    /// Echoes the requested method back as allowed.
    pub fn mirror_request() -> (r: Self)
        ensures
            r is MirrorRequest,
    {
        AllowMethods::MirrorRequest
    }

    /// Whether the policy is the wildcard.
    pub fn is_wildcard(&self) -> (r: bool)
        ensures
            r == (*self is Any),
    {
        match self {
            AllowMethods::Any => true,
            _ => false,
        }
    }

    /// The `Access-Control-Allow-Methods` entry for one preflight request,
    /// given the request's `Access-Control-Request-Method` value.
    pub fn to_header(&self, request_method: Option<&Vec<u8>>) -> (r: Option<HeaderEntry>)
        requires
            self.wf(),
        ensures
            opt_entry_view(r) == opt_named(
                CorsHeaderName::AllowMethods,
                self.spec_to_header(opt_bytes_view(request_method)),
            ),
    {
        match self {
            AllowMethods::Any => Some(
                HeaderEntry { name: CorsHeaderName::AllowMethods, value: wildcard_vec() },
            ),
            AllowMethods::List(l) => match separated_by_commas(l) {
                Some(joined) => Some(
                    HeaderEntry { name: CorsHeaderName::AllowMethods, value: joined },
                ),
                None => None,
            },
            AllowMethods::MirrorRequest => match request_method {
                Some(v) => {
                    if v.len() > 0 {
                        Some(HeaderEntry { name: CorsHeaderName::AllowMethods, value: copy_bytes(v) })
                    } else {
                        None
                    }
                },
                None => None,
            },
        }
    }
}

impl From<crate::Any> for AllowMethods {
    /// The wildcard marker configures the wildcard policy.
    fn from(_marker: crate::Any) -> (r: Self) {
        AllowMethods::Any
    }
}

impl vstd::std_specs::convert::FromSpecImpl<crate::Any> for AllowMethods {
    open spec fn obeys_from_spec() -> bool {
        true
    }

    open spec fn from_spec(_marker: crate::Any) -> Self {
        AllowMethods::Any
    }
}

} // verus!
