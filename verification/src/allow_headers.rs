//! The policy behind `Access-Control-Allow-Headers`.
use vstd::prelude::*;

use crate::bytes_util::{comma_join, copy_bytes, join_cost, separated_by_commas};
use crate::headers::{
    CorsHeaderName, HeaderEntry, opt_bytes_view, opt_entry_view, opt_named, spec_wildcard_value,
    wildcard_vec,
};
use crate::tokens::{is_token, normalize_token_list, spec_dedup, spec_lower_all};

verus! {

/// Decides the `Access-Control-Allow-Headers` value of a preflight response.
#[derive(Clone, Debug)]
pub enum AllowHeaders {
    /// Emit the literal wildcard `*`.
    Any,
    /// Emit these header names, comma-joined in configured order; nothing
    /// when the list is empty.
    List(Vec<Vec<u8>>),
    /// Echo the request's `Access-Control-Request-Headers` value verbatim,
    /// when present and non-empty.
    MirrorRequest,
}

impl AllowHeaders {
    /// A configured list never joins to more bytes than a `usize` counts.
    pub open spec fn wf(&self) -> bool {
        match self {
            AllowHeaders::List(l) => join_cost(l.deep_view()) <= usize::MAX,
            _ => true,
        }
    }

    /// The value emitted for a preflight request that asked for
    /// `request_headers`, if any.
    pub open spec fn spec_to_header(&self, request_headers: Option<Seq<u8>>) -> Option<Seq<u8>> {
        match self {
            AllowHeaders::Any => Some(spec_wildcard_value()),
            AllowHeaders::List(l) => if l.deep_view().len() == 0 {
                None
            } else {
                Some(comma_join(l.deep_view()))
            },
            AllowHeaders::MirrorRequest => match request_headers {
                Some(v) => if v.len() > 0 {
                    Some(v)
                } else {
                    None
                },
                None => None,
            },
        }
    }

    /// Allows these request headers. Each must be a valid header name token;
    /// it is folded to lower case (header names are case-insensitive), and
    /// duplicates are dropped while the configured order is kept.
    pub fn list(headers: Vec<Vec<u8>>) -> (r: Self)
        requires
            forall|i: int|
                0 <= i < headers.deep_view().len() ==> is_token(#[trigger] headers.deep_view()[i]),
            join_cost(headers.deep_view()) <= usize::MAX,
        ensures
            r matches AllowHeaders::List(l) && l.deep_view() == spec_dedup(
                spec_lower_all(headers.deep_view()),
            ),
            r.wf(),
            forall|i: int|
                0 <= i < r->List_0.deep_view().len() ==> is_token(
                    #[trigger] r->List_0.deep_view()[i],
                ),
    {
        AllowHeaders::List(normalize_token_list(&headers, false))
    }

    /// Echoes the requested headers back as allowed.
    pub fn mirror_request() -> (r: Self)
        ensures
            r is MirrorRequest,
    {
        AllowHeaders::MirrorRequest
    }

    /// Whether the policy is the wildcard.
    pub fn is_wildcard(&self) -> (r: bool)
        ensures
            r == (*self is Any),
    {
        match self {
            AllowHeaders::Any => true,
            _ => false,
        }
    }

    /// The `Access-Control-Allow-Headers` entry for one preflight request,
    /// given the request's `Access-Control-Request-Headers` value.
    pub fn to_header(&self, request_headers: Option<&Vec<u8>>) -> (r: Option<HeaderEntry>)
        requires
            self.wf(),
        ensures
            opt_entry_view(r) == opt_named(
                CorsHeaderName::AllowHeaders,
                self.spec_to_header(opt_bytes_view(request_headers)),
            ),
    {
        match self {
            AllowHeaders::Any => Some(
                HeaderEntry { name: CorsHeaderName::AllowHeaders, value: wildcard_vec() },
            ),
            AllowHeaders::List(l) => match separated_by_commas(l) {
                Some(joined) => Some(
                    HeaderEntry { name: CorsHeaderName::AllowHeaders, value: joined },
                ),
                None => None,
            },
            AllowHeaders::MirrorRequest => match request_headers {
                Some(v) => {
                    if v.len() > 0 {
                        Some(HeaderEntry { name: CorsHeaderName::AllowHeaders, value: copy_bytes(v) })
                    } else {
                        None
                    }
                },
                None => None,
            },
        }
    }
}

impl From<crate::Any> for AllowHeaders {
    /// The wildcard marker configures the wildcard policy.
    fn from(_marker: crate::Any) -> (r: Self) {
        AllowHeaders::Any
    }
}

impl vstd::std_specs::convert::FromSpecImpl<crate::Any> for AllowHeaders {
    open spec fn obeys_from_spec() -> bool {
        true
    }

    open spec fn from_spec(_marker: crate::Any) -> Self {
        AllowHeaders::Any
    }
}

} // verus!
