//! The policy behind `Access-Control-Expose-Headers`.
use vstd::prelude::*;

use crate::bytes_util::{comma_join, join_cost, separated_by_commas};
use crate::headers::{
    CorsHeaderName, HeaderEntry, opt_entry_view, opt_named, spec_wildcard_value, wildcard_vec,
};
use crate::tokens::{is_token, normalize_token_list, spec_dedup, spec_lower_all};

verus! {

/// Decides the `Access-Control-Expose-Headers` value of a non-preflight
/// response. There is nothing to mirror here: the protocol has no
/// "requested expose headers".
#[derive(Clone, Debug)]
pub enum ExposeHeaders {
    /// Emit the literal wildcard `*`.
    Any,
    /// Emit these header names, comma-joined in configured order; nothing
    /// when the list is empty.
    List(Vec<Vec<u8>>),
}

impl ExposeHeaders {
    /// A configured list never joins to more bytes than a `usize` counts.
    pub open spec fn wf(&self) -> bool {
        match self {
            ExposeHeaders::List(l) => join_cost(l.deep_view()) <= usize::MAX,
            _ => true,
        }
    }

    /// The value emitted, if any; it does not depend on the request.
    pub open spec fn spec_to_header(&self) -> Option<Seq<u8>> {
        match self {
            ExposeHeaders::Any => Some(spec_wildcard_value()),
            ExposeHeaders::List(l) => if l.deep_view().len() == 0 {
                None
            } else {
                Some(comma_join(l.deep_view()))
            },
        }
    }

    /// Exposes these response headers. Each must be a valid header name
    /// token; it is folded to lower case, and duplicates are dropped while
    /// the configured order is kept.
    pub fn list(headers: Vec<Vec<u8>>) -> (r: Self)
        requires
            forall|i: int|
                0 <= i < headers.deep_view().len() ==> is_token(#[trigger] headers.deep_view()[i]),
            join_cost(headers.deep_view()) <= usize::MAX,
        ensures
            r matches ExposeHeaders::List(l) && l.deep_view() == spec_dedup(
                spec_lower_all(headers.deep_view()),
            ),
            r.wf(),
    {
        ExposeHeaders::List(normalize_token_list(&headers, false))
    }

    /// Whether the policy is the wildcard.
    pub fn is_wildcard(&self) -> (r: bool)
        ensures
            r == (*self is Any),
    {
        match self {
            ExposeHeaders::Any => true,
            _ => false,
        }
    }

    /// The `Access-Control-Expose-Headers` entry.
    pub fn to_header(&self) -> (r: Option<HeaderEntry>)
        requires
            self.wf(),
        ensures
            opt_entry_view(r) == opt_named(
                CorsHeaderName::ExposeHeaders,
                self.spec_to_header(),
            ),
    {
        match self {
            ExposeHeaders::Any => Some(
                HeaderEntry { name: CorsHeaderName::ExposeHeaders, value: wildcard_vec() },
            ),
            ExposeHeaders::List(l) => match separated_by_commas(l) {
                Some(joined) => Some(
                    HeaderEntry { name: CorsHeaderName::ExposeHeaders, value: joined },
                ),
                None => None,
            },
        }
    }
}

impl From<crate::Any> for ExposeHeaders {
    /// The wildcard marker configures the wildcard policy.
    fn from(_marker: crate::Any) -> (r: Self) {
        ExposeHeaders::Any
    }
}

impl vstd::std_specs::convert::FromSpecImpl<crate::Any> for ExposeHeaders {
    open spec fn obeys_from_spec() -> bool {
        true
    }

    open spec fn from_spec(_marker: crate::Any) -> Self {
        ExposeHeaders::Any
    }
}

} // verus!
