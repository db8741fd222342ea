//! The policy behind `Access-Control-Allow-Credentials`.
use vstd::prelude::*;

use crate::headers::{
    CorsHeaderName, HeaderEntry, opt_bytes_view, opt_entry_view, opt_named, spec_true_value,
    true_vec,
};

verus! {

/// Decides whether `Access-Control-Allow-Credentials: true` is sent.
#[derive(Clone, Debug)]
pub enum AllowCredentials {
    /// Never send the header.
    No,
    /// Send `true` for every request this stage touches.
    Yes,
    /// Send `true` when the configured judgement function accepts this
    /// request's origin. The caller evaluates that function per request and
    /// hands in its verdict; without an origin the header is never sent,
    /// since credentials make no sense without one.
    Predicate,
}

impl AllowCredentials {
    /// The value emitted for a request with the given `Origin` header, if any.
    pub open spec fn spec_to_header(&self, origin: Option<Seq<u8>>, judge: bool) -> Option<
        Seq<u8>,
    > {
        match self {
            AllowCredentials::No => None,
            AllowCredentials::Yes => Some(spec_true_value()),
            AllowCredentials::Predicate => match origin {
                Some(o) => if judge {
                    Some(spec_true_value())
                } else {
                    None
                },
                None => None,
            },
        }
    }

    /// Whether the policy is statically `true`.
    pub fn is_true(&self) -> (r: bool)
        ensures
            r == (*self is Yes),
    {
        match self {
            AllowCredentials::Yes => true,
            _ => false,
        }
    }

    /// The `Access-Control-Allow-Credentials` entry for one request. `judge`
    /// is the verdict of the configured judgement function; it is read only
    /// under [`AllowCredentials::Predicate`].
    pub fn to_header(&self, origin: Option<&Vec<u8>>, judge: bool) -> (r: Option<HeaderEntry>)
        ensures
            opt_entry_view(r) == opt_named(
                CorsHeaderName::AllowCredentials,
                self.spec_to_header(opt_bytes_view(origin), judge),
            ),
    {
        match self {
            AllowCredentials::No => None,
            AllowCredentials::Yes => Some(
                HeaderEntry { name: CorsHeaderName::AllowCredentials, value: true_vec() },
            ),
            AllowCredentials::Predicate => match origin {
                Some(_) => {
                    if judge {
                        Some(HeaderEntry { name: CorsHeaderName::AllowCredentials, value: true_vec() })
                    } else {
                        None
                    }
                },
                None => None,
            },
        }
    }
}

} // verus!
