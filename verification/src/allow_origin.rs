//! The policy behind `Access-Control-Allow-Origin`.
use vstd::prelude::*;

use crate::bytes_util::{contains_bytes, copy_bytes};
use crate::headers::{
    CorsHeaderName, HeaderEntry, opt_bytes_view, opt_entry_view, opt_named, spec_wildcard_value,
    wildcard_vec,
};

verus! {

/// Decides the `Access-Control-Allow-Origin` value, and with it whether the
/// request's origin is allowed at all.
///
/// An allowed origin is echoed back verbatim, never normalized: browsers
/// compare the header byte for byte against the request's own origin.
#[derive(Clone, Debug)]
pub enum AllowOrigin {
    /// Emit the literal wildcard `*` for every request.
    Any,
    /// Echo the request's origin when its bytes are a member of this set.
    Exact(Vec<Vec<u8>>),
    /// Echo the request's origin when the configured judgement function
    /// accepts it. The caller evaluates that function per request (it must be
    /// side-effect-free) and hands in its verdict.
    Predicate,
    /// Echo the request's origin whenever one is present.
    MirrorRequest,
}

impl AllowOrigin {
    /// The value emitted for a request with the given `Origin` header, if any.
    pub open spec fn spec_to_header(&self, origin: Option<Seq<u8>>, judge: bool) -> Option<
        Seq<u8>,
    > {
        match self {
            AllowOrigin::Any => Some(spec_wildcard_value()),
            AllowOrigin::Exact(allowed) => match origin {
                Some(o) => if allowed.deep_view().contains(o) {
                    Some(o)
                } else {
                    None
                },
                None => None,
            },
            AllowOrigin::Predicate => match origin {
                Some(o) => if judge {
                    Some(o)
                } else {
                    None
                },
                None => None,
            },
            AllowOrigin::MirrorRequest => origin,
        }
    }

    /// The configured set of allowed origins of an [`AllowOrigin::Exact`]
    /// policy; empty for the other variants.
    pub open spec fn spec_exact_set(&self) -> Seq<Seq<u8>>
        recommends
            self is Exact,
    {
        match self {
            AllowOrigin::Exact(l) => l.deep_view(),
            _ => Seq::empty(),
        }
    }

    /// Allows exactly one origin.
    pub fn exact(origin: Vec<u8>) -> (r: Self)
        ensures
            r matches AllowOrigin::Exact(l) && l.deep_view() == seq![origin@],
    {
        let ghost o = origin@;
        let mut allowed: Vec<Vec<u8>> = Vec::new();
        allowed.push(origin);
        proof {
            assert(allowed.deep_view() =~~= seq![o]);
        }
        AllowOrigin::Exact(allowed)
    }

    /// Allows every origin of the list, each compared verbatim.
    pub fn list(origins: Vec<Vec<u8>>) -> (r: Self)
        ensures
            r matches AllowOrigin::Exact(l) && l == origins,
    {
        AllowOrigin::Exact(origins)
    }

    /// Leaves the decision to a judgement function evaluated by the caller.
    pub fn predicate() -> (r: Self)
        ensures
            r is Predicate,
    {
        AllowOrigin::Predicate
    }

    /// Echoes whatever origin the request carries.
    pub fn mirror_request() -> (r: Self)
        ensures
            r is MirrorRequest,
    {
        AllowOrigin::MirrorRequest
    }

    /// Whether the policy is the wildcard.
    pub fn is_wildcard(&self) -> (r: bool)
        ensures
            r == (*self is Any),
    {
        match self {
            AllowOrigin::Any => true,
            _ => false,
        }
    }

    /// The `Access-Control-Allow-Origin` entry for one request. `judge` is
    /// the verdict of the configured judgement function on this request's
    /// origin; it is read only under [`AllowOrigin::Predicate`].
    pub fn to_header(&self, origin: Option<&Vec<u8>>, judge: bool) -> (r: Option<HeaderEntry>)
        ensures
            opt_entry_view(r) == opt_named(
                CorsHeaderName::AllowOrigin,
                self.spec_to_header(opt_bytes_view(origin), judge),
            ),
    {
        match self {
            AllowOrigin::Any => Some(
                HeaderEntry { name: CorsHeaderName::AllowOrigin, value: wildcard_vec() },
            ),
            AllowOrigin::Exact(allowed) => match origin {
                Some(o) => {
                    if contains_bytes(allowed, o) {
                        Some(HeaderEntry { name: CorsHeaderName::AllowOrigin, value: copy_bytes(o) })
                    } else {
                        None
                    }
                },
                None => None,
            },
            AllowOrigin::Predicate => match origin {
                Some(o) => {
                    if judge {
                        Some(HeaderEntry { name: CorsHeaderName::AllowOrigin, value: copy_bytes(o) })
                    } else {
                        None
                    }
                },
                None => None,
            },
            AllowOrigin::MirrorRequest => match origin {
                Some(o) => Some(
                    HeaderEntry { name: CorsHeaderName::AllowOrigin, value: copy_bytes(o) },
                ),
                None => None,
            },
        }
    }
}

impl From<crate::Any> for AllowOrigin {
    /// The wildcard marker configures the wildcard policy.
    fn from(_marker: crate::Any) -> (r: Self) {
        AllowOrigin::Any
    }
}

impl vstd::std_specs::convert::FromSpecImpl<crate::Any> for AllowOrigin {
    open spec fn obeys_from_spec() -> bool {
        true
    }

    open spec fn from_spec(_marker: crate::Any) -> Self {
        AllowOrigin::Any
    }
}

} // verus!
