//! Decision and header-composition logic for Cross-Origin Resource Sharing
//! (CORS) enforcement on an HTTP server.
//!
//! The library decides, for one inbound request — its method, its `Origin`
//! header, and for preflight requests the requested method and headers —
//! which CORS response headers to emit, with which byte values, and whether
//! the request is a preflight to be answered directly with an empty success
//! response. The surrounding server owns the request and response objects;
//! it hands this library the few raw header values it reads and applies the
//! [`headers::CorsDecision`] it gets back.
use vstd::prelude::*;

pub mod allow_credentials;
pub mod allow_headers;
pub mod allow_methods;
pub mod allow_origin;
pub mod bytes_util;
pub mod expose_headers;
pub mod headers;
pub mod laws;
pub mod max_age;
pub mod tokens;
pub mod vary;

pub use crate::vary::preflight_request_headers;

use crate::allow_credentials::AllowCredentials;
use crate::allow_headers::AllowHeaders;
use crate::allow_methods::AllowMethods;
use crate::allow_origin::AllowOrigin;
use crate::expose_headers::ExposeHeaders;
use crate::headers::{
    CorsDecision, CorsHeaderName, CorsRequest, HeaderEntryV, entries_view, opt_bytes_view,
    opt_named, opt_to_seq, opt_vec_view, push_opt_entry,
};
use crate::max_age::MaxAge;
use crate::vary::Vary;

verus! {

/// Represents a wildcard value (`*`) used with some CORS headers, such as an
/// allow-methods policy that accepts every method.
#[derive(Debug, Clone, Copy)]
#[must_use]
pub struct Any;

/// True when the byte sequence spells the `OPTIONS` method.
pub open spec fn spec_is_options(m: Seq<u8>) -> bool {
    m == seq![79u8, 80u8, 84u8, 73u8, 79u8, 78u8, 83u8]
}

/// Decides whether a request method is `OPTIONS`, the preflight method.
pub fn is_options_method(m: &Vec<u8>) -> (r: bool)
    ensures
        r == spec_is_options(m@),
{
    let r = m.len() == 7 && m[0] == 79 && m[1] == 80 && m[2] == 84 && m[3] == 73 && m[4] == 79
        && m[5] == 78 && m[6] == 83;
    proof {
        if r {
            assert(m@ =~= seq![79u8, 80u8, 84u8, 73u8, 79u8, 78u8, 83u8]);
        }
    }
    r
}

/// The immutable aggregate of the seven CORS policies, built once via the
/// fluent setters, validated once, and then shared read-only across requests.
#[derive(Clone, Debug)]
pub struct Cors {
    /// The `Access-Control-Allow-Credentials` policy.
    pub allow_credentials: AllowCredentials,
    /// The `Access-Control-Allow-Headers` policy.
    pub allow_headers: AllowHeaders,
    /// The `Access-Control-Allow-Methods` policy.
    pub allow_methods: AllowMethods,
    /// The `Access-Control-Allow-Origin` policy.
    pub allow_origin: AllowOrigin,
    /// The `Access-Control-Expose-Headers` policy.
    pub expose_headers: ExposeHeaders,
    /// The `Access-Control-Max-Age` policy.
    pub max_age: MaxAge,
    /// The `Vary` policy.
    pub vary: Vary,
}

impl Cors {
    /// Every configured list is small enough to join.
    pub open spec fn wf(&self) -> bool {
        self.allow_methods.wf() && self.allow_headers.wf() && self.expose_headers.wf()
            && self.vary.wf()
    }

    /// A usable rule set: credentialed responses are never combined with a
    /// wildcard origin, method, header or expose policy.
    pub open spec fn spec_usable(&self) -> bool {
        self.allow_credentials is Yes ==> !(self.allow_origin is Any) && !(self.allow_methods
            is Any) && !(self.allow_headers is Any) && !(self.expose_headers is Any)
    }

    /// Create new `Cors` with every policy at its default: no credentials,
    /// no allowed headers or methods, no allowed origin, nothing exposed, no
    /// max age, and the three preflight request headers declared as varying.
    pub fn new() -> (r: Self)
        ensures
            r.allow_credentials is No,
            r.allow_headers matches AllowHeaders::List(l) && l@.len() == 0,
            r.allow_methods matches AllowMethods::List(l) && l@.len() == 0,
            r.allow_origin matches AllowOrigin::Exact(l) && l@.len() == 0,
            r.expose_headers matches ExposeHeaders::List(l) && l@.len() == 0,
            r.max_age.seconds is None,
            r.vary.names.deep_view() == crate::vary::spec_preflight_request_headers(),
            r.wf(),
            r.spec_usable(),
    {
        Cors {
            allow_credentials: AllowCredentials::No,
            allow_headers: AllowHeaders::List(Vec::new()),
            allow_methods: AllowMethods::List(Vec::new()),
            allow_origin: AllowOrigin::Exact(Vec::new()),
            expose_headers: ExposeHeaders::List(Vec::new()),
            max_age: MaxAge { seconds: None },
            vary: Vary::default(),
        }
    }

    /// A permissive configuration: all origins, methods and request headers
    /// allowed, all headers exposed.
    pub fn permissive() -> (r: Self)
        ensures
            r.allow_credentials is No,
            r.allow_headers is Any,
            r.allow_methods is Any,
            r.allow_origin is Any,
            r.expose_headers is Any,
            r.max_age.seconds is None,
            r.vary.names.deep_view() == crate::vary::spec_preflight_request_headers(),
            r.wf(),
            r.spec_usable(),
    {
        Self::new().allow_headers(AllowHeaders::Any).allow_methods(AllowMethods::Any).allow_origin(
            AllowOrigin::Any,
        ).expose_headers(ExposeHeaders::Any)
    }

    /// A very permissive configuration: credentials allowed, and the origin,
    /// requested method and requested headers of each preflight request are
    /// mirrored back as allowed. Nothing is exposed.
    pub fn very_permissive() -> (r: Self)
        ensures
            r.allow_credentials is Yes,
            r.allow_headers is MirrorRequest,
            r.allow_methods is MirrorRequest,
            r.allow_origin is MirrorRequest,
            r.expose_headers matches ExposeHeaders::List(l) && l@.len() == 0,
            r.max_age.seconds is None,
            r.vary.names.deep_view() == crate::vary::spec_preflight_request_headers(),
            r.wf(),
            r.spec_usable(),
    {
        Self::new().allow_credentials(AllowCredentials::Yes).allow_headers(
            AllowHeaders::mirror_request(),
        ).allow_methods(AllowMethods::mirror_request()).allow_origin(
            AllowOrigin::mirror_request(),
        )
    }

    /// Sets whether to add the `Access-Control-Allow-Credentials` header.
    pub fn allow_credentials(self, allow_credentials: AllowCredentials) -> (r: Self)
        ensures
            r == (Cors { allow_credentials, ..self }),
    {
        Cors { allow_credentials, ..self }
    }

    /// Sets the list of allowed request headers.
    pub fn allow_headers(self, allow_headers: AllowHeaders) -> (r: Self)
        ensures
            r == (Cors { allow_headers, ..self }),
    {
        Cors { allow_headers, ..self }
    }

    /// Sets the `Access-Control-Max-Age` header.
    pub fn max_age(self, max_age: MaxAge) -> (r: Self)
        ensures
            r == (Cors { max_age, ..self }),
    {
        Cors { max_age, ..self }
    }

    /// Sets the list of allowed request methods.
    pub fn allow_methods(self, allow_methods: AllowMethods) -> (r: Self)
        ensures
            r == (Cors { allow_methods, ..self }),
    {
        Cors { allow_methods, ..self }
    }

    /// Sets the value of the `Access-Control-Allow-Origin` header.
    pub fn allow_origin(self, allow_origin: AllowOrigin) -> (r: Self)
        ensures
            r == (Cors { allow_origin, ..self }),
    {
        Cors { allow_origin, ..self }
    }

    /// Sets the value of the `Access-Control-Expose-Headers` header.
    pub fn expose_headers(self, expose_headers: ExposeHeaders) -> (r: Self)
        ensures
            r == (Cors { expose_headers, ..self }),
    {
        Cors { expose_headers, ..self }
    }

    /// Sets the value(s) of the `Vary` header. In contrast to the other
    /// headers, this one has a non-empty default: the three preflight
    /// request headers.
    pub fn vary(self, vary: Vary) -> (r: Self)
        ensures
            r == (Cors { vary, ..self }),
    {
        Cors { vary, ..self }
    }

    /// Checks the build-time contract: `Access-Control-Allow-Credentials:
    /// true` cannot be combined with a wildcard origin, method, header or
    /// expose policy. A configuration that fails this check must not be
    /// turned into a handler.
    pub fn ensure_usable_cors_rules(&self) -> (r: bool)
        ensures
            r == self.spec_usable(),
    {
        if self.allow_credentials.is_true() {
            !self.allow_origin.is_wildcard() && !self.allow_methods.is_wildcard()
                && !self.allow_headers.is_wildcard() && !self.expose_headers.is_wildcard()
        } else {
            true
        }
    }

    /// Returns a new `CorsHandler` using the current CORS settings. Only a
    /// usable rule set (see [`Cors::ensure_usable_cors_rules`]) may be
    /// wrapped: an unusable one must abort configuration instead.
    pub fn into_handler(self) -> (r: CorsHandler)
        requires
            self.spec_usable(),
        ensures
            r.0 == self,
    {
        CorsHandler(self)
    }
}

impl Default for Cors {
    /// The same configuration as [`Cors::new`].
    fn default() -> (r: Self)
        ensures
            r.allow_credentials is No,
            r.allow_headers matches AllowHeaders::List(l) && l@.len() == 0,
            r.allow_methods matches AllowMethods::List(l) && l@.len() == 0,
            r.allow_origin matches AllowOrigin::Exact(l) && l@.len() == 0,
            r.expose_headers matches ExposeHeaders::List(l) && l@.len() == 0,
            r.max_age.seconds is None,
            r.vary.names.deep_view() == crate::vary::spec_preflight_request_headers(),
            r.wf(),
            r.spec_usable(),
    {
        Self::new()
    }
}

/// The response headers decided for one request, in emission order: the
/// allow-origin and allow-credentials entries and the `Vary` entry for every
/// request; then, for a preflight request, the allow-methods and
/// allow-headers entries — only when the origin policy produced a header —
/// and the max-age entry; for any other request, the expose-headers entry.
pub open spec fn spec_response_headers(
    c: Cors,
    method: Seq<u8>,
    origin: Option<Seq<u8>>,
    request_method: Option<Seq<u8>>,
    request_headers: Option<Seq<u8>>,
    origin_judge: bool,
    credentials_judge: bool,
) -> Seq<HeaderEntryV> {
    let origin_h = opt_named(
        CorsHeaderName::AllowOrigin,
        c.allow_origin.spec_to_header(origin, origin_judge),
    );
    let cred_h = opt_named(
        CorsHeaderName::AllowCredentials,
        c.allow_credentials.spec_to_header(origin, credentials_judge),
    );
    let vary_h = opt_named(CorsHeaderName::Vary, c.vary.spec_value());
    let base = opt_to_seq(origin_h) + opt_to_seq(cred_h) + opt_to_seq(vary_h);
    if spec_is_options(method) {
        let detail = if origin_h is Some {
            opt_to_seq(
                opt_named(CorsHeaderName::AllowMethods, c.allow_methods.spec_to_header(request_method)),
            ) + opt_to_seq(
                opt_named(CorsHeaderName::AllowHeaders, c.allow_headers.spec_to_header(request_headers)),
            )
        } else {
            Seq::empty()
        };
        base + detail + opt_to_seq(opt_named(CorsHeaderName::MaxAge, c.max_age.spec_to_header()))
    } else {
        base + opt_to_seq(
            opt_named(CorsHeaderName::ExposeHeaders, c.expose_headers.spec_to_header()),
        )
    }
}

/// The request-handling stage wrapping a validated [`Cors`] configuration.
#[derive(Clone, Debug)]
pub struct CorsHandler(pub Cors);

impl CorsHandler {
    /// Decides the CORS response for one request.
    ///
    /// `origin_judge` and `credentials_judge` are the verdicts of the
    /// configured judgement functions on this request's origin, evaluated by
    /// the caller; each is read only when the respective policy is its
    /// `Predicate` variant.
    ///
    /// A preflight (`OPTIONS`) request is answered directly with status 204
    /// and is never forwarded downstream; every other request is forwarded,
    /// with no status set by this stage.
    pub fn handle(&self, req: &CorsRequest, origin_judge: bool, credentials_judge: bool) -> (d:
        CorsDecision)
        requires
            self.0.wf(),
        ensures
            entries_view(d.headers@) == spec_response_headers(
                self.0,
                req.method@,
                opt_vec_view(req.origin),
                opt_vec_view(req.request_method),
                opt_vec_view(req.request_headers),
                origin_judge,
                credentials_judge,
            ),
            d.status == (if spec_is_options(req.method@) {
                Some(204u16)
            } else {
                None
            }),
            d.forward == !spec_is_options(req.method@),
    {
        let origin = req.origin.as_ref();
        let request_method = req.request_method.as_ref();
        let request_headers = req.request_headers.as_ref();
        proof {
            assert(opt_bytes_view(origin) == opt_vec_view(req.origin));
            assert(opt_bytes_view(request_method) == opt_vec_view(req.request_method));
            assert(opt_bytes_view(request_headers) == opt_vec_view(req.request_headers));
        }
        let ghost spec_headers = spec_response_headers(
            self.0,
            req.method@,
            opt_vec_view(req.origin),
            opt_vec_view(req.request_method),
            opt_vec_view(req.request_headers),
            origin_judge,
            credentials_judge,
        );

        let mut headers: Vec<crate::headers::HeaderEntry> = Vec::new();

        // These headers apply to both preflight and regular CORS requests.
        let origin_entry = self.0.allow_origin.to_header(origin, origin_judge);
        let origin_allowed = origin_entry.is_some();
        push_opt_entry(&mut headers, origin_entry);
        push_opt_entry(&mut headers, self.0.allow_credentials.to_header(origin, credentials_judge));
        push_opt_entry(&mut headers, self.0.vary.to_header());

        // Answer a preflight request immediately.
        if is_options_method(&req.method) {
            // These headers apply only to preflight requests, and only when
            // the origin policy allowed the request's origin.
            if origin_allowed {
                push_opt_entry(&mut headers, self.0.allow_methods.to_header(request_method));
                push_opt_entry(&mut headers, self.0.allow_headers.to_header(request_headers));
            }
            push_opt_entry(&mut headers, self.0.max_age.to_header());
            proof {
                assert(entries_view(headers@) =~= spec_headers);
            }
            CorsDecision { headers, status: Some(204), forward: false }
        } else {
            // This header applies only to non-preflight requests.
            push_opt_entry(&mut headers, self.0.expose_headers.to_header());
            proof {
                assert(entries_view(headers@) =~= spec_headers);
            }
            CorsDecision { headers, status: None, forward: true }
        }
    }
}

} // verus!

