//! The security laws of the response-header decision, stated and proved over
//! [`crate::spec_response_headers`].
use vstd::prelude::*;

use crate::bytes_util::{COMMA, comma_join, lemma_comma_join_shape};
use crate::headers::{CorsHeaderName, has_header};
use crate::tokens::is_token;
use crate::{Cors, spec_is_options, spec_response_headers};

verus! {

/// A list of valid tokens joins to a single well-formed value: one comma
/// between neighbouring tokens, no leading, trailing or doubled comma.
pub proof fn lemma_token_list_join_shape(parts: Seq<Seq<u8>>)
    requires
        parts.len() > 0,
        forall|i: int| 0 <= i < parts.len() ==> is_token(#[trigger] parts[i]),
    ensures
        comma_join(parts).len() > 0,
        comma_join(parts)[0] != COMMA,
        comma_join(parts).last() != COMMA,
        forall|k: int|
            0 <= k < comma_join(parts).len() - 1 ==> !(#[trigger] comma_join(parts)[k] == COMMA
                && comma_join(parts)[k + 1] == COMMA),
{
    assert forall|i: int, j: int|
        0 <= i < parts.len() && 0 <= j < parts[i].len() implies parts[i][j] != COMMA by {
        assert(is_token(parts[i]));
    }
    lemma_comma_join_shape(parts);
}

/// For a request with no `Origin` header, `Access-Control-Allow-Origin` is
/// never emitted, whatever the method, unless the origin policy is the
/// origin-independent wildcard.
pub proof fn lemma_no_origin_no_allow_origin(
    c: Cors,
    method: Seq<u8>,
    request_method: Option<Seq<u8>>,
    request_headers: Option<Seq<u8>>,
    origin_judge: bool,
    credentials_judge: bool,
)
    requires
        !(c.allow_origin is Any),
    ensures
        !has_header(
            spec_response_headers(
                c,
                method,
                None,
                request_method,
                request_headers,
                origin_judge,
                credentials_judge,
            ),
            CorsHeaderName::AllowOrigin,
        ),
{
    let s = spec_response_headers(
        c,
        method,
        None,
        request_method,
        request_headers,
        origin_judge,
        credentials_judge,
    );
    assert(c.allow_origin.spec_to_header(None, origin_judge) is None);
    assert forall|i: int| 0 <= i < s.len() implies !(#[trigger] s[i].name
        == CorsHeaderName::AllowOrigin) by {}
}

/// The wildcard origin policy is origin-independent: it emits the literal
/// `*` entry for every request, with or without an `Origin` header.
pub proof fn lemma_wildcard_origin_independent(
    c: Cors,
    method: Seq<u8>,
    origin: Option<Seq<u8>>,
    request_method: Option<Seq<u8>>,
    request_headers: Option<Seq<u8>>,
    origin_judge: bool,
    credentials_judge: bool,
)
    requires
        c.allow_origin is Any,
    ensures
        ({
            let s = spec_response_headers(
                c,
                method,
                origin,
                request_method,
                request_headers,
                origin_judge,
                credentials_judge,
            );
            has_header(s, CorsHeaderName::AllowOrigin) && s[0].name
                == CorsHeaderName::AllowOrigin && s[0].value
                == crate::headers::spec_wildcard_value()
        }),
{
    let s = spec_response_headers(
        c,
        method,
        origin,
        request_method,
        request_headers,
        origin_judge,
        credentials_judge,
    );
    assert(s[0].name == CorsHeaderName::AllowOrigin);
}

/// For an exact origin policy and a request that carries an `Origin` header:
/// the response carries `Access-Control-Allow-Origin` if and only if the
/// origin's bytes are a member of the configured set, and any such entry's
/// value is byte-identical to the request's origin — never the wildcard
/// substituted for it.
#[verifier::rlimit(100)]
pub proof fn lemma_exact_origin_echoed(
    c: Cors,
    method: Seq<u8>,
    origin: Seq<u8>,
    request_method: Option<Seq<u8>>,
    request_headers: Option<Seq<u8>>,
    origin_judge: bool,
    credentials_judge: bool,
)
    requires
        c.allow_origin is Exact,
    ensures
        ({
            let s = spec_response_headers(
                c,
                method,
                Some(origin),
                request_method,
                request_headers,
                origin_judge,
                credentials_judge,
            );
            &&& has_header(s, CorsHeaderName::AllowOrigin) <==> c.allow_origin.spec_exact_set()
                .contains(origin)
            &&& forall|i: int|
                0 <= i < s.len() && (#[trigger] s[i].name) == CorsHeaderName::AllowOrigin
                    ==> s[i].value == origin
        }),
{
    let s = spec_response_headers(
        c,
        method,
        Some(origin),
        request_method,
        request_headers,
        origin_judge,
        credentials_judge,
    );
    let oh = c.allow_origin.spec_to_header(Some(origin), origin_judge);
    if c.allow_origin.spec_exact_set().contains(origin) {
        assert(oh == Some(origin));
        assert(s[0].name == CorsHeaderName::AllowOrigin && s[0].value == origin);
        assert(has_header(s, CorsHeaderName::AllowOrigin));
        assert forall|i: int|
            0 <= i < s.len() && (#[trigger] s[i].name) == CorsHeaderName::AllowOrigin implies s[i].value
            == origin by {}
    } else {
        assert(oh is None);
        assert forall|i: int| 0 <= i < s.len() implies !(#[trigger] s[i].name
            == CorsHeaderName::AllowOrigin) by {}
    }
}

/// A configuration that combines statically-true credentials with any
/// wildcard policy — origin, methods, headers or expose — is unusable, and
/// fails validation before any request is processed.
pub proof fn lemma_credentials_wildcard_unusable(c: Cors)
    requires
        c.allow_credentials is Yes,
        c.allow_origin is Any || c.allow_methods is Any || c.allow_headers is Any
            || c.expose_headers is Any,
    ensures
        !c.spec_usable(),
{
}

/// For every request, whatever the policies: `Access-Control-Allow-Methods`,
/// `Access-Control-Allow-Headers` and `Access-Control-Max-Age` never appear
/// on a non-`OPTIONS` response, and `Access-Control-Expose-Headers` never
/// appears on an `OPTIONS` response.
pub proof fn lemma_preflight_headers_only_on_preflight(
    c: Cors,
    method: Seq<u8>,
    origin: Option<Seq<u8>>,
    request_method: Option<Seq<u8>>,
    request_headers: Option<Seq<u8>>,
    origin_judge: bool,
    credentials_judge: bool,
)
    ensures
        ({
            let s = spec_response_headers(
                c,
                method,
                origin,
                request_method,
                request_headers,
                origin_judge,
                credentials_judge,
            );
            &&& !spec_is_options(method) ==> !has_header(s, CorsHeaderName::AllowMethods)
                && !has_header(s, CorsHeaderName::AllowHeaders) && !has_header(
                s,
                CorsHeaderName::MaxAge,
            )
            &&& spec_is_options(method) ==> !has_header(s, CorsHeaderName::ExposeHeaders)
        }),
{
    let s = spec_response_headers(
        c,
        method,
        origin,
        request_method,
        request_headers,
        origin_judge,
        credentials_judge,
    );
    if !spec_is_options(method) {
        assert forall|i: int| 0 <= i < s.len() implies !(#[trigger] s[i].name
            == CorsHeaderName::AllowMethods) && !(s[i].name == CorsHeaderName::AllowHeaders) && !(
        s[i].name == CorsHeaderName::MaxAge) by {}
    } else {
        assert forall|i: int| 0 <= i < s.len() implies !(#[trigger] s[i].name
            == CorsHeaderName::ExposeHeaders) by {}
    }
}

} // verus!
