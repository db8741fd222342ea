//! The response headers this stage can emit, the per-request input it reads,
//! and the decision it hands back to the surrounding server.
use vstd::prelude::*;

verus! {

/// The response header names the CORS stage can emit.
#[derive(Clone, Copy, Debug, PartialEq, Eq, Structural)]
pub enum CorsHeaderName {
    /// `Access-Control-Allow-Origin`
    AllowOrigin,
    /// `Access-Control-Allow-Credentials`
    AllowCredentials,
    /// `Access-Control-Allow-Methods`
    AllowMethods,
    /// `Access-Control-Allow-Headers`
    AllowHeaders,
    /// `Access-Control-Expose-Headers`
    ExposeHeaders,
    /// `Access-Control-Max-Age`
    MaxAge,
    /// `Vary`
    Vary,
}

/// The wire spelling of each emitted header name, lower case.
pub open spec fn spec_wire_name(n: CorsHeaderName) -> Seq<u8> {
    match n {
        CorsHeaderName::AllowOrigin => seq![97u8, 99u8, 99u8, 101u8, 115u8, 115u8, 45u8, 99u8, 111u8, 110u8, 116u8, 114u8, 111u8, 108u8, 45u8, 97u8, 108u8, 108u8, 111u8, 119u8, 45u8, 111u8, 114u8, 105u8, 103u8, 105u8, 110u8],  // access-control-allow-origin
        CorsHeaderName::AllowCredentials => seq![97u8, 99u8, 99u8, 101u8, 115u8, 115u8, 45u8, 99u8, 111u8, 110u8, 116u8, 114u8, 111u8, 108u8, 45u8, 97u8, 108u8, 108u8, 111u8, 119u8, 45u8, 99u8, 114u8, 101u8, 100u8, 101u8, 110u8, 116u8, 105u8, 97u8, 108u8, 115u8],  // access-control-allow-credentials
        CorsHeaderName::AllowMethods => seq![97u8, 99u8, 99u8, 101u8, 115u8, 115u8, 45u8, 99u8, 111u8, 110u8, 116u8, 114u8, 111u8, 108u8, 45u8, 97u8, 108u8, 108u8, 111u8, 119u8, 45u8, 109u8, 101u8, 116u8, 104u8, 111u8, 100u8, 115u8],  // access-control-allow-methods
        CorsHeaderName::AllowHeaders => seq![97u8, 99u8, 99u8, 101u8, 115u8, 115u8, 45u8, 99u8, 111u8, 110u8, 116u8, 114u8, 111u8, 108u8, 45u8, 97u8, 108u8, 108u8, 111u8, 119u8, 45u8, 104u8, 101u8, 97u8, 100u8, 101u8, 114u8, 115u8],  // access-control-allow-headers
        CorsHeaderName::ExposeHeaders => seq![97u8, 99u8, 99u8, 101u8, 115u8, 115u8, 45u8, 99u8, 111u8, 110u8, 116u8, 114u8, 111u8, 108u8, 45u8, 101u8, 120u8, 112u8, 111u8, 115u8, 101u8, 45u8, 104u8, 101u8, 97u8, 100u8, 101u8, 114u8, 115u8],  // access-control-expose-headers
        CorsHeaderName::MaxAge => seq![97u8, 99u8, 99u8, 101u8, 115u8, 115u8, 45u8, 99u8, 111u8, 110u8, 116u8, 114u8, 111u8, 108u8, 45u8, 109u8, 97u8, 120u8, 45u8, 97u8, 103u8, 101u8],  // access-control-max-age
        CorsHeaderName::Vary => seq![118u8, 97u8, 114u8, 121u8],  // vary
    }
}

impl CorsHeaderName {
    /// The header name as the bytes that go on the wire.
    pub fn wire_name(&self) -> (r: Vec<u8>)
        ensures
            r@ == spec_wire_name(*self),
    {
        let r: Vec<u8> = match self {
            CorsHeaderName::AllowOrigin => vec![97u8, 99u8, 99u8, 101u8, 115u8, 115u8, 45u8, 99u8, 111u8, 110u8, 116u8, 114u8, 111u8, 108u8, 45u8, 97u8, 108u8, 108u8, 111u8, 119u8, 45u8, 111u8, 114u8, 105u8, 103u8, 105u8, 110u8],
            CorsHeaderName::AllowCredentials => vec![97u8, 99u8, 99u8, 101u8, 115u8, 115u8, 45u8, 99u8, 111u8, 110u8, 116u8, 114u8, 111u8, 108u8, 45u8, 97u8, 108u8, 108u8, 111u8, 119u8, 45u8, 99u8, 114u8, 101u8, 100u8, 101u8, 110u8, 116u8, 105u8, 97u8, 108u8, 115u8],
            CorsHeaderName::AllowMethods => vec![97u8, 99u8, 99u8, 101u8, 115u8, 115u8, 45u8, 99u8, 111u8, 110u8, 116u8, 114u8, 111u8, 108u8, 45u8, 97u8, 108u8, 108u8, 111u8, 119u8, 45u8, 109u8, 101u8, 116u8, 104u8, 111u8, 100u8, 115u8],
            CorsHeaderName::AllowHeaders => vec![97u8, 99u8, 99u8, 101u8, 115u8, 115u8, 45u8, 99u8, 111u8, 110u8, 116u8, 114u8, 111u8, 108u8, 45u8, 97u8, 108u8, 108u8, 111u8, 119u8, 45u8, 104u8, 101u8, 97u8, 100u8, 101u8, 114u8, 115u8],
            CorsHeaderName::ExposeHeaders => vec![97u8, 99u8, 99u8, 101u8, 115u8, 115u8, 45u8, 99u8, 111u8, 110u8, 116u8, 114u8, 111u8, 108u8, 45u8, 101u8, 120u8, 112u8, 111u8, 115u8, 101u8, 45u8, 104u8, 101u8, 97u8, 100u8, 101u8, 114u8, 115u8],
            CorsHeaderName::MaxAge => vec![97u8, 99u8, 99u8, 101u8, 115u8, 115u8, 45u8, 99u8, 111u8, 110u8, 116u8, 114u8, 111u8, 108u8, 45u8, 109u8, 97u8, 120u8, 45u8, 97u8, 103u8, 101u8],
            CorsHeaderName::Vary => vec![118u8, 97u8, 114u8, 121u8],
        };
        r
    }
}

/// The literal wildcard value `*`.
pub open spec fn spec_wildcard_value() -> Seq<u8> {
    seq![42u8]
}

/// The wildcard value `*` as bytes.
pub fn wildcard_vec() -> (r: Vec<u8>)
    ensures
        r@ == spec_wildcard_value(),
{
    vec![42u8]
}

/// The literal value `true`.
pub open spec fn spec_true_value() -> Seq<u8> {
    seq![116u8, 114u8, 117u8, 101u8]
}

/// The value `true` as bytes.
pub fn true_vec() -> (r: Vec<u8>)
    ensures
        r@ == spec_true_value(),
{
    vec![116u8, 114u8, 117u8, 101u8]
}

/// One response header: a name from the closed set and a raw byte value.
#[derive(Clone, Debug)]
pub struct HeaderEntry {
    /// Which CORS response header this is.
    pub name: CorsHeaderName,
    /// The raw value bytes.
    pub value: Vec<u8>,
}

/// The mathematical model of a response header entry.
pub struct HeaderEntryV {
    /// Which CORS response header this is.
    pub name: CorsHeaderName,
    /// The value bytes.
    pub value: Seq<u8>,
}

impl View for HeaderEntry {
    type V = HeaderEntryV;

    open spec fn view(&self) -> HeaderEntryV {
        HeaderEntryV { name: self.name, value: self.value@ }
    }
}

/// The models of a sequence of header entries.
pub open spec fn entries_view(s: Seq<HeaderEntry>) -> Seq<HeaderEntryV> {
    s.map_values(|e: HeaderEntry| e@)
}

/// The model of an optional header entry.
pub open spec fn opt_entry_view(r: Option<HeaderEntry>) -> Option<HeaderEntryV> {
    match r {
        Some(e) => Some(e@),
        None => None,
    }
}

/// Pairs an optional value with the header name it would be emitted under.
pub open spec fn opt_named(n: CorsHeaderName, v: Option<Seq<u8>>) -> Option<HeaderEntryV> {
    match v {
        Some(value) => Some(HeaderEntryV { name: n, value }),
        None => None,
    }
}

/// An optional entry as a sequence: empty, or that one entry.
pub open spec fn opt_to_seq(e: Option<HeaderEntryV>) -> Seq<HeaderEntryV> {
    match e {
        Some(entry) => seq![entry],
        None => Seq::empty(),
    }
}

/// Whether some entry of `s` carries the header name `n`.
pub open spec fn has_header(s: Seq<HeaderEntryV>, n: CorsHeaderName) -> bool {
    exists|i: int| 0 <= i < s.len() && #[trigger] s[i].name == n
}

/// The value of an optional borrowed byte string.
pub open spec fn opt_bytes_view(o: Option<&Vec<u8>>) -> Option<Seq<u8>> {
    match o {
        Some(v) => Some(v@),
        None => None,
    }
}

/// The value of an optional owned byte string.
pub open spec fn opt_vec_view(o: Option<Vec<u8>>) -> Option<Seq<u8>> {
    match o {
        Some(v) => Some(v@),
        None => None,
    }
}

/// What this stage reads from an inbound request: its method and the three
/// request headers the CORS protocol is concerned with, each absent or its
/// raw byte value.
#[derive(Clone, Debug)]
pub struct CorsRequest {
    /// The request method, verbatim (for example `GET` or `OPTIONS`).
    pub method: Vec<u8>,
    /// The `Origin` header value, if the request carried one.
    pub origin: Option<Vec<u8>>,
    /// The `Access-Control-Request-Method` header value, if present.
    pub request_method: Option<Vec<u8>>,
    /// The `Access-Control-Request-Headers` header value, if present.
    pub request_headers: Option<Vec<u8>>,
}

/// What this stage decides for one request: the headers to add to the
/// response, the status to set (if any), and whether the request goes on to
/// the next stage of the pipeline.
#[derive(Clone, Debug)]
pub struct CorsDecision {
    /// The response headers to add, in emission order.
    pub headers: Vec<HeaderEntry>,
    /// `Some(204)` for a preflight request, which is answered directly;
    /// `None` otherwise, leaving the status to the downstream handler.
    pub status: Option<u16>,
    /// Whether the request is to be forwarded downstream.
    pub forward: bool,
}

/// Appends an optional header entry to the response header list.
pub fn push_opt_entry(headers: &mut Vec<HeaderEntry>, e: Option<HeaderEntry>)
    ensures
        entries_view(final(headers)@) == entries_view(old(headers)@) + opt_to_seq(
            opt_entry_view(e),
        ),
{
    let ghost before = entries_view(headers@);
    match e {
        Some(entry) => {
            let ghost ev = entry@;
            headers.push(entry);
            proof {
                assert(entries_view(headers@) =~= before + opt_to_seq(Some(ev)));
            }
        },
        None => {
            proof {
                assert(entries_view(headers@) =~= before + opt_to_seq(opt_entry_view(e)));
            }
        },
    }
}

} // verus!
