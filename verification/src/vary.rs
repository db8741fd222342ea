//! The policy behind the `Vary` response header.
use vstd::prelude::*;

use crate::bytes_util::{comma_join, join_cost, separated_by_commas};
use crate::headers::{CorsHeaderName, HeaderEntry, opt_entry_view, opt_named};
use crate::tokens::{is_token, normalize_token_list, spec_dedup, spec_lower_all};

verus! {

/// The header name `origin`.
pub open spec fn spec_origin_name() -> Seq<u8> {
    seq![111u8, 114u8, 105u8, 103u8, 105u8, 110u8]
}

/// The header name `access-control-request-method`.
pub open spec fn spec_request_method_name() -> Seq<u8> {
    seq![97u8, 99u8, 99u8, 101u8, 115u8, 115u8, 45u8, 99u8, 111u8, 110u8, 116u8, 114u8, 111u8, 108u8, 45u8, 114u8, 101u8, 113u8, 117u8, 101u8, 115u8, 116u8, 45u8, 109u8, 101u8, 116u8, 104u8, 111u8, 100u8]
}

/// The header name `access-control-request-headers`.
pub open spec fn spec_request_headers_name() -> Seq<u8> {
    seq![97u8, 99u8, 99u8, 101u8, 115u8, 115u8, 45u8, 99u8, 111u8, 110u8, 116u8, 114u8, 111u8, 108u8, 45u8, 114u8, 101u8, 113u8, 117u8, 101u8, 115u8, 116u8, 45u8, 104u8, 101u8, 97u8, 100u8, 101u8, 114u8, 115u8]
}

/// The three request headers involved in a CORS preflight request, the
/// default set a response declares as varying.
pub open spec fn spec_preflight_request_headers() -> Seq<Seq<u8>> {
    seq![spec_origin_name(), spec_request_method_name(), spec_request_headers_name()]
}

/// Returns the three request headers that may be involved in a CORS
/// preflight request: the default value of the `Vary` header.
pub fn preflight_request_headers() -> (r: Vec<Vec<u8>>)
    ensures
        r.deep_view() == spec_preflight_request_headers(),
{
    let mut r: Vec<Vec<u8>> = Vec::new();
    r.push(vec![111u8, 114u8, 105u8, 103u8, 105u8, 110u8]);
    r.push(
        vec![97u8, 99u8, 99u8, 101u8, 115u8, 115u8, 45u8, 99u8, 111u8, 110u8, 116u8, 114u8, 111u8, 108u8, 45u8, 114u8, 101u8, 113u8, 117u8, 101u8, 115u8, 116u8, 45u8, 109u8, 101u8, 116u8, 104u8, 111u8, 100u8],
    );
    r.push(
        vec![97u8, 99u8, 99u8, 101u8, 115u8, 115u8, 45u8, 99u8, 111u8, 110u8, 116u8, 114u8, 111u8, 108u8, 45u8, 114u8, 101u8, 113u8, 117u8, 101u8, 115u8, 116u8, 45u8, 104u8, 101u8, 97u8, 100u8, 101u8, 114u8, 115u8],
    );
    proof {
        assert(r.deep_view() =~~= spec_preflight_request_headers());
    }
    r
}

/// The joined length of the default `Vary` set is small.
pub proof fn lemma_preflight_cost()
    ensures
        join_cost(spec_preflight_request_headers()) == 68,
{
    let s = spec_preflight_request_headers();
    assert(s.drop_last() =~= seq![spec_origin_name(), spec_request_method_name()]);
    assert(s.drop_last().drop_last() =~= seq![spec_origin_name()]);
    assert(s.drop_last().drop_last().drop_last() =~= Seq::<Seq<u8>>::empty());
    assert(join_cost(Seq::<Seq<u8>>::empty()) == 0);
    assert(join_cost(seq![spec_origin_name()]) == 7);
    assert(join_cost(s.drop_last()) == 37);
    assert(join_cost(s) == 68);
}

/// Decides which request header names the response declares as varying, so
/// caches never serve a response computed for one origin to another.
#[derive(Clone, Debug)]
pub struct Vary {
    /// The header names to declare, in emission order.
    pub names: Vec<Vec<u8>>,
}

impl Vary {
    /// The configured names never join to more bytes than a `usize` counts.
    pub open spec fn wf(&self) -> bool {
        join_cost(self.names.deep_view()) <= usize::MAX
    }

    /// The `Vary` value emitted, if any: the names comma-joined; nothing
    /// when the set is empty.
    pub open spec fn spec_value(&self) -> Option<Seq<u8>> {
        if self.names.deep_view().len() == 0 {
            None
        } else {
            Some(comma_join(self.names.deep_view()))
        }
    }

    /// Declares exactly these header names as varying. Each must be a valid
    /// header name token; it is folded to lower case, and duplicates are
    /// dropped while the configured order is kept.
    pub fn list(names: Vec<Vec<u8>>) -> (r: Self)
        requires
            forall|i: int|
                0 <= i < names.deep_view().len() ==> is_token(#[trigger] names.deep_view()[i]),
            join_cost(names.deep_view()) <= usize::MAX,
        ensures
            r.names.deep_view() == spec_dedup(spec_lower_all(names.deep_view())),
            r.wf(),
    {
        Vary { names: normalize_token_list(&names, false) }
    }

    /// The configured names, in emission order.
    pub fn values(&self) -> (r: &Vec<Vec<u8>>)
        ensures
            r.deep_view() == self.names.deep_view(),
    {
        &self.names
    }

    /// The `Vary` entry.
    pub fn to_header(&self) -> (r: Option<HeaderEntry>)
        requires
            self.wf(),
        ensures
            opt_entry_view(r) == opt_named(CorsHeaderName::Vary, self.spec_value()),
    {
        match separated_by_commas(&self.names) {
            Some(joined) => Some(HeaderEntry { name: CorsHeaderName::Vary, value: joined }),
            None => None,
        }
    }
}

impl Default for Vary {
    /// The default declares the three preflight request headers.
    fn default() -> (r: Self)
        ensures
            r.names.deep_view() == spec_preflight_request_headers(),
            r.wf(),
    {
        let names = preflight_request_headers();
        proof {
            lemma_preflight_cost();
        }
        Vary { names }
    }
}

} // verus!
