//! The policy behind `Access-Control-Max-Age`.
use vstd::prelude::*;

use crate::headers::{CorsHeaderName, HeaderEntry, opt_entry_view, opt_named};

verus! {

/// The decimal digits of `n`, most significant first, no sign and no
/// leading zero (a single `0` for zero).
pub open spec fn dec_digits(n: nat) -> Seq<u8>
    decreases n,
{
    if n < 10 {
        seq![(48 + n) as u8]
    } else {
        dec_digits(n / 10).push((48 + n % 10) as u8)
    }
}

/// A rendered number is all ASCII digits, with no leading zero except for
/// zero itself.
pub proof fn lemma_dec_digits_shape(n: nat)
    ensures
        dec_digits(n).len() > 0,
        forall|i: int| 0 <= i < dec_digits(n).len() ==> 48 <= #[trigger] dec_digits(n)[i] <= 57,
        n > 0 ==> dec_digits(n)[0] != 48,
    decreases n,
{
    if n >= 10 {
        lemma_dec_digits_shape(n / 10);
    }
}

/// Appends the decimal digits of `n` to `out`.
fn push_decimal(n: u64, out: &mut Vec<u8>)
    ensures
        final(out)@ == old(out)@ + dec_digits(n as nat),
    decreases n,
{
    if n < 10 {
        let ghost before = out@;
        out.push(48 + n as u8);
        proof {
            assert(out@ =~= before + dec_digits(n as nat));
        }
    } else {
        let q = n / 10;
        let rm = n % 10;
        push_decimal(q, out);
        let ghost mid = out@;
        out.push(48 + rm as u8);
        proof {
            assert(out@ =~= mid + seq![(48 + rm) as u8]);
            assert(out@ =~= old(out)@ + dec_digits(n as nat));
        }
    }
}

/// Renders `n` as its decimal digit string.
pub fn u64_decimal(n: u64) -> (r: Vec<u8>)
    ensures
        r@ == dec_digits(n as nat),
{
    let mut out: Vec<u8> = Vec::new();
    push_decimal(n, &mut out);
    proof {
        assert(out@ =~= dec_digits(n as nat));
    }
    out
}

/// Decides the `Access-Control-Max-Age` value of a preflight response: a
/// duration in whole seconds, or nothing when unset.
#[derive(Clone, Debug)]
pub struct MaxAge {
    /// The configured duration in seconds, absent when the header is not to
    /// be sent.
    pub seconds: Option<u64>,
}

impl MaxAge {
    /// The value emitted, if any: the duration as a decimal string.
    pub open spec fn spec_to_header(&self) -> Option<Seq<u8>> {
        match self.seconds {
            Some(s) => Some(dec_digits(s as nat)),
            None => None,
        }
    }

    /// Caches preflight answers for this many seconds.
    pub fn seconds(secs: u64) -> (r: Self)
        ensures
            r.seconds == Some(secs),
    {
        MaxAge { seconds: Some(secs) }
    }

    /// Leaves the header out.
    pub fn unset() -> (r: Self)
        ensures
            r.seconds is None,
    {
        MaxAge { seconds: None }
    }

    /// The `Access-Control-Max-Age` entry.
    pub fn to_header(&self) -> (r: Option<HeaderEntry>)
        ensures
            opt_entry_view(r) == opt_named(CorsHeaderName::MaxAge, self.spec_to_header()),
    {
        match self.seconds {
            Some(secs) => Some(
                HeaderEntry { name: CorsHeaderName::MaxAge, value: u64_decimal(secs) },
            ),
            None => None,
        }
    }
}

} // verus!
