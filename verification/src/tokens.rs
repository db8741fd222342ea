//! Validated header tokens: the token character set shared by HTTP method
//! names and header field names, case normalization, and duplicate removal
//! that keeps the configured order.
use vstd::prelude::*;

use crate::bytes_util::{COMMA, contains_bytes, join_cost};

verus! {

/// Whether a byte is a token character of a header field name or method name:
/// a letter, a digit, or one of `! # $ % & ' * + - . ^ _ ` | ~`.
pub open spec fn is_token_byte(b: u8) -> bool {
    (48 <= b <= 57)  // digit
    || (65 <= b <= 90)  // upper-case letter
    || (97 <= b <= 122)  // lower-case letter
    || b == 33 || (35 <= b <= 39) || b == 42 || b == 43 || b == 45 || b == 46 || b == 94 || b == 95
        || b == 96 || b == 124 || b == 126
}

/// A valid token: non-empty, token characters throughout.
pub open spec fn is_token(s: Seq<u8>) -> bool {
    s.len() > 0 && forall|i: int| 0 <= i < s.len() ==> is_token_byte(#[trigger] s[i])
}

/// The byte with any upper-case letter folded to lower case.
pub open spec fn spec_lower_byte(b: u8) -> u8 {
    if 65 <= b <= 90 {
        (b + 32) as u8
    } else {
        b
    }
}

/// The byte with any lower-case letter folded to upper case.
pub open spec fn spec_upper_byte(b: u8) -> u8 {
    if 97 <= b <= 122 {
        (b - 32) as u8
    } else {
        b
    }
}

/// The byte string folded to lower case.
pub open spec fn spec_lower(s: Seq<u8>) -> Seq<u8> {
    s.map_values(|b: u8| spec_lower_byte(b))
}

/// The byte string folded to upper case.
pub open spec fn spec_upper(s: Seq<u8>) -> Seq<u8> {
    s.map_values(|b: u8| spec_upper_byte(b))
}

/// Every byte string of the sequence folded to lower case.
pub open spec fn spec_lower_all(parts: Seq<Seq<u8>>) -> Seq<Seq<u8>> {
    parts.map_values(|s: Seq<u8>| spec_lower(s))
}

/// Every byte string of the sequence folded to upper case.
pub open spec fn spec_upper_all(parts: Seq<Seq<u8>>) -> Seq<Seq<u8>> {
    parts.map_values(|s: Seq<u8>| spec_upper(s))
}

/// Case folding keeps token validity.
pub proof fn lemma_case_fold_token(s: Seq<u8>)
    requires
        is_token(s),
    ensures
        is_token(spec_lower(s)),
        is_token(spec_upper(s)),
        spec_lower(s).len() == s.len(),
        spec_upper(s).len() == s.len(),
{
}

/// Tokens never hold a comma.
pub proof fn lemma_token_no_comma(s: Seq<u8>)
    requires
        is_token(s),
    ensures
        forall|i: int| 0 <= i < s.len() ==> s[i] != COMMA,
{
}

/// Folds a byte string to lower case.
pub fn lower_bytes(v: &Vec<u8>) -> (r: Vec<u8>)
    ensures
        r@ == spec_lower(v@),
{
    let mut r: Vec<u8> = Vec::new();
    let mut i: usize = 0;
    while i < v.len()
        invariant
            0 <= i <= v@.len(),
            r@.len() == i,
            forall|j: int| 0 <= j < i ==> r@[j] == spec_lower_byte(#[trigger] v@[j]),
        decreases v@.len() - i,
    {
        let b = v[i];
        if 65 <= b && b <= 90 {
            r.push(b + 32);
        } else {
            r.push(b);
        }
        i += 1;
    }
    proof {
        assert(r@ =~= spec_lower(v@));
    }
    r
}

/// Folds a byte string to upper case.
pub fn upper_bytes(v: &Vec<u8>) -> (r: Vec<u8>)
    ensures
        r@ == spec_upper(v@),
{
    let mut r: Vec<u8> = Vec::new();
    let mut i: usize = 0;
    while i < v.len()
        invariant
            0 <= i <= v@.len(),
            r@.len() == i,
            forall|j: int| 0 <= j < i ==> r@[j] == spec_upper_byte(#[trigger] v@[j]),
        decreases v@.len() - i,
    {
        let b = v[i];
        if 97 <= b && b <= 122 {
            r.push(b - 32);
        } else {
            r.push(b);
        }
        i += 1;
    }
    proof {
        assert(r@ =~= spec_upper(v@));
    }
    r
}

/// Whether a byte string is a valid token.
pub fn is_valid_token(v: &Vec<u8>) -> (r: bool)
    ensures
        r == is_token(v@),
{
    if v.len() == 0 {
        return false;
    }
    let mut i: usize = 0;
    while i < v.len()
        invariant
            0 <= i <= v@.len(),
            forall|j: int| 0 <= j < i ==> is_token_byte(#[trigger] v@[j]),
        decreases v@.len() - i,
    {
        let b = v[i];
        let ok = (48 <= b && b <= 57) || (65 <= b && b <= 90) || (97 <= b && b <= 122) || b == 33
            || (35 <= b && b <= 39) || b == 42 || b == 43 || b == 45 || b == 46 || b == 94 || b
            == 95 || b == 96 || b == 124 || b == 126;
        if !ok {
            return false;
        }
        i += 1;
    }
    true
}

/// The sequence with every repetition of an earlier element removed: each
/// element keeps its first position, later copies are dropped.
pub open spec fn spec_dedup(parts: Seq<Seq<u8>>) -> Seq<Seq<u8>>
    decreases parts.len(),
{
    if parts.len() == 0 {
        Seq::empty()
    } else {
        let rest = spec_dedup(parts.drop_last());
        if rest.contains(parts.last()) {
            rest
        } else {
            rest.push(parts.last())
        }
    }
}

/// No element appears twice after duplicate removal.
pub proof fn lemma_spec_dedup_no_duplicates(parts: Seq<Seq<u8>>)
    ensures
        forall|i: int, j: int|
            0 <= i < j < spec_dedup(parts).len() ==> #[trigger] spec_dedup(parts)[i]
                != #[trigger] spec_dedup(parts)[j],
        forall|x: Seq<u8>| spec_dedup(parts).contains(x) == parts.contains(x),
    decreases parts.len(),
{
    if parts.len() > 0 {
        lemma_spec_dedup_no_duplicates(parts.drop_last());
        let rest = spec_dedup(parts.drop_last());
        assert forall|x: Seq<u8>| spec_dedup(parts).contains(x) == parts.contains(x) by {
            if spec_dedup(parts).contains(x) {
                if rest.contains(x) {
                    assert(parts.drop_last().contains(x));
                    let k = choose|k: int|
                        0 <= k < parts.drop_last().len() && parts.drop_last()[k] == x;
                    assert(parts[k] == x);
                } else {
                    assert(x == parts.last());
                    assert(parts[parts.len() - 1] == x);
                }
            }
            if parts.contains(x) {
                let k = choose|k: int| 0 <= k < parts.len() && parts[k] == x;
                if k < parts.len() - 1 {
                    assert(parts.drop_last()[k] == x);
                    assert(parts.drop_last().contains(x));
                    assert(rest.contains(x));
                    if !rest.contains(parts.last()) {
                        assert(spec_dedup(parts) == rest.push(parts.last()));
                        let m = choose|m: int| 0 <= m < rest.len() && rest[m] == x;
                        assert(spec_dedup(parts)[m] == x);
                    }
                } else {
                    if rest.contains(parts.last()) {
                        let m = choose|m: int| 0 <= m < rest.len() && rest[m] == x;
                        assert(spec_dedup(parts)[m] == x);
                    } else {
                        assert(spec_dedup(parts)[rest.len() as int] == x);
                    }
                }
            }
        }
    }
}

/// Case-folds every entry of `input` (to upper case when `upper` is set, else
/// to lower case), drops the duplicates that arise, and keeps first-seen
/// order. The result's tokens are valid whenever the input's are, and its
/// join cost never grows.
pub fn normalize_token_list(input: &Vec<Vec<u8>>, upper: bool) -> (r: Vec<Vec<u8>>)
    ensures
        upper ==> r.deep_view() == spec_dedup(spec_upper_all(input.deep_view())),
        !upper ==> r.deep_view() == spec_dedup(spec_lower_all(input.deep_view())),
        join_cost(r.deep_view()) <= join_cost(input.deep_view()),
        (forall|i: int| 0 <= i < input.deep_view().len() ==> is_token(#[trigger] input.deep_view()[i]))
            ==> forall|i: int| 0 <= i < r.deep_view().len() ==> is_token(#[trigger] r.deep_view()[i]),
{
    let ghost dv = input.deep_view();
    let ghost folded = if upper {
        spec_upper_all(dv)
    } else {
        spec_lower_all(dv)
    };
    let mut r: Vec<Vec<u8>> = Vec::new();
    let mut i: usize = 0;
    while i < input.len()
        invariant
            0 <= i <= input@.len(),
            dv == input.deep_view(),
            dv.len() == input@.len(),
            folded == if upper {
                spec_upper_all(dv)
            } else {
                spec_lower_all(dv)
            },
            r.deep_view() == spec_dedup(folded.take(i as int)),
            join_cost(r.deep_view()) <= join_cost(dv.take(i as int)),
            (forall|j: int| 0 <= j < i ==> is_token(#[trigger] dv[j])) ==> forall|j: int|
                0 <= j < r.deep_view().len() ==> is_token(#[trigger] r.deep_view()[j]),
        decreases input@.len() - i,
    {
        proof {
            assert(dv[i as int] =~= input@[i as int]@);
        }
        let folded_tok = if upper {
            upper_bytes(&input[i])
        } else {
            lower_bytes(&input[i])
        };
        proof {
            assert(folded[i as int] == folded_tok@);
            assert(folded.take(i + 1 as int).drop_last() =~= folded.take(i as int));
            assert(dv.take(i + 1 as int).drop_last() =~= dv.take(i as int));
            if is_token(dv[i as int]) {
                lemma_case_fold_token(dv[i as int]);
            }
        }
        proof {
            assert(join_cost(dv.take(i + 1 as int)) == join_cost(dv.take(i as int)) + dv[i
                as int].len() + 1);
            assert(folded[i as int].len() == dv[i as int].len());
        }
        let dup = contains_bytes(&r, &folded_tok);
        if !dup {
            let ghost old_r = r.deep_view();
            r.push(folded_tok);
            proof {
                assert(r.deep_view() =~~= old_r.push(folded[i as int]));
                assert(r.deep_view().drop_last() =~= old_r);
                assert(join_cost(r.deep_view()) == join_cost(old_r) + folded[i as int].len() + 1);
            }
        }
        i += 1;
    }
    proof {
        assert(folded.take(dv.len() as int) =~= folded);
        assert(dv.take(dv.len() as int) =~= dv);
    }
    r
}

} // verus!
