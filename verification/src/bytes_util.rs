//! Byte-string helpers: comparison, copying, membership, and the
//! comma-separated joining of header value lists.
//!
//! The joining buffer is a `bytes::BytesMut`, as the surrounding HTTP
//! machinery uses; its operations are taken on trust with contracts over
//! [`bytes_mut_view`].
use vstd::prelude::*;

verus! {

/// The byte value of `,`, the separator of multi-valued headers.
pub const COMMA: u8 = 44;

/// Compares two byte strings for equality, byte for byte.
pub fn bytes_eq(a: &Vec<u8>, b: &Vec<u8>) -> (r: bool)
    ensures
        r == (a@ == b@),
{
    if a.len() != b.len() {
        return false;
    }
    let mut i: usize = 0;
    while i < a.len()
        invariant
            0 <= i <= a@.len(),
            a@.len() == b@.len(),
            forall|j: int| 0 <= j < i ==> a@[j] == b@[j],
        decreases a@.len() - i,
    {
        if a[i] != b[i] {
            return false;
        }
        i += 1;
    }
    proof {
        assert(a@ =~= b@);
    }
    true
}

/// Copies a byte string into a fresh vector.
pub fn copy_bytes(v: &Vec<u8>) -> (r: Vec<u8>)
    ensures
        r@ == v@,
{
    let mut r: Vec<u8> = Vec::new();
    let mut i: usize = 0;
    while i < v.len()
        invariant
            0 <= i <= v@.len(),
            r@ == v@.take(i as int),
        decreases v@.len() - i,
    {
        r.push(v[i]);
        proof {
            assert(r@ =~= v@.take(i + 1 as int));
        }
        i += 1;
    }
    proof {
        assert(v@.take(v@.len() as int) =~= v@);
    }
    r
}

/// Whether `list` holds a byte string equal to `x`.
pub fn contains_bytes(list: &Vec<Vec<u8>>, x: &Vec<u8>) -> (r: bool)
    ensures
        r == list.deep_view().contains(x@),
{
    let mut i: usize = 0;
    while i < list.len()
        invariant
            0 <= i <= list@.len(),
            list.deep_view().len() == list@.len(),
            forall|j: int| 0 <= j < i ==> list.deep_view()[j] != x@,
        decreases list@.len() - i,
    {
        let hit = bytes_eq(&list[i], x);
        proof {
            assert(list.deep_view()[i as int] =~= list@[i as int]@);
        }
        if hit {
            return true;
        }
        i += 1;
    }
    proof {
        if list.deep_view().contains(x@) {
            let j = choose|j: int| 0 <= j < list.deep_view().len() && list.deep_view()[j] == x@;
            assert(false);
        }
    }
    false
}

/// The tokens joined by a single comma between each neighbouring pair,
/// with no other bytes added.
pub open spec fn comma_join(parts: Seq<Seq<u8>>) -> Seq<u8>
    decreases parts.len(),
{
    if parts.len() == 0 {
        Seq::empty()
    } else if parts.len() == 1 {
        parts[0]
    } else {
        comma_join(parts.drop_last()) + seq![COMMA] + parts.last()
    }
}

/// An upper bound on the joined length: every token plus one separator each.
pub open spec fn join_cost(parts: Seq<Seq<u8>>) -> nat
    decreases parts.len(),
{
    if parts.len() == 0 {
        0
    } else {
        join_cost(parts.drop_last()) + parts.last().len() + 1
    }
}

/// A non-empty join is exactly one byte shorter than its cost.
pub proof fn lemma_comma_join_len(parts: Seq<Seq<u8>>)
    ensures
        parts.len() > 0 ==> comma_join(parts).len() + 1 == join_cost(parts),
        parts.len() == 0 ==> comma_join(parts).len() == 0 && join_cost(parts) == 0,
    decreases parts.len(),
{
    if parts.len() > 0 {
        lemma_comma_join_len(parts.drop_last());
    }
}

/// The cost of a prefix never exceeds the cost of the whole.
pub proof fn lemma_join_cost_prefix_le(parts: Seq<Seq<u8>>, k: int)
    requires
        0 <= k <= parts.len(),
    ensures
        join_cost(parts.take(k)) <= join_cost(parts),
    decreases parts.len(),
{
    if k == parts.len() {
        assert(parts.take(k) =~= parts);
    } else if parts.len() > 0 {
        assert(parts.drop_last().take(k) =~= parts.take(k));
        lemma_join_cost_prefix_le(parts.drop_last(), k);
    }
}

/// Extending a joined prefix by one separator and one token joins the longer prefix.
pub proof fn lemma_comma_join_step(parts: Seq<Seq<u8>>, i: int)
    requires
        1 <= i < parts.len(),
    ensures
        comma_join(parts.take(i + 1)) == comma_join(parts.take(i)) + seq![COMMA] + parts[i],
        join_cost(parts.take(i + 1)) == join_cost(parts.take(i)) + parts[i].len() + 1,
{
    assert(parts.take(i + 1).drop_last() =~= parts.take(i));
    assert(parts.take(i + 1).last() == parts[i]);
}

#[verifier::external_type_specification]
#[verifier::external_body]
pub struct ExBytesMut(bytes::BytesMut);

/// The bytes a `bytes::BytesMut` buffer holds, in order.
pub uninterp spec fn bytes_mut_view(b: bytes::BytesMut) -> Seq<u8>;

/// Relies on `BytesMut`'s `From<&[u8]>`: the buffer starts as a copy of the slice.
#[verifier::external_body]
fn bytes_mut_from_slice(v: &[u8]) -> (r: bytes::BytesMut)
    ensures
        bytes_mut_view(r) == v@,
{
    bytes::BytesMut::from(v)
}

/// Relies on `BytesMut::reserve`: it grows capacity and leaves the contents alone.
/// It panics when the new capacity overflows `usize`, so that is kept out.
#[verifier::external_body]
fn bytes_mut_reserve(b: &mut bytes::BytesMut, additional: usize)
    requires
        bytes_mut_view(*old(b)).len() + additional <= usize::MAX,
    ensures
        bytes_mut_view(*final(b)) == bytes_mut_view(*old(b)),
{
    b.reserve(additional)
}

/// Relies on `BufMut::put_u8` for `BytesMut`: it appends the one byte, growing
/// the buffer as needed; it panics only when no room at all is left.
#[verifier::external_body]
fn bytes_mut_put_u8(b: &mut bytes::BytesMut, x: u8)
    requires
        bytes_mut_view(*old(b)).len() < usize::MAX,
    ensures
        bytes_mut_view(*final(b)) == bytes_mut_view(*old(b)).push(x),
{
    bytes::BufMut::put_u8(b, x)
}

/// Relies on `BytesMut::extend_from_slice`: it appends the slice's bytes in
/// order. It panics when the new capacity overflows `usize`, so that is kept out.
#[verifier::external_body]
fn bytes_mut_extend_from_slice(b: &mut bytes::BytesMut, v: &[u8])
    requires
        bytes_mut_view(*old(b)).len() + v@.len() <= usize::MAX,
    ensures
        bytes_mut_view(*final(b)) == bytes_mut_view(*old(b)) + v@,
{
    b.extend_from_slice(v)
}

/// Relies on `BytesMut::freeze` and `Bytes`'s `From` into `Vec<u8>`: both keep
/// the bytes as they are.
#[verifier::external_body]
fn bytes_mut_into_vec(b: bytes::BytesMut) -> (r: Vec<u8>)
    ensures
        r@ == bytes_mut_view(b),
{
    Vec::from(b.freeze())
}

/// Joins header values with single commas: `None` for an empty list, else the
/// values in order, one comma between each neighbouring pair.
///
/// The output buffer reserves room for all tokens and separators at once.
pub fn separated_by_commas(values: &Vec<Vec<u8>>) -> (r: Option<Vec<u8>>)
    requires
        join_cost(values.deep_view()) <= usize::MAX,
    ensures
        r is Some <==> values@.len() > 0,
        r matches Some(v) ==> v@ == comma_join(values.deep_view()),
{
    let ghost all = values.deep_view();
    proof {
        assert(all.len() == values@.len());
    }
    if values.len() == 0 {
        return None;
    }
    proof {
        lemma_join_cost_prefix_le(all, 1);
    }

    // Room needed beyond the first token: each later token plus its separator.
    let mut extra: usize = 0;
    let mut i: usize = 1;
    while i < values.len()
        invariant
            1 <= i <= all.len(),
            all.len() == values@.len(),
            all == values.deep_view(),
            join_cost(all.take(1)) <= usize::MAX,
            extra + join_cost(all.take(1)) == join_cost(all.take(i as int)),
            join_cost(all) <= usize::MAX,
        decreases all.len() - i,
    {
        proof {
            assert(all[i as int] =~= values@[i as int]@);
            lemma_comma_join_step(all, i as int);
            lemma_join_cost_prefix_le(all, i + 1 as int);
        }
        extra = extra + values[i].len() + 1;
        i += 1;
    }

    let mut buf = bytes_mut_from_slice(values[0].as_slice());
    proof {
        assert(all.take(values@.len() as int) =~= all);
        assert(all.take(1) =~= seq![all[0]]);
        assert(all[0] =~= values@[0]@);
        assert(comma_join(all.take(1)) == all[0]);
        lemma_comma_join_len(all.take(1));
    }
    bytes_mut_reserve(&mut buf, extra);

    let mut k: usize = 1;
    while k < values.len()
        invariant
            1 <= k <= all.len(),
            all.len() == values@.len(),
            all == values.deep_view(),
            bytes_mut_view(buf) == comma_join(all.take(k as int)),
            join_cost(all) <= usize::MAX,
        decreases all.len() - k,
    {
        proof {
            assert(all[k as int] =~= values@[k as int]@);
            lemma_comma_join_step(all, k as int);
            lemma_comma_join_len(all.take(k + 1 as int));
            lemma_comma_join_len(all.take(k as int));
            lemma_join_cost_prefix_le(all, k + 1 as int);
        }
        bytes_mut_put_u8(&mut buf, COMMA);
        bytes_mut_extend_from_slice(&mut buf, values[k].as_slice());
        k += 1;
    }
    proof {
        assert(all.take(all.len() as int) =~= all);
    }
    Some(bytes_mut_into_vec(buf))
}

/// A comma-joined list of non-empty, comma-free tokens starts and ends with a
/// token byte and never puts two commas side by side.
pub proof fn lemma_comma_join_shape(parts: Seq<Seq<u8>>)
    requires
        parts.len() > 0,
        forall|i: int| 0 <= i < parts.len() ==> parts[i].len() > 0,
        forall|i: int, j: int|
            0 <= i < parts.len() && 0 <= j < parts[i].len() ==> parts[i][j] != COMMA,
    ensures
        comma_join(parts).len() > 0,
        comma_join(parts)[0] != COMMA,
        comma_join(parts).last() != COMMA,
        forall|k: int|
            0 <= k < comma_join(parts).len() - 1 ==> !(#[trigger] comma_join(parts)[k] == COMMA
                && comma_join(parts)[k + 1] == COMMA),
    decreases parts.len(),
{
    if parts.len() == 1 {
        assert(comma_join(parts) == parts[0]);
    } else {
        let pre = parts.drop_last();
        let lst = parts.last();
        lemma_comma_join_shape(pre);
        let j = comma_join(parts);
        let pj = comma_join(pre);
        assert(j == pj + seq![COMMA] + lst);
        assert(j[0] == pj[0]);
        assert(j.last() == lst.last());
        assert(lst.last() != COMMA);
        assert forall|k: int| 0 <= k < j.len() - 1 implies !(#[trigger] j[k] == COMMA && j[k + 1]
            == COMMA) by {
            if k + 1 < pj.len() {
                // both bytes lie in the joined prefix
            } else if k + 1 == pj.len() {
                // the pair straddles nothing: both bytes still index the prefix
                assert(j[k] == pj[k]);
            } else if k == pj.len() {
                // j[k] is the separator, j[k + 1] the first byte of the last token
                assert(j[k + 1] == lst[0]);
            } else {
                // both bytes lie in the last token
                assert(j[k] == lst[k - pj.len() - 1]);
                assert(j[k + 1] == lst[k + 1 - pj.len() - 1]);
            }
        }
    }
}

} // verus!
