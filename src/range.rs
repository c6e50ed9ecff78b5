use vstd::prelude::*;
use vstd::slice::slice_to_vec;
use vstd::string::StringSliceAdditionalSpecFns;

verus! {

/// Strict lexicographic order on byte strings, as the store orders its keys.
pub open spec fn bytes_lt(a: Seq<u8>, b: Seq<u8>) -> bool
    decreases a.len(),
{
    if b.len() == 0 {
        false
    } else if a.len() == 0 {
        true
    } else if a[0] != b[0] {
        a[0] < b[0]
    } else {
        bytes_lt(a.drop_first(), b.drop_first())
    }
}

/// Non-strict lexicographic order on byte strings.
pub open spec fn bytes_le(a: Seq<u8>, b: Seq<u8>) -> bool {
    bytes_lt(a, b) || a == b
}

/// Whether `key` lies in the half-open range `[start, end)` in byte order.
/// The store reads a range this way only for an end other than a lone zero
/// byte (that end means "no upper bound"); a non-empty key followed by a zero
/// byte is never such an end.
pub open spec fn in_half_open(key: Seq<u8>, start: Seq<u8>, end: Seq<u8>) -> bool {
    bytes_le(start, key) && bytes_lt(key, end)
}

/// Whether `key` lies in the closed range `[start, end]`.
pub open spec fn in_closed(key: Seq<u8>, start: Seq<u8>, end: Seq<u8>) -> bool {
    bytes_le(start, key) && bytes_le(key, end)
}

/// Bytes of the exclusive upper bound that closes a key range at `end_inclusive`:
/// the inclusive key followed by one zero byte.
pub fn make_exclusive_end_from_inclusive(end_inclusive: &str) -> (r: Vec<u8>)
    ensures
        r@ == end_inclusive.spec_bytes().push(0u8),
{
    let mut end = slice_to_vec(end_inclusive.as_bytes());
    end.push(0u8);
    end
}

/// A key sorts strictly before `end` followed by a zero byte exactly when it
/// sorts at or before `end`.
pub proof fn lemma_zero_suffix_closes(key: Seq<u8>, end: Seq<u8>)
    ensures
        bytes_lt(key, end.push(0u8)) <==> bytes_le(key, end),
    decreases end.len(),
{
    let e0 = end.push(0u8);
    if key.len() == 0 {
        if end.len() > 0 {
            assert(bytes_lt(key, end));
        } else {
            assert(key =~= end);
        }
    } else if end.len() == 0 {
        assert(e0 =~= seq![0u8]);
        if key[0] == 0u8 {
            assert(e0.drop_first() =~= Seq::<u8>::empty());
            assert(!bytes_lt(key.drop_first(), e0.drop_first()));
        }
        assert(!bytes_lt(key, e0));
        assert(!bytes_lt(key, end));
        assert(key != end);
    } else {
        assert(e0[0] == end[0]);
        if key[0] == end[0] {
            assert(e0.drop_first() =~= end.drop_first().push(0u8));
            assert(bytes_lt(key, e0) == bytes_lt(key.drop_first(), end.drop_first().push(0u8)));
            assert(bytes_lt(key, end) == bytes_lt(key.drop_first(), end.drop_first()));
            lemma_zero_suffix_closes(key.drop_first(), end.drop_first());
            if key.drop_first() == end.drop_first() {
                assert(key =~= seq![key[0]] + key.drop_first());
                assert(end =~= seq![end[0]] + end.drop_first());
            }
            if key == end {
                assert(key.drop_first() == end.drop_first());
            }
        } else {
            assert(bytes_lt(key, e0) == (key[0] < end[0]));
            assert(bytes_lt(key, end) == (key[0] < end[0]));
            assert(key != end);
        }
    }
}

/// In byte order, the half-open range from `start` up to `end_inclusive`
/// followed by a zero byte holds exactly the keys of the closed range
/// `[start, end_inclusive]`. For a non-empty `end_inclusive` this is the
/// range the store reads.
pub proof fn lemma_range_bound_is_inclusive(key: Seq<u8>, start: Seq<u8>, end_inclusive: Seq<u8>)
    ensures
        in_half_open(key, start, end_inclusive.push(0u8)) <==> in_closed(key, start, end_inclusive),
{
    lemma_zero_suffix_closes(key, end_inclusive);
}

/// Compares two byte strings in the store's key order.
pub fn bytes_less(a: &[u8], b: &[u8]) -> (r: bool)
    ensures
        r == bytes_lt(a@, b@),
{
    let mut i: usize = 0;
    proof {
        assert(a@.skip(0) =~= a@);
        assert(b@.skip(0) =~= b@);
    }
    while i < a.len() && i < b.len()
        invariant
            0 <= i <= a@.len(),
            i <= b@.len(),
            bytes_lt(a@, b@) == bytes_lt(a@.skip(i as int), b@.skip(i as int)),
        decreases a@.len() - i,
    {
        if a[i] != b[i] {
            return a[i] < b[i];
        }
        proof {
            assert(a@.skip(i as int).drop_first() =~= a@.skip(i + 1));
            assert(b@.skip(i as int).drop_first() =~= b@.skip(i + 1));
        }
        i += 1;
    }
    i < b.len()
}

/// Byte order is transitive.
pub proof fn lemma_lt_transitive(a: Seq<u8>, b: Seq<u8>, c: Seq<u8>)
    requires
        bytes_lt(a, b),
        bytes_lt(b, c),
    ensures
        bytes_lt(a, c),
    decreases a.len(),
{
    if a.len() > 0 && a[0] == b[0] && b[0] == c[0] {
        lemma_lt_transitive(a.drop_first(), b.drop_first(), c.drop_first());
    }
}

/// No byte string sorts before itself.
pub proof fn lemma_lt_irreflexive(a: Seq<u8>)
    ensures
        !bytes_lt(a, a),
    decreases a.len(),
{
    if a.len() > 0 {
        lemma_lt_irreflexive(a.drop_first());
    }
}

/// A closed range whose end is empty, or sorts before its start, holds no
/// non-empty key.
pub proof fn lemma_closed_range_empty(key: Seq<u8>, start: Seq<u8>, end: Seq<u8>)
    requires
        key.len() > 0,
        end.len() == 0 || bytes_lt(end, start),
    ensures
        !in_closed(key, start, end),
{
    if in_closed(key, start, end) && end.len() != 0 {
        if bytes_lt(start, key) {
            if bytes_lt(key, end) {
                lemma_lt_transitive(start, key, end);
                lemma_lt_transitive(start, end, start);
            } else {
                lemma_lt_transitive(start, end, start);
            }
        } else if bytes_lt(key, end) {
            lemma_lt_transitive(start, end, start);
        }
        lemma_lt_irreflexive(start);
    }
}

} // verus!
