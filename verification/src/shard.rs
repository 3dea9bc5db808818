//! Byte-lexicographic key order and half-open shard ranges.
//!
//! A shard owns the key range `[start, end)` under byte-wise lexicographic
//! order. An empty `end` stands for "+infinity" (the range is unbounded on
//! the right); the empty `start` is the smallest key, so an empty `start`
//! means the range is unbounded on the left as well.

use vstd::prelude::*;

verus! {

/// Strict lexicographic order on byte sequences: `a` comes before `b`.
pub open spec fn lex_lt(a: Seq<u8>, b: Seq<u8>) -> bool
    decreases a.len(),
{
    if b.len() == 0 {
        false
    } else if a.len() == 0 {
        true
    } else if a[0] < b[0] {
        true
    } else if a[0] > b[0] {
        false
    } else {
        lex_lt(a.skip(1), b.skip(1))
    }
}

/// Non-strict lexicographic order on byte sequences.
pub open spec fn lex_le(a: Seq<u8>, b: Seq<u8>) -> bool {
    lex_lt(a, b) || a == b
}

/// Lexicographic order is irreflexive.
pub proof fn lemma_lex_lt_irreflexive(a: Seq<u8>)
    ensures
        !lex_lt(a, a),
    decreases a.len(),
{
    if a.len() > 0 {
        lemma_lex_lt_irreflexive(a.skip(1));
    }
}

/// Exactly one of `a < b`, `a == b`, `b < a` holds.
pub proof fn lemma_lex_lt_trichotomy(a: Seq<u8>, b: Seq<u8>)
    ensures
        lex_lt(a, b) || lex_lt(b, a) || a == b,
        lex_lt(a, b) ==> !lex_lt(b, a) && a != b,
    decreases a.len(),
{
    if a.len() == 0 && b.len() == 0 {
        assert(a =~= b);
    } else if a.len() > 0 && b.len() > 0 && a[0] == b[0] {
        lemma_lex_lt_trichotomy(a.skip(1), b.skip(1));
        if a.skip(1) == b.skip(1) {
            assert forall|k: int| 0 <= k < a.len() implies a[k] == b[k] by {
                if k > 0 {
                    assert(a.skip(1)[k - 1] == b.skip(1)[k - 1]);
                }
            }
            assert(a =~= b);
        }
        if a == b {
            assert(a.skip(1) =~= b.skip(1));
        }
    } else {
        if a == b {
            assert(a.skip(1) =~= b.skip(1));
        }
    }
}

/// Lexicographic order is transitive.
pub proof fn lemma_lex_lt_transitive(a: Seq<u8>, b: Seq<u8>, c: Seq<u8>)
    requires
        lex_lt(a, b),
        lex_lt(b, c),
    ensures
        lex_lt(a, c),
    decreases a.len(),
{
    if a.len() > 0 && b.len() > 0 && c.len() > 0 && a[0] == b[0] && b[0] == c[0] {
        lemma_lex_lt_transitive(a.skip(1), b.skip(1), c.skip(1));
    }
}

/// The non-strict order is transitive as well.
pub proof fn lemma_lex_le_transitive(a: Seq<u8>, b: Seq<u8>, c: Seq<u8>)
    requires
        lex_le(a, b),
        lex_le(b, c),
    ensures
        lex_le(a, c),
{
    if a != b && b != c {
        lemma_lex_lt_transitive(a, b, c);
    }
}

/// Compares two byte strings in lexicographic order, strictly.
pub fn bytes_lt(a: &[u8], b: &[u8]) -> (r: bool)
    ensures
        r == lex_lt(a@, b@),
{
    let mut i: usize = 0;
    proof {
        assert(a@.skip(0) =~= a@);
        assert(b@.skip(0) =~= b@);
    }
    while i < a.len() && i < b.len()
        invariant
            i <= a@.len(),
            i <= b@.len(),
            lex_lt(a@, b@) == lex_lt(a@.skip(i as int), b@.skip(i as int)),
        decreases a@.len() - i,
    {
        if a[i] < b[i] {
            return true;
        }
        if a[i] > b[i] {
            return false;
        }
        proof {
            assert(a@.skip(i as int).skip(1) =~= a@.skip(i + 1));
            assert(b@.skip(i as int).skip(1) =~= b@.skip(i + 1));
        }
        i = i + 1;
    }
    proof {
        if i >= a@.len() {
            assert(a@.skip(i as int) =~= Seq::<u8>::empty());
        }
        if i >= b@.len() {
            assert(b@.skip(i as int) =~= Seq::<u8>::empty());
        }
    }
    a.len() < b.len()
}

/// Compares two byte strings in lexicographic order, non-strictly.
pub fn bytes_le(a: &[u8], b: &[u8]) -> (r: bool)
    ensures
        r == lex_le(a@, b@),
{
    let r = !bytes_lt(b, a);
    proof {
        lemma_lex_lt_trichotomy(a@, b@);
    }
    r
}

/// Tests two byte strings for equality.
pub fn bytes_eq(a: &[u8], b: &[u8]) -> (r: bool)
    ensures
        r == (a@ == b@),
{
    if a.len() != b.len() {
        return false;
    }
    let mut i: usize = 0;
    while i < a.len()
        invariant
            i <= a@.len(),
            a@.len() == b@.len(),
            forall|j: int| 0 <= j < i ==> a@[j] == b@[j],
        decreases a@.len() - i,
    {
        if a[i] != b[i] {
            return false;
        }
        i = i + 1;
    }
    proof {
        assert(a@ =~= b@);
    }
    true
}

/// The half-open range `[start, end)` contains `key`; an empty `end` is
/// unbounded on the right.
pub open spec fn range_contains(start: Seq<u8>, end: Seq<u8>, key: Seq<u8>) -> bool {
    lex_le(start, key) && (end.len() == 0 || lex_lt(key, end))
}

/// The key range of one shard of a table.
#[derive(Clone, Debug)]
pub struct RangePartition {
    /// The first key of the range, inclusive.
    pub start: Vec<u8>,
    /// The first key past the range, exclusive; empty means unbounded.
    pub end: Vec<u8>,
}

/// A shard: a contiguous key range of one table.
#[derive(Clone, Debug)]
pub struct ShardDesc {
    pub id: u64,
    pub table_id: u64,
    pub range: RangePartition,
}

/// The shard's range contains `key`.
pub open spec fn shard_contains(shard: ShardDesc, key: Seq<u8>) -> bool {
    range_contains(shard.range.start@, shard.range.end@, key)
}

/// Decides whether `key` belongs to `shard`'s half-open range.
pub fn belong_to(shard: &ShardDesc, key: &[u8]) -> (r: bool)
    ensures
        r == shard_contains(*shard, key@),
{
    bytes_le(shard.range.start.as_slice(), key)
        && (shard.range.end.len() == 0 || bytes_lt(key, shard.range.end.as_slice()))
}

/// Why no split key could be settled on.
#[derive(Debug, PartialEq, Eq, Structural)]
pub enum SplitKeyFault {
    /// The caller named a split key outside the shard's range.
    OutOfRange,
    /// The caller named none and the engine estimated none.
    NoEstimate,
}

/// Settles the key a shard splits at: a caller-provided key must lie in
/// the shard's range; without one, the engine's estimate is taken, and
/// without either the split is refused.
pub fn choose_split_key(
    shard: &ShardDesc,
    user_key: Option<Vec<u8>>,
    estimated_key: Option<Vec<u8>>,
) -> (r: Result<Vec<u8>, SplitKeyFault>)
    ensures
        user_key matches Some(k) ==> if shard_contains(*shard, k@) {
            r == Result::<Vec<u8>, SplitKeyFault>::Ok(k)
        } else {
            r == Result::<Vec<u8>, SplitKeyFault>::Err(SplitKeyFault::OutOfRange)
        },
        user_key is None ==> match estimated_key {
            Some(k) => r == Result::<Vec<u8>, SplitKeyFault>::Ok(k),
            None => r == Result::<Vec<u8>, SplitKeyFault>::Err(SplitKeyFault::NoEstimate),
        },
{
    match user_key {
        Some(key) => {
            if belong_to(shard, key.as_slice()) {
                Ok(key)
            } else {
                Err(SplitKeyFault::OutOfRange)
            }
        },
        None => match estimated_key {
            Some(key) => Ok(key),
            None => Err(SplitKeyFault::NoEstimate),
        },
    }
}

/// A range always contains its own start key when it is non-empty
/// (the left bound is inclusive).
pub proof fn lemma_range_start_inclusive(start: Seq<u8>, end: Seq<u8>)
    requires
        end.len() == 0 || lex_lt(start, end),
    ensures
        range_contains(start, end, start),
{
}

/// A bounded range never contains its own end key (the right bound is
/// exclusive).
pub proof fn lemma_range_end_exclusive(start: Seq<u8>, end: Seq<u8>)
    requires
        end.len() > 0,
    ensures
        !range_contains(start, end, end),
{
    lemma_lex_lt_irreflexive(end);
}

} // verus!
