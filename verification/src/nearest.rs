use vstd::prelude::*;

verus! {

/// Index `i` picks the first minimum of `keys`: the key at `i` is no larger
/// than any key, and every key before `i` is strictly larger. This is the
/// "first minimum wins" tie-break: among equal minimal keys, the earliest
/// index is the one picked.
pub open spec fn is_first_min(keys: Seq<u64>, i: int) -> bool {
    &&& 0 <= i < keys.len()
    &&& forall|j: int| 0 <= j < keys.len() ==> keys[i] <= #[trigger] keys[j]
    &&& forall|j: int| 0 <= j < i ==> keys[i] < #[trigger] keys[j]
}

/// At most one index picks the first minimum, so a result described by
/// `is_first_min` is fully determined.
pub proof fn lemma_first_min_unique(keys: Seq<u64>, i: int, j: int)
    requires
        is_first_min(keys, i),
        is_first_min(keys, j),
    ensures
        i == j,
{
    if i < j {
        assert(keys[i] > keys[j]);
        assert(keys[j] <= keys[i]);
    }
    if j < i {
        assert(keys[j] > keys[i]);
        assert(keys[i] <= keys[j]);
    }
}

/// Returns the index of the first minimum of `keys`: a linear scan with a
/// running minimum, where a later candidate replaces the current one only
/// when its key is strictly smaller.
pub fn first_min_index(keys: &[u64]) -> (i: usize)
    requires
        keys@.len() > 0,
    ensures
        is_first_min(keys@, i as int),
{
    let mut best: usize = 0;
    let mut k: usize = 1;
    while k < keys.len()
        invariant
            0 < keys@.len(),
            best < k,
            k <= keys@.len(),
            forall|j: int| 0 <= j < k ==> keys@[best as int] <= #[trigger] keys@[j],
            forall|j: int| 0 <= j < best ==> keys@[best as int] < #[trigger] keys@[j],
        decreases keys@.len() - k,
    {
        if keys[k] < keys[best] {
            best = k;
        }
        k = k + 1;
    }
    best
}

} // verus!
