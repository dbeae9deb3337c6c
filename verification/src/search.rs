use vstd::prelude::*;

verus! {

/// The pattern occurs in `data` starting at position `i`.
pub open spec fn matches_at(data: Seq<u8>, pattern: Seq<u8>, i: int) -> bool {
    &&& 0 <= i
    &&& i + pattern.len() <= data.len()
    &&& forall|j: int| 0 <= j < pattern.len() ==> data[i + j] == pattern[j]
}

/// The pattern occurs somewhere in `data`.
pub open spec fn contains_pattern(data: Seq<u8>, pattern: Seq<u8>) -> bool {
    exists|i: int| matches_at(data, pattern, i)
}

/// Number of positions below `n` at which the pattern occurs.
pub open spec fn count_matches_below(data: Seq<u8>, pattern: Seq<u8>, n: int) -> nat
    decreases n,
{
    if n <= 0 {
        0
    } else {
        count_matches_below(data, pattern, n - 1) + if matches_at(data, pattern, n - 1) {
            1nat
        } else {
            0nat
        }
    }
}

/// Number of occurrences of the pattern in `data`, overlapping occurrences
/// counted separately.
pub open spec fn count_matches(data: Seq<u8>, pattern: Seq<u8>) -> nat {
    count_matches_below(data, pattern, data.len() - pattern.len() + 1)
}

/// Byte-for-byte comparison of `pattern` against `data` at position `i`.
pub fn match_at(data: &Vec<u8>, pattern: &Vec<u8>, i: usize) -> (r: bool)
    requires
        i + pattern@.len() <= data@.len(),
    ensures
        r == matches_at(data@, pattern@, i as int),
{
    let dlen = data.len();
    let mut j: usize = 0;
    while j < pattern.len()
        invariant
            dlen == data@.len(),
            i + pattern@.len() <= data@.len(),
            j <= pattern@.len(),
            forall|k: int| 0 <= k < j ==> data@[i + k] == pattern@[k],
        decreases pattern@.len() - j,
    {
        if data[i + j] != pattern[j] {
            assert(!matches_at(data@, pattern@, i as int));
            return false;
        }
        j = j + 1;
    }
    true
}

/// Sliding-window search for the first occurrence of the pattern.
pub fn find_pattern(data: &Vec<u8>, pattern: &Vec<u8>) -> (r: Option<usize>)
    requires
        pattern@.len() >= 1,
    ensures
        match r {
            Some(p) => matches_at(data@, pattern@, p as int) && (forall|i: int|
                0 <= i < p ==> !matches_at(data@, pattern@, i)),
            None => !contains_pattern(data@, pattern@),
        },
{
    if data.len() < pattern.len() {
        return None;
    }
    let end = data.len() - pattern.len() + 1;
    let mut i: usize = 0;
    while i < end
        invariant
            pattern@.len() >= 1,
            end == data@.len() - pattern@.len() + 1,
            i <= end,
            forall|k: int| 0 <= k < i ==> !matches_at(data@, pattern@, k),
        decreases end - i,
    {
        if match_at(data, pattern, i) {
            return Some(i);
        }
        i = i + 1;
    }
    None
}

/// Sliding-window count of every occurrence of the pattern; a match does not
/// advance the window past itself, so overlapping occurrences all count.
pub fn count_pattern(data: &Vec<u8>, pattern: &Vec<u8>) -> (n: usize)
    requires
        pattern@.len() >= 1,
    ensures
        n == count_matches(data@, pattern@),
{
    if data.len() < pattern.len() {
        return 0;
    }
    let end = data.len() - pattern.len() + 1;
    let mut i: usize = 0;
    let mut n: usize = 0;
    while i < end
        invariant
            pattern@.len() >= 1,
            end == data@.len() - pattern@.len() + 1,
            i <= end,
            n <= i,
            n == count_matches_below(data@, pattern@, i as int),
        decreases end - i,
    {
        if match_at(data, pattern, i) {
            n = n + 1;
        }
        i = i + 1;
    }
    n
}

/// The count of occurrences is zero exactly when no position below `n` matches.
proof fn lemma_count_below_zero(data: Seq<u8>, pattern: Seq<u8>, n: int)
    ensures
        (count_matches_below(data, pattern, n) == 0) <==> (forall|i: int|
            0 <= i < n ==> !matches_at(data, pattern, i)),
    decreases n,
{
    if n > 0 {
        lemma_count_below_zero(data, pattern, n - 1);
    }
}

/// The pattern occurs in `data` exactly when its occurrence count is nonzero.
pub proof fn lemma_count_zero_iff_not_contains(data: Seq<u8>, pattern: Seq<u8>)
    requires
        pattern.len() >= 1,
    ensures
        (count_matches(data, pattern) == 0) <==> !contains_pattern(data, pattern),
{
    let end = data.len() - pattern.len() + 1;
    lemma_count_below_zero(data, pattern, end);
    if contains_pattern(data, pattern) {
        let i = choose|i: int| matches_at(data, pattern, i);
        assert(i < end);
    }
}

} // verus!
