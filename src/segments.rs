use vstd::prelude::*;

verus! {

/// Where the `i`-th segment ends (exclusive): at the start of the next one,
/// or at the end of the series for the last.
pub open spec fn segment_end(starts: Seq<usize>, n: int, i: int) -> int {
    if i + 1 < starts.len() {
        starts[i + 1] as int
    } else {
        n
    }
}

/// The starts describe a breakdown of a series of `n` values into segments:
/// the first starts at zero, and each one is non-empty.
pub open spec fn valid_segment_starts(starts: Seq<usize>, n: int) -> bool {
    &&& starts.len() >= 1
    &&& starts[0] == 0
    &&& forall|i: int| 0 <= i < starts.len() ==> (#[trigger] starts[i]) < segment_end(starts, n, i)
}

/// The half-open range `[start, end)` of each segment whose start is listed in
/// `starts`, the last one ending at `n`; `None` when the starts do not begin at
/// zero or do not rise strictly below `n`.
pub fn half_open_segments(starts: &Vec<usize>, n: usize) -> (r: Option<Vec<(usize, usize)>>)
    ensures
        r is Some <==> valid_segment_starts(starts@, n as int),
        r is Some ==> {
            let segs = r->Some_0@;
            &&& segs.len() == starts@.len()
            &&& forall|i: int|
                0 <= i < segs.len() ==> #[trigger] segs[i] == (
                    starts@[i],
                    segment_end(starts@, n as int, i) as usize,
                )
        },
{
    if starts.len() == 0 || starts[0] != 0 {
        return None;
    }
    let mut out: Vec<(usize, usize)> = Vec::new();
    let mut i: usize = 0;
    while i < starts.len()
        invariant
            i <= starts@.len(),
            starts@.len() >= 1,
            starts@[0] == 0,
            out@.len() == i,
            forall|k: int|
                0 <= k < i ==> (#[trigger] starts@[k]) < segment_end(starts@, n as int, k),
            forall|k: int|
                0 <= k < i ==> #[trigger] out@[k] == (
                    starts@[k],
                    segment_end(starts@, n as int, k) as usize,
                ),
        decreases starts@.len() - i,
    {
        let end = if i + 1 < starts.len() {
            starts[i + 1]
        } else {
            n
        };
        if starts[i] >= end {
            return None;
        }
        out.push((starts[i], end));
        i = i + 1;
    }
    Some(out)
}

/// Segment starts rise strictly: an earlier segment starts before a later one.
proof fn lemma_starts_ascend(starts: Seq<usize>, n: int, i: int, k: int)
    requires
        valid_segment_starts(starts, n),
        0 <= i < k < starts.len(),
    ensures
        starts[i] < starts[k],
        segment_end(starts, n, i) <= starts[k],
    decreases k - i,
{
    assert(starts[i] < segment_end(starts, n, i));
    if k > i + 1 {
        lemma_starts_ascend(starts, n, i + 1, k);
        assert(starts[i + 1] < segment_end(starts, n, i + 1));
    }
}

/// Every index below the end of the `m`-th segment lies in one of the first
/// `m + 1` segments.
proof fn lemma_prefix_covered(starts: Seq<usize>, n: int, m: int, j: int)
    requires
        valid_segment_starts(starts, n),
        0 <= m < starts.len(),
        0 <= j < segment_end(starts, n, m),
    ensures
        exists|i: int| 0 <= i <= m && starts[i] <= j < #[trigger] segment_end(starts, n, i),
    decreases m,
{
    if j >= starts[m] {
        assert(starts[m] <= j < segment_end(starts, n, m));
    } else {
        assert(m > 0);
        assert(segment_end(starts, n, m - 1) == starts[m]);
        lemma_prefix_covered(starts, n, m - 1, j);
    }
}

/// Index `j` lies in the `i`-th segment.
pub open spec fn in_segment(starts: Seq<usize>, n: int, i: int, j: int) -> bool {
    0 <= i < starts.len() && starts[i] <= j < segment_end(starts, n, i)
}

/// Index `j` lies in some segment.
pub open spec fn covered(starts: Seq<usize>, n: int, j: int) -> bool {
    exists|i: int| #[trigger] in_segment(starts, n, i, j)
}

/// The segments of a breakdown partition the series: the first starts at
/// zero, each ends where the next starts, the last ends at `n`, none is
/// empty, and every index in `[0, n)` lies in exactly one of them.
pub proof fn lemma_segments_partition(starts: Seq<usize>, n: int)
    requires
        valid_segment_starts(starts, n),
    ensures
        starts[0] == 0,
        segment_end(starts, n, starts.len() - 1) == n,
        forall|i: int|
            0 <= i < starts.len() - 1 ==> segment_end(starts, n, i) == #[trigger] starts[i + 1],
        forall|i: int| 0 <= i < starts.len() ==> starts[i] < #[trigger] segment_end(starts, n, i),
        forall|j: int| 0 <= j < n ==> #[trigger] covered(starts, n, j),
        forall|i: int, k: int, j: int|
            #[trigger] in_segment(starts, n, i, j) && #[trigger] in_segment(starts, n, k, j) ==> i
                == k,
{
    let last = starts.len() - 1;
    assert forall|j: int| 0 <= j < n implies #[trigger] covered(starts, n, j) by {
        lemma_prefix_covered(starts, n, last, j);
        let i = choose|i: int| 0 <= i <= last && starts[i] <= j < #[trigger] segment_end(starts, n, i);
        assert(in_segment(starts, n, i, j));
    }
    assert forall|i: int, k: int, j: int|
        #[trigger] in_segment(starts, n, i, j) && #[trigger] in_segment(starts, n, k, j) implies i
        == k by {
        if i < k {
            lemma_starts_ascend(starts, n, i, k);
        } else if k < i {
            lemma_starts_ascend(starts, n, k, i);
        }
    }
}

} // verus!
