//! Runs of `true` in a per-sample mask.
//!
//! Pull detection looks for maximal runs of samples that are both at WOT
//! and have rising RPM; several rules ask whether a breach persists for
//! at least a given number of consecutive samples.

use vstd::prelude::*;

verus! {

/// `runs` lists the maximal runs of `true` in `mask`, as half-open
/// `(start, end)` index pairs in ascending order.
pub open spec fn maximal_runs(mask: Seq<bool>, runs: Seq<(usize, usize)>) -> bool {
    &&& forall|k: int| 0 <= k < runs.len() ==> #[trigger] runs[k].0 < runs[k].1 <= mask.len()
    &&& forall|k: int| 0 <= k < runs.len() ==> all_true(mask, #[trigger] runs[k].0 as int, runs[k].1 as int)
    &&& forall|k: int| 0 <= k < runs.len() ==> (#[trigger] runs[k].0 == 0 || !mask[runs[k].0 - 1])
    &&& forall|k: int| 0 <= k < runs.len() ==> (#[trigger] runs[k].1 == mask.len() || !mask[runs[k].1 as int])
    &&& forall|k: int, l: int| 0 <= k < l < runs.len() ==> #[trigger] runs[k].1 < #[trigger] runs[l].0
    &&& forall|i: int| 0 <= i < mask.len() && #[trigger] mask[i] ==> exists|k: int|
        0 <= k < runs.len() && runs[k].0 <= i < #[trigger] runs[k].1
}

/// Every sample in `s..e` is `true`.
pub open spec fn all_true(mask: Seq<bool>, s: int, e: int) -> bool {
    forall|i: int| s <= i < e ==> #[trigger] mask[i]
}

/// Some `k` consecutive samples are all `true`.
pub open spec fn has_run(mask: Seq<bool>, k: int) -> bool {
    exists|s: int| 0 <= s && s + k <= mask.len() && #[trigger] all_true(mask, s, s + k)
}

/// Sample-wise conjunction of two masks of equal length.
pub fn and_masks(a: &Vec<bool>, b: &Vec<bool>) -> (r: Vec<bool>)
    requires
        a@.len() == b@.len(),
    ensures
        r@.len() == a@.len(),
        forall|i: int| 0 <= i < r@.len() ==> #[trigger] r@[i] == (a@[i] && b@[i]),
{
    let n = a.len();
    let mut out: Vec<bool> = Vec::new();
    let mut i: usize = 0;
    while i < n
        invariant
            n == a@.len(),
            n == b@.len(),
            i <= n,
            out@.len() == i,
            forall|k: int| 0 <= k < i ==> #[trigger] out@[k] == (a@[k] && b@[k]),
        decreases n - i,
    {
        out.push(a[i] && b[i]);
        i = i + 1;
    }
    out
}

/// The maximal runs of `true` in `mask`, in ascending order.
pub fn true_runs(mask: &Vec<bool>) -> (r: Vec<(usize, usize)>)
    ensures
        maximal_runs(mask@, r@),
{
    let n = mask.len();
    let mut runs: Vec<(usize, usize)> = Vec::new();
    let mut i: usize = 0;
    while i < n
        invariant
            n == mask@.len(),
            i <= n,
            forall|k: int| 0 <= k < runs@.len() ==> #[trigger] runs@[k].0 < runs@[k].1 <= i,
            forall|k: int| 0 <= k < runs@.len() ==> all_true(mask@, #[trigger] runs@[k].0 as int, runs@[k].1 as int),
            forall|k: int| 0 <= k < runs@.len() ==> (#[trigger] runs@[k].0 == 0 || !mask@[runs@[k].0 - 1]),
            forall|k: int| 0 <= k < runs@.len() ==> (#[trigger] runs@[k].1 == n || !mask@[runs@[k].1 as int]),
            forall|k: int, l: int| 0 <= k < l < runs@.len() ==> #[trigger] runs@[k].1 < #[trigger] runs@[l].0,
            forall|j: int| 0 <= j < i && #[trigger] mask@[j] ==> exists|k: int|
                0 <= k < runs@.len() && runs@[k].0 <= j < #[trigger] runs@[k].1,
            0 < i < n && mask@[i as int] ==> !mask@[i - 1],
            runs@.len() > 0 ==> runs@[runs@.len() - 1].1 <= i,
        decreases n - i,
    {
        if mask[i] {
            let start = i;
            let mut j = i;
            while j < n && mask[j]
                invariant
                    n == mask@.len(),
                    start <= j <= n,
                    forall|t: int| start <= t < j ==> #[trigger] mask@[t],
                decreases n - j,
            {
                j = j + 1;
            }
            let ghost r0 = runs@;
            runs.push((start, j));
            proof {
                assert forall|k: int| 0 <= k < r0.len() implies #[trigger] runs@[k] == r0[k] by {}
                if r0.len() > 0 {
                    let last = r0.len() - 1;
                    assert(r0[last].1 <= start);
                    if r0[last].1 == start {
                        assert(r0[last].1 == n || !mask@[r0[last].1 as int]);
                    }
                    assert(r0[last].1 < start);
                }
                assert forall|k: int| 0 <= k < runs@.len() implies #[trigger] runs@[k].0 < runs@[k].1 <= j by {
                    if k < r0.len() {
                        assert(runs@[k] == r0[k]);
                    }
                }
                assert forall|k: int, l: int| 0 <= k < l < runs@.len() implies #[trigger] runs@[k].1
                    < #[trigger] runs@[l].0 by {
                    assert(runs@[k] == r0[k]);
                    if l < r0.len() {
                        assert(runs@[l] == r0[l]);
                    } else if k < r0.len() - 1 {
                        assert(r0[k].1 < r0[r0.len() - 1].0);
                    }
                }
                assert forall|t: int| 0 <= t < i + (j - i) && #[trigger] mask@[t] implies exists|k: int|
                    0 <= k < runs@.len() && runs@[k].0 <= t < #[trigger] runs@[k].1 by {
                    if t >= start {
                        let last = runs@.len() - 1;
                        assert(runs@[last] == (start, j));
                        assert(runs@[last].0 <= t < runs@[last].1);
                    } else {
                        let k = choose|k: int| 0 <= k < r0.len() && r0[k].0 <= t < #[trigger] r0[k].1;
                        assert(runs@[k] == r0[k]);
                        assert(runs@[k].0 <= t < runs@[k].1);
                    }
                }
            }
            i = j;
        } else {
            i = i + 1;
        }
    }
    runs
}

/// Whether some run of `true` in `mask` is at least `min_run` samples long.
pub fn has_run_at_least(mask: &Vec<bool>, min_run: usize) -> (r: bool)
    requires
        min_run >= 1,
    ensures
        r == has_run(mask@, min_run as int),
{
    let n = mask.len();
    let mut i: usize = 0;
    while i < n
        invariant
            n == mask@.len(),
            i <= n,
            min_run >= 1,
            forall|s: int| 0 <= s && s + min_run <= mask@.len() && s < i ==> !#[trigger] all_true(mask@, s, s + min_run),
        decreases n - i,
    {
        if mask[i] {
            let start = i;
            let mut j = i;
            while j < n && mask[j]
                invariant
                    n == mask@.len(),
                    start <= j <= n,
                    forall|t: int| start <= t < j ==> #[trigger] mask@[t],
                decreases n - j,
            {
                j = j + 1;
            }
            if j - start >= min_run {
                assert(all_true(mask@, start as int, start + min_run));
                return true;
            }
            proof {
                assert forall|s: int| 0 <= s && s + min_run <= mask@.len() && s < j implies !#[trigger] all_true(
                    mask@,
                    s,
                    s + min_run,
                ) by {
                    if s >= i {
                        if j < n {
                            assert(!mask@[j as int]);
                        }
                    }
                }
            }
            i = j;
        } else {
            proof {
                assert forall|s: int| 0 <= s && s + min_run <= mask@.len() && s < i + 1 implies !#[trigger] all_true(
                    mask@,
                    s,
                    s + min_run,
                ) by {
                    if s == i {
                        assert(!mask@[i as int]);
                    }
                }
            }
            i = i + 1;
        }
    }
    false
}

/// A stretch of `k >= 1` consecutive `true` samples exists exactly when
/// one of the maximal runs is at least `k` long.
pub proof fn lemma_has_run_iff_long_run(mask: Seq<bool>, runs: Seq<(usize, usize)>, k: int)
    requires
        maximal_runs(mask, runs),
        k >= 1,
    ensures
        has_run(mask, k) <==> exists|r: int| 0 <= r < runs.len() && #[trigger] runs[r].1 - runs[r].0 >= k,
{
    if has_run(mask, k) {
        let s = choose|s: int| 0 <= s && s + k <= mask.len() && #[trigger] all_true(mask, s, s + k);
        assert(mask[s]);
        let r = choose|r: int| 0 <= r < runs.len() && runs[r].0 <= s < #[trigger] runs[r].1;
        if runs[r].1 < s + k {
            assert(mask[runs[r].1 as int]);
        }
        assert(runs[r].1 - runs[r].0 >= k);
    }
    if exists|r: int| 0 <= r < runs.len() && #[trigger] runs[r].1 - runs[r].0 >= k {
        let r = choose|r: int| 0 <= r < runs.len() && #[trigger] runs[r].1 - runs[r].0 >= k;
        let s = runs[r].0 as int;
        assert(all_true(mask, s, runs[r].1 as int));
        assert(all_true(mask, s, s + k));
    }
}

} // verus!
