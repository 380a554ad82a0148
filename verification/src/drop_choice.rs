//! Which of the emulated TCP flows takes a loss: MulTCP spreads a drop over
//! its `xtcp_flows` virtual flows in proportion to their windows, by drawing
//! a byte offset uniformly below the total window and picking the flow whose
//! window covers that offset.

use vstd::prelude::*;

verus! {

/// Sum of the first `k` windows.
pub open spec fn window_prefix(windows: Seq<u64>, k: int) -> int
    decreases k,
{
    if k <= 0 {
        0
    } else {
        window_prefix(windows, k - 1) + windows[k - 1]
    }
}

/// Sum of all windows.
pub open spec fn window_total(windows: Seq<u64>) -> int {
    window_prefix(windows, windows.len() as int)
}

/// `flow` is the flow that the offset `sample` selects: the flow whose
/// window covers `sample` when the windows, laid end to end, reach past it;
/// the last configured flow otherwise.
pub open spec fn selects(windows: Seq<u64>, sample: int, xtcp_flows: int, flow: int) -> bool {
    if sample < window_total(windows) {
        0 <= flow < windows.len() && window_prefix(windows, flow) <= sample < window_prefix(
            windows,
            flow + 1,
        )
    } else {
        flow == xtcp_flows - 1
    }
}

/// Adding window `k` to a running sum that has not yet passed `sample`
/// stays within a `u64`.
pub open spec fn step_fits(windows: Seq<u64>, sample: int, k: int) -> bool {
    window_prefix(windows, k) <= sample ==> window_prefix(windows, k + 1) <= u64::MAX
}

/// Some offset below `total` selects `flow`.
pub open spec fn drawn_selection(windows: Seq<u64>, total: int, xtcp_flows: int, flow: int) -> bool {
    exists|sample: int| 0 <= sample < total && #[trigger] selects(windows, sample, xtcp_flows, flow)
}

/// The running sum of the windows does not overflow a `u64` before it
/// passes `sample`.
pub open spec fn prefix_fits_until(windows: Seq<u64>, sample: int) -> bool {
    forall|k: int| 0 <= k < windows.len() ==> #[trigger] step_fits(windows, sample, k)
}

/// Prefix sums never decrease.
pub proof fn lemma_window_prefix_monotone(windows: Seq<u64>, a: int, b: int)
    requires
        0 <= a <= b <= windows.len(),
    ensures
        0 <= window_prefix(windows, a) <= window_prefix(windows, b),
    decreases b - a,
{
    if a < b {
        lemma_window_prefix_monotone(windows, a, b - 1);
    } else {
        lemma_window_prefix_nonneg(windows, a);
    }
}

proof fn lemma_window_prefix_nonneg(windows: Seq<u64>, k: int)
    ensures
        window_prefix(windows, k) >= 0,
    decreases k,
{
    if k > 0 {
        lemma_window_prefix_nonneg(windows, k - 1);
    }
}

/// Each offset selects exactly one flow: the windows tile the offsets below
/// their total, so flow `i` is picked for exactly `windows[i]` of them.
pub proof fn lemma_selection_unique(
    windows: Seq<u64>,
    sample: int,
    xtcp_flows: int,
    f1: int,
    f2: int,
)
    requires
        selects(windows, sample, xtcp_flows, f1),
        selects(windows, sample, xtcp_flows, f2),
    ensures
        f1 == f2,
{
    if sample < window_total(windows) && f1 != f2 {
        let (lo, hi) = if f1 < f2 {
            (f1, f2)
        } else {
            (f2, f1)
        };
        lemma_window_prefix_monotone(windows, lo + 1, hi);
    }
}

/// Every offset below the total window selects some flow.
pub proof fn lemma_selection_exists(windows: Seq<u64>, sample: int, xtcp_flows: int)
    requires
        0 <= sample < window_total(windows),
    ensures
        exists|f: int| #[trigger] selects(windows, sample, xtcp_flows, f),
    decreases windows.len(),
{
    let n = windows.len() as int;
    if window_prefix(windows, n - 1) <= sample {
        assert(selects(windows, sample, xtcp_flows, n - 1));
    } else {
        let shorter = windows.drop_last();
        lemma_prefix_drop_last(windows, n - 1);
        lemma_selection_exists(shorter, sample, xtcp_flows);
        let f = choose|f: int| #[trigger] selects(shorter, sample, xtcp_flows, f);
        lemma_prefix_drop_last(windows, f);
        lemma_prefix_drop_last(windows, f + 1);
        assert(selects(windows, sample, xtcp_flows, f));
    }
}

proof fn lemma_prefix_drop_last(windows: Seq<u64>, k: int)
    requires
        windows.len() > 0,
        k <= windows.len() - 1,
    ensures
        window_prefix(windows.drop_last(), k) == window_prefix(windows, k),
    decreases k,
{
    if k > 0 {
        lemma_prefix_drop_last(windows, k - 1);
    }
}

/// The flow that offset `sample` falls on; the last configured flow when
/// the windows do not reach past `sample`.
pub fn flow_for_sample(windows: &Vec<u64>, sample: u64, xtcp_flows: usize) -> (flow: usize)
    requires
        prefix_fits_until(windows@, sample as int),
        sample < window_total(windows@) || xtcp_flows >= 1,
    ensures
        selects(windows@, sample as int, xtcp_flows as int, flow as int),
{
    let mut cum: u64 = 0;
    let mut k: usize = 0;
    while k < windows.len()
        invariant
            k <= windows@.len(),
            cum == window_prefix(windows@, k as int),
            cum <= sample,
            prefix_fits_until(windows@, sample as int),
        decreases windows@.len() - k,
    {
        assert(window_prefix(windows@, k + 1) == cum + windows@[k as int]);
        assert(step_fits(windows@, sample as int, k as int));
        cum = cum + windows[k];
        if cum > sample {
            proof {
                lemma_window_prefix_monotone(windows@, k + 1, windows@.len() as int);
            }
            return k;
        }
        k = k + 1;
    }
    assert(windows@.len() == k);
    xtcp_flows - 1
}

/// Draws an offset uniformly from `0..bound`.
///
/// Calls `rand::Rng::sample` on the thread-local generator with
/// `rand::distributions::Uniform::new(0, bound)`. The contract claims only
/// that the draw lies below `bound`; that it is uniform is not stated.
#[verifier::external_body]
fn uniform_below(bound: u64) -> (draw: u64)
    requires
        bound > 0,
    ensures
        draw < bound,
{
    let mut rng = rand::thread_rng();
    rand::Rng::sample(&mut rng, rand::distributions::Uniform::new(0, bound))
}

/// Picks the flow that takes a drop: none when the total window, truncated
/// to whole bytes (`total_units`), is zero; otherwise the flow selected by a
/// random offset below `total_units`.
pub fn choose_drop_flow(windows: &Vec<u64>, total_units: u64, xtcp_flows: usize) -> (r: Option<
    usize,
>)
    requires
        total_units > 0 ==> prefix_fits_until(windows@, total_units - 1),
        total_units <= window_total(windows@) || xtcp_flows >= 1,
    ensures
        r is None <==> total_units == 0,
        r matches Some(flow) ==> drawn_selection(windows@, total_units as int, xtcp_flows as int, flow as int),
{
    if total_units == 0 {
        return None;
    }
    let sample = uniform_below(total_units);
    assert forall|k: int| 0 <= k < windows@.len() implies #[trigger] step_fits(
        windows@,
        sample as int,
        k,
    ) by {
        assert(step_fits(windows@, total_units - 1, k));
    }
    let flow = flow_for_sample(windows, sample, xtcp_flows);
    assert(selects(windows@, sample as int, xtcp_flows as int, flow as int));
    assert(drawn_selection(windows@, total_units as int, xtcp_flows as int, flow as int));
    Some(flow)
}

} // verus!
