//! The integer part of candidate scoring: how far the next grain seeks from
//! where the previous one ended, as a ratio of frame counts. The weighted
//! costs are floating point and computed by the application.

use vstd::prelude::*;
use crate::config::F32Bits;
use crate::index::CorpusGrainEntry;

verus! {

/// A seek distance as `numerator / denominator`.
#[derive(Debug, Clone, Copy, PartialEq, Eq, Structural)]
pub struct SeekRatio {
    pub numerator: usize,
    pub denominator: usize,
}

/// The seek from `previous` to `candidate`: one whole unit across sources;
/// within a source, the gap between the candidate's start and the previous
/// grain's end, in units of the previous grain's length (at least one frame).
pub open spec fn spec_seek_ratio(previous: CorpusGrainEntry, candidate: CorpusGrainEntry) -> SeekRatio {
    if previous.source_index != candidate.source_index {
        SeekRatio { numerator: 1, denominator: 1 }
    } else {
        let expected = previous.start_frame + previous.len_frames;
        let gap = if candidate.start_frame >= expected {
            candidate.start_frame - expected
        } else {
            expected - candidate.start_frame
        };
        SeekRatio {
            numerator: gap as usize,
            denominator: if previous.len_frames == 0 {
                1
            } else {
                previous.len_frames
            },
        }
    }
}

/// The normalized seek distance between consecutive grains, as a ratio.
pub fn seek_ratio(previous: CorpusGrainEntry, candidate: &CorpusGrainEntry) -> (r: SeekRatio)
    requires
        previous.source_index == candidate.source_index ==> previous.start_frame
            + previous.len_frames <= usize::MAX,
    ensures
        r == spec_seek_ratio(previous, *candidate),
        r.denominator > 0,
{
    if previous.source_index != candidate.source_index {
        return SeekRatio { numerator: 1, denominator: 1 };
    }
    let expected = previous.start_frame + previous.len_frames;
    let gap = if candidate.start_frame >= expected {
        candidate.start_frame - expected
    } else {
        expected - candidate.start_frame
    };
    let denominator = if previous.len_frames == 0 {
        1
    } else {
        previous.len_frames
    };
    SeekRatio { numerator: gap, denominator }
}

/// Refuses matching against a corpus without grains.
pub fn check_corpus_not_empty(grain_count: usize) -> (r: Result<(), String>)
    ensures
        grain_count == 0 ==> r is Err && r->Err_0@ == "matching requires a non-empty corpus index"@,
        grain_count != 0 ==> r is Ok,
{
    if grain_count == 0 {
        return Err(String::from_str("matching requires a non-empty corpus index"));
    }
    Ok(())
}

/// A grain that follows the previous one in its source seeks nowhere.
pub proof fn lemma_adjacent_grain_has_no_seek(previous: CorpusGrainEntry, candidate: CorpusGrainEntry)
    requires
        previous.source_index == candidate.source_index,
        candidate.start_frame == previous.start_frame + previous.len_frames,
    ensures
        spec_seek_ratio(previous, candidate).numerator == 0,
{
}

/// Within one source, the seek numerator is the distance in frames between
/// the candidate's start and the end of the previous grain, whether the
/// candidate lies after or before that end, and the denominator is the
/// previous grain's length, at least one frame.
pub proof fn lemma_seek_is_distance_from_previous_end(
    previous: CorpusGrainEntry,
    candidate: CorpusGrainEntry,
)
    requires
        previous.source_index == candidate.source_index,
        previous.start_frame + previous.len_frames <= usize::MAX,
    ensures
        spec_seek_ratio(previous, candidate).numerator == vstd::math::abs(
            candidate.start_frame - (previous.start_frame + previous.len_frames),
        ),
        spec_seek_ratio(previous, candidate).denominator == vstd::math::max(
            previous.len_frames as int,
            1,
        ),
{
}

/// A candidate from another source than the previous grain always costs one
/// whole unit of seek, wherever the two grains lie.
pub proof fn lemma_source_switch_seeks_one_unit(
    previous: CorpusGrainEntry,
    candidate: CorpusGrainEntry,
)
    requires
        previous.source_index != candidate.source_index,
    ensures
        spec_seek_ratio(previous, candidate).numerator == 1,
        spec_seek_ratio(previous, candidate).denominator == 1,
{
}

/// Choosing the same grain again seeks back over the whole grain: exactly one
/// unit for a grain of at least one frame.
pub proof fn lemma_repeated_grain_seeks_one_unit(previous: CorpusGrainEntry)
    requires
        previous.len_frames > 0,
        previous.start_frame + previous.len_frames <= usize::MAX,
    ensures
        spec_seek_ratio(previous, previous).numerator == previous.len_frames,
        spec_seek_ratio(previous, previous).denominator == previous.len_frames,
{
}

/// Seeks the same number of frames before or after the previous grain's end
/// measure the same distance.
pub proof fn lemma_seek_is_symmetric_around_previous_end(
    previous: CorpusGrainEntry,
    before: CorpusGrainEntry,
    after: CorpusGrainEntry,
)
    requires
        previous.source_index == before.source_index,
        previous.source_index == after.source_index,
        previous.start_frame + previous.len_frames <= usize::MAX,
        before.start_frame + after.start_frame == 2 * (previous.start_frame
            + previous.len_frames),
    ensures
        spec_seek_ratio(previous, before) == spec_seek_ratio(previous, after),
{
}

/// The candidate that a scan keeps after looking at the first `k` total
/// costs: the first one, replaced by each later one that is strictly cheaper
/// (by `f32` comparison) than the one kept so far.
pub open spec fn spec_best_candidate(costs: Seq<F32Bits>, k: nat) -> nat
    decreases k,
{
    if k <= 1 {
        0
    } else {
        let kept = spec_best_candidate(costs, (k - 1) as nat);
        if costs[k - 1].spec_lt(costs[kept as int]) {
            (k - 1) as nat
        } else {
            kept
        }
    }
}

/// Picks the candidate with the lowest total cost, keeping the earliest one
/// among equal costs.
pub fn select_best_candidate(total_costs: &[F32Bits]) -> (r: usize)
    requires
        total_costs@.len() > 0,
    ensures
        r == spec_best_candidate(total_costs@, total_costs@.len()),
        r < total_costs@.len(),
{
    let n = total_costs.len();
    let mut best: usize = 0;
    let mut k: usize = 1;
    while k < n
        invariant
            n == total_costs@.len(),
            1 <= k <= n,
            best == spec_best_candidate(total_costs@, k as nat),
            best < k,
        decreases n - k,
    {
        if total_costs[k].lt(&total_costs[best]) {
            best = k;
        }
        k = k + 1;
    }
    best
}

/// Without NaN costs the selection is the first candidate of least cost:
/// no candidate costs less, and every earlier one costs more.
pub proof fn lemma_selection_is_first_minimum(costs: Seq<F32Bits>, k: nat)
    requires
        1 <= k <= costs.len(),
        forall|i: int| 0 <= i < costs.len() ==> !(#[trigger] costs[i]).spec_is_nan(),
    ensures
        spec_best_candidate(costs, k) < k,
        forall|j: int|
            0 <= j < k ==> costs[spec_best_candidate(costs, k) as int].order_key() <= (
            #[trigger] costs[j]).order_key(),
        forall|j: int|
            0 <= j < spec_best_candidate(costs, k) ==> costs[spec_best_candidate(
                costs,
                k,
            ) as int].order_key() < (#[trigger] costs[j]).order_key(),
    decreases k,
{
    if k > 1 {
        lemma_selection_is_first_minimum(costs, (k - 1) as nat);
    }
}

/// The decisions of greedy matching: the grain chosen for each target frame
/// so far. Each frame is scored with the previous choice as context.
#[derive(Debug, Clone, PartialEq, Eq)]
pub struct GreedySelection {
    pub selected: Vec<usize>,
}

impl GreedySelection {
    /// No frame matched yet.
    pub fn new() -> (r: Self)
        ensures
            r.selected@.len() == 0,
    {
        GreedySelection { selected: Vec::new() }
    }

    /// The grain chosen for the previous frame, which is the transition
    /// context of the next one; none before the first frame.
    pub fn previous(&self) -> (r: Option<usize>)
        ensures
            self.selected@.len() == 0 ==> r is None,
            self.selected@.len() > 0 ==> r == Some(self.selected@.last()),
    {
        let n = self.selected.len();
        if n == 0 {
            None
        } else {
            Some(self.selected[n - 1])
        }
    }

    /// Chooses the grain of the next frame from the total cost of every
    /// candidate (scored against the previous choice) and records it.
    pub fn select_next(&mut self, total_costs: &[F32Bits]) -> (r: usize)
        requires
            total_costs@.len() > 0,
        ensures
            r == spec_best_candidate(total_costs@, total_costs@.len()),
            r < total_costs@.len(),
            final(self).selected@ == old(self).selected@.push(r),
    {
        let best = select_best_candidate(total_costs);
        self.selected.push(best);
        best
    }
}

} // verus!
