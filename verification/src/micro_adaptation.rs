//! Post-selection micro-adaptation: the plan taken from the configuration and
//! the segmentation of a signal into carrier-envelope segments. The gains
//! themselves are floating point and are applied by the application around
//! the library, segment by segment in the order this plan gives.

use vstd::prelude::*;
use crate::config::{EnvelopeAdaptationMode, GainAdaptationMode, MicroAdaptationConfig};

verus! {

/// The micro-adaptation modes in effect.
#[derive(Debug, Clone, Copy, PartialEq, Eq, Structural)]
pub struct MicroAdaptationPlan {
    pub gain: GainAdaptationMode,
    pub envelope: EnvelopeAdaptationMode,
}

impl<'a> From<&'a MicroAdaptationConfig> for MicroAdaptationPlan {
    /// The plan of a configuration: its gain and envelope modes.
    fn from(config: &'a MicroAdaptationConfig) -> (r: Self) {
        MicroAdaptationPlan { gain: config.gain, envelope: config.envelope }
    }
}

impl<'a> vstd::std_specs::convert::FromSpecImpl<&'a MicroAdaptationConfig> for MicroAdaptationPlan {
    open spec fn obeys_from_spec() -> bool {
        true
    }

    open spec fn from_spec(config: &'a MicroAdaptationConfig) -> Self {
        MicroAdaptationPlan { gain: config.gain, envelope: config.envelope }
    }
}

/// The samples `start..end` of the signal, shaped toward one target level.
#[derive(Debug, Clone, Copy, PartialEq, Eq, Structural)]
pub struct SegmentRange {
    pub start: usize,
    pub end: usize,
}

/// How envelope shaping proceeds: the segments to shape, in order (segment
/// `k` toward target level `k`), and the error reported after them, if any.
#[derive(Debug, Clone, PartialEq, Eq)]
pub struct EnvelopePlan {
    pub segments: Vec<SegmentRange>,
    pub error: Option<String>,
}

/// The state of the scan over segment starts.
pub enum ScanState {
    /// All starts so far gave segments.
    Running(Seq<SegmentRange>),
    /// A start at or past the end of the signal ended the scan.
    Stopped(Seq<SegmentRange>),
    /// A start that does not follow its predecessor ended the scan with an error.
    Failed(Seq<SegmentRange>),
    /// A segment would end before it starts; slicing the signal would panic.
    Reversed,
}

/// The segments of the first `k` starts over a signal of `n` samples.
pub open spec fn scan(n: nat, starts: Seq<usize>, k: nat) -> ScanState
    decreases k,
{
    if k == 0 {
        ScanState::Running(Seq::empty())
    } else {
        match scan(n, starts, (k - 1) as nat) {
            ScanState::Running(segs) => scan_step(n, starts, (k - 1) as nat, segs),
            other => other,
        }
    }
}

/// The end of segment `k`: the next start, capped at the signal's end.
pub open spec fn segment_end(n: nat, starts: Seq<usize>, k: nat) -> nat {
    if k + 1 < starts.len() && starts[k + 1int] < n {
        starts[k + 1int] as nat
    } else {
        n
    }
}

/// One step of the scan, at start `k`.
pub open spec fn scan_step(n: nat, starts: Seq<usize>, k: nat, segs: Seq<SegmentRange>) -> ScanState {
    let start = starts[k as int];
    if k > 0 && start <= starts[k - 1] {
        ScanState::Failed(segs)
    } else if start >= n {
        ScanState::Stopped(segs)
    } else if segment_end(n, starts, k) < start {
        ScanState::Reversed
    } else {
        ScanState::Running(segs.push(SegmentRange { start, end: segment_end(n, starts, k) as usize }))
    }
}

/// The segments of a finished scan, and whether it failed.
pub open spec fn scan_result(st: ScanState) -> (Seq<SegmentRange>, bool) {
    match st {
        ScanState::Running(segs) => (segs, false),
        ScanState::Stopped(segs) => (segs, false),
        ScanState::Failed(segs) => (segs, true),
        ScanState::Reversed => (Seq::empty(), false),
    }
}

/// Whether shaping does nothing at all: envelope mode off, or nothing to shape.
pub open spec fn shaping_skipped(
    mode: EnvelopeAdaptationMode,
    sample_count: nat,
    start_count: nat,
    target_count: nat,
) -> bool {
    mode == EnvelopeAdaptationMode::Off || sample_count == 0 || start_count == 0 || target_count
        == 0
}

/// The text of the error for starts that do not strictly increase.
pub open spec fn not_increasing_text() -> Seq<char> {
    "carrier envelope segment starts must be strictly increasing"@
}

/// The text of the error for a count mismatch.
pub open spec fn count_mismatch_text() -> Seq<char> {
    "carrier envelope segment starts must match target rms count"@
}

/// Plans envelope shaping of `sample_count` samples with segments beginning
/// at `segment_starts` toward `target_count` levels. Nothing is shaped when
/// the mode is off or any input is empty; a count mismatch is an error before
/// any segment; otherwise segment `k` runs from start `k` to the next start
/// (or the end of the signal), segments stop at the first start at or past
/// the end, and a start that does not exceed its predecessor ends the plan
/// with an error after the segments before it.
pub fn plan_envelope_segments(
    mode: EnvelopeAdaptationMode,
    sample_count: usize,
    segment_starts: &[usize],
    target_count: usize,
) -> (r: EnvelopePlan)
    requires
        !shaping_skipped(mode, sample_count as nat, segment_starts@.len(), target_count as nat)
            && segment_starts@.len() == target_count ==> !(scan(
            sample_count as nat,
            segment_starts@,
            segment_starts@.len(),
        ) is Reversed),
    ensures
        shaping_skipped(mode, sample_count as nat, segment_starts@.len(), target_count as nat)
            ==> r.segments@.len() == 0 && r.error is None,
        !shaping_skipped(mode, sample_count as nat, segment_starts@.len(), target_count as nat)
            && segment_starts@.len() != target_count ==> r.segments@.len() == 0 && r.error is Some
            && r.error->Some_0@ == count_mismatch_text(),
        !shaping_skipped(mode, sample_count as nat, segment_starts@.len(), target_count as nat)
            && segment_starts@.len() == target_count ==> {
            let (segs, failed) = scan_result(
                scan(sample_count as nat, segment_starts@, segment_starts@.len()),
            );
            &&& r.segments@ == segs
            &&& failed ==> r.error is Some && r.error->Some_0@ == not_increasing_text()
            &&& !failed ==> r.error is None
        },
{
    let mut segments: Vec<SegmentRange> = Vec::new();
    let count = segment_starts.len();
    if mode == EnvelopeAdaptationMode::Off || sample_count == 0 || count == 0 || target_count == 0 {
        return EnvelopePlan { segments, error: None };
    }
    if count != target_count {
        return EnvelopePlan {
            segments,
            error: Some(String::from_str("carrier envelope segment starts must match target rms count")),
        };
    }
    let ghost n = sample_count as nat;
    let ghost starts = segment_starts@;
    let mut k: usize = 0;
    while k < count
        invariant
            count == starts.len(),
            starts == segment_starts@,
            n == sample_count,
            k <= count,
            count == target_count,
            !shaping_skipped(mode, sample_count as nat, count as nat, target_count as nat),
            scan(n, starts, k as nat) == ScanState::Running(segments@),
            !(scan(n, starts, count as nat) is Reversed),
        decreases count - k,
    {
        let start = segment_starts[k];
        if k > 0 && start <= segment_starts[k - 1] {
            proof {
                lemma_scan_final_sticks(n, starts, (k + 1) as nat, count as nat);
            }
            return EnvelopePlan {
                segments,
                error: Some(String::from_str("carrier envelope segment starts must be strictly increasing")),
            };
        }
        if start >= sample_count {
            proof {
                lemma_scan_final_sticks(n, starts, (k + 1) as nat, count as nat);
            }
            return EnvelopePlan { segments, error: None };
        }
        let end = if k + 1 < count && segment_starts[k + 1] < sample_count {
            segment_starts[k + 1]
        } else {
            sample_count
        };
        proof {
            if end < start {
                lemma_scan_final_sticks(n, starts, (k + 1) as nat, count as nat);
            }
        }
        segments.push(SegmentRange { start, end });
        k = k + 1;
    }
    EnvelopePlan { segments, error: None }
}

/// Whether shaping would reach a segment that ends before it starts (a start
/// followed by a smaller one inside the signal), the case in which slicing
/// the signal panics. This can only happen when shaping takes place: the
/// mode is on, no input is empty and the counts match.
pub fn shaping_would_reverse(
    mode: EnvelopeAdaptationMode,
    sample_count: usize,
    segment_starts: &[usize],
    target_count: usize,
) -> (r: bool)
    ensures
        r == (!shaping_skipped(mode, sample_count as nat, segment_starts@.len(), target_count as nat)
            && segment_starts@.len() == target_count && scan(
            sample_count as nat,
            segment_starts@,
            segment_starts@.len(),
        ) is Reversed),
{
    if mode == EnvelopeAdaptationMode::Off || sample_count == 0 || segment_starts.len() == 0
        || target_count == 0 || segment_starts.len() != target_count {
        return false;
    }
    let count = segment_starts.len();
    let ghost n = sample_count as nat;
    let ghost starts = segment_starts@;
    let ghost mut segs: Seq<SegmentRange> = Seq::empty();
    let mut k: usize = 0;
    while k < count
        invariant
            count == starts.len(),
            starts == segment_starts@,
            n == sample_count,
            k <= count,
            !shaping_skipped(mode, sample_count as nat, count as nat, target_count as nat),
            count == target_count,
            scan(n, starts, k as nat) == ScanState::Running(segs),
        decreases count - k,
    {
        let start = segment_starts[k];
        if (k > 0 && start <= segment_starts[k - 1]) || start >= sample_count {
            proof {
                lemma_scan_final_sticks(n, starts, (k + 1) as nat, count as nat);
            }
            return false;
        }
        let end = if k + 1 < count && segment_starts[k + 1] < sample_count {
            segment_starts[k + 1]
        } else {
            sample_count
        };
        if end < start {
            proof {
                lemma_scan_final_sticks(n, starts, (k + 1) as nat, count as nat);
            }
            return true;
        }
        proof {
            segs = segs.push(SegmentRange { start, end });
        }
        k = k + 1;
    }
    false
}

proof fn lemma_scan_final_sticks(n: nat, starts: Seq<usize>, k: nat, m: nat)
    requires
        k <= m,
        !(scan(n, starts, k) is Running),
    ensures
        scan(n, starts, m) == scan(n, starts, k),
    decreases m,
{
    if m > k {
        lemma_scan_final_sticks(n, starts, k, (m - 1) as nat);
    }
}

/// The starts of carrier segments one hop apart: `k * hop`, saturating at the
/// largest index.
pub open spec fn carrier_start(k: nat, hop: nat) -> usize {
    if k * hop <= usize::MAX {
        (k * hop) as usize
    } else {
        usize::MAX
    }
}

/// The segment starts of a carrier profile of `count` levels, `hop` samples
/// apart, counted with saturating addition.
pub fn carrier_segment_starts(count: usize, hop: usize) -> (r: Vec<usize>)
    ensures
        r@.len() == count,
        forall|k: int| 0 <= k < count ==> #[trigger] r@[k] == carrier_start(k as nat, hop as nat),
{
    let mut starts: Vec<usize> = Vec::new();
    let mut start: usize = 0;
    let mut k: usize = 0;
    while k < count
        invariant
            k <= count,
            starts@.len() == k,
            start == carrier_start(k as nat, hop as nat),
            forall|q: int| 0 <= q < k ==> #[trigger] starts@[q] == carrier_start(q as nat, hop as nat),
        decreases count - k,
    {
        starts.push(start);
        proof {
            lemma_carrier_start_step(k as nat, hop as nat);
        }
        start = start.saturating_add(hop);
        k = k + 1;
    }
    starts
}

proof fn lemma_carrier_start_step(k: nat, hop: nat)
    requires
        hop <= usize::MAX,
    ensures
        carrier_start(k + 1, hop) == (if carrier_start(k, hop) + hop <= usize::MAX {
            (carrier_start(k, hop) + hop) as usize
        } else {
            usize::MAX
        }),
        carrier_start(k, hop) <= carrier_start(k + 1, hop),
{
    assert((k + 1) * hop == k * hop + hop) by (nonlinear_arith);
}

proof fn lemma_nondecreasing_never_reversed(n: nat, starts: Seq<usize>, k: nat)
    requires
        k <= starts.len(),
        forall|i: int| 0 <= i && i + 1 < starts.len() ==> starts[i] <= #[trigger] starts[i + 1],
    ensures
        !(scan(n, starts, k) is Reversed),
    decreases k,
{
    if k > 0 {
        lemma_nondecreasing_never_reversed(n, starts, (k - 1) as nat);
        let j = (k - 1) as int;
        if j + 1 < starts.len() {
            assert(starts[j] <= starts[j + 1]);
        }
    }
}

/// The envelope plan of a carrier profile: `level_count` levels `hop` samples
/// apart over a signal of `sample_count` samples. Nothing is shaped when the
/// mode is off or the profile or signal is empty; a zero hop is an error;
/// otherwise the segments start at multiples of the hop.
pub fn plan_carrier_envelope(
    mode: EnvelopeAdaptationMode,
    sample_count: usize,
    level_count: usize,
    hop: usize,
) -> (r: EnvelopePlan)
    ensures
        mode == EnvelopeAdaptationMode::Off || level_count == 0 || sample_count == 0 ==> r.segments@.len()
            == 0 && r.error is None,
        !(mode == EnvelopeAdaptationMode::Off || level_count == 0 || sample_count == 0) && hop == 0
            ==> r.segments@.len() == 0 && r.error is Some && r.error->Some_0@
            == "carrier envelope hop_size_frames must be > 0"@,
        !(mode == EnvelopeAdaptationMode::Off || level_count == 0 || sample_count == 0) && hop != 0
            ==> {
            let starts = Seq::new(level_count as nat, |k: int| carrier_start(k as nat, hop as nat));
            let (segs, failed) = scan_result(scan(sample_count as nat, starts, level_count as nat));
            &&& r.segments@ == segs
            &&& failed ==> r.error is Some && r.error->Some_0@ == not_increasing_text()
            &&& !failed ==> r.error is None
        },
{
    if mode == EnvelopeAdaptationMode::Off || level_count == 0 || sample_count == 0 {
        return EnvelopePlan { segments: Vec::new(), error: None };
    }
    if hop == 0 {
        return EnvelopePlan {
            segments: Vec::new(),
            error: Some(String::from_str("carrier envelope hop_size_frames must be > 0")),
        };
    }
    let starts = carrier_segment_starts(level_count, hop);
    let ghost want = Seq::new(level_count as nat, |k: int| carrier_start(k as nat, hop as nat));
    assert(starts@ =~= want);
    proof {
        assert forall|i: int| 0 <= i && i + 1 < starts@.len() implies starts@[i] <= #[trigger] starts@[i + 1] by {
            lemma_carrier_start_step(i as nat, hop as nat);
        }
        lemma_nondecreasing_never_reversed(sample_count as nat, starts@, starts@.len());
    }
    plan_envelope_segments(mode, sample_count, starts.as_slice(), level_count)
}

proof fn lemma_running_shape(n: nat, starts: Seq<usize>, k: nat)
    requires
        k <= starts.len(),
        scan(n, starts, k) is Running,
    ensures
        ({
            let segs = scan(n, starts, k)->Running_0;
            &&& segs.len() == k
            &&& forall|i: int| 0 <= i < k ==> #[trigger] segs[i] == SegmentRange {
                start: starts[i],
                end: segment_end(n, starts, i as nat) as usize,
            }
            &&& forall|i: int| 0 <= i < k ==> #[trigger] starts[i] < n
            &&& forall|i: int| 0 <= i && i + 1 < k ==> starts[i] < #[trigger] starts[i + 1]
        }),
    decreases k,
{
    if k > 0 {
        lemma_running_shape(n, starts, (k - 1) as nat);
    }
}

/// Envelope shaping that succeeds covers the signal from the first start to
/// its end without gap or overlap: each segment is non-empty and begins at its
/// own start, each one ends where the next begins, and the last one ends at
/// the end of the signal, so the last level extends over the tail.
pub proof fn lemma_envelope_segments_tile_signal(n: nat, starts: Seq<usize>)
    requires
        n <= usize::MAX,
        starts.len() > 0,
        n > 0,
        !(scan(n, starts, starts.len()) is Reversed),
        !scan_result(scan(n, starts, starts.len())).1,
        scan_result(scan(n, starts, starts.len())).0.len() > 0,
    ensures
        ({
            let segs = scan_result(scan(n, starts, starts.len())).0;
            &&& forall|i: int| 0 <= i < segs.len() ==> #[trigger] segs[i].start == starts[i]
                && segs[i].start < segs[i].end
            &&& forall|i: int| 0 <= i && i + 1 < segs.len() ==> #[trigger] segs[i].end == segs[i
                + 1].start
            &&& segs.last().end == n
        }),
{
    let st = scan(n, starts, starts.len());
    let segs = scan_result(st).0;
    let m = segs.len();
    // the scan ended either by running through every start or by stopping at start `m`
    let stop = lemma_find_stop(n, starts, starts.len());
    assert(scan(n, starts, stop) is Running);
    lemma_running_shape(n, starts, stop);
    let rs = scan(n, starts, stop)->Running_0;
    assert(rs == segs);
    assert(stop == m);
    assert forall|i: int| 0 <= i < segs.len() implies #[trigger] segs[i].start == starts[i]
        && segs[i].start < segs[i].end by {
        if i + 1 < m {
            assert(starts[i] < starts[i + 1]);
            assert(starts[i + 1] < n);
        } else {
            if m < starts.len() {
                assert(starts[m as int] >= n);
            }
        }
    }
    assert forall|i: int| 0 <= i && i + 1 < segs.len() implies #[trigger] segs[i].end == segs[i
        + 1].start by {
        assert(starts[i + 1] < n);
    }
    if m < starts.len() {
        assert(starts[m as int] >= n);
    }
}

/// The number of starts that the scan took as segments: either all of them,
/// or those before the start at which it stopped.
proof fn lemma_find_stop(n: nat, starts: Seq<usize>, k: nat) -> (stop: nat)
    requires
        k <= starts.len(),
        !(scan(n, starts, k) is Reversed),
        !(scan(n, starts, k) is Failed),
    ensures
        stop <= k,
        scan(n, starts, stop) is Running,
        scan_result(scan(n, starts, k)).0 == scan(n, starts, stop)->Running_0,
        stop < k ==> starts[stop as int] >= n && scan(n, starts, (stop + 1) as nat) is Stopped,
    decreases k,
{
    if k == 0 {
        0
    } else if scan(n, starts, (k - 1) as nat) is Running {
        if scan(n, starts, k) is Running {
            k
        } else {
            (k - 1) as nat
        }
    } else {
        lemma_find_stop(n, starts, (k - 1) as nat)
    }
}

} // verus!
