//! The integer part of the corpus index: per-source metadata and one entry
//! per grain, checked against the sources before any descriptor is computed.

use vstd::prelude::*;
use crate::corpus::{CorpusSourceSegmentation, GrainSpan};
use crate::text::{push_decimal, push_text, spec_decimal as dec};

verus! {

/// Metadata of one indexed source.
#[derive(Debug, Clone, PartialEq, Eq)]
pub struct CorpusSourceInfo {
    pub path: String,
    pub sample_rate: u32,
    pub total_frames: usize,
}

/// One indexed grain: its source and its span in that source.
#[derive(Debug, Clone, Copy, PartialEq, Eq, Structural)]
pub struct CorpusGrainEntry {
    pub source_index: usize,
    pub start_frame: usize,
    pub len_frames: usize,
}

/// What the index reads of a loaded mono source: its path, its sample rate
/// and its number of frames.
#[derive(Debug, Clone, PartialEq, Eq)]
pub struct CorpusSourceLayout {
    pub path: String,
    pub sample_rate: u32,
    pub frame_count: usize,
}

/// The sources and grains of a corpus index, in the order in which grains are
/// numbered: source by source, and within a source in segmentation order.
#[derive(Debug, Clone, PartialEq, Eq)]
pub struct CorpusIndexLayout {
    pub sources: Vec<CorpusSourceInfo>,
    pub grains: Vec<CorpusGrainEntry>,
}

/// The entry of a grain of source `i`.
pub open spec fn grain_entry(i: nat, g: GrainSpan) -> CorpusGrainEntry {
    CorpusGrainEntry { source_index: i as usize, start_frame: g.start_frame, len_frames: g.len_frames }
}

/// The entries of the grains of source `i`.
pub open spec fn grain_entries(i: nat, grains: Seq<GrainSpan>) -> Seq<CorpusGrainEntry> {
    grains.map_values(|g: GrainSpan| grain_entry(i, g))
}

/// The metadata of a source.
pub open spec fn source_info(s: CorpusSourceLayout) -> CorpusSourceInfo {
    CorpusSourceInfo { path: s.path, sample_rate: s.sample_rate, total_frames: s.frame_count }
}

/// The error of one grain, if any: a span past the end of the source, or a
/// length other than the descriptor frame size.
pub open spec fn grain_error(source_len: nat, frame_size: nat, g: GrainSpan) -> Option<Seq<char>> {
    let end = g.start_frame + g.len_frames;
    if end > source_len {
        Some(
            "grain span ["@ + dec(g.start_frame as nat) + ", "@ + dec(end as nat)
                + ") exceeds source length "@ + dec(source_len),
        )
    } else if g.len_frames != frame_size {
        Some(
            "descriptor extractor expected "@ + dec(frame_size) + " samples, found "@ + dec(
                g.len_frames as nat,
            ),
        )
    } else {
        None
    }
}

/// The error of the first failing grain, if any.
pub open spec fn first_grain_error(source_len: nat, frame_size: nat, grains: Seq<GrainSpan>) -> Option<Seq<char>>
    decreases grains.len(),
{
    if grains.len() == 0 {
        None
    } else {
        match first_grain_error(source_len, frame_size, grains.drop_last()) {
            Some(e) => Some(e),
            None => grain_error(source_len, frame_size, grains.last()),
        }
    }
}

/// The error of source `i` and its segmentation, if any: metadata that does
/// not match the source, a descriptor frame that cannot be built, or a grain
/// that fails.
pub open spec fn source_error(i: nat, s: CorpusSourceLayout, seg: CorpusSourceSegmentation) -> Option<Seq<char>> {
    if seg.source_index != i {
        Some(
            "corpus segmentation source_index mismatch: expected "@ + dec(i) + ", found "@ + dec(
                seg.source_index as nat,
            ),
        )
    } else if seg.sample_rate != s.sample_rate {
        Some(
            "corpus segmentation sample_rate mismatch for source "@ + dec(i) + ": expected "@
                + dec(s.sample_rate as nat) + ", found "@ + dec(seg.sample_rate as nat),
        )
    } else if seg.total_frames != s.frame_count {
        Some(
            "corpus segmentation frame count mismatch for source "@ + dec(i) + ": expected "@
                + dec(s.frame_count as nat) + ", found "@ + dec(seg.total_frames as nat),
        )
    } else if seg.sample_rate == 0 {
        Some("descriptor extractor sample_rate must be > 0"@)
    } else if seg.grain_size_frames == 0 {
        Some("descriptor extractor frame_size must be > 0"@)
    } else {
        first_grain_error(s.frame_count as nat, seg.grain_size_frames as nat, seg.grains@)
    }
}

/// The layout of the first `k` sources, or the first error among them.
pub open spec fn layout_prefix(
    sources: Seq<CorpusSourceLayout>,
    segs: Seq<CorpusSourceSegmentation>,
    k: nat,
) -> Result<(Seq<CorpusSourceInfo>, Seq<CorpusGrainEntry>), Seq<char>>
    decreases k,
{
    if k == 0 {
        Ok((Seq::empty(), Seq::empty()))
    } else {
        match layout_prefix(sources, segs, (k - 1) as nat) {
            Err(e) => Err(e),
            Ok((infos, entries)) => match source_error(
                (k - 1) as nat,
                sources[k - 1],
                segs[k - 1],
            ) {
                Some(e) => Err(e),
                None => Ok(
                    (
                        infos.push(source_info(sources[k - 1])),
                        entries + grain_entries((k - 1) as nat, segs[k - 1].grains@),
                    ),
                ),
            },
        }
    }
}

/// What planning the index yields: a count mismatch, a corpus without grains,
/// or the layout of all sources (or the first error among them).
pub open spec fn spec_plan_index(
    sources: Seq<CorpusSourceLayout>,
    segs: Seq<CorpusSourceSegmentation>,
) -> Result<(Seq<CorpusSourceInfo>, Seq<CorpusGrainEntry>), Seq<char>> {
    if sources.len() != segs.len() {
        Err(
            "corpus indexing requires matching source and segmentation counts, found "@ + dec(
                sources.len(),
            ) + " sources and "@ + dec(segs.len()) + " segmentations"@,
        )
    } else if forall|i: int| 0 <= i < segs.len() ==> #[trigger] segs[i].grains@.len() == 0 {
        Err("corpus indexing requires at least one grain"@)
    } else {
        layout_prefix(sources, segs, sources.len())
    }
}

proof fn lemma_prefix_error_sticks(
    sources: Seq<CorpusSourceLayout>,
    segs: Seq<CorpusSourceSegmentation>,
    k: nat,
    m: nat,
)
    requires
        k <= m,
        layout_prefix(sources, segs, k) is Err,
    ensures
        layout_prefix(sources, segs, m) == layout_prefix(sources, segs, k),
    decreases m,
{
    if m > k {
        lemma_prefix_error_sticks(sources, segs, k, (m - 1) as nat);
    }
}

proof fn lemma_first_grain_error_sticks(len: nat, size: nat, grains: Seq<GrainSpan>, k: int, m: int)
    requires
        0 <= k <= m <= grains.len(),
        first_grain_error(len, size, grains.take(k)) is Some,
    ensures
        first_grain_error(len, size, grains.take(m)) == first_grain_error(len, size, grains.take(k)),
    decreases m,
{
    if m > k {
        lemma_first_grain_error_sticks(len, size, grains, k, m - 1);
        assert(grains.take(m).drop_last() =~= grains.take(m - 1));
    }
}

proof fn lemma_no_first_error_no_error(len: nat, size: nat, grains: Seq<GrainSpan>, k: int)
    requires
        first_grain_error(len, size, grains) is None,
        0 <= k < grains.len(),
    ensures
        grain_error(len, size, grains[k]) is None,
    decreases grains.len(),
{
    if k < grains.len() - 1 {
        lemma_no_first_error_no_error(len, size, grains.drop_last(), k);
    }
}

/// Every grain of a planned index names an indexed source, lies inside that
/// source, and is as long as its segmentation's grain size.
pub proof fn lemma_planned_grains_lie_inside_sources(
    sources: Seq<CorpusSourceLayout>,
    segs: Seq<CorpusSourceSegmentation>,
    k: nat,
)
    requires
        k <= sources.len(),
        k <= segs.len(),
        layout_prefix(sources, segs, k) is Ok,
    ensures
        ({
            let (infos, entries) = layout_prefix(sources, segs, k)->Ok_0;
            &&& infos.len() == k
            &&& forall|e: int|
                0 <= e < entries.len() ==> {
                    let g = #[trigger] entries[e];
                    &&& g.source_index < k
                    &&& infos[g.source_index as int] == source_info(sources[g.source_index as int])
                    &&& g.start_frame + g.len_frames <= infos[g.source_index as int].total_frames
                    &&& g.len_frames == segs[g.source_index as int].grain_size_frames
                }
        }),
    decreases k,
{
    if k > 0 {
        let j = (k - 1) as nat;
        lemma_planned_grains_lie_inside_sources(sources, segs, j);
        let (infos, entries) = layout_prefix(sources, segs, j)->Ok_0;
        let grains = segs[j as int].grains@;
        let (infos2, entries2) = layout_prefix(sources, segs, k)->Ok_0;
        assert(infos2 == infos.push(source_info(sources[j as int])));
        assert(entries2 == entries + grain_entries(j, grains));
        assert forall|e: int| 0 <= e < entries2.len() implies {
            let g = #[trigger] entries2[e];
            &&& g.source_index < k
            &&& infos2[g.source_index as int] == source_info(sources[g.source_index as int])
            &&& g.start_frame + g.len_frames <= infos2[g.source_index as int].total_frames
            &&& g.len_frames == segs[g.source_index as int].grain_size_frames
        } by {
            if e < entries.len() {
                assert(entries2[e] == entries[e]);
            } else {
                let q = e - entries.len();
                assert(entries2[e] == grain_entry(j, grains[q]));
                lemma_no_first_error_no_error(
                    sources[j as int].frame_count as nat,
                    segs[j as int].grain_size_frames as nat,
                    grains,
                    q,
                );
            }
        }
    }
}

/// The number of grains over all segmentations.
pub open spec fn total_grain_count(segs: Seq<CorpusSourceSegmentation>) -> nat
    decreases segs.len(),
{
    if segs.len() == 0 {
        0
    } else {
        total_grain_count(segs.drop_last()) + segs.last().grains@.len()
    }
}

proof fn lemma_no_grains_anywhere(segs: Seq<CorpusSourceSegmentation>)
    ensures
        total_grain_count(segs) == 0 <==> forall|i: int|
            0 <= i < segs.len() ==> #[trigger] segs[i].grains@.len() == 0,
    decreases segs.len(),
{
    if segs.len() > 0 {
        let init = segs.drop_last();
        lemma_no_grains_anywhere(init);
        if total_grain_count(segs) == 0 {
            assert forall|i: int| 0 <= i < segs.len() implies #[trigger] segs[i].grains@.len()
                == 0 by {
                if i < segs.len() - 1 {
                    assert(segs[i] == init[i]);
                }
            }
        }
        if forall|i: int| 0 <= i < segs.len() ==> #[trigger] segs[i].grains@.len() == 0 {
            assert forall|i: int| 0 <= i < init.len() implies #[trigger] init[i].grains@.len()
                == 0 by {
                assert(init[i] == segs[i]);
            }
            assert(segs[segs.len() - 1].grains@.len() == 0);
        }
    }
}

proof fn lemma_clean_prefix_lays_out_every_grain(
    sources: Seq<CorpusSourceLayout>,
    segs: Seq<CorpusSourceSegmentation>,
    k: nat,
)
    requires
        k <= sources.len(),
        k <= segs.len(),
        forall|i: int| 0 <= i < k ==> (#[trigger] source_error(i as nat, sources[i], segs[i])) is None,
    ensures
        layout_prefix(sources, segs, k) is Ok,
        layout_prefix(sources, segs, k)->Ok_0.0.len() == k,
        layout_prefix(sources, segs, k)->Ok_0.1.len() == total_grain_count(segs.take(k as int)),
    decreases k,
{
    if k > 0 {
        let j = (k - 1) as nat;
        lemma_clean_prefix_lays_out_every_grain(sources, segs, j);
        assert(source_error(j, sources[j as int], segs[j as int]) is None);
        assert(segs.take(k as int).drop_last() =~= segs.take(j as int));
        assert(segs.take(k as int).last() == segs[j as int]);
    }
}

/// With as many segmentations as sources, planning refuses a corpus for want
/// of grains exactly when no segmentation has any grain. A corpus with at
/// least one grain in any source, whose sources all agree with their
/// segmentations, is planned with every source and every grain of every
/// source, sources without grains included.
pub proof fn lemma_plan_needs_one_grain_in_total(
    sources: Seq<CorpusSourceLayout>,
    segs: Seq<CorpusSourceSegmentation>,
)
    requires
        sources.len() == segs.len(),
    ensures
        total_grain_count(segs) == 0 ==> spec_plan_index(sources, segs) == Err::<
            (Seq<CorpusSourceInfo>, Seq<CorpusGrainEntry>),
            Seq<char>,
        >("corpus indexing requires at least one grain"@),
        (total_grain_count(segs) > 0 && forall|i: int|
            0 <= i < segs.len() ==> (#[trigger] source_error(i as nat, sources[i], segs[i])) is None)
            ==> {
            &&& spec_plan_index(sources, segs) is Ok
            &&& spec_plan_index(sources, segs)->Ok_0.0.len() == sources.len()
            &&& spec_plan_index(sources, segs)->Ok_0.1.len() == total_grain_count(segs)
        },
{
    lemma_no_grains_anywhere(segs);
    if total_grain_count(segs) > 0 && forall|i: int|
        0 <= i < segs.len() ==> (#[trigger] source_error(i as nat, sources[i], segs[i])) is None {
        lemma_clean_prefix_lays_out_every_grain(sources, segs, sources.len());
        assert(segs.take(segs.len() as int) =~= segs);
    }
}

fn grain_check(source_len: usize, frame_size: usize, g: GrainSpan) -> (r: Option<String>)
    ensures
        match grain_error(source_len as nat, frame_size as nat, g) {
            Some(e) => r is Some && r->Some_0@ == e,
            None => r is None,
        },
{
    let end: u128 = g.start_frame as u128 + g.len_frames as u128;
    if end > source_len as u128 {
        let mut m = String::from_str("grain span [");
        push_decimal(&mut m, g.start_frame as u128);
        push_text(&mut m, ", ");
        push_decimal(&mut m, end);
        push_text(&mut m, ") exceeds source length ");
        push_decimal(&mut m, source_len as u128);
        return Some(m);
    }
    if g.len_frames != frame_size {
        let mut m = String::from_str("descriptor extractor expected ");
        push_decimal(&mut m, frame_size as u128);
        push_text(&mut m, " samples, found ");
        push_decimal(&mut m, g.len_frames as u128);
        return Some(m);
    }
    None
}

fn pair_check(i: usize, s: &CorpusSourceLayout, seg: &CorpusSourceSegmentation) -> (r: Option<String>)
    ensures
        match source_error(i as nat, *s, *seg) {
            Some(e) => r is Some && r->Some_0@ == e,
            None => r is None,
        },
{
    if seg.source_index != i {
        let mut m = String::from_str("corpus segmentation source_index mismatch: expected ");
        push_decimal(&mut m, i as u128);
        push_text(&mut m, ", found ");
        push_decimal(&mut m, seg.source_index as u128);
        return Some(m);
    }
    if seg.sample_rate != s.sample_rate {
        let mut m = String::from_str("corpus segmentation sample_rate mismatch for source ");
        push_decimal(&mut m, i as u128);
        push_text(&mut m, ": expected ");
        push_decimal(&mut m, s.sample_rate as u128);
        push_text(&mut m, ", found ");
        push_decimal(&mut m, seg.sample_rate as u128);
        return Some(m);
    }
    if seg.total_frames != s.frame_count {
        let mut m = String::from_str("corpus segmentation frame count mismatch for source ");
        push_decimal(&mut m, i as u128);
        push_text(&mut m, ": expected ");
        push_decimal(&mut m, s.frame_count as u128);
        push_text(&mut m, ", found ");
        push_decimal(&mut m, seg.total_frames as u128);
        return Some(m);
    }
    if seg.sample_rate == 0 {
        return Some(String::from_str("descriptor extractor sample_rate must be > 0"));
    }
    if seg.grain_size_frames == 0 {
        return Some(String::from_str("descriptor extractor frame_size must be > 0"));
    }
    let n = seg.grains.len();
    let mut j: usize = 0;
    while j < n
        invariant
            n == seg.grains@.len(),
            j <= n,
            seg.source_index == i,
            seg.sample_rate == s.sample_rate,
            seg.total_frames == s.frame_count,
            seg.sample_rate != 0,
            seg.grain_size_frames != 0,
            first_grain_error(s.frame_count as nat, seg.grain_size_frames as nat, seg.grains@.take(j as int)) is None,
        decreases n - j,
    {
        assert(seg.grains@.take(j + 1).drop_last() =~= seg.grains@.take(j as int));
        let r = grain_check(s.frame_count, seg.grain_size_frames, seg.grains[j]);
        if r.is_some() {
            proof {
                lemma_first_grain_error_sticks(
                    s.frame_count as nat,
                    seg.grain_size_frames as nat,
                    seg.grains@,
                    j + 1,
                    n as int,
                );
                assert(seg.grains@.take(n as int) =~= seg.grains@);
            }
            return r;
        }
        j = j + 1;
    }
    assert(seg.grains@.take(n as int) =~= seg.grains@);
    None
}

/// Plans a corpus index from loaded sources and their segmentations. The
/// counts must match and at least one grain must exist; then each source in
/// turn must agree with its segmentation (index, sample rate, frame count),
/// must allow a descriptor frame of the grain size, and each of its grains
/// must lie inside the source and have the grain size. The first failure is
/// reported; otherwise the layout lists every source and every grain.
pub fn plan_corpus_index(
    sources: &[CorpusSourceLayout],
    segmentations: &[CorpusSourceSegmentation],
) -> (r: Result<CorpusIndexLayout, String>)
    ensures
        match spec_plan_index(sources@, segmentations@) {
            Ok((infos, entries)) => r is Ok && r->Ok_0.sources@ == infos && r->Ok_0.grains@
                == entries,
            Err(e) => r is Err && r->Err_0@ == e,
        },
{
    if sources.len() != segmentations.len() {
        let mut m = String::from_str(
            "corpus indexing requires matching source and segmentation counts, found ",
        );
        push_decimal(&mut m, sources.len() as u128);
        push_text(&mut m, " sources and ");
        push_decimal(&mut m, segmentations.len() as u128);
        push_text(&mut m, " segmentations");
        return Err(m);
    }
    let n = sources.len();
    let mut any_grain = false;
    let mut i: usize = 0;
    while i < n
        invariant
            n == segmentations@.len(),
            i <= n,
            !any_grain ==> forall|k: int| 0 <= k < i ==> #[trigger] segmentations@[k].grains@.len() == 0,
            any_grain ==> exists|k: int| 0 <= k < n && #[trigger] segmentations@[k].grains@.len() != 0,
        decreases n - i,
    {
        if segmentations[i].grains.len() != 0 {
            any_grain = true;
        }
        i = i + 1;
    }
    if !any_grain {
        return Err(String::from_str("corpus indexing requires at least one grain"));
    }
    let mut infos: Vec<CorpusSourceInfo> = Vec::new();
    let mut entries: Vec<CorpusGrainEntry> = Vec::new();
    let mut i: usize = 0;
    while i < n
        invariant
            n == sources@.len(),
            n == segmentations@.len(),
            i <= n,
            !(forall|k: int| 0 <= k < segmentations@.len() ==> #[trigger] segmentations@[k].grains@.len() == 0),
            layout_prefix(sources@, segmentations@, i as nat) == Ok::<
                (Seq<CorpusSourceInfo>, Seq<CorpusGrainEntry>),
                Seq<char>,
            >((infos@, entries@)),
        decreases n - i,
    {
        let check = pair_check(i, &sources[i], &segmentations[i]);
        if let Some(e) = check {
            proof {
                lemma_prefix_error_sticks(sources@, segmentations@, (i + 1) as nat, n as nat);
            }
            return Err(e);
        }
        let s = &sources[i];
        infos.push(CorpusSourceInfo { path: s.path.clone(), sample_rate: s.sample_rate, total_frames: s.frame_count });
        let seg = &segmentations[i];
        let g = seg.grains.len();
        let ghost base = entries@;
        let mut j: usize = 0;
        while j < g
            invariant
                g == seg.grains@.len(),
                j <= g,
                entries@ == base + grain_entries(i as nat, seg.grains@.take(j as int)),
            decreases g - j,
        {
            let span = seg.grains[j];
            entries.push(CorpusGrainEntry { source_index: i, start_frame: span.start_frame, len_frames: span.len_frames });
            assert(grain_entries(i as nat, seg.grains@.take(j + 1)) =~= grain_entries(i as nat, seg.grains@.take(j as int)).push(grain_entry(i as nat, span)));
            j = j + 1;
        }
        assert(seg.grains@.take(g as int) =~= seg.grains@);
        i = i + 1;
    }
    Ok(CorpusIndexLayout { sources: infos, grains: entries })
}

impl CorpusIndexLayout {
    /// The number of grains.
    pub fn len(&self) -> (r: usize)
        ensures
            r == self.grains@.len(),
    {
        self.grains.len()
    }

    /// Whether there is no grain.
    pub fn is_empty(&self) -> (r: bool)
        ensures
            r == (self.grains@.len() == 0),
    {
        self.grains.len() == 0
    }

    /// The metadata of a source, if the index has it.
    pub fn source(&self, source_index: usize) -> (r: Option<&CorpusSourceInfo>)
        ensures
            source_index < self.sources@.len() ==> r == Some(&self.sources@[source_index as int]),
            source_index >= self.sources@.len() ==> r is None,
    {
        if source_index < self.sources.len() {
            Some(&self.sources[source_index])
        } else {
            None
        }
    }

    /// The entry of a grain, if the index has it.
    pub fn grain(&self, grain_index: usize) -> (r: Option<&CorpusGrainEntry>)
        ensures
            grain_index < self.grains@.len() ==> r == Some(&self.grains@[grain_index as int]),
            grain_index >= self.grains@.len() ==> r is None,
    {
        if grain_index < self.grains.len() {
            Some(&self.grains[grain_index])
        } else {
            None
        }
    }
}

} // verus!
