//! Decisions of the offline pipeline around its stages: the checks before a
//! run, the stage progress display, the messages the tool prints, and which
//! ambisonics positioning file a run has to load.

use vstd::prelude::*;
use crate::config::RenderMode;
use crate::text::{
    is_blank, push_char, push_decimal, push_repeated, push_text, spec_decimal as dec, spec_is_blank,
    spec_repeat, spec_trim, trim,
};

verus! {

/// The result of the checks that a run makes before it reads any input.
pub open spec fn spec_check_run_inputs(output: Seq<char>, root: Seq<char>, target: Seq<char>) -> Result<(), Seq<char>> {
    if spec_is_blank(output) {
        Err("run output path must not be empty"@)
    } else if spec_is_blank(root) {
        Err("run requires corpus.root to be set"@)
    } else if spec_is_blank(target) {
        Err("run requires target.path to be set"@)
    } else {
        Ok(())
    }
}

/// Refuses a run whose output path, corpus root or target path is blank.
pub fn check_run_inputs(output_path: &str, corpus_root: &str, target_path: &str) -> (r: Result<(), String>)
    ensures
        match spec_check_run_inputs(output_path@, corpus_root@, target_path@) {
            Ok(()) => r is Ok,
            Err(e) => r is Err && r->Err_0@ == e,
        },
{
    if is_blank(output_path) {
        return Err(String::from_str("run output path must not be empty"));
    }
    if is_blank(corpus_root) {
        return Err(String::from_str("run requires corpus.root to be set"));
    }
    if is_blank(target_path) {
        return Err(String::from_str("run requires target.path to be set"));
    }
    Ok(())
}

/// The message of a finished run.
pub open spec fn spec_render_complete_message(
    output: Seq<char>,
    sources: nat,
    grains: nat,
    frames: nat,
    steps: nat,
    channels: nat,
    rendered_frames: nat,
) -> Seq<char> {
    "render complete: output="@ + output + " corpus_sources="@ + dec(sources) + " corpus_grains="@
        + dec(grains) + " target_frames="@ + dec(frames) + " matched_steps="@ + dec(steps)
        + " rendered_channels="@ + dec(channels) + " rendered_frames="@ + dec(rendered_frames)
}

/// The message of a finished run: the output path and the size of each stage.
pub fn render_complete_message(
    output_path: &str,
    corpus_sources: usize,
    corpus_grains: usize,
    target_frames: usize,
    matched_steps: usize,
    rendered_channels: u16,
    rendered_frames: usize,
) -> (r: String)
    ensures
        r@ == spec_render_complete_message(
            output_path@,
            corpus_sources as nat,
            corpus_grains as nat,
            target_frames as nat,
            matched_steps as nat,
            rendered_channels as nat,
            rendered_frames as nat,
        ),
{
    let mut m = String::from_str("render complete: output=");
    push_text(&mut m, output_path);
    push_text(&mut m, " corpus_sources=");
    push_decimal(&mut m, corpus_sources as u128);
    push_text(&mut m, " corpus_grains=");
    push_decimal(&mut m, corpus_grains as u128);
    push_text(&mut m, " target_frames=");
    push_decimal(&mut m, target_frames as u128);
    push_text(&mut m, " matched_steps=");
    push_decimal(&mut m, matched_steps as u128);
    push_text(&mut m, " rendered_channels=");
    push_decimal(&mut m, rendered_channels as u128);
    push_text(&mut m, " rendered_frames=");
    push_decimal(&mut m, rendered_frames as u128);
    m
}

/// The message of `validate-config`: the path, then the configuration summary.
pub fn validate_config_message(config_path: &str, summary: &str) -> (r: String)
    ensures
        r@ == "config valid: "@ + config_path@ + "\n"@ + summary@,
{
    let mut m = String::from_str("config valid: ");
    push_text(&mut m, config_path);
    push_text(&mut m, "\n");
    push_text(&mut m, summary);
    m
}

/// The positioning file that a run in `mode` has to load: none outside the
/// ambisonics mode or when the configured path is blank, else the path with
/// surrounding white space removed.
pub fn resolve_ambisonics_positioning(mode: RenderMode, positioning_json_path: &str) -> (r: Result<Option<String>, String>)
    ensures
        r is Ok,
        mode != RenderMode::AmbisonicsReserved ==> r == Ok::<Option<String>, String>(None),
        mode == RenderMode::AmbisonicsReserved && spec_is_blank(positioning_json_path@) ==> r
            == Ok::<Option<String>, String>(None),
        mode == RenderMode::AmbisonicsReserved && !spec_is_blank(positioning_json_path@) ==> r->Ok_0
            is Some && r->Ok_0->Some_0@ == spec_trim(positioning_json_path@),
{
    if mode != RenderMode::AmbisonicsReserved {
        return Ok(None);
    }
    let trimmed = trim(positioning_json_path);
    if trimmed.unicode_len() == 0 {
        return Ok(None);
    }
    Ok(Some(trimmed.to_owned()))
}

/// The result of checking the time stamps of an ambisonics trajectory: it
/// must have a waypoint, start at time zero and strictly increase.
pub open spec fn spec_validate_trajectory_times(times: Seq<u64>) -> Result<(), Seq<char>> {
    if times.len() == 0 {
        Err("ambisonics positioning trajectory must not be empty"@)
    } else if times[0] != 0 {
        Err("ambisonics positioning trajectory must start at time_ms = 0"@)
    } else if exists|i: int| 0 < i < times.len() && #[trigger] times[i] <= times[i - 1] {
        Err("ambisonics positioning trajectory time_ms must be strictly increasing"@)
    } else {
        Ok(())
    }
}

/// Checks the waypoint time stamps of an ambisonics trajectory.
pub fn validate_trajectory_times(times: &[u64]) -> (r: Result<(), String>)
    ensures
        match spec_validate_trajectory_times(times@) {
            Ok(()) => r is Ok,
            Err(e) => r is Err && r->Err_0@ == e,
        },
{
    if times.len() == 0 {
        return Err(String::from_str("ambisonics positioning trajectory must not be empty"));
    }
    if times[0] != 0 {
        return Err(String::from_str("ambisonics positioning trajectory must start at time_ms = 0"));
    }
    let mut i: usize = 1;
    while i < times.len()
        invariant
            1 <= i <= times@.len(),
            times@[0] == 0,
            forall|k: int| 0 < k < i ==> #[trigger] times@[k] > times@[k - 1],
        decreases times@.len() - i,
    {
        if times[i] <= times[i - 1] {
            assert(0 < i < times@.len() && times@[i as int] <= times@[i - 1]);
            return Err(
                String::from_str("ambisonics positioning trajectory time_ms must be strictly increasing"),
            );
        }
        i = i + 1;
    }
    Ok(())
}

/// The width of the progress bar.
pub const BAR_WIDTH: usize = 24;

/// How progress is written: redrawn in place on a terminal, or one line per
/// step when the stream is redirected.
#[derive(Debug, Clone, Copy, PartialEq, Eq, Structural)]
pub enum ProgressMode {
    Interactive,
    Stream,
}

/// The stage progress of a run. Each call returns the text to write.
#[derive(Debug, Clone, Copy, PartialEq, Eq, Structural)]
pub struct PipelineProgress {
    pub total_steps: usize,
    pub completed_steps: usize,
    pub mode: ProgressMode,
    pub needs_newline: bool,
}

/// The bar for `completed` of `total` steps: full when done (or when there is
/// nothing to do), else `completed * 24 / total` filled cells, a head and blanks.
pub open spec fn spec_bar(completed: nat, total: nat) -> Seq<char> {
    if total == 0 || completed >= total {
        spec_repeat('=', 24)
    } else {
        let filled = completed * 24 / total;
        spec_repeat('=', filled) + seq!['>'] + spec_repeat('-', (24 - (filled + 1)) as nat)
    }
}

/// The progress line.
pub open spec fn spec_line(completed: nat, total: nat, label: Seq<char>) -> Seq<char> {
    "CorpusFlow ["@ + spec_bar(completed, total) + "] step "@ + dec(completed) + "/"@ + dec(total)
        + " "@ + label
}

/// The control sequence that returns to the start of the line and clears it.
pub open spec fn redraw_prefix() -> Seq<char> {
    seq!['\r', '\u{1b}', '[', '2', 'K']
}

/// The text that writing a line emits in a mode, given the steps done so far.
pub open spec fn spec_emit_text(mode: ProgressMode, completed: nat, total: nat, label: Seq<char>) -> Seq<char> {
    match mode {
        ProgressMode::Interactive => if completed == total {
            redraw_prefix() + spec_line(completed, total, label) + seq!['\n']
        } else {
            redraw_prefix() + spec_line(completed, total, label)
        },
        ProgressMode::Stream => spec_line(completed, total, label) + seq!['\n'],
    }
}

impl PipelineProgress {
    /// Steps never exceed the total.
    pub open spec fn wf(self) -> bool {
        self.completed_steps <= self.total_steps
    }

    /// Progress of `total_steps` steps, none done yet.
    pub fn new(total_steps: usize, mode: ProgressMode) -> (r: Self)
        ensures
            r.wf(),
            r.total_steps == total_steps,
            r.completed_steps == 0,
            r.mode == mode,
            !r.needs_newline,
    {
        PipelineProgress { total_steps, completed_steps: 0, mode, needs_newline: false }
    }

    /// The bar of the current progress.
    pub fn render_bar(&self) -> (r: String)
        ensures
            r@ == spec_bar(self.completed_steps as nat, self.total_steps as nat),
    {
        let mut bar = String::new();
        if self.total_steps == 0 || self.completed_steps >= self.total_steps {
            push_repeated(&mut bar, '=', BAR_WIDTH);
            return bar;
        }
        let product: u128 = self.completed_steps as u128 * 24;
        let filled_wide: u128 = product / (self.total_steps as u128);
        proof {
            lemma_filled_below_width(self.completed_steps as nat, self.total_steps as nat);
        }
        let filled: usize = filled_wide as usize;
        push_repeated(&mut bar, '=', filled);
        push_char(&mut bar, '>');
        push_repeated(&mut bar, '-', BAR_WIDTH - (filled + 1));
        bar
    }

    /// The progress line with its label.
    pub fn render_line(&self, label: &str) -> (r: String)
        ensures
            r@ == spec_line(self.completed_steps as nat, self.total_steps as nat, label@),
    {
        let bar = self.render_bar();
        let mut line = String::from_str("CorpusFlow [");
        push_text(&mut line, bar.as_str());
        push_text(&mut line, "] step ");
        push_decimal(&mut line, self.completed_steps as u128);
        push_text(&mut line, "/");
        push_decimal(&mut line, self.total_steps as u128);
        push_text(&mut line, " ");
        push_text(&mut line, label);
        line
    }

    /// Writes the current line: on a terminal it redraws the line in place and
    /// ends it once every step is done; on a stream it writes a full line.
    pub fn emit(&mut self, label: &str) -> (r: String)
        ensures
            final(self).total_steps == old(self).total_steps,
            final(self).completed_steps == old(self).completed_steps,
            final(self).mode == old(self).mode,
            r@ == spec_emit_text(
                old(self).mode,
                old(self).completed_steps as nat,
                old(self).total_steps as nat,
                label@,
            ),
            old(self).mode == ProgressMode::Interactive ==> final(self).needs_newline == (
            old(self).completed_steps != old(self).total_steps),
            old(self).mode == ProgressMode::Stream ==> final(self).needs_newline == old(
                self,
            ).needs_newline,
    {
        let line = self.render_line(label);
        let mut out = String::new();
        match self.mode {
            ProgressMode::Interactive => {
                push_char(&mut out, '\r');
                push_char(&mut out, '\u{1b}');
                push_char(&mut out, '[');
                push_char(&mut out, '2');
                push_char(&mut out, 'K');
                push_text(&mut out, line.as_str());
                self.needs_newline = true;
                if self.completed_steps == self.total_steps {
                    push_char(&mut out, '\n');
                    self.needs_newline = false;
                }
            },
            ProgressMode::Stream => {
                push_text(&mut out, line.as_str());
                push_char(&mut out, '\n');
            },
        }
        assert(out@ =~= spec_emit_text(
            old(self).mode,
            old(self).completed_steps as nat,
            old(self).total_steps as nat,
            label@,
        ));
        out
    }

    /// Counts one more step done, without going past the total, and writes the line.
    pub fn advance(&mut self, label: &str) -> (r: String)
        ensures
            final(self).wf(),
            final(self).total_steps == old(self).total_steps,
            final(self).mode == old(self).mode,
            final(self).completed_steps == (if old(self).completed_steps < old(
                self,
            ).total_steps {
                old(self).completed_steps + 1
            } else {
                old(self).total_steps as int
            }),
            r@ == spec_emit_text(
                old(self).mode,
                final(self).completed_steps as nat,
                old(self).total_steps as nat,
                label@,
            ),
            old(self).mode == ProgressMode::Interactive ==> final(self).needs_newline == (
            final(self).completed_steps != final(self).total_steps),
            old(self).mode == ProgressMode::Stream ==> final(self).needs_newline == old(
                self,
            ).needs_newline,
    {
        if self.completed_steps < self.total_steps {
            self.completed_steps = self.completed_steps + 1;
        } else {
            self.completed_steps = self.total_steps;
        }
        self.emit(label)
    }

    /// What is left to write when progress ends: the end of a line that was
    /// redrawn in place and not yet ended.
    pub fn finish(&mut self) -> (r: String)
        ensures
            *final(self) == (PipelineProgress { needs_newline: false, ..*old(self) }),
            old(self).needs_newline ==> r@ == seq!['\n'],
            !old(self).needs_newline ==> r@.len() == 0,
    {
        let mut out = String::new();
        if self.needs_newline {
            push_char(&mut out, '\n');
            self.needs_newline = false;
        }
        out
    }
}

proof fn lemma_filled_below_width(completed: nat, total: nat)
    requires
        completed < total,
    ensures
        completed * 24 / total < 24,
{
    assert(completed * 24 / total < 24) by (nonlinear_arith)
        requires
            completed < total,
    ;
}

/// The progress bar always has the same width.
pub proof fn lemma_bar_has_fixed_width(completed: nat, total: nat)
    ensures
        spec_bar(completed, total).len() == 24,
{
    if !(total == 0 || completed >= total) {
        lemma_filled_below_width(completed, total);
    }
}

} // verus!
