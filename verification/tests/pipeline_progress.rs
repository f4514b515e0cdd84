use corpusflow::config::RenderMode;
use corpusflow::pipeline::{
    check_run_inputs, render_complete_message, resolve_ambisonics_positioning,
    validate_config_message, validate_trajectory_times, PipelineProgress, ProgressMode,
};

#[test]
fn non_ambisonics_modes_ignore_positioning_json_path() {
    let positioning =
        resolve_ambisonics_positioning(RenderMode::Mono, "missing-ambisonics-positioning.json")
            .expect("mono rendering should ignore ambisonics positioning");

    assert_eq!(positioning, None);
}

#[test]
fn ambisonics_mode_resolves_trimmed_positioning_path() {
    assert_eq!(
        resolve_ambisonics_positioning(RenderMode::AmbisonicsReserved, "  positioning.json \n"),
        Ok(Some("positioning.json".to_string()))
    );
    assert_eq!(
        resolve_ambisonics_positioning(RenderMode::AmbisonicsReserved, " \t "),
        Ok(None)
    );
    assert_eq!(
        resolve_ambisonics_positioning(RenderMode::Stereo, "positioning.json"),
        Ok(None)
    );
}

#[test]
fn interactive_progress_rewrites_the_same_line() {
    let mut output = String::new();
    let mut progress = PipelineProgress::new(2, ProgressMode::Interactive);

    output.push_str(&progress.emit("starting pipeline"));
    output.push_str(&progress.advance("corpus loaded"));
    output.push_str(&progress.advance("output written"));
    output.push_str(&progress.finish());

    assert!(
        output.contains(
            "\r\x1b[2KCorpusFlow [>-----------------------] step 0/2 starting pipeline"
        )
    );
    assert!(
        output
            .contains("\r\x1b[2KCorpusFlow [============>-----------] step 1/2 corpus loaded")
    );
    assert!(
        output.contains(
            "\r\x1b[2KCorpusFlow [========================] step 2/2 output written\n"
        )
    );
}

#[test]
fn stream_progress_writes_one_line_per_step() {
    let mut progress = PipelineProgress::new(7, ProgressMode::Stream);
    assert_eq!(
        progress.emit("starting pipeline"),
        "CorpusFlow [>-----------------------] step 0/7 starting pipeline\n"
    );
    for _ in 0..3 {
        progress.advance("stage");
    }
    assert_eq!(
        progress.advance("target analyzed"),
        "CorpusFlow [=============>----------] step 4/7 target analyzed\n"
    );
    for _ in 0..2 {
        progress.advance("stage");
    }
    assert_eq!(
        progress.advance("output written"),
        "CorpusFlow [========================] step 7/7 output written\n"
    );
    assert_eq!(progress.completed_steps, 7);
    assert_eq!(
        progress.advance("again"),
        "CorpusFlow [========================] step 7/7 again\n"
    );
    assert_eq!(progress.finish(), "");
}

#[test]
fn interrupted_interactive_progress_ends_its_line() {
    let mut progress = PipelineProgress::new(3, ProgressMode::Interactive);
    progress.emit("starting pipeline");
    assert!(progress.needs_newline);
    assert_eq!(progress.finish(), "\n");
    assert_eq!(progress.finish(), "");
}

#[test]
fn empty_progress_shows_a_full_bar() {
    let progress = PipelineProgress::new(0, ProgressMode::Stream);
    assert_eq!(progress.render_bar(), "========================");
    assert_eq!(
        progress.render_line("done"),
        "CorpusFlow [========================] step 0/0 done"
    );
}

#[test]
fn progress_past_its_total_shows_a_full_bar_and_clamps() {
    let mut progress = PipelineProgress {
        total_steps: 2,
        completed_steps: 5,
        mode: ProgressMode::Stream,
        needs_newline: false,
    };
    assert_eq!(progress.render_bar(), "========================");
    assert_eq!(
        progress.emit("late"),
        "CorpusFlow [========================] step 5/2 late\n"
    );
    assert_eq!(
        progress.advance("clamped"),
        "CorpusFlow [========================] step 2/2 clamped\n"
    );
    assert_eq!(progress.completed_steps, 2);
}

#[test]
fn run_inputs_must_not_be_blank() {
    assert_eq!(
        check_run_inputs(" ", "corpus", "target.wav"),
        Err("run output path must not be empty".to_string())
    );
    assert_eq!(
        check_run_inputs("out.wav", "", "target.wav"),
        Err("run requires corpus.root to be set".to_string())
    );
    assert_eq!(
        check_run_inputs("out.wav", "corpus", "\t"),
        Err("run requires target.path to be set".to_string())
    );
    assert_eq!(check_run_inputs("out.wav", "corpus", "target.wav"), Ok(()));
}

#[test]
fn run_and_validation_messages() {
    assert_eq!(
        render_complete_message("out.wav", 1, 8, 8, 8, 2, 8),
        "render complete: output=out.wav corpus_sources=1 corpus_grains=8 target_frames=8 matched_steps=8 rendered_channels=2 rendered_frames=8"
    );
    assert_eq!(
        validate_config_message("release.json", "summary"),
        "config valid: release.json\nsummary"
    );
}

#[test]
fn trajectory_times_must_start_at_zero_and_increase() {
    assert_eq!(validate_trajectory_times(&[0, 1200, 2600]), Ok(()));
    assert_eq!(validate_trajectory_times(&[0]), Ok(()));
    assert_eq!(
        validate_trajectory_times(&[]),
        Err("ambisonics positioning trajectory must not be empty".to_string())
    );
    assert_eq!(
        validate_trajectory_times(&[5, 10]),
        Err("ambisonics positioning trajectory must start at time_ms = 0".to_string())
    );
    assert_eq!(
        validate_trajectory_times(&[0, 10, 10]),
        Err("ambisonics positioning trajectory time_ms must be strictly increasing".to_string())
    );
}
