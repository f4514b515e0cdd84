use corpusflow::cli::{usage, CliCommand, ParsedCli};

#[test]
fn parses_help_when_no_command_is_present() {
    let cli = ParsedCli::parse(&["corpusflow"]).expect("cli should parse");
    assert_eq!(cli.command, CliCommand::Help);
}

#[test]
fn parses_run_command() {
    let cli = ParsedCli::parse(&["corpusflow", "run"]).expect("cli should parse");
    assert_eq!(
        cli.command,
        CliCommand::Run {
            config_path: None,
            output_path: String::new(),
        }
    );
}

#[test]
fn parses_show_config_command() {
    let cli = ParsedCli::parse(&["corpusflow", "show-config"]).expect("cli should parse");
    assert_eq!(cli.command, CliCommand::ShowConfig);
}

#[test]
fn rejects_unknown_command() {
    let error = ParsedCli::parse(&["corpusflow", "oops"]).expect_err("cli should fail");
    assert!(error.contains("unknown command `oops`"));
}

#[test]
fn help_aliases_all_select_help() {
    for alias in ["help", "--help", "-h"] {
        let cli = ParsedCli::parse(&["corpusflow", alias]).expect("cli should parse");
        assert_eq!(cli.command, CliCommand::Help);
    }
}

#[test]
fn empty_argument_list_selects_help() {
    let cli = ParsedCli::parse(&[]).expect("cli should parse");
    assert_eq!(cli.command, CliCommand::Help);
}

#[test]
fn extra_arguments_after_other_commands_are_ignored() {
    let cli = ParsedCli::parse(&["corpusflow", "show-config", "--extra"]).expect("cli should parse");
    assert_eq!(cli.command, CliCommand::ShowConfig);
    let cli = ParsedCli::parse(&["corpusflow", "validate-config", "a.json", "b.json"])
        .expect("cli should parse");
    assert_eq!(
        cli.command,
        CliCommand::ValidateConfig {
            config_path: "a.json".to_string(),
        }
    );
}

#[test]
fn run_reads_config_and_output_paths() {
    let cli = ParsedCli::parse(&[
        "corpusflow",
        "run",
        "--config",
        "release.json",
        "--output",
        "render.wav",
    ])
    .expect("cli should parse");
    assert_eq!(
        cli.command,
        CliCommand::Run {
            config_path: Some("release.json".to_string()),
            output_path: "render.wav".to_string(),
        }
    );

    let cli = ParsedCli::parse(&["corpusflow", "run", "--output", "a.wav", "--output", "b.wav"])
        .expect("cli should parse");
    assert_eq!(
        cli.command,
        CliCommand::Run {
            config_path: None,
            output_path: "b.wav".to_string(),
        }
    );
}

#[test]
fn run_ignores_other_arguments_and_options_without_a_path() {
    let cli = ParsedCli::parse(&["corpusflow", "run", "extra"]).expect("cli should parse");
    assert_eq!(
        cli.command,
        CliCommand::Run {
            config_path: None,
            output_path: String::new(),
        }
    );
    let cli = ParsedCli::parse(&["corpusflow", "run", "--output"]).expect("cli should parse");
    assert_eq!(
        cli.command,
        CliCommand::Run {
            config_path: None,
            output_path: String::new(),
        }
    );
    let cli = ParsedCli::parse(&["corpusflow", "run", "--output", "a.wav", "--config"])
        .expect("cli should parse");
    assert_eq!(
        cli.command,
        CliCommand::Run {
            config_path: None,
            output_path: "a.wav".to_string(),
        }
    );
    let cli = ParsedCli::parse(&["corpusflow", "run", "--extra", "--config", "c.json", "x"])
        .expect("cli should parse");
    assert_eq!(
        cli.command,
        CliCommand::Run {
            config_path: Some("c.json".to_string()),
            output_path: String::new(),
        }
    );
}

#[test]
fn validate_config_reads_its_path() {
    let cli = ParsedCli::parse(&["corpusflow", "validate-config", "release.json"])
        .expect("cli should parse");
    assert_eq!(
        cli.command,
        CliCommand::ValidateConfig {
            config_path: "release.json".to_string(),
        }
    );
    assert_eq!(
        ParsedCli::parse(&["corpusflow", "validate-config"]),
        Err(format!("`validate-config` requires a path\n\n{}", usage()))
    );
}

#[test]
fn unknown_command_error_ends_with_usage() {
    let error = ParsedCli::parse(&["corpusflow", "Run"]).expect_err("commands are case sensitive");
    assert_eq!(error, format!("unknown command `Run`\n\n{}", usage()));
}

#[test]
fn usage_lists_every_command() {
    assert_eq!(
        usage(),
        "CorpusFlow\n\nUSAGE:\n  corpusflow help\n  corpusflow run [--config PATH] --output PATH\n  corpusflow show-config\n  corpusflow validate-config PATH"
    );
}
