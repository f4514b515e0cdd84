//! Command-line parsing: the command that the first argument after the
//! program name selects, and the options that `run` and `validate-config` read.

use vstd::prelude::*;
use crate::text::{push_text, str_eq};

verus! {

/// The commands of the tool.
#[allow(inconsistent_fields)]
#[derive(Debug, Clone, PartialEq, Eq)]
pub enum CliCommand {
    Help,
    /// Run the pipeline with the configuration at `config_path` (the default
    /// configuration when absent), writing to `output_path`.
    Run { config_path: Option<String>, output_path: String },
    ShowConfig,
    /// Check the configuration file at `config_path`.
    ValidateConfig { config_path: String },
}

/// A command as character sequences.
#[allow(inconsistent_fields)]
pub enum CommandView {
    Help,
    Run { config_path: Option<Seq<char>>, output_path: Seq<char> },
    ShowConfig,
    ValidateConfig { config_path: Seq<char> },
}

/// The characters of an optional string.
pub open spec fn option_view(o: Option<String>) -> Option<Seq<char>> {
    match o {
        Some(s) => Some(s@),
        None => None,
    }
}

impl View for CliCommand {
    type V = CommandView;

    open spec fn view(&self) -> CommandView {
        match self {
            CliCommand::Help => CommandView::Help,
            CliCommand::Run { config_path, output_path } => CommandView::Run {
                config_path: option_view(*config_path),
                output_path: output_path@,
            },
            CliCommand::ShowConfig => CommandView::ShowConfig,
            CliCommand::ValidateConfig { config_path } => CommandView::ValidateConfig {
                config_path: config_path@,
            },
        }
    }
}

/// The parsed command line.
#[derive(Debug, Clone, PartialEq, Eq)]
pub struct ParsedCli {
    pub command: CliCommand,
}

/// The usage text.
pub open spec fn usage_text() -> Seq<char> {
    "CorpusFlow\n\nUSAGE:\n  corpusflow help\n  corpusflow run [--config PATH] --output PATH\n  corpusflow show-config\n  corpusflow validate-config PATH"@
}

/// The options of `run` from argument `i` on, given the paths read so far:
/// `--config PATH` and `--output PATH`, in any order, a later one replacing
/// an earlier one. Any other argument, and an option at the end without its
/// path, is ignored.
pub open spec fn spec_run_options(
    args: Seq<Seq<char>>,
    i: nat,
    config: Option<Seq<char>>,
    output: Seq<char>,
) -> (Option<Seq<char>>, Seq<char>)
    decreases args.len() - i,
{
    if i >= args.len() {
        (config, output)
    } else {
        let a = args[i as int];
        if a == "--config"@ && i + 1 < args.len() {
            spec_run_options(args, i + 2, Some(args[i + 1int]), output)
        } else if a == "--output"@ && i + 1 < args.len() {
            spec_run_options(args, i + 2, config, args[i + 1int])
        } else {
            spec_run_options(args, i + 1, config, output)
        }
    }
}

/// What parsing yields for arguments whose first element is the program name.
/// `run` never fails to parse: without `--output` it gets an empty output
/// path, which a run refuses.
pub open spec fn spec_parse(args: Seq<Seq<char>>) -> Result<CommandView, Seq<char>> {
    if args.len() <= 1 {
        Ok(CommandView::Help)
    } else {
        let a = args[1];
        if a == "help"@ || a == "--help"@ || a == "-h"@ {
            Ok(CommandView::Help)
        } else if a == "run"@ {
            let (config, output) = spec_run_options(args, 2, None, Seq::empty());
            Ok(CommandView::Run { config_path: config, output_path: output })
        } else if a == "show-config"@ {
            Ok(CommandView::ShowConfig)
        } else if a == "validate-config"@ {
            if args.len() > 2 {
                Ok(CommandView::ValidateConfig { config_path: args[2] })
            } else {
                Err("`validate-config` requires a path\n\n"@ + usage_text())
            }
        } else {
            Err("unknown command `"@ + a + "`\n\n"@ + usage_text())
        }
    }
}

/// `run --config C --output O` reads both paths, whatever the program name,
/// the paths and the arguments that follow: the configuration path is `C`
/// unless a later `--config` replaces it, the output path `O` unless a later
/// `--output` does.
pub proof fn lemma_run_reads_config_and_output(
    program: Seq<char>,
    config: Seq<char>,
    output: Seq<char>,
    rest: Seq<Seq<char>>,
)
    ensures
        ({
            let args = seq![program, "run"@, "--config"@, config, "--output"@, output] + rest;
            let (c, o) = spec_run_options(rest, 0, Some(config), output);
            spec_parse(args) == Ok::<CommandView, Seq<char>>(
                CommandView::Run { config_path: c, output_path: o },
            )
        }),
        spec_run_options(Seq::empty(), 0, Some(config), output) == (Some(config), output),
{
    reveal_strlit("run");
    reveal_strlit("help");
    reveal_strlit("--help");
    reveal_strlit("-h");
    reveal_strlit("--config");
    reveal_strlit("--output");
    let args = seq![program, "run"@, "--config"@, config, "--output"@, output] + rest;
    assert(args[1] == "run"@);
    assert(args[2] == "--config"@);
    assert(args[3] == config);
    assert(args[4] == "--output"@);
    assert(args[5] == output);
    assert("--output"@ != "--config"@) by {
        assert("--output"@[2] != "--config"@[2]);
    }
    assert("run"@ != "help"@) by {
        assert("run"@.len() != "help"@.len());
    }
    assert("run"@ != "--help"@) by {
        assert("run"@.len() != "--help"@.len());
    }
    assert("run"@ != "-h"@) by {
        assert("run"@.len() != "-h"@.len());
    }
    assert(args.len() == 6 + rest.len());
    assert forall|k: int| 0 <= k < rest.len() implies #[trigger] args[6 + k] == rest[k] by {}
    assert(spec_run_options(args, 2, None, Seq::empty()) == spec_run_options(
        args,
        4,
        Some(config),
        Seq::empty(),
    ));
    assert(spec_run_options(args, 4, Some(config), Seq::empty()) == spec_run_options(
        args,
        6,
        Some(config),
        output,
    ));
    lemma_run_options_shift(args, rest, 6, Some(config), output);
}

proof fn lemma_run_options_shift(
    args: Seq<Seq<char>>,
    rest: Seq<Seq<char>>,
    skip: nat,
    config: Option<Seq<char>>,
    output: Seq<char>,
)
    requires
        args.len() == skip + rest.len(),
        forall|k: int| 0 <= k < rest.len() ==> #[trigger] args[skip + k] == rest[k],
    ensures
        spec_run_options(args, skip, config, output) == spec_run_options(rest, 0, config, output),
{
    lemma_run_options_shift_from(args, rest, skip, 0, config, output);
}

proof fn lemma_run_options_shift_from(
    args: Seq<Seq<char>>,
    rest: Seq<Seq<char>>,
    skip: nat,
    i: nat,
    config: Option<Seq<char>>,
    output: Seq<char>,
)
    requires
        args.len() == skip + rest.len(),
        forall|k: int| 0 <= k < rest.len() ==> #[trigger] args[skip + k] == rest[k],
    ensures
        spec_run_options(args, skip + i, config, output) == spec_run_options(rest, i, config, output),
    decreases rest.len() - i,
{
    if i < rest.len() {
        assert(args[(skip + i) as int] == rest[i as int]);
        if i + 1 < rest.len() {
            let k = (i + 1) as int;
            assert(args[skip + k] == rest[k]);
            lemma_run_options_shift_from(args, rest, skip, i + 2, Some(rest[(i + 1) as int]), output);
            lemma_run_options_shift_from(args, rest, skip, i + 2, config, rest[(i + 1) as int]);
        }
        lemma_run_options_shift_from(args, rest, skip, i + 1, config, output);
    }
}

/// Reading `run`'s options argument by argument: a leading `--config C` sets
/// the configuration path to `C` and a leading `--output O` sets the output
/// path to `O`, whatever was read before, replacing it; any other leading
/// argument changes nothing; and an option left without its path at the end
/// is ignored.
pub proof fn lemma_run_options_step(
    first: Seq<char>,
    value: Seq<char>,
    rest: Seq<Seq<char>>,
    config: Option<Seq<char>>,
    output: Seq<char>,
)
    ensures
        spec_run_options(seq!["--config"@, value] + rest, 0, config, output) == spec_run_options(
            rest,
            0,
            Some(value),
            output,
        ),
        spec_run_options(seq!["--output"@, value] + rest, 0, config, output) == spec_run_options(
            rest,
            0,
            config,
            value,
        ),
        first != "--config"@ && first != "--output"@ ==> spec_run_options(
            seq![first] + rest,
            0,
            config,
            output,
        ) == spec_run_options(rest, 0, config, output),
        spec_run_options(seq!["--config"@], 0, config, output) == (config, output),
        spec_run_options(seq!["--output"@], 0, config, output) == (config, output),
{
    reveal_strlit("--config");
    reveal_strlit("--output");
    assert("--output"@ != "--config"@) by {
        assert("--output"@[2] != "--config"@[2]);
    }
    let a = seq!["--config"@, value] + rest;
    assert(a[0] == "--config"@ && a[1] == value);
    assert forall|k: int| 0 <= k < rest.len() implies #[trigger] a[2 + k] == rest[k] by {}
    lemma_run_options_shift(a, rest, 2, Some(value), output);
    let b = seq!["--output"@, value] + rest;
    assert(b[0] == "--output"@ && b[1] == value);
    assert forall|k: int| 0 <= k < rest.len() implies #[trigger] b[2 + k] == rest[k] by {}
    lemma_run_options_shift(b, rest, 2, config, value);
    let c = seq![first] + rest;
    assert(c[0] == first);
    assert forall|k: int| 0 <= k < rest.len() implies #[trigger] c[1 + k] == rest[k] by {}
    lemma_run_options_shift(c, rest, 1, config, output);
    let d = seq!["--config"@];
    assert(d.len() == 1 && d[0] == "--config"@);
    assert(spec_run_options(d, 1, config, output) == (config, output));
    let e = seq!["--output"@];
    assert(e.len() == 1 && e[0] == "--output"@);
    assert(spec_run_options(e, 1, config, output) == (config, output));
}

/// The order of `--config C` and `--output O` after `run` does not matter:
/// either order, followed by the same arguments, parses to the same command.
pub proof fn lemma_run_option_order_is_irrelevant(
    program: Seq<char>,
    config: Seq<char>,
    output: Seq<char>,
    rest: Seq<Seq<char>>,
)
    ensures
        spec_parse(seq![program, "run"@, "--config"@, config, "--output"@, output] + rest)
            == spec_parse(seq![program, "run"@, "--output"@, output, "--config"@, config] + rest),
{
    lemma_run_reads_config_and_output(program, config, output, rest);
    reveal_strlit("run");
    reveal_strlit("help");
    reveal_strlit("--help");
    reveal_strlit("-h");
    reveal_strlit("--config");
    reveal_strlit("--output");
    let args = seq![program, "run"@, "--output"@, output, "--config"@, config] + rest;
    assert(args[1] == "run"@);
    assert(args[2] == "--output"@);
    assert(args[3] == output);
    assert(args[4] == "--config"@);
    assert(args[5] == config);
    assert("--output"@ != "--config"@) by {
        assert("--output"@[2] != "--config"@[2]);
    }
    assert("run"@ != "help"@) by {
        assert("run"@.len() != "help"@.len());
    }
    assert("run"@ != "--help"@) by {
        assert("run"@.len() != "--help"@.len());
    }
    assert("run"@ != "-h"@) by {
        assert("run"@.len() != "-h"@.len());
    }
    assert(args.len() == 6 + rest.len());
    assert forall|k: int| 0 <= k < rest.len() implies #[trigger] args[6 + k] == rest[k] by {}
    assert(spec_run_options(args, 2, None, Seq::empty()) == spec_run_options(
        args,
        4,
        None,
        output,
    ));
    assert(spec_run_options(args, 4, None, output) == spec_run_options(
        args,
        6,
        Some(config),
        output,
    ));
    lemma_run_options_shift(args, rest, 6, Some(config), output);
}

/// The arguments as character sequences.
pub open spec fn arg_views(args: Seq<&str>) -> Seq<Seq<char>> {
    args.map_values(|a: &str| a@)
}

impl ParsedCli {
    /// Parses the arguments; the first one is the program name and is skipped,
    /// the second one selects the command. `run` reads `--config PATH` and
    /// `--output PATH` and ignores any other argument; `validate-config`
    /// reads its path; other commands ignore any further arguments.
    pub fn parse(args: &[&str]) -> (r: Result<Self, String>)
        ensures
            match spec_parse(arg_views(args@)) {
                Ok(c) => r is Ok && r->Ok_0.command@ == c,
                Err(e) => r is Err && r->Err_0@ == e,
            },
    {
        let ghost views = arg_views(args@);
        if args.len() <= 1 {
            return Ok(ParsedCli { command: CliCommand::Help });
        }
        let a = args[1];
        assert(views[1] == a@);
        if str_eq(a, "help") || str_eq(a, "--help") || str_eq(a, "-h") {
            Ok(ParsedCli { command: CliCommand::Help })
        } else if str_eq(a, "run") {
            let mut config_path: Option<String> = None;
            let mut output_path = String::new();
            let n = args.len();
            let mut i: usize = 2;
            while i < n
                invariant
                    n == args@.len(),
                    views == arg_views(args@),
                    views.len() == n,
                    n > 1,
                    views[1] == "run"@,
                    !(views[1] == "help"@ || views[1] == "--help"@ || views[1] == "-h"@),
                    2 <= i,
                    spec_run_options(views, 2, None, Seq::empty()) == spec_run_options(
                        views,
                        i as nat,
                        option_view(config_path),
                        output_path@,
                    ),
                decreases n - i,
            {
                let option = args[i];
                assert(views[i as int] == option@);
                if str_eq(option, "--config") && i + 1 < n {
                    assert(views[i + 1] == args@[i + 1]@);
                    config_path = Some(args[i + 1].to_owned());
                    i = i + 2;
                } else if str_eq(option, "--output") && i + 1 < n {
                    assert(views[i + 1] == args@[i + 1]@);
                    output_path = args[i + 1].to_owned();
                    i = i + 2;
                } else {
                    i = i + 1;
                }
            }
            Ok(ParsedCli { command: CliCommand::Run { config_path, output_path } })
        } else if str_eq(a, "show-config") {
            Ok(ParsedCli { command: CliCommand::ShowConfig })
        } else if str_eq(a, "validate-config") {
            if args.len() > 2 {
                assert(views[2] == args@[2]@);
                Ok(ParsedCli { command: CliCommand::ValidateConfig { config_path: args[2].to_owned() } })
            } else {
                let mut message = String::from_str("`validate-config` requires a path\n\n");
                let u = usage();
                push_text(&mut message, u.as_str());
                Err(message)
            }
        } else {
            let mut message = String::from_str("unknown command `");
            push_text(&mut message, a);
            push_text(&mut message, "`\n\n");
            let u = usage();
            push_text(&mut message, u.as_str());
            Err(message)
        }
    }
}

/// The usage text of the tool.
pub fn usage() -> (r: String)
    ensures
        r@ == usage_text(),
{
    String::from_str(
        "CorpusFlow\n\nUSAGE:\n  corpusflow help\n  corpusflow run [--config PATH] --output PATH\n  corpusflow show-config\n  corpusflow validate-config PATH",
    )
}

} // verus!
