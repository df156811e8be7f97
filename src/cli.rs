use vstd::prelude::*;
use vstd::string::*;

use crate::scan::OutputFormat;
use crate::text::{str_eq, chars_of};

verus! {

/// Configuration of a scan run.
#[derive(Debug, Clone)]
pub struct ScanConfig {
    pub input_path: String,
    pub output_file: Option<String>,
    pub output_format: OutputFormat,
    pub quiet: bool,
}

/// What the command line asks for.
#[derive(Debug, Clone)]
pub enum CliResult {
    Run(ScanConfig),
    Help,
    Error(String),
}

/// A parsed command line, over plain values.
pub enum CliView {
    Run { input: Seq<char>, output: Option<Seq<char>>, format: OutputFormat, quiet: bool },
    Help,
    Error(Seq<char>),
}

pub open spec fn cli_view(r: CliResult) -> CliView {
    match r {
        CliResult::Run(c) => CliView::Run {
            input: c.input_path@,
            output: match c.output_file {
                Some(o) => Some(o@),
                None => None,
            },
            format: c.output_format,
            quiet: c.quiet,
        },
        CliResult::Help => CliView::Help,
        CliResult::Error(m) => CliView::Error(m@),
    }
}

/// Options gathered so far.
pub struct ArgState {
    pub input: Option<Seq<char>>,
    pub output: Option<Seq<char>>,
    pub quiet: bool,
    pub format: OutputFormat,
}

pub open spec fn format_named(v: Seq<char>) -> Option<OutputFormat> {
    if v == "full"@ {
        Some(OutputFormat::Full)
    } else if v == "summary"@ {
        Some(OutputFormat::Summary)
    } else if v == "attestation"@ {
        Some(OutputFormat::Attestation)
    } else if v == "assessor"@ {
        Some(OutputFormat::Assessor)
    } else {
        None
    }
}

pub open spec fn program_name(args: Seq<Seq<char>>) -> Seq<char> {
    if args.len() > 0 {
        args[0]
    } else {
        "esp-agent"@
    }
}

pub open spec fn finish_args(args: Seq<Seq<char>>, st: ArgState) -> CliView {
    match st.input {
        Some(p) => CliView::Run { input: p, output: st.output, format: st.format, quiet: st.quiet },
        None => CliView::Error(
            "Missing input path\nUsage: "@ + program_name(args) + " [OPTIONS] <file.esp|directory>"@,
        ),
    }
}

/// The meaning of the arguments from position `i` on, with the options gathered so far.
pub open spec fn parse_from(args: Seq<Seq<char>>, i: int, st: ArgState) -> CliView
    decreases args.len() - i,
{
    if i >= args.len() || i < 1 {
        finish_args(args, st)
    } else {
        let a = args[i];
        if a == "--help"@ || a == "-h"@ {
            CliView::Help
        } else if a == "--quiet"@ || a == "-q"@ {
            parse_from(args, i + 1, ArgState { quiet: true, ..st })
        } else if a == "--output"@ || a == "-o"@ {
            if i + 1 < args.len() {
                parse_from(args, i + 2, ArgState { output: Some(args[i + 1]), ..st })
            } else {
                CliView::Error("--output requires a filename"@)
            }
        } else if a == "--format"@ || a == "-f"@ {
            if i + 1 < args.len() {
                match format_named(args[i + 1]) {
                    Some(f) => parse_from(args, i + 2, ArgState { format: f, ..st }),
                    None => CliView::Error(
                        "Unknown format '"@ + args[i + 1]
                            + "'. Use: full, summary, attestation, assessor"@,
                    ),
                }
            } else {
                CliView::Error("--format requires a value"@)
            }
        } else if !(a.len() > 0 && a[0] == '-') {
            parse_from(args, i + 1, ArgState { input: Some(a), ..st })
        } else {
            CliView::Error("Unknown option: "@ + a)
        }
    }
}

pub open spec fn parse_args_spec(args: Seq<Seq<char>>) -> CliView {
    parse_from(
        args,
        1,
        ArgState { input: None, output: None, quiet: false, format: OutputFormat::Full },
    )
}

pub open spec fn args_view(args: Seq<String>) -> Seq<Seq<char>> {
    args.map_values(|s: String| s@)
}

fn parse_format(v: &str) -> (r: Option<OutputFormat>)
    ensures
        r == format_named(v@),
{
    if str_eq(v, "full") {
        Some(OutputFormat::Full)
    } else if str_eq(v, "summary") {
        Some(OutputFormat::Summary)
    } else if str_eq(v, "attestation") {
        Some(OutputFormat::Attestation)
    } else if str_eq(v, "assessor") {
        Some(OutputFormat::Assessor)
    } else {
        None
    }
}

fn is_option(a: &str) -> (r: bool)
    ensures
        r == (a@.len() > 0 && a@[0] == '-'),
{
    let cs = chars_of(a);
    cs.len() > 0 && cs[0] == '-'
}

/// Parses the command line: options `--help`, `--quiet`, `--output <file>` and
/// `--format <full|summary|attestation|assessor>`, with their one-letter forms, and one
/// input path. The last input path given counts.
pub fn parse_args(args: &Vec<String>) -> (r: CliResult)
    ensures
        cli_view(r) == parse_args_spec(args_view(args@)),
{
    let ghost av = args_view(args@);
    let mut input: Option<String> = None;
    let mut output: Option<String> = None;
    let mut quiet = false;
    let mut format = OutputFormat::Full;
    let mut i: usize = 1;
    while i < args.len()
        invariant
            1 <= i,
            av == args_view(args@),
            parse_args_spec(av) == parse_from(
                av,
                i as int,
                ArgState {
                    input: match input {
                        Some(p) => Some(p@),
                        None => None,
                    },
                    output: match output {
                        Some(o) => Some(o@),
                        None => None,
                    },
                    quiet,
                    format,
                },
            ),
        decreases args.len() - i,
    {
        let a = args[i].as_str();
        assert(av[i as int] == a@);
        if str_eq(a, "--help") || str_eq(a, "-h") {
            return CliResult::Help;
        } else if str_eq(a, "--quiet") || str_eq(a, "-q") {
            quiet = true;
            i = i + 1;
        } else if str_eq(a, "--output") || str_eq(a, "-o") {
            if i + 1 < args.len() {
                assert(av[i + 1] == args@[i + 1]@);
                output = Some(args[i + 1].clone());
                i = i + 2;
            } else {
                return CliResult::Error(String::from_str("--output requires a filename"));
            }
        } else if str_eq(a, "--format") || str_eq(a, "-f") {
            if i + 1 < args.len() {
                assert(av[i + 1] == args@[i + 1]@);
                match parse_format(args[i + 1].as_str()) {
                    Some(f) => {
                        format = f;
                        i = i + 2;
                    },
                    None => {
                        let mut msg = String::from_str("Unknown format '");
                        msg.append(args[i + 1].as_str());
                        msg.append("'. Use: full, summary, attestation, assessor");
                        return CliResult::Error(msg);
                    },
                }
            } else {
                return CliResult::Error(String::from_str("--format requires a value"));
            }
        } else if !is_option(a) {
            input = Some(args[i].clone());
            i = i + 1;
        } else {
            let mut msg = String::from_str("Unknown option: ");
            msg.append(a);
            return CliResult::Error(msg);
        }
    }
    match input {
        Some(p) => CliResult::Run(ScanConfig { input_path: p, output_file: output, output_format: format, quiet }),
        None => {
            let mut msg = String::from_str("Missing input path\nUsage: ");
            if args.len() > 0 {
                assert(av[0] == args@[0]@);
                msg.append(args[0].as_str());
            } else {
                msg.append("esp-agent");
            }
            msg.append(" [OPTIONS] <file.esp|directory>");
            CliResult::Error(msg)
        },
    }
}

} // verus!
