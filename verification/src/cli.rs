//! The command line of the report tool: `h5i-audit-report [OPTIONS] [INPUT]`.

use crate::text::text_is;
use vstd::prelude::*;
use vstd::string::*;

verus! {

/// What the command line asks for.
#[derive(Debug, PartialEq, Eq)]
pub enum Command {
    Help,
    Version,
    Run(Options),
}

/// Where the audit comes from and where the report goes.
#[derive(Debug, PartialEq, Eq)]
pub struct Options {
    /// `None` means read stdin.
    pub input: Option<String>,
    /// `None` means write stdout.
    pub output: Option<String>,
}

pub enum CommandModel {
    Help,
    Version,
    Run { input: Option<Seq<char>>, output: Option<Seq<char>> },
}

impl View for Command {
    type V = CommandModel;

    open spec fn view(&self) -> CommandModel {
        match self {
            Command::Help => CommandModel::Help,
            Command::Version => CommandModel::Version,
            Command::Run(o) => CommandModel::Run {
                input: crate::model::opt_view(o.input),
                output: crate::model::opt_view(o.output),
            },
        }
    }
}

pub const HELP: &'static str = "h5i-audit-report — turn an h5i browser audit JSON into a portable HTML report

Usage:
  h5i-audit-report [OPTIONS] [INPUT]

Arguments:
  [INPUT]  Path to a session audit JSON file (default: read stdin)

Options:
  --out <PATH>  Write the HTML report to PATH (default: write stdout)
  -h, --help    Show this help
  -V, --version Show version

Examples:
  h5i-audit-report audit.json --out report.html
  h5i-audit-report audit.json
  h5i browser audit --json | h5i-audit-report > report.html
  h5i browser audit --json | h5i-audit-report --out report.html
";

pub const MISSING_OUT: &'static str = "missing value for `--out` (expected a file path)";

pub const EMPTY_OUT: &'static str = "`--out` path must not be empty";

pub const REPEATED_OUT: &'static str = "`--out` specified more than once";

pub const OUT_EQUALS: &'static str = "--out=";

/// The message for an option the tool does not know.
pub open spec fn unknown_option_msg(arg: Seq<char>) -> Seq<char> {
    "unknown option `"@ + arg + "`\n\n"@ + HELP@
}

/// The message for a second input path.
pub open spec fn extra_argument_msg(arg: Seq<char>) -> Seq<char> {
    "unexpected extra argument `"@ + arg + "` (only one input path is allowed)"@
}

/// The output path, unless one was given already or it is empty.
pub open spec fn set_output(output: Option<Seq<char>>, path: Seq<char>) -> Result<Seq<char>, Seq<char>> {
    if path.len() == 0 {
        Err(EMPTY_OUT@)
    } else if output is Some {
        Err(REPEATED_OUT@)
    } else {
        Ok(path)
    }
}

/// What the arguments from index `i` on ask for, given the input and output seen so far.
/// Arguments are read left to right; help and version win over anything after them, and
/// the first problem is the error.
pub open spec fn command_from(
    args: Seq<Seq<char>>,
    i: int,
    input: Option<Seq<char>>,
    output: Option<Seq<char>>,
) -> Result<CommandModel, Seq<char>>
    decreases args.len() - i,
{
    if i < 0 || i >= args.len() {
        Ok(CommandModel::Run { input, output })
    } else {
        let a = args[i];
        if a == "-h"@ || a == "--help"@ {
            Ok(CommandModel::Help)
        } else if a == "-V"@ || a == "--version"@ {
            Ok(CommandModel::Version)
        } else if a == "--out"@ {
            if i + 1 >= args.len() {
                Err(MISSING_OUT@)
            } else {
                match set_output(output, args[i + 1]) {
                    Err(e) => Err(e),
                    Ok(path) => command_from(args, i + 2, input, Some(path)),
                }
            }
        } else if OUT_EQUALS@.is_prefix_of(a) {
            match set_output(output, a.skip(OUT_EQUALS@.len() as int)) {
                Err(e) => Err(e),
                Ok(path) => command_from(args, i + 1, input, Some(path)),
            }
        } else if a.len() > 0 && a[0] == '-' {
            Err(unknown_option_msg(a))
        } else if input is Some {
            Err(extra_argument_msg(a))
        } else {
            command_from(args, i + 1, Some(a), output)
        }
    }
}

/// What a command line (without the program name) asks for.
pub open spec fn command_of(args: Seq<Seq<char>>) -> Result<CommandModel, Seq<char>> {
    command_from(args, 0, None, None)
}

/// The texts of the arguments.
pub open spec fn args_view(args: Seq<String>) -> Seq<Seq<char>> {
    args.map_values(|a: String| a@)
}

/// Whether `p` is a prefix of `s`.
fn has_prefix(s: &str, p: &str) -> (r: bool)
    ensures
        r == p@.is_prefix_of(s@),
{
    let n = s.unicode_len();
    let k = p.unicode_len();
    if k > n {
        return false;
    }
    let mut i: usize = 0;
    while i < k
        invariant
            i <= k <= n,
            n == s@.len(),
            k == p@.len(),
            forall|t: int| 0 <= t < i ==> s@[t] == p@[t],
        decreases k - i,
    {
        if s.get_char(i) != p.get_char(i) {
            return false;
        }
        i = i + 1;
    }
    assert(p@ =~= s@.take(k as int));
    true
}

/// Whether `s` starts with `-`.
fn is_dash_led(s: &str) -> (r: bool)
    ensures
        r == (s@.len() > 0 && s@[0] == '-'),
{
    s.unicode_len() > 0 && s.get_char(0) == '-'
}

/// Parses the command line (without the program name).
pub fn parse_args(args: &[String]) -> (r: Result<Command, String>)
    ensures
        match r {
            Ok(c) => command_of(args_view(args@)) == Ok::<CommandModel, Seq<char>>(c@),
            Err(e) => command_of(args_view(args@)) == Err::<CommandModel, Seq<char>>(e@),
        },
{
    let ghost av = args_view(args@);
    let mut input: Option<String> = None;
    let mut output: Option<String> = None;
    let mut i: usize = 0;
    while i < args.len()
        invariant
            i <= args.len(),
            av == args_view(args@),
            av.len() == args.len(),
            forall|t: int| 0 <= t < args.len() ==> #[trigger] av[t] == args@[t]@,
            command_from(av, i as int, crate::model::opt_view(input), crate::model::opt_view(output))
                == command_of(av),
        decreases args.len() - i,
    {
        let arg = &args[i];
        if text_is(arg, "-h") || text_is(arg, "--help") {
            return Ok(Command::Help);
        } else if text_is(arg, "-V") || text_is(arg, "--version") {
            return Ok(Command::Version);
        } else if text_is(arg, "--out") {
            if i + 1 >= args.len() {
                return Err(String::from_str(MISSING_OUT));
            }
            let path = &args[i + 1];
            if path.as_str().is_empty() {
                return Err(String::from_str(EMPTY_OUT));
            }
            if output.is_some() {
                return Err(String::from_str(REPEATED_OUT));
            }
            output = Some(path.clone());
            i = i + 2;
        } else if has_prefix(arg.as_str(), OUT_EQUALS) {
            let n = arg.as_str().unicode_len();
            proof {
                reveal_strlit("--out=");
            }
            let path = arg.as_str().substring_char(6, n);
            assert(path@ =~= av[i as int].skip(OUT_EQUALS@.len() as int));
            if path.is_empty() {
                return Err(String::from_str(EMPTY_OUT));
            }
            if output.is_some() {
                return Err(String::from_str(REPEATED_OUT));
            }
            output = Some(String::from_str(path));
            i = i + 1;
        } else if is_dash_led(arg.as_str()) {
            let mut message = String::from_str("unknown option `");
            message.append(arg.as_str());
            message.append("`\n\n");
            message.append(HELP);
            return Err(message);
        } else {
            if input.is_some() {
                let mut message = String::from_str("unexpected extra argument `");
                message.append(arg.as_str());
                message.append("` (only one input path is allowed)");
                return Err(message);
            }
            input = Some(arg.clone());
            i = i + 1;
        }
    }
    Ok(Command::Run(Options { input, output }))
}

// ---------------------------------------------------------------------------
// Laws
// ---------------------------------------------------------------------------
/// What the rest of a command line asks for depends only on the arguments left.
pub proof fn lemma_rest_decides(
    s: Seq<Seq<char>>,
    i: int,
    t: Seq<Seq<char>>,
    j: int,
    input: Option<Seq<char>>,
    output: Option<Seq<char>>,
)
    requires
        0 <= i <= s.len(),
        0 <= j <= t.len(),
        s.skip(i) == t.skip(j),
    ensures
        command_from(s, i, input, output) == command_from(t, j, input, output),
    decreases s.len() - i,
{
    assert(s.skip(i).len() == s.len() - i);
    assert(t.skip(j).len() == t.len() - j);
    assert(t.len() - j == s.len() - i);
    if i < s.len() {
        assert(s[i] == s.skip(i)[0]);
        assert(t[j] == t.skip(j)[0]);
        assert(s.skip(i + 1) =~= s.skip(i).skip(1));
        assert(t.skip(j + 1) =~= t.skip(j).skip(1));
        if i + 1 < s.len() {
            assert(s[i + 1] == s.skip(i)[1]);
            assert(t[j + 1] == t.skip(j)[1]);
            assert(s.skip(i + 2) =~= s.skip(i).skip(2));
            assert(t.skip(j + 2) =~= t.skip(j).skip(2));
            lemma_rest_decides(s, i + 2, t, j + 2, input, Some(s[i + 1]));
            lemma_rest_decides(
                s,
                i + 2,
                t,
                j + 2,
                input,
                Some(s[i].skip(OUT_EQUALS@.len() as int)),
            );
        }
        lemma_rest_decides(s, i + 1, t, j + 1, Some(s[i]), output);
        lemma_rest_decides(s, i + 1, t, j + 1, input, Some(s[i].skip(OUT_EQUALS@.len() as int)));
    }
}

/// Asking for help first is answered with help, whatever follows.
pub proof fn law_help_first_wins(rest: Seq<Seq<char>>)
    ensures
        command_of(seq!["--help"@] + rest) == Ok::<CommandModel, Seq<char>>(CommandModel::Help),
        command_of(seq!["-h"@] + rest) == Ok::<CommandModel, Seq<char>>(CommandModel::Help),
{
    assert((seq!["--help"@] + rest)[0] == "--help"@);
    assert((seq!["-h"@] + rest)[0] == "-h"@);
}

/// `--out=PATH` means what `--out PATH` means, whatever comes before and after.
pub proof fn law_out_forms_agree(
    p: Seq<char>,
    rest: Seq<Seq<char>>,
    input: Option<Seq<char>>,
    output: Option<Seq<char>>,
)
    ensures
        command_from(seq![OUT_EQUALS@ + p] + rest, 0, input, output) == command_from(
            seq!["--out"@, p] + rest,
            0,
            input,
            output,
        ),
{
    reveal_strlit("--out=");
    reveal_strlit("--out");
    reveal_strlit("-h");
    reveal_strlit("--help");
    reveal_strlit("-V");
    reveal_strlit("--version");
    let s = seq![OUT_EQUALS@ + p] + rest;
    let t = seq!["--out"@, p] + rest;
    let a = s[0];
    assert(a == OUT_EQUALS@ + p);
    assert(a.len() >= 6);
    assert(a[2] == 'o');
    assert(a != "-h"@ && a != "--help"@ && a != "-V"@ && a != "--version"@);
    assert(a != "--out"@);
    assert(OUT_EQUALS@.is_prefix_of(a));
    assert(a.skip(6) =~= p);
    assert(t[0] == "--out"@);
    assert(t[1] == p);
    assert(s.skip(1) =~= rest);
    assert(t.skip(2) =~= rest);
    if p.len() > 0 && output is None {
        lemma_rest_decides(s, 1, t, 2, input, Some(p));
    }
}

/// An input path and `--out PATH` may come in either order.
pub proof fn law_out_and_input_commute(p: Seq<char>, x: Seq<char>, rest: Seq<Seq<char>>)
    requires
        !(x.len() > 0 && x[0] == '-'),
    ensures
        command_of(seq!["--out"@, p, x] + rest) == command_of(seq![x, "--out"@, p] + rest),
{
    reveal_strlit("--out=");
    reveal_strlit("--out");
    reveal_strlit("-h");
    reveal_strlit("--help");
    reveal_strlit("-V");
    reveal_strlit("--version");
    let s = seq!["--out"@, p, x] + rest;
    let t = seq![x, "--out"@, p] + rest;
    assert(s[0] == "--out"@ && s[1] == p && s[2] == x);
    assert(t[0] == x && t[1] == "--out"@ && t[2] == p);
    assert(x != "-h"@ && x != "--help"@ && x != "-V"@ && x != "--version"@ && x != "--out"@);
    assert(!OUT_EQUALS@.is_prefix_of(x)) by {
        if OUT_EQUALS@.is_prefix_of(x) {
            assert(x[0] == OUT_EQUALS@[0]);
        }
    }
    assert(s.skip(3) =~= rest);
    assert(t.skip(3) =~= rest);
    if p.len() > 0 {
        assert(command_from(s, 0, None, None) == command_from(s, 2, None, Some(p)));
        assert(command_from(s, 2, None, Some(p)) == command_from(s, 3, Some(x), Some(p)));
        assert(command_from(t, 0, None, None) == command_from(t, 1, Some(x), None));
        assert(command_from(t, 1, Some(x), None) == command_from(t, 3, Some(x), Some(p)));
        lemma_rest_decides(s, 3, t, 3, Some(x), Some(p));
    } else {
        assert(command_from(t, 0, None, None) == command_from(t, 1, Some(x), None));
    }
}

} // verus!
