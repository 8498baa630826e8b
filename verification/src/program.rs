//! One whole invocation: parse the arguments, then format the output.
//!
//! The functions here say, for every argument list, what the program writes
//! and on which channel: a greeting line on standard output, the usage text
//! on standard output for a help request, or a diagnostic on standard error
//! for a malformed argument list.

use crate::args::arg_views;
use crate::args::parse_args;
use crate::args::parse_spec;
use crate::args::ArgError;
use crate::args::Parsed;
use crate::args::ParseOutcome;
use crate::greet::greeting_spec;
use crate::greet::json_object_spec;
use crate::greet::render;
use crate::greet::render_spec;
use crate::json::escape_spec;
use crate::json::lemma_unescape_escape;
use crate::json::unescape_spec;
use vstd::prelude::*;

verus! {

/// What one invocation comes to, at the specification level.
pub ghost enum RunOutcome {
    /// The greeting line written to standard output; the process exits 0.
    Line(Seq<char>),
    /// A help request: the usage text is written and the process exits 0,
    /// with no greeting.
    Help,
    /// A malformed argument list: a diagnostic goes to standard error and
    /// the process exits with a non-zero status, with no greeting.
    Rejected(ParseOutcome),
}

/// What an invocation with the given arguments comes to.
pub open spec fn run_spec(args: Seq<Seq<char>>) -> RunOutcome {
    match parse_spec(args) {
        ParseOutcome::Run { user, json } => RunOutcome::Line(render_spec(user, json)),
        ParseOutcome::Help => RunOutcome::Help,
        o => RunOutcome::Rejected(o),
    }
}

/// What one invocation comes to, as exec data.
pub enum RunResult {
    /// The greeting line to write to standard output.
    Line(String),
    /// A help request: write the usage text, exit 0, no greeting.
    Help,
    /// A malformed argument list: write a diagnostic to standard error,
    /// exit non-zero, no greeting.
    Rejected(ArgError),
}

/// Whether an exec run result means what the spec-level outcome says.
pub open spec fn run_result_matches(r: RunResult, o: RunOutcome) -> bool {
    match r {
        RunResult::Line(s) => o == RunOutcome::Line(s@),
        RunResult::Help => o == RunOutcome::Help,
        RunResult::Rejected(e) => o == (match e {
            ArgError::UnknownFlag(t) => RunOutcome::Rejected(ParseOutcome::UnknownFlag(t@)),
            ArgError::MissingValue(t) => RunOutcome::Rejected(ParseOutcome::MissingValue(t@)),
            ArgError::UnexpectedArgument(t) => RunOutcome::Rejected(
                ParseOutcome::UnexpectedArgument(t@),
            ),
        }),
    }
}

/// Runs one invocation on the given arguments, program name excluded:
/// parses them and, on success, formats the output line.
pub fn run(args: &Vec<String>) -> (r: RunResult)
    ensures
        run_result_matches(r, run_spec(arg_views(args@))),
{
    match parse_args(args) {
        Ok(Parsed::Run(config)) => RunResult::Line(render(&config)),
        Ok(Parsed::Help) => RunResult::Help,
        Err(e) => RunResult::Rejected(e),
    }
}

/// The usage text that a help request prints.
pub open spec fn usage_spec() -> Seq<char> {
    "A simple greeting application\n\nUsage: greeting [--user <NAME>] [--json]\n\nOptions:\n  -u, --user <NAME>  Name of the user to greet [default: World]\n      --json         Emit the greeting as a JSON object\n  -h, --help         Print this help and exit\n"@
}

/// The usage text that a help request prints.
pub fn usage() -> (r: String)
    ensures
        r@ == usage_spec(),
{
    "A simple greeting application\n\nUsage: greeting [--user <NAME>] [--json]\n\nOptions:\n  -u, --user <NAME>  Name of the user to greet [default: World]\n      --json         Emit the greeting as a JSON object\n  -h, --help         Print this help and exit\n".to_owned()
}

/// With no arguments at all, the program prints exactly `Hello, World!`.
pub proof fn lemma_no_arguments_greets_world()
    ensures
        run_spec(Seq::empty()) == RunOutcome::Line("Hello, World!"@),
{
    reveal_strlit("World");
    reveal_strlit("Hello, ");
    reveal_strlit("!");
    reveal_strlit("Hello, World!");
    assert(greeting_spec("World"@) =~= "Hello, World!"@);
}

/// For every name, `--user <NAME>` (or `-u <NAME>`) in plain mode prints
/// exactly `Hello, <NAME>!`.
pub proof fn lemma_user_plain_output(name: Seq<char>)
    ensures
        run_spec(seq!["--user"@, name]) == RunOutcome::Line(greeting_spec(name)),
        run_spec(seq!["-u"@, name]) == RunOutcome::Line(greeting_spec(name)),
{
    reveal_strlit("--help");
    reveal_strlit("-h");
    reveal_strlit("--json");
    reveal_strlit("--user");
    reveal_strlit("-u");
    reveal_strlit("--user=");
    let v1 = seq!["--user"@, name];
    let v2 = seq!["-u"@, name];
    assert(crate::args::parse_from(v1, 2, name, false) == (ParseOutcome::Run {
        user: name,
        json: false,
    }));
    assert(crate::args::parse_from(v2, 2, name, false) == (ParseOutcome::Run {
        user: name,
        json: false,
    }));
    assert(v1.len() == 2 && v1[0] == "--user"@ && v1[1] == name);
    assert(v2.len() == 2 && v2[0] == "-u"@ && v2[1] == name);
    assert("--user"@.len() == 6 && "--help"@.len() == 6 && "--json"@.len() == 6);
    assert("-u"@.len() == 2 && "-h"@.len() == 2);
    assert("--user"@[2] == 'u' && "--help"@[2] == 'h' && "--json"@[2] == 'j');
    assert("-u"@[1] == 'u' && "-h"@[1] == 'h');
    assert(v1[0] != "--help"@ && v1[0] != "-h"@ && v1[0] != "--json"@);
    assert(v2[0] != "--help"@ && v2[0] != "-h"@ && v2[0] != "--json"@);
    assert(v2[0] != "--user"@);
    assert(!crate::args::is_user_assignment(v1[0]));
    assert(!crate::args::is_user_assignment(v2[0]));
    assert(crate::args::parse_from(v1, 0, "World"@, false) == crate::args::parse_from(
        v1,
        2,
        name,
        false,
    ));
    assert(crate::args::parse_from(v2, 0, "World"@, false) == crate::args::parse_from(
        v2,
        2,
        name,
        false,
    ));
    assert(parse_spec(v1) == (ParseOutcome::Run { user: name, json: false }));
    assert(parse_spec(v2) == (ParseOutcome::Run { user: name, json: false }));
}

/// For every name, the JSON-mode output is the one-field object whose only
/// key is `message`, and whose escaped value reads back as exactly
/// `Hello, <name>!`.
pub proof fn lemma_json_output_reads_back(name: Seq<char>)
    ensures
        run_spec(seq!["--json"@, "--user"@, name]) == RunOutcome::Line(
            json_object_spec(greeting_spec(name)),
        ),
        json_object_spec(greeting_spec(name)) == "{\"message\": \""@ + escape_spec(
            greeting_spec(name),
        ) + "\"}"@,
        unescape_spec(escape_spec(greeting_spec(name))) == Some(greeting_spec(name)),
{
    reveal_strlit("--help");
    reveal_strlit("-h");
    reveal_strlit("--json");
    reveal_strlit("--user");
    reveal_strlit("-u");
    reveal_strlit("--user=");
    let v = seq!["--json"@, "--user"@, name];
    assert(v.len() == 3 && v[0] == "--json"@ && v[1] == "--user"@ && v[2] == name);
    assert("--user"@.len() == 6 && "--help"@.len() == 6 && "--json"@.len() == 6);
    assert("-u"@.len() == 2 && "-h"@.len() == 2);
    assert("--user"@[2] == 'u' && "--help"@[2] == 'h' && "--json"@[2] == 'j');
    assert(crate::args::parse_from(v, 3, name, true) == (ParseOutcome::Run {
        user: name,
        json: true,
    }));
    assert(crate::args::parse_from(v, 1, "World"@, true) == crate::args::parse_from(
        v,
        3,
        name,
        true,
    ));
    assert(crate::args::parse_from(v, 0, "World"@, false) == crate::args::parse_from(
        v,
        1,
        "World"@,
        true,
    ));
    assert(parse_spec(v) == (ParseOutcome::Run { user: name, json: true }));
    lemma_unescape_escape(greeting_spec(name));
}

/// A lone argument that looks like a flag but is none of the recognized
/// ones is rejected, and no greeting line is produced.
pub proof fn lemma_unknown_flag_rejected(t: Seq<char>)
    requires
        t.len() > 0,
        t[0] == '-',
        t != "--help"@,
        t != "-h"@,
        t != "--json"@,
        t != "--user"@,
        t != "-u"@,
        !crate::args::is_user_assignment(t),
    ensures
        run_spec(seq![t]) == RunOutcome::Rejected(ParseOutcome::UnknownFlag(t)),
{
}

/// `--help` (or `-h`) in front yields a help request and no greeting line,
/// whatever follows it.
pub proof fn lemma_help_wins(rest: Seq<Seq<char>>)
    ensures
        run_spec(seq!["--help"@] + rest) == RunOutcome::Help,
        run_spec(seq!["-h"@] + rest) == RunOutcome::Help,
{
    assert((seq!["--help"@] + rest)[0] == "--help"@);
    assert((seq!["-h"@] + rest)[0] == "-h"@);
}

/// Two invocations with identical arguments produce identical outcomes: the
/// program writes the same bytes on the same channel both times.
pub proof fn lemma_run_deterministic(args1: Seq<Seq<char>>, args2: Seq<Seq<char>>)
    requires
        args1 == args2,
    ensures
        run_spec(args1) == run_spec(args2),
{
}

} // verus!
