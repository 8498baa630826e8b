//! The argument parser: turns the invocation arguments (program name
//! excluded) into a configuration, a help request, or an error.
//!
//! Recognized, scanning left to right:
//! - `--user <NAME>`, `-u <NAME>` or `--user=<NAME>`: the name to greet
//!   (default `World`; on repetition the last occurrence wins);
//! - `--json`: emit JSON instead of plain text;
//! - `--help` or `-h`: print usage and exit successfully, with no greeting.
//!
//! Any other argument is malformed: an unrecognized flag, a missing value
//! after `--user`/`-u`, or an unexpected positional argument.

use vstd::prelude::*;

verus! {

/// The parsed configuration of one invocation.
pub struct Config {
    /// The name to greet.
    pub user: String,
    /// Whether to emit JSON instead of plain text.
    pub json: bool,
}

/// A successful parse: either a configuration to run with, or a help request.
pub enum Parsed {
    Run(Config),
    Help,
}

/// A malformed argument list. Each variant carries the offending argument.
#[derive(Debug)]
pub enum ArgError {
    /// An argument that starts with `-` but is not a recognized flag.
    UnknownFlag(String),
    /// `--user` or `-u` stood last, with no value after it.
    MissingValue(String),
    /// A positional argument, which this program does not take.
    UnexpectedArgument(String),
}

/// What parsing an argument list yields, at the specification level.
pub ghost enum ParseOutcome {
    Run { user: Seq<char>, json: bool },
    Help,
    UnknownFlag(Seq<char>),
    MissingValue(Seq<char>),
    UnexpectedArgument(Seq<char>),
}

/// The views of a list of argument strings.
pub open spec fn arg_views(args: Seq<String>) -> Seq<Seq<char>> {
    args.map_values(|s: String| s@)
}

/// Whether an argument is of the `--user=<NAME>` form.
pub open spec fn is_user_assignment(a: Seq<char>) -> bool {
    a.len() >= 7 && a.subrange(0, 7) == "--user="@
}

/// The value of a `--user=<NAME>` argument.
pub open spec fn user_assignment_value(a: Seq<char>) -> Seq<char> {
    a.subrange(7, a.len() as int)
}

/// Parsing from position `i` on, with the name and flag gathered so far.
pub open spec fn parse_from(args: Seq<Seq<char>>, i: int, user: Seq<char>, json: bool) -> ParseOutcome
    decreases args.len() - i,
{
    if i < 0 || i >= args.len() {
        ParseOutcome::Run { user, json }
    } else {
        let a = args[i];
        if a == "--help"@ || a == "-h"@ {
            ParseOutcome::Help
        } else if a == "--json"@ {
            parse_from(args, i + 1, user, true)
        } else if a == "--user"@ || a == "-u"@ {
            if i + 1 < args.len() {
                parse_from(args, i + 2, args[i + 1], json)
            } else {
                ParseOutcome::MissingValue(a)
            }
        } else if is_user_assignment(a) {
            parse_from(args, i + 1, user_assignment_value(a), json)
        } else if a.len() > 0 && a[0] == '-' {
            ParseOutcome::UnknownFlag(a)
        } else {
            ParseOutcome::UnexpectedArgument(a)
        }
    }
}

/// What parsing an argument list yields: scan left to right from the
/// defaults, name `World` and plain text.
pub open spec fn parse_spec(args: Seq<Seq<char>>) -> ParseOutcome {
    parse_from(args, 0, "World"@, false)
}

/// Whether an exec parse result means what the spec-level outcome says.
pub open spec fn parse_result_matches(r: Result<Parsed, ArgError>, o: ParseOutcome) -> bool {
    match r {
        Ok(Parsed::Run(c)) => o == (ParseOutcome::Run { user: c.user@, json: c.json }),
        Ok(Parsed::Help) => o == ParseOutcome::Help,
        Err(ArgError::UnknownFlag(t)) => o == ParseOutcome::UnknownFlag(t@),
        Err(ArgError::MissingValue(t)) => o == ParseOutcome::MissingValue(t@),
        Err(ArgError::UnexpectedArgument(t)) => o == ParseOutcome::UnexpectedArgument(t@),
    }
}

/// Whether the two string slices hold the same characters.
fn str_eq(a: &str, b: &str) -> (r: bool)
    ensures
        r == (a@ == b@),
{
    let sa = a.to_owned();
    let sb = b.to_owned();
    sa.eq(&sb)
}

/// Whether the argument is of the `--user=<NAME>` form.
fn is_user_assignment_exec(a: &str) -> (r: bool)
    ensures
        r == is_user_assignment(a@),
{
    let n = a.unicode_len();
    if n >= 7 {
        str_eq(a.substring_char(0, 7), "--user=")
    } else {
        false
    }
}

/// Whether the argument starts with `-`.
fn starts_with_dash(a: &str) -> (r: bool)
    ensures
        r == (a@.len() > 0 && a@[0] == '-'),
{
    if a.unicode_len() > 0 {
        a.get_char(0) == '-'
    } else {
        false
    }
}

/// Parses the invocation arguments, program name excluded.
///
/// Returns the configuration (or the help request) exactly when the
/// argument list conforms to the grammar above, and otherwise the error
/// that the leftmost offending argument calls for.
pub fn parse_args(args: &Vec<String>) -> (r: Result<Parsed, ArgError>)
    ensures
        parse_result_matches(r, parse_spec(arg_views(args@))),
{
    let ghost v = arg_views(args@);
    let mut user: String = "World".to_owned();
    let mut json: bool = false;
    let mut i: usize = 0;
    let n = args.len();
    while i < n
        invariant
            n == args@.len(),
            v == arg_views(args@),
            i <= n,
            parse_spec(v) == parse_from(v, i as int, user@, json),
        decreases n - i,
    {
        let a = &args[i];
        proof {
            assert(v[i as int] == a@);
        }
        if str_eq(a.as_str(), "--help") || str_eq(a.as_str(), "-h") {
            return Ok(Parsed::Help);
        } else if str_eq(a.as_str(), "--json") {
            json = true;
            i = i + 1;
        } else if str_eq(a.as_str(), "--user") || str_eq(a.as_str(), "-u") {
            if i + 1 < n {
                proof {
                    assert(v[i + 1] == args@[i + 1]@);
                }
                user = args[i + 1].clone();
                i = i + 2;
            } else {
                return Err(ArgError::MissingValue(a.clone()));
            }
        } else if is_user_assignment_exec(a.as_str()) {
            let len = a.as_str().unicode_len();
            let value = a.as_str().substring_char(7, len);
            user = value.to_owned();
            i = i + 1;
        } else if starts_with_dash(a.as_str()) {
            return Err(ArgError::UnknownFlag(a.clone()));
        } else {
            return Err(ArgError::UnexpectedArgument(a.clone()));
        }
    }
    Ok(Parsed::Run(Config { user, json }))
}

impl ArgError {
    /// A diagnostic line describing the error.
    pub fn message(&self) -> (r: String)
        ensures
            r@ == (match *self {
                ArgError::UnknownFlag(t) => "error: unexpected flag '"@ + t@ + "'"@,
                ArgError::MissingValue(t) => "error: a value is required for '"@ + t@ + "'"@,
                ArgError::UnexpectedArgument(t) => "error: unexpected argument '"@ + t@ + "'"@,
            }),
    {
        let mut out: String;
        match self {
            ArgError::UnknownFlag(t) => {
                out = "error: unexpected flag '".to_owned();
                out.append(t.as_str());
                out.append("'");
            },
            ArgError::MissingValue(t) => {
                out = "error: a value is required for '".to_owned();
                out.append(t.as_str());
                out.append("'");
            },
            ArgError::UnexpectedArgument(t) => {
                out = "error: unexpected argument '".to_owned();
                out.append(t.as_str());
                out.append("'");
            },
        }
        out
    }
}

} // verus!
