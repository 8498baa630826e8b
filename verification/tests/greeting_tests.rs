use greeting::args::parse_args;
use greeting::args::ArgError;
use greeting::args::Parsed;
use greeting::greet::greeting;
use greeting::greet::Output;
use greeting::json::json_escape;
use greeting::program::run;
use greeting::program::usage;
use greeting::program::RunResult;

fn args_of(xs: &[&str]) -> Vec<String> {
    xs.iter().map(|s| s.to_string()).collect()
}

fn line_of(xs: &[&str]) -> String {
    match run(&args_of(xs)) {
        RunResult::Line(s) => s,
        RunResult::Help => panic!("expected a greeting line, got a help request"),
        RunResult::Rejected(e) => panic!("expected a greeting line, got {:?}", e),
    }
}

#[test]
fn no_flags_greets_world() {
    assert_eq!(line_of(&[]), "Hello, World!");
}

#[test]
fn user_flag_plain() {
    assert_eq!(line_of(&["--user", "Alice"]), "Hello, Alice!");
}

#[test]
fn short_user_flag_plain() {
    assert_eq!(line_of(&["-u", "Alice"]), "Hello, Alice!");
}

#[test]
fn user_assignment_form() {
    assert_eq!(line_of(&["--user=Eve"]), "Hello, Eve!");
}

#[test]
fn empty_user_assignment() {
    assert_eq!(line_of(&["--user="]), "Hello, !");
}

#[test]
fn last_user_wins() {
    assert_eq!(line_of(&["--user", "A", "--user", "B"]), "Hello, B!");
}

#[test]
fn json_mode_object() {
    assert_eq!(
        line_of(&["--user", "Bob", "--json"]),
        "{\"message\": \"Hello, Bob!\"}"
    );
}

#[test]
fn json_mode_default_user() {
    assert_eq!(line_of(&["--json"]), "{\"message\": \"Hello, World!\"}");
}

#[test]
fn json_mode_deserializes() {
    let name = "A\"B\\C\nD\u{1}";
    let line = line_of(&["--json", "--user", name]);
    let value: serde_json::Value = serde_json::from_str(&line).unwrap();
    let object = value.as_object().unwrap();
    assert_eq!(object.len(), 1);
    assert_eq!(
        object.get("message").unwrap().as_str().unwrap(),
        format!("Hello, {}!", name)
    );
}

#[test]
fn unknown_flag_rejected() {
    match run(&args_of(&["--bogus"])) {
        RunResult::Rejected(ArgError::UnknownFlag(t)) => {
            assert_eq!(t, "--bogus");
            assert_eq!(
                ArgError::UnknownFlag(t).message(),
                "error: unexpected flag '--bogus'"
            );
        }
        other => panic!("expected an unknown-flag error, got {:?}", discriminant_name(&other)),
    }
}

#[test]
fn short_unknown_flag_rejected() {
    match run(&args_of(&["-x"])) {
        RunResult::Rejected(ArgError::UnknownFlag(t)) => assert_eq!(t, "-x"),
        other => panic!("expected an unknown-flag error, got {:?}", discriminant_name(&other)),
    }
}

#[test]
fn missing_value_rejected() {
    match run(&args_of(&["--user"])) {
        RunResult::Rejected(ArgError::MissingValue(t)) => {
            assert_eq!(t, "--user");
            assert_eq!(
                ArgError::MissingValue(t).message(),
                "error: a value is required for '--user'"
            );
        }
        other => panic!("expected a missing-value error, got {:?}", discriminant_name(&other)),
    }
}

#[test]
fn short_missing_value_rejected() {
    match run(&args_of(&["--json", "-u"])) {
        RunResult::Rejected(ArgError::MissingValue(t)) => assert_eq!(t, "-u"),
        other => panic!("expected a missing-value error, got {:?}", discriminant_name(&other)),
    }
}

#[test]
fn positional_argument_rejected() {
    match run(&args_of(&["stray"])) {
        RunResult::Rejected(ArgError::UnexpectedArgument(t)) => {
            assert_eq!(t, "stray");
            assert_eq!(
                ArgError::UnexpectedArgument(t).message(),
                "error: unexpected argument 'stray'"
            );
        }
        other => panic!("expected an unexpected-argument error, got {:?}", discriminant_name(&other)),
    }
}

#[test]
fn leftmost_error_wins() {
    match run(&args_of(&["--bogus", "--user"])) {
        RunResult::Rejected(ArgError::UnknownFlag(t)) => assert_eq!(t, "--bogus"),
        other => panic!("expected an unknown-flag error, got {:?}", discriminant_name(&other)),
    }
}

#[test]
fn help_requested() {
    assert!(matches!(run(&args_of(&["--help"])), RunResult::Help));
    assert!(matches!(run(&args_of(&["-h"])), RunResult::Help));
}

#[test]
fn help_wins_over_later_arguments() {
    assert!(matches!(
        run(&args_of(&["--help", "--bogus"])),
        RunResult::Help
    ));
}

#[test]
fn usage_text_names_the_flags() {
    let text = usage();
    assert!(text.contains("--user"));
    assert!(text.contains("--json"));
    assert!(text.contains("--help"));
    assert!(!text.contains("Hello,"));
}

#[test]
fn identical_invocations_identical_output() {
    let a = args_of(&["--user", "Zoe", "--json"]);
    let first = match run(&a) {
        RunResult::Line(s) => s,
        _ => panic!("expected a greeting line"),
    };
    let second = match run(&a) {
        RunResult::Line(s) => s,
        _ => panic!("expected a greeting line"),
    };
    assert_eq!(first.as_bytes(), second.as_bytes());
}

#[test]
fn greeting_exact() {
    assert_eq!(greeting("World"), "Hello, World!");
    assert_eq!(greeting(""), "Hello, !");
}

#[test]
fn output_to_plain_text() {
    let output = Output {
        message: "Hi".to_string(),
    };
    assert_eq!(output.to_plain_text(), "Hi");
}

#[test]
fn output_to_json() {
    let output = Output {
        message: "Hi".to_string(),
    };
    assert_eq!(output.to_json(), "{\"message\": \"Hi\"}");
}

#[test]
fn json_escape_exact() {
    assert_eq!(json_escape("plain"), "plain");
    assert_eq!(json_escape("a\"b"), "a\\\"b");
    assert_eq!(json_escape("a\\b"), "a\\\\b");
    assert_eq!(json_escape("a\nb\rc\td"), "a\\nb\\rc\\td");
    assert_eq!(json_escape("\u{1}\u{1f}"), "\\u0001\\u001f");
    assert_eq!(json_escape(""), "");
}

#[test]
fn parse_args_builds_config() {
    match parse_args(&args_of(&["--user", "Ana", "--json"])) {
        Ok(Parsed::Run(config)) => {
            assert_eq!(config.user, "Ana");
            assert!(config.json);
        }
        _ => panic!("expected a configuration"),
    }
}

#[test]
fn parse_args_defaults() {
    match parse_args(&args_of(&[])) {
        Ok(Parsed::Run(config)) => {
            assert_eq!(config.user, "World");
            assert!(!config.json);
        }
        _ => panic!("expected a configuration"),
    }
}

fn discriminant_name(r: &RunResult) -> &'static str {
    match r {
        RunResult::Line(_) => "a greeting line",
        RunResult::Help => "a help request",
        RunResult::Rejected(_) => "a rejection",
    }
}
