use h5i_audit_report::cli::{parse_args, Command, Options};

fn args(parts: &[&str]) -> Vec<String> {
    parts.iter().map(|s| (*s).to_string()).collect()
}

fn path(p: &str) -> Option<String> {
    Some(p.to_string())
}

#[test]
fn file_in_file_out() {
    assert_eq!(
        parse_args(&args(&["audit.json", "--out", "report.html"])).unwrap(),
        Command::Run(Options {
            input: path("audit.json"),
            output: path("report.html"),
        })
    );
}

#[test]
fn file_in_stdout() {
    assert_eq!(
        parse_args(&args(&["audit.json"])).unwrap(),
        Command::Run(Options {
            input: path("audit.json"),
            output: None,
        })
    );
}

#[test]
fn stdin_stdout() {
    assert_eq!(
        parse_args(&args(&[])).unwrap(),
        Command::Run(Options {
            input: None,
            output: None,
        })
    );
}

#[test]
fn stdin_with_out() {
    assert_eq!(
        parse_args(&args(&["--out", "report.html"])).unwrap(),
        Command::Run(Options {
            input: None,
            output: path("report.html"),
        })
    );
}

#[test]
fn out_before_input() {
    assert_eq!(
        parse_args(&args(&["--out", "report.html", "audit.json"])).unwrap(),
        Command::Run(Options {
            input: path("audit.json"),
            output: path("report.html"),
        })
    );
}

#[test]
fn out_equals_form() {
    assert_eq!(
        parse_args(&args(&["audit.json", "--out=report.html"])).unwrap(),
        Command::Run(Options {
            input: path("audit.json"),
            output: path("report.html"),
        })
    );
}

#[test]
fn help_and_version() {
    assert_eq!(parse_args(&args(&["--help"])).unwrap(), Command::Help);
    assert_eq!(parse_args(&args(&["-h"])).unwrap(), Command::Help);
    assert_eq!(parse_args(&args(&["--version"])).unwrap(), Command::Version);
    assert_eq!(parse_args(&args(&["-V"])).unwrap(), Command::Version);
}

#[test]
fn rejects_extra_positional() {
    let err = parse_args(&args(&["a.json", "b.json"])).unwrap_err();
    assert!(err.contains("unexpected extra argument"), "{err}");
}

#[test]
fn rejects_missing_out_value() {
    let err = parse_args(&args(&["--out"])).unwrap_err();
    assert!(err.contains("missing value for `--out`"), "{err}");
}

#[test]
fn rejects_empty_out_value() {
    let err = parse_args(&args(&["--out="])).unwrap_err();
    assert!(err.contains("must not be empty"), "{err}");
}

#[test]
fn rejects_unknown_option() {
    let err = parse_args(&args(&["--wat"])).unwrap_err();
    assert!(err.contains("unknown option"), "{err}");
}

#[test]
fn rejects_repeated_out() {
    let err = parse_args(&args(&["--out", "a.html", "--out=b.html"])).unwrap_err();
    assert_eq!(err, "`--out` specified more than once");
}

#[test]
fn rejects_empty_out_after_space() {
    let err = parse_args(&args(&["--out", ""])).unwrap_err();
    assert_eq!(err, "`--out` path must not be empty");
}

#[test]
fn unknown_option_message_carries_help() {
    let err = parse_args(&args(&["-x"])).unwrap_err();
    assert!(err.starts_with("unknown option `-x`\n\nh5i-audit-report"), "{err}");
    assert!(err.contains("Usage:"), "{err}");
}

#[test]
fn help_wins_over_later_problems() {
    assert_eq!(parse_args(&args(&["--help", "--wat"])).unwrap(), Command::Help);
    assert_eq!(parse_args(&args(&["a.json", "-V", "b.json"])).unwrap(), Command::Version);
}

#[test]
fn out_value_may_look_like_an_option() {
    assert_eq!(
        parse_args(&args(&["--out", "-h"])).unwrap(),
        Command::Run(Options {
            input: None,
            output: path("-h"),
        })
    );
}

#[test]
fn out_equals_keeps_non_ascii_path() {
    assert_eq!(
        parse_args(&args(&["--out=rapport-été.html"])).unwrap(),
        Command::Run(Options {
            input: None,
            output: path("rapport-été.html"),
        })
    );
}

#[test]
fn out_equals_and_spaced_forms_agree() {
    for tail in [vec![], vec!["a.json"], vec!["--out", "x"], vec!["-V"], vec!["--wat"]] {
        for path in ["r.html", "", "-h"] {
            let mut spaced = vec!["--out", path];
            spaced.extend(tail.iter());
            let joined_arg = format!("--out={path}");
            let mut joined = vec![joined_arg.as_str()];
            joined.extend(tail.iter());
            assert_eq!(parse_args(&args(&joined)), parse_args(&args(&spaced)), "{joined:?}");
        }
    }
}
