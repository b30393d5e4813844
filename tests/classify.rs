use ra_driver::mode::{
    parse_args, BenchWhat, Command, Invocation, UsageError, UsageErrorKind, Verbosity,
};

fn args(list: &[&str]) -> Vec<String> {
    list.iter().map(|s| s.to_string()).collect()
}

fn run(list: &[&str]) -> (Verbosity, Command) {
    match parse_args(&args(list)) {
        Ok(Invocation::Run(a)) => (a.verbosity, a.command),
        Ok(Invocation::Help) => panic!("help"),
        Err(e) => panic!("usage error {:?}", e),
    }
}

fn err(list: &[&str]) -> UsageError {
    match parse_args(&args(list)) {
        Err(e) => e,
        Ok(_) => panic!("accepted"),
    }
}

#[test]
fn no_arguments_run_the_server() {
    let (v, c) = run(&[]);
    assert_eq!(v, Verbosity::Normal);
    assert!(matches!(c, Command::RunServer));
}

#[test]
fn version_flag_selects_version_mode() {
    let (_, c) = run(&["--version"]);
    assert!(matches!(c, Command::Version));
}

#[test]
fn version_with_other_arguments_conflicts() {
    assert_eq!(err(&["--version", "parse"]), UsageError { kind: UsageErrorKind::ConflictingFlags, at: 0 });
}

#[test]
fn help_short_circuits() {
    assert!(matches!(parse_args(&args(&["-h"])), Ok(Invocation::Help)));
    assert!(matches!(parse_args(&args(&["analysis-stats", "--help"])), Ok(Invocation::Help)));
}

#[test]
fn parse_mode_reads_no_dump() {
    let (_, c) = run(&["parse", "--no-dump"]);
    assert!(matches!(c, Command::Parse { no_dump: true }));
    let (_, c) = run(&["parse"]);
    assert!(matches!(c, Command::Parse { no_dump: false }));
}

#[test]
fn symbols_and_proc_macro_modes() {
    assert!(matches!(run(&["symbols"]).1, Command::Symbols));
    assert!(matches!(run(&["proc-macro"]).1, Command::ProcMacro));
    assert!(matches!(run(&["highlight", "--rainbow"]).1, Command::Highlight { rainbow: true }));
}

#[test]
fn stats_mode_reads_flags_and_path() {
    let (v, c) = run(&["-v", "analysis-stats", "--parallel", "-o", "foo", "/tmp/p", "--with-deps"]);
    assert_eq!(v, Verbosity::Verbose);
    match c {
        Command::Stats { randomize, parallel, memory_usage, only, with_deps, path, load_output_dirs, with_proc_macro } => {
            assert!(!randomize);
            assert!(parallel);
            assert!(!memory_usage);
            assert_eq!(only, Some("foo".to_string()));
            assert!(with_deps);
            assert_eq!(path, "/tmp/p");
            assert!(!load_output_dirs);
            assert!(!with_proc_macro);
        }
        _ => panic!("not stats"),
    }
}

#[test]
fn stats_mode_needs_one_path() {
    assert_eq!(err(&["analysis-stats"]), UsageError { kind: UsageErrorKind::WrongOperandCount, at: 0 });
    assert_eq!(err(&["analysis-stats", "a", "b"]), UsageError { kind: UsageErrorKind::WrongOperandCount, at: 0 });
}

#[test]
fn bench_mode_needs_exactly_one_target() {
    match run(&["analysis-bench", "--complete", "lib.rs:1:2", "--project", "/p"]).1 {
        Command::Bench { project, what: BenchWhat::Complete(pos), .. } => {
            assert_eq!(project, Some("/p".to_string()));
            assert_eq!(pos, "lib.rs:1:2");
        }
        _ => panic!("not bench"),
    }
    assert_eq!(err(&["analysis-bench"]), UsageError { kind: UsageErrorKind::BenchTarget, at: 0 });
    assert_eq!(
        err(&["analysis-bench", "--highlight", "a.rs", "--goto-def", "a.rs:1:1"]),
        UsageError { kind: UsageErrorKind::BenchTarget, at: 0 }
    );
}

#[test]
fn diagnostics_mode() {
    match run(&["diagnostics", "/w", "--all"]).1 {
        Command::Diagnostics { path, load_output_dirs, with_proc_macro, all } => {
            assert_eq!(path, "/w");
            assert!(all);
            assert!(!load_output_dirs);
            assert!(!with_proc_macro);
        }
        _ => panic!("not diagnostics"),
    }
}

#[test]
fn ssr_and_search_take_all_operands() {
    match run(&["ssr", "a ==>> b", "c ==>> d"]).1 {
        Command::Ssr { rules } => assert_eq!(rules, vec!["a ==>> b".to_string(), "c ==>> d".to_string()]),
        _ => panic!("not ssr"),
    }
    match run(&["search", "--debug", "x", "p1"]).1 {
        Command::StructuredSearch { patterns, debug_snippet } => {
            assert_eq!(patterns, vec!["p1".to_string()]);
            assert_eq!(debug_snippet, Some("x".to_string()));
        }
        _ => panic!("not search"),
    }
}

#[test]
fn usage_errors_name_the_argument() {
    assert_eq!(err(&["parse", "--bogus"]), UsageError { kind: UsageErrorKind::UnknownFlag, at: 1 });
    assert_eq!(err(&["search", "--debug"]), UsageError { kind: UsageErrorKind::MissingValue, at: 1 });
    assert_eq!(err(&["frobnicate"]), UsageError { kind: UsageErrorKind::UnknownCommand, at: 0 });
    assert_eq!(err(&["parse", "--rainbow"]), UsageError { kind: UsageErrorKind::UnexpectedFlag, at: 1 });
    assert_eq!(err(&["--all"]), UsageError { kind: UsageErrorKind::UnexpectedFlag, at: 0 });
    assert_eq!(err(&["-q", "-v"]), UsageError { kind: UsageErrorKind::ConflictingFlags, at: 0 });
    assert_eq!(err(&["-vv", "--quiet", "symbols"]), UsageError { kind: UsageErrorKind::ConflictingFlags, at: 1 });
}

#[test]
fn verbosity_levels() {
    assert_eq!(run(&["--spammy"]).0, Verbosity::Spammy);
    assert_eq!(run(&["-q", "symbols"]).0, Verbosity::Quiet);
}

#[test]
fn every_argument_list_gets_one_outcome() {
    let cases: Vec<Vec<&str>> = vec![
        vec![], vec!["--version"], vec!["-h"], vec!["parse"], vec!["symbols", "x"], vec!["-x"],
        vec!["ssr"], vec!["search", "a", "b"], vec!["diagnostics"], vec!["proc-macro", "-v"],
    ];
    for c in cases {
        let first = parse_args(&args(&c));
        let second = parse_args(&args(&c));
        match (first, second) {
            (Ok(Invocation::Help), Ok(Invocation::Help)) => {}
            (Ok(Invocation::Run(a)), Ok(Invocation::Run(b))) => {
                assert_eq!(std::mem::discriminant(&a.command), std::mem::discriminant(&b.command));
            }
            (Err(x), Err(y)) => assert_eq!(x, y),
            _ => panic!("classification differs for {:?}", c),
        }
    }
}
