use raw_develop::profile::{is_profiled, parse_args, usage, Invocation};
use raw_develop::text::{parse_usize, same_text};

fn args(rest: &[&str]) -> Vec<String> {
    let mut all = vec!["prog".to_string()];
    all.extend(rest.iter().map(|s| s.to_string()));
    all
}

fn parse(rest: &[&str]) -> Invocation {
    parse_args(&args(rest))
}

#[test]
fn runs() {
    assert_eq!(parse_args(&vec![]), Invocation::Run { threads: None });
    assert_eq!(parse(&[]), Invocation::Run { threads: None });
    assert_eq!(parse(&["--threads", "4"]), Invocation::Run { threads: Some(4) });
    assert_eq!(parse(&["--threads", "+4"]), Invocation::Run { threads: Some(4) });
    // The last count wins.
    let twice = parse(&["--threads", "4", "--threads", "7"]);
    assert_eq!(twice, Invocation::Run { threads: Some(7) });
    assert_eq!(parse(&["--threads", "4"]).exit_status(), None);
    assert_eq!(parse(&["--threads", "4"]).complaint(&args(&["--threads", "4"])), None);
}

#[test]
fn thread_counts_must_be_positive() {
    for bad in ["0", "-1", "four", "", "+", "1.5", " 3", "99999999999999999999999"] {
        let invocation = parse(&["--threads", bad]);
        assert_eq!(invocation, Invocation::BadThreadCount, "{:?}", bad);
        assert_eq!(invocation.exit_status(), Some(1));
        assert_eq!(
            invocation.complaint(&args(&["--threads", bad])).unwrap(),
            "Error: --threads requires a positive integer"
        );
    }
    assert_eq!(parse(&["--threads"]), Invocation::BadThreadCount);
    assert_eq!(parse(&["--threads", "--help"]), Invocation::BadThreadCount);
    assert_eq!(parse(&["--threads", "2", "--threads"]), Invocation::BadThreadCount);
}

#[test]
fn help() {
    for flag in ["--help", "-h"] {
        assert_eq!(parse(&[flag]), Invocation::Help);
        assert_eq!(parse(&["--threads", "2", flag]), Invocation::Help);
        // What stands behind it is not read.
        assert_eq!(parse(&[flag, "--threads"]), Invocation::Help);
        assert_eq!(parse(&[flag, "nonsense"]), Invocation::Help);
        assert_eq!(parse(&[flag]).exit_status(), Some(0));
        assert_eq!(parse(&[flag]).complaint(&args(&[flag])), None);
    }
}

#[test]
fn unknown_arguments() {
    let line = ["--threads", "3", "here", "--help"];
    let invocation = parse(&line);
    assert_eq!(invocation, Invocation::UnknownArgument { index: 3 });
    assert_eq!(invocation.exit_status(), Some(1));
    assert_eq!(invocation.complaint(&args(&line)).unwrap(), "Unknown argument: here");
    assert_eq!(parse(&["--thread", "3"]), Invocation::UnknownArgument { index: 1 });
    assert_eq!(parse(&["-H"]), Invocation::UnknownArgument { index: 1 });
    assert_eq!(parse(&[""]), Invocation::UnknownArgument { index: 1 });
}

#[test]
fn usage_text() {
    assert_eq!(
        usage("prog"),
        "Usage: prog [--threads <N>]\n  --threads <N>   Number of rayon worker threads (default: logical CPU count)"
    );
}

#[test]
fn profiled_entries() {
    assert!(is_profiled(true, Some("picture.dng")));
    assert!(!is_profiled(false, Some("picture.dng")));
    assert!(!is_profiled(true, Some(".DS_Store")));
    assert!(is_profiled(true, Some(".ds_store")));
    assert!(!is_profiled(true, None));
    assert!(!is_profiled(false, None));
}

#[test]
fn numbers_read_as_the_standard_library_reads_them() {
    let max = usize::MAX.to_string();
    let over = format!("{}0", usize::MAX);
    let next = format!("{}", usize::MAX as u128 + 1);
    for text in [
        "", "+", "-", "0", "+0", "-0", "7", "007", "+007", "++7", "7+", "12a", "a12", "1_000",
        " 1", "1 ", "\u{0661}", "\u{ff11}", "99", max.as_str(), over.as_str(), next.as_str(),
    ] {
        assert_eq!(parse_usize(text), text.parse::<usize>().ok(), "{:?}", text);
    }
}

#[test]
fn texts() {
    assert!(same_text("", ""));
    assert!(same_text("gamma", "gamma"));
    assert!(!same_text("gamma", "gamm"));
    assert!(!same_text("gamma", "Gamma"));
}
