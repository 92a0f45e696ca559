use atuin_bar_lib::search::{
    build_search_args, search_outcome, time_phrase_of, SearchError, ToolOutput, FORMAT,
};
use atuin_bar_lib::SearchFilters;

fn filters(dir: Option<&str>, exit: Option<&str>, time: Option<&str>) -> SearchFilters {
    SearchFilters {
        directory: dir.map(|s| s.to_string()),
        exit_filter: exit.map(|s| s.to_string()),
        time_range: time.map(|s| s.to_string()),
    }
}

fn base() -> Vec<String> {
    ["search", "--search-mode", "prefix", "--limit", "50", "--format", FORMAT]
        .iter()
        .map(|s| s.to_string())
        .collect()
}

fn with(extra: &[&str]) -> Vec<String> {
    let mut v = base();
    v.extend(extra.iter().map(|s| s.to_string()));
    v
}

#[test]
fn no_filters_gives_fixed_flags_and_query() {
    assert_eq!(FORMAT, "{command}|{exit}|{duration}|{directory}|{time}");
    assert_eq!(build_search_args("ls", &SearchFilters::default()), with(&["ls"]));
}

#[test]
fn empty_query_is_still_last() {
    assert_eq!(build_search_args("", &SearchFilters::default()), with(&[""]));
}

#[test]
fn exit_filter_flags() {
    assert_eq!(
        build_search_args("q", &filters(None, Some("success"), None)),
        with(&["--exit", "0", "q"])
    );
    assert_eq!(
        build_search_args("q", &filters(None, Some("failure"), None)),
        with(&["--exclude-exit", "0", "q"])
    );
    assert_eq!(build_search_args("q", &filters(None, Some("all"), None)), with(&["q"]));
    assert_eq!(build_search_args("q", &filters(None, Some("Success"), None)), with(&["q"]));
}

#[test]
fn time_range_flags() {
    assert_eq!(
        build_search_args("q", &filters(None, None, Some("24h"))),
        with(&["--after", "1 day ago", "q"])
    );
    assert_eq!(time_phrase_of("1h"), Some("1 hour ago"));
    assert_eq!(time_phrase_of("7d"), Some("7 days ago"));
    assert_eq!(time_phrase_of("30d"), Some("30 days ago"));
    assert_eq!(time_phrase_of("2w"), None);
    assert_eq!(build_search_args("q", &filters(None, None, Some("2w"))), with(&["q"]));
}

#[test]
fn directory_flag_only_when_non_empty() {
    assert_eq!(
        build_search_args("q", &filters(Some("/tmp"), None, None)),
        with(&["--cwd", "/tmp", "q"])
    );
    assert_eq!(build_search_args("q", &filters(Some(""), None, None)), with(&["q"]));
}

#[test]
fn all_filters_in_order() {
    assert_eq!(
        build_search_args("", &filters(Some("/tmp"), Some("success"), Some("7d"))),
        with(&["--cwd", "/tmp", "--exit", "0", "--after", "7 days ago", ""])
    );
}

#[test]
fn failure_filter_for_git() {
    let args = build_search_args("git", &filters(None, Some("failure"), None));
    let pos = args.iter().position(|a| a == "--exclude-exit").unwrap();
    assert_eq!(args[pos + 1], "0");
    assert_eq!(args.last().unwrap(), "git");
}

#[test]
fn spawn_failure_is_reported() {
    let r = search_outcome(Err("No such file or directory (os error 2)".to_string()));
    let e = r.unwrap_err();
    assert_eq!(e, SearchError::SpawnFailed("No such file or directory (os error 2)".to_string()));
    assert_eq!(
        e.message(),
        "Failed to execute atuin command: No such file or directory (os error 2)"
    );
}

#[test]
fn nonzero_exit_reports_stderr() {
    let r = search_outcome(Ok(ToolOutput {
        success: false,
        stdout: b"ignored".to_vec(),
        stderr: b"no db\xff".to_vec(),
    }));
    let e = r.unwrap_err();
    assert_eq!(e, SearchError::ToolFailed("no db\u{FFFD}".to_string()));
    assert_eq!(e.message(), "atuin command failed: no db\u{FFFD}");
}

#[test]
fn success_decodes_stdout() {
    let r = search_outcome(Ok(ToolOutput {
        success: true,
        stdout: "ls|0|/|now\nécho|1|/|now\n".as_bytes().to_vec(),
        stderr: Vec::new(),
    }));
    assert_eq!(r, Ok("ls|0|/|now\nécho|1|/|now\n".to_string()));
}

#[test]
fn invalid_stdout_is_an_error() {
    let r = search_outcome(Ok(ToolOutput {
        success: true,
        stdout: vec![0x61, 0xff, 0x62],
        stderr: Vec::new(),
    }));
    match r {
        Err(SearchError::OutputNotText(m)) => {
            let expected = String::from_utf8(vec![0x61, 0xff, 0x62]).unwrap_err().to_string();
            assert_eq!(m, expected);
            let msg = SearchError::OutputNotText(m.clone()).message();
            assert_eq!(msg, format!("Failed to parse atuin output: {}", m));
        }
        other => panic!("unexpected {:?}", other),
    }
}
