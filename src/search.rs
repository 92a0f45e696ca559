//! The history-search tool's command line, built from a query and optional
//! filters, and the reading of what the tool hands back.
use vstd::prelude::*;
use vstd::utf8::{decode_utf8, valid_utf8};

use crate::text::text_equals;

verus! {

/// The output template: each line holds five fields, command, exit code,
/// duration, directory and time. `history::parse_search_record` reads such a
/// line; `history::parse_history_line` reads the four-field form without the
/// duration.
pub const FORMAT: &'static str = "{command}|{exit}|{duration}|{directory}|{time}";

/// Filters of one search call.
#[derive(Debug, Clone)]
pub struct SearchFilters {
    /// Restricts the search to commands run in this directory.
    pub directory: Option<String>,
    /// `"success"` (exit code 0), `"failure"` (any other), or anything else for all.
    pub exit_filter: Option<String>,
    /// `"1h"`, `"24h"`, `"7d"`, `"30d"`, or anything else for no bound.
    pub time_range: Option<String>,
}

pub struct SearchFiltersView {
    pub directory: Option<Seq<char>>,
    pub exit_filter: Option<Seq<char>>,
    pub time_range: Option<Seq<char>>,
}

impl View for SearchFilters {
    type V = SearchFiltersView;

    open spec fn view(&self) -> SearchFiltersView {
        SearchFiltersView {
            directory: self.directory.deep_view(),
            exit_filter: self.exit_filter.deep_view(),
            time_range: self.time_range.deep_view(),
        }
    }
}

impl Default for SearchFilters {
    fn default() -> (r: SearchFilters)
        ensures
            r.directory is None,
            r.exit_filter is None,
            r.time_range is None,
    {
        SearchFilters { directory: None, exit_filter: None, time_range: None }
    }
}

/// The arguments that every search starts with.
pub open spec fn base_args() -> Seq<Seq<char>> {
    seq![
        "search"@,
        "--search-mode"@,
        "prefix"@,
        "--limit"@,
        "50"@,
        "--format"@,
        FORMAT@,
    ]
}

/// The directory restriction: only for a non-empty directory.
pub open spec fn directory_args(directory: Option<Seq<char>>) -> Seq<Seq<char>> {
    match directory {
        Some(d) => if d.len() > 0 {
            seq!["--cwd"@, d]
        } else {
            seq![]
        },
        None => seq![],
    }
}

/// The exit-code restriction.
pub open spec fn exit_args(exit_filter: Option<Seq<char>>) -> Seq<Seq<char>> {
    if exit_filter == Some("success"@) {
        seq!["--exit"@, "0"@]
    } else if exit_filter == Some("failure"@) {
        seq!["--exclude-exit"@, "0"@]
    } else {
        seq![]
    }
}

/// The relative time phrase of a symbolic time window.
pub open spec fn time_phrase(range: Seq<char>) -> Option<Seq<char>> {
    if range == "1h"@ {
        Some("1 hour ago"@)
    } else if range == "24h"@ {
        Some("1 day ago"@)
    } else if range == "7d"@ {
        Some("7 days ago"@)
    } else if range == "30d"@ {
        Some("30 days ago"@)
    } else {
        None
    }
}

/// The lower time bound.
pub open spec fn time_args(time_range: Option<Seq<char>>) -> Seq<Seq<char>> {
    match time_range {
        Some(r) => match time_phrase(r) {
            Some(p) => seq!["--after"@, p],
            None => seq![],
        },
        None => seq![],
    }
}

/// The whole argument list of a search; the query always comes last.
pub open spec fn search_args(query: Seq<char>, filters: SearchFiltersView) -> Seq<Seq<char>> {
    base_args() + directory_args(filters.directory) + exit_args(filters.exit_filter) + time_args(
        filters.time_range,
    ) + seq![query]
}

/// The filters' flags: `"success"` gives `--exit 0`, `"failure"` gives
/// `--exclude-exit 0`, any other exit filter neither; `"24h"` gives
/// `--after "1 day ago"`, an unknown time window no `--after`. They stand
/// between the fixed arguments (and the directory restriction) and the
/// query, which comes last.
pub proof fn lemma_filter_flags(query: Seq<char>, filters: SearchFiltersView)
    ensures
        search_args(query, filters) == base_args() + directory_args(filters.directory)
            + exit_args(filters.exit_filter) + time_args(filters.time_range) + seq![query],
        search_args(query, filters).last() == query,
        filters.exit_filter == Some("success"@) ==> exit_args(filters.exit_filter) == seq![
            "--exit"@,
            "0"@,
        ],
        filters.exit_filter == Some("failure"@) ==> exit_args(filters.exit_filter) == seq![
            "--exclude-exit"@,
            "0"@,
        ],
        filters.exit_filter != Some("success"@) && filters.exit_filter != Some("failure"@)
            ==> exit_args(filters.exit_filter).len() == 0,
        filters.time_range == Some("24h"@) ==> time_args(filters.time_range) == seq![
            "--after"@,
            "1 day ago"@,
        ],
        filters.time_range matches Some(r) && time_phrase(r) is None ==> time_args(
            filters.time_range,
        ).len() == 0,
        filters.time_range is None ==> time_args(filters.time_range).len() == 0,
{
    reveal_strlit("24h");
    reveal_strlit("1h");
    reveal_strlit("success");
    reveal_strlit("failure");
    assert("24h"@.len() != "1h"@.len());
    assert("success"@[0] != "failure"@[0]);
}

fn push_arg(args: &mut Vec<String>, arg: &str)
    ensures
        final(args).deep_view() == old(args).deep_view().push(arg@),
{
    args.push(String::from_str(arg));
    assert(final(args).deep_view() =~= old(args).deep_view().push(arg@));
}

/// The relative time phrase for a symbolic time window, if it is one of the
/// four known ones.
pub fn time_phrase_of(range: &str) -> (r: Option<&'static str>)
    ensures
        r.deep_view() == time_phrase(range@),
{
    if text_equals(range, "1h") {
        Some("1 hour ago")
    } else if text_equals(range, "24h") {
        Some("1 day ago")
    } else if text_equals(range, "7d") {
        Some("7 days ago")
    } else if text_equals(range, "30d") {
        Some("30 days ago")
    } else {
        None
    }
}

/// Builds the search tool's argument list for `query` under `filters`.
pub fn build_search_args(query: &str, filters: &SearchFilters) -> (r: Vec<String>)
    ensures
        r.deep_view() == search_args(query@, filters@),
{
    let mut args: Vec<String> = Vec::new();
    push_arg(&mut args, "search");
    push_arg(&mut args, "--search-mode");
    push_arg(&mut args, "prefix");
    push_arg(&mut args, "--limit");
    push_arg(&mut args, "50");
    push_arg(&mut args, "--format");
    push_arg(&mut args, FORMAT);
    assert(args.deep_view() =~= base_args());
    let ghost after_base = args.deep_view();
    if let Some(dir) = &filters.directory {
        if dir.as_str().unicode_len() > 0 {
            push_arg(&mut args, "--cwd");
            push_arg(&mut args, dir.as_str());
        }
    }
    assert(args.deep_view() =~= after_base + directory_args(filters@.directory));
    let ghost after_dir = args.deep_view();
    if let Some(exit_filter) = &filters.exit_filter {
        if text_equals(exit_filter.as_str(), "success") {
            push_arg(&mut args, "--exit");
            push_arg(&mut args, "0");
        } else if text_equals(exit_filter.as_str(), "failure") {
            push_arg(&mut args, "--exclude-exit");
            push_arg(&mut args, "0");
        }
    }
    assert(args.deep_view() =~= after_dir + exit_args(filters@.exit_filter));
    let ghost after_exit = args.deep_view();
    if let Some(range) = &filters.time_range {
        if let Some(phrase) = time_phrase_of(range.as_str()) {
            push_arg(&mut args, "--after");
            push_arg(&mut args, phrase);
        }
    }
    assert(args.deep_view() =~= after_exit + time_args(filters@.time_range));
    push_arg(&mut args, query);
    assert(args.deep_view() =~= search_args(query@, filters@));
    args
}

/// What became of a run of the search tool that did start.
pub struct ToolOutput {
    /// Whether the tool exited with status zero.
    pub success: bool,
    pub stdout: Vec<u8>,
    pub stderr: Vec<u8>,
}

/// Why a search gave no text.
#[derive(Debug, Clone, PartialEq, Eq)]
pub enum SearchError {
    /// The tool could not be started; holds the system's description.
    SpawnFailed(String),
    /// The tool exited with a non-zero status; holds its standard error.
    ToolFailed(String),
    /// The tool's standard output is not UTF-8; holds the decoder's description.
    OutputNotText(String),
}

/// The description of why bytes that are not valid UTF-8 fail to decode.
pub uninterp spec fn utf8_error_text(bytes: Seq<u8>) -> Seq<char>;

/// The text that stands for invalid UTF-8 decoded with replacement characters.
pub uninterp spec fn utf8_lossy(bytes: Seq<u8>) -> Seq<char>;

/// Relies on `String::from_utf8`: the decoded text when the bytes are valid
/// UTF-8, and an error (given here as its `Display` text, which depends on
/// the bytes alone) when they are not.
#[verifier::external_body]
fn decode_utf8_text(bytes: Vec<u8>) -> (r: Result<String, String>)
    ensures
        r is Ok <==> valid_utf8(bytes@),
        r matches Ok(s) ==> s@ == decode_utf8(bytes@),
        r matches Err(m) ==> m@ == utf8_error_text(bytes@),
{
    match String::from_utf8(bytes) {
        Ok(s) => Ok(s),
        Err(e) => Err(e.to_string()),
    }
}

/// Relies on `String::from_utf8_lossy`: the bytes decoded, each invalid
/// sequence replaced by U+FFFD; valid UTF-8 decodes as it is.
#[verifier::external_body]
fn decode_utf8_lossy(bytes: &Vec<u8>) -> (r: String)
    ensures
        r@ == utf8_lossy(bytes@),
        valid_utf8(bytes@) ==> r@ == decode_utf8(bytes@),
{
    String::from_utf8_lossy(bytes).into_owned()
}

/// The result of a search, from what became of the tool's run: the error of
/// a failed start, the tool's standard error on a non-zero exit, else its
/// standard output as text.
pub fn search_outcome(run: Result<ToolOutput, String>) -> (r: Result<String, SearchError>)
    ensures
        run matches Err(e) ==> r == Err::<String, SearchError>(SearchError::SpawnFailed(e)),
        run matches Ok(o) ==> {
            if !o.success {
                r matches Err(SearchError::ToolFailed(m)) && m@ == utf8_lossy(o.stderr@)
            } else if valid_utf8(o.stdout@) {
                r matches Ok(s) && s@ == decode_utf8(o.stdout@)
            } else {
                r matches Err(SearchError::OutputNotText(m)) && m@ == utf8_error_text(
                    o.stdout@,
                )
            }
        },
{
    match run {
        Err(e) => Err(SearchError::SpawnFailed(e)),
        Ok(o) => {
            if o.success {
                match decode_utf8_text(o.stdout) {
                    Ok(s) => Ok(s),
                    Err(e) => Err(SearchError::OutputNotText(e)),
                }
            } else {
                Err(SearchError::ToolFailed(decode_utf8_lossy(&o.stderr)))
            }
        },
    }
}

/// The display text of a search error.
pub open spec fn search_error_text(e: SearchError) -> Seq<char> {
    match e {
        SearchError::SpawnFailed(m) => "Failed to execute atuin command: "@ + m@,
        SearchError::ToolFailed(m) => "atuin command failed: "@ + m@,
        SearchError::OutputNotText(m) => "Failed to parse atuin output: "@ + m@,
    }
}

impl SearchError {
    /// The error as the text shown to the user.
    pub fn message(&self) -> (r: String)
        ensures
            r@ == search_error_text(*self),
    {
        match self {
            SearchError::SpawnFailed(m) => String::from_str(
                "Failed to execute atuin command: ",
            ).concat(m.as_str()),
            SearchError::ToolFailed(m) => String::from_str("atuin command failed: ").concat(
                m.as_str(),
            ),
            SearchError::OutputNotText(m) => String::from_str(
                "Failed to parse atuin output: ",
            ).concat(m.as_str()),
        }
    }
}

} // verus!
