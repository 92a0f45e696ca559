//! Reading one line of the search tool's output, `command|exit|directory|time`
//! or, as `search::FORMAT` asks for, `command|exit|duration|directory|time`.
//! The command is free text that may itself hold the delimiter; the trailing
//! fields never do.
use vstd::prelude::*;

verus! {

/// The delimiter between the fields of an output line.
pub const DELIMITER: char = '|';

/// One parsed output line.
#[derive(Debug, Clone, PartialEq, Eq)]
pub struct HistoryEntry {
    pub command: String,
    pub exit_code: String,
    pub directory: String,
    pub timestamp: String,
}

pub struct HistoryEntryView {
    pub command: Seq<char>,
    pub exit_code: Seq<char>,
    pub directory: Seq<char>,
    pub timestamp: Seq<char>,
}

impl View for HistoryEntry {
    type V = HistoryEntryView;

    open spec fn view(&self) -> HistoryEntryView {
        HistoryEntryView {
            command: self.command@,
            exit_code: self.exit_code@,
            directory: self.directory@,
            timestamp: self.timestamp@,
        }
    }
}

/// Whether `s` holds no delimiter.
pub open spec fn free_of_delimiter(s: Seq<char>) -> bool {
    forall|i: int| 0 <= i < s.len() ==> s[i] != DELIMITER
}

/// The number of delimiters in `s`.
pub open spec fn delimiter_count(s: Seq<char>) -> nat
    decreases s.len(),
{
    if s.len() == 0 {
        0
    } else {
        delimiter_count(s.drop_last()) + if s.last() == DELIMITER {
            1nat
        } else {
            0nat
        }
    }
}

/// The index of the last delimiter in `s`, or -1 when there is none.
pub open spec fn last_delimiter(s: Seq<char>) -> int
    decreases s.len(),
{
    if s.len() == 0 {
        -1
    } else if s.last() == DELIMITER {
        s.len() - 1
    } else {
        last_delimiter(s.drop_last())
    }
}

/// `s` cut at its last delimiter into what stands before and after it.
pub open spec fn split_last(s: Seq<char>) -> Option<(Seq<char>, Seq<char>)> {
    let i = last_delimiter(s);
    if i < 0 {
        None
    } else {
        Some((s.subrange(0, i), s.subrange(i + 1, s.len() as int)))
    }
}

/// The four fields joined by the delimiter.
pub open spec fn joined(
    command: Seq<char>,
    exit_code: Seq<char>,
    directory: Seq<char>,
    timestamp: Seq<char>,
) -> Seq<char> {
    command + seq![DELIMITER] + exit_code + seq![DELIMITER] + directory + seq![DELIMITER]
        + timestamp
}

/// The line of an entry.
pub open spec fn entry_line(e: HistoryEntryView) -> Seq<char> {
    joined(e.command, e.exit_code, e.directory, e.timestamp)
}

/// A line split at its last three delimiters, from the right; `None` when it
/// holds fewer than three.
pub open spec fn parse_line(s: Seq<char>) -> Option<HistoryEntryView> {
    match split_last(s) {
        None => None,
        Some((rest, timestamp)) => match split_last(rest) {
            None => None,
            Some((rest, directory)) => match split_last(rest) {
                None => None,
                Some((command, exit_code)) => Some(
                    HistoryEntryView { command, exit_code, directory, timestamp },
                ),
            },
        },
    }
}

proof fn lemma_last_delimiter_bounds(s: Seq<char>)
    ensures
        -1 <= last_delimiter(s) < s.len(),
        last_delimiter(s) >= 0 ==> s[last_delimiter(s)] == DELIMITER,
        free_of_delimiter(s.subrange(last_delimiter(s) + 1, s.len() as int)),
        last_delimiter(s) < 0 <==> free_of_delimiter(s),
    decreases s.len(),
{
    if s.len() > 0 {
        lemma_last_delimiter_bounds(s.drop_last());
        if s.last() != DELIMITER {
            let j = last_delimiter(s.drop_last());
            assert(s.subrange(j + 1, s.len() as int) =~= s.drop_last().subrange(
                j + 1,
                s.len() - 1,
            ).push(s.last()));
            if j < 0 {
                assert forall|i: int| 0 <= i < s.len() implies s[i] != DELIMITER by {
                    if i < s.len() - 1 {
                        assert(s[i] == s.drop_last()[i]);
                    }
                }
            }
        } else {
            assert(!free_of_delimiter(s) || s[s.len() - 1] != DELIMITER);
        }
    }
}

proof fn lemma_last_delimiter_of_free(s: Seq<char>)
    requires
        free_of_delimiter(s),
    ensures
        last_delimiter(s) == -1,
{
    lemma_last_delimiter_bounds(s);
}

proof fn lemma_last_delimiter_of_append(a: Seq<char>, b: Seq<char>)
    requires
        free_of_delimiter(b),
    ensures
        last_delimiter(a + seq![DELIMITER] + b) == a.len(),
    decreases b.len(),
{
    let s = a + seq![DELIMITER] + b;
    if b.len() == 0 {
        assert(s.last() == DELIMITER);
    } else {
        assert(s.drop_last() =~= a + seq![DELIMITER] + b.drop_last());
        assert(s.last() == b.last());
        lemma_last_delimiter_of_append(a, b.drop_last());
    }
}

/// Splitting at the last delimiter finds the one before a delimiter-free tail.
pub proof fn lemma_split_last_of_append(a: Seq<char>, b: Seq<char>)
    requires
        free_of_delimiter(b),
    ensures
        split_last(a + seq![DELIMITER] + b) == Some((a, b)),
{
    let s = a + seq![DELIMITER] + b;
    lemma_last_delimiter_of_append(a, b);
    assert(s.subrange(0, a.len() as int) =~= a);
    assert(s.subrange((a.len() + 1) as int, s.len() as int) =~= b);
}

/// Splitting at the last delimiter and joining the two parts again gives the
/// text back.
pub proof fn lemma_split_last_rejoins(s: Seq<char>)
    ensures
        split_last(s) matches Some((a, b)) ==> s == a + seq![DELIMITER] + b && free_of_delimiter(
            b,
        ),
{
    lemma_last_delimiter_bounds(s);
    if let Some((a, b)) = split_last(s) {
        assert(s =~= a + seq![DELIMITER] + b);
    }
}

proof fn lemma_delimiter_count_of_append(a: Seq<char>, b: Seq<char>)
    requires
        free_of_delimiter(b),
    ensures
        delimiter_count(a + seq![DELIMITER] + b) == delimiter_count(a) + 1,
    decreases b.len(),
{
    let s = a + seq![DELIMITER] + b;
    if b.len() == 0 {
        assert(s.drop_last() =~= a);
    } else {
        assert(s.drop_last() =~= a + seq![DELIMITER] + b.drop_last());
        lemma_delimiter_count_of_append(a, b.drop_last());
    }
}

proof fn lemma_delimiter_count_of_free(s: Seq<char>)
    requires
        free_of_delimiter(s),
    ensures
        delimiter_count(s) == 0,
    decreases s.len(),
{
    if s.len() > 0 {
        lemma_delimiter_count_of_free(s.drop_last());
    }
}

/// A split at the last delimiter leaves one delimiter fewer before it.
proof fn lemma_split_last_count(s: Seq<char>)
    ensures
        split_last(s) matches Some((a, b)) ==> delimiter_count(s) == delimiter_count(a) + 1,
        split_last(s) is None ==> delimiter_count(s) == 0,
{
    lemma_split_last_rejoins(s);
    lemma_last_delimiter_bounds(s);
    if let Some((a, b)) = split_last(s) {
        lemma_delimiter_count_of_append(a, b);
    } else {
        lemma_delimiter_count_of_free(s);
    }
}

/// A line parses exactly when it holds at least three delimiters.
pub proof fn lemma_parse_line_needs_three_delimiters(s: Seq<char>)
    ensures
        parse_line(s) is Some <==> delimiter_count(s) >= 3,
{
    lemma_split_last_count(s);
    if let Some((r1, _)) = split_last(s) {
        lemma_split_last_count(r1);
        if let Some((r2, _)) = split_last(r1) {
            lemma_split_last_count(r2);
        }
    }
}

/// Lines with fewer than three delimiters are not parsed.
pub proof fn lemma_malformed_line_unparsed(s: Seq<char>)
    requires
        delimiter_count(s) < 3,
    ensures
        parse_line(s) is None,
{
    lemma_parse_line_needs_three_delimiters(s);
}

/// Joining four fields, of which the last three hold no delimiter, and parsing
/// the line gives the four fields back, whatever the command holds.
pub proof fn lemma_join_then_parse(
    command: Seq<char>,
    exit_code: Seq<char>,
    directory: Seq<char>,
    timestamp: Seq<char>,
)
    requires
        free_of_delimiter(exit_code),
        free_of_delimiter(directory),
        free_of_delimiter(timestamp),
    ensures
        parse_line(joined(command, exit_code, directory, timestamp)) == Some(
            HistoryEntryView { command, exit_code, directory, timestamp },
        ),
{
    let r2 = command + seq![DELIMITER] + exit_code;
    let r1 = r2 + seq![DELIMITER] + directory;
    lemma_split_last_of_append(r1, timestamp);
    lemma_split_last_of_append(r2, directory);
    lemma_split_last_of_append(command, exit_code);
}

/// A parsed line, joined again with the delimiter, is the line itself.
pub proof fn lemma_parse_then_join(s: Seq<char>)
    ensures
        parse_line(s) matches Some(e) ==> entry_line(e) == s && free_of_delimiter(e.exit_code)
            && free_of_delimiter(e.directory) && free_of_delimiter(e.timestamp),
{
    lemma_split_last_rejoins(s);
    if let Some((r1, _)) = split_last(s) {
        lemma_split_last_rejoins(r1);
        if let Some((r2, _)) = split_last(r1) {
            lemma_split_last_rejoins(r2);
        }
    }
}

/// The index of the last delimiter among the first `end` characters of `line`.
fn find_last_delimiter(line: &str, end: usize) -> (r: Option<usize>)
    requires
        end <= line@.len(),
    ensures
        r is None ==> last_delimiter(line@.subrange(0, end as int)) == -1,
        r matches Some(i) ==> i < end && i as int == last_delimiter(
            line@.subrange(0, end as int),
        ),
{
    let mut j: usize = end;
    while j > 0
        invariant
            j <= end <= line@.len(),
            free_of_delimiter(line@.subrange(j as int, end as int)),
        decreases j,
    {
        if line.get_char(j - 1) == DELIMITER {
            proof {
                let s = line@.subrange(0, end as int);
                let a = line@.subrange(0, j - 1);
                let b = line@.subrange(j as int, end as int);
                assert(s =~= a + seq![DELIMITER] + b);
                lemma_last_delimiter_of_append(a, b);
            }
            return Some(j - 1);
        }
        proof {
            let b = line@.subrange(j as int, end as int);
            assert(line@.subrange(j - 1, end as int) =~= seq![line@[j - 1]] + b);
        }
        j = j - 1;
    }
    proof {
        assert(line@.subrange(0, end as int) =~= line@.subrange(j as int, end as int));
        lemma_last_delimiter_of_free(line@.subrange(0, end as int));
    }
    None
}

/// Parses one output line into its four fields, splitting at the last three
/// delimiters so that the command may hold the delimiter itself. A line with
/// fewer than three delimiters (such as the continuation of a command that
/// spans several lines) gives `None`.
pub fn parse_history_line(line: &str) -> (r: Option<HistoryEntry>)
    ensures
        r is None <==> parse_line(line@) is None,
        r matches Some(e) ==> parse_line(line@) == Some(e@),
        r is None <==> delimiter_count(line@) < 3,
{
    proof {
        lemma_parse_line_needs_three_delimiters(line@);
    }
    let n = line.unicode_len();
    let ghost s = line@;
    assert(s.subrange(0, n as int) =~= s);
    let p3 = match find_last_delimiter(line, n) {
        None => return None,
        Some(p) => p,
    };
    let ghost r1 = s.subrange(0, p3 as int);
    let p2 = match find_last_delimiter(line, p3) {
        None => return None,
        Some(p) => p,
    };
    let ghost r2 = s.subrange(0, p2 as int);
    assert(r1.subrange(0, p2 as int) =~= r2);
    let p1 = match find_last_delimiter(line, p2) {
        None => {
            assert(r2 =~= s.subrange(0, p2 as int));
            return None;
        },
        Some(p) => p,
    };
    assert(r2.subrange(0, p1 as int) =~= s.subrange(0, p1 as int));
    assert(r2.subrange(p1 + 1, p2 as int) =~= s.subrange(p1 + 1, p2 as int));
    assert(r1.subrange(p2 + 1, p3 as int) =~= s.subrange(p2 + 1, p3 as int));
    let entry = HistoryEntry {
        command: String::from_str(line.substring_char(0, p1)),
        exit_code: String::from_str(line.substring_char(p1 + 1, p2)),
        directory: String::from_str(line.substring_char(p2 + 1, p3)),
        timestamp: String::from_str(line.substring_char(p3 + 1, n)),
    };
    Some(entry)
}

impl HistoryEntry {
    /// The entry as an output line: the four fields joined by the delimiter.
    pub fn to_line(&self) -> (r: String)
        ensures
            r@ == entry_line(self@),
    {
        proof {
            reveal_strlit("|");
        }
        let mut r = self.command.clone();
        r.append("|");
        r.append(self.exit_code.as_str());
        r.append("|");
        r.append(self.directory.as_str());
        r.append("|");
        r.append(self.timestamp.as_str());
        assert(r@ =~= entry_line(self@));
        r
    }
}

/// One line as the search tool prints it with `search::FORMAT`:
/// `command|exit|duration|directory|time`.
#[derive(Debug, Clone, PartialEq, Eq)]
pub struct SearchRecord {
    pub command: String,
    pub exit_code: String,
    pub duration: String,
    pub directory: String,
    pub timestamp: String,
}

pub struct SearchRecordView {
    pub command: Seq<char>,
    pub exit_code: Seq<char>,
    pub duration: Seq<char>,
    pub directory: Seq<char>,
    pub timestamp: Seq<char>,
}

impl View for SearchRecord {
    type V = SearchRecordView;

    open spec fn view(&self) -> SearchRecordView {
        SearchRecordView {
            command: self.command@,
            exit_code: self.exit_code@,
            duration: self.duration@,
            directory: self.directory@,
            timestamp: self.timestamp@,
        }
    }
}

/// The line of a record: its five fields joined by the delimiter.
pub open spec fn record_line(r: SearchRecordView) -> Seq<char> {
    joined(r.command, r.exit_code, r.duration, r.directory) + seq![DELIMITER] + r.timestamp
}

/// A line split at its last four delimiters, from the right; `None` when it
/// holds fewer than four.
pub open spec fn parse_record(s: Seq<char>) -> Option<SearchRecordView> {
    match split_last(s) {
        None => None,
        Some((rest, timestamp)) => match parse_line(rest) {
            None => None,
            Some(e) => Some(
                SearchRecordView {
                    command: e.command,
                    exit_code: e.exit_code,
                    duration: e.directory,
                    directory: e.timestamp,
                    timestamp,
                },
            ),
        },
    }
}

/// A line reads as a record exactly when it holds at least four delimiters.
pub proof fn lemma_parse_record_needs_four_delimiters(s: Seq<char>)
    ensures
        parse_record(s) is Some <==> delimiter_count(s) >= 4,
{
    lemma_split_last_count(s);
    if let Some((rest, _)) = split_last(s) {
        lemma_parse_line_needs_three_delimiters(rest);
    }
}

/// Joining five fields, of which the last four hold no delimiter, and
/// reading the line as a record gives the five fields back, whatever the
/// command holds.
pub proof fn lemma_record_join_then_parse(r: SearchRecordView)
    requires
        free_of_delimiter(r.exit_code),
        free_of_delimiter(r.duration),
        free_of_delimiter(r.directory),
        free_of_delimiter(r.timestamp),
    ensures
        parse_record(record_line(r)) == Some(r),
{
    lemma_split_last_of_append(joined(r.command, r.exit_code, r.duration, r.directory), r.timestamp);
    lemma_join_then_parse(r.command, r.exit_code, r.duration, r.directory);
}

/// A line read as a record, joined again with the delimiter, is the line
/// itself.
pub proof fn lemma_record_parse_then_join(s: Seq<char>)
    ensures
        parse_record(s) matches Some(r) ==> record_line(r) == s && free_of_delimiter(r.exit_code)
            && free_of_delimiter(r.duration) && free_of_delimiter(r.directory)
            && free_of_delimiter(r.timestamp),
{
    lemma_split_last_rejoins(s);
    if let Some((rest, _)) = split_last(s) {
        lemma_parse_then_join(rest);
    }
}

/// Reads one line that the search tool prints with `search::FORMAT` into its
/// five fields, splitting at the last four delimiters so that the command
/// may hold the delimiter itself. A line with fewer than four delimiters
/// (such as the continuation of a command that spans several lines) gives
/// `None`.
pub fn parse_search_record(line: &str) -> (r: Option<SearchRecord>)
    ensures
        r is None <==> parse_record(line@) is None,
        r matches Some(x) ==> parse_record(line@) == Some(x@),
        r is None <==> delimiter_count(line@) < 4,
{
    proof {
        lemma_parse_record_needs_four_delimiters(line@);
    }
    let n = line.unicode_len();
    assert(line@.subrange(0, n as int) =~= line@);
    let p = match find_last_delimiter(line, n) {
        None => return None,
        Some(p) => p,
    };
    let rest = line.substring_char(0, p);
    match parse_history_line(rest) {
        None => None,
        Some(e) => Some(
            SearchRecord {
                command: e.command,
                exit_code: e.exit_code,
                duration: e.directory,
                directory: e.timestamp,
                timestamp: String::from_str(line.substring_char(p + 1, n)),
            },
        ),
    }
}

impl SearchRecord {
    /// The record as an output line: the five fields joined by the delimiter.
    pub fn to_line(&self) -> (r: String)
        ensures
            r@ == record_line(self@),
    {
        proof {
            reveal_strlit("|");
        }
        let mut r = self.command.clone();
        r.append("|");
        r.append(self.exit_code.as_str());
        r.append("|");
        r.append(self.duration.as_str());
        r.append("|");
        r.append(self.directory.as_str());
        r.append("|");
        r.append(self.timestamp.as_str());
        assert(r@ =~= record_line(self@));
        r
    }
}

} // verus!
