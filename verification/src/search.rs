//! Match records and the line-oriented output of the search tool.

use crate::text::{
    buffers_view, chars_between, chars_of, decimal_value, find, find_char, is_decimal, lemma_find,
    parse_decimal, string_of, strings_view,
};
use vstd::prelude::*;

verus! {

/// One hit reported by the search tool.
#[derive(Debug, Clone, PartialEq, Eq)]
pub struct MatchRecord {
    /// The file the match is in, as the tool printed it.
    pub path: String,
    /// The 1-based line of the match.
    pub line: usize,
    /// The 1-based column of the match.
    pub column: usize,
    /// The matched line's text.
    pub text: String,
}

/// A match record as a mathematical value.
pub struct MatchView {
    pub path: Seq<char>,
    pub line: nat,
    pub column: nat,
    pub text: Seq<char>,
}

impl MatchView {
    /// Lines and columns count from one.
    pub open spec fn well_formed(self) -> bool {
        self.line >= 1 && self.column >= 1
    }
}

impl View for MatchRecord {
    type V = MatchView;

    open spec fn view(&self) -> MatchView {
        MatchView {
            path: self.path@,
            line: self.line as nat,
            column: self.column as nat,
            text: self.text@,
        }
    }
}

/// The records of a result list as mathematical values.
pub open spec fn records_view(records: Seq<MatchRecord>) -> Seq<MatchView> {
    records.map_values(|r: MatchRecord| r@)
}


/// Why a search gave no records.
#[derive(Debug, Clone, Copy, PartialEq, Eq, Structural)]
pub enum SearchFailure {
    /// The search tool could not be started.
    Spawn,
    /// The search tool was stopped before it could exit on its own.
    AbnormalExit,
    /// An output line is not of the form `path:line:column:text`.
    MalformedLine,
}

/// What came of running the search tool.
#[derive(Debug, Clone, PartialEq, Eq)]
pub enum SearchOutput {
    /// The tool could not be started.
    NotSpawned,
    /// The tool ran and ended. `code` is its exit code, absent if it was
    /// stopped from outside; `stdout` is what it printed.
    Exited { code: Option<i32>, stdout: String },
}

/// A program to run and the arguments to run it with.
#[derive(Debug, Clone, PartialEq, Eq)]
pub struct Invocation {
    pub program: String,
    pub args: Vec<String>,
}

/// The arguments the search tool is run with for `query`: no colours, no
/// grouping under file headings, every match prefixed with file name, line
/// and column, case ignored unless the query has an upper-case letter, hidden
/// files included; then the query itself.
pub open spec fn search_arguments(query: Seq<char>) -> Seq<Seq<char>> {
    seq![
        "--color=never"@,
        "--no-heading"@,
        "--with-filename"@,
        "--line-number"@,
        "--column"@,
        "--smart-case"@,
        "--hidden"@,
        query,
    ]
}

/// A line without the carriage return at its end, if it has one.
pub open spec fn without_cr(line: Seq<char>) -> Seq<char> {
    if line.len() > 0 && line.last() == '\r' {
        line.drop_last()
    } else {
        line
    }
}

/// The lines of `text` from index `from` on. A line ends at a line feed; a
/// carriage return just before that line feed is not part of the line. What
/// follows the last line feed is a line too, unless it is empty.
pub open spec fn lines_from(text: Seq<char>, from: int) -> Seq<Seq<char>>
    decreases text.len() - from,
    when 0 <= from
    via lines_from_decreases
{
    if from >= text.len() {
        Seq::empty()
    } else {
        let end = find(text, '\n', from);
        if end >= text.len() {
            seq![text.subrange(from, text.len() as int)]
        } else {
            seq![without_cr(text.subrange(from, end))] + lines_from(text, end + 1)
        }
    }
}

#[via_fn]
proof fn lines_from_decreases(text: Seq<char>, from: int) {
    if from < text.len() {
        lemma_find(text, '\n', from);
    }
}

/// The lines of `text`.
pub open spec fn lines_of(text: Seq<char>) -> Seq<Seq<char>> {
    lines_from(text, 0)
}

/// Whether `field` is the numeral of a line or column number a record can
/// hold: positive, and small enough for a `usize`.
pub open spec fn is_position(field: Seq<char>) -> bool {
    is_decimal(field) && 1 <= decimal_value(field) <= usize::MAX
}

/// The record that an output line of the form `path:line:column:text`
/// denotes. The line is cut at its first three colons, so the text may hold
/// colons of its own. A line with fewer than three colons, or whose line or
/// column is no positive decimal number that fits a `usize`, denotes none.
pub open spec fn parse_line(line: Seq<char>) -> Option<MatchView> {
    let a = find(line, ':', 0);
    let b = find(line, ':', a + 1);
    let c = find(line, ':', b + 1);
    if c >= line.len() {
        None
    } else if is_position(line.subrange(a + 1, b)) && is_position(line.subrange(b + 1, c)) {
        Some(
            MatchView {
                path: line.take(a),
                line: decimal_value(line.subrange(a + 1, b)),
                column: decimal_value(line.subrange(b + 1, c)),
                text: line.skip(c + 1),
            },
        )
    } else {
        None
    }
}

/// The records of the well-formed lines among `lines`, in order. Malformed
/// lines are left out.
pub open spec fn records_of(lines: Seq<Seq<char>>) -> Seq<MatchView>
    decreases lines.len(),
{
    if lines.len() == 0 {
        Seq::empty()
    } else {
        match parse_line(lines.last()) {
            Some(record) => records_of(lines.drop_last()).push(record),
            None => records_of(lines.drop_last()),
        }
    }
}

/// What a run of the search tool amounts to: a failure if the tool could not
/// be started or was stopped from outside, else the records of what it
/// printed. The exit code itself is not looked at: the tool reports "no
/// match" and "some file could not be read" through it, and neither makes
/// the printed matches wrong.
pub open spec fn search_outcome(output: SearchOutput) -> Result<Seq<MatchView>, SearchFailure> {
    match output {
        SearchOutput::NotSpawned => Err(SearchFailure::Spawn),
        SearchOutput::Exited { code, stdout } => if code.is_none() {
            Err(SearchFailure::AbnormalExit)
        } else {
            Ok(records_of(lines_of(stdout@)))
        },
    }
}

/// Every record read from a line counts its line and column from one.
pub proof fn lemma_parsed_record_well_formed(line: Seq<char>)
    ensures
        parse_line(line) matches Some(record) ==> record.well_formed(),
{
}

/// Every record read from a list of lines counts its line and column from
/// one.
pub proof fn lemma_records_well_formed(lines: Seq<Seq<char>>)
    ensures
        forall|i: int|
            0 <= i < records_of(lines).len() ==> (#[trigger] records_of(lines)[i]).well_formed(),
    decreases lines.len(),
{
    if lines.len() > 0 {
        lemma_records_well_formed(lines.drop_last());
        lemma_parsed_record_well_formed(lines.last());
        let rest = records_of(lines.drop_last());
        assert forall|i: int| 0 <= i < records_of(lines).len() implies (#[trigger] records_of(
            lines,
        )[i]).well_formed() by {
            if i < rest.len() {
                assert(records_of(lines)[i] == rest[i]);
            }
        }
    }
}

/// The command that searches for `query`, or `None` for an empty query:
/// there is nothing to search for, and no process is to be started.
pub fn search_command(query: &Vec<char>) -> (command: Option<Invocation>)
    ensures
        query@.len() == 0 <==> command.is_none(),
        command matches Some(invocation) ==> invocation.program@ == "rg"@ && strings_view(
            invocation.args@,
        ) == search_arguments(query@),
{
    if query.len() == 0 {
        return None;
    }
    let mut args: Vec<String> = Vec::new();
    args.push("--color=never".to_owned());
    args.push("--no-heading".to_owned());
    args.push("--with-filename".to_owned());
    args.push("--line-number".to_owned());
    args.push("--column".to_owned());
    args.push("--smart-case".to_owned());
    args.push("--hidden".to_owned());
    args.push(string_of(query, 0, query.len()));
    assert(query@.subrange(0, query@.len() as int) =~= query@);
    assert(strings_view(args@) =~= search_arguments(query@));
    Some(Invocation { program: "rg".to_owned(), args })
}

/// Splits `text` into its lines.
pub(crate) fn split_lines(text: &Vec<char>) -> (lines: Vec<Vec<char>>)
    ensures
        buffers_view(lines@) == lines_of(text@),
{
    let mut lines: Vec<Vec<char>> = Vec::new();
    let mut from: usize = 0;
    while from < text.len()
        invariant
            from <= text.len(),
            lines_of(text@) == buffers_view(lines@) + lines_from(text@, from as int),
        decreases text.len() - from,
    {
        let end = find_char(text, '\n', from);
        let ghost before = buffers_view(lines@);
        if end >= text.len() {
            lines.push(chars_between(text, from, text.len()));
            proof {
                assert(buffers_view(lines@) =~= before + seq![
                    text@.subrange(from as int, text@.len() as int),
                ]);
                assert(lines_from(text@, text@.len() as int) =~= Seq::empty());
            }
            from = text.len();
        } else {
            let stop = if end > from && text[end - 1] == '\r' {
                end - 1
            } else {
                end
            };
            lines.push(chars_between(text, from, stop));
            proof {
                let line = text@.subrange(from as int, end as int);
                assert(text@.subrange(from as int, stop as int) =~= without_cr(line));
                assert(buffers_view(lines@) =~= before + seq![without_cr(line)]);
                assert(before + (seq![without_cr(line)] + lines_from(text@, end + 1)) =~= (before
                    + seq![without_cr(line)]) + lines_from(text@, end + 1));
            }
            from = end + 1;
        }
    }
    assert(lines_from(text@, from as int) =~= Seq::empty());
    assert(buffers_view(lines@) + Seq::<Seq<char>>::empty() =~= buffers_view(lines@));
    lines
}

/// Reads one output line of the search tool.
///
/// Returns the record the line denotes, and `MalformedLine` exactly when it
/// denotes none.
pub fn parse_match_line(line: &str) -> (parsed: Result<MatchRecord, SearchFailure>)
    ensures
        match parsed {
            Ok(record) => parse_line(line@) == Some(record@),
            Err(failure) => failure == SearchFailure::MalformedLine && parse_line(line@).is_none(),
        },
{
    let chars = chars_of(line);
    parse_chars(&chars)
}

fn parse_chars(line: &Vec<char>) -> (parsed: Result<MatchRecord, SearchFailure>)
    ensures
        match parsed {
            Ok(record) => parse_line(line@) == Some(record@),
            Err(failure) => failure == SearchFailure::MalformedLine && parse_line(line@).is_none(),
        },
{
    let n = line.len();
    let a = find_char(line, ':', 0);
    if a >= n {
        assert(find(line@, ':', a + 1) == n);
        assert(find(line@, ':', n + 1) == n);
        return Err(SearchFailure::MalformedLine);
    }
    let b = find_char(line, ':', a + 1);
    if b >= n {
        assert(find(line@, ':', b + 1) == n);
        return Err(SearchFailure::MalformedLine);
    }
    let c = find_char(line, ':', b + 1);
    if c >= n {
        return Err(SearchFailure::MalformedLine);
    }
    let row = match parse_decimal(line, a + 1, b) {
        Some(row) => row,
        None => {
            return Err(SearchFailure::MalformedLine);
        },
    };
    let column = match parse_decimal(line, b + 1, c) {
        Some(column) => column,
        None => {
            return Err(SearchFailure::MalformedLine);
        },
    };
    if row == 0 || column == 0 {
        return Err(SearchFailure::MalformedLine);
    }
    let record = MatchRecord {
        path: string_of(line, 0, a),
        line: row,
        column,
        text: string_of(line, c + 1, n),
    };
    assert(record@.path =~= line@.take(a as int));
    assert(record@.text =~= line@.skip(c + 1));
    Ok(record)
}

fn parse_lines(lines: &Vec<Vec<char>>) -> (records: Vec<MatchRecord>)
    ensures
        records_view(records@) == records_of(buffers_view(lines@)),
{
    let mut records: Vec<MatchRecord> = Vec::new();
    let mut i: usize = 0;
    assert(buffers_view(lines@).take(0) =~= Seq::empty());
    assert(records_view(records@) =~= Seq::empty());
    while i < lines.len()
        invariant
            i <= lines.len(),
            records_view(records@) == records_of(buffers_view(lines@).take(i as int)),
        decreases lines.len() - i,
    {
        let ghost before = records_view(records@);
        proof {
            let upto = buffers_view(lines@).take(i + 1);
            assert(upto.drop_last() =~= buffers_view(lines@).take(i as int));
            assert(upto.last() == lines@[i as int]@);
        }
        match parse_chars(&lines[i]) {
            Ok(record) => {
                records.push(record);
                assert(records_view(records@) =~= before.push(record@));
            },
            Err(_) => {},
        }
        i += 1;
    }
    assert(buffers_view(lines@).take(lines@.len() as int) =~= buffers_view(lines@));
    records
}

/// Reads the records out of what the search tool printed. Malformed lines
/// are dropped; the others give one record each, in order.
pub fn parse_search_output(stdout: &str) -> (records: Vec<MatchRecord>)
    ensures
        records_view(records@) == records_of(lines_of(stdout@)),
{
    let text = chars_of(stdout);
    let lines = split_lines(&text);
    parse_lines(&lines)
}

/// Turns a run of the search tool into records, or into the reason why
/// there are none.
pub fn search_results(output: &SearchOutput) -> (found: Result<Vec<MatchRecord>, SearchFailure>)
    ensures
        match found {
            Ok(records) => search_outcome(*output) == Ok::<Seq<MatchView>, SearchFailure>(
                records_view(records@),
            ),
            Err(failure) => search_outcome(*output) == Err::<Seq<MatchView>, SearchFailure>(
                failure,
            ),
        },
{
    match output {
        SearchOutput::NotSpawned => Err(SearchFailure::Spawn),
        SearchOutput::Exited { code, stdout } => {
            if code.is_none() {
                Err(SearchFailure::AbnormalExit)
            } else {
                Ok(parse_search_output(stdout.as_str()))
            }
        },
    }
}

} // verus!
