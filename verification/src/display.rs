//! What the panes show of the state, as text.

use crate::app::{App, AppView, Mode, Window, OPTION_COUNT};
use crate::search::{is_position, parse_line, MatchRecord, MatchView};
use crate::text::{decimal, lemma_decimal_round_trip, lemma_find_at, push_decimal};
use vstd::prelude::*;
use vstd::string::StringExecFns;

verus! {

/// The name of the mode as the status line shows it. It is shown only while
/// the Search pane is focused.
pub open spec fn mode_text(s: AppView) -> Seq<char> {
    if s.window != Window::Search {
        ""@
    } else if s.search.mode == Mode::Normal {
        "NORMAL"@
    } else {
        "INSERT"@
    }
}

/// The label of entry `index` of the options pane.
pub open spec fn option_text(index: nat) -> Seq<char> {
    if index == 0 {
        "Smart case"@
    } else if index == 1 {
        "Hidden files"@
    } else {
        "Column numbers"@
    }
}

/// A match as one line of the result list: path, line, column and text with
/// colons between them, the form in which the search tool printed it.
pub open spec fn record_text(record: MatchView) -> Seq<char> {
    record.path + ":"@ + decimal(record.line) + ":"@ + decimal(record.column) + ":"@ + record.text
}

/// A line of the result list reads back as the match it was written for:
/// for a match whose path holds no colon and whose line and column are
/// positive and fit a `usize`, reading its line gives the match itself.
pub proof fn lemma_record_text_parses(record: MatchView)
    requires
        record.well_formed(),
        record.line <= usize::MAX,
        record.column <= usize::MAX,
        forall|i: int| 0 <= i < record.path.len() ==> record.path[i] != ':',
    ensures
        parse_line(record_text(record)) == Some(record),
{
    reveal_strlit(":");
    let colon = ":"@;
    assert(colon.len() == 1 && colon[0] == ':');
    let row = decimal(record.line);
    let col = decimal(record.column);
    lemma_decimal_round_trip(record.line);
    lemma_decimal_round_trip(record.column);
    let line = record_text(record);
    let a = record.path.len() as int;
    let b = a + 1 + row.len();
    let c = b + 1 + col.len();
    assert(line.len() == c + 1 + record.text.len());
    assert forall|i: int| 0 <= i < a implies line[i] != ':' by {
        assert(line[i] == record.path[i]);
    }
    assert(line[a] == ':');
    assert forall|i: int| a + 1 <= i < b implies line[i] != ':' by {
        assert(line[i] == row[i - a - 1]);
    }
    assert(line[b] == ':');
    assert forall|i: int| b + 1 <= i < c implies line[i] != ':' by {
        assert(line[i] == col[i - b - 1]);
    }
    assert(line[c] == ':');
    lemma_find_at(line, ':', 0, a);
    lemma_find_at(line, ':', a + 1, b);
    lemma_find_at(line, ':', b + 1, c);
    assert(line.subrange(a + 1, b) =~= row);
    assert(line.subrange(b + 1, c) =~= col);
    assert(line.take(a) =~= record.path);
    assert(line.skip(c + 1) =~= record.text);
    assert(is_position(row));
    assert(is_position(col));
}

/// The name of the mode for the status line.
pub fn mode_label(app: &App) -> (label: &'static str)
    ensures
        label@ == mode_text(app@),
{
    match app.window {
        Window::Search => match app.search.mode {
            Mode::Normal => "NORMAL",
            Mode::Insert => "INSERT",
        },
        _ => "",
    }
}

/// The label of entry `index` of the options pane, or `None` if the pane has
/// no such entry.
pub fn option_label(index: usize) -> (label: Option<&'static str>)
    ensures
        index < OPTION_COUNT <==> label.is_some(),
        label matches Some(text) ==> text@ == option_text(index as nat),
{
    if index == 0 {
        Some("Smart case")
    } else if index == 1 {
        Some("Hidden files")
    } else if index == 2 {
        Some("Column numbers")
    } else {
        None
    }
}

/// A match as one line of the result list.
pub fn result_line(record: &MatchRecord) -> (line: String)
    ensures
        line@ == record_text(record@),
{
    let mut line = record.path.clone();
    line.append(":");
    push_decimal(&mut line, record.line);
    line.append(":");
    push_decimal(&mut line, record.column);
    line.append(":");
    line.append(record.text.as_str());
    line
}

} // verus!
