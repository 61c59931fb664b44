//! The preview: a window of lines around a match.

use crate::search::MatchRecord;
use crate::text::strings_view;
use vstd::prelude::*;
use vstd::string::StringExecFns;

verus! {

/// How many lines of a file the preview shows before the matched line.
pub const LINES_BEFORE: usize = 25;

/// How many lines of a file the preview shows at most.
pub const WINDOW_LINES: usize = 50;

/// The 0-based index of the first line of the window around the 1-based
/// line `line`.
pub open spec fn window_start(line: nat) -> nat {
    if line > LINES_BEFORE {
        (line - LINES_BEFORE) as nat
    } else {
        0
    }
}

/// The 0-based index just behind the last line of the window around the
/// 1-based line `line`.
pub open spec fn window_end(line: nat) -> nat {
    window_start(line) + WINDOW_LINES as nat
}

/// The lines of `lines` that fall into the window around line `line`.
pub open spec fn window_lines(lines: Seq<Seq<char>>, line: nat) -> Seq<Seq<char>> {
    let start = if window_start(line) < lines.len() {
        window_start(line)
    } else {
        lines.len()
    };
    let end = if window_end(line) < lines.len() {
        window_end(line)
    } else {
        lines.len()
    };
    lines.subrange(start as int, end as int)
}

/// The 1-based position of line `line` within its window.
pub open spec fn highlighted_line(line: nat) -> nat {
    (line - window_start(line)) as nat
}

/// `lines` with a line feed between each two neighbours.
pub open spec fn join_lines(lines: Seq<Seq<char>>) -> Seq<char>
    decreases lines.len(),
{
    if lines.len() == 0 {
        Seq::empty()
    } else if lines.len() == 1 {
        lines[0]
    } else {
        join_lines(lines.drop_last()) + seq!['\n'] + lines.last()
    }
}

/// The text of a preview and the 1-based position of the matched line in it.
#[derive(Debug, Clone, PartialEq, Eq)]
pub struct Preview {
    pub text: String,
    pub line: usize,
}

/// The bounds of the window around the 1-based line `line`, as 0-based line
/// indices: the first line of the window and the one behind its last. The
/// end stops at the largest `usize` where the exact value would not fit.
pub fn preview_window(line: usize) -> (window: (usize, usize))
    ensures
        window.0 == window_start(line as nat),
        window.1 == if window_end(line as nat) <= usize::MAX {
            window_end(line as nat)
        } else {
            usize::MAX as nat
        },
{
    let start = if line > LINES_BEFORE {
        line - LINES_BEFORE
    } else {
        0
    };
    let end = if start <= usize::MAX - WINDOW_LINES {
        start + WINDOW_LINES
    } else {
        usize::MAX
    };
    (start, end)
}

/// Builds the preview of a match from the lines of its file.
///
/// With the file at hand the text is the window of lines around the match,
/// joined by line feeds, and the position is that of the matched line within
/// the window, whether or not the file is long enough to hold it. Without
/// the file (`None`: it could not be opened) the preview is empty.
pub fn build_preview(record: &MatchRecord, file: Option<&Vec<String>>) -> (preview: Preview)
    ensures
        match file {
            Some(lines) => preview.text@ == join_lines(
                window_lines(strings_view(lines@), record@.line),
            ) && preview.line == highlighted_line(record@.line),
            None => preview.text@ == Seq::<char>::empty() && preview.line == 0,
        },
{
    let lines = match file {
        Some(lines) => lines,
        None => {
            return Preview { text: String::new(), line: 0 };
        },
    };
    let (first, behind) = preview_window(record.line);
    let start = if first < lines.len() {
        first
    } else {
        lines.len()
    };
    let end = if behind < lines.len() {
        behind
    } else {
        lines.len()
    };
    let ghost all = strings_view(lines@);
    let ghost shown = window_lines(all, record@.line);
    assert(shown == all.subrange(start as int, end as int));
    let mut text = String::new();
    let mut i: usize = start;
    while i < end
        invariant
            start <= i <= end <= lines.len(),
            all == strings_view(lines@),
            shown == all.subrange(start as int, end as int),
            text@ == join_lines(shown.take(i - start)),
        decreases end - i,
    {
        proof {
            let upto = shown.take(i - start + 1);
            assert(upto.drop_last() =~= shown.take(i - start));
            assert(upto.last() == lines@[i as int]@);
            reveal_strlit("\n");
            assert("\n"@ =~= seq!['\n']);
        }
        if i > start {
            text.append("\n");
        }
        text.append(lines[i].as_str());
        proof {
            if i == start {
                assert(shown.take(0) =~= Seq::<Seq<char>>::empty());
                assert(text@ =~= lines@[i as int]@);
            }
        }
        i += 1;
    }
    assert(shown.take(end - start) =~= shown);
    Preview { text, line: record.line - first }
}

} // verus!
