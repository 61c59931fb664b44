//! The command line that opens an editor at a match.

use crate::search::{Invocation, MatchRecord, MatchView};
use crate::text::{decimal, push_decimal, same_text, strings_view};
use vstd::prelude::*;
use vstd::string::StringExecFns;

verus! {

/// The argument that makes `editor` jump to a line and column, for the
/// editors that are known to take one: `vim` and `nvim` are told to go there
/// in Normal mode, `emacs` is given the position behind a plus sign.
pub open spec fn jump_argument(editor: Seq<char>, line: nat, column: nat) -> Option<Seq<char>> {
    if editor == "vim"@ || editor == "nvim"@ {
        Some("+normal "@ + decimal(line) + "G"@ + decimal(column) + "|"@)
    } else if editor == "emacs"@ {
        Some("+"@ + decimal(line) + ":"@ + decimal(column))
    } else {
        None
    }
}

/// The arguments `editor` is started with to open `record`: the jump
/// argument, if the editor takes one, then the path of the file.
pub open spec fn editor_arguments(editor: Seq<char>, record: MatchView) -> Seq<Seq<char>> {
    match jump_argument(editor, record.line, record.column) {
        Some(jump) => seq![jump, record.path],
        None => seq![record.path],
    }
}

/// The command that opens `record` in `editor`.
pub fn editor_command(editor: &str, record: &MatchRecord) -> (command: Invocation)
    ensures
        command.program@ == editor@,
        strings_view(command.args@) == editor_arguments(editor@, record@),
{
    let mut args: Vec<String> = Vec::new();
    if same_text(editor, "vim") || same_text(editor, "nvim") {
        let mut jump = "+normal ".to_owned();
        push_decimal(&mut jump, record.line);
        jump.append("G");
        push_decimal(&mut jump, record.column);
        jump.append("|");
        args.push(jump);
    } else if same_text(editor, "emacs") {
        let mut jump = "+".to_owned();
        push_decimal(&mut jump, record.line);
        jump.append(":");
        push_decimal(&mut jump, record.column);
        args.push(jump);
    }
    args.push(record.path.clone());
    assert(strings_view(args@) =~= editor_arguments(editor@, record@));
    Invocation { program: editor.to_owned(), args }
}

} // verus!
