//! The steps of keystroke handling that have a name of their own.

use crate::app::{App, AppView, SearchView, Window};
use crate::editor::{editor_arguments, editor_command};
use crate::handler::Action;
use crate::preview::{build_preview, highlighted_line, join_lines, preview_window, window_end, window_lines, window_start};
use crate::search::{
    lemma_records_well_formed, lines_of, records_view, search_outcome, search_results, Invocation,
    MatchView, SearchOutput,
};
use crate::text::{chars_of, strings_view};
use vstd::prelude::*;

verus! {

/// Resolves the pending multi-key command: carries it out if it is complete,
/// keeps it if it can still grow into a command, and forgets it otherwise.
pub fn handle_vi_command(app: &mut App)
    ensures
        final(app)@ == old(app)@.vi_resolved(),
{
    let keys = chars_of(app.vi_command.as_str());
    if keys.len() == 2 && keys[0] == 'g' && keys[1] == 'g' {
        assert(keys@ =~= seq!['g', 'g']);
        app.search.scroll = 0;
        app.vi_command = String::new();
    } else if keys.len() == 2 && keys[0] == 'd' && keys[1] == 'd' {
        assert(keys@ =~= seq!['d', 'd']);
        app.search.query.clear();
        app.search.cursor = 0;
        app.search.result.clear();
        app.search.scroll = 0;
        app.vi_command = String::new();
        assert(app.search@.result =~= Seq::empty());
    } else if keys.len() == 0 {
    } else if keys.len() == 1 && (keys[0] == 'g' || keys[0] == 'd') {
        assert(keys@ =~= seq!['g'] || keys@ =~= seq!['d']);
    } else {
        assert(keys@ != seq!['g', 'g'] && keys@ != seq!['d', 'd'] && keys@ != seq!['g'] && keys@
            != seq!['d']) by {
            assert(seq!['g', 'g'].len() == 2 && seq!['g', 'g'][0] == 'g' && seq!['g', 'g'][1]
                == 'g');
            assert(seq!['d', 'd'].len() == 2 && seq!['d', 'd'][0] == 'd' && seq!['d', 'd'][1]
                == 'd');
            assert(seq!['g'].len() == 1 && seq!['g'][0] == 'g');
            assert(seq!['d'].len() == 1 && seq!['d'][0] == 'd');
        }
        app.vi_command = String::new();
    }
}

/// Closes the command line and carries out the command it held. `:q` stops
/// the run here. Saving and deleting the session are returned as the work to
/// do; where a quit is to follow them the run goes on until
/// `session_stored` has been told that they were done.
pub fn handle_exit_commands(app: &mut App) -> (action: Action)
    ensures
        (final(app)@, action) == old(app)@.command_executed(),
{
    let n = app.command.query.len();
    let mut action = Action::Idle;
    if n == 2 && app.command.query[0] == ':' && app.command.query[1] == 'q' {
        assert(app.command.query@ =~= seq![':', 'q']);
        app.quit();
    } else if n == 2 && app.command.query[0] == ':' && app.command.query[1] == 'w' {
        assert(app.command.query@ =~= seq![':', 'w']);
        action = Action::SaveSession;
    } else if n == 3 && app.command.query[0] == ':' && app.command.query[1] == 'w'
        && app.command.query[2] == 'q' {
        assert(app.command.query@ =~= seq![':', 'w', 'q']);
        action = Action::SaveSessionAndQuit;
    } else if n == 3 && app.command.query[0] == ':' && app.command.query[1] == 'q'
        && app.command.query[2] == '!' {
        assert(app.command.query@ =~= seq![':', 'q', '!']);
        action = Action::DeleteSessionAndQuit;
    } else {
        assert(app.command.query@ != seq![':', 'q'] && app.command.query@ != seq![':', 'w']
            && app.command.query@ != seq![':', 'w', 'q'] && app.command.query@ != seq![
            ':',
            'q',
            '!',
        ]) by {
            let q = seq![':', 'q'];
            let w = seq![':', 'w'];
            let wq = seq![':', 'w', 'q'];
            let qx = seq![':', 'q', '!'];
            assert(q.len() == 2 && q[0] == ':' && q[1] == 'q');
            assert(w.len() == 2 && w[0] == ':' && w[1] == 'w');
            assert(wq.len() == 3 && wq[0] == ':' && wq[1] == 'w' && wq[2] == 'q');
            assert(qx.len() == 3 && qx[0] == ':' && qx[1] == 'q' && qx[2] == '!');
        }
    }
    app.command.query.clear();
    app.command.cursor = 0;
    app.window = Window::Search;
    action
}


/// Takes in what came of the save or the delete that `action` asked for:
/// `stored` says whether it was done. The run stops exactly if it was done
/// and the action was one with a quit to follow; after a failure the run
/// goes on, with the state as it was.
pub fn session_stored(app: &mut App, action: Action, stored: bool)
    ensures
        final(app)@ == old(app)@.after_store(action, stored),
        old(app).well_formed() ==> final(app).well_formed(),
{
    if stored {
        match action {
            Action::SaveSessionAndQuit => app.quit(),
            Action::DeleteSessionAndQuit => app.quit(),
            _ => {},
        }
    }
}

impl SearchView {
    /// The selected match, if there is one.
    pub open spec fn selected(self) -> Option<MatchView> {
        if self.scroll < self.result.len() {
            Some(self.result[self.scroll as int])
        } else {
            None
        }
    }

    /// The state with `records` in place of the matches. The selection stays
    /// where it is if it still indexes a match, and returns to 0 if not.
    pub open spec fn received(self, records: Seq<MatchView>) -> SearchView {
        SearchView {
            result: records,
            scroll: if self.scroll < records.len() {
                self.scroll
            } else {
                0
            },
            ..self
        }
    }

    /// The state with the preview built from the lines of the selected
    /// match's file. Without a selected match, or without the file, the
    /// preview is empty.
    pub open spec fn previewed(self, file: Option<Seq<Seq<char>>>) -> SearchView {
        match (self.selected(), file) {
            (Some(record), Some(lines)) => SearchView {
                preview: join_lines(window_lines(lines, record.line)),
                line: highlighted_line(record.line),
                ..self
            },
            _ => SearchView { preview: Seq::empty(), line: 0, ..self },
        }
    }
}

impl AppView {
    /// The state after the search tool has reported `records`.
    pub open spec fn results_received(self, records: Seq<MatchView>) -> AppView {
        self.with_search(self.search.received(records))
    }

    /// The state after the preview has been refreshed from the lines of the
    /// selected match's file. While the Command pane is focused nothing is
    /// refreshed.
    pub open spec fn preview_refreshed(self, file: Option<Seq<Seq<char>>>) -> AppView {
        if self.window == Window::Command {
            self
        } else {
            self.with_search(self.search.previewed(file))
        }
    }
}

/// The matches for `query` that a run of the search tool amounts to. An
/// empty query has none, whatever the tool did; a run that failed gives
/// none.
pub open spec fn found(query: Seq<char>, output: SearchOutput) -> Seq<MatchView> {
    if query.len() == 0 {
        Seq::empty()
    } else {
        match search_outcome(output) {
            Ok(records) => records,
            Err(_) => Seq::empty(),
        }
    }
}

/// The file to read for the preview and the lines of it that are needed.
#[derive(Debug, Clone, PartialEq, Eq)]
pub struct PreviewRequest {
    pub path: String,
    /// The 0-based index of the first line the preview shows.
    pub start: usize,
    /// The 0-based index behind the last line the preview shows; lines from
    /// here on need not be read.
    pub end: usize,
}

/// Takes in what a run of the search tool gave: the matches are replaced by
/// the records of its output, or by none if the query is empty or the run
/// failed.
pub fn get_results(app: &mut App, output: &SearchOutput)
    ensures
        final(app)@ == old(app)@.results_received(found(old(app)@.search.query, *output)),
        old(app).well_formed() ==> final(app).well_formed(),
{
    let records = if app.search.query.len() == 0 {
        Vec::new()
    } else {
        match search_results(output) {
            Ok(records) => records,
            Err(_) => Vec::new(),
        }
    };
    proof {
        assert(records_view(records@) =~= found(app@.search.query, *output));
        if let SearchOutput::Exited { code, stdout } = output {
            lemma_records_well_formed(lines_of(stdout@));
        }
    }
    if app.search.scroll >= records.len() {
        app.search.scroll = 0;
    }
    app.search.result = records;
}

/// The command that opens the selected match in the editor named by
/// `editor`. There is none if no editor is configured or nothing is
/// selected.
pub fn open_editor(app: &App, editor: Option<&str>) -> (command: Option<Invocation>)
    ensures
        match (editor, app@.search.selected()) {
            (Some(editor), Some(record)) => command matches Some(invocation)
                && invocation.program@ == editor@ && strings_view(invocation.args@)
                == editor_arguments(editor@, record),
            _ => command.is_none(),
        },
{
    match editor {
        Some(editor) => {
            if app.search.scroll < app.search.result.len() {
                Some(editor_command(editor, &app.search.result[app.search.scroll]))
            } else {
                None
            }
        },
        None => None,
    }
}

/// What to read for the next preview: the file of the selected match and
/// the window of lines around the match. There is nothing to read while the
/// Command pane is focused or nothing is selected.
pub fn preview_request(app: &App) -> (request: Option<PreviewRequest>)
    ensures
        match app@.search.selected() {
            Some(record) => if app.window == Window::Command {
                request.is_none()
            } else {
                request matches Some(r) && r.path@ == record.path && r.start == window_start(
                    record.line,
                ) && r.end == if window_end(record.line) <= usize::MAX {
                    window_end(record.line)
                } else {
                    usize::MAX as nat
                }
            },
            None => request.is_none(),
        },
{
    if app.search.scroll < app.search.result.len() {
        match app.window {
            Window::Command => None,
            _ => {
                let record = &app.search.result[app.search.scroll];
                let (start, end) = preview_window(record.line);
                Some(PreviewRequest { path: record.path.clone(), start, end })
            },
        }
    } else {
        None
    }
}

/// Refreshes the preview after a keystroke, from the lines of the selected
/// match's file (`None` if the file could not be read). While the Command
/// pane is focused the preview stays as it is.
pub fn get_preview(app: &mut App, file: Option<&Vec<String>>)
    ensures
        final(app)@ == old(app)@.preview_refreshed(
            match file {
                Some(lines) => Some(strings_view(lines@)),
                None => None,
            },
        ),
        old(app).well_formed() ==> final(app).well_formed(),
{
    match app.window {
        Window::Command => {},
        _ => {
            if app.search.scroll < app.search.result.len() {
                let preview = build_preview(&app.search.result[app.search.scroll], file);
                app.search.preview = preview.text;
                app.search.line = preview.line;
            } else {
                app.search.preview = String::new();
                app.search.line = 0;
            }
        },
    }
}

} // verus!
