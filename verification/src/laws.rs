//! What holds of the state machine as a whole.

use crate::app::{AppView, Mode, Window};
use crate::handler::Action;
use crate::key::{KeyCode, KeyEvent};
use crate::search::MatchView;
use crate::session::lemma_session_round_trip;
use crate::transition::transition;
use vstd::prelude::*;

verus! {

/// One thing that happens to the state: a keystroke, the search tool
/// reporting its matches, the preview being refreshed from a file, or the
/// outcome of a save or delete of the session coming in.
pub enum Event {
    Key(KeyEvent),
    Results(Seq<MatchView>),
    Preview(Option<Seq<Seq<char>>>),
    Stored(Action, bool),
}

impl Event {
    /// Whether the event can occur: matches that are reported count their
    /// lines and columns from one.
    pub open spec fn admissible(self) -> bool {
        match self {
            Event::Results(records) => forall|i: int|
                0 <= i < records.len() ==> (#[trigger] records[i]).well_formed(),
            _ => true,
        }
    }

    /// Whether the event is a keystroke that moves the selection up or down
    /// the matches in the Search pane: an arrow key, or the key `j` or `k`
    /// in Normal mode.
    pub open spec fn navigates(self, mode: Mode) -> bool {
        match self {
            Event::Key(key) => key.code == KeyCode::Up || key.code == KeyCode::Down || (mode
                == Mode::Normal && (key.code == KeyCode::Char('j') || key.code == KeyCode::Char(
                'k',
            ))),
            _ => false,
        }
    }
}

/// The state after one event.
pub open spec fn after(s: AppView, event: Event) -> AppView {
    match event {
        Event::Key(key) => transition(s, key).0,
        Event::Results(records) => s.results_received(records),
        Event::Preview(file) => s.preview_refreshed(file),
        Event::Stored(action, stored) => s.after_store(action, stored),
    }
}

/// The state after a sequence of events, first to last.
pub open spec fn run(s: AppView, events: Seq<Event>) -> AppView
    decreases events.len(),
{
    if events.len() == 0 {
        s
    } else {
        after(run(s, events.drop_last()), events.last())
    }
}

/// No keystroke leads out of the well-formed states: after it the cursor
/// still lies within the query, the selection still indexes a match, and the
/// command line is still open exactly while the Command pane is focused.
pub proof fn lemma_transition_keeps_well_formed(s: AppView, key: KeyEvent)
    requires
        s.well_formed(),
    ensures
        transition(s, key).0.well_formed(),
{
}

/// No event leads out of the well-formed states.
pub proof fn lemma_event_keeps_well_formed(s: AppView, event: Event)
    requires
        s.well_formed(),
        event.admissible(),
    ensures
        after(s, event).well_formed(),
{
    if let Event::Key(key) = event {
        lemma_transition_keeps_well_formed(s, key);
    }
}

/// Whatever happens, and in whatever order, the state stays well-formed.
pub proof fn lemma_run_keeps_well_formed(s: AppView, events: Seq<Event>)
    requires
        s.well_formed(),
        forall|i: int| 0 <= i < events.len() ==> (#[trigger] events[i]).admissible(),
    ensures
        run(s, events).well_formed(),
    decreases events.len(),
{
    if events.len() > 0 {
        lemma_run_keeps_well_formed(s, events.drop_last());
        lemma_event_keeps_well_formed(run(s, events.drop_last()), events.last());
    }
}

/// The cursor never leaves the query: after every event of a run from a
/// well-formed state it is at least 0 and at most the length of the query.
/// This holds of editing in Insert mode in particular.
pub proof fn lemma_cursor_stays_in_query(s: AppView, events: Seq<Event>, done: int)
    requires
        s.well_formed(),
        forall|i: int| 0 <= i < events.len() ==> (#[trigger] events[i]).admissible(),
        0 <= done <= events.len(),
    ensures
        0 <= run(s, events.take(done)).search.cursor <= run(
            s,
            events.take(done),
        ).search.query.len(),
{
    lemma_run_keeps_well_formed(s, events.take(done));
}

/// However the selection is moved up and down a list of matches, it stays
/// on one of them: from a well-formed state with the Search pane focused and
/// `N > 0` matches, any sequence of navigation keys leaves the matches as
/// they are and the selection below `N`.
pub proof fn lemma_navigation_stays_in_range(s: AppView, events: Seq<Event>)
    requires
        s.well_formed(),
        s.window == Window::Search,
        s.search.result.len() > 0,
        forall|i: int| 0 <= i < events.len() ==> (#[trigger] events[i]).navigates(s.search.mode),
    ensures
        run(s, events).search.result == s.search.result,
        0 <= run(s, events).search.scroll < s.search.result.len(),
        run(s, events).window == Window::Search,
        run(s, events).search.mode == s.search.mode,
        run(s, events).search.query == s.search.query,
        run(s, events).search.cursor == s.search.cursor,
    decreases events.len(),
{
    if events.len() > 0 {
        lemma_navigation_stays_in_range(s, events.drop_last());
        assert(events.last().navigates(s.search.mode));
    }
}

/// Moving the selection wraps exactly at the ends of the list: from a
/// well-formed state with the Search pane focused and `N > 0` matches, Down
/// on the last match selects the first and otherwise the next; Up on the
/// first match selects the last and otherwise the one before.
pub proof fn lemma_selection_wraps(s: AppView)
    requires
        s.well_formed(),
        s.window == Window::Search,
        s.search.result.len() > 0,
    ensures
        transition(s, KeyEvent { code: KeyCode::Down, ctrl: false }).0.search.scroll == if s.search.scroll
            == s.search.result.len() - 1 {
            0
        } else {
            s.search.scroll + 1
        },
        transition(s, KeyEvent { code: KeyCode::Up, ctrl: false }).0.search.scroll == if s.search.scroll
            == 0 {
            s.search.result.len() - 1
        } else {
            s.search.scroll - 1
        },
        transition(s, KeyEvent { code: KeyCode::Down, ctrl: false }).0.search.scroll == (
        s.search.scroll as int + 1) % (s.search.result.len() as int),
        transition(s, KeyEvent { code: KeyCode::Up, ctrl: false }).0.search.scroll == (
        s.search.scroll as int + s.search.result.len() as int - 1) % (s.search.result.len() as int),
{
    let n = s.search.result.len() as int;
    let x = s.search.scroll as int;
    assert((x + 1) % n == if x == n - 1 {
        0
    } else {
        x + 1
    }) by (nonlinear_arith)
        requires
            0 <= x < n,
    ;
    assert((x + n - 1) % n == if x == 0 {
        n - 1
    } else {
        x - 1
    }) by (nonlinear_arith)
        requires
            0 <= x < n,
    ;
}


/// `:w` writes a session that brings the state back: from a well-formed
/// state whose command line holds `:w`, Enter asks for the session to be
/// saved and does not stop the run, and a run that starts from the session of the
/// state then reached has the same query, cursor and mode, the Search pane
/// focused as after the command, and neither matches nor a preview.
pub proof fn lemma_write_then_start_restores(s: AppView)
    requires
        s.well_formed(),
        s.window == Window::Command,
        s.command.query == seq![':', 'w'],
    ensures
        ({
            let (saved, action) = transition(s, KeyEvent { code: KeyCode::Enter, ctrl: false });
            let restored = AppView::start(Some(saved.snapshot()));
            &&& action == Action::SaveSession
            &&& saved.running == s.running
            &&& restored.search.query == s.search.query
            &&& restored.search.cursor == s.search.cursor
            &&& restored.search.mode == s.search.mode
            &&& restored.window == saved.window
            &&& restored.window == Window::Search
            &&& restored.command == saved.command
            &&& restored.options == s.options
            &&& restored.search.result.len() == 0
            &&& restored.search.preview.len() == 0
            &&& restored.well_formed()
        }),
{
    let w = seq![':', 'w'];
    let q = seq![':', 'q'];
    assert(w[1] == 'w' && q[1] == 'q');
    assert(s.command.query != q);
    let key = KeyEvent { code: KeyCode::Enter, ctrl: false };
    assert(transition(s, key) == (s.command_closed(), Action::SaveSession));
    lemma_transition_keeps_well_formed(s, key);
    lemma_session_round_trip(s.command_closed());
}

/// `:wq` quits only after the save: from a state whose command line holds
/// `:wq`, Enter closes the command line, asks for the session to be saved
/// with a quit to follow, and leaves the run going or stopped as it was.
/// The run stops when the save is known to be done; if the save fails the
/// state stays as it is, still running if it was.
pub proof fn lemma_write_quit_stops_after_save(s: AppView)
    requires
        s.window == Window::Command,
        s.command.query == seq![':', 'w', 'q'],
    ensures
        ({
            let (closed, action) = transition(s, KeyEvent { code: KeyCode::Enter, ctrl: false });
            &&& action == Action::SaveSessionAndQuit
            &&& closed == s.command_closed()
            &&& closed.running == s.running
            &&& closed.after_store(action, true) == (AppView { running: false, ..closed })
            &&& closed.after_store(action, false) == closed
        }),
{
    let wq = seq![':', 'w', 'q'];
    assert(wq.len() == 3 && wq[1] == 'w' && wq[2] == 'q');
    assert(seq![':', 'q'].len() == 2);
    assert(seq![':', 'w'].len() == 2);
}

/// `:q!` gives the session up, and quits only after that: from a state
/// whose command line holds `:q!`, Enter closes the command line, asks for
/// the stored session to be deleted with a quit to follow, and leaves the
/// run going or stopped as it was. The run stops when the delete is known to
/// be done; if it fails the state stays as it is. A run that finds no
/// session starts fresh.
pub proof fn lemma_quit_bang_deletes_session(s: AppView)
    requires
        s.window == Window::Command,
        s.command.query == seq![':', 'q', '!'],
    ensures
        ({
            let (closed, action) = transition(s, KeyEvent { code: KeyCode::Enter, ctrl: false });
            &&& action == Action::DeleteSessionAndQuit
            &&& closed == s.command_closed()
            &&& closed.running == s.running
            &&& closed.after_store(action, true) == (AppView { running: false, ..closed })
            &&& closed.after_store(action, false) == closed
        }),
        AppView::start(None) == AppView::fresh(),
{
    let q = seq![':', 'q', '!'];
    assert(q.len() == 3 && q[1] == 'q' && q[2] == '!');
    assert(seq![':', 'q'].len() == 2);
    assert(seq![':', 'w'].len() == 2);
    assert(seq![':', 'w', 'q'][1] == 'w');
}

/// Only a save or a delete that was done, and that had a quit to follow,
/// stops the run through `after_store`; nothing else of the state changes
/// in any case.
pub proof fn lemma_store_outcome_only_stops(s: AppView, action: Action, stored: bool)
    ensures
        s.after_store(action, stored) == (AppView {
            running: s.after_store(action, stored).running,
            ..s
        }),
        s.after_store(action, stored).running == (s.running && !(stored && (action
            == Action::SaveSessionAndQuit || action == Action::DeleteSessionAndQuit))),
{
}

} // verus!
