//! The session: the part of the state that outlives a run.

use crate::app::{
    App, AppView, Command, CommandView, Mode, Options, OptionsView, Search, SearchView, Window,
    OPTION_COUNT,
};
use crate::text::chars_between;
use vstd::prelude::*;

verus! {

/// What is written to durable storage on save: the query and its cursor, the
/// mode, the focused pane, the command line and the two selections. The
/// matches and the preview are not part of it; they are found again by the
/// next search.
#[derive(Debug, Clone, PartialEq, Eq)]
pub struct Session {
    pub query: Vec<char>,
    pub cursor: usize,
    pub mode: Mode,
    /// The index of the selected match at the time of saving.
    pub scroll: usize,
    pub window: Window,
    pub command: Command,
    pub options: Options,
}

/// [`Session`] as a mathematical value.
pub struct SessionView {
    pub query: Seq<char>,
    pub cursor: nat,
    pub mode: Mode,
    pub scroll: nat,
    pub window: Window,
    pub command: CommandView,
    pub options: OptionsView,
}

impl View for Session {
    type V = SessionView;

    open spec fn view(&self) -> SessionView {
        SessionView {
            query: self.query@,
            cursor: self.cursor as nat,
            mode: self.mode,
            scroll: self.scroll as nat,
            window: self.window,
            command: self.command@,
            options: self.options@,
        }
    }
}

impl SessionView {
    /// Whether a state can be restored from this session: the cursor lies
    /// within the query, the selected option exists, and the command line is
    /// open exactly if the Command pane is focused.
    pub open spec fn valid(self) -> bool {
        &&& self.cursor <= self.query.len()
        &&& self.command.well_formed()
        &&& self.options.well_formed()
        &&& if self.window == Window::Command {
            self.command.is_open()
        } else {
            self.command.query.len() == 0
        }
    }

    /// The state this session restores to. Nothing has been found yet, so
    /// there are no matches, no preview, and the selection is at 0.
    pub open spec fn restored(self) -> AppView {
        AppView {
            vi_command: Seq::empty(),
            running: true,
            window: self.window,
            command: self.command,
            search: SearchView {
                cursor: self.cursor,
                query: self.query,
                mode: self.mode,
                result: Seq::empty(),
                preview: Seq::empty(),
                line: 0,
                scroll: 0,
            },
            options: self.options,
        }
    }
}

impl AppView {
    /// The session that saving this state writes.
    pub open spec fn snapshot(self) -> SessionView {
        SessionView {
            query: self.search.query,
            cursor: self.search.cursor,
            mode: self.search.mode,
            scroll: self.search.scroll,
            window: self.window,
            command: self.command,
            options: self.options,
        }
    }

    /// The state a run starts in: the one restored from the stored session,
    /// if there is one and it is valid, else the fresh state.
    pub open spec fn start(session: Option<SessionView>) -> AppView {
        match session {
            Some(session) => if session.valid() {
                session.restored()
            } else {
                AppView::fresh()
            },
            None => AppView::fresh(),
        }
    }
}

/// Saving a well-formed state and starting from what was saved brings back
/// the query, the cursor, the mode, the focused pane, the command line and
/// the selected option exactly. The matches and the preview do not come
/// back: the restored state has none, and its selection is at 0.
pub proof fn lemma_session_round_trip(app: AppView)
    requires
        app.well_formed(),
    ensures
        app.snapshot().valid(),
        AppView::start(Some(app.snapshot())).search.query == app.search.query,
        AppView::start(Some(app.snapshot())).search.cursor == app.search.cursor,
        AppView::start(Some(app.snapshot())).search.mode == app.search.mode,
        AppView::start(Some(app.snapshot())).window == app.window,
        AppView::start(Some(app.snapshot())).command == app.command,
        AppView::start(Some(app.snapshot())).options == app.options,
        AppView::start(Some(app.snapshot())).search.result.len() == 0,
        AppView::start(Some(app.snapshot())).search.preview.len() == 0,
        AppView::start(Some(app.snapshot())).search.scroll == 0,
        AppView::start(Some(app.snapshot())).running,
        AppView::start(Some(app.snapshot())).well_formed(),
{
}

/// Whatever the stored session holds, the state a run starts in is
/// well-formed and has neither matches nor a preview.
pub proof fn lemma_start_well_formed(session: Option<SessionView>)
    ensures
        AppView::start(session).well_formed(),
        AppView::start(session).search.result.len() == 0,
        AppView::start(session).search.preview.len() == 0,
{
}

impl Session {
    /// Whether a state can be restored from this session.
    pub fn is_valid(&self) -> (ok: bool)
        ensures
            ok == self@.valid(),
    {
        if self.cursor > self.query.len() {
            return false;
        }
        if self.command.cursor != self.command.query.len() {
            return false;
        }
        if self.options.scroll >= OPTION_COUNT {
            return false;
        }
        match self.window {
            Window::Command => self.command.query.len() >= 1 && self.command.query[0] == ':',
            _ => self.command.query.len() == 0,
        }
    }
}

impl App {
    /// The state a run starts in, given the session that was found in
    /// storage, if any. A session that is missing or not valid gives the
    /// fresh state.
    pub fn new(session: Option<Session>) -> (app: App)
        ensures
            app@ == AppView::start(
                match session {
                    Some(session) => Some(session@),
                    None => None,
                },
            ),
            app.well_formed(),
    {
        match session {
            Some(session) => {
                if session.is_valid() {
                    let app = App {
                        vi_command: String::new(),
                        running: true,
                        window: session.window,
                        command: session.command,
                        search: Search {
                            cursor: session.cursor,
                            query: session.query,
                            mode: session.mode,
                            result: Vec::new(),
                            preview: String::new(),
                            line: 0,
                            scroll: 0,
                        },
                        options: session.options,
                    };
                    assert(app.search@.result =~= Seq::empty());
                    app
                } else {
                    App::default()
                }
            },
            None => App::default(),
        }
    }

    /// The session to write to storage for this state.
    pub fn save(&self) -> (session: Session)
        ensures
            session@ == self@.snapshot(),
    {
        let query = chars_between(&self.search.query, 0, self.search.query.len());
        let command = chars_between(&self.command.query, 0, self.command.query.len());
        assert(query@ =~= self.search.query@);
        assert(command@ =~= self.command.query@);
        Session {
            query,
            cursor: self.search.cursor,
            mode: self.search.mode,
            scroll: self.search.scroll,
            window: self.window,
            command: Command { cursor: self.command.cursor, query: command },
            options: Options { scroll: self.options.scroll },
        }
    }
}

} // verus!
