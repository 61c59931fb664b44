//! The application state: what is focused, what has been typed, what was
//! found, and the invariants that tie these together.

use crate::search::{records_view, MatchRecord, MatchView};
use vstd::prelude::*;

verus! {

/// How many entries the options pane lists.
pub const OPTION_COUNT: usize = 3;

/// Whether character keys are commands or text.
#[derive(Debug, Clone, Copy, PartialEq, Eq, Structural)]
pub enum Mode {
    Normal,
    Insert,
}

/// The pane that receives keystrokes.
#[derive(Debug, Clone, Copy, PartialEq, Eq, Structural)]
pub enum Window {
    Options,
    Search,
    Command,
}

/// The query line, the matches it produced and the preview of the selected
/// match.
#[derive(Debug, Clone, PartialEq, Eq)]
pub struct Search {
    /// Where in `query` the next edit lands.
    pub cursor: usize,
    pub query: Vec<char>,
    pub mode: Mode,
    pub result: Vec<MatchRecord>,
    /// The lines around the selected match, joined by newlines.
    pub preview: String,
    /// The 1-based position of the matched line within `preview`; 0 when
    /// there is none.
    pub line: usize,
    /// The index of the selected match in `result`.
    pub scroll: usize,
}

/// The command line opened with `:`.
#[derive(Debug, Clone, PartialEq, Eq)]
pub struct Command {
    pub cursor: usize,
    pub query: Vec<char>,
}

/// The options pane.
#[derive(Debug, Clone, Copy, PartialEq, Eq)]
pub struct Options {
    /// The index of the selected entry, below `OPTION_COUNT`.
    pub scroll: usize,
}

/// Everything the tool knows between two keystrokes.
#[derive(Debug, Clone, PartialEq, Eq)]
pub struct App {
    /// The keys of a multi-key command typed so far.
    pub vi_command: String,
    /// Cleared when the user asks to leave.
    pub running: bool,
    pub window: Window,
    pub command: Command,
    pub search: Search,
    pub options: Options,
}

/// [`Search`] as a mathematical value.
pub struct SearchView {
    pub cursor: nat,
    pub query: Seq<char>,
    pub mode: Mode,
    pub result: Seq<MatchView>,
    pub preview: Seq<char>,
    pub line: nat,
    pub scroll: nat,
}

/// [`Command`] as a mathematical value.
pub struct CommandView {
    pub cursor: nat,
    pub query: Seq<char>,
}

/// [`Options`] as a mathematical value.
pub struct OptionsView {
    pub scroll: nat,
}

/// [`App`] as a mathematical value.
pub struct AppView {
    pub vi_command: Seq<char>,
    pub running: bool,
    pub window: Window,
    pub command: CommandView,
    pub search: SearchView,
    pub options: OptionsView,
}

impl View for Search {
    type V = SearchView;

    open spec fn view(&self) -> SearchView {
        SearchView {
            cursor: self.cursor as nat,
            query: self.query@,
            mode: self.mode,
            result: records_view(self.result@),
            preview: self.preview@,
            line: self.line as nat,
            scroll: self.scroll as nat,
        }
    }
}

impl View for Command {
    type V = CommandView;

    open spec fn view(&self) -> CommandView {
        CommandView { cursor: self.cursor as nat, query: self.query@ }
    }
}

impl View for Options {
    type V = OptionsView;

    open spec fn view(&self) -> OptionsView {
        OptionsView { scroll: self.scroll as nat }
    }
}

impl View for App {
    type V = AppView;

    open spec fn view(&self) -> AppView {
        AppView {
            vi_command: self.vi_command@,
            running: self.running,
            window: self.window,
            command: self.command@,
            search: self.search@,
            options: self.options@,
        }
    }
}

impl SearchView {
    /// An empty query in Normal mode with nothing found.
    pub open spec fn empty() -> SearchView {
        SearchView {
            cursor: 0,
            query: Seq::empty(),
            mode: Mode::Normal,
            result: Seq::empty(),
            preview: Seq::empty(),
            line: 0,
            scroll: 0,
        }
    }

    /// The cursor lies within the query or just behind it, the selection
    /// indexes a match (or is 0 when there is none), and every match counts
    /// its line and column from one.
    pub open spec fn well_formed(self) -> bool {
        &&& self.cursor <= self.query.len()
        &&& if self.result.len() == 0 {
            self.scroll == 0
        } else {
            self.scroll < self.result.len()
        }
        &&& forall|i: int| 0 <= i < self.result.len() ==> (#[trigger] self.result[i]).well_formed()
    }
}

impl CommandView {
    /// A closed command line.
    pub open spec fn empty() -> CommandView {
        CommandView { cursor: 0, query: Seq::empty() }
    }

    /// A command line that has just been opened: the colon alone, the cursor
    /// behind it.
    pub open spec fn opened() -> CommandView {
        CommandView { cursor: 1, query: seq![':'] }
    }

    /// The cursor sits at the end of the buffer.
    pub open spec fn well_formed(self) -> bool {
        self.cursor == self.query.len()
    }

    /// The buffer starts with the colon that opened it.
    pub open spec fn is_open(self) -> bool {
        self.query.len() >= 1 && self.query[0] == ':'
    }
}

impl OptionsView {
    pub open spec fn well_formed(self) -> bool {
        self.scroll < OPTION_COUNT
    }
}

impl AppView {
    /// The state a fresh start begins in: the Search pane in Normal mode,
    /// nothing typed, nothing found.
    pub open spec fn fresh() -> AppView {
        AppView {
            vi_command: Seq::empty(),
            running: true,
            window: Window::Search,
            command: CommandView::empty(),
            search: SearchView::empty(),
            options: OptionsView { scroll: 0 },
        }
    }

    /// The invariant of the state machine. Besides the invariants of the
    /// three panes it ties the command line to the focus: the buffer holds
    /// the colon and what follows it exactly while the Command pane is
    /// focused, and is empty otherwise.
    pub open spec fn well_formed(self) -> bool {
        &&& self.search.well_formed()
        &&& self.command.well_formed()
        &&& self.options.well_formed()
        &&& if self.window == Window::Command {
            self.command.is_open()
        } else {
            self.command.query.len() == 0
        }
    }
}

impl Default for Search {
    fn default() -> (search: Search)
        ensures
            search@ == SearchView::empty(),
    {
        let search = Search {
            cursor: 0,
            query: Vec::new(),
            mode: Mode::Normal,
            result: Vec::new(),
            preview: String::new(),
            line: 0,
            scroll: 0,
        };
        assert(search@.result =~= Seq::empty());
        search
    }
}

impl Default for Command {
    fn default() -> (command: Command)
        ensures
            command@ == CommandView::empty(),
    {
        Command { cursor: 0, query: Vec::new() }
    }
}

impl Default for Options {
    fn default() -> (options: Options)
        ensures
            options@ == (OptionsView { scroll: 0 }),
    {
        Options { scroll: 0 }
    }
}

impl Default for App {
    fn default() -> (app: App)
        ensures
            app@ == AppView::fresh(),
            app.well_formed(),
    {
        App {
            vi_command: String::new(),
            running: true,
            window: Window::Search,
            command: Command::default(),
            search: Search::default(),
            options: Options::default(),
        }
    }
}

impl Search {
    /// Whether the state satisfies [`SearchView::well_formed`].
    pub fn is_well_formed(&self) -> (ok: bool)
        ensures
            ok == self@.well_formed(),
    {
        if self.cursor > self.query.len() {
            return false;
        }
        if self.result.len() == 0 {
            if self.scroll != 0 {
                return false;
            }
        } else if self.scroll >= self.result.len() {
            return false;
        }
        let mut i: usize = 0;
        while i < self.result.len()
            invariant
                i <= self.result.len(),
                forall|j: int| 0 <= j < i ==> (#[trigger] self@.result[j]).well_formed(),
            decreases self.result.len() - i,
        {
            if self.result[i].line == 0 || self.result[i].column == 0 {
                assert(!self@.result[i as int].well_formed());
                return false;
            }
            i += 1;
        }
        true
    }
}

impl App {
    /// The invariant every function of the state machine asks for and keeps.
    pub open spec fn well_formed(&self) -> bool {
        self@.well_formed()
    }

    /// Whether the state satisfies the invariant. States built by this crate
    /// always do; one assembled field by field may not.
    pub fn is_well_formed(&self) -> (ok: bool)
        ensures
            ok == self.well_formed(),
    {
        if !self.search.is_well_formed() {
            return false;
        }
        if self.command.cursor != self.command.query.len() {
            return false;
        }
        if self.options.scroll >= OPTION_COUNT {
            return false;
        }
        match self.window {
            Window::Command => self.command.query.len() >= 1 && self.command.query[0] == ':',
            _ => self.command.query.len() == 0,
        }
    }

    /// The periodic timer hook. It changes nothing.
    pub fn tick(&self) {
    }

    /// Asks the event loop to stop.
    pub fn quit(&mut self)
        ensures
            final(self)@ == (AppView { running: false, ..old(self)@ }),
    {
        self.running = false;
    }
}

} // verus!
