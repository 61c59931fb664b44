//! The dispatch table of the state machine, as a function from a state and a
//! keystroke to the next state and the outside work the keystroke calls for.
//!
//! The table is keyed by the focused pane, then (in the Search pane) by the
//! mode, then by the key. Every decrement and every index is guarded: a rule
//! that cannot apply leaves the state as it is.

use crate::app::{AppView, CommandView, Mode, OptionsView, SearchView, Window, OPTION_COUNT};
use crate::handler::Action;
use crate::key::{KeyCode, KeyEvent};
use vstd::prelude::*;

verus! {

impl SearchView {
    /// The cursor one place to the left, or 0 if it is there already.
    pub open spec fn cursor_back(self) -> nat {
        if self.cursor > 0 {
            (self.cursor - 1) as nat
        } else {
            0
        }
    }

    /// Insert mode, a character: the cursor is clamped to the query, the
    /// character goes in at the cursor, the cursor moves behind it and the
    /// selection returns to the first match.
    pub open spec fn typed(self, c: char) -> SearchView {
        let at = if self.cursor > self.query.len() {
            self.query.len()
        } else {
            self.cursor
        };
        SearchView { query: self.query.insert(at as int, c), cursor: at + 1, scroll: 0, ..self }
    }

    /// Insert mode, Backspace: the character before the cursor goes, and the
    /// cursor with it; at the start of the query nothing changes.
    pub open spec fn backspaced(self) -> SearchView {
        if 0 < self.cursor <= self.query.len() {
            SearchView {
                query: self.query.remove(self.cursor - 1),
                cursor: (self.cursor - 1) as nat,
                ..self
            }
        } else {
            self
        }
    }

    /// Insert mode, Escape: back to Normal mode, the cursor one to the left.
    pub open spec fn escaped(self) -> SearchView {
        SearchView { mode: Mode::Normal, cursor: self.cursor_back(), ..self }
    }

    /// `i`: Insert mode at the cursor.
    pub open spec fn inserting(self) -> SearchView {
        SearchView { mode: Mode::Insert, ..self }
    }

    /// `a`: Insert mode behind the character under the cursor.
    pub open spec fn appending(self) -> SearchView {
        SearchView {
            mode: Mode::Insert,
            cursor: if self.cursor < self.query.len() {
                self.cursor + 1
            } else {
                self.cursor
            },
            ..self
        }
    }

    /// `I`: Insert mode at the start of the query.
    pub open spec fn inserting_at_start(self) -> SearchView {
        SearchView { mode: Mode::Insert, cursor: 0, ..self }
    }

    /// `A`: Insert mode at the end of the query.
    pub open spec fn appending_at_end(self) -> SearchView {
        SearchView { mode: Mode::Insert, cursor: self.query.len(), ..self }
    }

    /// `h`: the cursor one to the left.
    pub open spec fn moved_left(self) -> SearchView {
        SearchView { cursor: self.cursor_back(), ..self }
    }

    /// `l`: the cursor one to the right, never past the last character.
    pub open spec fn moved_right(self) -> SearchView {
        SearchView {
            cursor: if self.cursor + 1 < self.query.len() {
                self.cursor + 1
            } else {
                self.cursor
            },
            ..self
        }
    }

    /// `x`: the character under the cursor goes, if there is one; then the
    /// cursor moves one to the left.
    pub open spec fn cut(self) -> SearchView {
        SearchView {
            query: if self.cursor < self.query.len() {
                self.query.remove(self.cursor as int)
            } else {
                self.query
            },
            cursor: self.cursor_back(),
            ..self
        }
    }

    /// `D`: everything from the cursor to the end of the query goes, then the
    /// cursor moves one to the left. An empty query stays as it is.
    pub open spec fn cut_to_end(self) -> SearchView {
        if self.query.len() == 0 {
            self
        } else {
            SearchView {
                query: if self.cursor <= self.query.len() {
                    self.query.take(self.cursor as int)
                } else {
                    self.query
                },
                cursor: self.cursor_back(),
                ..self
            }
        }
    }

    /// `dd`: the query is emptied.
    pub open spec fn emptied(self) -> SearchView {
        SearchView { query: Seq::empty(), cursor: 0, ..self }
    }

    /// The selection one match further down, from the last match back to
    /// the first. With no matches it stays 0.
    pub open spec fn scrolled_down(self) -> SearchView {
        SearchView {
            scroll: if self.scroll + 1 < self.result.len() {
                self.scroll + 1
            } else {
                0
            },
            ..self
        }
    }

    /// The selection one match further up, from the first match on to the
    /// last. With no matches it stays 0.
    pub open spec fn scrolled_up(self) -> SearchView {
        SearchView {
            scroll: if self.result.len() == 0 {
                0
            } else if self.scroll == 0 || self.scroll > self.result.len() {
                (self.result.len() - 1) as nat
            } else {
                (self.scroll - 1) as nat
            },
            ..self
        }
    }

    /// `g`: the selection on the first match.
    pub open spec fn scrolled_to_top(self) -> SearchView {
        SearchView { scroll: 0, ..self }
    }

    /// `G`: the selection on the last match, if there is one.
    pub open spec fn scrolled_to_bottom(self) -> SearchView {
        SearchView {
            scroll: if self.result.len() == 0 {
                self.scroll
            } else {
                (self.result.len() - 1) as nat
            },
            ..self
        }
    }

    /// No matches, and the selection at 0.
    pub open spec fn without_results(self) -> SearchView {
        SearchView { result: Seq::empty(), scroll: 0, ..self }
    }
}

impl OptionsView {
    /// The selection one entry further down, from the last entry back to the
    /// first.
    pub open spec fn scrolled_down(self) -> OptionsView {
        OptionsView {
            scroll: if self.scroll + 1 < OPTION_COUNT {
                self.scroll + 1
            } else {
                0
            },
        }
    }

    /// The selection one entry further up, from the first entry on to the
    /// last.
    pub open spec fn scrolled_up(self) -> OptionsView {
        OptionsView {
            scroll: if self.scroll == 0 || self.scroll > OPTION_COUNT {
                (OPTION_COUNT - 1) as nat
            } else {
                (self.scroll - 1) as nat
            },
        }
    }
}

impl CommandView {
    /// A character typed into the command line.
    pub open spec fn typed(self, c: char) -> CommandView {
        CommandView { query: self.query.push(c), cursor: self.cursor + 1 }
    }

    /// The last character taken off the command line.
    pub open spec fn backspaced(self) -> CommandView {
        CommandView {
            query: self.query.drop_last(),
            cursor: if self.cursor > 0 {
                (self.cursor - 1) as nat
            } else {
                0
            },
        }
    }
}

impl AppView {
    /// The state with its search pane replaced.
    pub open spec fn with_search(self, search: SearchView) -> AppView {
        AppView { search, ..self }
    }

    /// `:`: the Command pane takes the focus with a fresh command line.
    pub open spec fn command_opened(self) -> AppView {
        AppView { window: Window::Command, command: CommandView::opened(), ..self }
    }

    /// The command line is cleared and the Search pane takes the focus.
    pub open spec fn command_closed(self) -> AppView {
        AppView { window: Window::Search, command: CommandView::empty(), ..self }
    }

    /// The pending multi-key command is forgotten.
    pub open spec fn vi_cleared(self) -> AppView {
        AppView { vi_command: Seq::empty(), ..self }
    }

    /// What the pending multi-key command does once a key has been added to
    /// it. `gg` selects the first match and `dd` empties the query, which
    /// leaves nothing to search for and so no matches; either is then
    /// forgotten. A first `g` or `d` stays pending. Anything that can no
    /// longer grow into `gg` or `dd` is forgotten.
    pub open spec fn vi_resolved(self) -> AppView {
        if self.vi_command == seq!['g', 'g'] {
            self.with_search(self.search.scrolled_to_top()).vi_cleared()
        } else if self.vi_command == seq!['d', 'd'] {
            self.with_search(self.search.emptied().without_results()).vi_cleared()
        } else if self.vi_command.len() == 0 || self.vi_command == seq!['g'] || self.vi_command
            == seq!['d'] {
            self
        } else {
            self.vi_cleared()
        }
    }

    /// A key that belongs to no rule of its own joins the pending multi-key
    /// command.
    pub open spec fn vi_keyed(self, c: char) -> AppView {
        (AppView { vi_command: self.vi_command.push(c), ..self }).vi_resolved()
    }

    /// The state after a search for the current query has been asked for,
    /// and whether there is anything to run: an empty query has no matches
    /// and starts no search.
    pub open spec fn searching(self) -> (AppView, Action) {
        if self.search.query.len() == 0 {
            (self.with_search(self.search.without_results()), Action::Idle)
        } else {
            (self, Action::Search)
        }
    }

    /// Enter in the Search pane: the editor opens on the selected match, if
    /// there is one.
    pub open spec fn opening(self) -> (AppView, Action) {
        if self.search.result.len() > 0 {
            (self, Action::OpenEditor)
        } else {
            (self, Action::Idle)
        }
    }

    /// Enter in the Command pane: the command line is closed and what it
    /// held is carried out. `:q` quits. `:w` asks for the session to be
    /// saved; `:wq` asks for it to be saved and `:q!` for the saved one to be
    /// deleted, each with a quit to follow once that has been done. The run
    /// is not stopped here for these two: whether it stops is decided by
    /// `after_store`, when it is known what came of the save or the delete.
    /// Anything else does nothing.
    pub open spec fn command_executed(self) -> (AppView, Action) {
        let closed = self.command_closed();
        if self.command.query == seq![':', 'q'] {
            (AppView { running: false, ..closed }, Action::Idle)
        } else if self.command.query == seq![':', 'w'] {
            (closed, Action::SaveSession)
        } else if self.command.query == seq![':', 'w', 'q'] {
            (closed, Action::SaveSessionAndQuit)
        } else if self.command.query == seq![':', 'q', '!'] {
            (closed, Action::DeleteSessionAndQuit)
        } else {
            (closed, Action::Idle)
        }
    }

    /// The state once it is known what came of the save or the delete that
    /// `action` asked for. The run stops exactly if the action was one with a
    /// quit to follow and the session was stored, or deleted, as asked; a
    /// failure leaves the run going, and everything else as it was.
    pub open spec fn after_store(self, action: Action, stored: bool) -> AppView {
        if stored && (action == Action::SaveSessionAndQuit || action
            == Action::DeleteSessionAndQuit) {
            AppView { running: false, ..self }
        } else {
            self
        }
    }
}

/// The rules of the Search pane in Insert mode. Characters are text,
/// whether or not Control is held with them; the arrow keys and Enter work
/// as in Normal mode.
pub open spec fn insert_rule(s: AppView, key: KeyEvent) -> (AppView, Action) {
    match key.code {
        KeyCode::Char(c) => (s.with_search(s.search.typed(c)), Action::Search),
        KeyCode::Backspace => s.with_search(s.search.backspaced()).searching(),
        KeyCode::Esc => (s.with_search(s.search.escaped()), Action::Idle),
        KeyCode::Enter => s.opening(),
        KeyCode::Up => (s.with_search(s.search.scrolled_up()), Action::Idle),
        KeyCode::Down => (s.with_search(s.search.scrolled_down()), Action::Idle),
        KeyCode::Other => (s, Action::Idle),
    }
}

/// The rule of a character key in the Search pane in Normal mode.
pub open spec fn normal_char_rule(s: AppView, c: char) -> (AppView, Action) {
    if c == 'i' {
        (s.with_search(s.search.inserting()), Action::Idle)
    } else if c == 'a' {
        (s.with_search(s.search.appending()), Action::Idle)
    } else if c == 'I' {
        (s.with_search(s.search.inserting_at_start()), Action::Idle)
    } else if c == 'A' {
        (s.with_search(s.search.appending_at_end()), Action::Idle)
    } else if c == 'h' {
        (s.with_search(s.search.moved_left()), Action::Idle)
    } else if c == 'l' {
        (s.with_search(s.search.moved_right()), Action::Idle)
    } else if c == 'x' {
        s.with_search(s.search.cut()).searching()
    } else if c == 'D' {
        (s.with_search(s.search.cut_to_end()), Action::Idle)
    } else if c == 'j' {
        (s.with_search(s.search.scrolled_down()), Action::Idle)
    } else if c == 'k' {
        (s.with_search(s.search.scrolled_up()), Action::Idle)
    } else if c == 'g' {
        (s.with_search(s.search.scrolled_to_top()), Action::Idle)
    } else if c == 'G' {
        (s.with_search(s.search.scrolled_to_bottom()), Action::Idle)
    } else if c == 'o' || c == 'O' {
        (AppView { window: Window::Options, ..s }, Action::Idle)
    } else if c == ':' {
        (s.command_opened(), Action::Idle)
    } else {
        (s.vi_keyed(c), Action::Idle)
    }
}

/// The rules of the Search pane in Normal mode. Control with `c` asks to
/// quit; any other character key follows the rule of its character, with
/// Control held or not.
pub open spec fn normal_rule(s: AppView, key: KeyEvent) -> (AppView, Action) {
    match key.code {
        KeyCode::Char(c) => if key.is_chord('c') {
            (AppView { running: false, ..s }, Action::Idle)
        } else {
            normal_char_rule(s, c)
        },
        KeyCode::Enter => s.opening(),
        KeyCode::Up => (s.with_search(s.search.scrolled_up()), Action::Idle),
        KeyCode::Down => (s.with_search(s.search.scrolled_down()), Action::Idle),
        KeyCode::Esc => (s.vi_cleared(), Action::Idle),
        KeyCode::Backspace => (s, Action::Idle),
        KeyCode::Other => (s, Action::Idle),
    }
}

/// The rules of the Options pane.
pub open spec fn options_rule(s: AppView, key: KeyEvent) -> (AppView, Action) {
    match key.code {
        KeyCode::Char(c) => if c == 'j' {
            (AppView { options: s.options.scrolled_down(), ..s }, Action::Idle)
        } else if c == 'k' {
            (AppView { options: s.options.scrolled_up(), ..s }, Action::Idle)
        } else if c == 's' || c == 'S' {
            (AppView { window: Window::Search, ..s }, Action::Idle)
        } else if c == ':' && s.search.mode == Mode::Normal {
            (s.command_opened(), Action::Idle)
        } else {
            (s.vi_keyed(c), Action::Idle)
        },
        KeyCode::Down => (AppView { options: s.options.scrolled_down(), ..s }, Action::Idle),
        KeyCode::Up => (AppView { options: s.options.scrolled_up(), ..s }, Action::Idle),
        KeyCode::Esc => (s.vi_cleared(), Action::Idle),
        KeyCode::Enter => (s, Action::Idle),
        KeyCode::Backspace => (s, Action::Idle),
        KeyCode::Other => (s, Action::Idle),
    }
}

/// The rules of the Command pane. Backspace on the colon alone closes the
/// command line instead of emptying it.
pub open spec fn command_rule(s: AppView, key: KeyEvent) -> (AppView, Action) {
    match key.code {
        KeyCode::Char(c) => (AppView { command: s.command.typed(c), ..s }, Action::Idle),
        KeyCode::Backspace => if s.command.query.len() <= 1 {
            (s.command_closed(), Action::Idle)
        } else {
            (AppView { command: s.command.backspaced(), ..s }, Action::Idle)
        },
        KeyCode::Esc => (s.command_closed(), Action::Idle),
        KeyCode::Enter => s.command_executed(),
        KeyCode::Up => (s, Action::Idle),
        KeyCode::Down => (s, Action::Idle),
        KeyCode::Other => (s, Action::Idle),
    }
}

/// The whole table: the next state and the outside work for one keystroke.
pub open spec fn transition(s: AppView, key: KeyEvent) -> (AppView, Action) {
    match s.window {
        Window::Search => match s.search.mode {
            Mode::Insert => insert_rule(s, key),
            Mode::Normal => normal_rule(s, key),
        },
        Window::Options => options_rule(s, key),
        Window::Command => command_rule(s, key),
    }
}

} // verus!
