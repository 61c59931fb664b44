//! Keystroke handling: the dispatch table carried out on the state.

pub mod helpers;

use crate::app::{App, Command, Mode, Options, Search, Window, OPTION_COUNT};
use crate::handler::helpers::{handle_exit_commands, handle_vi_command};
use crate::key::{KeyCode, KeyEvent};
use crate::laws::lemma_transition_keeps_well_formed;
use crate::text::push_char;
use crate::transition::{command_rule, insert_rule, normal_char_rule, normal_rule, options_rule, transition};
use vstd::prelude::*;

verus! {

/// The outside work a keystroke calls for. The state machine never performs
/// it; the event loop does, and hands back what came of it.
#[derive(Debug, Clone, Copy, PartialEq, Eq, Structural)]
pub enum Action {
    /// Nothing to do.
    Idle,
    /// Run the search tool on the current query and hand its output to
    /// `get_results`.
    Search,
    /// Launch the editor on the selected match.
    OpenEditor,
    /// Write the session to durable storage.
    SaveSession,
    /// Write the session to durable storage; the run is to stop once that
    /// has been done. What came of the write goes to `session_stored`.
    SaveSessionAndQuit,
    /// Remove the stored session, if there is one; the run is to stop once
    /// that has been done. What came of it goes to `session_stored`.
    DeleteSessionAndQuit,
}

fn type_char(search: &mut Search, c: char)
    ensures
        final(search)@ == old(search)@.typed(c),
{
    if search.cursor > search.query.len() {
        search.cursor = search.query.len();
    }
    search.query.insert(search.cursor, c);
    assert(search.cursor < search.query.len());
    search.cursor = search.cursor + 1;
    search.scroll = 0;
}

fn backspace(search: &mut Search)
    ensures
        final(search)@ == old(search)@.backspaced(),
{
    if search.cursor > 0 && search.cursor <= search.query.len() {
        search.query.remove(search.cursor - 1);
        search.cursor = search.cursor - 1;
    }
}

fn cursor_back(search: &mut Search)
    ensures
        final(search)@ == old(search)@.moved_left(),
{
    if search.cursor > 0 {
        search.cursor = search.cursor - 1;
    }
}

fn cut(search: &mut Search)
    ensures
        final(search)@ == old(search)@.cut(),
{
    if search.cursor < search.query.len() {
        search.query.remove(search.cursor);
    }
    cursor_back(search);
}

fn cut_to_end(search: &mut Search)
    ensures
        final(search)@ == old(search)@.cut_to_end(),
{
    if search.query.len() > 0 {
        search.query.truncate(search.cursor);
        cursor_back(search);
    }
}

fn scroll_down(search: &mut Search)
    ensures
        final(search)@ == old(search)@.scrolled_down(),
{
    if search.scroll < search.result.len() && search.scroll + 1 < search.result.len() {
        search.scroll = search.scroll + 1;
    } else {
        search.scroll = 0;
    }
}

fn scroll_up(search: &mut Search)
    ensures
        final(search)@ == old(search)@.scrolled_up(),
{
    if search.result.len() == 0 {
        search.scroll = 0;
    } else if search.scroll == 0 || search.scroll > search.result.len() {
        search.scroll = search.result.len() - 1;
    } else {
        search.scroll = search.scroll - 1;
    }
}

fn options_down(options: &mut Options)
    ensures
        final(options)@ == old(options)@.scrolled_down(),
{
    if options.scroll < OPTION_COUNT && options.scroll + 1 < OPTION_COUNT {
        options.scroll = options.scroll + 1;
    } else {
        options.scroll = 0;
    }
}

fn options_up(options: &mut Options)
    ensures
        final(options)@ == old(options)@.scrolled_up(),
{
    if options.scroll == 0 || options.scroll > OPTION_COUNT {
        options.scroll = OPTION_COUNT - 1;
    } else {
        options.scroll = options.scroll - 1;
    }
}

fn open_command(app: &mut App)
    ensures
        final(app)@ == old(app)@.command_opened(),
{
    app.window = Window::Command;
    app.command.query.clear();
    app.command.query.push(':');
    app.command.cursor = 1;
    assert(app.command.query@ =~= seq![':']);
}

fn close_command(app: &mut App)
    ensures
        final(app)@ == old(app)@.command_closed(),
{
    app.command.query.clear();
    app.command.cursor = 0;
    app.window = Window::Search;
}

fn vi_key(app: &mut App, c: char)
    ensures
        final(app)@ == old(app)@.vi_keyed(c),
{
    push_char(&mut app.vi_command, c);
    handle_vi_command(app);
}

/// Asks for a search on the current query, or drops the matches at once if
/// the query is empty.
fn search_again(app: &mut App) -> (action: Action)
    ensures
        (final(app)@, action) == old(app)@.searching(),
{
    if app.search.query.len() == 0 {
        app.search.result.clear();
        app.search.scroll = 0;
        assert(app.search@.result =~= Seq::empty());
        Action::Idle
    } else {
        Action::Search
    }
}

fn open_selected(app: &App) -> (action: Action)
    ensures
        (app@, action) == app@.opening(),
{
    if app.search.result.len() > 0 {
        Action::OpenEditor
    } else {
        Action::Idle
    }
}

fn handle_insert_key(key_event: KeyEvent, app: &mut App) -> (action: Action)
    ensures
        (final(app)@, action) == insert_rule(old(app)@, key_event),
{
    match key_event.code {
        KeyCode::Char(c) => {
            type_char(&mut app.search, c);
            Action::Search
        },
        KeyCode::Backspace => {
            backspace(&mut app.search);
            search_again(app)
        },
        KeyCode::Esc => {
            app.search.mode = Mode::Normal;
            cursor_back(&mut app.search);
            Action::Idle
        },
        KeyCode::Enter => open_selected(app),
        KeyCode::Up => {
            scroll_up(&mut app.search);
            Action::Idle
        },
        KeyCode::Down => {
            scroll_down(&mut app.search);
            Action::Idle
        },
        KeyCode::Other => Action::Idle,
    }
}

fn handle_normal_char(c: char, app: &mut App) -> (action: Action)
    ensures
        (final(app)@, action) == normal_char_rule(old(app)@, c),
{
    if c == 'i' {
        app.search.mode = Mode::Insert;
    } else if c == 'a' {
        app.search.mode = Mode::Insert;
        if app.search.cursor < app.search.query.len() {
            app.search.cursor = app.search.cursor + 1;
        }
    } else if c == 'I' {
        app.search.cursor = 0;
        app.search.mode = Mode::Insert;
    } else if c == 'A' {
        app.search.cursor = app.search.query.len();
        app.search.mode = Mode::Insert;
    } else if c == 'h' {
        cursor_back(&mut app.search);
    } else if c == 'l' {
        if app.search.cursor < app.search.query.len() && app.search.cursor + 1
            < app.search.query.len() {
            app.search.cursor = app.search.cursor + 1;
        }
    } else if c == 'x' {
        cut(&mut app.search);
        return search_again(app);
    } else if c == 'D' {
        cut_to_end(&mut app.search);
    } else if c == 'j' {
        scroll_down(&mut app.search);
    } else if c == 'k' {
        scroll_up(&mut app.search);
    } else if c == 'g' {
        app.search.scroll = 0;
    } else if c == 'G' {
        if app.search.result.len() > 0 {
            app.search.scroll = app.search.result.len() - 1;
        }
    } else if c == 'o' || c == 'O' {
        app.window = Window::Options;
    } else if c == ':' {
        open_command(app);
    } else {
        vi_key(app, c);
    }
    Action::Idle
}

fn handle_normal_key(key_event: KeyEvent, app: &mut App) -> (action: Action)
    ensures
        (final(app)@, action) == normal_rule(old(app)@, key_event),
{
    match key_event.code {
        KeyCode::Char(c) => {
            if key_event.ctrl && c == 'c' {
                app.quit();
                Action::Idle
            } else {
                handle_normal_char(c, app)
            }
        },
        KeyCode::Enter => open_selected(app),
        KeyCode::Up => {
            scroll_up(&mut app.search);
            Action::Idle
        },
        KeyCode::Down => {
            scroll_down(&mut app.search);
            Action::Idle
        },
        KeyCode::Esc => {
            app.vi_command = String::new();
            Action::Idle
        },
        KeyCode::Backspace => Action::Idle,
        KeyCode::Other => Action::Idle,
    }
}

fn handle_options_key(key_event: KeyEvent, app: &mut App) -> (action: Action)
    ensures
        (final(app)@, action) == options_rule(old(app)@, key_event),
{
    match key_event.code {
        KeyCode::Char(c) => {
            if c == 'j' {
                options_down(&mut app.options);
            } else if c == 'k' {
                options_up(&mut app.options);
            } else if c == 's' || c == 'S' {
                app.window = Window::Search;
            } else if c == ':' && app.search.mode == Mode::Normal {
                open_command(app);
            } else {
                vi_key(app, c);
            }
        },
        KeyCode::Down => {
            options_down(&mut app.options);
        },
        KeyCode::Up => {
            options_up(&mut app.options);
        },
        KeyCode::Esc => {
            app.vi_command = String::new();
        },
        KeyCode::Enter => {},
        KeyCode::Backspace => {},
        KeyCode::Other => {},
    }
    Action::Idle
}

fn type_command_char(command: &mut Command, c: char)
    requires
        old(command)@.well_formed(),
    ensures
        final(command)@ == old(command)@.typed(c),
{
    command.query.push(c);
    command.cursor = command.query.len();
}

fn handle_command_key(key_event: KeyEvent, app: &mut App) -> (action: Action)
    requires
        old(app).well_formed(),
    ensures
        (final(app)@, action) == command_rule(old(app)@, key_event),
{
    match key_event.code {
        KeyCode::Char(c) => {
            type_command_char(&mut app.command, c);
            Action::Idle
        },
        KeyCode::Backspace => {
            if app.command.query.len() <= 1 {
                close_command(app);
            } else {
                app.command.query.pop();
                app.command.cursor = app.command.cursor - 1;
            }
            Action::Idle
        },
        KeyCode::Esc => {
            close_command(app);
            Action::Idle
        },
        KeyCode::Enter => handle_exit_commands(app),
        KeyCode::Up => Action::Idle,
        KeyCode::Down => Action::Idle,
        KeyCode::Other => Action::Idle,
    }
}

/// Handles one keystroke: edits the state as the dispatch table says and
/// returns the outside work the keystroke calls for.
///
/// The rule is picked by the focused pane, the mode and the key. The state
/// that comes out is well-formed again.
pub fn handle_key_events(key_event: KeyEvent, app: &mut App) -> (action: Action)
    requires
        old(app).well_formed(),
    ensures
        (final(app)@, action) == transition(old(app)@, key_event),
        final(app).well_formed(),
{
    proof {
        lemma_transition_keeps_well_formed(app@, key_event);
    }
    match app.window {
        Window::Search => match app.search.mode {
            Mode::Insert => handle_insert_key(key_event, app),
            Mode::Normal => handle_normal_key(key_event, app),
        },
        Window::Options => handle_options_key(key_event, app),
        Window::Command => handle_command_key(key_event, app),
    }
}

} // verus!
