use lens::app::{App, Window};
use lens::handler::helpers::{get_preview, preview_request, PreviewRequest};
use lens::preview::{build_preview, preview_window, Preview, LINES_BEFORE, WINDOW_LINES};
use lens::search::MatchRecord;

fn record_at(line: usize) -> MatchRecord {
    MatchRecord { path: "a.txt".to_string(), line, column: 1, text: "foo".to_string() }
}

fn numbered(n: usize) -> Vec<String> {
    (1..=n).map(|i| format!("line {}", i)).collect()
}

fn joined(lines: &[String]) -> String {
    lines.join("\n")
}

fn selecting(line: usize) -> App {
    let mut app = App::default();
    app.search.query = vec!['f'];
    app.search.result.push(record_at(1));
    app.search.result.push(record_at(line));
    app.search.scroll = 1;
    app
}

#[test]
fn window_constants() {
    assert_eq!(LINES_BEFORE, 25);
    assert_eq!(WINDOW_LINES, 50);
}

#[test]
fn window_of_line_5_starts_at_0() {
    assert_eq!(preview_window(5), (0, 50));
}

#[test]
fn window_of_line_100_is_75_to_125() {
    assert_eq!(preview_window(100), (75, 125));
}

#[test]
fn window_at_the_edges() {
    assert_eq!(preview_window(1), (0, 50));
    assert_eq!(preview_window(25), (0, 50));
    assert_eq!(preview_window(26), (1, 51));
    assert_eq!(preview_window(usize::MAX), (usize::MAX - 25, usize::MAX));
    assert_eq!(preview_window(usize::MAX - 25), (usize::MAX - 50, usize::MAX));
    assert_eq!(preview_window(usize::MAX - 26), (usize::MAX - 51, usize::MAX - 1));
}

#[test]
fn match_at_line_5_of_3_line_file() {
    let file = numbered(3);
    let preview = build_preview(&record_at(5), Some(&file));
    assert_eq!(preview, Preview { text: "line 1\nline 2\nline 3".to_string(), line: 5 });
}

#[test]
fn match_at_line_100_shows_lines_76_to_125() {
    let file = numbered(300);
    let preview = build_preview(&record_at(100), Some(&file));
    assert_eq!(preview.text, joined(&file[75..125]));
    assert_eq!(preview.line, 25);
    assert_eq!(preview.text.lines().count(), 50);
    assert_eq!(preview.text.lines().nth(24), Some("line 100"));
}

#[test]
fn window_is_cut_at_end_of_file() {
    let file = numbered(110);
    let preview = build_preview(&record_at(100), Some(&file));
    assert_eq!(preview.text, joined(&file[75..110]));
    assert_eq!(preview.line, 25);
}

#[test]
fn window_behind_end_of_file_is_empty() {
    let file = numbered(10);
    let preview = build_preview(&record_at(100), Some(&file));
    assert_eq!(preview, Preview { text: String::new(), line: 25 });
}

#[test]
fn short_window_near_top() {
    let file = numbered(60);
    let preview = build_preview(&record_at(3), Some(&file));
    assert_eq!(preview.text, joined(&file[0..50]));
    assert_eq!(preview.line, 3);
}

#[test]
fn single_line_has_no_line_feed() {
    let file = vec!["only".to_string()];
    let preview = build_preview(&record_at(1), Some(&file));
    assert_eq!(preview, Preview { text: "only".to_string(), line: 1 });
}

#[test]
fn empty_lines_are_kept() {
    let file = vec![String::new(), "b".to_string(), String::new(), String::new()];
    let preview = build_preview(&record_at(2), Some(&file));
    assert_eq!(preview.text, "\nb\n\n");
    assert_eq!(preview.line, 2);
}

#[test]
fn empty_file_gives_empty_text() {
    let file: Vec<String> = Vec::new();
    let preview = build_preview(&record_at(7), Some(&file));
    assert_eq!(preview, Preview { text: String::new(), line: 7 });
}

#[test]
fn missing_file_gives_empty_preview() {
    assert_eq!(build_preview(&record_at(100), None), Preview { text: String::new(), line: 0 });
}

#[test]
fn largest_line_number_does_not_overflow() {
    let file = numbered(3);
    let preview = build_preview(&record_at(usize::MAX), Some(&file));
    assert_eq!(preview, Preview { text: String::new(), line: 25 });
}

#[test]
fn request_names_file_and_window_of_selected_match() {
    let app = selecting(100);
    assert_eq!(
        preview_request(&app),
        Some(PreviewRequest { path: "a.txt".to_string(), start: 75, end: 125 })
    );
}

#[test]
fn no_request_without_matches() {
    assert_eq!(preview_request(&App::default()), None);
}

#[test]
fn no_request_while_command_pane_is_focused() {
    let mut app = selecting(100);
    app.window = Window::Command;
    app.command.query = vec![':'];
    app.command.cursor = 1;
    assert!(app.is_well_formed());
    assert_eq!(preview_request(&app), None);
    app.window = Window::Options;
    app.command.query.clear();
    app.command.cursor = 0;
    assert!(preview_request(&app).is_some());
}

#[test]
fn refresh_stores_window_and_highlight() {
    let mut app = selecting(30);
    let file = numbered(40);
    get_preview(&mut app, Some(&file));
    assert_eq!(app.search.preview, joined(&file[5..40]));
    assert_eq!(app.search.line, 25);
    assert!(app.is_well_formed());
}

#[test]
fn refresh_without_file_clears_preview() {
    let mut app = selecting(30);
    app.search.preview = "stale".to_string();
    app.search.line = 4;
    get_preview(&mut app, None);
    assert_eq!(app.search.preview, "");
    assert_eq!(app.search.line, 0);
}

#[test]
fn refresh_without_matches_clears_preview() {
    let mut app = App::default();
    app.search.preview = "stale".to_string();
    app.search.line = 4;
    let file = numbered(3);
    get_preview(&mut app, Some(&file));
    assert_eq!(app.search.preview, "");
    assert_eq!(app.search.line, 0);
}

#[test]
fn refresh_in_command_pane_changes_nothing() {
    let mut app = selecting(30);
    app.search.preview = "shown".to_string();
    app.search.line = 4;
    app.window = Window::Command;
    app.command.query = vec![':', 'w'];
    app.command.cursor = 2;
    let before = app.clone();
    let file = numbered(40);
    get_preview(&mut app, Some(&file));
    assert_eq!(app, before);
    get_preview(&mut app, None);
    assert_eq!(app, before);
}
