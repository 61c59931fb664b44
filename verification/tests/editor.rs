use lens::app::App;
use lens::editor::editor_command;
use lens::handler::helpers::open_editor;
use lens::search::{parse_search_output, Invocation, MatchRecord};

fn record(path: &str, line: usize, column: usize) -> MatchRecord {
    MatchRecord { path: path.to_string(), line, column, text: "foo".to_string() }
}

fn invocation(program: &str, args: &[&str]) -> Invocation {
    Invocation {
        program: program.to_string(),
        args: args.iter().map(|a| a.to_string()).collect(),
    }
}

#[test]
fn vim_jumps_in_normal_mode() {
    let records = parse_search_output("a.txt:3:1:foo\n");
    assert_eq!(records.len(), 1);
    assert_eq!(
        editor_command("vim", &records[0]),
        invocation("vim", &["+normal 3G1|", "a.txt"])
    );
}

#[test]
fn nvim_jumps_like_vim() {
    assert_eq!(
        editor_command("nvim", &record("src/lib.rs", 120, 45)),
        invocation("nvim", &["+normal 120G45|", "src/lib.rs"])
    );
}

#[test]
fn emacs_takes_line_and_column_behind_plus() {
    assert_eq!(
        editor_command("emacs", &record("src/lib.rs", 120, 45)),
        invocation("emacs", &["+120:45", "src/lib.rs"])
    );
}

#[test]
fn other_editors_get_the_path_only() {
    assert_eq!(editor_command("nano", &record("a.txt", 3, 1)), invocation("nano", &["a.txt"]));
    assert_eq!(editor_command("", &record("a.txt", 3, 1)), invocation("", &["a.txt"]));
    assert_eq!(
        editor_command("/usr/bin/vim", &record("a.txt", 3, 1)),
        invocation("/usr/bin/vim", &["a.txt"])
    );
    assert_eq!(editor_command("Vim", &record("a.txt", 3, 1)), invocation("Vim", &["a.txt"]));
    assert_eq!(editor_command("vi", &record("a.txt", 3, 1)), invocation("vi", &["a.txt"]));
    assert_eq!(editor_command("vimx", &record("a.txt", 3, 1)), invocation("vimx", &["a.txt"]));
}

#[test]
fn numbers_are_written_in_decimal() {
    let cases: [(usize, &str); 9] = [
        (1, "1"),
        (9, "9"),
        (10, "10"),
        (11, "11"),
        (99, "99"),
        (100, "100"),
        (101, "101"),
        (1000000, "1000000"),
        (9876543210, "9876543210"),
    ];
    for (n, text) in cases.iter() {
        if (*n as u128) <= usize::MAX as u128 {
            let command = editor_command("emacs", &record("f", *n, *n));
            assert_eq!(command.args[0], format!("+{}:{}", text, text));
        }
    }
    let command = editor_command("vim", &record("f", usize::MAX, 1));
    assert_eq!(command.args[0], format!("+normal {}G1|", usize::MAX));
}

#[test]
fn zero_is_written_as_one_digit() {
    let command = editor_command("emacs", &record("f", 0, 0));
    assert_eq!(command.args[0], "+0:0");
}

#[test]
fn open_editor_uses_selected_match() {
    let mut app = App::default();
    app.search.query = vec!['f'];
    app.search.result = vec![record("a.txt", 3, 1), record("b.txt", 7, 2), record("c.txt", 9, 4)];
    app.search.scroll = 1;
    assert_eq!(
        open_editor(&app, Some("vim")),
        Some(invocation("vim", &["+normal 7G2|", "b.txt"]))
    );
    app.search.scroll = 2;
    assert_eq!(open_editor(&app, Some("emacs")), Some(invocation("emacs", &["+9:4", "c.txt"])));
    assert_eq!(open_editor(&app, Some("code")), Some(invocation("code", &["c.txt"])));
}

#[test]
fn no_editor_configured_is_a_no_op() {
    let mut app = App::default();
    app.search.result = vec![record("a.txt", 3, 1)];
    assert_eq!(open_editor(&app, None), None);
}

#[test]
fn nothing_selected_opens_nothing() {
    let app = App::default();
    assert_eq!(open_editor(&app, Some("vim")), None);
}
