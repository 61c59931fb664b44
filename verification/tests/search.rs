use lens::app::App;
use lens::handler::helpers::get_results;
use lens::search::{
    parse_match_line, parse_search_output, search_command, search_results, MatchRecord,
    SearchFailure, SearchOutput,
};

fn record(path: &str, line: usize, column: usize, text: &str) -> MatchRecord {
    MatchRecord { path: path.to_string(), line, column, text: text.to_string() }
}

fn exited(code: Option<i32>, stdout: &str) -> SearchOutput {
    SearchOutput::Exited { code, stdout: stdout.to_string() }
}

fn searching_for(query: &str) -> App {
    let mut app = App::default();
    app.search.query = query.chars().collect();
    app.search.cursor = app.search.query.len();
    app
}

#[test]
fn query_foo_over_fixture_gives_one_record() {
    let output = exited(Some(0), "a.txt:3:1:foo\n");
    assert_eq!(search_results(&output), Ok(vec![record("a.txt", 3, 1, "foo")]));
    let mut app = searching_for("foo");
    get_results(&mut app, &output);
    assert_eq!(app.search.result, vec![record("a.txt", 3, 1, "foo")]);
    assert_eq!(app.search.scroll, 0);
    assert!(app.is_well_formed());
}

#[test]
fn empty_query_starts_no_search() {
    assert_eq!(search_command(&Vec::new()), None);
}

#[test]
fn empty_query_has_no_matches_whatever_was_printed() {
    let mut app = App::default();
    app.search.result.push(record("old.txt", 1, 1, "old"));
    get_results(&mut app, &exited(Some(0), "a.txt:3:1:foo\n"));
    assert!(app.search.result.is_empty());
    assert_eq!(app.search.scroll, 0);
}

#[test]
fn search_command_lists_flags_then_query() {
    let query: Vec<char> = "Foo bar".chars().collect();
    let command = search_command(&query).unwrap();
    assert_eq!(command.program, "rg");
    assert_eq!(
        command.args,
        vec![
            "--color=never",
            "--no-heading",
            "--with-filename",
            "--line-number",
            "--column",
            "--smart-case",
            "--hidden",
            "Foo bar",
        ]
    );
}

#[test]
fn search_command_keeps_every_character_of_the_query() {
    let query: Vec<char> = vec!['a', ':', 'é', '\t', 'z'];
    let command = search_command(&query).unwrap();
    assert_eq!(command.args.len(), 8);
    assert_eq!(command.args[7], "a:é\tz");
}

#[test]
fn line_is_cut_at_first_three_colons() {
    assert_eq!(
        parse_match_line("src/main.rs:12:7:let x: u8 = a::b;"),
        Ok(record("src/main.rs", 12, 7, "let x: u8 = a::b;"))
    );
}

#[test]
fn line_with_empty_path_or_text_is_read() {
    assert_eq!(parse_match_line(":1:1:"), Ok(record("", 1, 1, "")));
    assert_eq!(parse_match_line("a:10:200:"), Ok(record("a", 10, 200, "")));
}

#[test]
fn leading_zeros_are_read() {
    assert_eq!(parse_match_line("a:007:010:x"), Ok(record("a", 7, 10, "x")));
}

#[test]
fn line_with_too_few_fields_is_malformed() {
    assert_eq!(parse_match_line(""), Err(SearchFailure::MalformedLine));
    assert_eq!(parse_match_line("a.txt"), Err(SearchFailure::MalformedLine));
    assert_eq!(parse_match_line("a.txt:3"), Err(SearchFailure::MalformedLine));
    assert_eq!(parse_match_line("a.txt:3:1"), Err(SearchFailure::MalformedLine));
    assert_eq!(parse_match_line("a.txt:3:"), Err(SearchFailure::MalformedLine));
}

#[test]
fn line_with_bad_numbers_is_malformed() {
    assert_eq!(parse_match_line("a.txt:x:1:foo"), Err(SearchFailure::MalformedLine));
    assert_eq!(parse_match_line("a.txt:3:y:foo"), Err(SearchFailure::MalformedLine));
    assert_eq!(parse_match_line("a.txt::1:foo"), Err(SearchFailure::MalformedLine));
    assert_eq!(parse_match_line("a.txt:3::foo"), Err(SearchFailure::MalformedLine));
    assert_eq!(parse_match_line("a.txt:+3:1:foo"), Err(SearchFailure::MalformedLine));
    assert_eq!(parse_match_line("a.txt:-3:1:foo"), Err(SearchFailure::MalformedLine));
    assert_eq!(parse_match_line("a.txt: 3:1:foo"), Err(SearchFailure::MalformedLine));
    assert_eq!(parse_match_line("a.txt:3.5:1:foo"), Err(SearchFailure::MalformedLine));
}

#[test]
fn line_and_column_count_from_one() {
    assert_eq!(parse_match_line("a.txt:0:1:foo"), Err(SearchFailure::MalformedLine));
    assert_eq!(parse_match_line("a.txt:1:0:foo"), Err(SearchFailure::MalformedLine));
    assert_eq!(parse_match_line("a.txt:000:1:foo"), Err(SearchFailure::MalformedLine));
}

#[test]
fn numbers_beyond_the_machine_word_are_malformed() {
    let largest = format!("a:{}:{}:x", usize::MAX, usize::MAX);
    assert_eq!(parse_match_line(&largest), Ok(record("a", usize::MAX, usize::MAX, "x")));
    let beyond = format!("a:{}0:1:x", usize::MAX);
    assert_eq!(parse_match_line(&beyond), Err(SearchFailure::MalformedLine));
    assert_eq!(
        parse_match_line("a:99999999999999999999999999999999999999:1:x"),
        Err(SearchFailure::MalformedLine)
    );
    let next = "a:18446744073709551616:1:x";
    if usize::MAX as u128 == u64::MAX as u128 {
        assert_eq!(parse_match_line(next), Err(SearchFailure::MalformedLine));
    }
}

#[test]
fn output_gives_one_record_per_line_in_order() {
    let records = parse_search_output("a.txt:3:1:foo\nb/c.rs:10:5:  foo(bar)\nz:1:1:x");
    assert_eq!(
        records,
        vec![
            record("a.txt", 3, 1, "foo"),
            record("b/c.rs", 10, 5, "  foo(bar)"),
            record("z", 1, 1, "x"),
        ]
    );
}

#[test]
fn malformed_lines_are_dropped() {
    let records = parse_search_output("garbage\na.txt:3:1:foo\n\nb.txt:x:1:foo\nc.txt:4:2:bar\n");
    assert_eq!(records, vec![record("a.txt", 3, 1, "foo"), record("c.txt", 4, 2, "bar")]);
}

#[test]
fn empty_output_gives_no_records() {
    assert!(parse_search_output("").is_empty());
    assert!(parse_search_output("\n").is_empty());
    assert!(parse_search_output("\n\n\n").is_empty());
}

#[test]
fn carriage_return_before_line_feed_is_not_text() {
    let records = parse_search_output("a.txt:3:1:foo\r\nb.txt:4:1:bar\r\n");
    assert_eq!(records, vec![record("a.txt", 3, 1, "foo"), record("b.txt", 4, 1, "bar")]);
    let records = parse_search_output("a.txt:3:1:foo\r\r\n");
    assert_eq!(records, vec![record("a.txt", 3, 1, "foo\r")]);
}

#[test]
fn carriage_return_at_end_of_unfinished_line_is_text() {
    let records = parse_search_output("a.txt:3:1:foo\r");
    assert_eq!(records, vec![record("a.txt", 3, 1, "foo\r")]);
}

#[test]
fn output_splits_like_str_lines() {
    let texts = [
        "a:1:1:x\nb:2:2:y\n",
        "a:1:1:x\r\nb:2:2:y",
        "a:1:1:x\r",
        "\r\na:1:1:x\n\r\n",
        "a:1:1:x\n\nb:2:2:y\r\n\r",
        "a:1:1:\r\n",
    ];
    for text in texts.iter() {
        let mut expected = Vec::new();
        for line in text.lines() {
            if let Ok(r) = parse_match_line(line) {
                expected.push(r);
            }
        }
        assert_eq!(parse_search_output(text), expected, "{:?}", text);
    }
}

#[test]
fn tool_that_did_not_start_is_a_spawn_failure() {
    assert_eq!(search_results(&SearchOutput::NotSpawned), Err(SearchFailure::Spawn));
}

#[test]
fn tool_stopped_from_outside_is_an_abnormal_exit() {
    assert_eq!(
        search_results(&exited(None, "a.txt:3:1:foo\n")),
        Err(SearchFailure::AbnormalExit)
    );
}

#[test]
fn exit_code_does_not_hide_printed_matches() {
    assert_eq!(search_results(&exited(Some(1), "")), Ok(Vec::new()));
    assert_eq!(
        search_results(&exited(Some(2), "a.txt:3:1:foo\n")),
        Ok(vec![record("a.txt", 3, 1, "foo")])
    );
}

#[test]
fn failed_search_leaves_no_matches() {
    let mut app = searching_for("foo");
    app.search.result.push(record("old.txt", 1, 1, "old"));
    app.search.result.push(record("old.txt", 2, 1, "old"));
    app.search.scroll = 1;
    get_results(&mut app, &SearchOutput::NotSpawned);
    assert!(app.search.result.is_empty());
    assert_eq!(app.search.scroll, 0);
    let mut app = searching_for("foo");
    app.search.result.push(record("old.txt", 1, 1, "old"));
    get_results(&mut app, &exited(None, "a.txt:3:1:foo\n"));
    assert!(app.search.result.is_empty());
    assert!(app.is_well_formed());
}

#[test]
fn new_matches_replace_old_ones_wholesale() {
    let mut app = searching_for("foo");
    app.search.result.push(record("old.txt", 1, 1, "old"));
    get_results(&mut app, &exited(Some(0), "a:1:1:x\nb:2:2:y\nc:3:3:z\n"));
    assert_eq!(
        app.search.result,
        vec![record("a", 1, 1, "x"), record("b", 2, 2, "y"), record("c", 3, 3, "z")]
    );
    assert_eq!(app.search.query, vec!['f', 'o', 'o']);
    assert_eq!(app.search.cursor, 3);
}

#[test]
fn selection_survives_new_matches_only_if_in_range() {
    let mut app = searching_for("foo");
    for i in 1..=5 {
        app.search.result.push(record("old.txt", i, 1, "old"));
    }
    app.search.scroll = 2;
    get_results(&mut app, &exited(Some(0), "a:1:1:x\nb:2:2:y\nc:3:3:z\n"));
    assert_eq!(app.search.scroll, 2);
    app.search.scroll = 2;
    get_results(&mut app, &exited(Some(0), "a:1:1:x\nb:2:2:y\n"));
    assert_eq!(app.search.scroll, 0);
    assert!(app.is_well_formed());
}
