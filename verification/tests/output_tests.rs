use colored::Colorize;
use todo_cli::api::Todo;
use todo_cli::error::{ClientError, ErrorKind};
use todo_cli::json::parse;
use todo_cli::output::{
    document_lines, format_datetime, print_todo, print_todo_detail, print_todo_line,
    print_todo_list, print_todos, shown_datetime, Line, Span, Style,
};

fn sample() -> Todo {
    Todo {
        id: 7,
        user_id: 3,
        title: String::from("Buy milk"),
        completed: false,
        created_at: String::from("2024-01-15T10:30:00Z"),
        updated_at: String::from("not a date"),
    }
}

fn done() -> Todo {
    Todo {
        id: 12,
        user_id: 3,
        title: String::from("Ship it"),
        completed: true,
        created_at: String::from("2023-12-31T23:59:59+02:00"),
        updated_at: String::from("2024-02-29T00:00:00.123Z"),
    }
}

fn plain(text: &str) -> Span {
    Span { text: String::from(text), style: Style::Plain }
}

fn styled(text: &str, style: Style) -> Span {
    Span { text: String::from(text), style }
}

fn line(spans: Vec<Span>) -> Line {
    Line { spans }
}

fn pending_line() -> Line {
    line(vec![
        plain("  "),
        styled("○", Style::Yellow),
        plain(" #"),
        styled("7", Style::Dimmed),
        plain(" "),
        plain("Buy milk"),
    ])
}

fn done_line() -> Line {
    line(vec![
        plain("  "),
        styled("✓", Style::Green),
        plain(" #"),
        styled("12", Style::Dimmed),
        plain(" "),
        styled("Ship it", Style::StruckDimmed),
    ])
}

#[test]
fn a_timestamp_is_shown_to_the_minute() {
    assert_eq!(format_datetime("2024-01-15T10:30:00Z"), "2024-01-15 10:30");
}

#[test]
fn a_timestamp_keeps_the_time_of_its_own_offset() {
    assert_eq!(format_datetime("2023-12-31T23:59:59+02:00"), "2023-12-31 23:59");
    assert_eq!(format_datetime("2024-02-29T00:00:00.123-08:00"), "2024-02-29 00:00");
    assert_eq!(format_datetime("0001-01-01t00:00:00z"), "0001-01-01 00:00");
}

#[test]
fn what_is_no_timestamp_is_shown_as_it_is() {
    for raw in ["", "yesterday", "2024-01-15", "2024-01-15 10:30", "2024-13-01T00:00:00Z", "2024-01-15T10:30:00"] {
        assert_eq!(format_datetime(raw), raw);
    }
}

#[test]
fn shown_datetime_prefers_what_was_written_anew() {
    assert_eq!(shown_datetime(Some(String::from("a")), "b"), "a");
    assert_eq!(shown_datetime(None, "b"), "b");
}

#[test]
fn an_empty_list_is_one_line_and_no_count() {
    let lines = print_todos(&[], "text").unwrap();
    assert_eq!(lines, vec![line(vec![styled("No todos found.", Style::Dimmed)])]);
    assert_eq!(print_todo_list(&[]), lines);
}

#[test]
fn a_list_is_the_count_an_empty_line_and_a_line_for_each_task() {
    let todos = vec![done(), sample(), done()];
    let lines = print_todos(&todos, "text").unwrap();
    assert_eq!(lines.len(), todos.len() + 2);
    assert_eq!(
        lines,
        vec![
            line(vec![styled("📋 3 todos:", Style::Bold)]),
            line(vec![]),
            done_line(),
            pending_line(),
            done_line(),
        ]
    );
}

#[test]
fn a_list_of_one_task_is_counted_as_one() {
    let lines = print_todos(&[sample()], "text").unwrap();
    assert_eq!(
        lines,
        vec![line(vec![styled("📋 1 todos:", Style::Bold)]), line(vec![]), pending_line()]
    );
}

#[test]
fn any_format_but_json_is_text() {
    let todos = vec![sample()];
    let text = print_todos(&todos, "text").unwrap();
    assert_eq!(print_todos(&todos, "").unwrap(), text);
    assert_eq!(print_todos(&todos, "JSON").unwrap(), text);
    assert_eq!(print_todos(&todos, "yaml").unwrap(), text);
    let detail = print_todo(&sample(), "text").unwrap();
    assert_eq!(print_todo(&sample(), "Json").unwrap(), detail);
    assert_eq!(detail, print_todo_detail(&sample()));
}

#[test]
fn the_line_of_a_task_marks_whether_it_is_completed() {
    assert_eq!(print_todo_line(&sample()), pending_line());
    assert_eq!(print_todo_line(&done()), done_line());
}

#[test]
fn one_task_is_shown_between_two_rules() {
    let rule = "─".repeat(40);
    assert_eq!(
        print_todo(&sample(), "text").unwrap(),
        vec![
            line(vec![styled(&rule, Style::Dimmed)]),
            line(vec![plain("  "), styled("Todo", Style::Bold), plain(" #7")]),
            line(vec![plain("  "), styled("Title", Style::Dimmed), plain(": Buy milk")]),
            line(vec![
                plain("  "),
                styled("Status", Style::Dimmed),
                plain(": "),
                styled("Pending", Style::Yellow),
            ]),
            line(vec![plain("  "), styled("Created", Style::Dimmed), plain(": 2024-01-15 10:30")]),
            line(vec![plain("  "), styled("Updated", Style::Dimmed), plain(": not a date")]),
            line(vec![styled(&rule, Style::Dimmed)]),
        ]
    );
}

#[test]
fn a_completed_task_is_shown_as_completed() {
    let lines = print_todo_detail(&done());
    assert_eq!(
        lines[3],
        line(vec![
            plain("  "),
            styled("Status", Style::Dimmed),
            plain(": "),
            styled("Completed", Style::Green),
        ])
    );
    assert_eq!(
        lines[4],
        line(vec![plain("  "), styled("Created", Style::Dimmed), plain(": 2023-12-31 23:59")])
    );
    assert_eq!(
        lines[5],
        line(vec![plain("  "), styled("Updated", Style::Dimmed), plain(": 2024-02-29 00:00")])
    );
}

#[test]
fn one_task_as_json_is_its_indented_document() {
    let lines = print_todo(&sample(), "json").unwrap();
    assert_eq!(
        lines,
        vec![line(vec![plain(
            "{\n  \"id\": 7,\n  \"user_id\": 3,\n  \"title\": \"Buy milk\",\n  \"completed\": false,\n  \"created_at\": \"2024-01-15T10:30:00Z\",\n  \"updated_at\": \"not a date\"\n}"
        )])]
    );
}

#[test]
fn a_list_as_json_is_an_array_without_decoration() {
    assert_eq!(print_todos(&[], "json").unwrap(), vec![line(vec![plain("[]")])]);
    let lines = print_todos(&[done()], "json").unwrap();
    assert_eq!(
        lines,
        vec![line(vec![plain(
            "[\n  {\n    \"id\": 12,\n    \"user_id\": 3,\n    \"title\": \"Ship it\",\n    \"completed\": true,\n    \"created_at\": \"2023-12-31T23:59:59+02:00\",\n    \"updated_at\": \"2024-02-29T00:00:00.123Z\"\n  }\n]"
        )])]
    );
}

#[test]
fn a_task_shown_as_json_is_read_back_field_for_field() {
    let odd = Todo {
        id: i64::MIN,
        user_id: i64::MAX,
        title: String::from("tab\there \"quoted\" \\ é 📋 \u{1}"),
        completed: true,
        created_at: String::from(""),
        updated_at: String::from("\n"),
    };
    for todo in [sample(), done(), odd] {
        let lines = print_todo(&todo, "json").unwrap();
        assert_eq!(lines.len(), 1);
        let text = lines[0].render();
        let doc = parse(text.as_bytes()).unwrap();
        assert_eq!(Todo::from_json(&doc), Some(todo));
    }
}

#[test]
fn a_list_shown_as_json_is_read_back_in_its_order() {
    let todos = vec![done(), sample()];
    let lines = print_todos(&todos, "json").unwrap();
    let text = lines[0].render();
    let doc = parse(text.as_bytes()).unwrap();
    assert_eq!(doc.as_array().and_then(todo_cli::api::todos_from_json), Some(todos));
}

#[test]
fn a_document_without_text_is_a_failure() {
    assert_eq!(
        document_lines(None),
        Err(ClientError {
            kind: ErrorKind::Render,
            message: String::from("Failed to write the result as JSON"),
            cause: None,
        })
    );
    assert_eq!(document_lines(Some(String::from("{}"))), Ok(vec![line(vec![plain("{}")])]));
}

#[test]
fn rendering_follows_the_switch_for_colours() {
    colored::control::set_override(false);
    assert_eq!(styled("x", Style::Bold).render(), "x");
    assert_eq!(pending_line().render(), "  ○ #7 Buy milk");
    assert_eq!(done_line().render(), "  ✓ #12 Ship it");
    assert_eq!(line(vec![]).render(), "");

    colored::control::set_override(true);
    assert_eq!(plain("x").render(), "x");
    assert_eq!(styled("x", Style::Bold).render(), "\u{1b}[1mx\u{1b}[0m");
    assert_eq!(styled("x", Style::Dimmed).render(), "\u{1b}[2mx\u{1b}[0m");
    assert_eq!(styled("x", Style::Green).render(), "\u{1b}[32mx\u{1b}[0m");
    assert_eq!(styled("x", Style::Yellow).render(), "\u{1b}[33mx\u{1b}[0m");
    assert_eq!(styled("x", Style::Red).render(), "\u{1b}[31mx\u{1b}[0m");
    let struck = styled("x", Style::StruckDimmed).render();
    assert_eq!(struck, "x".strikethrough().dimmed().to_string());
    assert!(struck.starts_with("\u{1b}[") && struck.ends_with("x\u{1b}[0m") && struck.contains('9'));
    assert_eq!(
        pending_line().render(),
        "  \u{1b}[33m○\u{1b}[0m #\u{1b}[2m7\u{1b}[0m Buy milk"
    );
    assert_eq!(
        done_line().render(),
        format!(
            "  \u{1b}[32m✓\u{1b}[0m #\u{1b}[2m12\u{1b}[0m {}",
            "Ship it".strikethrough().dimmed()
        )
    );
    colored::control::unset_override();
}

#[test]
fn the_builders_of_spans_and_lines() {
    assert_eq!(Span::plain("a"), plain("a"));
    assert_eq!(Span::styled("a", Style::Red), styled("a", Style::Red));
    assert_eq!(Line::plain("a"), line(vec![plain("a")]));
    assert_eq!(Line::single(styled("a", Style::Red)), line(vec![styled("a", Style::Red)]));
    assert_eq!(Line::empty(), line(vec![]));
}
