//! What is shown to the user: lines of styled text, or a JSON document.

use crate::api::{todo_document, todos_document, todos_to_json, Todo, TodoView};
use crate::error::{failure, ClientError, ClientErrorView, ErrorKind};
use crate::json::{pretty, pretty_text};
use crate::text::{decimal, format_i64, format_u64, join, natural_digits};
use std::fmt::Write;
use vstd::prelude::*;
use vstd::string::*;

verus! {

/// How a piece of text is set off on the terminal.
#[derive(Clone, Copy, Debug, PartialEq, Eq, Structural)]
pub enum Style {
    Plain,
    Bold,
    Dimmed,
    Green,
    Yellow,
    Red,
    /// Struck through and dimmed.
    StruckDimmed,
}

/// A piece of text in one style.
#[derive(Debug, PartialEq, Eq)]
pub struct Span {
    pub text: String,
    pub style: Style,
}

/// What a `Span` holds, as mathematical values.
pub struct SpanView {
    pub text: Seq<char>,
    pub style: Style,
}

impl View for Span {
    type V = SpanView;

    open spec fn view(&self) -> SpanView {
        SpanView { text: self.text@, style: self.style }
    }
}

impl DeepView for Span {
    type V = SpanView;

    open spec fn deep_view(&self) -> SpanView {
        self@
    }
}

/// One line of output: its spans, from left to right.
#[derive(Debug, PartialEq, Eq)]
pub struct Line {
    pub spans: Vec<Span>,
}

impl View for Line {
    type V = Seq<SpanView>;

    open spec fn view(&self) -> Seq<SpanView> {
        self.spans.deep_view()
    }
}

impl DeepView for Line {
    type V = Seq<SpanView>;

    open spec fn deep_view(&self) -> Seq<SpanView> {
        self@
    }
}

/// A span without style.
pub open spec fn plain(text: Seq<char>) -> SpanView {
    SpanView { text, style: Style::Plain }
}

/// A span in the given style.
pub open spec fn styled(text: Seq<char>, style: Style) -> SpanView {
    SpanView { text, style }
}

/// What `colored` displays for `text` in `style` when colours are switched
/// on: the text between the escape sequences of the style.
pub uninterp spec fn ansi(style: Style, text: Seq<char>) -> Seq<char>;

/// Has `colored` display `text` in `style`, through the methods of its trait
/// `Colorize` and `to_string`. Whether colours are on depends on the terminal
/// and the environment, so the contract states what holds either way: the
/// result is the text itself, or the text as `colored` sets it off in this
/// style, which is a function of the style and the text.
#[verifier::external_body]
fn paint(text: &str, style: Style) -> (r: String)
    ensures
        r@ == text@ || r@ == ansi(style, text@),
{
    match style {
        Style::Plain => colored::Colorize::normal(text).to_string(),
        Style::Bold => colored::Colorize::bold(text).to_string(),
        Style::Dimmed => colored::Colorize::dimmed(text).to_string(),
        Style::Green => colored::Colorize::green(text).to_string(),
        Style::Yellow => colored::Colorize::yellow(text).to_string(),
        Style::Red => colored::Colorize::red(text).to_string(),
        Style::StruckDimmed => colored::Colorize::dimmed(
            colored::Colorize::strikethrough(text),
        ).to_string(),
    }
}

/// The text of a span on the terminal, with colours on or off.
pub open spec fn piece(span: SpanView, coloured: bool) -> Seq<char> {
    if coloured && span.style != Style::Plain {
        ansi(span.style, span.text)
    } else {
        span.text
    }
}

/// The text of a line on the terminal, where `coloured` tells for each span
/// whether colours were on when it was set.
pub open spec fn rendering(spans: Seq<SpanView>, coloured: Seq<bool>) -> Seq<char>
    decreases spans.len(),
{
    if spans.len() == 0 {
        Seq::empty()
    } else {
        rendering(spans.drop_last(), coloured.drop_last()) + piece(spans.last(), coloured.last())
    }
}

impl Span {
    /// A span without style.
    pub fn plain(text: &str) -> (r: Span)
        ensures
            r@ == plain(text@),
    {
        Span { text: String::from_str(text), style: Style::Plain }
    }

    /// A span in the given style.
    pub fn styled(text: &str, style: Style) -> (r: Span)
        ensures
            r@ == styled(text@, style),
    {
        Span { text: String::from_str(text), style }
    }

    /// The text of the span on the terminal.
    pub fn render(&self) -> (r: String)
        ensures
            r@ == piece(self@, false) || r@ == piece(self@, true),
    {
        match self.style {
            Style::Plain => self.text.clone(),
            _ => paint(self.text.as_str(), self.style),
        }
    }
}

impl Line {
    /// The line that is one span.
    pub fn single(span: Span) -> (r: Line)
        ensures
            r@ == seq![span@],
    {
        let mut spans: Vec<Span> = Vec::new();
        spans.push(span);
        Line { spans }
    }

    /// The line that is `text`, without style.
    pub fn plain(text: &str) -> (r: Line)
        ensures
            r@ == seq![plain(text@)],
    {
        Line::single(Span::plain(text))
    }

    /// The empty line.
    pub fn empty() -> (r: Line)
        ensures
            r@ == Seq::<SpanView>::empty(),
    {
        let spans: Vec<Span> = Vec::new();
        Line { spans }
    }

    /// The text of the line on the terminal: its spans one after the other,
    /// each as it is with colours on or off.
    pub fn render(&self) -> (r: String)
        ensures
            exists|coloured: Seq<bool>|
                coloured.len() == self@.len() && r@ == #[trigger] rendering(self@, coloured),
    {
        let mut out = String::new();
        let ghost mut coloured: Seq<bool> = Seq::empty();
        let mut i: usize = 0;
        while i < self.spans.len()
            invariant
                i <= self.spans.len(),
                coloured.len() == i,
                out@ == rendering(self@.subrange(0, i as int), coloured),
            decreases self.spans.len() - i,
        {
            let text = self.spans[i].render();
            let ghost on = text@ != piece(self.spans@[i as int]@, false);
            proof {
                let before = self@.subrange(0, i as int);
                let after = self@.subrange(0, i as int + 1);
                assert(after.drop_last() =~= before);
                assert(coloured.push(on).drop_last() =~= coloured);
            }
            out.append(text.as_str());
            proof {
                coloured = coloured.push(on);
            }
            i += 1;
        }
        assert(self@.subrange(0, i as int) =~= self@);
        out
    }
}

/// What `chrono` writes with `pattern` for the moment that it reads from
/// `text` in the format of RFC 3339; `None` where it reads none or cannot
/// write it so.
pub uninterp spec fn rfc3339_reformatted(text: Seq<char>, pattern: Seq<char>) -> Option<Seq<char>>;

/// Calls `chrono::DateTime::parse_from_rfc3339` and writes what it read with
/// `DateTime::format`. The contract claims only that the outcome is a
/// function of the text and the pattern.
#[verifier::external_body]
fn reformat_rfc3339(text: &str, pattern: &str) -> (r: Option<String>)
    ensures
        r.deep_view() == rfc3339_reformatted(text@, pattern@),
{
    let moment = chrono::DateTime::parse_from_rfc3339(text).ok()?;
    let mut out = String::new();
    write!(out, "{}", moment.format(pattern)).ok()?;
    Some(out)
}

/// A moment as it is shown, given what came of writing it anew: that, or the
/// text as it was.
pub open spec fn shown(reformatted: Option<Seq<char>>, raw: Seq<char>) -> Seq<char> {
    match reformatted {
        Some(text) => text,
        None => raw,
    }
}

/// A moment as it is shown: as year, month, day, hour and minute where
/// `raw` is in the format of RFC 3339, and else as it is.
pub open spec fn datetime_display(raw: Seq<char>) -> Seq<char> {
    shown(rfc3339_reformatted(raw, "%Y-%m-%d %H:%M"@), raw)
}

/// A moment as it is shown, given what came of writing it anew.
pub fn shown_datetime(reformatted: Option<String>, raw: &str) -> (r: String)
    ensures
        r@ == shown(reformatted.deep_view(), raw@),
{
    match reformatted {
        Some(text) => text,
        None => String::from_str(raw),
    }
}

/// A moment as it is shown.
pub fn format_datetime(dt: &str) -> (r: String)
    ensures
        r@ == datetime_display(dt@),
{
    shown_datetime(reformat_rfc3339(dt, "%Y-%m-%d %H:%M"), dt)
}

/// The line of a task in a list: a mark, the identifier and the title. The
/// mark of a completed task is a green tick and its title is struck through;
/// that of a pending task is a yellow circle.
pub open spec fn todo_line(todo: TodoView) -> Seq<SpanView> {
    seq![
        plain("  "@),
        if todo.completed {
            styled("✓"@, Style::Green)
        } else {
            styled("○"@, Style::Yellow)
        },
        plain(" #"@),
        styled(decimal(todo.id), Style::Dimmed),
        plain(" "@),
        if todo.completed {
            styled(todo.title, Style::StruckDimmed)
        } else {
            plain(todo.title)
        },
    ]
}

/// The line above a list of `n` tasks.
pub open spec fn count_header(n: nat) -> Seq<SpanView> {
    seq![styled("📋 "@ + natural_digits(n) + " todos:"@, Style::Bold)]
}

/// The lines that show a list of tasks: one line that says so where there
/// are none, and else the count, an empty line and a line for each task.
pub open spec fn list_layout(todos: Seq<TodoView>) -> Seq<Seq<SpanView>> {
    if todos.len() == 0 {
        seq![seq![styled("No todos found."@, Style::Dimmed)]]
    } else {
        seq![count_header(todos.len()), Seq::empty()] + Seq::new(
            todos.len(),
            |i: int| todo_line(todos[i]),
        )
    }
}

/// An empty list is shown as one line, which is no count; a list of tasks as
/// the count, an empty line and then one line for each task, in the order of
/// the list.
pub proof fn lemma_list_layout(todos: Seq<TodoView>)
    ensures
        todos.len() == 0 ==> list_layout(todos).len() == 1 && forall|n: nat|
            list_layout(todos)[0] != #[trigger] count_header(n),
        todos.len() > 0 ==> list_layout(todos).len() == todos.len() + 2 && list_layout(todos)[0]
            == count_header(todos.len()) && list_layout(todos)[1] == Seq::<SpanView>::empty(),
        forall|i: int|
            0 <= i < todos.len() ==> list_layout(todos)[i + 2] == todo_line(#[trigger] todos[i]),
{
    if todos.len() == 0 {
        assert forall|n: nat| list_layout(todos)[0] != #[trigger] count_header(n) by {
            assert(count_header(n)[0].style == Style::Bold);
        }
    }
}

/// A rule of forty dashes.
pub open spec fn rule() -> Seq<char> {
    Seq::new(40, |i: int| '─')
}

/// The lines that show one task: between two rules, the identifier, the
/// title, the status and the moments of creation and of the last update.
pub open spec fn detail_layout(todo: TodoView) -> Seq<Seq<SpanView>> {
    seq![
        seq![styled(rule(), Style::Dimmed)],
        seq![plain("  "@), styled("Todo"@, Style::Bold), plain(" #"@ + decimal(todo.id))],
        seq![plain("  "@), styled("Title"@, Style::Dimmed), plain(": "@ + todo.title)],
        seq![
            plain("  "@),
            styled("Status"@, Style::Dimmed),
            plain(": "@),
            if todo.completed {
                styled("Completed"@, Style::Green)
            } else {
                styled("Pending"@, Style::Yellow)
            },
        ],
        seq![
            plain("  "@),
            styled("Created"@, Style::Dimmed),
            plain(": "@ + datetime_display(todo.created_at)),
        ],
        seq![
            plain("  "@),
            styled("Updated"@, Style::Dimmed),
            plain(": "@ + datetime_display(todo.updated_at)),
        ],
        seq![styled(rule(), Style::Dimmed)],
    ]
}

/// The one line that holds a document, given its text; a failure where
/// there is none.
pub open spec fn document_layout(text: Option<Seq<char>>) -> Result<
    Seq<Seq<SpanView>>,
    ClientErrorView,
> {
    match text {
        Some(t) => Ok(seq![seq![plain(t)]]),
        None => Err(failure(ErrorKind::Render, "Failed to write the result as JSON"@)),
    }
}

/// What is shown for a list of tasks: with the format `json` the indented
/// document of the list, and with any other its lines of text.
pub open spec fn todos_output(todos: Seq<TodoView>, format: Seq<char>) -> Result<
    Seq<Seq<SpanView>>,
    ClientErrorView,
> {
    if format == "json"@ {
        document_layout(pretty_text(todos_document(todos)))
    } else {
        Ok(list_layout(todos))
    }
}

/// What is shown for one task: with the format `json` its indented
/// document, and with any other its lines of text.
pub open spec fn todo_output(todo: TodoView, format: Seq<char>) -> Result<
    Seq<Seq<SpanView>>,
    ClientErrorView,
> {
    if format == "json"@ {
        document_layout(pretty_text(todo_document(todo)))
    } else {
        Ok(detail_layout(todo))
    }
}

/// The view of lines or of the failure in their place.
pub open spec fn lines_view(r: Result<Vec<Line>, ClientError>) -> Result<
    Seq<Seq<SpanView>>,
    ClientErrorView,
> {
    match r {
        Ok(lines) => Ok(lines.deep_view()),
        Err(error) => Err(error@),
    }
}

/// The one line that holds a document, given its text.
pub fn document_lines(text: Option<String>) -> (r: Result<Vec<Line>, ClientError>)
    ensures
        lines_view(r) == document_layout(text.deep_view()),
{
    match text {
        Some(t) => {
            let mut lines: Vec<Line> = Vec::new();
            lines.push(Line::plain(t.as_str()));
            assert(lines.deep_view() =~= seq![seq![plain(t@)]]);
            Ok(lines)
        },
        None => Err(ClientError::new(ErrorKind::Render, "Failed to write the result as JSON")),
    }
}

/// Tells whether `format` asks for JSON.
fn is_json(format: &str) -> (r: bool)
    ensures
        r == (format@ == "json"@),
{
    String::from_str(format) == String::from_str("json")
}

fn rule_text() -> (r: String)
    ensures
        r@ == rule(),
{
    let mut out = String::new();
    let mut i: usize = 0;
    while i < 40
        invariant
            i <= 40,
            out@ == Seq::new(i as nat, |k: int| '─'),
        decreases 40 - i,
    {
        proof {
            reveal_strlit("─");
        }
        out.append("─");
        i += 1;
    }
    out
}

/// The line of a task in a list.
pub fn print_todo_line(todo: &Todo) -> (r: Line)
    ensures
        r@ == todo_line(todo@),
{
    let mut spans: Vec<Span> = Vec::new();
    spans.push(Span::plain("  "));
    if todo.completed {
        spans.push(Span::styled("✓", Style::Green));
    } else {
        spans.push(Span::styled("○", Style::Yellow));
    }
    spans.push(Span::plain(" #"));
    spans.push(Span::styled(format_i64(todo.id).as_str(), Style::Dimmed));
    spans.push(Span::plain(" "));
    if todo.completed {
        spans.push(Span::styled(todo.title.as_str(), Style::StruckDimmed));
    } else {
        spans.push(Span::plain(todo.title.as_str()));
    }
    Line { spans }
}

fn labelled(label: &str, value: &str) -> (r: Line)
    ensures
        r@ == seq![plain("  "@), styled(label@, Style::Dimmed), plain(": "@ + value@)],
{
    let mut spans: Vec<Span> = Vec::new();
    spans.push(Span::plain("  "));
    spans.push(Span::styled(label, Style::Dimmed));
    spans.push(Span::plain(join(": ", value).as_str()));
    Line { spans }
}

/// The lines that show one task.
pub fn print_todo_detail(todo: &Todo) -> (r: Vec<Line>)
    ensures
        r.deep_view() == detail_layout(todo@),
{
    let mut lines: Vec<Line> = Vec::new();
    lines.push(Line::single(Span::styled(rule_text().as_str(), Style::Dimmed)));

    let mut head: Vec<Span> = Vec::new();
    head.push(Span::plain("  "));
    head.push(Span::styled("Todo", Style::Bold));
    head.push(Span::plain(join(" #", format_i64(todo.id).as_str()).as_str()));
    assert(head.deep_view() =~= detail_layout(todo@)[1]);
    lines.push(Line { spans: head });

    lines.push(labelled("Title", todo.title.as_str()));

    let mut status: Vec<Span> = Vec::new();
    status.push(Span::plain("  "));
    status.push(Span::styled("Status", Style::Dimmed));
    status.push(Span::plain(": "));
    if todo.completed {
        status.push(Span::styled("Completed", Style::Green));
    } else {
        status.push(Span::styled("Pending", Style::Yellow));
    }
    assert(status.deep_view() =~= detail_layout(todo@)[3]);
    lines.push(Line { spans: status });

    lines.push(labelled("Created", format_datetime(todo.created_at.as_str()).as_str()));
    lines.push(labelled("Updated", format_datetime(todo.updated_at.as_str()).as_str()));
    lines.push(Line::single(Span::styled(rule_text().as_str(), Style::Dimmed)));
    lines
}

/// The lines that show a list of tasks as text.
pub fn print_todo_list(todos: &[Todo]) -> (r: Vec<Line>)
    ensures
        r.deep_view() == list_layout(todos.deep_view()),
{
    let mut lines: Vec<Line> = Vec::new();
    if todos.len() == 0 {
        lines.push(Line::single(Span::styled("No todos found.", Style::Dimmed)));
        return lines;
    }
    let mut header = String::from_str("📋 ");
    header.append(format_u64(todos.len() as u64).as_str());
    header.append(" todos:");
    lines.push(Line::single(Span::styled(header.as_str(), Style::Bold)));
    lines.push(Line::empty());
    let mut i: usize = 0;
    while i < todos.len()
        invariant
            i <= todos.len(),
            lines@.len() == i + 2,
            lines@[0]@ == count_header(todos@.len()),
            lines@[1]@ == Seq::<SpanView>::empty(),
            forall|k: int| 0 <= k < i ==> (#[trigger] lines@[k + 2])@ == todo_line(todos@[k]@),
        decreases todos.len() - i,
    {
        lines.push(print_todo_line(&todos[i]));
        i += 1;
    }
    proof {
        let shown = lines.deep_view();
        let wanted = list_layout(todos.deep_view());
        assert forall|k: int| 0 <= k < shown.len() implies shown[k] == wanted[k] by {
            if k >= 2 {
                assert(lines@[(k - 2) + 2]@ == todo_line(todos@[k - 2]@));
            }
        }
    }
    lines
}

/// What to show for a list of tasks in the given format.
pub fn print_todos(todos: &[Todo], format: &str) -> (r: Result<Vec<Line>, ClientError>)
    ensures
        lines_view(r) == todos_output(todos.deep_view(), format@),
{
    if is_json(format) {
        let doc = todos_to_json(todos);
        document_lines(pretty(&doc))
    } else {
        Ok(print_todo_list(todos))
    }
}

/// What to show for one task in the given format.
pub fn print_todo(todo: &Todo, format: &str) -> (r: Result<Vec<Line>, ClientError>)
    ensures
        lines_view(r) == todo_output(todo@, format@),
{
    if is_json(format) {
        let doc = todo.to_json();
        document_lines(pretty(&doc))
    } else {
        Ok(print_todo_detail(todo))
    }
}

} // verus!
