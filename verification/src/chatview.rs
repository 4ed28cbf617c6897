//! The transcript as styled lines.

use vstd::prelude::*;
use crate::app::{App, AppState};
use crate::journal::{chat_views, ChatMessage, ChatMessageView, MessageRole, RoleView};
use crate::lines::{lines_of, split_lines, texts};
use crate::styled::{
    bold, colored, inline_spans, italic, line_views, on, plain, render_inline_styles, span,
    span_views, Color, Line, Span, SpanView, Style,
};
use crate::summary::{format_tool_result, tool_summary};
use crate::text::{
    chars_of, has_prefix, has_suffix, ends_with, push_str, slice_of, starts_with, string_of,
};

verus! {

/// A piece of highlighted code.
#[derive(Debug)]
pub struct ColoredText {
    pub color: Color,
    pub text: String,
}

/// What the syntax highlighter made of the code of one line, if it could
/// highlight it.
pub type Highlight = Option<Vec<ColoredText>>;

/// The pieces that a vector holds.
pub open spec fn colored_views(v: Seq<ColoredText>) -> Seq<(Color, Seq<char>)> {
    Seq::new(v.len(), |i: int| (v[i].color, v[i].text@))
}

/// The view of a highlight.
pub open spec fn highlight_view(h: Highlight) -> Option<Seq<(Color, Seq<char>)>> {
    match h {
        Some(v) => Some(colored_views(v@)),
        None => None,
    }
}

/// The background of a line of a diff: green for an added line, red for a
/// removed one.
pub open spec fn diff_background(line: Seq<char>) -> Option<Color> {
    if line.len() > 0 && line[0] == '+' {
        Some(Color::Rgb(30, 50, 30))
    } else if line.len() > 0 && line[0] == '-' {
        Some(Color::Rgb(50, 30, 30))
    } else {
        None
    }
}

/// The colour of a line of a diff where its code is not highlighted.
pub open spec fn diff_foreground(line: Seq<char>) -> Color {
    if line.len() > 0 && line[0] == '+' {
        Color::Green
    } else if line.len() > 0 && line[0] == '-' {
        Color::Red
    } else {
        Color::Gray
    }
}

/// The code of a line of a diff: the line without its marker.
pub open spec fn diff_code(line: Seq<char>) -> Seq<char> {
    if line.len() > 0 && (line[0] == '+' || line[0] == '-') {
        line.skip(1)
    } else {
        line
    }
}

/// The marker of a line of a diff as it is shown, if the line has one.
pub open spec fn diff_marker(line: Seq<char>) -> Seq<SpanView> {
    if line.len() > 0 && (line[0] == '+' || line[0] == '-') {
        seq![span(line.take(1), on(colored(diff_foreground(line)), diff_background(line)))]
    } else {
        seq![]
    }
}

/// The highlighted pieces on the background of the line.
pub open spec fn on_background(pieces: Seq<(Color, Seq<char>)>, bg: Option<Color>) -> Seq<SpanView> {
    Seq::new(pieces.len(), |i: int| span(pieces[i].1, on(colored(pieces[i].0), bg)))
}

/// A line of a diff as it is shown: its marker, then its code, highlighted
/// where the highlighter could do it, on the background of the line.
pub open spec fn diff_line_spans(line: Seq<char>, highlight: Option<Seq<(Color, Seq<char>)>>) -> Seq<
    SpanView,
> {
    diff_marker(line) + match highlight {
        Some(pieces) => on_background(pieces, diff_background(line)),
        None => seq![
            span(diff_code(line), on(colored(diff_foreground(line)), diff_background(line))),
        ],
    }
}

/// The code of a line of a diff, which the highlighter is given.
pub fn code_of_diff_line(line: &str) -> (out: String)
    ensures
        out@ == diff_code(line@),
{
    let l = chars_of(line);
    if l.len() > 0 && (l[0] == '+' || l[0] == '-') {
        string_of(&slice_of(&l, 1, l.len()))
    } else {
        string_of(&l)
    }
}

/// Shows a line of a diff with its code highlighted.
pub fn highlight_diff_line(line: &str, highlight: &Highlight) -> (out: Vec<Span>)
    ensures
        span_views(out@) == diff_line_spans(line@, highlight_view(*highlight)),
{
    let l = chars_of(line);
    let added = l.len() > 0 && l[0] == '+';
    let removed = l.len() > 0 && l[0] == '-';
    let bg = if added {
        Some(Color::Rgb(30, 50, 30))
    } else if removed {
        Some(Color::Rgb(50, 30, 30))
    } else {
        None
    };
    let fg = if added {
        Color::Green
    } else if removed {
        Color::Red
    } else {
        Color::Gray
    };
    let mut spans: Vec<Span> = Vec::new();
    if added || removed {
        let m = slice_of(&l, 0, 1);
        assert(m@ =~= line@.take(1));
        spans.push(Span::of_chars(&m, Style::fg(fg).on(bg)));
    }
    assert(span_views(spans@) =~= diff_marker(line@));
    match highlight {
        Some(pieces) => {
            let ghost head = span_views(spans@);
            let ghost want = on_background(colored_views(pieces@), bg);
            let mut i: usize = 0;
            assert(head + want.take(0) =~= head);
            while i < pieces.len()
                invariant
                    i <= pieces.len(),
                    want == on_background(colored_views(pieces@), bg),
                    span_views(spans@) == head + want.take(i as int),
                decreases pieces.len() - i,
            {
                let s = Span::styled(pieces[i].text.as_str(), Style::fg(pieces[i].color).on(bg));
                proof {
                    assert(s@ == want[i as int]);
                    assert(span_views(spans@.push(s)) =~= span_views(spans@).push(s@));
                    assert(head + want.take(i + 1) =~= (head + want.take(i as int)).push(s@));
                }
                spans.push(s);
                i += 1;
            }
            assert(want.take(i as int) =~= want);
        },
        None => {
            let code = if added || removed {
                slice_of(&l, 1, l.len())
            } else {
                slice_of(&l, 0, l.len())
            };
            assert(code@ =~= diff_code(line@));
            let s = Span::of_chars(&code, Style::fg(fg).on(bg));
            assert(span_views(spans@.push(s)) =~= span_views(spans@).push(s@));
            spans.push(s);
            assert(span_views(spans@) =~= diff_line_spans(line@, None));
        },
    }
    spans
}

/// A text without the asterisks at its two ends.
pub open spec fn without_stars(s: Seq<char>) -> Seq<char> {
    stars_off_end(stars_off_start(s))
}

/// A text without the asterisks it begins with.
pub open spec fn stars_off_start(s: Seq<char>) -> Seq<char>
    decreases s.len(),
{
    if s.len() > 0 && s[0] == '*' {
        stars_off_start(s.drop_first())
    } else {
        s
    }
}

/// A text without the asterisks it ends with.
pub open spec fn stars_off_end(s: Seq<char>) -> Seq<char>
    decreases s.len(),
{
    if s.len() > 0 && s.last() == '*' {
        stars_off_end(s.drop_last())
    } else {
        s
    }
}

fn strip_stars(s: &Vec<char>) -> (out: Vec<char>)
    ensures
        out@ == without_stars(s@),
{
    let mut a: usize = 0;
    assert(s@.skip(0) =~= s@);
    while a < s.len() && s[a] == '*'
        invariant
            a <= s.len(),
            stars_off_start(s@) == stars_off_start(s@.skip(a as int)),
        decreases s.len() - a,
    {
        proof {
            assert(s@.skip(a as int).drop_first() =~= s@.skip(a + 1));
        }
        a += 1;
    }
    assert(stars_off_start(s@) == s@.skip(a as int));
    let mut b: usize = s.len();
    while b > a && s[b - 1] == '*'
        invariant
            a <= b <= s.len(),
            without_stars(s@) == stars_off_end(s@.subrange(a as int, b as int)),
        decreases b,
    {
        proof {
            assert(s@.subrange(a as int, b as int).drop_last() =~= s@.subrange(a as int, b - 1));
        }
        b -= 1;
    }
    slice_of(s, a, b)
}

/// A line of the assistant as it is shown: headings in magenta, bullets with
/// a dot, the fence of a code block in gray, a line in asterisks in bold,
/// any other line with its inline markers carried out.
pub open spec fn assistant_line(line: Seq<char>) -> Seq<SpanView> {
    if starts_with(line, "### "@) {
        seq![span(line.subrange("### "@.len() as int, line.len() as int), italic(colored(Color::Magenta)))]
    } else if starts_with(line, "## "@) {
        seq![span(line.subrange("## "@.len() as int, line.len() as int), colored(Color::Magenta))]
    } else if starts_with(line, "# "@) {
        seq![span(line.subrange("# "@.len() as int, line.len() as int), bold(colored(Color::Magenta)))]
    } else if starts_with(line, "- "@) || starts_with(line, "* "@) {
        seq![span("  • "@, colored(Color::Magenta))] + inline_spans(
            line.subrange("- "@.len() as int, line.len() as int),
            None,
        )
    } else if starts_with(line, "```"@) {
        seq![span(line, colored(Color::Gray))]
    } else if starts_with(line, "**"@) && ends_with(line, "**"@) {
        seq![span(without_stars(line), bold(plain()))]
    } else {
        inline_spans(line, None)
    }
}

fn after(line: &Vec<char>, prefix: &str) -> (out: Option<Vec<char>>)
    ensures
        out is Some <==> starts_with(line@, prefix@),
        out is Some ==> out->0@ == line@.subrange(prefix@.len() as int, line@.len() as int),
{
    let p = chars_of(prefix);
    if has_prefix(line, &p) {
        Some(slice_of(line, p.len(), line.len()))
    } else {
        None
    }
}

/// Shows a line of the assistant.
pub fn render_assistant_line(line: &Vec<char>) -> (out: Line)
    ensures
        out@ == assistant_line(line@),
{
    match after(line, "### ") {
        Some(rest) => {
            return Line::single(Span::of_chars(&rest, Style::fg(Color::Magenta).italic()));
        },
        None => {},
    }
    match after(line, "## ") {
        Some(rest) => {
            return Line::single(Span::of_chars(&rest, Style::fg(Color::Magenta)));
        },
        None => {},
    }
    match after(line, "# ") {
        Some(rest) => {
            return Line::single(Span::of_chars(&rest, Style::fg(Color::Magenta).bold()));
        },
        None => {},
    }
    let dash = after(line, "- ");
    let star = after(line, "* ");
    if dash.is_some() || star.is_some() {
        proof {
            reveal_strlit("- ");
            reveal_strlit("* ");
        }
        let rest = slice_of(line, 2, line.len());
        let mut spans: Vec<Span> = Vec::new();
        spans.push(Span::styled("  • ", Style::fg(Color::Magenta)));
        let mut more = render_inline_styles(string_of(&rest).as_str(), None);
        let ghost head = span_views(spans@);
        let ghost tail = span_views(more@);
        assert(head =~= seq![span("  • "@, colored(Color::Magenta))]);
        spans.append(&mut more);
        assert(span_views(spans@) =~= head + tail);
        return Line { spans };
    }
    if has_prefix(line, &chars_of("```")) {
        return Line::single(Span::of_chars(line, Style::fg(Color::Gray)));
    }
    let stars = chars_of("**");
    if has_prefix(line, &stars) && has_suffix(line, &stars) {
        let inner = strip_stars(line);
        return Line::single(Span::of_chars(&inner, Style::new().bold()));
    }
    Line { spans: render_inline_styles(string_of(line).as_str(), None) }
}

/// The colour of what the user said.
pub open spec fn user_color() -> Color {
    Color::Rgb(100, 220, 215)
}

/// The first line of a tool's message: a diamond, then the text in gray.
pub open spec fn tool_head(text: Seq<char>) -> Seq<SpanView> {
    seq![span("  ◇ "@, colored(Color::Magenta)), span(text, colored(Color::Gray))]
}

/// A further line of a tool's message: indented, in gray.
pub open spec fn tool_more(text: Seq<char>) -> Seq<SpanView> {
    seq![span("    "@, plain()), span(text, colored(Color::Gray))]
}

/// The highlight of line `k`, as far as one was given.
pub open spec fn highlight_at(highlights: Seq<Highlight>, k: int) -> Option<Seq<(Color, Seq<char>)>> {
    if 0 <= k < highlights.len() {
        highlight_view(highlights[k])
    } else {
        None
    }
}

/// The lines of a diff but the first, as they are shown: empty lines left
/// out, every other one indented and highlighted.
pub open spec fn diff_body(lines: Seq<Seq<char>>, highlights: Seq<Highlight>, upto: int) -> Seq<
    Seq<SpanView>,
>
    decreases upto,
{
    if upto <= 1 || upto > lines.len() {
        seq![]
    } else if lines[upto - 1].len() == 0 {
        diff_body(lines, highlights, upto - 1)
    } else {
        diff_body(lines, highlights, upto - 1).push(
            seq![span("    "@, plain())] + diff_line_spans(
                lines[upto - 1],
                highlight_at(highlights, upto - 1),
            ),
        )
    }
}

/// The lines of a text but the first, each as a further line of a tool's
/// message.
pub open spec fn more_lines(lines: Seq<Seq<char>>, upto: int) -> Seq<Seq<SpanView>>
    decreases upto,
{
    if upto <= 1 || upto > lines.len() {
        seq![]
    } else {
        more_lines(lines, upto - 1).push(tool_more(lines[upto - 1]))
    }
}

/// The lines of the assistant's message.
pub open spec fn assistant_lines(lines: Seq<Seq<char>>) -> Seq<Seq<SpanView>> {
    Seq::new(lines.len(), |i: int| assistant_line(lines[i]))
}

/// Whether a tool's message holds a diff.
pub open spec fn shows_diff(name: Seq<char>) -> bool {
    name == "write_file"@ || name == "edit_file"@
}

/// The texts of a list of optional strings.
pub open spec fn code_views(v: Seq<Option<String>>) -> Seq<Option<Seq<char>>> {
    Seq::new(v.len(), |i: int| crate::sandbox::opt_text(v[i]))
}

/// What the highlighter is to be given of a message, line by line: of the
/// message of a tool that wrote a file, the code of every line but the first
/// and the empty ones; of any other message, nothing.
pub open spec fn highlight_requests(m: ChatMessageView) -> Seq<Option<Seq<char>>> {
    match m.role {
        RoleView::Tool { name, path } => if shows_diff(name) {
            Seq::new(
                lines_of(m.content).len(),
                |k: int|
                    if k == 0 || lines_of(m.content)[k].len() == 0 {
                        None
                    } else {
                        Some(diff_code(lines_of(m.content)[k]))
                    },
            )
        } else {
            Seq::empty()
        },
        _ => Seq::empty(),
    }
}

/// Says what the highlighter is to be given of a message, line by line.
pub fn lines_to_highlight(m: &ChatMessage) -> (out: Vec<Option<String>>)
    ensures
        code_views(out@) == highlight_requests(m@),
{
    let mut out: Vec<Option<String>> = Vec::new();
    match &m.role {
        MessageRole::Tool { name, .. } => {
            let is_diff = crate::text::str_eq(name.as_str(), "write_file") || crate::text::str_eq(
                name.as_str(),
                "edit_file",
            );
            if is_diff {
                let content = split_lines(&chars_of(m.content.as_str()));
                assert(texts(content@).len() == content@.len());
                let mut k: usize = 0;
                while k < content.len()
                    invariant
                        k <= content.len(),
                        out.len() == k,
                        texts(content@) == lines_of(m.content@),
                        forall|j: int|
                            0 <= j < k ==> crate::sandbox::opt_text(#[trigger] out@[j]) == if j == 0
                                || content@[j]@.len() == 0 {
                                None::<Seq<char>>
                            } else {
                                Some(diff_code(content@[j]@))
                            },
                    decreases content.len() - k,
                {
                    if k == 0 || content[k].len() == 0 {
                        out.push(None);
                    } else {
                        out.push(Some(code_of_diff_line(string_of(&content[k]).as_str())));
                    }
                    k += 1;
                }
                proof {
                    let want = highlight_requests(m@);
                    assert(want.len() == out@.len());
                    assert forall|j: int| 0 <= j < out@.len() implies code_views(out@)[j]
                        == want[j] by {
                        assert(texts(content@)[j] == content@[j]@);
                    }
                    assert(code_views(out@) =~= want);
                }
            } else {
                assert(code_views(out@) =~= highlight_requests(m@));
            }
        },
        _ => {
            assert(code_views(out@) =~= highlight_requests(m@));
        },
    }
    out
}

/// A message as the transcript shows it. `highlights` holds, for the
/// message of a tool that wrote a file, the highlight of each of its lines.
pub open spec fn message_lines(m: ChatMessageView, highlights: Seq<Highlight>) -> Seq<Seq<SpanView>> {
    match m.role {
        RoleView::User => seq![
            Seq::<SpanView>::empty(),
            seq![span("› "@, colored(user_color())), span(m.content, colored(user_color()))],
        ],
        RoleView::Assistant => seq![Seq::<SpanView>::empty()] + assistant_lines(
            lines_of(m.content),
        ),
        RoleView::Tool { name, path } => if shows_diff(name) {
            let lines = lines_of(m.content);
            if lines.len() == 0 {
                seq![]
            } else {
                seq![tool_head(lines[0])] + diff_body(lines, highlights, lines.len() as int)
            }
        } else {
            let lines = lines_of(tool_summary(name, path, m.content));
            if lines.len() == 0 {
                seq![]
            } else {
                seq![tool_head(lines[0])] + more_lines(lines, lines.len() as int)
            }
        },
    }
}

/// The highlights of message `i`, as far as any were given.
pub open spec fn highlights_at(highlights: Seq<Vec<Highlight>>, i: int) -> Seq<Highlight> {
    if 0 <= i < highlights.len() {
        highlights[i]@
    } else {
        Seq::empty()
    }
}

/// The first `upto` messages as the transcript shows them.
pub open spec fn messages_lines(
    messages: Seq<ChatMessageView>,
    highlights: Seq<Vec<Highlight>>,
    upto: int,
) -> Seq<Seq<SpanView>>
    decreases upto,
{
    if upto <= 0 || upto > messages.len() {
        seq![]
    } else {
        messages_lines(messages, highlights, upto - 1) + message_lines(
            messages[upto - 1],
            highlights_at(highlights, upto - 1),
        )
    }
}

/// What the transcript shows of the state: while the agent is busy, the
/// spinner and what it is busy with.
pub open spec fn status_lines(state: AppState, spinner: char) -> Seq<Seq<SpanView>> {
    match state {
        AppState::Idle => seq![],
        AppState::Thinking => seq![
            Seq::<SpanView>::empty(),
            seq![
                span(seq![spinner, ' '], colored(Color::Magenta)),
                span("Thinking..."@, colored(Color::Gray)),
            ],
        ],
        AppState::ToolCall(label) => seq![
            Seq::<SpanView>::empty(),
            seq![span(seq![spinner, ' '], colored(Color::Magenta)), span(label@, colored(Color::Gray))],
        ],
    }
}

/// What the transcript shows of an error: a cross and the error, in red.
pub open spec fn error_lines(error: Option<String>) -> Seq<Seq<SpanView>> {
    match error {
        Some(e) => seq![Seq::<SpanView>::empty(), seq![span("✗ "@ + e@, colored(Color::Red))]],
        None => seq![],
    }
}

/// Everything that the chat area shows: the messages, what the agent is busy
/// with, and the error.
pub open spec fn chat_lines_of(app: &App, spinner: char, highlights: Seq<Vec<Highlight>>) -> Seq<
    Seq<SpanView>,
> {
    messages_lines(app.chat(), highlights, app.chat().len() as int) + status_lines(
        app.state,
        spinner,
    ) + error_lines(app.error)
}

fn push_line(lines: &mut Vec<Line>, line: Line)
    ensures
        line_views(final(lines)@) == line_views(old(lines)@).push(line@),
{
    assert(line_views(lines@.push(line)) =~= line_views(lines@).push(line@));
    lines.push(line);
}

fn push_message(lines: &mut Vec<Line>, m: &ChatMessage, highlights: &Vec<Highlight>)
    ensures
        line_views(final(lines)@) == line_views(old(lines)@) + message_lines(m@, highlights@),
{
    let ghost base = line_views(lines@);
    match &m.role {
        MessageRole::User => {
            push_line(lines, Line::blank());
            let color = Style::fg(Color::Rgb(100, 220, 215));
            push_line(
                lines,
                Line::pair(Span::styled("› ", color), Span::styled(m.content.as_str(), color)),
            );
            assert(line_views(lines@) =~= base + message_lines(m@, highlights@));
        },
        MessageRole::Assistant => {
            push_line(lines, Line::blank());
            let content = split_lines(&chars_of(m.content.as_str()));
            assert(texts(content@).len() == content@.len());
            let ghost head = line_views(lines@);
            let ghost want = assistant_lines(texts(content@));
            let mut i: usize = 0;
            assert(head + want.take(0) =~= head);
            while i < content.len()
                invariant
                    i <= content.len(),
                    want == assistant_lines(texts(content@)),
                    line_views(lines@) == head + want.take(i as int),
                decreases content.len() - i,
            {
                let l = render_assistant_line(&content[i]);
                assert(l@ == want[i as int]);
                push_line(lines, l);
                assert(head + want.take(i + 1) =~= (head + want.take(i as int)).push(l@));
                i += 1;
            }
            assert(want.take(i as int) =~= want);
            assert(line_views(lines@) =~= base + message_lines(m@, highlights@));
        },
        MessageRole::Tool { name, path } => {
            let is_diff = crate::text::str_eq(name.as_str(), "write_file") || crate::text::str_eq(
                name.as_str(),
                "edit_file",
            );
            if is_diff {
                let content = split_lines(&chars_of(m.content.as_str()));
                assert(texts(content@).len() == content@.len());
                if content.len() == 0 {
                    assert(line_views(lines@) =~= base + message_lines(m@, highlights@));
                    return;
                }
                assert(texts(content@)[0] == content@[0]@);
                push_line(
                    lines,
                    Line::pair(
                        Span::styled("  ◇ ", Style::fg(Color::Magenta)),
                        Span::of_chars(&content[0], Style::fg(Color::Gray)),
                    ),
                );
                let ghost head = line_views(lines@);
                let mut k: usize = 1;
                assert(head + diff_body(texts(content@), highlights@, 1) =~= head);
                while k < content.len()
                    invariant
                        1 <= k <= content.len(),
                        line_views(lines@) == head + diff_body(
                            texts(content@),
                            highlights@,
                            k as int,
                        ),
                    decreases content.len() - k,
                {
                    assert(texts(content@)[k as int] == content@[k as int]@);
                    if content[k].len() > 0 {
                        let none: Highlight = None;
                        let h = if k < highlights.len() {
                            &highlights[k]
                        } else {
                            &none
                        };
                        let mut spans: Vec<Span> = Vec::new();
                        spans.push(Span::raw("    "));
                        let ghost first = span_views(spans@);
                        assert(first =~= seq![span("    "@, plain())]);
                        let mut shown = highlight_diff_line(
                            string_of(&content[k]).as_str(),
                            h,
                        );
                        let ghost tail = span_views(shown@);
                        spans.append(&mut shown);
                        assert(span_views(spans@) =~= first + tail);
                        push_line(lines, Line { spans });
                    }
                    k += 1;
                    assert(line_views(lines@) =~= head + diff_body(
                        texts(content@),
                        highlights@,
                        k as int,
                    ));
                }
                assert(line_views(lines@) =~= base + message_lines(m@, highlights@));
            } else {
                let display = format_tool_result(
                    name.as_str(),
                    match path {
                        Some(p) => Some(p.as_str()),
                        None => None,
                    },
                    m.content.as_str(),
                );
                let content = split_lines(&chars_of(display.as_str()));
                assert(texts(content@).len() == content@.len());
                if content.len() == 0 {
                    assert(line_views(lines@) =~= base + message_lines(m@, highlights@));
                    return;
                }
                assert(texts(content@)[0] == content@[0]@);
                push_line(
                    lines,
                    Line::pair(
                        Span::styled("  ◇ ", Style::fg(Color::Magenta)),
                        Span::of_chars(&content[0], Style::fg(Color::Gray)),
                    ),
                );
                let ghost head = line_views(lines@);
                let mut k: usize = 1;
                assert(head + more_lines(texts(content@), 1) =~= head);
                while k < content.len()
                    invariant
                        1 <= k <= content.len(),
                        line_views(lines@) == head + more_lines(texts(content@), k as int),
                    decreases content.len() - k,
                {
                    assert(texts(content@)[k as int] == content@[k as int]@);
                    push_line(
                        lines,
                        Line::pair(
                            Span::raw("    "),
                            Span::of_chars(&content[k], Style::fg(Color::Gray)),
                        ),
                    );
                    k += 1;
                    assert(line_views(lines@) =~= head + more_lines(texts(content@), k as int));
                }
                assert(line_views(lines@) =~= base + message_lines(m@, highlights@));
            }
        },
    }
}

/// Builds everything that the chat area shows. `highlights` holds, for each
/// message, what the highlighter made of each of its lines; what it lacks
/// is shown without highlighting.
pub fn chat_lines(app: &App, spinner: char, highlights: &Vec<Vec<Highlight>>) -> (out: Vec<Line>)
    ensures
        line_views(out@) == chat_lines_of(app, spinner, highlights@),
{
    let mut lines: Vec<Line> = Vec::new();
    assert(line_views(lines@) =~= Seq::empty());
    let none: Vec<Highlight> = Vec::new();
    let mut i: usize = 0;
    assert(chat_views(app.messages@).len() == app.messages@.len());
    while i < app.messages.len()
        invariant
            i <= app.messages.len(),
            none@.len() == 0,
            line_views(lines@) == messages_lines(app.chat(), highlights@, i as int),
        decreases app.messages.len() - i,
    {
        let h = if i < highlights.len() {
            &highlights[i]
        } else {
            &none
        };
        assert(h@ =~= highlights_at(highlights@, i as int));
        assert(app.chat()[i as int] == app.messages@[i as int]@);
        push_message(&mut lines, &app.messages[i], h);
        i += 1;
    }
    let ghost shown = line_views(lines@);
    let mut mark: Vec<char> = Vec::new();
    mark.push(spinner);
    mark.push(' ');
    assert(mark@ =~= seq![spinner, ' ']);
    match &app.state {
        AppState::Idle => {
            assert(shown + status_lines(app.state, spinner) =~= shown);
        },
        AppState::Thinking => {
            push_line(&mut lines, Line::blank());
            push_line(
                &mut lines,
                Line::pair(
                    Span::of_chars(&mark, Style::fg(Color::Magenta)),
                    Span::styled("Thinking...", Style::fg(Color::Gray)),
                ),
            );
            assert(line_views(lines@) =~= shown + status_lines(app.state, spinner));
        },
        AppState::ToolCall(label) => {
            push_line(&mut lines, Line::blank());
            push_line(
                &mut lines,
                Line::pair(
                    Span::of_chars(&mark, Style::fg(Color::Magenta)),
                    Span::styled(label.as_str(), Style::fg(Color::Gray)),
                ),
            );
            assert(line_views(lines@) =~= shown + status_lines(app.state, spinner));
        },
    }
    let ghost with_status = line_views(lines@);
    match &app.error {
        Some(e) => {
            push_line(&mut lines, Line::blank());
            let mut t = chars_of("✗ ");
            push_str(&mut t, e.as_str());
            push_line(&mut lines, Line::single(Span::of_chars(&t, Style::fg(Color::Red))));
            assert(line_views(lines@) =~= with_status + error_lines(app.error));
        },
        None => {
            assert(with_status + error_lines(app.error) =~= with_status);
        },
    }
    lines
}

} // verus!
