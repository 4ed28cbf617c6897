//! The frame: what each area of the screen shows.

use vstd::prelude::*;
use crate::app::{App, PermissionModal};
use crate::chatview::{chat_lines, chat_lines_of, Highlight};
use crate::config::Mode;
use crate::layout::{
    calculate_input_height, clamp_scroll, content_height, input_height, least, minus, total_rows,
    within_u16, wrapped_cursor, Rect,
};
use crate::lines::{decimal, push_decimal, strs};
use crate::picker::PickerMode;
use crate::styled::{
    bold, colored, line_views, plain, span, span_views, Color, Line, Span, SpanView, Style,
};
use crate::text::{chars_of, push_all, push_str, slice_of, string_of};

verus! {

/// The number of columns that a text takes on the screen, as `ratatui`
/// counts them.
pub uninterp spec fn display_width(text: Seq<char>) -> nat;

/// The width of a text on the screen: that of a `ratatui::text::Span` of the
/// text, which `Span::width` gives.
#[verifier::external_body]
pub(crate) fn span_width(text: &str) -> (out: usize)
    ensures
        out == display_width(text@),
{
    ratatui::text::Span::raw(text).width()
}

/// The width of a line on the screen: the widths of its spans together, kept
/// within the range of the machine.
pub open spec fn line_width_of(spans: Seq<SpanView>) -> nat
    decreases spans.len(),
{
    if spans.len() == 0 {
        0
    } else {
        let sum = line_width_of(spans.drop_last()) + display_width(spans.last().content);
        if sum > usize::MAX {
            usize::MAX as nat
        } else {
            sum
        }
    }
}

/// Computes `line_width_of`.
pub fn line_width(line: &Line) -> (out: usize)
    ensures
        out == line_width_of(line@),
{
    let mut sum: usize = 0;
    let mut i: usize = 0;
    assert(line@.take(0) =~= Seq::empty());
    while i < line.spans.len()
        invariant
            i <= line.spans.len(),
            sum == line_width_of(line@.take(i as int)),
        decreases line.spans.len() - i,
    {
        proof {
            assert(line@.take(i + 1).drop_last() =~= line@.take(i as int));
            assert(line@.take(i + 1).last() == line.spans@[i as int]@);
        }
        let w = span_width(line.spans[i].content.as_str());
        sum = if sum <= usize::MAX - w {
            sum + w
        } else {
            usize::MAX
        };
        i += 1;
    }
    assert(line@.take(i as int) =~= line@);
    sum
}

/// The widths of the given lines.
pub open spec fn widths_of(lines: Seq<Seq<SpanView>>) -> Seq<usize> {
    Seq::new(lines.len(), |i: int| line_width_of(lines[i]) as usize)
}

/// The line that an empty transcript shows.
pub open spec fn welcome_line() -> Seq<SpanView> {
    seq![
        span("Type "@, colored(Color::Gray)),
        span("/help"@, colored(Color::Magenta)),
        span(" for commands"@, colored(Color::Gray)),
    ]
}

/// What the chat area shows, and from which line on.
#[derive(Debug)]
pub struct ChatFrame {
    pub lines: Vec<Line>,
    /// The first line shown.
    pub top: u16,
}

/// Draws the chat area: for an empty transcript a hint; else every line of
/// the transcript, scrolled so that the end shows unless the user scrolled
/// up. The scroll offset is kept within what does not fit into the view.
pub fn draw_chat(
    app: &mut App,
    inner: Rect,
    spinner: char,
    highlights: &Vec<Vec<Highlight>>,
) -> (out: ChatFrame)
    requires
        old(app).wf(),
    ensures
        final(app).wf(),
        final(app).same_journal(old(app)),
        final(app).same_turn(old(app)),
        final(app).same_settings(old(app)),
        final(app).editor == old(app).editor,
        final(app).session == old(app).session,
        final(app).error == old(app).error,
        old(app).chat().len() == 0 ==> line_views(out.lines@) == seq![welcome_line()] && out.top == 0
            && final(app).scroll_offset == old(app).scroll_offset,
        old(app).chat().len() > 0 ==> {
            let lines = chat_lines_of(old(app), spinner, highlights@);
            let height = within_u16(total_rows(widths_of(lines), inner.width as int));
            &&& line_views(out.lines@) == lines
            &&& final(app).scroll_offset as int == least(
                old(app).scroll_offset as int,
                minus(height as int, inner.height as int),
            )
            &&& out.top as int == minus(height as int, inner.height as int) - final(app).scroll_offset
        },
{
    assert(app.chat().len() == app.messages@.len());
    if app.messages.len() == 0 {
        let mut spans: Vec<Span> = Vec::new();
        spans.push(Span::styled("Type ", Style::fg(Color::Gray)));
        spans.push(Span::styled("/help", Style::fg(Color::Magenta)));
        spans.push(Span::styled(" for commands", Style::fg(Color::Gray)));
        assert(span_views(spans@) =~= welcome_line());
        let mut lines: Vec<Line> = Vec::new();
        lines.push(Line { spans });
        assert(line_views(lines@) =~= seq![welcome_line()]);
        return ChatFrame { lines, top: 0 };
    }
    let lines = chat_lines(app, spinner, highlights);
    let mut widths: Vec<usize> = Vec::new();
    let mut i: usize = 0;
    while i < lines.len()
        invariant
            i <= lines.len(),
            widths.len() == i,
            forall|j: int| 0 <= j < i ==> widths@[j] == line_width_of(lines@[j]@) as usize,
        decreases lines.len() - i,
    {
        widths.push(line_width(&lines[i]));
        i += 1;
    }
    assert(widths@ =~= widths_of(line_views(lines@)));
    let height = content_height(&widths, inner.width);
    let scroll = clamp_scroll(app.scroll_offset, height, inner.height);
    app.scroll_offset = scroll.offset;
    ChatFrame { lines, top: scroll.top }
}

/// The input from position `i` on, in lines of `width` characters.
pub open spec fn chunks_from(s: Seq<char>, i: int, width: int) -> Seq<Seq<SpanView>>
    decreases s.len() - i,
{
    if i < 0 || i >= s.len() || width <= 0 {
        seq![]
    } else {
        seq![seq![span(s.subrange(i, least(i + width, s.len() as int)), plain())]] + chunks_from(
            s,
            least(i + width, s.len() as int),
            width,
        )
    }
}

/// The wrapped input: the prompt and what fits beside it on the first line,
/// then lines of `width` characters. With no room beside the prompt, or no
/// input, one line holds both.
pub open spec fn wrapped_input(prefix: Seq<char>, input: Seq<char>, prefix_width: int, width: int) -> Seq<
    Seq<SpanView>,
> {
    let cap = minus(width, prefix_width);
    if cap == 0 || input.len() == 0 {
        seq![seq![span(prefix, colored(Color::Cyan)), span(input, plain())]]
    } else {
        seq![
            seq![
                span(prefix, colored(Color::Cyan)),
                span(input.take(least(cap, input.len() as int)), plain()),
            ],
        ] + chunks_from(input, least(cap, input.len() as int), width)
    }
}

/// Wraps the input on character boundaries, with the prompt on the first
/// line.
pub fn wrap_input_lines(prefix: &str, input: &str, prefix_width: usize, width: usize) -> (out: Vec<
    Line,
>)
    ensures
        line_views(out@) == wrapped_input(prefix@, input@, prefix_width as int, width as int),
{
    let s = chars_of(input);
    let cap = if width >= prefix_width {
        width - prefix_width
    } else {
        0
    };
    let mut lines: Vec<Line> = Vec::new();
    if cap == 0 || s.len() == 0 {
        lines.push(
            Line::pair(Span::styled(prefix, Style::fg(Color::Cyan)), Span::raw(input)),
        );
        assert(line_views(lines@) =~= wrapped_input(
            prefix@,
            input@,
            prefix_width as int,
            width as int,
        ));
        return lines;
    }
    let first = if cap <= s.len() {
        cap
    } else {
        s.len()
    };
    let head = slice_of(&s, 0, first);
    assert(head@ =~= input@.take(first as int));
    lines.push(
        Line::pair(Span::styled(prefix, Style::fg(Color::Cyan)), Span::of_chars(&head, Style::new())),
    );
    let ghost base = line_views(lines@);
    assert(base =~= seq![
        seq![span(prefix@, colored(Color::Cyan)), span(input@.take(first as int), plain())],
    ]);
    let mut i: usize = first;
    while i < s.len()
        invariant
            first <= i <= s.len(),
            width > 0,
            s@ == input@,
            base + chunks_from(s@, first as int, width as int) == line_views(lines@) + chunks_from(
                s@,
                i as int,
                width as int,
            ),
        decreases s.len() - i,
    {
        let e = if width <= s.len() - i {
            i + width
        } else {
            s.len()
        };
        let part = slice_of(&s, i, e);
        let l = Line::single(Span::of_chars(&part, Style::new()));
        proof {
            assert(line_views(lines@.push(l)) =~= line_views(lines@).push(l@));
            assert(line_views(lines@).push(l@) + chunks_from(s@, e as int, width as int)
                =~= line_views(lines@) + chunks_from(s@, i as int, width as int));
        }
        lines.push(l);
        i = e;
    }
    assert(line_views(lines@) + chunks_from(s@, i as int, width as int) =~= line_views(lines@));
    lines
}

/// What the input area shows, and where the cursor of the terminal goes.
#[derive(Debug)]
pub struct InputFrame {
    pub lines: Vec<Line>,
    /// The column and the line of the cursor on the screen.
    pub cursor: (u16, u16),
}

/// The number of characters before the cursor, as far as the screen can
/// place it.
pub open spec fn placed_cursor(app: &App) -> usize {
    if app.editor.input_cursor <= usize::MAX - 2 {
        app.editor.input_cursor
    } else {
        (usize::MAX - 2) as usize
    }
}

/// Draws the input area inside `inner`: the wrapped input after the prompt,
/// and the cursor at its place in it.
pub fn draw_input(app: &App, inner: Rect) -> (out: InputFrame)
    ensures
        line_views(out.lines@) == wrapped_input("› "@, app.editor.input@, 2, inner.width as int),
        out.cursor.0 as int == least(
            within_u16(
                inner.x + within_u16(
                    wrapped_cursor(placed_cursor(app) as int, 2, inner.width as int).0,
                ),
            ) as int,
            minus(within_u16(inner.x + inner.width) as int, 1),
        ),
        out.cursor.1 as int == least(
            within_u16(
                inner.y + within_u16(
                    wrapped_cursor(placed_cursor(app) as int, 2, inner.width as int).1,
                ),
            ) as int,
            minus(within_u16(inner.y + inner.height) as int, 1),
        ),
{
    let lines = wrap_input_lines("› ", app.editor.input.as_str(), 2, inner.width as usize);
    let cursor = if app.editor.input_cursor <= usize::MAX - 2 {
        app.editor.input_cursor
    } else {
        usize::MAX - 2
    };
    InputFrame { lines, cursor: crate::layout::cursor_position(inner, cursor) }
}

/// The name of a mode as the header shows it.
pub open spec fn mode_name(mode: Mode) -> Seq<char> {
    match mode {
        Mode::Coding => "coding"@,
        Mode::Coach => "coach"@,
    }
}

/// The left part of the header: the name and the version of the program, the
/// provider in use, and the mode.
pub open spec fn header_left(version: Seq<char>, provider: Seq<char>, mode: Mode) -> Seq<SpanView> {
    seq![
        span(" hal "@ + version, bold(colored(Color::Magenta))),
        span(" · "@, colored(Color::Gray)),
        span(provider, colored(Color::Cyan)),
        span(" ["@ + mode_name(mode) + "]"@, colored(Color::Gray)),
    ]
}

/// The right part of the header: the tokens of the last request.
pub open spec fn header_right(usage: Option<(u32, u32)>) -> Seq<char> {
    match usage {
        Some(u) => decimal(u.0 as nat) + " in / "@ + decimal(u.1 as nat) + " out "@,
        None => Seq::empty(),
    }
}

/// The columns that the left part of the header is taken to fill.
pub open spec fn header_left_len(version: Seq<char>, provider: Seq<char>, mode: Mode) -> int {
    (4 + 1 + version.len() + 3 + provider.len() + 2 + mode_name(mode).len() + 3) as int
}

/// The working directory as the header shows it: cut at its start, after an
/// ellipsis, where it is longer than the room between the two other parts.
pub open spec fn header_cwd(cwd: Seq<char>, available: int) -> Seq<char> {
    if cwd.len() > available && available > 3 {
        "…"@ + cwd.subrange(cwd.len() - (available - 1), cwd.len() as int)
    } else {
        cwd
    }
}

/// A text at a place of the screen.
#[derive(Debug)]
pub struct Placed {
    pub area: Rect,
    pub text: String,
}

/// The header: its left part, the working directory in the middle where
/// there is room for it, and the token usage at the right where there is
/// any.
#[derive(Debug)]
pub struct Header {
    pub left: Line,
    pub center: Option<Placed>,
    pub right: Option<Placed>,
}

/// Lays the header out in `area`.
pub fn draw_header(
    area: Rect,
    version: &str,
    provider: &str,
    mode: Mode,
    usage: Option<(u32, u32)>,
    cwd_full: &str,
) -> (out: Header)
    ensures
        out.left@ == header_left(version@, provider@, mode),
        ({
            let left_len = header_left_len(version@, provider@, mode);
            let right = header_right(usage);
            let available = minus(area.width as int, left_len + right.len() + 2);
            let cwd = header_cwd(cwd_full@, available);
            let center_x = minus(area.width as int, cwd.len() as int) / 2;
            &&& out.center is Some <==> (center_x > left_len && cwd.len() > 0)
            &&& out.center is Some ==> out.center->0.text@ == cwd && out.center->0.area == (Rect {
                x: within_u16(area.x + center_x),
                y: area.y,
                width: within_u16(cwd.len() as int),
                height: area.height,
            })
            &&& out.right is Some <==> right.len() > 0
            &&& out.right is Some ==> out.right->0.text@ == right && out.right->0.area == (Rect {
                x: within_u16(area.x + minus(area.width as int, within_u16(right.len() as int) as int)),
                y: area.y,
                width: within_u16(right.len() as int),
                height: area.height,
            })
        }),
{
    let mode_text = match mode {
        Mode::Coding => "coding",
        Mode::Coach => "coach",
    };
    let mut name = chars_of(" hal ");
    push_str(&mut name, version);
    let mut tag = chars_of(" [");
    push_str(&mut tag, mode_text);
    push_str(&mut tag, "]");
    let mut spans: Vec<Span> = Vec::new();
    spans.push(Span::of_chars(&name, Style::fg(Color::Magenta).bold()));
    spans.push(Span::styled(" · ", Style::fg(Color::Gray)));
    spans.push(Span::styled(provider, Style::fg(Color::Cyan)));
    spans.push(Span::of_chars(&tag, Style::fg(Color::Gray)));
    assert(span_views(spans@) =~= header_left(version@, provider@, mode));
    let left = Line { spans };

    let mut right: Vec<char> = Vec::new();
    match usage {
        Some(u) => {
            push_decimal(&mut right, u.0 as u128);
            push_str(&mut right, " in / ");
            push_decimal(&mut right, u.1 as u128);
            push_str(&mut right, " out ");
            assert(right@ =~= header_right(usage));
        },
        None => {
            assert(right@ =~= header_right(usage));
        },
    }
    let cwd_chars = chars_of(cwd_full);
    let v = version.unicode_len() as u128;
    let p = provider.unicode_len() as u128;
    let m = mode_text.unicode_len() as u128;
    let left_len: u128 = 4 + 1 + v + 3 + p + 2 + m + 3;
    let used: u128 = left_len + right.len() as u128 + 2;
    let available: u128 = if area.width as u128 >= used {
        area.width as u128 - used
    } else {
        0
    };
    let cwd: Vec<char> = if cwd_chars.len() as u128 > available && available > 3 {
        let keep = (available - 1) as usize;
        let mut c = chars_of("…");
        let tail = slice_of(&cwd_chars, cwd_chars.len() - keep, cwd_chars.len());
        push_all(&mut c, &tail);
        c
    } else {
        cwd_chars
    };
    assert(cwd@ =~= header_cwd(cwd_full@, available as int));
    let width = area.width as usize;
    let center_x: usize = if width >= cwd.len() {
        (width - cwd.len()) / 2
    } else {
        0
    };
    let center = if center_x as u128 > left_len && cwd.len() > 0 {
        let x: u16 = if area.x as usize + center_x > u16::MAX as usize {
            u16::MAX
        } else {
            (area.x as usize + center_x) as u16
        };
        let w: u16 = if cwd.len() > u16::MAX as usize {
            u16::MAX
        } else {
            cwd.len() as u16
        };
        Some(
            Placed {
                area: Rect { x, y: area.y, width: w, height: area.height },
                text: string_of(&cwd),
            },
        )
    } else {
        None
    };
    let right_placed = if right.len() > 0 {
        let w: u16 = if right.len() > u16::MAX as usize {
            u16::MAX
        } else {
            right.len() as u16
        };
        let off: u16 = if area.width >= w {
            area.width - w
        } else {
            0
        };
        let x: u16 = if area.x as u32 + off as u32 > u16::MAX as u32 {
            u16::MAX
        } else {
            area.x + off
        };
        Some(
            Placed {
                area: Rect { x, y: area.y, width: w, height: area.height },
                text: string_of(&right),
            },
        )
    } else {
        None
    };
    Header { left, center, right: right_placed }
}

/// The title of a picker.
pub open spec fn picker_title(mode: PickerMode) -> Seq<char> {
    match mode {
        PickerMode::Files => " Files "@,
        PickerMode::Commands => " Commands "@,
        PickerMode::Closed => Seq::empty(),
    }
}

/// A result of the picker as it is shown: the selected one in bold magenta
/// after an arrow; a command after a slash.
pub open spec fn picker_item(item: Seq<char>, selected: bool, mode: PickerMode) -> Seq<SpanView> {
    let style = if selected {
        bold(colored(Color::Magenta))
    } else {
        colored(Color::Gray)
    };
    seq![
        span(
            if selected {
                "› "@
            } else {
                "  "@
            },
            style,
        ),
        span(
            (if mode == PickerMode::Commands {
                "/"@
            } else {
                Seq::<char>::empty()
            }) + item,
            style,
        ),
    ]
}

/// The results of the picker as they are shown.
pub open spec fn picker_lines(results: Seq<Seq<char>>, selected: int, mode: PickerMode) -> Seq<
    Seq<SpanView>,
> {
    Seq::new(results.len(), |i: int| picker_item(results[i], i == selected, mode))
}

/// The list of the picker: its title and its items. A closed picker shows
/// nothing.
pub fn draw_picker(results: &Vec<String>, selected: usize, mode: PickerMode) -> (out: Option<
    (String, Vec<Line>),
>)
    ensures
        out is Some <==> mode != PickerMode::Closed,
        out is Some ==> (out->0).0@ == picker_title(mode) && line_views((out->0).1@) == picker_lines(
            strs(results@),
            selected as int,
            mode,
        ),
{
    let (title, commands) = match mode {
        PickerMode::Files => (" Files ", false),
        PickerMode::Commands => (" Commands ", true),
        PickerMode::Closed => {
            return None;
        },
    };
    let mut lines: Vec<Line> = Vec::new();
    let mut i: usize = 0;
    while i < results.len()
        invariant
            i <= results.len(),
            lines.len() == i,
            commands == (mode == PickerMode::Commands),
            forall|j: int|
                0 <= j < i ==> lines@[j]@ == picker_item(results@[j]@, j == selected, mode),
        decreases results.len() - i,
    {
        let chosen = i == selected;
        let style = if chosen {
            Style::fg(Color::Magenta).bold()
        } else {
            Style::fg(Color::Gray)
        };
        let mut text: Vec<char> = Vec::new();
        if commands {
            push_str(&mut text, "/");
        }
        push_str(&mut text, results[i].as_str());
        assert(text@ =~= (if mode == PickerMode::Commands {
            "/"@
        } else {
            Seq::<char>::empty()
        }) + results@[i as int]@);
        let l = Line::pair(
            Span::styled(
                if chosen {
                    "› "
                } else {
                    "  "
                },
                style,
            ),
            Span::of_chars(&text, style),
        );
        lines.push(l);
        i += 1;
    }
    assert(line_views(lines@) =~= picker_lines(strs(results@), selected as int, mode));
    Some((title.to_owned(), lines))
}

/// An answer of the question as it is shown: the selected one in bold
/// magenta after an arrow.
pub open spec fn option_line(option: Seq<char>, selected: bool) -> Seq<SpanView> {
    seq![
        span(
            (if selected {
                "› "@
            } else {
                "  "@
            }) + option,
            if selected {
                bold(colored(Color::Magenta))
            } else {
                colored(Color::White)
            },
        ),
    ]
}

/// What the question shows above its answers.
pub open spec fn modal_head(path: Seq<char>, reason: Seq<char>) -> Seq<Seq<SpanView>> {
    seq![
        seq![span("Permission Required"@, bold(colored(Color::Magenta)))],
        Seq::<SpanView>::empty(),
        seq![span("Path: "@, colored(Color::Gray)), span(path, colored(Color::Yellow))],
        seq![span(reason, colored(Color::Gray))],
        Seq::<SpanView>::empty(),
    ]
}

/// The answers of a question as they are shown.
pub open spec fn option_lines(options: Seq<&'static str>, selected: int) -> Seq<Seq<SpanView>> {
    Seq::new(options.len(), |i: int| option_line(options[i]@, i == selected))
}

/// The lines of the question: what is asked, for which path and why, and the
/// answers.
pub fn draw_permission_modal(modal: &PermissionModal) -> (out: Vec<Line>)
    ensures
        line_views(out@) == modal_head(modal.path@, modal.reason@) + option_lines(
            modal.options@,
            modal.selected as int,
        ),
{
    let mut lines: Vec<Line> = Vec::new();
    lines.push(Line::single(Span::styled("Permission Required", Style::fg(Color::Magenta).bold())));
    lines.push(Line::blank());
    lines.push(
        Line::pair(
            Span::styled("Path: ", Style::fg(Color::Gray)),
            Span::styled(modal.path.as_str(), Style::fg(Color::Yellow)),
        ),
    );
    lines.push(Line::single(Span::styled(modal.reason.as_str(), Style::fg(Color::Gray))));
    lines.push(Line::blank());
    let ghost head = line_views(lines@);
    assert(head =~= modal_head(modal.path@, modal.reason@));
    let ghost want = option_lines(modal.options@, modal.selected as int);
    let mut i: usize = 0;
    assert(head + want.take(0) =~= head);
    while i < modal.options.len()
        invariant
            i <= modal.options.len(),
            want == option_lines(modal.options@, modal.selected as int),
            line_views(lines@) == head + want.take(i as int),
        decreases modal.options.len() - i,
    {
        let chosen = i == modal.selected;
        let mut text: Vec<char> = Vec::new();
        if chosen {
            push_str(&mut text, "› ");
        } else {
            push_str(&mut text, "  ");
        }
        push_str(&mut text, modal.options[i]);
        let style = if chosen {
            Style::fg(Color::Magenta).bold()
        } else {
            Style::fg(Color::White)
        };
        let l = Line::single(Span::of_chars(&text, style));
        proof {
            assert(text@ =~= (if chosen {
                "› "@
            } else {
                "  "@
            }) + modal.options@[i as int]@);
            assert(l@ == want[i as int]);
            assert(line_views(lines@.push(l)) =~= line_views(lines@).push(l@));
            assert(head + want.take(i + 1) =~= (head + want.take(i as int)).push(l@));
        }
        lines.push(l);
        i += 1;
    }
    assert(want.take(i as int) =~= want);
    lines
}

/// What a frame is made of besides the header and the transcript: how high
/// the input area is, and whether the picker and the question are shown.
#[derive(Debug, Clone, Copy, PartialEq, Eq, Structural)]
pub struct FramePlan {
    pub input_height: u16,
    pub show_picker: bool,
    pub show_modal: bool,
}

/// Plans a frame for a screen of `width` columns. The input area is as high
/// as the wrapped input and the border above it. The picker is shown while
/// it is open and has results, the question while one is asked.
pub fn draw(app: &App, width: u16) -> (out: FramePlan)
    ensures
        out.input_height == input_height(
            app.editor.input@.len() as int,
            minus(width as int, 2),
        ),
        out.show_picker == (app.editor.picker_mode != PickerMode::Closed
            && app.editor.picker_results@.len() > 0),
        out.show_modal == (app.permission_modal is Some),
{
    let effective: usize = if width >= 2 {
        (width - 2) as usize
    } else {
        0
    };
    FramePlan {
        input_height: calculate_input_height(app.editor.input.as_str().unicode_len(), effective),
        show_picker: app.editor.picker_active() && app.editor.picker_results.len() > 0,
        show_modal: app.permission_modal.is_some(),
    }
}

} // verus!
