//! Styled text: what the renderer makes of the application before the
//! terminal library draws it.

use vstd::prelude::*;
use crate::text::{chars_of, string_of};

verus! {

/// A colour of the terminal.
#[derive(Debug, Clone, Copy, PartialEq, Eq, Structural)]
pub enum Color {
    Magenta,
    Gray,
    Cyan,
    Yellow,
    Green,
    Red,
    White,
    Rgb(u8, u8, u8),
}

/// How a piece of text is drawn.
#[derive(Debug, Clone, Copy, PartialEq, Eq, Structural)]
pub struct Style {
    pub fg: Option<Color>,
    pub bg: Option<Color>,
    pub bold: bool,
    pub italic: bool,
}

/// A piece of text in one style.
#[derive(Debug)]
pub struct Span {
    pub content: String,
    pub style: Style,
}

/// A span as its text and its style.
pub struct SpanView {
    pub content: Seq<char>,
    pub style: Style,
}

impl View for Span {
    type V = SpanView;

    open spec fn view(&self) -> SpanView {
        SpanView { content: self.content@, style: self.style }
    }
}

/// The spans that a vector holds.
pub open spec fn span_views(v: Seq<Span>) -> Seq<SpanView> {
    Seq::new(v.len(), |i: int| v[i]@)
}

/// A line of styled text.
#[derive(Debug)]
pub struct Line {
    pub spans: Vec<Span>,
}

impl View for Line {
    type V = Seq<SpanView>;

    open spec fn view(&self) -> Seq<SpanView> {
        span_views(self.spans@)
    }
}

/// The lines that a vector holds.
pub open spec fn line_views(v: Seq<Line>) -> Seq<Seq<SpanView>> {
    Seq::new(v.len(), |i: int| v[i]@)
}

/// The style that changes nothing.
pub open spec fn plain() -> Style {
    Style { fg: None, bg: None, bold: false, italic: false }
}

/// The style with a foreground colour and nothing else.
pub open spec fn colored(c: Color) -> Style {
    Style { fg: Some(c), bg: None, bold: false, italic: false }
}

/// The style `s` in bold.
pub open spec fn bold(s: Style) -> Style {
    Style { fg: s.fg, bg: s.bg, bold: true, italic: s.italic }
}

/// The style `s` in italics.
pub open spec fn italic(s: Style) -> Style {
    Style { fg: s.fg, bg: s.bg, bold: s.bold, italic: true }
}

/// The style `s` on a background colour, where one is given.
pub open spec fn on(s: Style, bg: Option<Color>) -> Style {
    match bg {
        Some(c) => Style { fg: s.fg, bg: Some(c), bold: s.bold, italic: s.italic },
        None => s,
    }
}

impl Style {
    /// The style that changes nothing.
    pub fn new() -> (out: Style)
        ensures
            out == plain(),
    {
        Style { fg: None, bg: None, bold: false, italic: false }
    }

    /// The style with a foreground colour and nothing else.
    pub fn fg(c: Color) -> (out: Style)
        ensures
            out == colored(c),
    {
        Style { fg: Some(c), bg: None, bold: false, italic: false }
    }

    /// This style in bold.
    pub fn bold(self) -> (out: Style)
        ensures
            out == bold(self),
    {
        Style { fg: self.fg, bg: self.bg, bold: true, italic: self.italic }
    }

    /// This style in italics.
    pub fn italic(self) -> (out: Style)
        ensures
            out == italic(self),
    {
        Style { fg: self.fg, bg: self.bg, bold: self.bold, italic: true }
    }

    /// This style on a background colour, where one is given.
    pub fn on(self, bg: Option<Color>) -> (out: Style)
        ensures
            out == on(self, bg),
    {
        match bg {
            Some(c) => Style { fg: self.fg, bg: Some(c), bold: self.bold, italic: self.italic },
            None => self,
        }
    }
}

impl Span {
    /// A span of the given text and style.
    pub fn styled(content: &str, style: Style) -> (out: Span)
        ensures
            out@ == (SpanView { content: content@, style }),
    {
        Span { content: content.to_owned(), style }
    }

    /// A span of the given characters and style.
    pub fn of_chars(content: &Vec<char>, style: Style) -> (out: Span)
        ensures
            out@ == (SpanView { content: content@, style }),
    {
        Span { content: string_of(content), style }
    }

    /// A span without a style.
    pub fn raw(content: &str) -> (out: Span)
        ensures
            out@ == (SpanView { content: content@, style: plain() }),
    {
        Span { content: content.to_owned(), style: Style::new() }
    }
}

/// The span of a text in a style.
pub open spec fn span(content: Seq<char>, style: Style) -> SpanView {
    SpanView { content, style }
}

impl Line {
    /// A line of one span.
    pub fn single(s: Span) -> (out: Line)
        ensures
            out@ == seq![s@],
    {
        let mut spans: Vec<Span> = Vec::new();
        spans.push(s);
        assert(span_views(spans@) =~= seq![s@]);
        Line { spans }
    }

    /// A line of two spans.
    pub fn pair(a: Span, b: Span) -> (out: Line)
        ensures
            out@ == seq![a@, b@],
    {
        let mut spans: Vec<Span> = Vec::new();
        spans.push(a);
        spans.push(b);
        assert(span_views(spans@) =~= seq![a@, b@]);
        Line { spans }
    }

    /// An empty line.
    pub fn blank() -> (out: Line)
        ensures
            out@ == Seq::<SpanView>::empty(),
    {
        let spans: Vec<Span> = Vec::new();
        assert(span_views(spans@) =~= Seq::<SpanView>::empty());
        Line { spans }
    }
}

/// The style of a piece of text between the markers of a line: yellow for
/// code, bold for bold text, else the style of the line.
pub open spec fn piece_style(base: Style, in_code: bool, in_bold: bool) -> Style {
    if in_code {
        colored(Color::Yellow)
    } else if in_bold {
        bold(base)
    } else {
        base
    }
}

/// The span of the text gathered so far, if any was gathered.
pub open spec fn flushed(current: Seq<char>, style: Style) -> Seq<SpanView> {
    if current.len() > 0 {
        seq![span(current, style)]
    } else {
        seq![]
    }
}

/// The spans of a line from position `i` on, with `current` gathered since
/// the last marker. A backtick outside bold text begins or ends code; two
/// asterisks outside code begin or end bold text; the markers are not shown.
pub open spec fn inline_from(
    s: Seq<char>,
    i: int,
    current: Seq<char>,
    in_code: bool,
    in_bold: bool,
    base: Style,
) -> Seq<SpanView>
    decreases s.len() - i,
{
    if i < 0 || i >= s.len() {
        flushed(current, piece_style(base, in_code, in_bold))
    } else if s[i] == '`' && !in_bold {
        flushed(current, piece_style(base, in_code, false)) + inline_from(
            s,
            i + 1,
            Seq::empty(),
            !in_code,
            in_bold,
            base,
        )
    } else if s[i] == '*' && i + 1 < s.len() && s[i + 1] == '*' && !in_code {
        flushed(current, piece_style(base, false, in_bold)) + inline_from(
            s,
            i + 2,
            Seq::empty(),
            in_code,
            !in_bold,
            base,
        )
    } else {
        inline_from(s, i + 1, current.push(s[i]), in_code, in_bold, base)
    }
}

/// The style of a line of the given colour.
pub open spec fn base_style(base_color: Option<Color>) -> Style {
    match base_color {
        Some(c) => colored(c),
        None => plain(),
    }
}

/// The spans of a line with its inline markers carried out; one empty span
/// for a line that shows nothing.
pub open spec fn inline_spans(line: Seq<char>, base_color: Option<Color>) -> Seq<SpanView> {
    let spans = inline_from(line, 0, Seq::empty(), false, false, base_style(base_color));
    if spans.len() == 0 {
        seq![span(""@, base_style(base_color))]
    } else {
        spans
    }
}

fn flush(spans: &mut Vec<Span>, current: &mut Vec<char>, style: Style)
    ensures
        span_views(final(spans)@) == span_views(old(spans)@) + flushed(old(current)@, style),
        final(current)@.len() == 0,
{
    if current.len() > 0 {
        let s = Span::of_chars(current, style);
        assert(span_views(spans@.push(s)) =~= span_views(spans@) + flushed(current@, style));
        spans.push(s);
    } else {
        assert(span_views(spans@) + flushed(current@, style) =~= span_views(spans@));
    }
    *current = Vec::new();
}

/// Carries out the inline markers of a line: text between backticks is code,
/// shown in yellow; text between pairs of asterisks is bold.
pub fn render_inline_styles(line: &str, base_color: Option<Color>) -> (out: Vec<Span>)
    ensures
        span_views(out@) == inline_spans(line@, base_color),
{
    let s = chars_of(line);
    let base = match base_color {
        Some(c) => Style::fg(c),
        None => Style::new(),
    };
    let mut spans: Vec<Span> = Vec::new();
    let mut current: Vec<char> = Vec::new();
    let mut in_code = false;
    let mut in_bold = false;
    let mut i: usize = 0;
    let ghost whole = inline_from(s@, 0, Seq::empty(), false, false, base);
    assert(span_views(spans@) =~= Seq::empty());
    while i < s.len()
        invariant
            i <= s.len(),
            s@ == line@,
            base == base_style(base_color),
            whole == span_views(spans@) + inline_from(s@, i as int, current@, in_code, in_bold, base),
        decreases s.len() - i,
    {
        let c = s[i];
        if c == '`' && !in_bold {
            let style = if in_code {
                Style::fg(Color::Yellow)
            } else {
                base
            };
            flush(&mut spans, &mut current, style);
            in_code = !in_code;
            i += 1;
            assert(current@ =~= Seq::empty());
        } else if c == '*' && i + 1 < s.len() && s[i + 1] == '*' && !in_code {
            let style = if in_bold {
                base.bold()
            } else {
                base
            };
            flush(&mut spans, &mut current, style);
            in_bold = !in_bold;
            i += 2;
            assert(current@ =~= Seq::empty());
        } else {
            current.push(c);
            i += 1;
        }
        assert(whole =~= span_views(spans@) + inline_from(
            s@,
            i as int,
            current@,
            in_code,
            in_bold,
            base,
        ));
    }
    let style = if in_code {
        Style::fg(Color::Yellow)
    } else if in_bold {
        base.bold()
    } else {
        base
    };
    flush(&mut spans, &mut current, style);
    assert(span_views(spans@) =~= whole);
    if spans.len() == 0 {
        spans.push(Span::styled("", base));
        assert(span_views(spans@) =~= seq![span(""@, base)]);
    }
    spans
}

} // verus!
