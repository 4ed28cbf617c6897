//! Where things go on the screen: the wrapped input line and its cursor, the
//! scroll position of the transcript, and the places of the header, the
//! picker and the question.

use vstd::prelude::*;
use crate::picker::MAX_PICKER_ITEMS;

verus! {

/// A rectangle of the screen.
#[derive(Debug, Clone, Copy, PartialEq, Eq, Structural)]
pub struct Rect {
    pub x: u16,
    pub y: u16,
    pub width: u16,
    pub height: u16,
}

/// The difference of two numbers, or 0 where the second is the larger.
pub open spec fn minus(a: int, b: int) -> int {
    if a >= b {
        a - b
    } else {
        0
    }
}

/// The smaller of two numbers.
pub open spec fn least(a: int, b: int) -> int {
    if a <= b {
        a
    } else {
        b
    }
}

/// A number kept within 16 bits.
pub open spec fn within_u16(a: int) -> u16 {
    if a > u16::MAX {
        u16::MAX
    } else if a < 0 {
        0
    } else {
        a as u16
    }
}

fn add16(a: u16, b: u16) -> (out: u16)
    ensures
        out == within_u16(a + b),
{
    if a <= u16::MAX - b {
        a + b
    } else {
        u16::MAX
    }
}

fn sub16(a: u16, b: u16) -> (out: u16)
    ensures
        out as int == minus(a as int, b as int),
{
    if a >= b {
        a - b
    } else {
        0
    }
}

fn usize16(a: usize) -> (out: u16)
    ensures
        out == within_u16(a as int),
{
    if a > u16::MAX as usize {
        u16::MAX
    } else {
        a as u16
    }
}

/// Where the cursor stands in the wrapped input: its column and its line.
/// The first line holds the prompt of `prefix_len` columns and then input;
/// each line after it holds `width` characters of input.
pub open spec fn wrapped_cursor(cursor: int, prefix_len: int, width: int) -> (int, int) {
    let first = minus(width, prefix_len);
    if cursor <= first || width <= 0 {
        (prefix_len + cursor, 0)
    } else {
        ((cursor - first) % width, 1 + (cursor - first) / width)
    }
}

/// Computes `wrapped_cursor`. Without columns the cursor stays on the first
/// line.
pub fn calculate_wrapped_cursor(cursor: usize, prefix_len: usize, width: usize) -> (out: (
    usize,
    usize,
))
    requires
        prefix_len + cursor <= usize::MAX,
    ensures
        (out.0 as int, out.1 as int) == wrapped_cursor(
            cursor as int,
            prefix_len as int,
            width as int,
        ),
{
    let first_line_cap = if width >= prefix_len {
        width - prefix_len
    } else {
        0
    };
    if cursor <= first_line_cap || width == 0 {
        (prefix_len + cursor, 0)
    } else {
        let remaining = cursor - first_line_cap;
        let line = remaining / width;
        assert(line <= remaining) by (nonlinear_arith)
            requires
                line == remaining / width,
                width > 0,
        ;
        assert(remaining < usize::MAX);
        (remaining % width, 1 + line)
    }
}

/// The number of lines that the input takes, with the prompt of two columns
/// on the first one.
pub open spec fn input_lines(input_len: int, width: int) -> int {
    let first = width - 2;
    if input_len <= first {
        1
    } else {
        1 + (input_len - first + width - 1) / width
    }
}

/// The height of the input area: the lines of the wrapped input and one for
/// the border above them; two where the screen has no room for input. The
/// height is kept within 16 bits.
pub open spec fn input_height(input_len: int, width: int) -> u16 {
    if width <= 2 {
        2
    } else {
        within_u16(input_lines(input_len, width) + 1)
    }
}

/// Computes `input_height`.
pub fn calculate_input_height(input_len: usize, width: usize) -> (out: u16)
    ensures
        out == input_height(input_len as int, width as int),
        out >= 2,
{
    if width <= 2 {
        return 2;
    }
    let first_line_cap = width - 2;
    if input_len <= first_line_cap {
        return 2;
    }
    let remaining = input_len - first_line_cap;
    let full = remaining / width;
    let rest = remaining % width;
    let lines: usize = if rest == 0 {
        full
    } else {
        full + 1
    };
    assert(lines as int == (remaining + width - 1) / (width as int)) by (nonlinear_arith)
        requires
            width > 0,
            full == remaining / width,
            rest == remaining % width,
            lines == if rest == 0 {
                full
            } else {
                (full + 1) as usize
            },
    {
        assert(remaining == full * width + rest);
        if rest == 0 {
            assert((full * width + width - 1) / (width as int) == full);
        } else {
            assert((full * width + rest + width - 1) / (width as int) == full + 1);
        }
    }
    if lines >= (u16::MAX - 2) as usize {
        u16::MAX
    } else {
        (lines + 2) as u16
    }
}

/// The frames of the spinner.
pub open spec fn spinner_frames() -> Seq<char> {
    seq!['⠋', '⠙', '⠹', '⠸', '⠼', '⠴', '⠦', '⠧', '⠇', '⠏']
}

/// The frame of the spinner at a time in milliseconds: ten frames, each for
/// 80 milliseconds.
pub fn get_spinner_frame(ms: u128) -> (out: char)
    ensures
        out == spinner_frames()[((ms / 80) % 10) as int],
{
    let k = (ms / 80) % 10;
    if k == 0 {
        '⠋'
    } else if k == 1 {
        '⠙'
    } else if k == 2 {
        '⠹'
    } else if k == 3 {
        '⠸'
    } else if k == 4 {
        '⠼'
    } else if k == 5 {
        '⠴'
    } else if k == 6 {
        '⠦'
    } else if k == 7 {
        '⠧'
    } else if k == 8 {
        '⠇'
    } else {
        '⠏'
    }
}

/// How long the loop waits for an event, in milliseconds: 50 while the agent
/// is busy, so that the spinner moves; without end while it is idle.
pub fn poll_timeout(idle: bool) -> (out: Option<u64>)
    ensures
        out == if idle {
            None::<u64>
        } else {
            Some(50u64)
        },
{
    if idle {
        None
    } else {
        Some(50)
    }
}

/// The scroll position of the transcript. `offset` counts the lines that the
/// view is scrolled up from the end; it is kept between 0 and the number of
/// lines that do not fit. `top` is the first line shown.
pub struct Scroll {
    pub offset: u16,
    pub top: u16,
}

/// Keeps the scroll offset in range and says which line is shown first. An
/// offset of 0 shows the end of the transcript.
pub fn clamp_scroll(offset: u16, content_height: u16, view_height: u16) -> (out: Scroll)
    ensures
        out.offset as int == least(offset as int, minus(content_height as int, view_height as int)),
        out.top as int == minus(content_height as int, view_height as int) - out.offset,
        0 <= out.offset <= minus(content_height as int, view_height as int),
{
    let max_scroll = sub16(content_height, view_height);
    let kept = if offset <= max_scroll {
        offset
    } else {
        max_scroll
    };
    Scroll { offset: kept, top: max_scroll - kept }
}

/// The rows that a line of the given display width takes in a view of
/// `width` columns: one, and one more for every full width.
pub open spec fn rows_of(line_width: int, width: int) -> int {
    if width <= 0 {
        1
    } else {
        1 + line_width / width
    }
}

/// The rows that lines of the given display widths take.
pub open spec fn total_rows(widths: Seq<usize>, width: int) -> int
    decreases widths.len(),
{
    if widths.len() == 0 {
        0
    } else {
        total_rows(widths.drop_last(), width) + rows_of(widths.last() as int, width)
    }
}

/// The height of the transcript in a view of `width` columns, kept within 16
/// bits.
pub fn content_height(widths: &Vec<usize>, width: u16) -> (out: u16)
    ensures
        out == within_u16(total_rows(widths@, width as int)),
{
    let mut sum: u32 = 0;
    let mut i: usize = 0;
    assert(widths@.take(0) =~= Seq::empty());
    while i < widths.len()
        invariant
            i <= widths.len(),
            sum <= u16::MAX,
            sum as int == within_u16(total_rows(widths@.take(i as int), width as int)) as int,
            total_rows(widths@.take(i as int), width as int) >= 0,
        decreases widths.len() - i,
    {
        proof {
            assert(widths@.take(i + 1).drop_last() =~= widths@.take(i as int));
            assert(widths@.take(i + 1).last() == widths@[i as int]);
        }
        let rows: usize = if width == 0 {
            1
        } else {
            let q = widths[i] / (width as usize);
            if q >= u16::MAX as usize {
                u16::MAX as usize
            } else {
                q + 1
            }
        };
        let capped: u32 = if rows >= u16::MAX as usize {
            u16::MAX as u32
        } else {
            rows as u32
        };
        sum = if sum + capped >= u16::MAX as u32 {
            u16::MAX as u32
        } else {
            sum + capped
        };
        i += 1;
    }
    assert(widths@.take(i as int) =~= widths@);
    sum as u16
}

/// A rectangle without one column at each side.
pub fn padded(r: Rect) -> (out: Rect)
    ensures
        out.x == within_u16(r.x + 1),
        out.y == r.y,
        out.width as int == minus(r.width as int, 2),
        out.height == r.height,
{
    Rect { x: add16(r.x, 1), y: r.y, width: sub16(r.width, 2), height: r.height }
}

/// Where the picker goes: above the input area, three columns in, as high as
/// its results and its border, and 40 columns wide where the screen has
/// them.
pub fn picker_area(input_area: Rect, results: usize) -> (out: Rect)
    ensures
        out.height as int == least(results as int, MAX_PICKER_ITEMS as int) + 2,
        out.width as int == least(40, minus(input_area.width as int, 4)),
        out.x == within_u16(input_area.x + 3),
        out.y as int == minus(input_area.y as int, out.height as int),
{
    let shown: u16 = if results < MAX_PICKER_ITEMS {
        results as u16
    } else {
        MAX_PICKER_ITEMS as u16
    };
    let height = shown + 2;
    let room = sub16(input_area.width, 4);
    let width = if room < 40 {
        room
    } else {
        40
    };
    Rect { x: add16(input_area.x, 3), y: sub16(input_area.y, height), width, height }
}

/// Where the question goes: in the middle of the screen, 60 columns wide and
/// 10 lines high where the screen has them.
pub fn modal_area(area: Rect) -> (out: Rect)
    ensures
        out.width as int == least(60, minus(area.width as int, 4)),
        out.height as int == least(10, minus(area.height as int, 4)),
        out.x as int == (area.width - out.width) / 2,
        out.y as int == (area.height - out.height) / 2,
{
    let w = sub16(area.width, 4);
    let width = if w < 60 {
        w
    } else {
        60
    };
    let h = sub16(area.height, 4);
    let height = if h < 10 {
        h
    } else {
        10
    };
    Rect { x: (area.width - width) / 2, y: (area.height - height) / 2, width, height }
}

/// Where the cursor of the terminal goes: at its place in the wrapped input,
/// kept inside the input area.
pub fn cursor_position(inner: Rect, cursor: usize) -> (out: (u16, u16))
    requires
        cursor + 2 <= usize::MAX,
    ensures
        out.0 as int == least(
            within_u16(inner.x + within_u16(wrapped_cursor(cursor as int, 2, inner.width as int).0)) as int,
            minus(within_u16(inner.x + inner.width) as int, 1),
        ),
        out.1 as int == least(
            within_u16(inner.y + within_u16(wrapped_cursor(cursor as int, 2, inner.width as int).1)) as int,
            minus(within_u16(inner.y + inner.height) as int, 1),
        ),
{
    let (cx, cy) = calculate_wrapped_cursor(cursor, 2, inner.width as usize);
    let x = add16(inner.x, usize16(cx));
    let y = add16(inner.y, usize16(cy));
    let right = sub16(add16(inner.x, inner.width), 1);
    let bottom = sub16(add16(inner.y, inner.height), 1);
    (
        if x <= right {
            x
        } else {
            right
        },
        if y <= bottom {
            y
        } else {
            bottom
        },
    )
}

} // verus!
