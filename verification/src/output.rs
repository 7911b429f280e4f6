//! Composition of one frame: the bytes that redraw the whole viewport and
//! put the cursor back where it belongs.

use vstd::prelude::*;
use vstd::string::*;
use vstd::utf8::*;
use crate::editor::{EditorConfig, EditorModel};

verus! {

/// `ESC [ ? 2 5 l`: hide the cursor.
pub open spec fn hide_cursor() -> Seq<u8> {
    seq![0x1bu8, 0x5bu8, 0x3fu8, 0x32u8, 0x35u8, 0x6cu8]
}

/// `ESC [ ? 2 5 h`: show the cursor.
pub open spec fn show_cursor() -> Seq<u8> {
    seq![0x1bu8, 0x5bu8, 0x3fu8, 0x32u8, 0x35u8, 0x68u8]
}

/// `ESC [ H`: move the cursor to the top left corner.
pub open spec fn cursor_home() -> Seq<u8> {
    seq![0x1bu8, 0x5bu8, 0x48u8]
}

/// `ESC [ K`: clear from the cursor to the end of the line.
pub open spec fn clear_line() -> Seq<u8> {
    seq![0x1bu8, 0x5bu8, 0x4bu8]
}

/// `ESC [ 2 J`: clear the whole screen.
pub open spec fn clear_screen() -> Seq<u8> {
    seq![0x1bu8, 0x5bu8, 0x32u8, 0x4au8]
}

/// Carriage return and line feed, which part two rows.
pub open spec fn line_break() -> Seq<u8> {
    seq![0x0du8, 0x0au8]
}

/// The ASCII digits of `n` in base ten, without leading zeros.
pub open spec fn decimal(n: nat) -> Seq<u8>
    decreases n,
{
    if n < 10 {
        seq![(0x30 + n) as u8]
    } else {
        decimal(n / 10).push((0x30 + n % 10) as u8)
    }
}

/// `ESC [ row ; col H`: move the cursor to a cell, both counted from 1.
pub open spec fn cursor_to(row: nat, col: nat) -> Seq<u8> {
    seq![0x1bu8, 0x5bu8] + decimal(row) + seq![0x3bu8] + decimal(col) + seq![0x48u8]
}

/// The text of the banner.
pub open spec fn welcome_text() -> Seq<char> {
    "Kilo Editor -- version 0.0.1"@
}

/// The nearest character boundary of `bytes` at or below `index`.
pub open spec fn boundary_at_or_below(bytes: Seq<u8>, index: int) -> int
    decreases index,
{
    if index <= 0 {
        0
    } else if is_char_boundary(bytes, index) {
        index
    } else {
        boundary_at_or_below(bytes, index - 1)
    }
}

/// How many bytes of `bytes` are kept when it is cut to at most `budget`
/// bytes without splitting a character.
pub open spec fn cut_len(bytes: Seq<u8>, budget: nat) -> int {
    boundary_at_or_below(bytes, if budget < bytes.len() { budget as int } else { bytes.len() as int })
}

/// `count` spaces.
pub open spec fn spaces(count: nat) -> Seq<u8> {
    Seq::new(count, |i: int| 0x20u8)
}

/// What stands left of a text that is centred by `padding` cells: nothing,
/// or a tilde and one space less than the padding.
pub open spec fn margin(padding: nat) -> Seq<u8> {
    if padding > 0 {
        seq![0x7eu8] + spaces((padding - 1) as nat)
    } else {
        Seq::empty()
    }
}

/// `text` cut to `cols` bytes at a character boundary and centred in a row
/// of `cols` cells.
pub open spec fn centered(text: Seq<u8>, cols: nat) -> Seq<u8> {
    let shown = text.subrange(0, cut_len(text, cols));
    margin(((cols - shown.len()) / 2) as nat) + shown
}

/// What row `i` shows: line `i` where there is one, the banner a third of
/// the way down when there are no lines at all, a tilde otherwise.
pub open spec fn row_content(m: EditorModel, i: int) -> Seq<u8> {
    if 0 <= i < m.lines.len() {
        encode_utf8(m.lines[i])
    } else if m.lines.len() == 0 && i == m.rows / 3 {
        centered(encode_utf8(welcome_text()), m.cols)
    } else {
        seq![0x7eu8]
    }
}

/// Row `i` as it is sent: its content, a clear to the end of the line, and
/// a line break unless it is the last row.
pub open spec fn row_bytes(m: EditorModel, i: int) -> Seq<u8> {
    row_content(m, i) + clear_line() + if i + 1 < m.rows {
        line_break()
    } else {
        Seq::empty()
    }
}

/// The first `count` rows as they are sent.
pub open spec fn rows_bytes(m: EditorModel, count: nat) -> Seq<u8>
    decreases count,
{
    if count == 0 {
        Seq::empty()
    } else {
        rows_bytes(m, (count - 1) as nat) + row_bytes(m, count - 1)
    }
}

/// The whole frame: hide the cursor, go to the top left, every row, put the
/// cursor on its cell, show it again.
pub open spec fn frame_of(m: EditorModel) -> Seq<u8> {
    hide_cursor() + cursor_home() + rows_bytes(m, m.rows) + cursor_to(m.cy + 1, m.cx + 1)
        + show_cursor()
}

fn append_bytes(buf: &mut Vec<u8>, bytes: &[u8], count: usize)
    requires
        count <= bytes@.len(),
    ensures
        final(buf)@ == old(buf)@ + bytes@.subrange(0, count as int),
{
    let mut i: usize = 0;
    while i < count
        invariant
            i <= count <= bytes@.len(),
            buf@ == old(buf)@ + bytes@.subrange(0, i as int),
        decreases count - i,
    {
        buf.push(bytes[i]);
        i += 1;
        assert(buf@ =~= old(buf)@ + bytes@.subrange(0, i as int));
    }
}

fn append_hide_cursor(buf: &mut Vec<u8>)
    ensures
        final(buf)@ == old(buf)@ + hide_cursor(),
{
    buf.push(0x1b);
    buf.push(0x5b);
    buf.push(0x3f);
    buf.push(0x32);
    buf.push(0x35);
    buf.push(0x6c);
    assert(buf@ =~= old(buf)@ + hide_cursor());
}

fn append_show_cursor(buf: &mut Vec<u8>)
    ensures
        final(buf)@ == old(buf)@ + show_cursor(),
{
    buf.push(0x1b);
    buf.push(0x5b);
    buf.push(0x3f);
    buf.push(0x32);
    buf.push(0x35);
    buf.push(0x68);
    assert(buf@ =~= old(buf)@ + show_cursor());
}

fn append_cursor_home(buf: &mut Vec<u8>)
    ensures
        final(buf)@ == old(buf)@ + cursor_home(),
{
    buf.push(0x1b);
    buf.push(0x5b);
    buf.push(0x48);
    assert(buf@ =~= old(buf)@ + cursor_home());
}

fn append_clear_line(buf: &mut Vec<u8>)
    ensures
        final(buf)@ == old(buf)@ + clear_line(),
{
    buf.push(0x1b);
    buf.push(0x5b);
    buf.push(0x4b);
    assert(buf@ =~= old(buf)@ + clear_line());
}

fn append_decimal(buf: &mut Vec<u8>, n: usize)
    ensures
        final(buf)@ == old(buf)@ + decimal(n as nat),
    decreases n,
{
    if n >= 10 {
        append_decimal(buf, n / 10);
    }
    let digit: u8 = 0x30 + (n % 10) as u8;
    buf.push(digit);
    assert(buf@ =~= old(buf)@ + decimal(n as nat));
}

fn append_cursor_to(buf: &mut Vec<u8>, row: usize, col: usize)
    ensures
        final(buf)@ == old(buf)@ + cursor_to(row as nat, col as nat),
{
    buf.push(0x1b);
    buf.push(0x5b);
    append_decimal(buf, row);
    buf.push(0x3b);
    append_decimal(buf, col);
    buf.push(0x48);
    assert(buf@ =~= old(buf)@ + cursor_to(row as nat, col as nat));
}

/// The banner.
pub fn welcome_message() -> (text: &'static str)
    ensures
        text@ == welcome_text(),
{
    "Kilo Editor -- version 0.0.1"
}

/// The length to which `text` is cut so that it takes at most `budget`
/// bytes and no character is split: the nearest character boundary at or
/// below the budget.
pub fn truncated_len(text: &str, budget: usize) -> (len: usize)
    ensures
        len == cut_len(text.spec_bytes(), budget as nat),
        len <= budget,
        len <= text.spec_bytes().len(),
        is_char_boundary(text.spec_bytes(), len as int),
        forall|other: int| len < other <= budget ==> !is_char_boundary(text.spec_bytes(), other),
{
    let ghost bytes = text.spec_bytes();
    proof {
        encode_utf8_valid_utf8(text@);
    }
    let full = text.as_bytes().len();
    let start = if budget < full { budget } else { full };
    let mut len = start;
    while !text.is_char_boundary(len)
        invariant
            bytes == text.spec_bytes(),
            valid_utf8(bytes),
            len <= start,
            start <= budget,
            start <= bytes.len(),
            boundary_at_or_below(bytes, len as int) == cut_len(bytes, budget as nat),
            forall|other: int| len < other <= start ==> !is_char_boundary(bytes, other),
        decreases len,
    {
        len -= 1;
    }
    proof {
        assert forall|other: int| len < other <= budget implies !is_char_boundary(
            bytes,
            other,
        ) by {
            if other > start {
                assert(bytes.len() < other);
            }
        }
    }
    len
}

/// Appends `text`, cut to `cols` bytes and centred, to `buf`.
fn append_centered(buf: &mut Vec<u8>, text: &str, cols: usize)
    ensures
        final(buf)@ == old(buf)@ + centered(text.spec_bytes(), cols as nat),
{
    let shown = truncated_len(text, cols);
    let mut padding = (cols - shown) / 2;
    let ghost full_padding = padding;
    if padding > 0 {
        buf.push(0x7e);
        padding -= 1;
        let mut done: usize = 0;
        while done < padding
            invariant
                done <= padding,
                padding + 1 == full_padding,
                buf@ == old(buf)@ + seq![0x7eu8] + spaces(done as nat),
            decreases padding - done,
        {
            buf.push(0x20);
            done += 1;
            assert(buf@ =~= old(buf)@ + seq![0x7eu8] + spaces(done as nat));
        }
        assert(buf@ =~= old(buf)@ + margin(full_padding as nat));
    } else {
        assert(buf@ =~= old(buf)@ + margin(full_padding as nat));
    }
    append_bytes(buf, text.as_bytes(), shown);
    assert(buf@ =~= old(buf)@ + centered(text.spec_bytes(), cols as nat));
}

/// Appends every row of the viewport to `buf`.
pub fn editor_draw_rows(config: &EditorConfig, buf: &mut Vec<u8>)
    requires
        config@.wf(),
    ensures
        final(buf)@ == old(buf)@ + rows_bytes(config@, config@.rows),
{
    let rows = config.rows();
    let cols = config.cols();
    let lines = config.erows();
    let mut i: usize = 0;
    assert(buf@ =~= old(buf)@ + rows_bytes(config@, 0));
    while i < rows
        invariant
            i <= rows,
            rows == config@.rows,
            cols == config@.cols,
            crate::editor::lines_of(lines@) == config@.lines,
            buf@ == old(buf)@ + rows_bytes(config@, i as nat),
        decreases rows - i,
    {
        let ghost before = buf@;
        if i < lines.len() {
            let line = lines[i].as_str().as_bytes();
            append_bytes(buf, line, line.len());
            assert(line@.subrange(0, line@.len() as int) =~= line@);
            assert(config@.lines[i as int] == lines@[i as int]@);
        } else if lines.len() == 0 && i == rows / 3 {
            append_centered(buf, welcome_message(), cols);
        } else {
            buf.push(0x7e);
        }
        assert(buf@ =~= before + row_content(config@, i as int));
        append_clear_line(buf);
        if i < rows - 1 {
            buf.push(0x0d);
            buf.push(0x0a);
        }
        assert(buf@ =~= before + row_bytes(config@, i as int));
        i += 1;
        assert(buf@ =~= old(buf)@ + rows_bytes(config@, i as nat));
    }
}

/// Composes the frame for the current state. The frame is meant to be
/// written to the terminal in one piece.
pub fn editor_refresh_screen(config: &EditorConfig) -> (frame: Vec<u8>)
    requires
        config@.wf(),
    ensures
        frame@ == frame_of(config@),
{
    let mut buf: Vec<u8> = Vec::new();
    append_hide_cursor(&mut buf);
    append_cursor_home(&mut buf);
    editor_draw_rows(config, &mut buf);
    proof {
        config.lemma_model_bounded();
    }
    append_cursor_to(&mut buf, config.cy() + 1, config.cx() + 1);
    append_show_cursor(&mut buf);
    assert(buf@ =~= frame_of(config@));
    buf
}

/// The bytes that wipe the screen and put the cursor in the top left
/// corner, as sent when the session ends.
pub fn editor_clear_screen() -> (bytes: Vec<u8>)
    ensures
        bytes@ == clear_screen() + cursor_home(),
{
    let mut buf: Vec<u8> = Vec::new();
    buf.push(0x1b);
    buf.push(0x5b);
    buf.push(0x32);
    buf.push(0x4a);
    append_cursor_home(&mut buf);
    assert(buf@ =~= clear_screen() + cursor_home());
    buf
}

/// Rendering depends on nothing but the state: two states with the same
/// viewport, cursor and lines give the same frame, byte for byte.
pub proof fn lemma_frame_is_determined(a: EditorModel, b: EditorModel)
    requires
        a.rows == b.rows,
        a.cols == b.cols,
        a.cx == b.cx,
        a.cy == b.cy,
        a.lines =~= b.lines,
    ensures
        frame_of(a) == frame_of(b),
{
}

} // verus!
