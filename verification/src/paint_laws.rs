//! What holds of every frame that is drawn.

use crate::painter::{Frame, PaintOp, Painter};
use crate::painter;
use crate::text;
use vstd::prelude::*;

verus! {

/// The three texts that a frame is made of.
pub enum Part {
    LeftPrompt,
    Buffer,
    RightPrompt,
}

/// The lines of one part that the steps print, in the order of the steps.
pub open spec fn printed(ops: Seq<PaintOp>, part: Part) -> Seq<usize>
    decreases ops.len(),
{
    if ops.len() == 0 {
        seq![]
    } else {
        let before = printed(ops.drop_last(), part);
        match (ops.last(), part) {
            (PaintOp::LeftPrompt(i), Part::LeftPrompt) => before.push(i),
            (PaintOp::Buffer(i), Part::Buffer) => before.push(i),
            (PaintOp::RightPrompt(i), Part::RightPrompt) => before.push(i),
            _ => before,
        }
    }
}

/// The row of the cursor behind the steps, where it stood on `row` before them.
pub open spec fn row_after(ops: Seq<PaintOp>, row: int) -> int
    decreases ops.len(),
{
    if ops.len() == 0 {
        row
    } else {
        let before = row_after(ops.drop_last(), row);
        match ops.last() {
            PaintOp::MoveTo(_, r) => r as int,
            PaintOp::NextLine => before + 1,
            PaintOp::PreviousLine(n) => before - n,
            _ => before,
        }
    }
}

/// The first `n` line numbers.
pub open spec fn numbers(n: nat) -> Seq<usize> {
    Seq::new(n, |i: int| i as usize)
}

/// The number of lines of one part of a frame.
pub open spec fn lines(frame: Frame, part: Part) -> int {
    match part {
        Part::LeftPrompt => frame.left_lines as int,
        Part::Buffer => frame.buffer_lines as int,
        Part::RightPrompt => frame.right_widths@.len() as int,
    }
}

proof fn lemma_printed_concat(a: Seq<PaintOp>, b: Seq<PaintOp>, part: Part)
    ensures
        printed(a + b, part) == printed(a, part) + printed(b, part),
    decreases b.len(),
{
    if b.len() == 0 {
        assert(a + b =~= a);
        assert(printed(a, part) + printed(b, part) =~= printed(a, part));
    } else {
        lemma_printed_concat(a, b.drop_last(), part);
        assert((a + b).drop_last() =~= a + b.drop_last());
        assert(printed(a + b, part) =~= printed(a, part) + printed(b, part));
    }
}

proof fn lemma_row_concat(a: Seq<PaintOp>, b: Seq<PaintOp>, row: int)
    ensures
        row_after(a + b, row) == row_after(b, row_after(a, row)),
    decreases b.len(),
{
    if b.len() == 0 {
        assert(a + b =~= a);
    } else {
        lemma_row_concat(a, b.drop_last(), row);
        assert((a + b).drop_last() =~= a + b.drop_last());
    }
}

/// Steps that neither print a line nor leave the row.
spec fn is_quiet(op: PaintOp) -> bool {
    match op {
        PaintOp::LeftPrompt(_) => false,
        PaintOp::Buffer(_) => false,
        PaintOp::RightPrompt(_) => false,
        PaintOp::MoveTo(_, _) => false,
        PaintOp::NextLine => false,
        PaintOp::PreviousLine(_) => false,
        _ => true,
    }
}

proof fn lemma_quiet(ops: Seq<PaintOp>, part: Part, row: int)
    requires
        forall|i: int| 0 <= i < ops.len() ==> is_quiet(#[trigger] ops[i]),
    ensures
        printed(ops, part) == Seq::<usize>::empty(),
        row_after(ops, row) == row,
    decreases ops.len(),
{
    if ops.len() > 0 {
        assert(forall|i: int|
            0 <= i < ops.drop_last().len() ==> #[trigger] ops.drop_last()[i] == ops[i]);
        lemma_quiet(ops.drop_last(), part, row);
    }
}

proof fn lemma_single(op: PaintOp, part: Part, row: int)
    ensures
        printed(seq![op], part) == match (op, part) {
            (PaintOp::LeftPrompt(i), Part::LeftPrompt) => seq![i],
            (PaintOp::Buffer(i), Part::Buffer) => seq![i],
            (PaintOp::RightPrompt(i), Part::RightPrompt) => seq![i],
            _ => seq![],
        },
        row_after(seq![op], row) == match op {
            PaintOp::MoveTo(_, r) => r as int,
            PaintOp::NextLine => row + 1,
            PaintOp::PreviousLine(n) => row - n,
            _ => row,
        },
{
    let ops = seq![op];
    assert(ops.drop_last() =~= seq![]);
    reveal_with_fuel(printed, 2);
    reveal_with_fuel(row_after, 2);
    assert(ops.last() == op);
    assert(printed(ops.drop_last(), part) =~= seq![]);
    assert forall|i: usize| #[trigger] Seq::<usize>::empty().push(i) == seq![i] by {
        assert(Seq::<usize>::empty().push(i) =~= seq![i]);
    }
}

proof fn lemma_row(frame: Frame, width: u16, i: int, part: Part, row: int)
    requires
        0 <= i,
    ensures
        printed(frame.row(width, i), part) == match part {
            Part::LeftPrompt => if i < frame.left_lines {
                seq![i as usize]
            } else {
                seq![]
            },
            Part::Buffer => if 0 <= i - frame.first_buffer_row() < frame.buffer_lines {
                seq![(i - frame.first_buffer_row()) as usize]
            } else {
                seq![]
            },
            Part::RightPrompt => if i < frame.right_widths@.len() {
                seq![i as usize]
            } else {
                seq![]
            },
        },
        row_after(frame.row(width, i), row) == row,
{
    let left = frame.left_on_row(i);
    let buffer = frame.buffer_on_row(i);
    let right = frame.right_on_row(width, i);
    lemma_printed_concat(left + buffer, right, part);
    lemma_printed_concat(left, buffer, part);
    lemma_row_concat(left + buffer, right, row);
    lemma_row_concat(left, buffer, row);
    lemma_quiet(Seq::empty(), part, row);
    lemma_single(PaintOp::LeftPrompt(i as usize), part, row);
    lemma_single(PaintOp::Buffer((i - frame.first_buffer_row()) as usize), part, row);
    if i < frame.right_widths@.len() {
        let column = PaintOp::MoveToColumn((width - frame.right_widths@[i]) as u16);
        let line = PaintOp::RightPrompt(i as usize);
        lemma_single(column, part, row);
        lemma_single(line, part, row);
        assert(right =~= seq![column] + seq![line]);
        lemma_printed_concat(seq![column], seq![line], part);
        lemma_row_concat(seq![column], seq![line], row);
    }
    assert(printed(frame.row(width, i), part) =~= printed(left, part) + printed(buffer, part)
        + printed(right, part));
}

/// The lines of one part that stand on the first `n` rows.
spec fn lines_above(frame: Frame, part: Part, n: int) -> int {
    let first = match part {
        Part::Buffer => frame.first_buffer_row(),
        _ => 0,
    };
    let shown = painter::monus(n, first);
    if shown < lines(frame, part) {
        shown
    } else {
        lines(frame, part)
    }
}

proof fn lemma_rows_above(frame: Frame, width: u16, n: int, part: Part, row: int)
    requires
        0 <= n,
    ensures
        printed(frame.rows_above(width, n), part) == numbers(lines_above(frame, part, n) as nat),
        row_after(frame.rows_above(width, n), row) == row + n,
    decreases n,
{
    if n == 0 {
        assert(numbers(0) =~= seq![]);
    } else {
        lemma_rows_above(frame, width, n - 1, part, row);
        lemma_row(frame, width, n - 1, part, row + (n - 1));
        let above = frame.rows_above(width, n - 1);
        let this = frame.row(width, n - 1);
        lemma_printed_concat(above, this, part);
        lemma_row_concat(above, this, row);
        assert((above + this).push(PaintOp::NextLine).drop_last() =~= above + this);
        assert(printed(frame.rows_above(width, n), part) =~= numbers(
            lines_above(frame, part, n) as nat,
        ));
    }
}

proof fn lemma_body(frame: Frame, width: u16, part: Part, row: int)
    requires
        frame.wf(),
    ensures
        printed(frame.body(width), part) == numbers(lines(frame, part) as nat),
        row_after(frame.body(width), row) == row + frame.rows() - 1,
{
    let last = frame.rows() - 1;
    lemma_rows_above(frame, width, last, part, row);
    lemma_row(frame, width, last, part, row + last);
    lemma_printed_concat(frame.rows_above(width, last), frame.row(width, last), part);
    lemma_row_concat(frame.rows_above(width, last), frame.row(width, last), row);
    assert(printed(frame.body(width), part) =~= numbers(lines(frame, part) as nat));
}

/// The row on which a frame starts.
pub open spec fn top_row(painter: Painter, frame: Frame, cursor_row: u16) -> int {
    let after = painter.painted(frame, cursor_row);
    painter::monus(after.prompt_line as int, painter::low_word(after.num_newlines as int) as int)
}

proof fn lemma_opening(painter: Painter, frame: Frame, cursor_row: u16, part: Part, row: int)
    ensures
        printed(painter.opening(frame, cursor_row), part) == Seq::<usize>::empty(),
        row_after(painter.opening(frame, cursor_row), row) == top_row(painter, frame, cursor_row),
{
    let top = PaintOp::MoveTo(0, top_row(painter, frame, cursor_row) as u16);
    let start = painter.scrolling(frame, cursor_row);
    lemma_quiet(start, part, row);
    lemma_single(top, part, row);
    lemma_single(PaintOp::ClearFromCursorDown, part, top_row(painter, frame, cursor_row));
    lemma_printed_concat(seq![top], seq![PaintOp::ClearFromCursorDown], part);
    lemma_row_concat(seq![top], seq![PaintOp::ClearFromCursorDown], row);
    assert(seq![top, PaintOp::ClearFromCursorDown] =~= seq![top] + seq![
        PaintOp::ClearFromCursorDown,
    ]);
    lemma_printed_concat(start, seq![top, PaintOp::ClearFromCursorDown], part);
    lemma_row_concat(start, seq![top, PaintOp::ClearFromCursorDown], row);
    assert(printed(painter.opening(frame, cursor_row), part) =~= Seq::<usize>::empty());
}

/// Every line of both prompts and of the edited text is printed once, and the lines of each
/// come in order.
pub proof fn every_line_is_printed_once(
    painter: Painter,
    frame: Frame,
    cursor_row: u16,
    column: u16,
    part: Part,
)
    requires
        frame.wf(),
    ensures
        printed(painter.paint_ops(frame, cursor_row, column), part) == numbers(
            lines(frame, part) as nat,
        ),
{
    let opening = painter.opening(frame, cursor_row);
    let body = frame.body(painter.term_size.0);
    let back = frame.way_back();
    let closing = frame.closing(column);
    lemma_opening(painter, frame, cursor_row, part, 0);
    lemma_body(frame, painter.term_size.0, part, 0);
    lemma_quiet(closing, part, 0);
    if back.len() > 0 {
        lemma_single(back[0], part, 0);
        assert(back =~= seq![back[0]]);
    } else {
        lemma_quiet(back, part, 0);
    }
    lemma_printed_concat(body, back, part);
    lemma_printed_concat(opening, body + back, part);
    lemma_printed_concat(opening + (body + back), closing, part);
    assert(printed(painter.paint_ops(frame, cursor_row, column), part) =~= numbers(
        lines(frame, part) as nat,
    ));
}

/// The cursor ends on the row of the last line of the edited text, also where the right
/// prompt reaches further down.
pub proof fn cursor_ends_on_last_buffer_row(
    painter: Painter,
    frame: Frame,
    cursor_row: u16,
    column: u16,
    row: int,
)
    requires
        frame.wf(),
        frame.left_lines >= 1,
        frame.right_widths@.len() - (frame.left_lines + frame.buffer_lines - 1) <= u16::MAX,
    ensures
        row_after(painter.paint_ops(frame, cursor_row, column), row) == top_row(
            painter,
            frame,
            cursor_row,
        ) + frame.first_buffer_row() + frame.buffer_lines - 1,
{
    let opening = painter.opening(frame, cursor_row);
    let body = frame.body(painter.term_size.0);
    let back = frame.way_back();
    let closing = frame.closing(column);
    let top = top_row(painter, frame, cursor_row);
    let low = top + frame.rows() - 1;
    lemma_opening(painter, frame, cursor_row, Part::Buffer, row);
    lemma_body(frame, painter.term_size.0, Part::Buffer, top);
    lemma_row_concat(body, back, top);
    lemma_row_concat(opening, body + back, row);
    lemma_row_concat(opening + (body + back), closing, row);
    if back.len() > 0 {
        lemma_single(back[0], Part::Buffer, low);
        assert(back =~= seq![back[0]]);
    } else {
        lemma_quiet(back, Part::Buffer, low);
    }
    lemma_quiet(closing, Part::Buffer, row_after(back, low));
}

/// Making room for the menu prints nothing and leaves the cursor on its row.
pub proof fn making_room_prints_nothing(
    painter: Painter,
    menu_lines: Option<usize>,
    part: Part,
    row: int,
)
    ensures
        printed(painter.room_ops(menu_lines), part) == Seq::<usize>::empty(),
        row_after(painter.room_ops(menu_lines), row) == row,
{
    lemma_quiet(painter.room_ops(menu_lines), part, row);
}

/// Drawing never gives room back: the line breaks that the screen has room for do not get
/// fewer, and the prompt does not move down. The terminal keeps its size.
pub proof fn room_never_shrinks(
    painter: Painter,
    menu_lines: Option<usize>,
    frame: Frame,
    cursor_row: u16,
)
    requires
        frame.wf(),
    ensures
        ({
            let after = painter.with_room(menu_lines).painted(frame, cursor_row);
            &&& after.num_newlines >= painter.num_newlines
            &&& after.prompt_line <= painter.prompt_line
            &&& after.term_size == painter.term_size
        }),
{
    assert(frame.right_widths.len() == frame.right_widths@.len());
}

/// With the prompt on the screen, a menu that is no taller than the screen has its lines
/// below the prompt once there is room for it.
pub proof fn menu_fits_below_prompt(painter: Painter, required: usize)
    requires
        painter.prompt_line <= painter.term_size.1,
        required <= painter.term_size.1,
    ensures
        painter.term_size.1 - painter.with_room(Some(required)).prompt_line >= required,
{
}

/// Where there is room for a menu that is no taller than the screen, none is made again.
pub proof fn room_is_made_once(painter: Painter, required: usize)
    requires
        painter.prompt_line <= painter.term_size.1,
        required <= painter.term_size.1,
    ensures
        painter.with_room(Some(required)).menu_scroll(Some(required)) == 0,
        painter.with_room(Some(required)).with_room(Some(required)) == painter.with_room(
            Some(required),
        ),
{
}

/// Drawing a frame again does not scroll again for its line breaks.
pub proof fn scrolls_once_for_lines(
    painter: Painter,
    frame: Frame,
    cursor_row: u16,
    later_row: u16,
)
    requires
        frame.wf(),
        painter.scrolls_for_lines(frame, cursor_row),
    ensures
        !painter.painted(frame, cursor_row).is_short_of_lines(frame),
        painter.painted(frame, cursor_row).painted(frame, later_row) == painter.painted(
            frame,
            cursor_row,
        ),
{
    assert(frame.right_widths.len() == frame.right_widths@.len());
}

// The frame on the screen

/// The column of the cursor behind the steps, where it stood in `column` before them. Printing
/// leaves it in a column that depends on what is printed.
pub open spec fn column_after(ops: Seq<PaintOp>, column: Option<int>) -> Option<int>
    decreases ops.len(),
{
    if ops.len() == 0 {
        column
    } else {
        match ops.last() {
            PaintOp::MoveTo(c, _) => Some(c as int),
            PaintOp::MoveToColumn(c) => Some(c as int),
            PaintOp::NextLine => Some(0),
            PaintOp::PreviousLine(_) => Some(0),
            PaintOp::LeftPrompt(_) => None,
            PaintOp::Buffer(_) => None,
            PaintOp::RightPrompt(_) => None,
            PaintOp::Menu => None,
            _ => column_after(ops.drop_last(), column),
        }
    }
}

/// The line breaks of a frame: the right prompt has one less than it has lines, and the left
/// prompt and the edited text share a line.
pub open spec fn breaks(frame: Frame) -> int {
    let right = frame.right_widths@.len() - 1;
    let left = frame.left_lines + frame.buffer_lines - 2;
    if right > left {
        right
    } else {
        left
    }
}

/// Whether the screen has to scroll for a frame: there are more line breaks than it has room
/// for, and the row of the cursor and these rows reach its last row.
pub open spec fn has_to_scroll(painter: Painter, frame: Frame, cursor_row: u16) -> bool {
    &&& painter.num_newlines < breaks(frame)
    &&& cursor_row + painter.num_newlines % 0x1_0000 == painter.term_size.1 - 1
}

/// The row on which a frame starts: as many rows above the line of the prompt as the screen has
/// room for line breaks.
pub open spec fn start_row(painter: Painter, frame: Frame, cursor_row: u16) -> int {
    let room = if has_to_scroll(painter, frame, cursor_row) {
        breaks(frame)
    } else {
        painter.num_newlines as int
    };
    let start = painter.prompt_line - room % 0x1_0000;
    if start > 0 {
        start
    } else {
        0
    }
}

/// The cursor ends in its column, whatever the prompts, the text and the menu were.
pub proof fn cursor_ends_in_its_column(
    painter: Painter,
    frame: Frame,
    cursor_row: u16,
    column: u16,
    before: Option<int>,
)
    ensures
        column_after(painter.paint_ops(frame, cursor_row, column), before) == Some(column as int),
{
    let ops = painter.paint_ops(frame, cursor_row, column);
    let n = ops.len() as int;
    lemma_tail(painter, frame, cursor_row, column);
    reveal_with_fuel(column_after, 5);
    assert(ops.drop_last().last() == ops[n - 2]);
    assert(ops.drop_last().drop_last().last() == ops[n - 3]);
    assert(ops.drop_last().drop_last().drop_last().last() == ops[n - 4]);
}

proof fn lemma_tail(painter: Painter, frame: Frame, cursor_row: u16, column: u16)
    ensures
        ({
            let ops = painter.paint_ops(frame, cursor_row, column);
            let n = ops.len() as int;
            &&& n >= 4
            &&& ops[n - 4] == PaintOp::MoveToColumn(column)
            &&& ops[n - 3] == PaintOp::ShowCursor
            &&& ops[n - 2] == PaintOp::CursorStyle
            &&& ops[n - 1] == PaintOp::Flush
        }),
{
    let closing = frame.closing(column);
    let ops = painter.paint_ops(frame, cursor_row, column);
    assert(ops.skip(ops.len() - closing.len()) =~= closing);
    assert(forall|i: int|
        0 <= i < closing.len() ==> #[trigger] closing[i] == ops[ops.len() - closing.len() + i]);
}

/// Whether a step is part of the drawing of the lines: it prints one, or moves the cursor.
pub open spec fn draws(op: PaintOp) -> bool {
    match op {
        PaintOp::LeftPrompt(_) => true,
        PaintOp::Buffer(_) => true,
        PaintOp::RightPrompt(_) => true,
        PaintOp::MoveToColumn(_) => true,
        PaintOp::NextLine => true,
        PaintOp::PreviousLine(_) => true,
        _ => false,
    }
}

/// A frame is drawn in this order. The screen scrolls by the line breaks that it lacks and the
/// new room is noted, where it has to scroll. The cursor goes to the start of the frame, and the
/// screen is cleared from there. Lines are drawn. The menu is drawn if and only if it is active.
/// The cursor goes to its column, is shown and gets its style, and everything is written out.
pub proof fn frames_are_drawn_in_order(
    painter: Painter,
    frame: Frame,
    cursor_row: u16,
    column: u16,
)
    requires
        frame.wf(),
    ensures
        ({
            let ops = painter.paint_ops(frame, cursor_row, column);
            let first = if has_to_scroll(painter, frame, cursor_row) {
                2int
            } else {
                0
            };
            let last = ops.len() - if frame.menu_active {
                5int
            } else {
                4
            };
            &&& first + 2 <= last
            &&& has_to_scroll(painter, frame, cursor_row) ==> {
                &&& ops[0] == PaintOp::ScrollUp(
                    ((breaks(frame) - painter.num_newlines) % 0x1_0000) as u16,
                )
                &&& ops[1] == PaintOp::NoteNewlines(breaks(frame) as usize)
            }
            &&& ops[first] == PaintOp::MoveTo(0, start_row(painter, frame, cursor_row) as u16)
            &&& ops[first + 1] == PaintOp::ClearFromCursorDown
            &&& forall|k: int| first + 2 <= k < last ==> draws(#[trigger] ops[k])
            &&& frame.menu_active ==> ops[last] == PaintOp::Menu
            &&& ops[ops.len() - 4] == PaintOp::MoveToColumn(column)
            &&& ops[ops.len() - 3] == PaintOp::ShowCursor
            &&& ops[ops.len() - 2] == PaintOp::CursorStyle
            &&& ops[ops.len() - 1] == PaintOp::Flush
        }),
{
    let ops = painter.paint_ops(frame, cursor_row, column);
    let opening = painter.opening(frame, cursor_row);
    let width = painter.term_size.0;
    let drawing = frame.body(width) + frame.way_back();
    let closing = frame.closing(column);
    assert(frame.right_widths.len() == frame.right_widths@.len());
    lemma_tail(painter, frame, cursor_row, column);
    lemma_rows_draw(frame, width, frame.rows() - 1);
    assert(forall|i: int| 0 <= i < opening.len() ==> #[trigger] ops[i] == opening[i]);
    assert(forall|i: int|
        opening.len() <= i < opening.len() + drawing.len() ==> #[trigger] ops[i] == drawing[i
            - opening.len()]);
    assert(forall|i: int|
        0 <= i < closing.len() ==> #[trigger] ops[opening.len() + drawing.len() + i]
            == closing[i]);
    assert(forall|i: int| 0 <= i < drawing.len() ==> draws(#[trigger] drawing[i]));
    assert(ops.len() == opening.len() + drawing.len() + closing.len());
    if frame.menu_active {
        assert(ops[opening.len() + drawing.len() + 0int] == PaintOp::Menu);
    }
}

proof fn lemma_rows_draw(frame: Frame, width: u16, n: int)
    ensures
        forall|i: int|
            0 <= i < frame.rows_above(width, n).len() ==> draws(
                #[trigger] frame.rows_above(width, n)[i],
            ),
        forall|i: int|
            0 <= i < frame.row(width, n).len() ==> draws(#[trigger] frame.row(width, n)[i]),
    decreases n,
{
    if n > 0 {
        lemma_rows_draw(frame, width, n - 1);
        let above = frame.rows_above(width, n - 1);
        let this = frame.row(width, n - 1);
        let ops = frame.rows_above(width, n);
        assert forall|i: int| 0 <= i < ops.len() implies draws(#[trigger] ops[i]) by {
            if i < above.len() {
                assert(ops[i] == above[i]);
            } else if i < above.len() + this.len() {
                assert(ops[i] == this[i - above.len()]);
            }
        }
    }
}

/// The row of a frame on which its text starts: the last one of the left prompt.
pub open spec fn text_row(frame: Frame) -> int {
    if frame.left_lines == 0 {
        0
    } else {
        frame.left_lines - 1
    }
}

/// Whether step `k` prints its line where it belongs on a screen of this width, in a frame that
/// starts on the row `top`. A line of the left prompt starts its row. The text starts behind the
/// last line of the left prompt, and its other lines start their rows. A line of the right
/// prompt ends at the right edge.
pub open spec fn prints_in_place(
    ops: Seq<PaintOp>,
    k: int,
    row: int,
    column: Option<int>,
    frame: Frame,
    width: u16,
    top: int,
) -> bool {
    let at_row = row_after(ops.take(k), row);
    let at_column = column_after(ops.take(k), column);
    match ops[k] {
        PaintOp::LeftPrompt(i) => at_row == top + i && at_column == Some(0int),
        PaintOp::Buffer(i) => {
            &&& at_row == top + text_row(frame) + i
            &&& if i == 0 && frame.left_lines > 0 {
                k > 0 && ops[k - 1] == PaintOp::LeftPrompt((frame.left_lines - 1) as usize)
            } else {
                at_column == Some(0int)
            }
        },
        PaintOp::RightPrompt(i) => {
            &&& i < frame.right_widths@.len()
            &&& at_row == top + i
            &&& at_column == Some(width - frame.right_widths@[i as int])
        },
        _ => true,
    }
}

spec fn all_in_place(
    ops: Seq<PaintOp>,
    row: int,
    column: Option<int>,
    frame: Frame,
    width: u16,
    top: int,
) -> bool {
    forall|k: int|
        0 <= k < ops.len() ==> #[trigger] prints_in_place(ops, k, row, column, frame, width, top)
}

proof fn lemma_column_concat(a: Seq<PaintOp>, b: Seq<PaintOp>, column: Option<int>)
    ensures
        column_after(a + b, column) == column_after(b, column_after(a, column)),
    decreases b.len(),
{
    if b.len() == 0 {
        assert(a + b =~= a);
    } else {
        lemma_column_concat(a, b.drop_last(), column);
        assert((a + b).drop_last() =~= a + b.drop_last());
        assert((a + b).last() == b.last());
    }
}

proof fn lemma_in_place_concat(
    a: Seq<PaintOp>,
    b: Seq<PaintOp>,
    row: int,
    column: Option<int>,
    frame: Frame,
    width: u16,
    top: int,
)
    requires
        all_in_place(a, row, column, frame, width, top),
        all_in_place(b, row_after(a, row), column_after(a, column), frame, width, top),
    ensures
        all_in_place(a + b, row, column, frame, width, top),
{
    let ops = a + b;
    assert forall|k: int| 0 <= k < ops.len() implies #[trigger] prints_in_place(
        ops,
        k,
        row,
        column,
        frame,
        width,
        top,
    ) by {
        if k < a.len() {
            assert(ops.take(k) =~= a.take(k));
            assert(prints_in_place(a, k, row, column, frame, width, top));
        } else {
            let j = k - a.len();
            assert(ops.take(k) =~= a + b.take(j));
            lemma_row_concat(a, b.take(j), row);
            lemma_column_concat(a, b.take(j), column);
            assert(prints_in_place(
                b,
                j,
                row_after(a, row),
                column_after(a, column),
                frame,
                width,
                top,
            ));
        }
    }
}

proof fn lemma_no_line_in_place(
    ops: Seq<PaintOp>,
    row: int,
    column: Option<int>,
    frame: Frame,
    width: u16,
    top: int,
)
    requires
        forall|i: int|
            0 <= i < ops.len() ==> !(#[trigger] ops[i] is LeftPrompt) && !(ops[i] is Buffer)
                && !(ops[i] is RightPrompt),
    ensures
        all_in_place(ops, row, column, frame, width, top),
{
}

proof fn lemma_same_row(ops: Seq<PaintOp>, row: int)
    requires
        forall|i: int|
            0 <= i < ops.len() ==> !(#[trigger] ops[i] is MoveTo) && !(ops[i] is NextLine)
                && !(ops[i] is PreviousLine),
    ensures
        row_after(ops, row) == row,
    decreases ops.len(),
{
    if ops.len() > 0 {
        assert(forall|i: int|
            0 <= i < ops.drop_last().len() ==> #[trigger] ops.drop_last()[i] == ops[i]);
        lemma_same_row(ops.drop_last(), row);
        assert(ops.last() == ops[ops.len() - 1]);
    }
}

proof fn lemma_row_in_place(frame: Frame, width: u16, i: int, top: int)
    requires
        frame.wf(),
        0 <= i < frame.rows(),
        forall|j: int|
            0 <= j < frame.right_widths@.len() ==> #[trigger] frame.right_widths@[j] <= width,
    ensures
        all_in_place(frame.row(width, i), top + i, Some(0), frame, width, top),
{
    let ops = frame.row(width, i);
    assert(frame.right_widths.len() == frame.right_widths@.len());
    assert forall|k: int| 0 <= k < ops.len() implies #[trigger] prints_in_place(
        ops,
        k,
        top + i,
        Some(0),
        frame,
        width,
        top,
    ) by {
        lemma_same_row(ops.take(k), top + i);
        if k > 0 {
            assert(ops.take(k).last() == ops[k - 1]);
        }
        if ops[k] is RightPrompt {
            assert(ops[k - 1] == PaintOp::MoveToColumn((width - frame.right_widths@[i]) as u16));
        }
        if ops[k] is Buffer && k > 0 {
            assert(ops[k - 1] == PaintOp::LeftPrompt(i as usize));
        }
    }
}

proof fn lemma_rows_in_place(frame: Frame, width: u16, n: int, top: int)
    requires
        frame.wf(),
        0 <= n < frame.rows(),
        forall|j: int|
            0 <= j < frame.right_widths@.len() ==> #[trigger] frame.right_widths@[j] <= width,
    ensures
        all_in_place(frame.rows_above(width, n), top, Some(0), frame, width, top),
        column_after(frame.rows_above(width, n), Some(0)) == Some(0int),
        row_after(frame.rows_above(width, n), top) == top + n,
    decreases n,
{
    if n > 0 {
        let above = frame.rows_above(width, n - 1);
        let this = frame.row(width, n - 1);
        let next = seq![PaintOp::NextLine];
        lemma_rows_in_place(frame, width, n - 1, top);
        lemma_row_in_place(frame, width, n - 1, top);
        lemma_in_place_concat(above, this, top, Some(0), frame, width, top);
        lemma_no_line_in_place(
            next,
            row_after(above + this, top),
            column_after(above + this, Some(0)),
            frame,
            width,
            top,
        );
        lemma_in_place_concat(above + this, next, top, Some(0), frame, width, top);
        assert(frame.rows_above(width, n) =~= (above + this) + next);
        assert(frame.rows_above(width, n).last() == PaintOp::NextLine);
        lemma_rows_above(frame, width, n, Part::Buffer, top);
    }
}

/// Every line of both prompts and of the edited text is printed in its place.
pub proof fn lines_are_printed_in_place(
    painter: Painter,
    frame: Frame,
    cursor_row: u16,
    column: u16,
    row: int,
    before: Option<int>,
    k: int,
)
    requires
        painter.can_paint(frame, cursor_row),
        0 <= k < painter.paint_ops(frame, cursor_row, column).len(),
    ensures
        prints_in_place(
            painter.paint_ops(frame, cursor_row, column),
            k,
            row,
            before,
            frame,
            painter.term_size.0,
            start_row(painter, frame, cursor_row),
        ),
{
    let width = painter.term_size.0;
    let top = start_row(painter, frame, cursor_row);
    let opening = painter.opening(frame, cursor_row);
    let above = frame.rows_above(width, frame.rows() - 1);
    let last = frame.row(width, frame.rows() - 1);
    let rest = frame.way_back() + frame.closing(column);
    assert(frame.right_widths.len() == frame.right_widths@.len());
    lemma_opening(painter, frame, cursor_row, Part::Buffer, row);
    assert(top_row(painter, frame, cursor_row) == top);
    assert(opening.last() == PaintOp::ClearFromCursorDown);
    assert(opening.drop_last().last() == PaintOp::MoveTo(0, top as u16));
    reveal_with_fuel(column_after, 3);
    assert(column_after(opening, before) == Some(0int));
    lemma_no_line_in_place(opening, row, before, frame, width, top);
    lemma_rows_in_place(frame, width, frame.rows() - 1, top);
    lemma_in_place_concat(opening, above, row, before, frame, width, top);
    lemma_row_concat(opening, above, row);
    lemma_column_concat(opening, above, before);
    lemma_row_in_place(frame, width, frame.rows() - 1, top);
    lemma_in_place_concat(opening + above, last, row, before, frame, width, top);
    lemma_no_line_in_place(
        rest,
        row_after(opening + above + last, row),
        column_after(opening + above + last, before),
        frame,
        width,
        top,
    );
    lemma_in_place_concat(opening + above + last, rest, row, before, frame, width, top);
    assert(painter.paint_ops(frame, cursor_row, column) =~= opening + above + last + rest);
}

/// The cursor ends on the row of the last line of the text. Where the right prompt reaches further
/// down, it goes back up by the number of lines, counted in sixteen bits, by which the right
/// prompt exceeds the left prompt and the text, which share a line.
pub proof fn cursor_ends_on_its_row(
    painter: Painter,
    frame: Frame,
    cursor_row: u16,
    column: u16,
    row: int,
)
    requires
        frame.wf(),
    ensures
        ({
            let end = row_after(painter.paint_ops(frame, cursor_row, column), row);
            let top = start_row(painter, frame, cursor_row);
            let right = frame.right_widths@.len() as int;
            if right > text_row(frame) + frame.buffer_lines {
                end == top + right - 1 - (right - (frame.left_lines + frame.buffer_lines - 1))
                    % 0x1_0000
            } else {
                end == top + text_row(frame) + frame.buffer_lines - 1
            }
        }),
{
    let opening = painter.opening(frame, cursor_row);
    let body = frame.body(painter.term_size.0);
    let back = frame.way_back();
    let closing = frame.closing(column);
    let top = start_row(painter, frame, cursor_row);
    let low = top + frame.rows() - 1;
    assert(frame.right_widths.len() == frame.right_widths@.len());
    lemma_opening(painter, frame, cursor_row, Part::Buffer, row);
    assert(top_row(painter, frame, cursor_row) == top);
    lemma_body(frame, painter.term_size.0, Part::Buffer, top);
    lemma_row_concat(body, back, top);
    lemma_row_concat(opening, body + back, row);
    lemma_row_concat(opening + (body + back), closing, row);
    if back.len() > 0 {
        lemma_single(back[0], Part::Buffer, low);
        assert(back =~= seq![back[0]]);
    } else {
        lemma_quiet(back, Part::Buffer, low);
    }
    lemma_quiet(closing, Part::Buffer, row_after(back, low));
}

/// The steps that make room for the menu: the cursor is hidden. Where the lines that the menu
/// asks for, counted in sixteen bits, are more than those from the prompt to the end of the
/// screen, the screen scrolls by the difference, and the prompt is noted as many lines higher,
/// or on the first line.
pub proof fn room_is_what_is_missing(painter: Painter, menu_lines: Option<usize>)
    ensures
        ({
            let below = if painter.term_size.1 > painter.prompt_line {
                painter.term_size.1 - painter.prompt_line
            } else {
                0
            };
            let missing = match menu_lines {
                Some(required) => required % 0x1_0000 - below,
                None => 0,
            };
            painter.room_ops(menu_lines) == if missing > 0 {
                seq![
                    PaintOp::HideCursor,
                    PaintOp::ScrollUp(missing as u16),
                    PaintOp::NotePromptLine(
                        if painter.prompt_line > missing {
                            (painter.prompt_line - missing) as u16
                        } else {
                            0
                        },
                    ),
                ]
            } else {
                seq![PaintOp::HideCursor]
            }
        }),
{
    let below = if painter.term_size.1 > painter.prompt_line {
        painter.term_size.1 - painter.prompt_line
    } else {
        0
    };
    let missing = match menu_lines {
        Some(required) => required % 0x1_0000 - below,
        None => 0,
    };
    if missing > 0 {
        assert(painter.room_ops(menu_lines) =~= seq![
            PaintOp::HideCursor,
            PaintOp::ScrollUp(missing as u16),
            PaintOp::NotePromptLine(
                if painter.prompt_line > missing {
                    (painter.prompt_line - missing) as u16
                } else {
                    0
                },
            ),
        ]);
    } else {
        assert(painter.room_ops(menu_lines) =~= seq![PaintOp::HideCursor]);
    }
}

/// A noted step changes the line of the prompt or the room for line breaks to what it says, and
/// any other step leaves the bookkeeping as it is.
pub proof fn notes_are_taken(painter: Painter, op: PaintOp)
    ensures
        painter.noted(op).term_size == painter.term_size,
        painter.noted(op).prompt_line == match op {
            PaintOp::NotePromptLine(line) => line,
            _ => painter.prompt_line,
        },
        painter.noted(op).num_newlines == match op {
            PaintOp::NoteNewlines(n) => n,
            _ => painter.num_newlines,
        },
{
}

/// The bookkeeping is in step with the screen: behind the steps that make room for the menu the
/// prompt is noted above it, and behind those that draw a frame the room is noted that it got by
/// scrolling.
pub proof fn bookkeeping_follows_the_screen(
    painter: Painter,
    menu_lines: Option<usize>,
    frame: Frame,
    cursor_row: u16,
)
    requires
        frame.wf(),
    ensures
        painter.with_room(menu_lines).term_size == painter.term_size,
        painter.with_room(menu_lines).num_newlines == painter.num_newlines,
        painter.with_room(menu_lines).prompt_line == match painter.room_ops(menu_lines).last() {
            PaintOp::NotePromptLine(line) => line,
            _ => painter.prompt_line,
        },
        painter.painted(frame, cursor_row).term_size == painter.term_size,
        painter.painted(frame, cursor_row).prompt_line == painter.prompt_line,
        painter.painted(frame, cursor_row).num_newlines == if has_to_scroll(
            painter,
            frame,
            cursor_row,
        ) {
            breaks(frame)
        } else {
            painter.num_newlines as int
        },
{
    assert(frame.right_widths.len() == frame.right_widths@.len());
}

/// A frame can be drawn if and only if the right prompt and the text have a line each, the left
/// prompt has one or the text has two, no line of the right prompt is wider than the screen, and
/// the row of the cursor can be held against the last row where the room does not do. That row
/// is asked for exactly there.
pub proof fn drawable_frames(painter: Painter, frame: Frame, cursor_row: u16)
    ensures
        painter.is_short_of_lines(frame) <==> painter.num_newlines < breaks(frame),
        frame.wf() ==> frame.total_newlines() == breaks(frame),
        painter.can_paint(frame, cursor_row) <==> {
            &&& frame.right_widths@.len() >= 1
            &&& frame.buffer_lines >= 1
            &&& 2 <= frame.left_lines + frame.buffer_lines <= usize::MAX
            &&& forall|i: int|
                0 <= i < frame.right_widths@.len() ==> #[trigger] frame.right_widths@[i]
                    <= painter.term_size.0
            &&& painter.num_newlines < breaks(frame) ==> {
                &&& cursor_row + painter.num_newlines % 0x1_0000 <= u16::MAX
                &&& painter.term_size.1 >= 1
            }
        },
{
}

/// The columns left of the cursor are those of the text before it on the last line of the text,
/// behind the last line of the left prompt as long as the text has a single line.
pub proof fn cursor_stands_behind_the_text(
    frame: Frame,
    prompt_start: Option<Seq<char>>,
    prompt: Seq<char>,
    text_start: Option<Seq<char>>,
    line: Seq<char>,
)
    requires
        !prompt.contains('\n'),
        !line.contains('\n'),
        frame.left_content@ == match prompt_start {
            Some(start) => start.push('\n') + prompt,
            None => prompt,
        },
        frame.buffer_content@ == match text_start {
            Some(start) => start.push('\n') + line,
            None => line,
        },
    ensures
        ({
            let before = if frame.cursor_ind < line.len() {
                line.take(frame.cursor_ind as int)
            } else {
                line
            };
            frame.left_space() == text::display_width(before) + if frame.buffer_lines <= 1 {
                text::display_width(prompt)
            } else {
                0
            }
        }),
{
    text::last_piece_is_behind_last_separator(prompt_start, prompt, '\n');
    text::last_piece_is_behind_last_separator(text_start, line, '\n');
    assert(line.take(line.len() as int) =~= line);
}

/// The widths of the prompt and of the text add up, and the prompt's counts as long as the text
/// has a single line. A column is counted in sixteen bits.
pub proof fn widths_add_up(frame: Frame, prompt: nat, before: nat)
    ensures
        frame.left_space_over(prompt, before) == before + if frame.buffer_lines <= 1 {
            prompt
        } else {
            0
        },
        painter::low_word(frame.left_space_over(prompt, before) as int)
            == frame.left_space_over(prompt, before) % 0x1_0000,
{
}

proof fn lemma_rows_len(frame: Frame, width: u16, n: int)
    requires
        0 <= n,
    ensures
        frame.rows_above(width, n).len() == n + lines_above(frame, Part::LeftPrompt, n)
            + lines_above(frame, Part::Buffer, n) + 2 * lines_above(frame, Part::RightPrompt, n),
        frame.row(width, n).len() == lines_above(frame, Part::LeftPrompt, n + 1) - lines_above(
            frame,
            Part::LeftPrompt,
            n,
        ) + lines_above(frame, Part::Buffer, n + 1) - lines_above(frame, Part::Buffer, n) + 2 * (
        lines_above(frame, Part::RightPrompt, n + 1) - lines_above(frame, Part::RightPrompt, n)),
    decreases n,
{
    if n > 0 {
        lemma_rows_len(frame, width, n - 1);
    }
}

/// A frame is drawn with no step too many: one for each line of the left prompt and of the text,
/// two for each line of the right prompt, one for each line break, and one for the way back up
/// where the right prompt is the longest, next to those that open and close the frame.
pub proof fn no_step_is_wasted(
    painter: Painter,
    frame: Frame,
    cursor_row: u16,
    column: u16,
)
    requires
        frame.wf(),
    ensures
        ({
            let right = frame.right_widths@.len() as int;
            let rows = text_row(frame) + frame.buffer_lines;
            let scrolling = if has_to_scroll(painter, frame, cursor_row) {
                2int
            } else {
                0
            };
            let steps_down = if right > rows {
                right - 1
            } else {
                rows - 1
            };
            let steps_up = if right > rows {
                1int
            } else {
                0
            };
            let menu = if frame.menu_active {
                1int
            } else {
                0
            };
            painter.paint_ops(frame, cursor_row, column).len() == scrolling + 2 + frame.left_lines
                + frame.buffer_lines + 2 * right + steps_down + steps_up + menu + 4
        }),
{
    assert(frame.right_widths.len() == frame.right_widths@.len());
    lemma_rows_len(frame, painter.term_size.0, frame.rows() - 1);
}

} // verus!
