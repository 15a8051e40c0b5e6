//! The renderer's bookkeeping: where the prompt stands on the screen, when the screen has to
//! scroll, and in which order the lines of a frame are drawn.

use crate::text;
use vstd::prelude::*;

verus! {

/// The part of a number that fits in sixteen bits.
pub open spec fn low_word(n: int) -> u16 {
    (n % 0x1_0000) as u16
}

/// `a - b`, or zero where `b` is larger.
pub open spec fn monus(a: int, b: int) -> int {
    if a > b {
        a - b
    } else {
        0
    }
}

/// The larger of two numbers.
pub open spec fn larger(a: int, b: int) -> int {
    if a > b {
        a
    } else {
        b
    }
}

/// One step of drawing a frame.
#[derive(Debug, Clone, Copy, PartialEq, Eq, Structural)]
pub enum PaintOp {
    /// Hide the cursor
    HideCursor,
    /// Scroll the screen up by this many lines
    ScrollUp(u16),
    /// Move the cursor to this column and row
    MoveTo(u16, u16),
    /// Clear the whole screen
    ClearScreen,
    /// Clear the screen from the cursor down
    ClearFromCursorDown,
    /// Print this line of the left prompt
    LeftPrompt(usize),
    /// Print this line of the edited text
    Buffer(usize),
    /// Move the cursor to this column of its row
    MoveToColumn(u16),
    /// Print this line of the right prompt
    RightPrompt(usize),
    /// Move the cursor to the start of the next row
    NextLine,
    /// Move the cursor up by this many rows
    PreviousLine(u16),
    /// Draw the completion menu
    Menu,
    /// Show the cursor
    ShowCursor,
    /// Give the cursor the style that the shell asks for
    CursorStyle,
    /// Write everything out
    Flush,
    /// Note that the prompt is on this line now
    NotePromptLine(u16),
    /// Note that the screen has room for this many line breaks now
    NoteNewlines(usize),
}

/// What is to be drawn.
pub struct Frame {
    /// Whether the menu is active
    pub menu_active: bool,
    /// The number of lines of the left prompt
    pub left_lines: usize,
    /// The text of the left prompt
    pub left_content: String,
    /// The width of each line of the right prompt
    pub right_widths: Vec<u16>,
    /// The number of lines of the edited text
    pub buffer_lines: usize,
    /// The edited text
    pub buffer_content: String,
    /// The number of characters of the edited text before the cursor
    pub cursor_ind: usize,
}

impl Frame {
    /// The right prompt and the edited text have a line, and so has the left prompt unless
    /// the edited text has two.
    pub open spec fn wf(self) -> bool {
        &&& self.right_widths@.len() >= 1
        &&& self.buffer_lines >= 1
        &&& self.left_lines + self.buffer_lines >= 2
        &&& self.left_lines + self.buffer_lines <= usize::MAX
    }

    /// The line breaks that the frame needs: those of the right prompt, or those of the left
    /// prompt and the edited text together, where these are more.
    pub open spec fn total_newlines(self) -> int {
        larger(self.right_widths@.len() - 1, self.buffer_lines - 1 + self.left_lines - 1)
    }

    /// The row on which the edited text starts: that of the last line of the left prompt.
    pub open spec fn first_buffer_row(self) -> int {
        monus(self.left_lines as int, 1)
    }

    /// The rows that the frame takes.
    pub open spec fn rows(self) -> int {
        larger(self.right_widths@.len() as int, self.first_buffer_row() + self.buffer_lines)
    }

    /// The line of the left prompt on row `i`, where there is one.
    pub open spec fn left_on_row(self, i: int) -> Seq<PaintOp> {
        if i < self.left_lines {
            seq![PaintOp::LeftPrompt(i as usize)]
        } else {
            seq![]
        }
    }

    /// The line of the edited text on row `i`, where there is one.
    pub open spec fn buffer_on_row(self, i: int) -> Seq<PaintOp> {
        let b = i - self.first_buffer_row();
        if 0 <= b < self.buffer_lines {
            seq![PaintOp::Buffer(b as usize)]
        } else {
            seq![]
        }
    }

    /// The line of the right prompt on row `i` against the right edge of a screen of this
    /// width, where there is one.
    pub open spec fn right_on_row(self, width: u16, i: int) -> Seq<PaintOp> {
        if i < self.right_widths@.len() {
            seq![
                PaintOp::MoveToColumn((width - self.right_widths@[i]) as u16),
                PaintOp::RightPrompt(i as usize),
            ]
        } else {
            seq![]
        }
    }

    /// What is drawn on row `i` of a screen of this width.
    pub open spec fn row(self, width: u16, i: int) -> Seq<PaintOp> {
        self.left_on_row(i) + self.buffer_on_row(i) + self.right_on_row(width, i)
    }

    /// The first `n` rows, with a step to the next row behind each.
    pub open spec fn rows_above(self, width: u16, n: int) -> Seq<PaintOp>
        decreases n,
    {
        if n <= 0 {
            seq![]
        } else {
            (self.rows_above(width, n - 1) + self.row(width, n - 1)).push(PaintOp::NextLine)
        }
    }

    /// All rows of the frame.
    pub open spec fn body(self, width: u16) -> Seq<PaintOp> {
        self.rows_above(width, self.rows() - 1) + self.row(width, self.rows() - 1)
    }

    /// The way back up where the right prompt has more lines than the rest.
    pub open spec fn way_back(self) -> Seq<PaintOp> {
        if self.right_widths@.len() > self.buffer_lines + self.first_buffer_row() {
            seq![
                PaintOp::PreviousLine(
                    low_word(self.right_widths@.len() - (self.buffer_lines + self.left_lines - 1)),
                ),
            ]
        } else {
            seq![]
        }
    }

    /// The steps behind the drawing: the menu is drawn where it is active, and the cursor is
    /// put in its column and shown again.
    pub open spec fn closing(self, column: u16) -> Seq<PaintOp> {
        (if self.menu_active {
            seq![PaintOp::Menu]
        } else {
            seq![]
        }) + seq![
            PaintOp::MoveToColumn(column),
            PaintOp::ShowCursor,
            PaintOp::CursorStyle,
            PaintOp::Flush,
        ]
    }

    /// The part of the last line of the edited text that stands before the cursor.
    pub open spec fn text_before_cursor(self) -> Seq<char> {
        let line = text::pieces(self.buffer_content@, '\n').last();
        if self.cursor_ind <= line.len() {
            line.take(self.cursor_ind as int)
        } else {
            line
        }
    }

    /// The columns left of the cursor, where the last line of the left prompt and the text
    /// before the cursor take these: the prompt counts while the edited text has no line
    /// break.
    pub open spec fn left_space_over(self, prompt: nat, before: nat) -> nat {
        (if self.buffer_lines <= 1 {
            prompt
        } else {
            0
        }) + before
    }

    /// The columns left of the cursor.
    pub open spec fn left_space(self) -> nat {
        self.left_space_over(
            text::display_width(text::pieces(self.left_content@, '\n').last()),
            text::display_width(self.text_before_cursor()),
        )
    }

    /// The steps behind the drawing.
    fn close(&self, column: u16) -> (ops: Vec<PaintOp>)
        ensures
            ops@ == self.closing(column),
    {
        let mut ops: Vec<PaintOp> = Vec::new();
        if self.menu_active {
            ops.push(PaintOp::Menu);
        }
        ops.push(PaintOp::MoveToColumn(column));
        ops.push(PaintOp::ShowCursor);
        ops.push(PaintOp::CursorStyle);
        ops.push(PaintOp::Flush);
        assert(ops@ =~= self.closing(column));
        ops
    }

    /// Whether the frame has the lines that a frame needs.
    pub fn has_lines(&self) -> (b: bool)
        ensures
            b == self.wf(),
    {
        if self.right_widths.len() == 0 || self.buffer_lines == 0 {
            return false;
        }
        match self.left_lines.checked_add(self.buffer_lines) {
            Some(lines) => lines >= 2,
            None => false,
        }
    }

    /// The line breaks that the frame needs.
    pub fn newlines(&self) -> (n: usize)
        requires
            self.wf(),
        ensures
            n == self.total_newlines(),
    {
        let right: usize = self.right_widths.len() - 1;
        let left: usize = self.buffer_lines - 1 + self.left_lines - 1;
        if right > left {
            right
        } else {
            left
        }
    }

    /// The column of the cursor, where the last line of the left prompt and the text before
    /// the cursor take these many columns. `None` where they do not add up to a number of the
    /// machine.
    pub fn column_over(&self, prompt: usize, before: usize) -> (column: Option<u16>)
        ensures
            column == if self.left_space_over(prompt as nat, before as nat) <= usize::MAX {
                Some(low_word(self.left_space_over(prompt as nat, before as nat) as int))
            } else {
                None
            },
    {
        let mut left_space: usize = 0;
        // prompt space is 0 if there is going to be a newline in the edited text
        if self.buffer_lines.saturating_sub(1) == 0 {
            left_space = prompt;
        }
        match left_space.checked_add(before) {
            Some(column) => Some(truncated(column)),
            None => None,
        }
    }

    /// The column of the cursor. `None` where the widths of the texts left of it do not add
    /// up to a number of the machine. Printable ASCII characters take a column each.
    pub fn cursor_column(&self) -> (column: Option<u16>)
        ensures
            column == if self.left_space() <= usize::MAX {
                Some(low_word(self.left_space() as int))
            } else {
                None
            },
            ({
                let prompt = text::pieces(self.left_content@, '\n').last();
                let before = self.text_before_cursor();
                let columns = self.left_space_over(prompt.len(), before.len());
                text::is_printable_ascii(prompt) && text::is_printable_ascii(before) ==> column
                    == if columns <= usize::MAX {
                    Some(low_word(columns as int))
                } else {
                    None
                }
            }),
    {
        let prompt = text::last_piece(self.left_content.as_str(), '\n');
        let line = text::last_piece(self.buffer_content.as_str(), '\n');
        let before = text::first_chars(line.as_str(), self.cursor_ind);
        self.column_over(text::width(prompt.as_str()), text::width(before.as_str()))
    }
}

/// The low sixteen bits of a number.
fn truncated(n: usize) -> (r: u16)
    ensures
        r == low_word(n as int),
{
    let r: u16 = #[verifier::truncate] (n as u16);
    proof {
        assert(#[verifier::truncate] (n as u16) == n % 0x1_0000) by (bit_vector);
    }
    r
}

/// Where the prompt stands on the screen.
#[derive(Debug, Clone, Copy)]
pub struct Painter {
    /// Dimensions of current terminal window
    pub term_size: (u16, u16),
    /// Current line the prompt is on
    pub prompt_line: u16,
    /// The line breaks that the screen has made room for
    pub num_newlines: usize,
}

impl Default for Painter {
    fn default() -> (painter: Self)
        ensures
            painter == (Painter { term_size: (0, 0), prompt_line: 0, num_newlines: 0 }),
    {
        Painter { term_size: (0, 0), prompt_line: 0, num_newlines: 0 }
    }
}

impl Painter {
    /// Clear screen and move prompt to the top, on a terminal that reports this size. The steps
    /// that do so come back. Where the terminal cannot tell its size, the one that is known is
    /// kept, and the terminal's error comes back.
    pub fn init<E>(&mut self, size: Result<(u16, u16), E>) -> (ops: Result<Vec<PaintOp>, E>)
        ensures
            match size {
                Ok(size) => {
                    &&& *final(self) == (Painter {
                        term_size: size,
                        prompt_line: 0,
                        num_newlines: 0,
                    })
                    &&& ops matches Ok(steps) && steps@ == seq![
                        PaintOp::ClearScreen,
                        PaintOp::MoveTo(0, 0),
                        PaintOp::Flush,
                    ]
                },
                Err(error) => {
                    &&& *final(self) == (Painter {
                        term_size: old(self).term_size,
                        prompt_line: 0,
                        num_newlines: 0,
                    })
                    &&& ops == Err::<Vec<PaintOp>, E>(error)
                },
            },
    {
        self.prompt_line = 0;
        self.num_newlines = 0;
        match size {
            Ok(size) => {
                self.term_size = size;
                let mut ops: Vec<PaintOp> = Vec::new();
                ops.push(PaintOp::ClearScreen);
                ops.push(PaintOp::MoveTo(0, 0));
                ops.push(PaintOp::Flush);
                assert(ops@ =~= seq![PaintOp::ClearScreen, PaintOp::MoveTo(0, 0), PaintOp::Flush]);
                Ok(ops)
            },
            Err(error) => Err(error),
        }
    }

    /// The terminal window has these dimensions now.
    pub fn set_term_size(&mut self, w: u16, h: u16)
        ensures
            *final(self) == (Painter { term_size: (w, h), ..*old(self) }),
    {
        self.term_size = (w, h);
    }

    /// The dimensions of the terminal window.
    pub fn get_term_size(&self) -> (size: (u16, u16))
        ensures
            size == self.term_size,
    {
        self.term_size
    }

    /// The bookkeeping behind a step that was carried out.
    pub open spec fn noted(self, op: PaintOp) -> Painter {
        match op {
            PaintOp::NotePromptLine(line) => Painter { prompt_line: line, ..self },
            PaintOp::NoteNewlines(n) => Painter { num_newlines: n, ..self },
            _ => self,
        }
    }

    /// The bookkeeping behind some steps that were carried out.
    pub open spec fn noted_all(self, ops: Seq<PaintOp>) -> Painter
        decreases ops.len(),
    {
        if ops.len() == 0 {
            self
        } else {
            self.noted_all(ops.drop_last()).noted(ops.last())
        }
    }

    /// Note a step that was carried out.
    pub fn note(&mut self, op: PaintOp)
        ensures
            *final(self) == old(self).noted(op),
    {
        match op {
            PaintOp::NotePromptLine(line) => {
                self.prompt_line = line;
            },
            PaintOp::NoteNewlines(n) => {
                self.num_newlines = n;
            },
            _ => {},
        }
    }

    /// The lines by which the screen has to scroll so that a menu that asks for this many lines
    /// fits below the prompt.
    pub open spec fn menu_scroll(self, menu_lines: Option<usize>) -> int {
        match menu_lines {
            Some(required) => monus(
                low_word(required as int) as int,
                monus(self.term_size.1 as int, self.prompt_line as int),
            ),
            None => 0,
        }
    }

    /// The line that the prompt is on once there is room for the menu.
    pub open spec fn line_above_menu(self, menu_lines: Option<usize>) -> u16 {
        monus(self.prompt_line as int, self.menu_scroll(menu_lines)) as u16
    }

    /// The bookkeeping once there is room for the menu.
    pub open spec fn with_room(self, menu_lines: Option<usize>) -> Painter {
        Painter { prompt_line: self.line_above_menu(menu_lines), ..self }
    }

    /// The steps that make room for the menu: the cursor is hidden, and the screen scrolls where
    /// it has to.
    pub open spec fn room_ops(self, menu_lines: Option<usize>) -> Seq<PaintOp> {
        seq![PaintOp::HideCursor] + (if self.menu_scroll(menu_lines) > 0 {
            seq![
                PaintOp::ScrollUp(self.menu_scroll(menu_lines) as u16),
                PaintOp::NotePromptLine(self.line_above_menu(menu_lines)),
            ]
        } else {
            seq![]
        })
    }

    /// Whether the frame has more line breaks than the screen has room for.
    pub open spec fn is_short_of_lines(self, frame: Frame) -> bool {
        self.num_newlines < frame.total_newlines()
    }

    /// Whether the screen scrolls for the frame's line breaks: it is short of them, and the
    /// cursor's row together with those it has room for reaches the last row.
    pub open spec fn scrolls_for_lines(self, frame: Frame, cursor_row: u16) -> bool {
        &&& self.is_short_of_lines(frame)
        &&& cursor_row + low_word(self.num_newlines as int) == self.term_size.1 - 1
    }

    /// The bookkeeping behind the drawing of a frame.
    pub open spec fn painted(self, frame: Frame, cursor_row: u16) -> Painter {
        Painter {
            num_newlines: if self.scrolls_for_lines(frame, cursor_row) {
                frame.total_newlines() as usize
            } else {
                self.num_newlines
            },
            ..self
        }
    }

    /// The scrolling for the frame's line breaks.
    pub open spec fn scrolling(self, frame: Frame, cursor_row: u16) -> Seq<PaintOp> {
        if self.scrolls_for_lines(frame, cursor_row) {
            seq![
                PaintOp::ScrollUp(low_word(frame.total_newlines() - self.num_newlines)),
                PaintOp::NoteNewlines(frame.total_newlines() as usize),
            ]
        } else {
            seq![]
        }
    }

    /// The steps before the drawing: the screen scrolls, and the rows of the last frame are
    /// cleared.
    pub open spec fn opening(self, frame: Frame, cursor_row: u16) -> Seq<PaintOp> {
        let after = self.painted(frame, cursor_row);
        let top = monus(after.prompt_line as int, low_word(after.num_newlines as int) as int);
        self.scrolling(frame, cursor_row) + seq![
            PaintOp::MoveTo(0, top as u16),
            PaintOp::ClearFromCursorDown,
        ]
    }

    /// The steps that draw a frame with the cursor in this column.
    pub open spec fn paint_ops(self, frame: Frame, cursor_row: u16, column: u16) -> Seq<PaintOp> {
        self.opening(frame, cursor_row) + (frame.body(self.term_size.0) + frame.way_back())
            + frame.closing(column)
    }

    /// Whether the frame can be drawn: every line of the right prompt fits on the screen, and
    /// where the screen is short of lines it has a row and the rows can be counted.
    pub open spec fn can_paint(self, frame: Frame, cursor_row: u16) -> bool {
        &&& frame.wf()
        &&& forall|i: int|
            0 <= i < frame.right_widths@.len() ==> #[trigger] frame.right_widths@[i]
                <= self.term_size.0
        &&& self.is_short_of_lines(frame) ==> {
            &&& cursor_row + low_word(self.num_newlines as int) <= u16::MAX
            &&& self.term_size.1 >= 1
        }
    }

    /// Whether the frame can be drawn.
    pub fn accepts(&self, frame: &Frame, cursor_row: u16) -> (b: bool)
        ensures
            b == self.can_paint(*frame, cursor_row),
    {
        if !frame.has_lines() {
            return false;
        }
        let mut i: usize = 0;
        while i < frame.right_widths.len()
            invariant
                i <= frame.right_widths@.len(),
                forall|j: int|
                    0 <= j < i ==> #[trigger] frame.right_widths@[j] <= self.term_size.0,
            decreases frame.right_widths@.len() - i,
        {
            if frame.right_widths[i] > self.term_size.0 {
                return false;
            }
            i = i + 1;
        }
        if self.needs_cursor_row(frame) {
            let room: u16 = truncated(self.num_newlines);
            cursor_row.checked_add(room).is_some() && self.term_size.1 >= 1
        } else {
            true
        }
    }

    /// Whether the cursor's row decides about the scrolling.
    pub fn needs_cursor_row(&self, frame: &Frame) -> (b: bool)
        requires
            frame.wf(),
        ensures
            b == self.is_short_of_lines(*frame),
    {
        self.num_newlines < frame.newlines()
    }

    /// Make room for a menu that asks for this many lines, or for none where it is not active.
    /// The steps that do so come back. Noting each one behind it keeps the bookkeeping in step.
    pub fn make_room(&self, menu_lines: Option<usize>) -> (ops: Vec<PaintOp>)
        ensures
            ops@ == self.room_ops(menu_lines),
            self.noted_all(ops@) == self.with_room(menu_lines),
    {
        let mut ops: Vec<PaintOp> = Vec::new();
        ops.push(PaintOp::HideCursor);
        match menu_lines {
            Some(lines) => {
                let required_lines: u16 = truncated(lines);
                let remaining_lines: u16 = self.term_size.1.saturating_sub(self.prompt_line);
                // scroll up if we need more lines
                if required_lines > remaining_lines {
                    let extra_lines: u16 = required_lines.saturating_sub(remaining_lines);
                    ops.push(PaintOp::ScrollUp(extra_lines));
                    ops.push(PaintOp::NotePromptLine(self.prompt_line.saturating_sub(extra_lines)));
                }
            },
            None => {},
        }
        proof {
            assert(ops@ =~= self.room_ops(menu_lines));
            reveal_with_fuel(Painter::noted_all, 4);
        }
        ops
    }

    /// Scroll up if the line breaks need more room, and clean up the rows of the last frame.
    fn open(&self, frame: &Frame, cursor_row: u16) -> (ops: Vec<PaintOp>)
        requires
            self.can_paint(*frame, cursor_row),
        ensures
            ops@ == self.opening(*frame, cursor_row),
    {
        let mut ops: Vec<PaintOp> = Vec::new();
        let mut num_newlines: usize = self.num_newlines;
        let total_newlines: usize = frame.newlines();
        // num_newlines never gets smaller
        if num_newlines < total_newlines && cursor_row + truncated(num_newlines)
            == self.term_size.1 - 1 {
            ops.push(PaintOp::ScrollUp(truncated(total_newlines - num_newlines)));
            ops.push(PaintOp::NoteNewlines(total_newlines));
            num_newlines = total_newlines;
        }
        let top: u16 = self.prompt_line.saturating_sub(truncated(num_newlines));
        ops.push(PaintOp::MoveTo(0, top));
        ops.push(PaintOp::ClearFromCursorDown);
        assert(ops@ =~= self.opening(*frame, cursor_row));
        ops
    }

    /// Draw row `i` of a frame.
    fn draw_row(&self, frame: &Frame, i: usize, ops: &mut Vec<PaintOp>)
        requires
            i < frame.right_widths@.len() ==> frame.right_widths@[i as int] <= self.term_size.0,
        ensures
            final(ops)@ == old(ops)@ + frame.row(self.term_size.0, i as int),
    {
        let first: usize = frame.left_lines.saturating_sub(1);
        if i < frame.left_lines {
            ops.push(PaintOp::LeftPrompt(i));
        }
        // the edited text starts when the left prompt is out of lines
        if i >= first && i - first < frame.buffer_lines {
            ops.push(PaintOp::Buffer(i - first));
        }
        if i < frame.right_widths.len() {
            let right_space: u16 = self.term_size.0 - frame.right_widths[i];
            ops.push(PaintOp::MoveToColumn(right_space));
            ops.push(PaintOp::RightPrompt(i));
        }
        assert(ops@ =~= old(ops)@ + frame.row(self.term_size.0, i as int));
    }

    /// Draw the rows of a frame and go back to the row of the cursor.
    fn draw_rows(&self, frame: &Frame) -> (ops: Vec<PaintOp>)
        requires
            frame.wf(),
            forall|i: int|
                0 <= i < frame.right_widths@.len() ==> #[trigger] frame.right_widths@[i]
                    <= self.term_size.0,
        ensures
            ops@ == frame.body(self.term_size.0) + frame.way_back(),
    {
        let left: usize = frame.left_lines.saturating_sub(1) + frame.buffer_lines;
        let right: usize = frame.right_widths.len();
        let last: usize = if right > left {
            right - 1
        } else {
            left - 1
        };
        let mut ops: Vec<PaintOp> = Vec::new();
        let mut i: usize = 0;
        while i < last
            invariant
                i <= last,
                forall|j: int|
                    0 <= j < frame.right_widths@.len() ==> #[trigger] frame.right_widths@[j]
                        <= self.term_size.0,
                ops@ == frame.rows_above(self.term_size.0, i as int),
            decreases last - i,
        {
            self.draw_row(frame, i, &mut ops);
            ops.push(PaintOp::NextLine);
            i = i + 1;
        }
        self.draw_row(frame, last, &mut ops);
        // account for right prompt being longest and set position for cursor
        if right > left {
            ops.push(
                PaintOp::PreviousLine(
                    truncated(right - (frame.buffer_lines + frame.left_lines - 1)),
                ),
            );
        }
        assert(ops@ =~= frame.body(self.term_size.0) + frame.way_back());
        ops
    }

    /// Draw a frame whose cursor goes in this column, with the cursor on this row so far. The
    /// steps that do so come back. Noting each one behind it keeps the bookkeeping in step.
    pub fn paint_at(&self, frame: &Frame, cursor_row: u16, column: u16) -> (ops: Vec<PaintOp>)
        requires
            self.can_paint(*frame, cursor_row),
        ensures
            ops@ == self.paint_ops(*frame, cursor_row, column),
            self.noted_all(ops@) == self.painted(*frame, cursor_row),
    {
        let mut ops = self.open(frame, cursor_row);
        let mut rows = self.draw_rows(frame);
        ops.append(&mut rows);
        let mut closing = frame.close(column);
        ops.append(&mut closing);
        proof {
            lemma_paint_notes(*self, *frame, cursor_row, column);
        }
        ops
    }

    /// Draw a frame, with the cursor on this row so far. The steps that do so come back, and
    /// noting each one behind it keeps the bookkeeping in step. `None` where the column of the
    /// cursor is not a number of the machine.
    pub fn paint(&self, frame: &Frame, cursor_row: u16) -> (ops: Option<Vec<PaintOp>>)
        requires
            self.can_paint(*frame, cursor_row),
        ensures
            ops is Some <==> frame.left_space() <= usize::MAX,
            ops matches Some(steps) ==> {
                &&& steps@ == self.paint_ops(
                    *frame,
                    cursor_row,
                    low_word(frame.left_space() as int),
                )
                &&& self.noted_all(steps@) == self.painted(*frame, cursor_row)
            },
    {
        match frame.cursor_column() {
            Some(column) => Some(self.paint_at(frame, cursor_row, column)),
            None => None,
        }
    }
}

/// Steps with nothing to note.
spec fn notes_nothing(ops: Seq<PaintOp>) -> bool {
    forall|i: int|
        0 <= i < ops.len() ==> !(#[trigger] ops[i] is NotePromptLine || ops[i] is NoteNewlines)
}

proof fn lemma_noted_concat(painter: Painter, a: Seq<PaintOp>, b: Seq<PaintOp>)
    requires
        notes_nothing(b),
    ensures
        painter.noted_all(a + b) == painter.noted_all(a),
    decreases b.len(),
{
    if b.len() == 0 {
        assert(a + b =~= a);
    } else {
        assert(b[b.len() - 1] == b.last());
        assert(forall|i: int| 0 <= i < b.len() - 1 ==> #[trigger] b.drop_last()[i] == b[i]);
        lemma_noted_concat(painter, a, b.drop_last());
        assert((a + b).drop_last() =~= a + b.drop_last());
    }
}

proof fn lemma_rows_note_nothing(frame: Frame, width: u16, n: int)
    ensures
        notes_nothing(frame.rows_above(width, n)),
        notes_nothing(frame.row(width, n)),
    decreases n,
{
    if n > 0 {
        lemma_rows_note_nothing(frame, width, n - 1);
    }
}

/// Noting the steps that draw a frame gives the bookkeeping behind it.
proof fn lemma_paint_notes(painter: Painter, frame: Frame, cursor_row: u16, column: u16)
    ensures
        painter.noted_all(painter.paint_ops(frame, cursor_row, column)) == painter.painted(
            frame,
            cursor_row,
        ),
{
    let scrolling = painter.scrolling(frame, cursor_row);
    let opening = painter.opening(frame, cursor_row);
    let rows = frame.body(painter.term_size.0) + frame.way_back();
    lemma_rows_note_nothing(frame, painter.term_size.0, frame.rows() - 1);
    lemma_noted_concat(painter, scrolling, opening.skip(scrolling.len() as int));
    assert(opening =~= scrolling + opening.skip(scrolling.len() as int));
    lemma_noted_concat(painter, opening, rows);
    lemma_noted_concat(painter, opening + rows, frame.closing(column));
    reveal_with_fuel(Painter::noted_all, 3);
}

} // verus!
