use tgs_readline::{Frame, PaintOp, Painter};

fn frame(left: usize, buffer: usize, right: &[u16]) -> Frame {
    Frame {
        menu_active: false,
        left_lines: left,
        left_content: String::from("> "),
        right_widths: right.to_vec(),
        buffer_lines: buffer,
        buffer_content: String::from("ls"),
        cursor_ind: 2,
    }
}

fn on_screen(width: u16, height: u16, prompt_line: u16) -> Painter {
    let mut painter = Painter::default();
    assert!(painter.init(Ok::<(u16, u16), ()>((width, height))).is_ok());
    painter.prompt_line = prompt_line;
    painter
}

/// Notes all steps.
fn note_all(painter: &mut Painter, ops: &[PaintOp]) {
    for op in ops {
        painter.note(*op);
    }
}

#[test]
fn a_painter_starts_empty() {
    let painter = Painter::default();
    assert_eq!(painter.get_term_size(), (0, 0));
    assert_eq!(painter.prompt_line, 0);
    assert_eq!(painter.num_newlines, 0);
}

#[test]
fn init_clears_the_screen_and_starts_at_the_top() {
    let mut painter = on_screen(10, 10, 7);
    painter.num_newlines = 4;
    let ops = painter.init(Ok::<(u16, u16), ()>((80, 24)));
    assert_eq!(ops, Ok(vec![PaintOp::ClearScreen, PaintOp::MoveTo(0, 0), PaintOp::Flush]));
    assert_eq!((painter.prompt_line, painter.num_newlines), (0, 0));
    assert_eq!(painter.get_term_size(), (80, 24));
    let ops = painter.paint_at(&frame(1, 1, &[0]), 0, 0);
    assert_eq!(ops[0], PaintOp::MoveTo(0, 0));
}

#[test]
fn init_keeps_the_size_that_the_terminal_cannot_tell() {
    let mut painter = on_screen(10, 20, 7);
    painter.num_newlines = 4;
    assert_eq!(painter.init(Err("no terminal")), Err("no terminal"));
    assert_eq!((painter.prompt_line, painter.num_newlines), (0, 0));
    assert_eq!(painter.get_term_size(), (10, 20));
}

#[test]
fn the_size_is_the_last_one_set() {
    let mut painter = Painter::default();
    painter.set_term_size(10, 20);
    painter.set_term_size(30, 40);
    assert_eq!(painter.get_term_size(), (30, 40));
}

#[test]
fn a_single_line_is_painted_on_one_row() {
    let mut painter = on_screen(80, 24, 5);
    let frame = frame(1, 1, &[4]);
    let room = painter.make_room(None);
    assert_eq!(room, vec![PaintOp::HideCursor]);
    note_all(&mut painter, &room);
    assert!(painter.accepts(&frame, 5));
    let ops = painter.paint(&frame, 5);
    assert_eq!(
        ops,
        Some(vec![
            PaintOp::MoveTo(0, 5),
            PaintOp::ClearFromCursorDown,
            PaintOp::LeftPrompt(0),
            PaintOp::Buffer(0),
            PaintOp::MoveToColumn(76),
            PaintOp::RightPrompt(0),
            PaintOp::MoveToColumn(4),
            PaintOp::ShowCursor,
            PaintOp::CursorStyle,
            PaintOp::Flush,
        ])
    );
    note_all(&mut painter, &ops.unwrap());
    assert_eq!((painter.prompt_line, painter.num_newlines), (5, 0));
}

#[test]
fn the_text_starts_on_the_last_row_of_the_left_prompt() {
    let painter = on_screen(80, 24, 5);
    let ops = painter.paint_at(&frame(2, 2, &[1]), 5, 9);
    assert_eq!(
        ops[2..],
        [
            PaintOp::LeftPrompt(0),
            PaintOp::MoveToColumn(79),
            PaintOp::RightPrompt(0),
            PaintOp::NextLine,
            PaintOp::LeftPrompt(1),
            PaintOp::Buffer(0),
            PaintOp::NextLine,
            PaintOp::Buffer(1),
            PaintOp::MoveToColumn(9),
            PaintOp::ShowCursor,
            PaintOp::CursorStyle,
            PaintOp::Flush,
        ]
    );
}

#[test]
fn a_longer_right_prompt_is_left_upwards() {
    let painter = on_screen(80, 24, 5);
    let ops = painter.paint_at(&frame(1, 1, &[1, 2, 3]), 5, 0);
    assert_eq!(
        ops[2..],
        [
            PaintOp::LeftPrompt(0),
            PaintOp::Buffer(0),
            PaintOp::MoveToColumn(79),
            PaintOp::RightPrompt(0),
            PaintOp::NextLine,
            PaintOp::MoveToColumn(78),
            PaintOp::RightPrompt(1),
            PaintOp::NextLine,
            PaintOp::MoveToColumn(77),
            PaintOp::RightPrompt(2),
            PaintOp::PreviousLine(2),
            PaintOp::MoveToColumn(0),
            PaintOp::ShowCursor,
            PaintOp::CursorStyle,
            PaintOp::Flush,
        ]
    );
}

#[test]
fn the_screen_scrolls_for_a_menu_that_does_not_fit() {
    let mut painter = on_screen(80, 24, 20);
    let room = painter.make_room(Some(10));
    assert_eq!(
        room,
        vec![PaintOp::HideCursor, PaintOp::ScrollUp(6), PaintOp::NotePromptLine(14)]
    );
    // the place is kept until the screen has scrolled
    note_all(&mut painter, &room[..2]);
    assert_eq!(painter.prompt_line, 20);
    painter.note(room[2]);
    assert_eq!(painter.prompt_line, 14);
    let mut wanted = frame(1, 1, &[0]);
    wanted.menu_active = true;
    let ops = painter.paint_at(&wanted, 20, 0);
    assert_eq!(ops[0], PaintOp::MoveTo(0, 14));
    assert!(ops.contains(&PaintOp::Menu));
    // and once it fits, not again
    assert_eq!(painter.make_room(Some(10)), vec![PaintOp::HideCursor]);
}

#[test]
fn the_lines_of_a_menu_are_counted_in_sixteen_bits() {
    let painter = on_screen(80, 24, 20);
    let room = painter.make_room(Some(65536 + 5));
    assert_eq!(room[1], PaintOp::ScrollUp(1));
}

#[test]
fn the_screen_scrolls_for_line_breaks_on_its_last_row() {
    let mut painter = on_screen(80, 24, 23);
    let wanted = frame(1, 3, &[0]);
    assert!(painter.needs_cursor_row(&wanted));
    let ops = painter.paint_at(&wanted, 23, 0);
    assert_eq!(
        ops[..3],
        [PaintOp::ScrollUp(2), PaintOp::NoteNewlines(2), PaintOp::MoveTo(0, 21)]
    );
    // the room is kept until the screen has scrolled
    painter.note(ops[0]);
    assert_eq!(painter.num_newlines, 0);
    note_all(&mut painter, &ops[1..]);
    assert_eq!(painter.num_newlines, 2);
    // room is not given back
    assert!(!painter.needs_cursor_row(&frame(1, 1, &[0])));
    let ops = painter.paint_at(&frame(1, 1, &[0]), 23, 0);
    assert_eq!(ops[0], PaintOp::MoveTo(0, 21));
    note_all(&mut painter, &ops);
    assert_eq!(painter.num_newlines, 2);
}

#[test]
fn the_screen_does_not_scroll_above_its_last_row() {
    let mut painter = on_screen(80, 24, 10);
    let ops = painter.paint_at(&frame(1, 3, &[0]), 10, 0);
    assert_eq!(ops[0], PaintOp::MoveTo(0, 10));
    note_all(&mut painter, &ops);
    assert_eq!(painter.num_newlines, 0);
}

#[test]
fn newlines_are_those_of_the_taller_side() {
    assert_eq!(frame(2, 3, &[0]).newlines(), 3);
    assert_eq!(frame(1, 1, &[0, 0, 0]).newlines(), 2);
    assert_eq!(frame(1, 1, &[0]).newlines(), 0);
}

#[test]
fn the_cursor_column_counts_columns() {
    let mut wanted = frame(1, 1, &[0]);
    wanted.left_content = String::from("first\n\u{4f60} ");
    wanted.buffer_content = String::from("\u{597d}a\u{597d}");
    wanted.cursor_ind = 2;
    // a wide character takes two columns: two and a space, then two and one
    assert_eq!(wanted.cursor_column(), Some(6));
    wanted.cursor_ind = 9;
    assert_eq!(wanted.cursor_column(), Some(8));
    wanted.cursor_ind = 0;
    assert_eq!(wanted.cursor_column(), Some(3));
}

#[test]
fn the_prompt_does_not_count_behind_a_line_break() {
    let mut wanted = frame(1, 2, &[0]);
    wanted.buffer_content = String::from("long line\nab");
    wanted.cursor_ind = 1;
    assert_eq!(wanted.cursor_column(), Some(1));
}

#[test]
fn frames_that_cannot_be_drawn_are_told() {
    let painter = on_screen(80, 24, 0);
    assert!(painter.accepts(&frame(1, 1, &[80]), 0));
    // a right prompt wider than the screen
    assert!(!painter.accepts(&frame(1, 1, &[81]), 0));
    // no line in the right prompt, in the text, or left of one line of text
    assert!(!painter.accepts(&frame(1, 1, &[]), 0));
    assert!(!painter.accepts(&frame(2, 0, &[0]), 0));
    assert!(!painter.accepts(&frame(0, 1, &[0]), 0));
    assert!(painter.accepts(&frame(0, 2, &[0]), 0));
    // a row that cannot be counted, or no row at all
    let mut painter = on_screen(80, 24, 0);
    painter.num_newlines = 1;
    assert!(!painter.accepts(&frame(1, 3, &[0]), u16::MAX));
    assert!(painter.accepts(&frame(1, 2, &[0]), u16::MAX));
    let painter = on_screen(80, 0, 0);
    assert!(!painter.accepts(&frame(1, 2, &[0]), 0));
    assert!(painter.accepts(&frame(1, 1, &[0]), 0));
}

#[test]
fn the_column_adds_the_widths_up() {
    assert_eq!(frame(1, 1, &[0]).column_over(3, 4), Some(7));
    assert_eq!(frame(1, 2, &[0]).column_over(3, 4), Some(4));
    assert_eq!(frame(1, 1, &[0]).column_over(65530, 10), Some(4));
    assert_eq!(frame(1, 1, &[0]).column_over(usize::MAX, 1), None);
    assert_eq!(frame(1, 2, &[0]).column_over(usize::MAX, 1), Some(1));
}
