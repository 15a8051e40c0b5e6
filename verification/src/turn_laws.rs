//! What every answer leads to, stated of the steps themselves.

use crate::ctx::{Input, LineState, NextView, PhaseView, Snapshot, StepView};
use crate::effect::{
    Action, Color, Command, Completion, CompletionView, CursorShape, EffectView, LineMode,
    Location, MenuCommand, Motion, OverlayView, ReplaceMethod, SnapshotCommand,
};
use crate::event::{Event, KeyCode, KeyEvent, KeyModifiers};
use crate::history::HistoryInd;
use crate::keys::Outcome;
use crate::keys;
use crate::line::LineView;
use crate::painter::Painter;
use crate::session;
use crate::text;
use vstd::prelude::*;
use vstd::utf8::*;

verus! {

/// The press of a key.
pub open spec fn press(code: KeyCode, modifiers: KeyModifiers) -> Event {
    Event::Key(KeyEvent { code, modifiers })
}

/// The press of a key with no modifier.
pub open spec fn plain(code: KeyCode) -> Event {
    press(code, KeyModifiers::Plain)
}

/// The press of a character with control.
pub open spec fn control(c: char) -> Event {
    press(KeyCode::Char(c), KeyModifiers::Control)
}

/// A step from which the reading waits in a phase, with the rest of it as given.
pub open spec fn leads_to(
    line: LineView,
    ctx: LineState,
    phase: PhaseView,
    effects: Seq<EffectView>,
    next: NextView,
) -> Outcome {
    Outcome { line, ctx: LineState { phase, ..ctx }, step: StepView { effects, next } }
}

/// A step that carries out some effects and is done with the event.
pub open spec fn handles(line: LineView, ctx: LineState, effects: Seq<EffectView>) -> Outcome {
    leads_to(line, ctx, PhaseView::Settled, effects, NextView::Perform)
}

/// The end of a reading: the command that was read goes into the history unless it is empty.
pub open spec fn ends_with(line: LineView, ctx: LineState, command: Seq<char>) -> Outcome {
    leads_to(
        line,
        ctx,
        PhaseView::Ended,
        if command.len() == 0 {
            seq![]
        } else {
            seq![EffectView::AddHistory(command)]
        },
        NextView::Finish(command),
    )
}

// Which answers move the reading on

/// Whether there is a line above the one that is shown, or the prompt is shown.
pub open spec fn may_go_up(ctx: LineState, shot: Snapshot) -> bool {
    match ctx.history_ind {
        HistoryInd::Prompt => true,
        HistoryInd::Line(i) => i < usize::MAX && shot.history_len > 0,
    }
}

/// Whether a text has a character that ends where the current word would end in it.
pub open spec fn may_be_cut(ctx: LineState, whole: Option<String>) -> bool {
    match whole {
        Some(whole) => is_char_boundary(
            encode_utf8(whole@),
            encode_utf8(ctx.current_word).len() as int,
        ),
        None => true,
    }
}

/// An answer moves the reading on if and only if it answers what was asked and the cursor is in
/// the text. Beyond that, going up needs a history to go up in, and what is previewed has to be
/// long enough to be cut.
pub proof fn answers_move_on(ctx: LineState, input: Input, shot: Snapshot)
    ensures
        session::moves_on(ctx, input, shot) <==> shot.cursor <= shot.text@.len() && match (
            ctx.phase,
            input,
        ) {
            (PhaseView::Idle, Input::Event { .. }) => true,
            (PhaseView::Checking(_), Input::LineCheck(_)) => true,
            (PhaseView::Dispatch(event), Input::Ready) => {
                ||| shot.menu_active
                ||| ctx.mode is Normal
                ||| event != plain(KeyCode::Up)
                ||| may_go_up(ctx, shot)
            },
            (PhaseView::Accepting, Input::Accepted(_)) => true,
            (PhaseView::Completing, Input::Completions(_)) => true,
            (PhaseView::Listing, Input::Items(_)) => true,
            (PhaseView::Parsing, Input::Parsed(_)) => true,
            (PhaseView::Running { .. }, Input::Executed(_)) => true,
            (PhaseView::Switched { action, .. }, Input::Ready) => action != Action::Move(Motion::Up)
                || may_go_up(ctx, shot),
            (PhaseView::Repeated, Input::Ready) => true,
            (PhaseView::Replacing { .. }, Input::Ready) => true,
            (PhaseView::Settled, Input::Ready) => true,
            (PhaseView::Rendering, Input::Preview { selection, suggestion }) => {
                &&& shot.menu_active ==> may_be_cut(ctx, selection)
                &&& may_be_cut(ctx, suggestion)
            },
            (PhaseView::Extending { .. }, Input::Extension(_)) => true,
            _ => false,
        },
{
}

/// A history that has the line that is shown can be gone up in.
pub proof fn shown_line_may_go_up(ctx: LineState, shot: Snapshot)
    requires
        ctx.history_ind matches HistoryInd::Line(i) ==> i < shot.history_len,
    ensures
        may_go_up(ctx, shot),
{
}

// Events

/// A key that a binding has dealt with ends the reading with the command so far.
pub proof fn bound_keys_end_the_reading(
    line: LineView,
    ctx: LineState,
    key: KeyEvent,
    shot: Snapshot,
)
    requires
        ctx.phase is Idle,
    ensures
        session::turn(line, ctx, Input::Event { event: Event::Key(key), bound: true }, shot)
            == ends_with(line, ctx, ctx.lines + shot.text@),
{
}

/// Bindings have to do with keys alone.
pub proof fn only_keys_are_bound(
    line: LineView,
    ctx: LineState,
    event: Event,
    bound: bool,
    shot: Snapshot,
)
    requires
        ctx.phase is Idle,
        !(event is Key),
    ensures
        session::turn(line, ctx, Input::Event { event, bound }, shot) == session::turn(
            line,
            ctx,
            Input::Event { event, bound: false },
            shot,
        ),
{
}

/// Enter, control and `j`, and on a text control and `d` submit the line where the menu is not
/// active: the record of earlier states and the line of the screen end, and it is asked whether
/// the command so far needs another line.
pub proof fn submitting_asks_about_the_command(
    line: LineView,
    ctx: LineState,
    event: Event,
    shot: Snapshot,
)
    requires
        ctx.phase is Idle,
        !shot.menu_active,
        event == plain(KeyCode::Enter) || event == control('j') || event == control('d')
            && shot.text@.len() > 0,
    ensures
        session::turn(line, ctx, Input::Event { event, bound: false }, shot) == leads_to(
            line,
            ctx,
            PhaseView::Checking(
                if event == control('d') {
                    plain(KeyCode::Enter)
                } else {
                    event
                },
            ),
            seq![EffectView::Snapshots(SnapshotCommand::Clear), EffectView::Newline],
            NextView::CheckLine(ctx.lines + shot.text@),
        ),
{
}

/// Whenever it is asked whether a command needs another line, the command is the stored lines
/// followed by the edited text.
pub proof fn whole_command_is_checked(
    line: LineView,
    ctx: LineState,
    input: Input,
    shot: Snapshot,
    command: Seq<char>,
)
    requires
        session::moves_on(ctx, input, shot),
        session::turn(line, ctx, input, shot).step.next == NextView::CheckLine(command),
    ensures
        command == ctx.lines + shot.text@,
{
}

/// The command that is read is the one that was asked about, where the text has not changed
/// since.
pub proof fn checked_command_is_read(
    line: LineView,
    ctx: LineState,
    event: Event,
    shot: Snapshot,
    later: Snapshot,
)
    requires
        ctx.phase is Idle,
        later.text@ == shot.text@,
    ensures
        ({
            let asked = session::turn(line, ctx, Input::Event { event, bound: false }, shot);
            asked.step.next matches NextView::CheckLine(command) ==> {
                let read = session::turn(asked.line, asked.ctx, Input::LineCheck(false), later);
                read.step.next == NextView::Finish(command)
            }
        }),
{
}

/// Control and `d` without a text exits, and carries nothing out.
pub proof fn control_d_without_text_exits(line: LineView, ctx: LineState, shot: Snapshot)
    requires
        ctx.phase is Idle,
        shot.text@.len() == 0,
    ensures
        session::turn(line, ctx, Input::Event { event: control('d'), bound: false }, shot)
            == leads_to(line, ctx, PhaseView::Ended, seq![], NextView::Exit),
{
}

/// A pasted text is inserted, and the event is handed on.
pub proof fn pasted_text_is_inserted(
    line: LineView,
    ctx: LineState,
    pasted: String,
    bound: bool,
    shot: Snapshot,
)
    requires
        ctx.phase is Idle,
    ensures
        session::turn(line, ctx, Input::Event { event: Event::Paste(pasted), bound }, shot)
            == leads_to(
            line,
            ctx,
            PhaseView::Dispatch(Event::Paste(pasted)),
            seq![EffectView::Insert(pasted@)],
            NextView::Perform,
        ),
{
}

/// A resized window changes the size that is known and nothing else.
pub proof fn new_size_is_noted(
    line: LineView,
    ctx: LineState,
    w: u16,
    h: u16,
    bound: bool,
    shot: Snapshot,
)
    requires
        ctx.phase is Idle,
    ensures
        session::turn(line, ctx, Input::Event { event: Event::Resize(w, h), bound }, shot)
            == leads_to(
            LineView {
                painter: Painter {
                    term_size: (w, h),
                    prompt_line: line.painter.prompt_line,
                    num_newlines: line.painter.num_newlines,
                },
                normal_keys: line.normal_keys,
            },
            ctx,
            PhaseView::Dispatch(Event::Resize(w, h)),
            seq![],
            NextView::Perform,
        ),
{
}

/// Every other event is handed on as it is and carries nothing out at first. While the menu is
/// active that holds of Enter and of control and `j` too, and control and `d` on a text is
/// handed on as Enter.
pub proof fn other_events_are_handed_on(
    line: LineView,
    ctx: LineState,
    event: Event,
    shot: Snapshot,
)
    requires
        ctx.phase is Idle,
        event is Key || event is Other,
        event == plain(KeyCode::Enter) || event == control('j') ==> shot.menu_active,
        event == control('d') ==> shot.menu_active && shot.text@.len() > 0,
    ensures
        session::turn(line, ctx, Input::Event { event, bound: false }, shot) == leads_to(
            line,
            ctx,
            PhaseView::Dispatch(
                if event == control('d') {
                    plain(KeyCode::Enter)
                } else {
                    event
                },
            ),
            seq![],
            NextView::Perform,
        ),
{
}

/// A line of a command that needs another one is stored with a line break behind it, the edited
/// text is emptied, and the event is handed on.
pub proof fn unfinished_line_is_stored(
    line: LineView,
    ctx: LineState,
    event: Event,
    shot: Snapshot,
)
    requires
        ctx.phase == PhaseView::Checking(event),
    ensures
        session::turn(line, ctx, Input::LineCheck(true), shot) == leads_to(
            line,
            LineState { lines: ctx.lines + shot.text@ + seq!['\n'], ..ctx },
            PhaseView::Dispatch(event),
            seq![EffectView::ClearBuffer],
            NextView::Perform,
        ),
{
}

/// A command that needs no other line is read.
pub proof fn finished_command_is_read(
    line: LineView,
    ctx: LineState,
    event: Event,
    shot: Snapshot,
)
    requires
        ctx.phase == PhaseView::Checking(event),
    ensures
        session::turn(line, ctx, Input::LineCheck(false), shot) == ends_with(
            line,
            ctx,
            ctx.lines + shot.text@,
        ),
{
}

// Keys of insert mode

/// Whether an event has come to insert mode.
pub open spec fn in_insert_mode(ctx: LineState, event: Event, shot: Snapshot) -> bool {
    &&& ctx.phase == PhaseView::Dispatch(event)
    &&& ctx.mode is Insert
    &&& !shot.menu_active
}

/// A character is typed with any modifiers, unless control gives it another meaning.
pub proof fn characters_are_typed(
    line: LineView,
    ctx: LineState,
    c: char,
    modifiers: KeyModifiers,
    shot: Snapshot,
)
    requires
        in_insert_mode(ctx, press(KeyCode::Char(c), modifiers), shot),
        modifiers is Control ==> c != 'h' && c != 'w' && c != 'a' && c != 'e',
    ensures
        session::turn(line, ctx, Input::Ready, shot) == handles(
            line,
            ctx,
            seq![EffectView::Insert(seq![c])],
        ),
{
}

/// The left and right keys move the cursor by one character, and not out of the text.
pub proof fn arrows_move_the_cursor(line: LineView, ctx: LineState, shot: Snapshot)
    ensures
        in_insert_mode(ctx, plain(KeyCode::Left), shot) ==> session::turn(
            line,
            ctx,
            Input::Ready,
            shot,
        ) == handles(
            line,
            ctx,
            if shot.cursor == 0 {
                seq![]
            } else {
                seq![EffectView::MoveCursor(Location::Before)]
            },
        ),
        in_insert_mode(ctx, plain(KeyCode::Right), shot) ==> session::turn(
            line,
            ctx,
            Input::Ready,
            shot,
        ) == handles(
            line,
            ctx,
            if shot.cursor >= shot.text@.len() {
                seq![]
            } else {
                seq![EffectView::MoveCursor(Location::After)]
            },
        ),
{
}

/// Control and `a` goes to the start of the text, control and `e` to its end.
pub proof fn control_moves_to_the_ends(line: LineView, ctx: LineState, shot: Snapshot)
    ensures
        in_insert_mode(ctx, control('a'), shot) ==> session::turn(line, ctx, Input::Ready, shot)
            == handles(line, ctx, seq![EffectView::MoveCursor(Location::Front)]),
        in_insert_mode(ctx, control('e'), shot) ==> session::turn(line, ctx, Input::Ready, shot)
            == handles(line, ctx, seq![EffectView::MoveCursor(Location::Back)]),
{
}

/// Backspace, and control and `h`, delete the character before the cursor where there is one;
/// control and `w` deletes from the start of the word before the cursor.
pub proof fn deletions_go_backwards(line: LineView, ctx: LineState, event: Event, shot: Snapshot)
    requires
        in_insert_mode(ctx, event, shot),
        event == plain(KeyCode::Backspace) || event == control('h') || event == control('w'),
    ensures
        session::turn(line, ctx, Input::Ready, shot) == handles(
            line,
            ctx,
            if shot.cursor == 0 {
                seq![]
            } else if event == control('w') {
                seq![EffectView::Delete(Location::BackWord, Location::Cursor)]
            } else {
                seq![EffectView::Delete(Location::Before, Location::Cursor)]
            },
        ),
{
}

/// Escape with any modifiers leaves insert mode: the cursor becomes a block, the hooks run, and
/// the edited text is recorded.
pub proof fn escape_leaves_insert_mode(
    line: LineView,
    ctx: LineState,
    modifiers: KeyModifiers,
    shot: Snapshot,
)
    requires
        in_insert_mode(ctx, press(KeyCode::Esc, modifiers), shot),
    ensures
        session::turn(line, ctx, Input::Ready, shot) == handles(
            line,
            LineState { mode: LineMode::Normal, ..ctx },
            seq![
                EffectView::CursorStyle(CursorShape::BlinkingBlock),
                EffectView::ModeHooks(LineMode::Normal),
                EffectView::Snapshots(SnapshotCommand::Add),
            ],
        ),
{
    let effects = session::turn(line, ctx, Input::Ready, shot).step.effects;
    assert(effects =~= seq![
        EffectView::CursorStyle(CursorShape::BlinkingBlock),
        EffectView::ModeHooks(LineMode::Normal),
        EffectView::Snapshots(SnapshotCommand::Add),
    ]);
}

/// What Tab asks the completer for: words without a space that joined by spaces give the text
/// before the cursor, the last of which becomes the current word. Nothing else changes.
pub proof fn tab_asks_for_the_words(line: LineView, ctx: LineState, shot: Snapshot)
    requires
        in_insert_mode(ctx, plain(KeyCode::Tab), shot),
        shot.cursor <= shot.text@.len(),
    ensures
        ({
            let out = session::turn(line, ctx, Input::Ready, shot);
            &&& out.step.next matches NextView::Complete(words)
            &&& words.len() >= 1
            &&& text::joined(words, ' ') == shot.text@.take(shot.cursor as int)
            &&& forall|i: int| 0 <= i < words.len() ==> !(#[trigger] words[i]).contains(' ')
            &&& out == leads_to(
                line,
                LineState { current_word: words[words.len() - 1], ..ctx },
                PhaseView::Completing,
                seq![],
                NextView::Complete(words),
            )
        }),
{
    let before = shot.text@.take(shot.cursor as int);
    text::split_rejoins(before, ' ');
    text::split_is_not_empty(before, ' ');
    text::pieces_hold_no_separator(before, ' ');
}

/// The events that mean nothing in insert mode do nothing there.
pub proof fn other_events_do_nothing(line: LineView, ctx: LineState, event: Event, shot: Snapshot)
    requires
        in_insert_mode(ctx, event, shot),
        event matches Event::Key(key) ==> {
            &&& !(key.code is Char)
            &&& !(key.code is Esc)
            &&& key.code is Tab || key.code is Left || key.code is Right || key.code is Up
                || key.code is Down || key.code is Backspace ==> !(key.modifiers is Plain)
        },
    ensures
        session::turn(line, ctx, Input::Ready, shot) == handles(line, ctx, seq![]),
{
}

// Keys of normal mode

/// In normal mode a character adds to the pressed keys, and it is asked which command they make;
/// escape drops them; any other event does nothing.
pub proof fn normal_mode_gathers_keys(line: LineView, ctx: LineState, event: Event, shot: Snapshot)
    requires
        ctx.phase == PhaseView::Dispatch(event),
        ctx.mode is Normal,
        !shot.menu_active,
    ensures
        session::turn(line, ctx, Input::Ready, shot) == match event {
            Event::Key(KeyEvent { code: KeyCode::Char(c), modifiers: _ }) => leads_to(
                LineView { painter: line.painter, normal_keys: line.normal_keys.push(c) },
                ctx,
                PhaseView::Parsing,
                seq![],
                NextView::Parse(line.normal_keys.push(c)),
            ),
            Event::Key(KeyEvent { code: KeyCode::Esc, modifiers: _ }) => handles(
                LineView { painter: line.painter, normal_keys: seq![] },
                ctx,
                seq![],
            ),
            _ => handles(line, ctx, seq![]),
        },
{
}

/// Keys that make no command are kept for more; a command that is to be carried out no time
/// drops them; any other command is carried out.
pub proof fn commands_are_taken_up(
    line: LineView,
    ctx: LineState,
    parsed: Option<Command>,
    shot: Snapshot,
)
    requires
        ctx.phase is Parsing,
    ensures
        session::turn(line, ctx, Input::Parsed(parsed), shot) == match parsed {
            None => handles(line, ctx, seq![]),
            Some(command) => if command.repeat == 0 {
                handles(
                    LineView { painter: line.painter, normal_keys: seq![] },
                    ctx,
                    seq![],
                )
            } else {
                leads_to(
                    line,
                    ctx,
                    PhaseView::Running { remaining: command.repeat, action: command.action },
                    seq![],
                    NextView::Execute(command.action),
                )
            },
        },
{
}

/// An action that was carried out leads to the mode that it asks for, with the cursor's shape
/// and the hooks of that mode, also where the reading is in that mode already.
pub proof fn actions_switch_modes(
    line: LineView,
    ctx: LineState,
    remaining: usize,
    action: Action,
    mode: Option<LineMode>,
    shot: Snapshot,
)
    requires
        ctx.phase == (PhaseView::Running { remaining, action }),
    ensures
        session::turn(line, ctx, Input::Executed(mode), shot) == leads_to(
            line,
            match mode {
                Some(mode) => LineState { mode, ..ctx },
                None => ctx,
            },
            PhaseView::Switched { remaining, action },
            match mode {
                Some(LineMode::Insert) => seq![
                    EffectView::CursorStyle(CursorShape::BlinkingBar),
                    EffectView::ModeHooks(LineMode::Insert),
                ],
                Some(LineMode::Normal) => seq![
                    EffectView::CursorStyle(CursorShape::BlinkingBlock),
                    EffectView::ModeHooks(LineMode::Normal),
                ],
                None => seq![],
            },
            NextView::Perform,
        ),
{
}

/// The step behind an action: the next repetition, or the end of the command.
pub open spec fn repeats(
    line: LineView,
    ctx: LineState,
    remaining: usize,
    action: Action,
    effects: Seq<EffectView>,
) -> Outcome {
    if remaining > 1 {
        leads_to(
            line,
            ctx,
            PhaseView::Running { remaining: (remaining - 1) as usize, action },
            effects,
            NextView::Execute(action),
        )
    } else {
        leads_to(line, ctx, PhaseView::Repeated, effects, NextView::Perform)
    }
}

/// Undo and redo go through the record of earlier states, an action that is no motion is
/// recorded, and a motion within the text carries nothing out. None of them changes the reading.
pub proof fn actions_are_recorded(
    line: LineView,
    ctx: LineState,
    remaining: usize,
    action: Action,
    shot: Snapshot,
)
    requires
        ctx.phase == (PhaseView::Switched { remaining, action }),
        action != Action::Move(Motion::Up),
        action != Action::Move(Motion::Down),
    ensures
        session::turn(line, ctx, Input::Ready, shot) == repeats(
            line,
            ctx,
            remaining,
            action,
            match action {
                Action::Undo => seq![EffectView::Snapshots(SnapshotCommand::Previous)],
                Action::Redo => seq![EffectView::Snapshots(SnapshotCommand::Next)],
                Action::Move(_) => seq![],
                Action::Other => seq![EffectView::Snapshots(SnapshotCommand::Add)],
            },
        ),
{
}

// Browsing history

/// How history is browsed: with an arrow key in insert mode, or with a motion of normal mode
/// that is to be carried out this many times more.
pub enum Way {
    Arrow,
    Motion { remaining: usize },
}

/// The reading about to browse history up or down.
pub open spec fn about_to_browse(ctx: LineState, up: bool, way: Way) -> LineState {
    match way {
        Way::Arrow => LineState {
            mode: LineMode::Insert,
            phase: PhaseView::Dispatch(
                plain(
                    if up {
                        KeyCode::Up
                    } else {
                        KeyCode::Down
                    },
                ),
            ),
            ..ctx
        },
        Way::Motion { remaining } => LineState {
            phase: PhaseView::Switched {
                remaining,
                action: Action::Move(
                    if up {
                        Motion::Up
                    } else {
                        Motion::Down
                    },
                ),
            },
            ..ctx
        },
    }
}

/// The step that browses history up or down.
pub open spec fn browsed(
    line: LineView,
    ctx: LineState,
    up: bool,
    way: Way,
    shot: Snapshot,
) -> Outcome {
    session::turn(line, about_to_browse(ctx, up, way), Input::Ready, shot)
}

/// A browsing step changes the place in history and the saved line of the reading, and shows the
/// line of that place: the saved line at the prompt, and else a line of the history. Then the
/// event is handled, or the motion repeated.
pub proof fn browsing_shows_its_place(
    line: LineView,
    ctx: LineState,
    up: bool,
    way: Way,
    shot: Snapshot,
)
    requires
        !shot.menu_active,
    ensures
        ({
            let start = about_to_browse(ctx, up, way);
            let out = browsed(line, ctx, up, way, shot);
            let after = LineState {
                history_ind: out.ctx.history_ind,
                saved_line: out.ctx.saved_line,
                ..start
            };
            let effects = match out.ctx.history_ind {
                HistoryInd::Prompt => seq![
                    EffectView::ClearBuffer,
                    EffectView::Insert(out.ctx.saved_line),
                ],
                HistoryInd::Line(i) => seq![EffectView::ClearBuffer, EffectView::InsertHistory(i)],
            };
            out == match start.phase {
                PhaseView::Switched { remaining, action } => repeats(
                    line,
                    after,
                    remaining,
                    action,
                    effects,
                ),
                _ => handles(line, after, effects),
            }
        }),
{
}

/// Going up enters history at its newest line and saves the edited text, and goes on to the
/// next older line, but not beyond the oldest one. An empty history is not entered.
pub proof fn up_goes_to_the_older_line(
    line: LineView,
    ctx: LineState,
    way: Way,
    shot: Snapshot,
)
    requires
        !shot.menu_active,
        may_go_up(ctx, shot),
    ensures
        ({
            let after = browsed(line, ctx, true, way, shot).ctx;
            match ctx.history_ind {
                HistoryInd::Prompt => {
                    &&& after.saved_line == shot.text@
                    &&& shot.history_len == 0 ==> after.history_ind == HistoryInd::Prompt
                    &&& shot.history_len > 0 ==> after.history_ind == HistoryInd::Line(0)
                },
                HistoryInd::Line(i) => {
                    &&& after.saved_line == ctx.saved_line
                    &&& i + 1 < shot.history_len ==> after.history_ind == HistoryInd::Line(
                        (i + 1) as usize,
                    )
                    &&& i + 1 >= shot.history_len ==> after.history_ind == HistoryInd::Line(
                        (shot.history_len - 1) as usize,
                    )
                },
            }
        }),
{
}

/// Going down goes to the next newer line, from the newest one to the prompt, and stays there.
/// The saved line stays what it is.
pub proof fn down_goes_to_the_newer_line(
    line: LineView,
    ctx: LineState,
    way: Way,
    shot: Snapshot,
)
    requires
        !shot.menu_active,
    ensures
        ({
            let after = browsed(line, ctx, false, way, shot).ctx;
            &&& after.saved_line == ctx.saved_line
            &&& after.history_ind == match ctx.history_ind {
                HistoryInd::Line(i) => if i > 0 {
                    HistoryInd::Line((i - 1) as usize)
                } else {
                    HistoryInd::Prompt
                },
                HistoryInd::Prompt => HistoryInd::Prompt,
            }
        }),
{
}

/// The reading after browsing steps up or down, one for each way.
pub open spec fn browsed_by(
    line: LineView,
    ctx: LineState,
    up: bool,
    ways: Seq<Way>,
    shots: Seq<Snapshot>,
) -> LineState
    decreases ways.len(),
{
    if ways.len() == 0 {
        ctx
    } else {
        let before = browsed_by(line, ctx, up, ways.drop_last(), shots.drop_last());
        browsed(line, before, up, ways.last(), shots.last()).ctx
    }
}

/// Whether these are as many snapshots as steps, without a menu, and of a history of this length.
pub open spec fn seen_with(shots: Seq<Snapshot>, steps: nat, limit: usize) -> bool {
    &&& shots.len() == steps
    &&& forall|i: int|
        0 <= i < shots.len() ==> (#[trigger] shots[i]).history_len == limit
            && !shots[i].menu_active
}

proof fn lemma_ups(
    line: LineView,
    ctx: LineState,
    ways: Seq<Way>,
    shots: Seq<Snapshot>,
    limit: usize,
)
    requires
        ctx.history_ind is Prompt,
        limit > 0,
        ways.len() > 0,
        seen_with(shots, ways.len(), limit),
    ensures
        ({
            let after = browsed_by(line, ctx, true, ways, shots);
            &&& after.saved_line == shots[0].text@
            &&& after.history_ind == HistoryInd::Line(
                if ways.len() <= limit {
                    (ways.len() - 1) as usize
                } else {
                    (limit - 1) as usize
                },
            )
        }),
    decreases ways.len(),
{
    let (w, s) = (ways.drop_last(), shots.drop_last());
    let before = browsed_by(line, ctx, true, w, s);
    let last = shots[shots.len() - 1];
    assert(last.history_len == limit && !last.menu_active);
    assert(seen_with(s, w.len(), limit)) by {
        assert(forall|i: int| 0 <= i < s.len() ==> #[trigger] s[i] == shots[i]);
    }
    if w.len() > 0 {
        lemma_ups(line, ctx, w, s, limit);
        assert(s[0] == shots[0]);
    }
    up_goes_to_the_older_line(line, before, ways.last(), last);
}

proof fn lemma_downs(
    line: LineView,
    ctx: LineState,
    ways: Seq<Way>,
    shots: Seq<Snapshot>,
    limit: usize,
    top: usize,
)
    requires
        ctx.history_ind == HistoryInd::Line(top),
        seen_with(shots, ways.len(), limit),
    ensures
        ({
            let after = browsed_by(line, ctx, false, ways, shots);
            &&& after.saved_line == ctx.saved_line
            &&& after.history_ind == if ways.len() <= top {
                HistoryInd::Line((top - ways.len()) as usize)
            } else {
                HistoryInd::Prompt
            }
        }),
    decreases ways.len(),
{
    if ways.len() > 0 {
        let (w, s) = (ways.drop_last(), shots.drop_last());
        let last = shots[shots.len() - 1];
        assert(last.history_len == limit && !last.menu_active);
        assert(seen_with(s, w.len(), limit)) by {
            assert(forall|i: int| 0 <= i < s.len() ==> #[trigger] s[i] == shots[i]);
        }
        lemma_downs(line, ctx, w, s, limit, top);
        down_goes_to_the_newer_line(
            line,
            browsed_by(line, ctx, false, w, s),
            ways.last(),
            last,
        );
    }
}

/// From the prompt of a history that is long enough, going up some steps and then down fewer
/// shows the line that many steps up the difference makes; going down as many steps or more
/// shows the line again that was edited when history was entered. That holds of the arrow keys
/// and of the motions of normal mode, in any mixture. Where going up stops at the oldest line,
/// the steps count from there.
pub proof fn down_goes_back_where_up_came_from(
    line: LineView,
    ctx: LineState,
    ups: Seq<Way>,
    up_shots: Seq<Snapshot>,
    downs: Seq<Way>,
    down_shots: Seq<Snapshot>,
    limit: usize,
)
    requires
        ctx.history_ind is Prompt,
        limit > 0,
        ups.len() > 0,
        downs.len() > 0,
        seen_with(up_shots, ups.len(), limit),
        seen_with(down_shots, downs.len(), limit),
    ensures
        ({
            let above = browsed_by(line, ctx, true, ups, up_shots);
            let before = browsed_by(
                line,
                above,
                false,
                downs.drop_last(),
                down_shots.drop_last(),
            );
            let shown = browsed(line, before, false, downs.last(), down_shots.last());
            let went_up = if ups.len() <= limit {
                ups.len()
            } else {
                limit as nat
            };
            if downs.len() < went_up {
                let i = (went_up - 1 - downs.len()) as usize;
                &&& shown.ctx.history_ind == HistoryInd::Line(i)
                &&& shown.step.effects == seq![
                    EffectView::ClearBuffer,
                    EffectView::InsertHistory(i),
                ]
            } else {
                &&& shown.ctx.history_ind == HistoryInd::Prompt
                &&& shown.step.effects == seq![
                    EffectView::ClearBuffer,
                    EffectView::Insert(up_shots[0].text@),
                ]
            }
        }),
{
    let above = browsed_by(line, ctx, true, ups, up_shots);
    lemma_ups(line, ctx, ups, up_shots, limit);
    let top = above.history_ind->Line_0;
    lemma_downs(line, above, downs, down_shots, limit, top);
    let before = browsed_by(line, above, false, downs.drop_last(), down_shots.drop_last());
    assert(down_shots.last() == down_shots[down_shots.len() - 1]);
    browsing_shows_its_place(line, before, false, downs.last(), down_shots.last());
}

/// Going up from the prompt by some steps shows the line of the history that many steps up, or
/// the oldest one where there are not so many.
pub proof fn up_shows_the_line_above(
    line: LineView,
    ctx: LineState,
    ups: Seq<Way>,
    shots: Seq<Snapshot>,
    limit: usize,
)
    requires
        ctx.history_ind is Prompt,
        limit > 0,
        ups.len() > 0,
        seen_with(shots, ups.len(), limit),
    ensures
        ({
            let before = browsed_by(line, ctx, true, ups.drop_last(), shots.drop_last());
            let shown = browsed(line, before, true, ups.last(), shots.last());
            shown.step.effects == seq![
                EffectView::ClearBuffer,
                EffectView::InsertHistory(
                    if ups.len() <= limit {
                        (ups.len() - 1) as usize
                    } else {
                        (limit - 1) as usize
                    },
                ),
            ]
        }),
{
    lemma_ups(line, ctx, ups, shots, limit);
    let before = browsed_by(line, ctx, true, ups.drop_last(), shots.drop_last());
    assert(shots.last() == shots[shots.len() - 1]);
    browsing_shows_its_place(line, before, true, ups.last(), shots.last());
}

// The menu

/// While the menu is active, Enter asks for its item, escape closes it, Tab and the down key go
/// to its next item, and shift and Tab and the up key to the previous one.
pub proof fn menu_has_its_keys(line: LineView, ctx: LineState, event: Event, shot: Snapshot)
    requires
        ctx.phase == PhaseView::Dispatch(event),
        shot.menu_active,
    ensures
        ({
            let out = session::turn(line, ctx, Input::Ready, shot);
            &&& event == plain(KeyCode::Enter) ==> out == leads_to(
                line,
                ctx,
                PhaseView::Accepting,
                seq![],
                NextView::AcceptItem,
            )
            &&& event == plain(KeyCode::Esc) ==> out == handles(
                line,
                ctx,
                seq![EffectView::Menu(MenuCommand::Disactivate)],
            )
            &&& event == plain(KeyCode::Tab) || event == plain(KeyCode::Down) ==> out == handles(
                line,
                ctx,
                seq![EffectView::Menu(MenuCommand::Next)],
            )
            &&& event == press(KeyCode::Tab, KeyModifiers::Shift) || event == plain(KeyCode::Up)
                ==> out == handles(line, ctx, seq![EffectView::Menu(MenuCommand::Previous)])
        }),
{
}

/// Any other event closes the menu and then does what it does without one.
pub proof fn other_events_close_the_menu(
    line: LineView,
    ctx: LineState,
    event: Event,
    shot: Snapshot,
)
    requires
        ctx.phase == PhaseView::Dispatch(event),
        event != plain(KeyCode::Enter),
        event != plain(KeyCode::Esc),
        event != plain(KeyCode::Tab),
        event != plain(KeyCode::Down),
        event != press(KeyCode::Tab, KeyModifiers::Shift),
        event != plain(KeyCode::Up),
    ensures
        ({
            let open = Snapshot { menu_active: true, ..shot };
            let closed = Snapshot { menu_active: false, ..shot };
            let with_menu = session::turn(line, ctx, Input::Ready, open);
            let without = session::turn(line, ctx, Input::Ready, closed);
            with_menu == Outcome {
                line: without.line,
                ctx: without.ctx,
                step: StepView {
                    effects: seq![EffectView::Menu(MenuCommand::Disactivate)]
                        + without.step.effects,
                    next: without.step.next,
                },
            }
        }),
{
    let open = Snapshot { menu_active: true, ..shot };
    let closed = Snapshot { menu_active: false, ..shot };
    assert(open.text@.take(open.cursor as int) == closed.text@.take(closed.cursor as int));
}

/// What a key does in the menu and what it does in a mode does not depend on whether the menu is
/// active: that only decides which of them has it.
pub proof fn keys_do_not_look_at_the_menu(
    line: LineView,
    ctx: LineState,
    event: Event,
    shot: Snapshot,
)
    ensures
        ({
            let open = Snapshot { menu_active: true, ..shot };
            let closed = Snapshot { menu_active: false, ..shot };
            &&& keys::menu_keys(line, ctx, event, open) == keys::menu_keys(
                line,
                ctx,
                event,
                closed,
            )
            &&& keys::mode_keys(line, ctx, event, open) == keys::mode_keys(
                line,
                ctx,
                event,
                closed,
            )
        }),
{
}

// Completion

/// The menu is to offer each completion under the text that it shows, in the order in which they
/// come, and is opened.
pub proof fn completions_are_offered(
    line: LineView,
    ctx: LineState,
    completions: Vec<Completion>,
    shot: Snapshot,
)
    requires
        ctx.phase is Completing,
    ensures
        ({
            let out = session::turn(line, ctx, Input::Completions(completions), shot);
            &&& out.step.effects.len() == 2
            &&& out.step.effects[0] matches EffectView::SetItems(items)
            &&& items.len() == completions@.len()
            &&& forall|i: int|
                0 <= i < items.len() ==> #[trigger] items[i] == (
                    completions@[i].display@,
                    CompletionView {
                        display: completions@[i].display@,
                        accepted: completions@[i].accepted@,
                        replace_method: completions@[i].replace_method,
                    },
                )
            &&& out.step.effects[1] == EffectView::Menu(MenuCommand::Activate)
            &&& out == leads_to(
                line,
                ctx,
                PhaseView::Listing,
                out.step.effects,
                NextView::ListItems,
            )
        }),
{
}

/// The step that starts to put a completion in the text, and then closes the menu or not: an
/// appended one goes in at the cursor, and for one that replaces the current word the word goes
/// first, by its number of characters.
pub open spec fn puts_in(
    line: LineView,
    ctx: LineState,
    completion: Completion,
    closes: bool,
) -> Outcome {
    let count = ctx.current_word.len() as usize;
    match completion.replace_method {
        ReplaceMethod::Append => handles(
            line,
            ctx,
            if closes {
                seq![
                    EffectView::Insert(completion.accepted@),
                    EffectView::Menu(MenuCommand::Disactivate),
                ]
            } else {
                seq![EffectView::Insert(completion.accepted@)]
            },
        ),
        ReplaceMethod::Replace => leads_to(
            line,
            ctx,
            PhaseView::Replacing { accepted: completion.accepted@, closes },
            seq![
                EffectView::MoveCursor(Location::Behind(count)),
                EffectView::Delete(Location::Cursor, Location::Ahead(count)),
            ],
            NextView::Perform,
        ),
    }
}

/// The item that the menu gives is put in the text, and the menu stays as it is. Where the menu
/// gives none, nothing happens.
pub proof fn given_item_is_put_in(
    line: LineView,
    ctx: LineState,
    item: Option<Completion>,
    shot: Snapshot,
)
    requires
        ctx.phase is Accepting,
    ensures
        session::turn(line, ctx, Input::Accepted(item), shot) == match item {
            Some(completion) => puts_in(line, ctx, completion, false),
            None => handles(line, ctx, seq![]),
        },
{
}

/// A menu with nothing to offer is closed, a single item is put in the text before the menu is
/// closed, and a choice is left to the user.
pub proof fn offer_decides(line: LineView, ctx: LineState, items: Vec<Completion>, shot: Snapshot)
    requires
        ctx.phase is Listing,
    ensures
        session::turn(line, ctx, Input::Items(items), shot) == if items@.len() == 0 {
            handles(line, ctx, seq![EffectView::Menu(MenuCommand::Disactivate)])
        } else if items@.len() == 1 {
            puts_in(line, ctx, items@[0], true)
        } else {
            handles(line, ctx, seq![EffectView::Menu(MenuCommand::Activate)])
        },
{
}

/// Once the current word is out of the text, the accepted text goes in at its place, the menu is
/// closed where it is to be, and there is no current word any more.
pub proof fn replacing_text_goes_in(
    line: LineView,
    ctx: LineState,
    accepted: Seq<char>,
    closes: bool,
    shot: Snapshot,
)
    requires
        ctx.phase == (PhaseView::Replacing { accepted, closes }),
    ensures
        session::turn(line, ctx, Input::Ready, shot) == handles(
            line,
            LineState { current_word: seq![], ..ctx },
            if closes {
                seq![
                    EffectView::Insert(accepted),
                    EffectView::Menu(MenuCommand::Disactivate),
                ]
            } else {
                seq![EffectView::Insert(accepted)]
            },
        ),
{
}

// What is shown

/// Behind every event that was handled the command so far is shown without the bytes of the
/// stored lines. A command of normal mode drops the pressed keys then.
pub proof fn command_is_shown(line: LineView, ctx: LineState, shot: Snapshot)
    requires
        ctx.phase is Settled || ctx.phase is Repeated,
    ensures
        session::turn(line, ctx, Input::Ready, shot) == leads_to(
            if ctx.phase is Settled {
                line
            } else {
                LineView { painter: line.painter, normal_keys: seq![] }
            },
            ctx,
            PhaseView::Rendering,
            seq![],
            NextView::Render {
                command: ctx.lines + shot.text@,
                skip: encode_utf8(ctx.lines).len(),
            },
        ),
{
}

/// What is shown behind the edited text of a menu's selection. The selection is made of a start
/// that takes as many bytes as the current word, and the rest.
pub open spec fn selected(rest: Seq<char>, shot: Snapshot) -> Seq<OverlayView> {
    if shot.menu_active {
        seq![OverlayView { text: rest, color: Color::Red }]
    } else {
        seq![]
    }
}

/// The selection of the menu is shown in red behind the edited text while the menu is active,
/// without a start that takes as many bytes as the current word. Without a suggestion nothing
/// else is.
pub proof fn selection_is_shown(
    line: LineView,
    ctx: LineState,
    selection: Option<String>,
    start: Seq<char>,
    rest: Seq<char>,
    shot: Snapshot,
)
    requires
        ctx.phase is Rendering,
        encode_utf8(start).len() == encode_utf8(ctx.current_word).len(),
        selection matches Some(whole) ==> shot.menu_active ==> whole@ == start + rest,
    ensures
        session::turn(line, ctx, Input::Preview { selection, suggestion: None }, shot) == leads_to(
            line,
            ctx,
            PhaseView::Idle,
            seq![],
            NextView::Paint(
                if selection is Some {
                    selected(rest, shot)
                } else {
                    seq![]
                },
            ),
        ),
{
    text::skip_bytes_drops_prefix(start, rest);
}

/// A suggestion is taken up whether the menu is active or not: it is asked how its end goes on
/// behind the edited text, which is the suggestion without a start that takes as many bytes as
/// the current word. The answer, or else the whole suggestion, is shown in dark grey behind the
/// selection.
pub proof fn suggestion_is_shown(
    line: LineView,
    ctx: LineState,
    selection: Option<String>,
    selection_start: Seq<char>,
    selection_rest: Seq<char>,
    suggestion: String,
    start: Seq<char>,
    rest: Seq<char>,
    shot: Snapshot,
    extension: Option<String>,
    later: Snapshot,
)
    requires
        ctx.phase is Rendering,
        encode_utf8(selection_start).len() == encode_utf8(ctx.current_word).len(),
        selection matches Some(whole) ==> shot.menu_active ==> whole@ == selection_start
            + selection_rest,
        encode_utf8(start).len() == encode_utf8(ctx.current_word).len(),
        suggestion@ == start + rest,
    ensures
        ({
            let preview = Input::Preview { selection, suggestion: Some(suggestion) };
            let asked = session::turn(line, ctx, preview, shot);
            let shown = session::turn(asked.line, asked.ctx, Input::Extension(extension), later);
            let behind = if selection is Some {
                selected(selection_rest, shot)
            } else {
                seq![]
            };
            let end = match extension {
                Some(end) => end@,
                None => suggestion@,
            };
            &&& asked == leads_to(
                line,
                ctx,
                PhaseView::Extending { overlays: behind, suggestion: suggestion@ },
                seq![],
                NextView::Extend { input: shot.text@, suffix: rest },
            )
            &&& shown == leads_to(
                line,
                ctx,
                PhaseView::Idle,
                seq![],
                NextView::Paint(
                    behind.push(OverlayView { text: end, color: Color::DarkGrey }),
                ),
            )
        }),
{
    text::skip_bytes_drops_prefix(selection_start, selection_rest);
    text::skip_bytes_drops_prefix(start, rest);
}

/// Whatever can be cut behind the bytes of the current word is made of a start that takes as
/// many bytes and a rest.
pub proof fn cut_text_has_a_start(ctx: LineState, whole: String)
    requires
        may_be_cut(ctx, Some(whole)),
    ensures
        exists|start: Seq<char>, rest: Seq<char>|
            whole@ == #[trigger] (start + rest) && encode_utf8(start).len() == encode_utf8(
                ctx.current_word,
            ).len(),
{
    let bytes = encode_utf8(whole@);
    let n = encode_utf8(ctx.current_word).len() as int;
    encode_utf8_valid_utf8(whole@);
    encode_utf8_decode_utf8(whole@);
    lemma_boundary_is_inside(bytes, n);
    valid_utf8_split(bytes, n);
    decode_utf8_split(bytes, n);
    let start = decode_utf8(bytes.subrange(0, n));
    let rest = decode_utf8(bytes.subrange(n, bytes.len() as int));
    decode_utf8_encode_utf8(bytes.subrange(0, n));
    assert(whole@ == start + rest);
}

proof fn lemma_boundary_is_inside(bytes: Seq<u8>, n: int)
    requires
        valid_utf8(bytes),
        is_char_boundary(bytes, n),
    ensures
        0 <= n <= bytes.len(),
{
    reveal_with_fuel(is_char_boundary, 2);
}

// What stays

/// The reading keeps the suggestion that is shown, and the painter keeps its place.
#[verifier::rlimit(50)]
pub proof fn suggestion_and_place_stay(
    line: LineView,
    ctx: LineState,
    input: Input,
    shot: Snapshot,
)
    requires
        session::moves_on(ctx, input, shot),
    ensures
        ({
            let out = session::turn(line, ctx, input, shot);
            &&& out.ctx.suggestion == ctx.suggestion
            &&& out.line.painter.prompt_line == line.painter.prompt_line
            &&& out.line.painter.num_newlines == line.painter.num_newlines
        }),
{
}

/// Nothing changes a reading that is over.
pub proof fn nothing_follows_the_end(
    line: LineView,
    ctx: LineState,
    input: Input,
    shot: Snapshot,
)
    requires
        ctx.phase is Ended,
    ensures
        ({
            let out = session::turn(line, ctx, input, shot);
            &&& out.line == line
            &&& out.ctx == ctx
            &&& out.step.effects == Seq::<EffectView>::empty()
        }),
{
}

} // verus!
