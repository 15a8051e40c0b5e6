//! What holds of every reading.

use crate::ctx::{Input, LineState, NextView, PhaseView, Snapshot};
use crate::effect::{Command, Completion, EffectView, LineMode};
use crate::event::{Event, KeyCode, KeyModifiers};
use crate::event;
use crate::history::HistoryInd;
use crate::history;
use crate::keys::Outcome;
use crate::keys;
use crate::line::LineView;
use crate::session;
use crate::text;
use vstd::prelude::*;

verus! {

// The protocol

/// Whether a question is answered by what a phase waits for.
pub open spec fn question_fits(next: NextView, phase: PhaseView) -> bool {
    match next {
        NextView::Perform => phase is Dispatch || phase is Switched || phase is Repeated
            || phase is Replacing || phase is Settled,
        NextView::CheckLine(_) => phase is Checking,
        NextView::AcceptItem => phase is Accepting,
        NextView::Complete(_) => phase is Completing,
        NextView::ListItems => phase is Listing,
        NextView::Parse(_) => phase is Parsing,
        NextView::Execute(action) => phase matches PhaseView::Running { action: a, .. } && a
            == action,
        NextView::Render { .. } => phase is Rendering,
        NextView::Extend { .. } => phase is Extending,
        NextView::Paint(_) => phase is Idle,
        NextView::Finish(_) => phase is Ended,
        NextView::Exit => phase is Ended,
    }
}

/// Every step asks for what the reading then waits for.
pub proof fn questions_fit(line: LineView, ctx: LineState, input: Input, shot: Snapshot)
    requires
        session::moves_on(ctx, input, shot),
    ensures
        ({
            let out = session::turn(line, ctx, input, shot);
            question_fits(out.step.next, out.ctx.phase)
        }),
{
}

/// How far a phase is from the next event.
pub open spec fn stage(phase: PhaseView) -> nat {
    match phase {
        PhaseView::Idle => 0,
        PhaseView::Ended => 0,
        PhaseView::Extending { .. } => 1,
        PhaseView::Rendering => 2,
        PhaseView::Settled => 3,
        PhaseView::Repeated => 3,
        PhaseView::Replacing { .. } => 4,
        PhaseView::Running { .. } => 4,
        PhaseView::Switched { .. } => 4,
        PhaseView::Listing => 5,
        PhaseView::Accepting => 6,
        PhaseView::Completing => 6,
        PhaseView::Parsing => 6,
        PhaseView::Dispatch(_) => 7,
        PhaseView::Checking(_) => 8,
    }
}

/// The steps that are left of a command that is carried out.
pub open spec fn steps_left(phase: PhaseView) -> nat {
    match phase {
        PhaseView::Running { remaining, .. } => 2 * remaining as nat + 1,
        PhaseView::Switched { remaining, .. } => 2 * remaining as nat,
        _ => 0,
    }
}

/// Every event is dealt with in finitely many steps: each answer but an event brings the
/// reading nearer to the next event or to its end.
pub proof fn events_are_dealt_with(line: LineView, ctx: LineState, input: Input, shot: Snapshot)
    requires
        session::moves_on(ctx, input, shot),
        !(ctx.phase is Idle),
    ensures
        ({
            let after = session::turn(line, ctx, input, shot).ctx.phase;
            ||| stage(after) < stage(ctx.phase)
            ||| stage(after) == stage(ctx.phase) && steps_left(after) < steps_left(ctx.phase)
        }),
{
}

// The command

/// The command that is read is made of the stored lines and the edited text, and it goes into
/// the history if and only if it is not empty. Nothing else is carried out then.
#[verifier::rlimit(50)]
pub proof fn finish_gives_full_command(
    line: LineView,
    ctx: LineState,
    input: Input,
    shot: Snapshot,
    command: Seq<char>,
)
    requires
        session::moves_on(ctx, input, shot),
        session::turn(line, ctx, input, shot).step.next == NextView::Finish(command),
    ensures
        command == ctx.lines + shot.text@,
        ({
            let effects = session::turn(line, ctx, input, shot).step.effects;
            effects == if command.len() > 0 {
                seq![EffectView::AddHistory(command)]
            } else {
                seq![]
            }
        }),
{
}

/// Nothing goes into the history but the command that is read.
#[verifier::rlimit(50)]
pub proof fn only_the_command_enters_history(
    line: LineView,
    ctx: LineState,
    input: Input,
    shot: Snapshot,
    added: Seq<char>,
)
    requires
        session::moves_on(ctx, input, shot),
        session::turn(line, ctx, input, shot).step.effects.contains(
            EffectView::AddHistory(added),
        ),
    ensures
        session::turn(line, ctx, input, shot).step.next == NextView::Finish(added),
        added.len() > 0,
{
    let out = session::turn(line, ctx, input, shot);
    let effects = out.step.effects;
    let i = choose|i: int|
        0 <= i < effects.len() && effects[i] == EffectView::AddHistory(added);
    assert(effects[i] == EffectView::AddHistory(added));
}

/// The reading after its edited text was stored as a line, once for each snapshot.
pub open spec fn continued_by(ctx: LineState, shots: Seq<Snapshot>) -> LineState
    decreases shots.len(),
{
    if shots.len() == 0 {
        ctx
    } else {
        keys::continued(continued_by(ctx, shots.drop_last()), shots.last())
    }
}

/// The edited texts of some snapshots.
pub open spec fn edited_texts(shots: Seq<Snapshot>) -> Seq<Seq<char>> {
    shots.map_values(|shot: Snapshot| shot.text@)
}

/// A command of several lines is its lines joined by line breaks.
pub proof fn command_joins_lines(shots: Seq<Snapshot>, line: Seq<char>)
    ensures
        continued_by(LineState::fresh(), shots).full_command(line) == text::joined(
            edited_texts(shots).push(line),
            '\n',
        ),
    decreases shots.len(),
{
    let parts = edited_texts(shots).push(line);
    if shots.len() == 0 {
        assert(parts =~= seq![line]);
        assert(LineState::fresh().full_command(line) =~= line);
    } else {
        let last = shots.last().text@;
        command_joins_lines(shots.drop_last(), last);
        assert(parts.drop_last() =~= edited_texts(shots.drop_last()).push(last));
        assert(continued_by(LineState::fresh(), shots).full_command(line) =~= text::joined(
            parts.drop_last(),
            '\n',
        ).push('\n') + line);
    }
}

/// A line is stored only where a command turned out to need another one.
pub proof fn only_continuations_store_lines(
    line: LineView,
    ctx: LineState,
    input: Input,
    shot: Snapshot,
)
    requires
        session::moves_on(ctx, input, shot),
        session::turn(line, ctx, input, shot).ctx.lines != ctx.lines,
    ensures
        ctx.phase is Checking,
        input == Input::LineCheck(true),
        session::turn(line, ctx, input, shot).ctx.lines == ctx.lines + shot.text@ + seq!['\n'],
{
}

/// While the menu is active, Enter submits nothing: it asks for the menu's item.
pub proof fn enter_accepts_while_menu_is_active(
    line: LineView,
    ctx: LineState,
    shot: Snapshot,
    later: Snapshot,
)
    requires
        ctx.phase is Idle,
        shot.menu_active,
        later.menu_active,
    ensures
        ({
            let enter = Event::Key(
                event::KeyEvent { code: KeyCode::Enter, modifiers: KeyModifiers::Plain },
            );
            let pressed = Input::Event { event: enter, bound: false };
            let first = session::turn(line, ctx, pressed, shot);
            let second = session::turn(first.line, first.ctx, Input::Ready, later);
            &&& first.step.effects == Seq::<EffectView>::empty()
            &&& first.ctx == session::at(ctx, PhaseView::Dispatch(enter))
            &&& second.step.effects == Seq::<EffectView>::empty()
            &&& second.step.next is AcceptItem
            &&& second.ctx == session::at(ctx, PhaseView::Accepting)
        }),
{
}

/// Control and `d` on a text does what Enter does, whether the menu is active or not.
pub proof fn control_d_is_enter(line: LineView, ctx: LineState, shot: Snapshot)
    requires
        ctx.phase is Idle,
        shot.text@.len() > 0,
    ensures
        ({
            let enter = Event::Key(
                event::KeyEvent { code: KeyCode::Enter, modifiers: KeyModifiers::Plain },
            );
            let end = Event::Key(
                event::KeyEvent { code: KeyCode::Char('d'), modifiers: KeyModifiers::Control },
            );
            session::turn(line, ctx, Input::Event { event: end, bound: false }, shot)
                == session::turn(line, ctx, Input::Event { event: enter, bound: false }, shot)
        }),
{
}

/// The shell exits only on control and `d` with no text, and with nothing carried out.
pub proof fn only_empty_text_exits(line: LineView, ctx: LineState, input: Input, shot: Snapshot)
    requires
        session::moves_on(ctx, input, shot),
        session::turn(line, ctx, input, shot).step.next is Exit,
    ensures
        shot.text@.len() == 0,
        input matches Input::Event { event, .. } && event::is_key(
            event,
            KeyCode::Char('d'),
            KeyModifiers::Control,
        ),
        session::turn(line, ctx, input, shot).step.effects == Seq::<EffectView>::empty(),
{
}

// Modes

/// The mode changes only together with the cursor's shape and the hooks for the new mode, and
/// hooks are run for no other mode than the one that the reading is then in.
#[verifier::rlimit(50)]
pub proof fn mode_switches_run_hooks(
    line: LineView,
    ctx: LineState,
    input: Input,
    shot: Snapshot,
)
    requires
        session::moves_on(ctx, input, shot),
    ensures
        ({
            let out = session::turn(line, ctx, input, shot);
            let hooks = EffectView::ModeHooks(out.ctx.mode);
            let shape = EffectView::CursorStyle(keys::mode_shape(out.ctx.mode));
            &&& out.ctx.mode != ctx.mode ==> out.step.effects.contains(hooks)
                && out.step.effects.contains(shape)
            &&& forall|mode: LineMode|
                #[trigger] out.step.effects.contains(EffectView::ModeHooks(mode)) ==> mode
                    == out.ctx.mode
        }),
{
    let out = session::turn(line, ctx, input, shot);
    let effects = out.step.effects;
    let hooks = EffectView::ModeHooks(out.ctx.mode);
    let shape = EffectView::CursorStyle(keys::mode_shape(out.ctx.mode));
    if out.ctx.mode != ctx.mode {
        if ctx.phase is Dispatch && shot.menu_active {
            assert(effects[1] == shape);
            assert(effects[2] == hooks);
        } else {
            assert(effects[0] == shape);
            assert(effects[1] == hooks);
        }
    }
    assert forall|mode: LineMode| #[trigger]
        effects.contains(EffectView::ModeHooks(mode)) implies mode == out.ctx.mode by {
        let i = choose|i: int|
            0 <= i < effects.len() && effects[i] == EffectView::ModeHooks(mode);
        assert(effects[i] == EffectView::ModeHooks(mode));
    }
}

// History

/// The reading after going up in history, once for each snapshot.
pub open spec fn up_by(ctx: LineState, shots: Seq<Snapshot>) -> LineState
    decreases shots.len(),
{
    if shots.len() == 0 {
        ctx
    } else {
        keys::one_up(up_by(ctx, shots.drop_last()), shots.last())
    }
}

/// The reading after going down in history `n` times.
pub open spec fn down_by(ctx: LineState, n: nat) -> LineState
    decreases n,
{
    if n == 0 {
        ctx
    } else {
        keys::one_down(down_by(ctx, (n - 1) as nat))
    }
}

proof fn lemma_up_by(ctx: LineState, shots: Seq<Snapshot>)
    requires
        ctx.history_ind is Prompt,
        shots.len() > 0,
        forall|i: int| 0 <= i < shots.len() ==> (#[trigger] shots[i]).history_len > 0,
    ensures
        up_by(ctx, shots) == (LineState {
            saved_line: shots[0].text@,
            history_ind: up_by(ctx, shots).history_ind,
            ..ctx
        }),
        up_by(ctx, shots).history_ind is Line,
    decreases shots.len(),
{
    let before = shots.drop_last();
    if shots.len() > 1 {
        assert forall|i: int| 0 <= i < before.len() implies (#[trigger] before[i]).history_len
            > 0 by {
            assert(before[i] == shots[i]);
        }
        lemma_up_by(ctx, before);
        assert(before[0] == shots[0]);
    } else {
        assert(before.len() == 0);
        assert(up_by(ctx, before) == ctx);
    }
    assert(shots[shots.len() - 1].history_len > 0);
}

proof fn lemma_down_by(ctx: LineState, n: nat)
    ensures
        down_by(ctx, n) == (LineState {
            history_ind: history::newer_by(ctx.history_ind, n),
            ..ctx
        }),
    decreases n,
{
    if n > 0 {
        lemma_down_by(ctx, (n - 1) as nat);
    }
}

/// The line that was edited when history was entered comes back at the prompt, however far up
/// the browsing went: going down often enough shows it again.
pub proof fn browsing_restores_line(ctx: LineState, shots: Seq<Snapshot>, n: nat)
    requires
        ctx.history_ind is Prompt,
        shots.len() > 0,
        forall|i: int| 0 <= i < shots.len() ==> (#[trigger] shots[i]).history_len > 0,
    ensures
        up_by(ctx, shots).history_ind is Line,
        n > up_by(ctx, shots).history_ind->Line_0 ==> {
            let back = down_by(up_by(ctx, shots), n);
            &&& back == LineState { saved_line: shots[0].text@, ..ctx }
            &&& keys::history_effects(back) == seq![
                EffectView::ClearBuffer,
                EffectView::Insert(shots[0].text@),
            ]
        },
{
    lemma_up_by(ctx, shots);
    lemma_down_by(up_by(ctx, shots), n);
    history::down_reaches_prompt(up_by(ctx, shots).history_ind->Line_0, n);
}

/// In a history that keeps its length, going up `n` times from the prompt shows line `n - 1`,
/// or the oldest line where there are not so many.
pub proof fn up_shows_older_lines(ctx: LineState, shots: Seq<Snapshot>, limit: usize)
    requires
        ctx.history_ind is Prompt,
        shots.len() > 0,
        limit > 0,
        forall|i: int| 0 <= i < shots.len() ==> (#[trigger] shots[i]).history_len == limit,
    ensures
        keys::history_effects(up_by(ctx, shots)) == seq![
            EffectView::ClearBuffer,
            EffectView::InsertHistory(
                if shots.len() <= limit {
                    (shots.len() - 1) as usize
                } else {
                    (limit - 1) as usize
                },
            ),
        ],
{
    lemma_up_by_limit(ctx, shots, limit);
    history::up_from_prompt(limit, shots.len());
}

proof fn lemma_up_by_limit(ctx: LineState, shots: Seq<Snapshot>, limit: usize)
    requires
        ctx.history_ind is Prompt,
        forall|i: int| 0 <= i < shots.len() ==> (#[trigger] shots[i]).history_len == limit,
    ensures
        up_by(ctx, shots).history_ind == history::older_by(HistoryInd::Prompt, limit, shots.len()),
    decreases shots.len(),
{
    if shots.len() > 0 {
        let before = shots.drop_last();
        assert forall|i: int| 0 <= i < before.len() implies (#[trigger] before[i]).history_len
            == limit by {
            assert(before[i] == shots[i]);
        }
        lemma_up_by_limit(ctx, before, limit);
        assert(shots[shots.len() - 1].history_len == limit);
    }
}

/// In an empty history, going up and then down any number of times stays at the prompt and puts
/// the edited text back as it is.
pub proof fn empty_history_keeps_text(ctx: LineState, shots: Seq<Snapshot>, n: nat)
    requires
        ctx.history_ind is Prompt,
        shots.len() > 0,
        forall|i: int| 0 <= i < shots.len() ==> (#[trigger] shots[i]).history_len == 0,
    ensures
        ({
            let back = down_by(up_by(ctx, shots), n);
            &&& back == LineState { saved_line: shots.last().text@, ..ctx }
            &&& keys::history_effects(back) == seq![
                EffectView::ClearBuffer,
                EffectView::Insert(shots.last().text@),
            ]
        }),
{
    lemma_up_by_empty(ctx, shots);
    lemma_down_by(up_by(ctx, shots), n);
    lemma_newer_by_prompt(n);
}

proof fn lemma_up_by_empty(ctx: LineState, shots: Seq<Snapshot>)
    requires
        ctx.history_ind is Prompt,
        shots.len() > 0,
        forall|i: int| 0 <= i < shots.len() ==> (#[trigger] shots[i]).history_len == 0,
    ensures
        up_by(ctx, shots) == (LineState { saved_line: shots.last().text@, ..ctx }),
    decreases shots.len(),
{
    let before = shots.drop_last();
    if shots.len() > 1 {
        assert forall|i: int| 0 <= i < before.len() implies (#[trigger] before[i]).history_len
            == 0 by {
            assert(before[i] == shots[i]);
        }
        lemma_up_by_empty(ctx, before);
    } else {
        assert(before.len() == 0);
        assert(up_by(ctx, before) == ctx);
    }
    assert(shots[shots.len() - 1].history_len == 0);
}

proof fn lemma_newer_by_prompt(n: nat)
    ensures
        history::newer_by(HistoryInd::Prompt, n) == HistoryInd::Prompt,
    decreases n,
{
    if n > 0 {
        lemma_newer_by_prompt((n - 1) as nat);
    }
}

/// A step never shows a line that the history does not have, as long as the history keeps the
/// line that is shown.
#[verifier::rlimit(50)]
pub proof fn shown_lines_exist(line: LineView, ctx: LineState, input: Input, shot: Snapshot)
    requires
        session::moves_on(ctx, input, shot),
        ctx.history_ind.is_within(shot.history_len),
    ensures
        ({
            let out = session::turn(line, ctx, input, shot);
            &&& out.ctx.history_ind.is_within(shot.history_len)
            &&& forall|i: usize|
                #[trigger] out.step.effects.contains(EffectView::InsertHistory(i)) ==> i
                    < shot.history_len
        }),
{
    let out = session::turn(line, ctx, input, shot);
    let effects = out.step.effects;
    history::browsing_stays_within(ctx.history_ind, shot.history_len);
    assert forall|i: usize| #[trigger] effects.contains(EffectView::InsertHistory(i)) implies i
        < shot.history_len by {
        let j = choose|j: int|
            0 <= j < effects.len() && effects[j] == EffectView::InsertHistory(i);
        assert(effects[j] == EffectView::InsertHistory(i));
    }
}

// Completion

/// The word that Tab completes is the end of the text before the cursor and holds no space,
/// and the words that are completed make up that text.
pub proof fn tab_completes_last_word(ctx: LineState, shot: Snapshot)
    requires
        shot.wf(),
    ensures
        ({
            let word = keys::on_last_word(ctx, shot).current_word;
            let before = shot.before_cursor();
            &&& !word.contains(' ')
            &&& word.len() <= before.len()
            &&& before.skip(before.len() - word.len()) == word
            &&& text::joined(keys::words(shot), ' ') == before
        }),
{
    let before = shot.before_cursor();
    text::pieces_hold_no_separator(before, ' ');
    text::last_piece_ends_text(before, ' ');
    text::split_rejoins(before, ' ');
    text::split_is_not_empty(before, ' ');
    let parts = text::pieces(before, ' ');
    assert(parts[parts.len() - 1] == parts.last());
}

/// Accepting the menu's item carries out all of the completion, in one step where it is
/// appended and in two where it replaces the current word. The word stays the current one until
/// it is out of the text.
pub proof fn accepted_item_goes_in(
    line: LineView,
    ctx: LineState,
    completion: Completion,
    shot: Snapshot,
    later: Snapshot,
)
    requires
        ctx.phase is Accepting,
    ensures
        ({
            let accepted = Input::Accepted(Some(completion));
            let first = session::turn(line, ctx, accepted, shot);
            let second = session::turn(first.line, first.ctx, Input::Ready, later);
            let whole = keys::completion_in_full(ctx, completion@, false);
            &&& first.ctx.current_word == ctx.current_word
            &&& if completion.replace_method is Append {
                &&& first.ctx.phase is Settled
                &&& first.step.effects == whole
            } else {
                &&& first.ctx.phase is Replacing
                &&& second.ctx.phase is Settled
                &&& second.ctx.current_word == Seq::<char>::empty()
                &&& first.step.effects + second.step.effects == whole
            }
        }),
{
}

/// A single item that the menu offers goes in as an accepted one does, and then the menu
/// closes.
pub proof fn single_item_goes_in(
    line: LineView,
    ctx: LineState,
    completion: Completion,
    items: Vec<Completion>,
    shot: Snapshot,
    later: Snapshot,
)
    requires
        ctx.phase is Listing,
        items@ == seq![completion],
    ensures
        ({
            let first = session::turn(line, ctx, Input::Items(items), shot);
            let second = session::turn(first.line, first.ctx, Input::Ready, later);
            let whole = keys::completion_in_full(ctx, completion@, true);
            &&& first.ctx.current_word == ctx.current_word
            &&& if completion.replace_method is Append {
                &&& first.ctx.phase is Settled
                &&& first.step.effects == whole
            } else {
                &&& first.ctx.phase is Replacing
                &&& second.ctx.phase is Settled
                &&& second.ctx.current_word == Seq::<char>::empty()
                &&& first.step.effects + second.step.effects == whole
            }
        }),
{
}

/// Of a completion that goes on from the current word, the rest is shown.
pub proof fn preview_shows_the_rest(ctx: LineState, rest: Seq<char>)
    ensures
        ctx.can_trim(ctx.current_word + rest),
        ctx.trimmed(ctx.current_word + rest) == rest,
{
    text::skip_bytes_drops_prefix(ctx.current_word, rest);
}

// Commands of normal mode

/// The outcome of `k` repetitions of a command, from the modes that the action asked for and
/// the snapshots taken after each.
pub open spec fn repeated(
    line: LineView,
    ctx: LineState,
    modes: Seq<Option<LineMode>>,
    shots: Seq<Snapshot>,
    k: nat,
) -> Outcome
    decreases k,
{
    if k == 0 {
        keys::ignored(line, ctx)
    } else {
        let before = repeated(line, ctx, modes, shots, (k - 1) as nat);
        let executed = session::turn(
            before.line,
            before.ctx,
            Input::Executed(modes[k - 1]),
            shots[k - 1],
        );
        session::turn(executed.line, executed.ctx, Input::Ready, shots[k - 1])
    }
}

/// A command is carried out exactly as often as it says, and the pressed keys are kept until
/// all that it does is carried out. Then they are dropped.
#[verifier::rlimit(50)]
pub proof fn commands_repeat_exactly(
    line: LineView,
    ctx: LineState,
    command: Command,
    modes: Seq<Option<LineMode>>,
    shots: Seq<Snapshot>,
    k: nat,
    later: Snapshot,
)
    requires
        ctx.phase is Parsing,
        0 < command.repeat,
        k <= command.repeat,
    ensures
        ({
            let start = session::on_parsed(line, ctx, Some(command));
            let out = repeated(start.line, start.ctx, modes, shots, k);
            if k < command.repeat {
                &&& out.ctx.phase == PhaseView::Running {
                    remaining: (command.repeat - k) as usize,
                    action: command.action,
                }
                &&& k > 0 ==> out.step.next == NextView::Execute(command.action)
                &&& out.line == line
            } else {
                &&& out.ctx.phase is Repeated
                &&& out.step.next is Perform
                &&& out.line == line
                &&& session::turn(out.line, out.ctx, Input::Ready, later).line
                    == session::without_keys(line)
            }
        }),
    decreases k,
{
    if k > 0 {
        commands_repeat_exactly(line, ctx, command, modes, shots, (k - 1) as nat, later);
    }
}

/// The pressed keys of normal mode change only by a key: a character adds itself, escape drops
/// them, and so does a command that they make.
#[verifier::rlimit(50)]
pub proof fn pressed_keys_change_by_keys(
    line: LineView,
    ctx: LineState,
    input: Input,
    shot: Snapshot,
)
    requires
        session::moves_on(ctx, input, shot),
    ensures
        ({
            let after = session::turn(line, ctx, input, shot).line.normal_keys;
            ||| after == line.normal_keys
            ||| after.len() == 0 && (ctx.phase is Dispatch || ctx.phase is Parsing
                || ctx.phase is Repeated)
            ||| exists|c: char|
                after == #[trigger] line.normal_keys.push(c) && ctx.mode is Normal
                    && ctx.phase is Dispatch
        }),
{
}

// The window

/// The size of the window changes only when the terminal reports a new one, which is then
/// known.
pub proof fn resizing_is_noted(line: LineView, ctx: LineState, input: Input, shot: Snapshot)
    requires
        session::moves_on(ctx, input, shot),
    ensures
        ({
            let after = session::turn(line, ctx, input, shot).line.painter;
            match input {
                Input::Event { event: Event::Resize(w, h), .. } => after.term_size == (w, h),
                _ => after == line.painter,
            }
        }),
{
}

} // verus!
