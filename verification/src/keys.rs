//! What each key does.

use crate::ctx::{
    LineCtx, LineState, Next, NextView, Phase, PhaseView, Snapshot, Step, StepView,
};
use crate::effect::{
    Action, Completion, CompletionView, CursorShape, Effect, EffectView, LineMode,
    Location, MenuCommand, Motion, ReplaceMethod, SnapshotCommand,
};
use crate::effect;
use crate::event::{Event, KeyCode, KeyEvent, KeyModifiers};
use crate::event;
use crate::history::HistoryInd;
use crate::line::{Line, LineView};
use crate::painter::Painter;
use crate::text;
use vstd::prelude::*;

verus! {

/// What a handler leads to: what the reader and the reading become, and the step to take.
pub struct Outcome {
    pub line: LineView,
    pub ctx: LineState,
    pub step: StepView,
}

/// The outcome of carrying out effects and being done.
pub open spec fn done(line: LineView, ctx: LineState, effects: Seq<EffectView>) -> Outcome {
    Outcome { line, ctx, step: StepView { effects, next: NextView::Perform } }
}

/// The outcome of carrying out nothing and asking a question.
pub open spec fn ask(line: LineView, ctx: LineState, next: NextView) -> Outcome {
    Outcome { line, ctx, step: StepView { effects: seq![], next } }
}

/// The outcome of doing nothing.
pub open spec fn ignored(line: LineView, ctx: LineState) -> Outcome {
    done(line, ctx, seq![])
}

// Modes

/// The shape that the cursor has in a mode.
pub open spec fn mode_shape(mode: LineMode) -> CursorShape {
    match mode {
        LineMode::Insert => CursorShape::BlinkingBar,
        LineMode::Normal => CursorShape::BlinkingBlock,
    }
}

/// What a switch to a mode carries out.
pub open spec fn mode_effects(mode: LineMode) -> Seq<EffectView> {
    seq![EffectView::CursorStyle(mode_shape(mode)), EffectView::ModeHooks(mode)]
}

/// The reading in a mode.
pub open spec fn in_mode(ctx: LineState, mode: LineMode) -> LineState {
    LineState { mode, ..ctx }
}

// History

/// What shows the line that the history index names: the saved line at the prompt, and a line
/// of the history elsewhere.
pub open spec fn history_effects(ctx: LineState) -> Seq<EffectView> {
    match ctx.history_ind {
        HistoryInd::Prompt => seq![EffectView::ClearBuffer, EffectView::Insert(ctx.saved_line)],
        HistoryInd::Line(i) => seq![EffectView::ClearBuffer, EffectView::InsertHistory(i)],
    }
}

/// The reading one line up in history. The edited text is saved on the way in.
pub open spec fn one_up(ctx: LineState, shot: Snapshot) -> LineState {
    LineState {
        saved_line: if ctx.history_ind is Prompt {
            shot.text@
        } else {
            ctx.saved_line
        },
        history_ind: ctx.history_ind.older(shot.history_len),
        ..ctx
    }
}

/// The reading one line down in history.
pub open spec fn one_down(ctx: LineState) -> LineState {
    LineState { history_ind: ctx.history_ind.newer(), ..ctx }
}

// Completion

/// The words before the cursor.
pub open spec fn words(shot: Snapshot) -> Seq<Seq<char>> {
    text::pieces(shot.before_cursor(), ' ')
}

/// The reading with the last word before the cursor as its current word.
pub open spec fn on_last_word(ctx: LineState, shot: Snapshot) -> LineState {
    LineState { current_word: words(shot).last(), ..ctx }
}

/// The menu items for some completions: each under the text that it shows.
pub open spec fn items_for(completions: Seq<CompletionView>) -> Seq<(Seq<char>, CompletionView)> {
    completions.map_values(|c: CompletionView| (c.display, c))
}

/// What takes the word before the cursor out of the text: as many characters as it has go.
pub open spec fn removal(word: Seq<char>) -> Seq<EffectView> {
    seq![
        EffectView::MoveCursor(Location::Behind(word.len() as usize)),
        EffectView::Delete(Location::Cursor, Location::Ahead(word.len() as usize)),
    ]
}

/// What puts an accepted text in at the cursor, and then closes the menu or not.
pub open spec fn insertion(accepted: Seq<char>, closes: bool) -> Seq<EffectView> {
    if closes {
        seq![EffectView::Insert(accepted), EffectView::Menu(MenuCommand::Disactivate)]
    } else {
        seq![EffectView::Insert(accepted)]
    }
}

/// What accepting a completion carries out: it goes in behind the current word, or the word
/// goes first.
pub open spec fn completion_effects(
    ctx: LineState,
    completion: CompletionView,
    closes: bool,
) -> Seq<EffectView> {
    match completion.replace_method {
        ReplaceMethod::Append => insertion(completion.accepted, closes),
        ReplaceMethod::Replace => removal(ctx.current_word),
    }
}

/// All that accepting a completion carries out: a word that it replaces goes, and it goes in.
pub open spec fn completion_in_full(
    ctx: LineState,
    completion: CompletionView,
    closes: bool,
) -> Seq<EffectView> {
    match completion.replace_method {
        ReplaceMethod::Append => insertion(completion.accepted, closes),
        ReplaceMethod::Replace => removal(ctx.current_word) + insertion(
            completion.accepted,
            closes,
        ),
    }
}

/// The reading with a completion accepted: one that replaces the current word has still to go
/// in.
pub open spec fn accepting(ctx: LineState, completion: CompletionView, closes: bool) -> LineState {
    LineState {
        phase: match completion.replace_method {
            ReplaceMethod::Append => PhaseView::Settled,
            ReplaceMethod::Replace => PhaseView::Replacing {
                accepted: completion.accepted,
                closes,
            },
        },
        ..ctx
    }
}

/// The reading once the current word is out of the text: there is no current word any more.
pub open spec fn replaced(ctx: LineState) -> LineState {
    LineState { current_word: seq![], phase: PhaseView::Settled, ..ctx }
}

/// What the menu's offer leads to: an empty offer closes the menu, a single item is accepted
/// at once, and a choice is left to the user.
pub open spec fn offered(line: LineView, ctx: LineState, items: Seq<CompletionView>) -> Outcome {
    let ready = LineState { phase: PhaseView::Settled, ..ctx };
    if items.len() == 0 {
        done(line, ready, seq![EffectView::Menu(MenuCommand::Disactivate)])
    } else if items.len() == 1 {
        done(line, accepting(ctx, items[0], true), completion_effects(ctx, items[0], true))
    } else {
        done(line, ready, seq![EffectView::Menu(MenuCommand::Activate)])
    }
}

// Keys

/// What becomes of the reading after the keys that are universal regardless of mode.
#[derive(Debug, PartialEq, Eq, Clone, Copy, Structural)]
pub enum Verdict {
    /// The event is handed on
    Proceed,
    /// The command is submitted if it needs no other line
    CheckLine,
    /// The shell exits
    Exit,
}

/// What the keys do that are universal regardless of mode. Control and `d` exits where there
/// is no text, and else is treated as Enter. While the menu is active, Enter is the menu's.
pub open spec fn standard_verdict(event: Event, shot: Snapshot) -> Verdict {
    if event::is_submit(event) && !shot.menu_active {
        Verdict::CheckLine
    } else if event::is_end(event) {
        if shot.text@.len() == 0 {
            Verdict::Exit
        } else if shot.menu_active {
            Verdict::Proceed
        } else {
            Verdict::CheckLine
        }
    } else {
        Verdict::Proceed
    }
}

/// The event that is handed on: control and `d` on a text counts as Enter.
pub open spec fn handed_on(event: Event) -> Event {
    if event::is_end(event) {
        Event::Key(KeyEvent { code: KeyCode::Enter, modifiers: KeyModifiers::Plain })
    } else {
        event
    }
}

/// What they carry out: a pasted text is inserted, and a submitted line ends the record of
/// earlier states and the line of the screen.
pub open spec fn standard_effects(event: Event, shot: Snapshot) -> Seq<EffectView> {
    match standard_verdict(event, shot) {
        Verdict::Proceed => match event {
            Event::Paste(pasted) => seq![EffectView::Insert(pasted@)],
            _ => seq![],
        },
        Verdict::Exit => seq![],
        Verdict::CheckLine => seq![
            EffectView::Snapshots(SnapshotCommand::Clear),
            EffectView::Newline,
        ],
    }
}

/// What becomes of the reader: a resized window is noted.
pub open spec fn standard_line(line: LineView, event: Event) -> LineView {
    match event {
        Event::Resize(w, h) => LineView {
            painter: Painter { term_size: (w, h), ..line.painter },
            ..line
        },
        _ => line,
    }
}

/// The reading after a line that needs another one: the line is stored.
pub open spec fn continued(ctx: LineState, shot: Snapshot) -> LineState {
    LineState { lines: ctx.lines + shot.text@ + seq!['\n'], ..ctx }
}

/// What an event does in insert mode.
pub open spec fn insert_keys(
    line: LineView,
    ctx: LineState,
    event: Event,
    shot: Snapshot,
) -> Outcome {
    if event::is_key(event, KeyCode::Tab, KeyModifiers::Plain) {
        ask(line, on_last_word(ctx, shot), NextView::Complete(words(shot)))
    } else if event::is_key(event, KeyCode::Left, KeyModifiers::Plain) {
        if shot.cursor > 0 {
            done(line, ctx, seq![EffectView::MoveCursor(Location::Before)])
        } else {
            ignored(line, ctx)
        }
    } else if event::is_key(event, KeyCode::Right, KeyModifiers::Plain) {
        if shot.cursor < shot.text@.len() {
            done(line, ctx, seq![EffectView::MoveCursor(Location::After)])
        } else {
            ignored(line, ctx)
        }
    } else if event::is_key(event, KeyCode::Down, KeyModifiers::Plain) {
        done(line, one_down(ctx), history_effects(one_down(ctx)))
    } else if event::is_key(event, KeyCode::Up, KeyModifiers::Plain) {
        done(line, one_up(ctx, shot), history_effects(one_up(ctx, shot)))
    } else if event::is_key_code(event, KeyCode::Esc) {
        done(
            line,
            in_mode(ctx, LineMode::Normal),
            mode_effects(LineMode::Normal).push(EffectView::Snapshots(SnapshotCommand::Add)),
        )
    } else if event::is_key(event, KeyCode::Backspace, KeyModifiers::Plain) || event::is_key(
        event,
        KeyCode::Char('h'),
        KeyModifiers::Control,
    ) {
        if shot.cursor > 0 {
            done(line, ctx, seq![EffectView::Delete(Location::Before, Location::Cursor)])
        } else {
            ignored(line, ctx)
        }
    } else if event::is_key(event, KeyCode::Char('w'), KeyModifiers::Control) {
        if shot.cursor > 0 {
            done(line, ctx, seq![EffectView::Delete(Location::BackWord, Location::Cursor)])
        } else {
            ignored(line, ctx)
        }
    } else if event::is_key(event, KeyCode::Char('a'), KeyModifiers::Control) {
        done(line, ctx, seq![EffectView::MoveCursor(Location::Front)])
    } else if event::is_key(event, KeyCode::Char('e'), KeyModifiers::Control) {
        done(line, ctx, seq![EffectView::MoveCursor(Location::Back)])
    } else {
        match event {
            Event::Key(KeyEvent { code: KeyCode::Char(c), .. }) => done(
                line,
                ctx,
                seq![EffectView::Insert(seq![c])],
            ),
            _ => ignored(line, ctx),
        }
    }
}

/// What an event does in normal mode: characters add to the pressed keys, and escape drops
/// them.
pub open spec fn normal_keys(line: LineView, ctx: LineState, event: Event) -> Outcome {
    match event {
        Event::Key(KeyEvent { code: KeyCode::Esc, .. }) => ignored(
            LineView { normal_keys: seq![], ..line },
            ctx,
        ),
        Event::Key(KeyEvent { code: KeyCode::Char(c), .. }) => ask(
            LineView { normal_keys: line.normal_keys.push(c), ..line },
            ctx,
            NextView::Parse(line.normal_keys.push(c)),
        ),
        _ => ignored(line, ctx),
    }
}

/// What an event does in the mode of the reading.
pub open spec fn mode_keys(
    line: LineView,
    ctx: LineState,
    event: Event,
    shot: Snapshot,
) -> Outcome {
    match ctx.mode {
        LineMode::Insert => insert_keys(line, ctx, event, shot),
        LineMode::Normal => normal_keys(line, ctx, event),
    }
}

/// What an event does while the menu is active: it accepts an item, closes the menu or moves
/// in it, and any other event closes the menu and is handed on to the mode.
pub open spec fn menu_keys(
    line: LineView,
    ctx: LineState,
    event: Event,
    shot: Snapshot,
) -> Outcome {
    if event::is_key(event, KeyCode::Enter, KeyModifiers::Plain) {
        ask(line, ctx, NextView::AcceptItem)
    } else if event::is_key(event, KeyCode::Esc, KeyModifiers::Plain) {
        done(line, ctx, seq![EffectView::Menu(MenuCommand::Disactivate)])
    } else if event::is_key(event, KeyCode::Tab, KeyModifiers::Shift) || event::is_key(
        event,
        KeyCode::Up,
        KeyModifiers::Plain,
    ) {
        done(line, ctx, seq![EffectView::Menu(MenuCommand::Previous)])
    } else if event::is_key(event, KeyCode::Tab, KeyModifiers::Plain) || event::is_key(
        event,
        KeyCode::Down,
        KeyModifiers::Plain,
    ) {
        done(line, ctx, seq![EffectView::Menu(MenuCommand::Next)])
    } else {
        let handed_on = mode_keys(line, ctx, event, shot);
        Outcome {
            step: StepView {
                effects: seq![EffectView::Menu(MenuCommand::Disactivate)]
                    + handed_on.step.effects,
                ..handed_on.step
            },
            ..handed_on
        }
    }
}

/// What completes an action that was carried out: undo and redo go through the record of
/// earlier states, motions up and down browse history, and any action that is not a motion is
/// recorded.
pub open spec fn action_effects(ctx: LineState, action: Action, shot: Snapshot) -> Seq<
    EffectView,
> {
    match action {
        Action::Undo => seq![EffectView::Snapshots(SnapshotCommand::Previous)],
        Action::Redo => seq![EffectView::Snapshots(SnapshotCommand::Next)],
        Action::Move(Motion::Up) => history_effects(one_up(ctx, shot)),
        Action::Move(Motion::Down) => history_effects(one_down(ctx)),
        Action::Move(Motion::Other) => seq![],
        Action::Other => seq![EffectView::Snapshots(SnapshotCommand::Add)],
    }
}

/// The reading after an action that was carried out.
pub open spec fn after_action(ctx: LineState, action: Action, shot: Snapshot) -> LineState {
    match action {
        Action::Move(Motion::Up) => one_up(ctx, shot),
        Action::Move(Motion::Down) => one_down(ctx),
        _ => ctx,
    }
}

/// The event that is handed on behind a line that needs another one.
pub(crate) fn hand_on(event: Event) -> (after: Event)
    ensures
        after == handed_on(event),
{
    match event {
        Event::Key(KeyEvent { code: KeyCode::Char('d'), modifiers: KeyModifiers::Control }) => {
            Event::Key(KeyEvent { code: KeyCode::Enter, modifiers: KeyModifiers::Plain })
        },
        other => other,
    }
}

/// Clones a completion.
fn copy_of(completion: &Completion) -> (copy: Completion)
    ensures
        copy@ == completion@,
{
    Completion {
        display: completion.display.clone(),
        accepted: completion.accepted.clone(),
        replace_method: completion.replace_method,
    }
}

/// The menu items for some completions.
pub fn menu_items(completions: &Vec<Completion>) -> (items: Vec<(String, Completion)>)
    ensures
        effect::items_of(items@) == items_for(effect::completions_of(completions@)),
{
    let mut items: Vec<(String, Completion)> = Vec::new();
    let mut i: usize = 0;
    while i < completions.len()
        invariant
            i <= completions@.len(),
            items@.len() == i,
            forall|j: int|
                0 <= j < i ==> (#[trigger] items@[j]).0@ == completions@[j].display@
                    && items@[j].1@ == completions@[j]@,
        decreases completions@.len() - i,
    {
        items.push((completions[i].display.clone(), copy_of(&completions[i])));
        i = i + 1;
    }
    assert(effect::items_of(items@) =~= items_for(effect::completions_of(completions@)));
    items
}

impl<M, C, B, H, P, A> Line<M, C, B, H, P, A> {
    /// Switch to normal mode.
    pub fn to_normal_mode(&self, ctx: &mut LineCtx) -> (effects: Vec<Effect>)
        ensures
            final(ctx)@ == in_mode(old(ctx)@, LineMode::Normal),
            effect::effects_of(effects@) == mode_effects(LineMode::Normal),
    {
        ctx.set_mode(LineMode::Normal);
        effect::two(
            Effect::CursorStyle(CursorShape::BlinkingBlock),
            Effect::ModeHooks(LineMode::Normal),
        )
    }

    /// Switch to insert mode.
    pub fn to_insert_mode(&self, ctx: &mut LineCtx) -> (effects: Vec<Effect>)
        ensures
            final(ctx)@ == in_mode(old(ctx)@, LineMode::Insert),
            effect::effects_of(effects@) == mode_effects(LineMode::Insert),
    {
        ctx.set_mode(LineMode::Insert);
        effect::two(
            Effect::CursorStyle(CursorShape::BlinkingBar),
            Effect::ModeHooks(LineMode::Insert),
        )
    }

    /// Show the line that the history index names.
    pub fn update_history(&self, ctx: &LineCtx) -> (effects: Vec<Effect>)
        ensures
            effect::effects_of(effects@) == history_effects(ctx@),
    {
        match ctx.history_ind() {
            // restore saved line
            HistoryInd::Prompt => effect::two(
                Effect::ClearBuffer,
                Effect::Insert(ctx.saved_line().to_owned()),
            ),
            // fill prompt with history element
            HistoryInd::Line(i) => effect::two(Effect::ClearBuffer, Effect::InsertHistory(i)),
        }
    }

    /// Go one line up in history.
    pub fn history_up(&self, ctx: &mut LineCtx, shot: &Snapshot) -> (effects: Vec<Effect>)
        requires
            old(ctx)@.history_ind.can_go_up(shot.history_len),
        ensures
            final(ctx)@ == one_up(old(ctx)@, *shot),
            effect::effects_of(effects@) == history_effects(one_up(old(ctx)@, *shot)),
    {
        // save current prompt
        if ctx.history_ind() == HistoryInd::Prompt {
            ctx.save_line(shot.text.clone());
        }
        ctx.set_history_ind(ctx.history_ind().up(shot.history_len));
        self.update_history(ctx)
    }

    /// Go one line down in history.
    pub fn history_down(&self, ctx: &mut LineCtx) -> (effects: Vec<Effect>)
        ensures
            final(ctx)@ == one_down(old(ctx)@),
            effect::effects_of(effects@) == history_effects(one_down(old(ctx)@)),
    {
        ctx.set_history_ind(ctx.history_ind().down());
        self.update_history(ctx)
    }

    /// Take the last word before the cursor as the current word, and ask for the completions
    /// of the words before the cursor.
    pub fn populate_completions(&self, ctx: &mut LineCtx, shot: &Snapshot) -> (args: Vec<String>)
        requires
            shot.wf(),
        ensures
            final(ctx)@ == on_last_word(old(ctx)@, *shot),
            text::texts(args@) == words(*shot),
    {
        let before = shot.text.as_str().substring_char(0, shot.cursor);
        ctx.set_current_word(text::last_piece(before, ' '));
        text::split(before, ' ')
    }

    /// Put an accepted text in the edited text, and then close the menu or not.
    fn insert_accepted(&self, accepted: String, closes: bool) -> (effects: Vec<Effect>)
        ensures
            effect::effects_of(effects@) == insertion(accepted@, closes),
    {
        if closes {
            effect::two(Effect::Insert(accepted), Effect::Menu(MenuCommand::Disactivate))
        } else {
            effect::one(Effect::Insert(accepted))
        }
    }

    /// Put an accepted completion in the edited text, and then close the menu or not. Where the
    /// completion replaces the current word, the word goes first.
    pub fn accept_completion(
        &self,
        ctx: &mut LineCtx,
        completion: Completion,
        closes: bool,
    ) -> (effects: Vec<Effect>)
        ensures
            final(ctx)@ == accepting(old(ctx)@, completion@, closes),
            effect::effects_of(effects@) == completion_effects(old(ctx)@, completion@, closes),
    {
        match completion.replace_method {
            ReplaceMethod::Append => {
                ctx.set_phase(Phase::Settled);
                self.insert_accepted(completion.accepted, closes)
            },
            ReplaceMethod::Replace => {
                // first remove current word
                let count: usize = ctx.current_word().unicode_len();
                ctx.set_phase(Phase::Replacing { accepted: completion.accepted, closes });
                effect::two(
                    Effect::MoveCursor(Location::Behind(count)),
                    Effect::Delete(Location::Cursor, Location::Ahead(count)),
                )
            },
        }
    }

    /// Put an accepted completion where the current word was, which is out of the text.
    pub fn replace_word(&self, ctx: &mut LineCtx, accepted: String, closes: bool) -> (effects: Vec<
        Effect,
    >)
        ensures
            final(ctx)@ == replaced(old(ctx)@),
            effect::effects_of(effects@) == insertion(accepted@, closes),
    {
        ctx.set_current_word(String::new());
        ctx.set_phase(Phase::Settled);
        // then replace with the completion word
        self.insert_accepted(accepted, closes)
    }

    /// Put the item that the menu gives in the edited text.
    pub fn accept_item(&self, ctx: &mut LineCtx, item: Option<Completion>) -> (effects: Vec<
        Effect,
    >)
        ensures
            final(ctx)@ == match item {
                Some(completion) => accepting(old(ctx)@, completion@, false),
                None => LineState { phase: PhaseView::Settled, ..old(ctx)@ },
            },
            effect::effects_of(effects@) == match item {
                Some(completion) => completion_effects(old(ctx)@, completion@, false),
                None => seq![],
            },
    {
        match item {
            Some(completion) => self.accept_completion(ctx, completion, false),
            None => {
                ctx.set_phase(Phase::Settled);
                effect::nothing()
            },
        }
    }

    /// Deal with what the menu offers.
    pub fn offer_items(&self, ctx: &mut LineCtx, items: Vec<Completion>) -> (effects: Vec<Effect>)
        ensures
            final(ctx)@ == offered(self@, old(ctx)@, effect::completions_of(items@)).ctx,
            effect::effects_of(effects@) == offered(
                self@,
                old(ctx)@,
                effect::completions_of(items@),
            ).step.effects,
    {
        if items.len() == 0 {
            // no-op if no completions
            ctx.set_phase(Phase::Settled);
            effect::one(Effect::Menu(MenuCommand::Disactivate))
        } else if items.len() == 1 {
            // if completions only has one entry, automatically select it
            self.accept_completion(ctx, copy_of(&items[0]), true)
        } else {
            ctx.set_phase(Phase::Settled);
            effect::one(Effect::Menu(MenuCommand::Activate))
        }
    }

    /// Keys that are universal regardless of mode, such as Enter and control with `d`.
    pub fn handle_standard_keys(&mut self, event: &Event, shot: &Snapshot) -> (r: (
        Vec<Effect>,
        Verdict,
    ))
        ensures
            final(self).same_parts(*old(self)),
            final(self)@ == standard_line(old(self)@, *event),
            effect::effects_of(r.0@) == standard_effects(*event, *shot),
            r.1 == standard_verdict(*event, *shot),
    {
        match event {
            Event::Resize(w, h) => {
                self.painter.set_term_size(*w, *h);
                (effect::nothing(), Verdict::Proceed)
            },
            Event::Paste(pasted) => {
                (effect::one(Effect::Insert(pasted.clone())), Verdict::Proceed)
            },
            Event::Key(KeyEvent { code: KeyCode::Enter, modifiers: KeyModifiers::Plain })
            | Event::Key(KeyEvent {
                code: KeyCode::Char('j'),
                modifiers: KeyModifiers::Control,
            }) => {
                if shot.menu_active {
                    return (effect::nothing(), Verdict::Proceed);
                }
                (
                    effect::two(Effect::Snapshots(SnapshotCommand::Clear), Effect::Newline),
                    Verdict::CheckLine,
                )
            },
            Event::Key(KeyEvent {
                code: KeyCode::Char('d'),
                modifiers: KeyModifiers::Control,
            }) => {
                // if current input is empty exit the shell, otherwise treat it as enter
                if shot.is_empty() {
                    return (effect::nothing(), Verdict::Exit);
                }
                if shot.menu_active {
                    return (effect::nothing(), Verdict::Proceed);
                }
                (
                    effect::two(Effect::Snapshots(SnapshotCommand::Clear), Effect::Newline),
                    Verdict::CheckLine,
                )
            },
            _ => (effect::nothing(), Verdict::Proceed),
        }
    }

    /// Store the edited text as a line of a command that needs another one.
    pub fn store_line(&self, ctx: &mut LineCtx, shot: &Snapshot) -> (effects: Vec<Effect>)
        ensures
            final(ctx)@ == continued(old(ctx)@, *shot),
            effect::effects_of(effects@) == seq![EffectView::ClearBuffer],
    {
        ctx.store_line(shot.text.as_str());
        effect::one(Effect::ClearBuffer)
    }

    /// Keys of insert mode.
    pub fn handle_insert_keys(&self, ctx: &mut LineCtx, event: &Event, shot: &Snapshot) -> (step:
        Step)
        requires
            shot.wf(),
            event::is_key(*event, KeyCode::Up, KeyModifiers::Plain)
                ==> old(ctx)@.history_ind.can_go_up(shot.history_len),
        ensures
            (Outcome { line: self@, ctx: final(ctx)@, step: step@ }) == insert_keys(
                self@,
                old(ctx)@,
                *event,
                *shot,
            ),
    {
        let effects = match event {
            Event::Key(KeyEvent { code: KeyCode::Tab, modifiers: KeyModifiers::Plain }) => {
                let args = self.populate_completions(ctx, shot);
                return Step { effects: effect::nothing(), next: Next::Complete(args) };
            },
            Event::Key(KeyEvent { code: KeyCode::Left, modifiers: KeyModifiers::Plain }) => {
                if shot.cursor > 0 {
                    effect::one(Effect::MoveCursor(Location::Before))
                } else {
                    effect::nothing()
                }
            },
            Event::Key(KeyEvent { code: KeyCode::Right, modifiers: KeyModifiers::Plain }) => {
                if shot.cursor < shot.len() {
                    effect::one(Effect::MoveCursor(Location::After))
                } else {
                    effect::nothing()
                }
            },
            Event::Key(KeyEvent { code: KeyCode::Down, modifiers: KeyModifiers::Plain }) => {
                self.history_down(ctx)
            },
            Event::Key(KeyEvent { code: KeyCode::Up, modifiers: KeyModifiers::Plain }) => {
                self.history_up(ctx, shot)
            },
            Event::Key(KeyEvent { code: KeyCode::Esc, .. }) => {
                let switched = self.to_normal_mode(ctx);
                effect::and_also(switched, Effect::Snapshots(SnapshotCommand::Add))
            },
            Event::Key(KeyEvent { code: KeyCode::Backspace, modifiers: KeyModifiers::Plain })
            | Event::Key(KeyEvent {
                code: KeyCode::Char('h'),
                modifiers: KeyModifiers::Control,
            }) => {
                if !shot.is_empty() && shot.cursor != 0 {
                    effect::one(Effect::Delete(Location::Before, Location::Cursor))
                } else {
                    effect::nothing()
                }
            },
            Event::Key(KeyEvent {
                code: KeyCode::Char('w'),
                modifiers: KeyModifiers::Control,
            }) => {
                if !shot.is_empty() && shot.cursor != 0 {
                    effect::one(Effect::Delete(Location::BackWord, Location::Cursor))
                } else {
                    effect::nothing()
                }
            },
            Event::Key(KeyEvent {
                code: KeyCode::Char('a'),
                modifiers: KeyModifiers::Control,
            }) => effect::one(Effect::MoveCursor(Location::Front)),
            Event::Key(KeyEvent {
                code: KeyCode::Char('e'),
                modifiers: KeyModifiers::Control,
            }) => effect::one(Effect::MoveCursor(Location::Back)),
            Event::Key(KeyEvent { code: KeyCode::Char(c), .. }) => {
                let mut typed = String::new();
                typed.push(*c);
                assert(typed@ =~= seq![*c]);
                effect::one(Effect::Insert(typed))
            },
            _ => effect::nothing(),
        };
        Step { effects, next: Next::Perform }
    }

    /// Keys of normal mode.
    pub fn handle_normal_keys(&mut self, ctx: &LineCtx, event: &Event) -> (step: Step)
        ensures
            final(self).same_parts(*old(self)),
            (Outcome { line: final(self)@, ctx: ctx@, step: step@ }) == normal_keys(
                old(self)@,
                ctx@,
                *event,
            ),
    {
        match event {
            Event::Key(KeyEvent { code: KeyCode::Esc, .. }) => {
                self.normal_keys = String::new();
                Step { effects: effect::nothing(), next: Next::Perform }
            },
            Event::Key(KeyEvent { code: KeyCode::Char(c), .. }) => {
                self.normal_keys.push(*c);
                Step {
                    effects: effect::nothing(),
                    next: Next::Parse(self.normal_keys.clone()),
                }
            },
            _ => Step { effects: effect::nothing(), next: Next::Perform },
        }
    }

    /// Keys of the mode of the reading.
    pub fn handle_mode_keys(&mut self, ctx: &mut LineCtx, event: &Event, shot: &Snapshot) -> (step:
        Step)
        requires
            shot.wf(),
            old(ctx)@.mode is Insert && event::is_key(*event, KeyCode::Up, KeyModifiers::Plain)
                ==> old(ctx)@.history_ind.can_go_up(shot.history_len),
        ensures
            final(self).same_parts(*old(self)),
            (Outcome { line: final(self)@, ctx: final(ctx)@, step: step@ }) == mode_keys(
                old(self)@,
                old(ctx)@,
                *event,
                *shot,
            ),
    {
        match ctx.mode() {
            LineMode::Insert => self.handle_insert_keys(ctx, event, shot),
            LineMode::Normal => self.handle_normal_keys(ctx, event),
        }
    }

    /// Keys while the menu is active.
    pub fn handle_menu_keys(&mut self, ctx: &mut LineCtx, event: &Event, shot: &Snapshot) -> (step:
        Step)
        requires
            shot.wf(),
        ensures
            final(self).same_parts(*old(self)),
            (Outcome { line: final(self)@, ctx: final(ctx)@, step: step@ }) == menu_keys(
                old(self)@,
                old(ctx)@,
                *event,
                *shot,
            ),
    {
        let command = match event {
            Event::Key(KeyEvent { code: KeyCode::Enter, modifiers: KeyModifiers::Plain }) => {
                return Step { effects: effect::nothing(), next: Next::AcceptItem };
            },
            Event::Key(KeyEvent { code: KeyCode::Esc, modifiers: KeyModifiers::Plain }) => {
                MenuCommand::Disactivate
            },
            Event::Key(KeyEvent { code: KeyCode::Tab, modifiers: KeyModifiers::Shift })
            | Event::Key(KeyEvent { code: KeyCode::Up, modifiers: KeyModifiers::Plain }) => {
                MenuCommand::Previous
            },
            Event::Key(KeyEvent { code: KeyCode::Tab, modifiers: KeyModifiers::Plain })
            | Event::Key(KeyEvent { code: KeyCode::Down, modifiers: KeyModifiers::Plain }) => {
                MenuCommand::Next
            },
            _ => {
                let closed = effect::one(Effect::Menu(MenuCommand::Disactivate));
                let handed_on = self.handle_mode_keys(ctx, event, shot);
                return Step {
                    effects: effect::followed_by(closed, handed_on.effects),
                    next: handed_on.next,
                };
            },
        };
        Step { effects: effect::one(Effect::Menu(command)), next: Next::Perform }
    }

    /// Switch to the mode that an action asks for, if it succeeded.
    pub fn switch_mode(&self, ctx: &mut LineCtx, mode: Option<LineMode>) -> (effects: Vec<Effect>)
        ensures
            final(ctx)@ == match mode {
                Some(mode) => in_mode(old(ctx)@, mode),
                None => old(ctx)@,
            },
            effect::effects_of(effects@) == match mode {
                Some(mode) => mode_effects(mode),
                None => seq![],
            },
    {
        match mode {
            Some(LineMode::Insert) => self.to_insert_mode(ctx),
            Some(LineMode::Normal) => self.to_normal_mode(ctx),
            None => effect::nothing(),
        }
    }

    /// Complete an action that was carried out.
    pub fn complete_action(&self, ctx: &mut LineCtx, action: Action, shot: &Snapshot) -> (effects:
        Vec<Effect>)
        requires
            action == Action::Move(Motion::Up) ==> old(ctx)@.history_ind.can_go_up(
                shot.history_len,
            ),
        ensures
            final(ctx)@ == after_action(old(ctx)@, action, *shot),
            effect::effects_of(effects@) == action_effects(old(ctx)@, action, *shot),
    {
        match action {
            Action::Undo => effect::one(Effect::Snapshots(SnapshotCommand::Previous)),
            Action::Redo => effect::one(Effect::Snapshots(SnapshotCommand::Next)),
            Action::Move(Motion::Up) => self.history_up(ctx, shot),
            Action::Move(Motion::Down) => self.history_down(ctx),
            Action::Move(Motion::Other) => effect::nothing(),
            Action::Other => effect::one(Effect::Snapshots(SnapshotCommand::Add)),
        }
    }
}

} // verus!
