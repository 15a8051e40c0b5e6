//! One reading from the first event to the command: which question follows on which answer.

use crate::ctx::{
    Input, LineCtx, LineState, Next, NextView, Phase, PhaseView, Snapshot, Step, StepView,
};
use crate::effect::{
    Action, Color, Command, Completion, Effect, EffectView, LineMode, MenuCommand, Motion,
    Overlay, OverlayView,
};
use crate::effect;
use crate::event::{Event, KeyCode, KeyModifiers};
use crate::event;
use crate::keys::{Outcome, Verdict};
use crate::keys;
use crate::line::{Line, LineView};
use crate::text;
use vstd::prelude::*;

verus! {

/// The reading in a phase.
pub open spec fn at(ctx: LineState, phase: PhaseView) -> LineState {
    LineState { phase, ..ctx }
}

/// An outcome that leaves the reading in a phase.
pub open spec fn leading_to(
    line: LineView,
    ctx: LineState,
    phase: PhaseView,
    effects: Seq<EffectView>,
    next: NextView,
) -> Outcome {
    Outcome { line, ctx: at(ctx, phase), step: StepView { effects, next } }
}

/// An outcome that leaves the event handled.
pub open spec fn settled(line: LineView, ctx: LineState, effects: Seq<EffectView>) -> Outcome {
    leading_to(line, ctx, PhaseView::Settled, effects, NextView::Perform)
}

/// What ends a reading: a command that is not empty goes into the history.
pub open spec fn closing_effects(command: Seq<char>) -> Seq<EffectView> {
    if command.len() == 0 {
        seq![]
    } else {
        seq![EffectView::AddHistory(command)]
    }
}

/// The end of a reading.
pub open spec fn finished(line: LineView, ctx: LineState, shot: Snapshot) -> Outcome {
    let command = ctx.full_command(shot.text@);
    leading_to(
        line,
        ctx,
        PhaseView::Ended,
        closing_effects(command),
        NextView::Finish(command),
    )
}

/// What an event leads to: a bound key ends the reading, the universal keys come next, and
/// then the event is handed on.
pub open spec fn on_event(
    line: LineView,
    ctx: LineState,
    event: Event,
    bound: bool,
    shot: Snapshot,
) -> Outcome {
    if event is Key && bound {
        finished(line, ctx, shot)
    } else {
        let noted = keys::standard_line(line, event);
        let effects = keys::standard_effects(event, shot);
        match keys::standard_verdict(event, shot) {
            Verdict::Proceed => leading_to(
                noted,
                ctx,
                PhaseView::Dispatch(keys::handed_on(event)),
                effects,
                NextView::Perform,
            ),
            Verdict::CheckLine => leading_to(
                noted,
                ctx,
                PhaseView::Checking(keys::handed_on(event)),
                effects,
                NextView::CheckLine(ctx.full_command(shot.text@)),
            ),
            Verdict::Exit => leading_to(noted, ctx, PhaseView::Ended, effects, NextView::Exit),
        }
    }
}

/// What it leads to that the command needs another line or not.
pub open spec fn on_line_check(
    line: LineView,
    ctx: LineState,
    event: Event,
    needs_more: bool,
    shot: Snapshot,
) -> Outcome {
    if needs_more {
        leading_to(
            line,
            keys::continued(ctx, shot),
            PhaseView::Dispatch(event),
            seq![EffectView::ClearBuffer],
            NextView::Perform,
        )
    } else {
        finished(line, ctx, shot)
    }
}

/// The phase that waits for the answer to a handler's question.
pub open spec fn phase_for(next: NextView) -> PhaseView {
    match next {
        NextView::AcceptItem => PhaseView::Accepting,
        NextView::Complete(_) => PhaseView::Completing,
        NextView::Parse(_) => PhaseView::Parsing,
        _ => PhaseView::Settled,
    }
}

/// What handing an event on leads to: the menu has it while it is active, and else the mode.
pub open spec fn on_dispatch(
    line: LineView,
    ctx: LineState,
    event: Event,
    shot: Snapshot,
) -> Outcome {
    let handled = if shot.menu_active {
        keys::menu_keys(line, ctx, event, shot)
    } else {
        keys::mode_keys(line, ctx, event, shot)
    };
    Outcome { ctx: at(handled.ctx, phase_for(handled.step.next)), ..handled }
}

/// What the item that the menu gives leads to.
pub open spec fn on_accepted(line: LineView, ctx: LineState, item: Option<Completion>) -> Outcome {
    match item {
        Some(completion) => keys::done(
            line,
            keys::accepting(ctx, completion@, false),
            keys::completion_effects(ctx, completion@, false),
        ),
        None => settled(line, ctx, seq![]),
    }
}

/// What the completions lead to: the menu offers them.
pub open spec fn on_completions(
    line: LineView,
    ctx: LineState,
    completions: Seq<Completion>,
) -> Outcome {
    leading_to(
        line,
        ctx,
        PhaseView::Listing,
        seq![
            EffectView::SetItems(keys::items_for(effect::completions_of(completions))),
            EffectView::Menu(MenuCommand::Activate),
        ],
        NextView::ListItems,
    )
}

/// What the menu's offer leads to.
pub open spec fn on_items(line: LineView, ctx: LineState, items: Seq<Completion>) -> Outcome {
    keys::offered(line, ctx, effect::completions_of(items))
}

/// What it leads to that the current word is out of the text: the accepted text goes in.
pub open spec fn on_removed(
    line: LineView,
    ctx: LineState,
    accepted: Seq<char>,
    closes: bool,
) -> Outcome {
    keys::done(line, keys::replaced(ctx), keys::insertion(accepted, closes))
}

/// A reader that has done with the pressed keys.
pub open spec fn without_keys(line: LineView) -> LineView {
    LineView { normal_keys: seq![], ..line }
}

/// What the pressed keys lead to: a command is carried out as often as it says, and keys that
/// make none wait for more.
pub open spec fn on_parsed(line: LineView, ctx: LineState, parsed: Option<Command>) -> Outcome {
    match parsed {
        None => settled(line, ctx, seq![]),
        Some(command) => if command.repeat == 0 {
            settled(without_keys(line), ctx, seq![])
        } else {
            leading_to(
                line,
                ctx,
                PhaseView::Running { remaining: command.repeat, action: command.action },
                seq![],
                NextView::Execute(command.action),
            )
        },
    }
}

/// What an action that was carried out leads to: the mode that it asks for.
pub open spec fn on_executed(
    line: LineView,
    ctx: LineState,
    remaining: usize,
    action: Action,
    mode: Option<LineMode>,
) -> Outcome {
    let phase = PhaseView::Switched { remaining, action };
    match mode {
        Some(mode) => leading_to(
            line,
            keys::in_mode(ctx, mode),
            phase,
            keys::mode_effects(mode),
            NextView::Perform,
        ),
        None => leading_to(line, ctx, phase, seq![], NextView::Perform),
    }
}

/// What completing an action leads to: the next repetition, or the end of the command.
pub open spec fn on_switched(
    line: LineView,
    ctx: LineState,
    remaining: usize,
    action: Action,
    shot: Snapshot,
) -> Outcome {
    let effects = keys::action_effects(ctx, action, shot);
    let after = keys::after_action(ctx, action, shot);
    if remaining > 1 {
        leading_to(
            line,
            after,
            PhaseView::Running { remaining: (remaining - 1) as usize, action },
            effects,
            NextView::Execute(action),
        )
    } else {
        leading_to(line, after, PhaseView::Repeated, effects, NextView::Perform)
    }
}

/// What a command that was carried out leads to: it is done with the pressed keys, and the
/// event is handled.
pub open spec fn on_repeated(line: LineView, ctx: LineState, shot: Snapshot) -> Outcome {
    on_settled(without_keys(line), ctx, shot)
}

/// What a handled event leads to: the command is shown, without the stored lines.
pub open spec fn on_settled(line: LineView, ctx: LineState, shot: Snapshot) -> Outcome {
    leading_to(
        line,
        ctx,
        PhaseView::Rendering,
        seq![],
        NextView::Render {
            command: ctx.full_command(shot.text@),
            skip: text::byte_len(ctx.lines),
        },
    )
}

/// What the menu's selection shows: what it would add to the current word, in red.
pub open spec fn selection_overlays(
    ctx: LineState,
    selection: Option<String>,
    shot: Snapshot,
) -> Seq<OverlayView> {
    match selection {
        Some(selected) if shot.menu_active => seq![
            OverlayView { text: ctx.trimmed(selected@), color: Color::Red },
        ],
        _ => seq![],
    }
}

/// What a selection and a suggestion lead to.
pub open spec fn on_preview(
    line: LineView,
    ctx: LineState,
    selection: Option<String>,
    suggestion: Option<String>,
    shot: Snapshot,
) -> Outcome {
    let overlays = selection_overlays(ctx, selection, shot);
    match suggestion {
        Some(suggested) => leading_to(
            line,
            ctx,
            PhaseView::Extending { overlays, suggestion: suggested@ },
            seq![],
            NextView::Extend { input: shot.text@, suffix: ctx.trimmed(suggested@) },
        ),
        None => leading_to(line, ctx, PhaseView::Idle, seq![], NextView::Paint(overlays)),
    }
}

/// What the end of a suggestion leads to: it is shown in grey, and the whole suggestion where
/// there is no such end.
pub open spec fn on_extension(
    line: LineView,
    ctx: LineState,
    overlays: Seq<OverlayView>,
    suggestion: Seq<char>,
    extension: Option<String>,
) -> Outcome {
    let shown = match extension {
        Some(end) => end@,
        None => suggestion,
    };
    leading_to(
        line,
        ctx,
        PhaseView::Idle,
        seq![],
        NextView::Paint(overlays.push(OverlayView { text: shown, color: Color::DarkGrey })),
    )
}

/// Whether this is an answer to what a phase waits for.
pub open spec fn answers(phase: PhaseView, input: Input) -> bool {
    match phase {
        PhaseView::Idle => input is Event,
        PhaseView::Checking(_) => input is LineCheck,
        PhaseView::Dispatch(_) => input is Ready,
        PhaseView::Accepting => input is Accepted,
        PhaseView::Completing => input is Completions,
        PhaseView::Listing => input is Items,
        PhaseView::Parsing => input is Parsed,
        PhaseView::Running { .. } => input is Executed,
        PhaseView::Switched { .. } => input is Ready,
        PhaseView::Repeated => input is Ready,
        PhaseView::Replacing { .. } => input is Ready,
        PhaseView::Settled => input is Ready,
        PhaseView::Rendering => input is Preview,
        PhaseView::Extending { .. } => input is Extension,
        PhaseView::Ended => false,
    }
}

/// Whether the next step goes up in history.
pub open spec fn goes_up(ctx: LineState, shot: Snapshot) -> bool {
    match ctx.phase {
        PhaseView::Dispatch(event) => !shot.menu_active && ctx.mode is Insert && event::is_key(
            event,
            KeyCode::Up,
            KeyModifiers::Plain,
        ),
        PhaseView::Switched { action, .. } => action == Action::Move(Motion::Up),
        _ => false,
    }
}

/// Whether the texts of a preview can be cut behind the current word, where they have to be.
pub open spec fn can_preview(ctx: LineState, input: Input, shot: Snapshot) -> bool {
    match input {
        Input::Preview { selection, suggestion } => {
            &&& selection matches Some(selected) ==> shot.menu_active ==> ctx.can_trim(selected@)
            &&& suggestion matches Some(suggested) ==> ctx.can_trim(suggested@)
        },
        _ => true,
    }
}

/// Whether an answer moves the reading on: it is the one that was asked for, history is only
/// gone up where that is defined, and previews can be cut.
pub open spec fn moves_on(ctx: LineState, input: Input, shot: Snapshot) -> bool {
    &&& shot.wf()
    &&& answers(ctx.phase, input)
    &&& goes_up(ctx, shot) ==> ctx.history_ind.can_go_up(shot.history_len)
    &&& can_preview(ctx, input, shot)
}

/// What an answer leads to.
pub open spec fn turn(line: LineView, ctx: LineState, input: Input, shot: Snapshot) -> Outcome {
    match (ctx.phase, input) {
        (PhaseView::Idle, Input::Event { event, bound }) => on_event(
            line,
            ctx,
            event,
            bound,
            shot,
        ),
        (PhaseView::Checking(event), Input::LineCheck(needs_more)) => on_line_check(
            line,
            ctx,
            event,
            needs_more,
            shot,
        ),
        (PhaseView::Dispatch(event), Input::Ready) => on_dispatch(line, ctx, event, shot),
        (PhaseView::Accepting, Input::Accepted(item)) => on_accepted(line, ctx, item),
        (PhaseView::Completing, Input::Completions(completions)) => on_completions(
            line,
            ctx,
            completions@,
        ),
        (PhaseView::Listing, Input::Items(items)) => on_items(line, ctx, items@),
        (PhaseView::Parsing, Input::Parsed(parsed)) => on_parsed(line, ctx, parsed),
        (PhaseView::Running { remaining, action }, Input::Executed(mode)) => on_executed(
            line,
            ctx,
            remaining,
            action,
            mode,
        ),
        (PhaseView::Switched { remaining, action }, Input::Ready) => on_switched(
            line,
            ctx,
            remaining,
            action,
            shot,
        ),
        (PhaseView::Repeated, Input::Ready) => on_repeated(line, ctx, shot),
        (PhaseView::Replacing { accepted, closes }, Input::Ready) => on_removed(
            line,
            ctx,
            accepted,
            closes,
        ),
        (PhaseView::Settled, Input::Ready) => on_settled(line, ctx, shot),
        (PhaseView::Rendering, Input::Preview { selection, suggestion }) => on_preview(
            line,
            ctx,
            selection,
            suggestion,
            shot,
        ),
        (PhaseView::Extending { overlays, suggestion }, Input::Extension(extension)) =>
            on_extension(line, ctx, overlays, suggestion, extension),
        _ => keys::ignored(line, ctx),
    }
}

impl<M, C, B, H, P, A> Line<M, C, B, H, P, A> {
    /// End the reading.
    fn finish(&self, ctx: &mut LineCtx, shot: &Snapshot) -> (step: Step)
        ensures
            (Outcome { line: self@, ctx: final(ctx)@, step: step@ }) == finished(
                self@,
                old(ctx)@,
                *shot,
            ),
    {
        let res = ctx.get_full_command(shot.text.as_str());
        ctx.set_phase(Phase::Ended);
        let effects = if !res.as_str().is_empty() {
            effect::one(Effect::AddHistory(res.clone()))
        } else {
            effect::nothing()
        };
        Step { effects, next: Next::Finish(res) }
    }

    /// Start on an event.
    fn take_event(
        &mut self,
        ctx: &mut LineCtx,
        event: Event,
        bound: bool,
        shot: &Snapshot,
    ) -> (step: Step)
        ensures
            final(self).same_parts(*old(self)),
            (Outcome { line: final(self)@, ctx: final(ctx)@, step: step@ }) == on_event(
                old(self)@,
                old(ctx)@,
                event,
                bound,
                *shot,
            ),
    {
        let is_key = match &event {
            Event::Key(_) => true,
            _ => false,
        };
        if is_key && bound {
            return self.finish(ctx, shot);
        }
        let (effects, verdict) = self.handle_standard_keys(&event, shot);
        match verdict {
            Verdict::Proceed => {
                ctx.set_phase(Phase::Dispatch(keys::hand_on(event)));
                Step { effects, next: Next::Perform }
            },
            Verdict::CheckLine => {
                let command = ctx.get_full_command(shot.text.as_str());
                ctx.set_phase(Phase::Checking(keys::hand_on(event)));
                Step { effects, next: Next::CheckLine(command) }
            },
            Verdict::Exit => {
                ctx.set_phase(Phase::Ended);
                Step { effects, next: Next::Exit }
            },
        }
    }

    /// Go on with a command that needs another line or not.
    fn take_line_check(
        &self,
        ctx: &mut LineCtx,
        event: Event,
        needs_more: bool,
        shot: &Snapshot,
    ) -> (step: Step)
        ensures
            (Outcome { line: self@, ctx: final(ctx)@, step: step@ }) == on_line_check(
                self@,
                old(ctx)@,
                event,
                needs_more,
                *shot,
            ),
    {
        if needs_more {
            let effects = self.store_line(ctx, shot);
            ctx.set_phase(Phase::Dispatch(event));
            Step { effects, next: Next::Perform }
        } else {
            self.finish(ctx, shot)
        }
    }

    /// Hand an event on to the menu or to the mode.
    fn dispatch(&mut self, ctx: &mut LineCtx, event: &Event, shot: &Snapshot) -> (step: Step)
        requires
            shot.wf(),
            !shot.menu_active && old(ctx)@.mode is Insert && event::is_key(
                *event,
                KeyCode::Up,
                KeyModifiers::Plain,
            ) ==> old(ctx)@.history_ind.can_go_up(shot.history_len),
        ensures
            final(self).same_parts(*old(self)),
            (Outcome { line: final(self)@, ctx: final(ctx)@, step: step@ }) == on_dispatch(
                old(self)@,
                old(ctx)@,
                *event,
                *shot,
            ),
    {
        let step = if shot.menu_active {
            self.handle_menu_keys(ctx, event, shot)
        } else {
            self.handle_mode_keys(ctx, event, shot)
        };
        let phase = match &step.next {
            Next::AcceptItem => Phase::Accepting,
            Next::Complete(_) => Phase::Completing,
            Next::Parse(_) => Phase::Parsing,
            _ => Phase::Settled,
        };
        ctx.set_phase(phase);
        step
    }

    /// Take up the command that the pressed keys make.
    fn take_command(&mut self, ctx: &mut LineCtx, parsed: Option<Command>) -> (step: Step)
        ensures
            final(self).same_parts(*old(self)),
            (Outcome { line: final(self)@, ctx: final(ctx)@, step: step@ }) == on_parsed(
                old(self)@,
                old(ctx)@,
                parsed,
            ),
    {
        match parsed {
            None => {
                ctx.set_phase(Phase::Settled);
                Step { effects: effect::nothing(), next: Next::Perform }
            },
            Some(command) => {
                if command.repeat == 0 {
                    self.normal_keys = String::new();
                    ctx.set_phase(Phase::Settled);
                    Step { effects: effect::nothing(), next: Next::Perform }
                } else {
                    ctx.set_phase(
                        Phase::Running { remaining: command.repeat, action: command.action },
                    );
                    Step { effects: effect::nothing(), next: Next::Execute(command.action) }
                }
            },
        }
    }

    /// Complete one repetition of an action.
    fn take_repetition(
        &self,
        ctx: &mut LineCtx,
        remaining: usize,
        action: Action,
        shot: &Snapshot,
    ) -> (step: Step)
        requires
            action == Action::Move(Motion::Up) ==> old(ctx)@.history_ind.can_go_up(
                shot.history_len,
            ),
        ensures
            (Outcome { line: self@, ctx: final(ctx)@, step: step@ }) == on_switched(
                self@,
                old(ctx)@,
                remaining,
                action,
                *shot,
            ),
    {
        let effects = self.complete_action(ctx, action, shot);
        if remaining > 1 {
            ctx.set_phase(Phase::Running { remaining: remaining - 1, action });
            Step { effects, next: Next::Execute(action) }
        } else {
            ctx.set_phase(Phase::Repeated);
            Step { effects, next: Next::Perform }
        }
    }

    /// Show the command as it stands once an event is handled.
    fn show_command(&self, ctx: &mut LineCtx, shot: &Snapshot) -> (step: Step)
        ensures
            (Outcome { line: self@, ctx: final(ctx)@, step: step@ }) == on_settled(
                self@,
                old(ctx)@,
                *shot,
            ),
    {
        let command = ctx.get_full_command(shot.text.as_str());
        let skip: usize = ctx.stored_bytes();
        ctx.set_phase(Phase::Rendering);
        Step { effects: effect::nothing(), next: Next::Render { command, skip } }
    }

    /// Show what is selected and suggested.
    fn take_preview(
        &self,
        ctx: &mut LineCtx,
        selection: Option<String>,
        suggestion: Option<String>,
        shot: &Snapshot,
    ) -> (step: Step)
        requires
            selection matches Some(selected) ==> shot.menu_active ==> old(ctx)@.can_trim(selected@),
            suggestion matches Some(suggested) ==> old(ctx)@.can_trim(suggested@),
        ensures
            (Outcome { line: self@, ctx: final(ctx)@, step: step@ }) == on_preview(
                self@,
                old(ctx)@,
                selection,
                suggestion,
                *shot,
            ),
    {
        let mut overlays: Vec<Overlay> = Vec::new();
        if shot.menu_active {
            match &selection {
                Some(selected) => {
                    overlays.push(
                        Overlay { text: ctx.trim(selected.as_str()), color: Color::Red },
                    );
                },
                None => {},
            }
        }
        assert(effect::overlays_of(overlays@) =~= selection_overlays(
            old(ctx)@,
            selection,
            *shot,
        ));
        match suggestion {
            Some(suggested) => {
                let suffix = ctx.trim(suggested.as_str());
                ctx.set_phase(Phase::Extending { overlays, suggestion: suggested });
                Step {
                    effects: effect::nothing(),
                    next: Next::Extend { input: shot.text.clone(), suffix },
                }
            },
            None => {
                ctx.set_phase(Phase::Idle);
                Step { effects: effect::nothing(), next: Next::Paint(overlays) }
            },
        }
    }

    /// Show the end of a suggestion.
    fn take_extension(
        &self,
        ctx: &mut LineCtx,
        overlays: Vec<Overlay>,
        suggestion: String,
        extension: Option<String>,
    ) -> (step: Step)
        ensures
            (Outcome { line: self@, ctx: final(ctx)@, step: step@ }) == on_extension(
                self@,
                old(ctx)@,
                effect::overlays_of(overlays@),
                suggestion@,
                extension,
            ),
    {
        let shown = match extension {
            Some(end) => end,
            None => suggestion,
        };
        let overlay = Overlay { text: shown, color: Color::DarkGrey };
        let mut all = overlays;
        all.push(overlay);
        assert(effect::overlays_of(all@) =~= effect::overlays_of(overlays@).push(overlay@));
        ctx.set_phase(Phase::Idle);
        Step { effects: effect::nothing(), next: Next::Paint(all) }
    }

    /// Whether an answer moves the reading on.
    #[verifier::rlimit(50)]
    pub fn accepts(&self, ctx: &LineCtx, input: &Input, shot: &Snapshot) -> (b: bool)
        ensures
            b == moves_on(ctx@, *input, *shot),
    {
        if shot.cursor > shot.len() {
            return false;
        }
        match (ctx.phase(), input) {
            (Phase::Idle, Input::Event { .. }) => true,
            (Phase::Checking(_), Input::LineCheck(_)) => true,
            (Phase::Dispatch(event), Input::Ready) => match event {
                Event::Key(key) => {
                    if !shot.menu_active && ctx.mode() == LineMode::Insert && key.code == KeyCode::Up
                        && key.modifiers == KeyModifiers::Plain {
                        ctx.history_ind().has_up(shot.history_len)
                    } else {
                        true
                    }
                },
                _ => true,
            },
            (Phase::Accepting, Input::Accepted(_)) => true,
            (Phase::Completing, Input::Completions(_)) => true,
            (Phase::Listing, Input::Items(_)) => true,
            (Phase::Parsing, Input::Parsed(_)) => true,
            (Phase::Running { .. }, Input::Executed(_)) => true,
            (Phase::Switched { action, .. }, Input::Ready) => {
                if *action == Action::Move(Motion::Up) {
                    ctx.history_ind().has_up(shot.history_len)
                } else {
                    true
                }
            },
            (Phase::Repeated, Input::Ready) => true,
            (Phase::Replacing { .. }, Input::Ready) => true,
            (Phase::Settled, Input::Ready) => true,
            (Phase::Rendering, Input::Preview { selection, suggestion }) => {
                let selection_fits = match selection {
                    Some(selected) => !shot.menu_active || ctx.has_trimmed(selected.as_str()),
                    None => true,
                };
                let suggestion_fits = match suggestion {
                    Some(suggested) => ctx.has_trimmed(suggested.as_str()),
                    None => true,
                };
                selection_fits && suggestion_fits
            },
            (Phase::Extending { .. }, Input::Extension(_)) => true,
            _ => false,
        }
    }

    /// Move the reading on by one answer.
    #[verifier::rlimit(50)]
    pub fn read_events(&mut self, ctx: &mut LineCtx, input: Input, shot: &Snapshot) -> (step: Step)
        requires
            moves_on(old(ctx)@, input, *shot),
        ensures
            final(self).same_parts(*old(self)),
            (Outcome { line: final(self)@, ctx: final(ctx)@, step: step@ }) == turn(
                old(self)@,
                old(ctx)@,
                input,
                *shot,
            ),
    {
        let phase = ctx.take_phase();
        match (phase, input) {
            (Phase::Idle, Input::Event { event, bound }) => {
                self.take_event(ctx, event, bound, shot)
            },
            (Phase::Checking(event), Input::LineCheck(needs_more)) => {
                self.take_line_check(ctx, event, needs_more, shot)
            },
            (Phase::Dispatch(event), Input::Ready) => self.dispatch(ctx, &event, shot),
            (Phase::Accepting, Input::Accepted(item)) => {
                let effects = self.accept_item(ctx, item);
                Step { effects, next: Next::Perform }
            },
            (Phase::Completing, Input::Completions(completions)) => {
                let items = keys::menu_items(&completions);
                ctx.set_phase(Phase::Listing);
                Step {
                    effects: effect::two(
                        Effect::SetItems(items),
                        Effect::Menu(MenuCommand::Activate),
                    ),
                    next: Next::ListItems,
                }
            },
            (Phase::Listing, Input::Items(items)) => {
                let effects = self.offer_items(ctx, items);
                Step { effects, next: Next::Perform }
            },
            (Phase::Parsing, Input::Parsed(parsed)) => self.take_command(ctx, parsed),
            (Phase::Running { remaining, action }, Input::Executed(mode)) => {
                let effects = self.switch_mode(ctx, mode);
                ctx.set_phase(Phase::Switched { remaining, action });
                Step { effects, next: Next::Perform }
            },
            (Phase::Switched { remaining, action }, Input::Ready) => {
                self.take_repetition(ctx, remaining, action, shot)
            },
            (Phase::Repeated, Input::Ready) => {
                self.normal_keys = String::new();
                self.show_command(ctx, shot)
            },
            (Phase::Replacing { accepted, closes }, Input::Ready) => {
                let effects = self.replace_word(ctx, accepted, closes);
                Step { effects, next: Next::Perform }
            },
            (Phase::Settled, Input::Ready) => self.show_command(ctx, shot),
            (Phase::Rendering, Input::Preview { selection, suggestion }) => {
                self.take_preview(ctx, selection, suggestion, shot)
            },
            (Phase::Extending { overlays, suggestion }, Input::Extension(extension)) => {
                self.take_extension(ctx, overlays, suggestion, extension)
            },
            _ => vstd::pervasive::unreached(),
        }
    }
}

} // verus!
