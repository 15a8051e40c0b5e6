//! The state of one reading, and the questions and answers that move it on.

use crate::effect::{
    Action, Command, Completion, Effect, EffectView, LineMode, Overlay, OverlayView,
};
use crate::effect;
use crate::event::Event;
use crate::history::HistoryInd;
use crate::text;
use vstd::prelude::*;

verus! {

/// What a decision reads of its surroundings.
#[derive(Debug, Clone, PartialEq, Eq)]
pub struct Snapshot {
    /// The edited text
    pub text: String,
    /// The number of characters before the cursor
    pub cursor: usize,
    /// Whether the completion menu is active
    pub menu_active: bool,
    /// The number of lines in the history
    pub history_len: usize,
}

impl Snapshot {
    /// The cursor is in the text.
    pub open spec fn wf(self) -> bool {
        self.cursor <= self.text@.len()
    }

    /// The text before the cursor.
    pub open spec fn before_cursor(self) -> Seq<char> {
        self.text@.take(self.cursor as int)
    }

    /// The number of characters of the edited text.
    pub fn len(&self) -> (n: usize)
        ensures
            n == self.text@.len(),
    {
        self.text.as_str().unicode_len()
    }

    /// Whether there is no text.
    pub fn is_empty(&self) -> (b: bool)
        ensures
            b == (self.text@.len() == 0),
    {
        self.text.as_str().is_empty()
    }
}

/// What the reader waits for.
#[derive(Debug, Clone, PartialEq, Eq)]
pub enum Phase {
    /// The next event
    Idle,
    /// Whether the command needs another line
    Checking(Event),
    /// The surroundings, to hand the event on
    Dispatch(Event),
    /// The item that the menu gives
    Accepting,
    /// The completions of the words before the cursor
    Completing,
    /// The items that the menu offers
    Listing,
    /// The command that the pressed keys make
    Parsing,
    /// What the action did to the mode
    Running { remaining: usize, action: Action },
    /// The surroundings, to complete the action
    Switched { remaining: usize, action: Action },
    /// The surroundings, once a command is carried out as often as it says
    Repeated,
    /// The surroundings, once the current word is out of the text: this text takes its place,
    /// and then the menu closes or not
    Replacing { accepted: String, closes: bool },
    /// The surroundings, once the event is handled
    Settled,
    /// What is selected and suggested
    Rendering,
    /// How the suggestion goes on behind the edited text
    Extending { overlays: Vec<Overlay>, suggestion: String },
    /// Nothing: the reading is over
    Ended,
}

/// A phase, by its texts.
pub enum PhaseView {
    Idle,
    Checking(Event),
    Dispatch(Event),
    Accepting,
    Completing,
    Listing,
    Parsing,
    Running { remaining: usize, action: Action },
    Switched { remaining: usize, action: Action },
    Repeated,
    Replacing { accepted: Seq<char>, closes: bool },
    Settled,
    Rendering,
    Extending { overlays: Seq<OverlayView>, suggestion: Seq<char> },
    Ended,
}

impl View for Phase {
    type V = PhaseView;

    open spec fn view(&self) -> PhaseView {
        match *self {
            Phase::Idle => PhaseView::Idle,
            Phase::Checking(event) => PhaseView::Checking(event),
            Phase::Dispatch(event) => PhaseView::Dispatch(event),
            Phase::Accepting => PhaseView::Accepting,
            Phase::Completing => PhaseView::Completing,
            Phase::Listing => PhaseView::Listing,
            Phase::Parsing => PhaseView::Parsing,
            Phase::Running { remaining, action } => PhaseView::Running { remaining, action },
            Phase::Switched { remaining, action } => PhaseView::Switched { remaining, action },
            Phase::Repeated => PhaseView::Repeated,
            Phase::Replacing { accepted, closes } => PhaseView::Replacing {
                accepted: accepted@,
                closes,
            },
            Phase::Settled => PhaseView::Settled,
            Phase::Rendering => PhaseView::Rendering,
            Phase::Extending { overlays, suggestion } => PhaseView::Extending {
                overlays: effect::overlays_of(overlays@),
                suggestion: suggestion@,
            },
            Phase::Ended => PhaseView::Ended,
        }
    }
}

/// An answer to what the reader asked.
#[derive(Debug, Clone, PartialEq, Eq)]
pub enum Input {
    /// This happened, and a key binding has dealt with it or not
    Event { event: Event, bound: bool },
    /// The effects are carried out
    Ready,
    /// Whether the command needs another line
    LineCheck(bool),
    /// The item that the menu gives, if any
    Accepted(Option<Completion>),
    /// The completions of the words before the cursor
    Completions(Vec<Completion>),
    /// The items that the menu offers
    Items(Vec<Completion>),
    /// The command that the pressed keys make, if they make one
    Parsed(Option<Command>),
    /// The mode that the action asks for, if it succeeded
    Executed(Option<LineMode>),
    /// What the menu's selection would insert, and what is suggested, if anything
    Preview { selection: Option<String>, suggestion: Option<String> },
    /// How the suggestion goes on behind the edited text, if it does
    Extension(Option<String>),
}

/// What the reader has to be told next, once the effects of the step are carried out.
#[derive(Debug, Clone, PartialEq, Eq)]
pub enum Next {
    /// That they are: [`Input::Ready`]
    Perform,
    /// Whether this command needs another line: [`Input::LineCheck`]
    CheckLine(String),
    /// The item that the menu gives: [`Input::Accepted`]
    AcceptItem,
    /// The completions of these words: [`Input::Completions`]
    Complete(Vec<String>),
    /// The items that the menu offers: [`Input::Items`]
    ListItems,
    /// The command that these keys make: [`Input::Parsed`]
    Parse(String),
    /// What this action did to the mode: [`Input::Executed`]
    Execute(Action),
    /// What is selected and suggested: [`Input::Preview`]. The command is highlighted, and
    /// what its first `skip` bytes hold is not shown
    Render { command: String, skip: usize },
    /// How the suggestion's `suffix` goes on behind `input`: [`Input::Extension`]
    Extend { input: String, suffix: String },
    /// The next event, once these are painted behind the edited text: [`Input::Event`]
    Paint(Vec<Overlay>),
    /// Nothing: this is the command that was read
    Finish(String),
    /// Nothing: the shell exits
    Exit,
}

/// A question, by its texts.
pub enum NextView {
    Perform,
    CheckLine(Seq<char>),
    AcceptItem,
    Complete(Seq<Seq<char>>),
    ListItems,
    Parse(Seq<char>),
    Execute(Action),
    Render { command: Seq<char>, skip: nat },
    Extend { input: Seq<char>, suffix: Seq<char> },
    Paint(Seq<OverlayView>),
    Finish(Seq<char>),
    Exit,
}

impl View for Next {
    type V = NextView;

    open spec fn view(&self) -> NextView {
        match *self {
            Next::Perform => NextView::Perform,
            Next::CheckLine(command) => NextView::CheckLine(command@),
            Next::AcceptItem => NextView::AcceptItem,
            Next::Complete(words) => NextView::Complete(text::texts(words@)),
            Next::ListItems => NextView::ListItems,
            Next::Parse(keys) => NextView::Parse(keys@),
            Next::Execute(action) => NextView::Execute(action),
            Next::Render { command, skip } => NextView::Render {
                command: command@,
                skip: skip as nat,
            },
            Next::Extend { input, suffix } => NextView::Extend { input: input@, suffix: suffix@ },
            Next::Paint(overlays) => NextView::Paint(effect::overlays_of(overlays@)),
            Next::Finish(command) => NextView::Finish(command@),
            Next::Exit => NextView::Exit,
        }
    }
}

/// A decision: what to carry out, in this order, and what to answer then.
#[derive(Debug, Clone, PartialEq, Eq)]
pub struct Step {
    pub effects: Vec<Effect>,
    pub next: Next,
}

/// A decision, by its texts.
pub struct StepView {
    pub effects: Seq<EffectView>,
    pub next: NextView,
}

impl View for Step {
    type V = StepView;

    open spec fn view(&self) -> StepView {
        StepView { effects: effect::effects_of(self.effects@), next: self.next@ }
    }
}

/// Context that is passed to the line: the state of one reading.
#[derive(Debug, Clone, PartialEq, Eq)]
pub struct LineCtx {
    // the word before the cursor that is being completed
    current_word: String,
    // where the prompt is in history
    history_ind: HistoryInd,
    // line contents that were present before entering history mode
    saved_line: String,
    // the vi mode
    mode: LineMode,
    /// Stored lines in a multiprompt command
    pub lines: String,
    /// The suggestion that is shown, if any
    pub suggestion: Option<String>,
    // what the reader waits for
    phase: Phase,
}

/// The state of one reading, by its texts.
pub struct LineState {
    pub current_word: Seq<char>,
    pub history_ind: HistoryInd,
    pub saved_line: Seq<char>,
    pub mode: LineMode,
    pub lines: Seq<char>,
    pub suggestion: Option<Seq<char>>,
    pub phase: PhaseView,
}

/// An optional text.
pub open spec fn text_of(s: Option<String>) -> Option<Seq<char>> {
    match s {
        Some(s) => Some(s@),
        None => None,
    }
}

impl View for LineCtx {
    type V = LineState;

    closed spec fn view(&self) -> LineState {
        LineState {
            current_word: self.current_word@,
            history_ind: self.history_ind,
            saved_line: self.saved_line@,
            mode: self.mode,
            lines: self.lines@,
            suggestion: text_of(self.suggestion),
            phase: self.phase@,
        }
    }
}

/// A phase is seen as what it is, with all that it holds.
pub proof fn phases_are_seen(
    event: Event,
    remaining: usize,
    action: Action,
    accepted: String,
    closes: bool,
    overlays: Vec<Overlay>,
)
    ensures
        Phase::Idle@ == PhaseView::Idle,
        Phase::Checking(event)@ == PhaseView::Checking(event),
        Phase::Dispatch(event)@ == PhaseView::Dispatch(event),
        Phase::Accepting@ == PhaseView::Accepting,
        Phase::Completing@ == PhaseView::Completing,
        Phase::Listing@ == PhaseView::Listing,
        Phase::Parsing@ == PhaseView::Parsing,
        (Phase::Running { remaining, action })@ == (PhaseView::Running { remaining, action }),
        (Phase::Switched { remaining, action })@ == (PhaseView::Switched { remaining, action }),
        Phase::Repeated@ == PhaseView::Repeated,
        (Phase::Replacing { accepted, closes })@ == (PhaseView::Replacing {
            accepted: accepted@,
            closes,
        }),
        Phase::Settled@ == PhaseView::Settled,
        Phase::Rendering@ == PhaseView::Rendering,
        (Phase::Extending { overlays, suggestion: accepted })@ matches PhaseView::Extending {
            overlays: seen,
            suggestion,
        } && {
            &&& suggestion == accepted@
            &&& seen.len() == overlays@.len()
            &&& forall|k: int| 0 <= k < seen.len() ==> #[trigger] seen[k] == overlays@[k]@
        },
        Phase::Ended@ == PhaseView::Ended,
{
}

/// A question is seen as what it is, with all that it holds.
pub proof fn questions_are_seen(
    text: String,
    other: String,
    words: Vec<String>,
    action: Action,
    skip: usize,
    overlays: Vec<Overlay>,
)
    ensures
        Next::Perform@ == NextView::Perform,
        Next::CheckLine(text)@ == NextView::CheckLine(text@),
        Next::AcceptItem@ == NextView::AcceptItem,
        Next::Complete(words)@ matches NextView::Complete(seen) && {
            &&& seen.len() == words@.len()
            &&& forall|k: int| 0 <= k < seen.len() ==> #[trigger] seen[k] == words@[k]@
        },
        Next::ListItems@ == NextView::ListItems,
        Next::Parse(text)@ == NextView::Parse(text@),
        Next::Execute(action)@ == NextView::Execute(action),
        (Next::Render { command: text, skip })@ == (NextView::Render {
            command: text@,
            skip: skip as nat,
        }),
        (Next::Extend { input: text, suffix: other })@ == (NextView::Extend {
            input: text@,
            suffix: other@,
        }),
        Next::Paint(overlays)@ matches NextView::Paint(seen) && {
            &&& seen.len() == overlays@.len()
            &&& forall|k: int| 0 <= k < seen.len() ==> #[trigger] seen[k] == overlays@[k]@
        },
        Next::Finish(text)@ == NextView::Finish(text@),
        Next::Exit@ == NextView::Exit,
{
}

/// A step is seen by its effects in their order and by its question.
pub proof fn steps_are_seen(step: Step)
    ensures
        step@.next == step.next@,
        step@.effects.len() == step.effects@.len(),
        forall|k: int|
            0 <= k < step.effects@.len() ==> #[trigger] step@.effects[k] == step.effects@[k]@,
{
}

impl LineState {
    /// The state at the start of a reading.
    pub open spec fn fresh() -> LineState {
        LineState {
            current_word: seq![],
            history_ind: HistoryInd::Prompt,
            saved_line: seq![],
            mode: LineMode::Insert,
            lines: seq![],
            suggestion: None,
            phase: PhaseView::Idle,
        }
    }

    /// The command so far: the stored lines and the edited text.
    pub open spec fn full_command(self, line: Seq<char>) -> Seq<char> {
        self.lines + line
    }

    /// Whether a text can be cut behind as many bytes as the current word has.
    pub open spec fn can_trim(self, whole: Seq<char>) -> bool {
        text::splits_at(whole, text::byte_len(self.current_word))
    }

    /// A text without as many bytes as the current word has.
    pub open spec fn trimmed(self, whole: Seq<char>) -> Seq<char> {
        text::skip_bytes(whole, text::byte_len(self.current_word))
    }
}

impl LineCtx {
    /// The state at the start of a reading.
    pub fn new() -> (ctx: Self)
        ensures
            ctx@ == LineState::fresh(),
            ctx@ == (LineState {
                current_word: seq![],
                history_ind: HistoryInd::Prompt,
                saved_line: seq![],
                mode: LineMode::Insert,
                lines: seq![],
                suggestion: None,
                phase: PhaseView::Idle,
            }),
    {
        let ctx = LineCtx {
            current_word: String::new(),
            history_ind: HistoryInd::Prompt,
            saved_line: String::new(),
            mode: LineMode::Insert,
            lines: String::new(),
            suggestion: None,
            phase: Phase::Idle,
        };
        ctx
    }

    /// The vi mode.
    pub fn mode(&self) -> (mode: LineMode)
        ensures
            mode == self@.mode,
    {
        self.mode
    }

    /// The word before the cursor that is being completed.
    pub fn current_word(&self) -> (word: &str)
        ensures
            word@ == self@.current_word,
    {
        self.current_word.as_str()
    }

    /// Where the prompt is in history.
    pub fn history_ind(&self) -> (ind: HistoryInd)
        ensures
            ind == self@.history_ind,
    {
        self.history_ind
    }

    /// The line that was present before history was entered.
    pub fn saved_line(&self) -> (line: &str)
        ensures
            line@ == self@.saved_line,
    {
        self.saved_line.as_str()
    }

    /// What the reader waits for.
    pub fn phase(&self) -> (phase: &Phase)
        ensures
            phase@ == self@.phase,
    {
        &self.phase
    }

    /// Switch to a mode.
    pub(crate) fn set_mode(&mut self, mode: LineMode)
        ensures
            final(self)@ == (LineState { mode, ..old(self)@ }),
    {
        self.mode = mode;
    }

    /// Take another word as the current one.
    pub(crate) fn set_current_word(&mut self, word: String)
        ensures
            final(self)@ == (LineState { current_word: word@, ..old(self)@ }),
    {
        self.current_word = word;
    }

    /// Go to another place in history.
    pub(crate) fn set_history_ind(&mut self, ind: HistoryInd)
        ensures
            final(self)@ == (LineState { history_ind: ind, ..old(self)@ }),
    {
        self.history_ind = ind;
    }

    /// Save a line for the way back from history.
    pub(crate) fn save_line(&mut self, line: String)
        ensures
            final(self)@ == (LineState { saved_line: line@, ..old(self)@ }),
    {
        self.saved_line = line;
    }

    /// Store a line of a command that needs another one.
    pub(crate) fn store_line(&mut self, line: &str)
        ensures
            final(self)@ == (LineState {
                lines: old(self)@.lines + line@ + seq!['\n'],
                ..old(self)@
            }),
    {
        let mut lines = text::concat(self.lines.as_str(), line);
        lines.push('\n');
        assert(lines@ =~= self@.lines + line@ + seq!['\n']);
        self.lines = lines;
    }

    /// Wait for something else.
    pub(crate) fn set_phase(&mut self, phase: Phase)
        ensures
            final(self)@ == (LineState { phase: phase@, ..old(self)@ }),
    {
        self.phase = phase;
    }

    /// Hand out what the reader waits for, and wait for nothing.
    pub(crate) fn take_phase(&mut self) -> (phase: Phase)
        ensures
            phase@ == old(self)@.phase,
            final(self)@ == (LineState { phase: PhaseView::Ended, ..old(self)@ }),
    {
        let mut phase = Phase::Ended;
        core::mem::swap(&mut phase, &mut self.phase);
        phase
    }

    /// How many bytes the stored lines take.
    pub fn stored_bytes(&self) -> (n: usize)
        ensures
            n == text::byte_len(self@.lines),
    {
        text::bytes(self.lines.as_str())
    }

    /// The command so far: the stored lines and the edited text.
    pub fn get_full_command(&self, line: &str) -> (command: String)
        ensures
            command@ == self@.full_command(line@),
            command@ == self@.lines + line@,
    {
        text::concat(self.lines.as_str(), line)
    }

    /// Show this suggestion, or none.
    pub fn update_suggestion(&mut self, new_suggestion: Option<String>)
        ensures
            final(self)@ == (LineState { suggestion: text_of(new_suggestion), ..old(self)@ }),
            match new_suggestion {
                Some(shown) => final(self)@.suggestion == Some(shown@),
                None => final(self)@.suggestion is None,
            },
    {
        self.suggestion = new_suggestion;
    }

    /// Whether a text can be cut behind as many bytes as the current word has.
    pub fn has_trimmed(&self, whole: &str) -> (b: bool)
        ensures
            b == self@.can_trim(whole@),
    {
        text::can_split_at(whole, text::bytes(self.current_word.as_str()))
    }

    /// A text without as many bytes as the current word has.
    pub fn trim(&self, whole: &str) -> (rest: String)
        requires
            self@.can_trim(whole@),
        ensures
            rest@ == self@.trimmed(whole@),
    {
        text::after_bytes(whole, text::bytes(self.current_word.as_str()))
    }
}

} // verus!
