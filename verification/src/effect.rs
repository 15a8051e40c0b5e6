//! What the reader asks its surroundings to do.

use vstd::prelude::*;

verus! {

/// Operating mode of readline
#[derive(Debug, PartialEq, Eq, Clone, Copy, Structural)]
pub enum LineMode {
    /// Vi insert mode
    Insert,
    /// Vi normal mode
    Normal,
}

/// A place in the edited text.
#[derive(Debug, PartialEq, Eq, Clone, Copy, Structural)]
pub enum Location {
    /// At the cursor
    Cursor,
    /// One character before the cursor
    Before,
    /// One character behind the cursor
    After,
    /// The start of the text
    Front,
    /// The end of the text
    Back,
    /// The start of the word before the cursor
    BackWord,
    /// This many characters before the cursor
    Behind(usize),
    /// This many characters behind the cursor
    Ahead(usize),
}

/// The shape of the cursor.
#[derive(Debug, PartialEq, Eq, Clone, Copy, Structural)]
pub enum CursorShape {
    BlinkingBlock,
    BlinkingBar,
}

/// What the completion menu is to do.
#[derive(Debug, PartialEq, Eq, Clone, Copy, Structural)]
pub enum MenuCommand {
    Activate,
    Disactivate,
    Next,
    Previous,
}

/// What the record of earlier states of the edited text is to do.
#[derive(Debug, PartialEq, Eq, Clone, Copy, Structural)]
pub enum SnapshotCommand {
    /// Forget everything
    Clear,
    /// Record the edited text
    Add,
    /// Put the previous state in the edited text
    Previous,
    /// Put the next state in the edited text
    Next,
}

/// Where a vi motion goes.
#[derive(Debug, PartialEq, Eq, Clone, Copy, Structural)]
pub enum Motion {
    Up,
    Down,
    /// Any other motion
    Other,
}

/// What a vi command does.
#[derive(Debug, PartialEq, Eq, Clone, Copy, Structural)]
pub enum Action {
    Undo,
    Redo,
    Move(Motion),
    /// Any other action
    Other,
}

/// A vi command.
#[derive(Debug, PartialEq, Eq, Clone, Copy, Structural)]
pub struct Command {
    /// How often the action is carried out
    pub repeat: usize,
    pub action: Action,
}

/// What becomes of the word before the cursor when a completion is accepted.
#[derive(Debug, PartialEq, Eq, Clone, Copy, Structural)]
pub enum ReplaceMethod {
    /// It stays, and the completion goes behind it
    Append,
    /// It goes, and the completion takes its place
    Replace,
}

/// A completion.
#[derive(Debug, Clone, PartialEq, Eq)]
pub struct Completion {
    /// What the menu shows
    pub display: String,
    /// What goes into the edited text
    pub accepted: String,
    pub replace_method: ReplaceMethod,
}

/// A completion, by its texts.
pub struct CompletionView {
    pub display: Seq<char>,
    pub accepted: Seq<char>,
    pub replace_method: ReplaceMethod,
}

impl View for Completion {
    type V = CompletionView;

    open spec fn view(&self) -> CompletionView {
        CompletionView {
            display: self.display@,
            accepted: self.accepted@,
            replace_method: self.replace_method,
        }
    }
}

/// The colour of a text that is shown behind the edited text.
#[derive(Debug, PartialEq, Eq, Clone, Copy, Structural)]
pub enum Color {
    Red,
    DarkGrey,
}

/// A text that is shown behind the edited text.
#[derive(Debug, Clone, PartialEq, Eq)]
pub struct Overlay {
    pub text: String,
    pub color: Color,
}

/// An overlay, by its text.
pub struct OverlayView {
    pub text: Seq<char>,
    pub color: Color,
}

impl View for Overlay {
    type V = OverlayView;

    open spec fn view(&self) -> OverlayView {
        OverlayView { text: self.text@, color: self.color }
    }
}

/// Something to be carried out.
#[derive(Debug, Clone, PartialEq, Eq)]
pub enum Effect {
    /// Insert this text at the cursor
    Insert(String),
    /// Insert this line of the history at the cursor
    InsertHistory(usize),
    /// Delete the text between two places
    Delete(Location, Location),
    /// Move the cursor to a place
    MoveCursor(Location),
    /// Empty the edited text
    ClearBuffer,
    /// Hand this to the menu
    Menu(MenuCommand),
    /// Let the menu offer these, each under the text that it shows
    SetItems(Vec<(String, Completion)>),
    /// Hand this to the record of earlier states
    Snapshots(SnapshotCommand),
    /// Go to a new line of the screen
    Newline,
    /// Give the cursor this shape
    CursorStyle(CursorShape),
    /// Run the hooks for a switch to this mode
    ModeHooks(LineMode),
    /// Add this to the history
    AddHistory(String),
}

/// An effect, by its texts.
pub enum EffectView {
    Insert(Seq<char>),
    InsertHistory(usize),
    Delete(Location, Location),
    MoveCursor(Location),
    ClearBuffer,
    Menu(MenuCommand),
    SetItems(Seq<(Seq<char>, CompletionView)>),
    Snapshots(SnapshotCommand),
    Newline,
    CursorStyle(CursorShape),
    ModeHooks(LineMode),
    AddHistory(Seq<char>),
}

impl View for Effect {
    type V = EffectView;

    open spec fn view(&self) -> EffectView {
        match *self {
            Effect::Insert(text) => EffectView::Insert(text@),
            Effect::InsertHistory(i) => EffectView::InsertHistory(i),
            Effect::Delete(from, to) => EffectView::Delete(from, to),
            Effect::MoveCursor(to) => EffectView::MoveCursor(to),
            Effect::ClearBuffer => EffectView::ClearBuffer,
            Effect::Menu(command) => EffectView::Menu(command),
            Effect::SetItems(items) => EffectView::SetItems(items_of(items@)),
            Effect::Snapshots(command) => EffectView::Snapshots(command),
            Effect::Newline => EffectView::Newline,
            Effect::CursorStyle(shape) => EffectView::CursorStyle(shape),
            Effect::ModeHooks(mode) => EffectView::ModeHooks(mode),
            Effect::AddHistory(text) => EffectView::AddHistory(text@),
        }
    }
}

/// Menu items, by their texts.
pub open spec fn items_of(items: Seq<(String, Completion)>) -> Seq<(Seq<char>, CompletionView)> {
    items.map_values(|item: (String, Completion)| (item.0@, item.1@))
}

/// Completions, by their texts.
pub open spec fn completions_of(completions: Seq<Completion>) -> Seq<CompletionView> {
    completions.map_values(|c: Completion| c@)
}

/// Effects, by their texts.
pub open spec fn effects_of(effects: Seq<Effect>) -> Seq<EffectView> {
    effects.map_values(|e: Effect| e@)
}

/// Overlays, by their texts.
pub open spec fn overlays_of(overlays: Seq<Overlay>) -> Seq<OverlayView> {
    overlays.map_values(|o: Overlay| o@)
}

/// A completion and an overlay are seen by all of their fields.
pub proof fn fields_are_seen(completion: Completion, overlay: Overlay)
    ensures
        completion@.display == completion.display@,
        completion@.accepted == completion.accepted@,
        completion@.replace_method == completion.replace_method,
        overlay@.text == overlay.text@,
        overlay@.color == overlay.color,
{
}

/// An effect is seen as what it is, with all that it holds.
pub proof fn effects_are_seen(
    text: String,
    i: usize,
    from: Location,
    to: Location,
    menu: MenuCommand,
    items: Vec<(String, Completion)>,
    record: SnapshotCommand,
    shape: CursorShape,
    mode: LineMode,
)
    ensures
        Effect::Insert(text)@ == EffectView::Insert(text@),
        Effect::InsertHistory(i)@ == EffectView::InsertHistory(i),
        Effect::Delete(from, to)@ == EffectView::Delete(from, to),
        Effect::MoveCursor(to)@ == EffectView::MoveCursor(to),
        Effect::ClearBuffer@ == EffectView::ClearBuffer,
        Effect::Menu(menu)@ == EffectView::Menu(menu),
        Effect::SetItems(items)@ matches EffectView::SetItems(seen) && {
            &&& seen.len() == items@.len()
            &&& forall|k: int|
                0 <= k < seen.len() ==> #[trigger] seen[k] == (items@[k].0@, items@[k].1@)
        },
        Effect::Snapshots(record)@ == EffectView::Snapshots(record),
        Effect::Newline@ == EffectView::Newline,
        Effect::CursorStyle(shape)@ == EffectView::CursorStyle(shape),
        Effect::ModeHooks(mode)@ == EffectView::ModeHooks(mode),
        Effect::AddHistory(text)@ == EffectView::AddHistory(text@),
{
}

/// Lists are seen with as many elements and in the same order.
pub proof fn lists_are_seen_in_order(
    effects: Seq<Effect>,
    completions: Seq<Completion>,
    overlays: Seq<Overlay>,
)
    ensures
        effects_of(effects).len() == effects.len(),
        forall|k: int| 0 <= k < effects.len() ==> #[trigger] effects_of(effects)[k] == effects[k]@,
        completions_of(completions).len() == completions.len(),
        forall|k: int|
            0 <= k < completions.len() ==> #[trigger] completions_of(completions)[k]
                == completions[k]@,
        overlays_of(overlays).len() == overlays.len(),
        forall|k: int|
            0 <= k < overlays.len() ==> #[trigger] overlays_of(overlays)[k] == overlays[k]@,
{
}

/// No effect.
pub(crate) fn nothing() -> (effects: Vec<Effect>)
    ensures
        effects_of(effects@) == Seq::<EffectView>::empty(),
{
    let effects: Vec<Effect> = Vec::new();
    assert(effects_of(effects@) =~= Seq::empty());
    effects
}

/// One more effect behind the others.
pub(crate) fn and_also(effects: Vec<Effect>, effect: Effect) -> (all: Vec<Effect>)
    ensures
        effects_of(all@) == effects_of(effects@).push(effect@),
{
    let mut all = effects;
    all.push(effect);
    assert(effects_of(all@) =~= effects_of(effects@).push(effect@));
    all
}

/// One effect.
pub(crate) fn one(effect: Effect) -> (effects: Vec<Effect>)
    ensures
        effects_of(effects@) == seq![effect@],
{
    let effects = and_also(nothing(), effect);
    assert(effects_of(effects@) =~= seq![effect@]);
    effects
}

/// Two effects.
pub(crate) fn two(first: Effect, second: Effect) -> (effects: Vec<Effect>)
    ensures
        effects_of(effects@) == seq![first@, second@],
{
    let effects = and_also(one(first), second);
    assert(effects_of(effects@) =~= seq![first@, second@]);
    effects
}

/// Effects behind other effects.
pub(crate) fn followed_by(first: Vec<Effect>, second: Vec<Effect>) -> (all: Vec<Effect>)
    ensures
        effects_of(all@) == effects_of(first@) + effects_of(second@),
{
    let mut all = first;
    let mut rest = second;
    all.append(&mut rest);
    assert(effects_of(all@) =~= effects_of(first@) + effects_of(second@));
    all
}

} // verus!
