//! The line reader and its parts.

use crate::painter::Painter;
use vstd::prelude::*;

verus! {

/// Configuration for readline: the completion menu `M`, the completer `C`, the record `B` of
/// earlier states of the edited text, the highlighter `H`, the prompt `P` and the
/// autosuggester `A`, next to what the reader keeps between readings.
pub struct Line<M, C, B, H, P, A> {
    /// Completion menu
    pub menu: M,
    /// Completion system
    pub completer: C,
    /// Earlier states of the edited text
    pub buffer_history: B,
    /// Syntax highlighter
    pub highlighter: H,
    /// Custom prompt
    pub prompt: P,
    /// Where the prompt stands on the screen
    pub painter: Painter,
    /// Currently pressed keys in normal mode
    pub normal_keys: String,
    /// Autosuggestion
    pub autosuggester: A,
}

/// What the reader keeps between readings, by its texts.
pub struct LineView {
    pub painter: Painter,
    pub normal_keys: Seq<char>,
}

impl<M, C, B, H, P, A> View for Line<M, C, B, H, P, A> {
    type V = LineView;

    open spec fn view(&self) -> LineView {
        LineView { painter: self.painter, normal_keys: self.normal_keys@ }
    }
}

impl<M, C, B, H, P, A> Line<M, C, B, H, P, A> {
    /// A reader is seen by its painter and the pressed keys.
    pub proof fn painter_and_keys_are_seen(self)
        ensures
            self@.painter == self.painter,
            self@.normal_keys == self.normal_keys@,
    {
    }

    /// Whether both lines are made of the same parts.
    pub open spec fn same_parts(self, other: Self) -> bool {
        &&& self.menu == other.menu
        &&& self.completer == other.completer
        &&& self.buffer_history == other.buffer_history
        &&& self.highlighter == other.highlighter
        &&& self.prompt == other.prompt
        &&& self.autosuggester == other.autosuggester
    }
}

impl LineView {
    /// What a new line keeps.
    pub open spec fn fresh() -> LineView {
        LineView {
            painter: Painter { term_size: (0, 0), prompt_line: 0, num_newlines: 0 },
            normal_keys: seq![],
        }
    }
}

/// Whether `part` is the one that was chosen, or a default where none was.
pub open spec fn chosen_or_default<T: Default>(chosen: Option<T>, part: T) -> bool {
    match chosen {
        Some(c) => part == c,
        None => call_ensures(T::default, (), part),
    }
}

/// A part that was chosen is the one that is taken, and where none was, it is one that the
/// default of its type gives.
pub proof fn chosen_part_is_taken<T: Default>(chosen: T, part: T)
    ensures
        chosen_or_default(Some(chosen), part) <==> part == chosen,
        chosen_or_default(None::<T>, part) <==> call_ensures(T::default, (), part),
{
}

/// The chosen part, or a default.
fn or_default<T: Default>(chosen: Option<T>) -> (part: T)
    ensures
        chosen_or_default(chosen, part),
{
    match chosen {
        Some(part) => part,
        None => T::default(),
    }
}

impl<M: Default, C: Default, B: Default, H: Default, P: Default, A: Default> Default for Line<
    M,
    C,
    B,
    H,
    P,
    A,
> {
    fn default() -> (line: Self)
        ensures
            line@ == LineView::fresh(),
            line.painter == (Painter { term_size: (0, 0), prompt_line: 0, num_newlines: 0 }),
            line.normal_keys@ == Seq::<char>::empty(),
            call_ensures(M::default, (), line.menu),
            call_ensures(C::default, (), line.completer),
            call_ensures(B::default, (), line.buffer_history),
            call_ensures(H::default, (), line.highlighter),
            call_ensures(P::default, (), line.prompt),
            call_ensures(A::default, (), line.autosuggester),
    {
        let builder: LineBuilder<M, C, B, H, P, A> = LineBuilder::default();
        builder.build().unwrap()
    }
}

/// What keeps a line from being built. Every part of a line has a default and no choice is
/// refused, so that nothing does.
#[derive(Debug)]
#[non_exhaustive]
pub enum LineBuilderError {
    /// A part has neither been chosen nor a default
    UninitializedField(&'static str),
    /// The chosen parts are refused
    ValidationError(String),
}

/// The parts that have been chosen for a line.
pub struct LineBuilder<M, C, B, H, P, A> {
    pub menu: Option<M>,
    pub completer: Option<C>,
    pub buffer_history: Option<B>,
    pub highlighter: Option<H>,
    pub prompt: Option<P>,
    pub autosuggester: Option<A>,
}

impl<M, C, B, H, P, A> Default for LineBuilder<M, C, B, H, P, A> {
    fn default() -> (builder: Self)
        ensures
            builder.menu is None,
            builder.completer is None,
            builder.buffer_history is None,
            builder.highlighter is None,
            builder.prompt is None,
            builder.autosuggester is None,
    {
        LineBuilder {
            menu: None,
            completer: None,
            buffer_history: None,
            highlighter: None,
            prompt: None,
            autosuggester: None,
        }
    }
}

impl<M, C, B, H, P, A> LineBuilder<M, C, B, H, P, A> {
    /// Choose the completion menu.
    pub fn with_menu(self, menu: M) -> (builder: Self)
        ensures
            builder == (LineBuilder { menu: Some(menu), ..self }),
    {
        let mut builder = self;
        builder.menu = Some(menu);
        builder
    }

    /// Choose the completion system.
    pub fn with_completer(self, completer: C) -> (builder: Self)
        ensures
            builder == (LineBuilder { completer: Some(completer), ..self }),
    {
        let mut builder = self;
        builder.completer = Some(completer);
        builder
    }

    /// Choose the syntax highlighter.
    pub fn with_highlighter(self, highlighter: H) -> (builder: Self)
        ensures
            builder == (LineBuilder { highlighter: Some(highlighter), ..self }),
    {
        let mut builder = self;
        builder.highlighter = Some(highlighter);
        builder
    }

    /// Choose the prompt.
    pub fn with_prompt(self, prompt: P) -> (builder: Self)
        ensures
            builder == (LineBuilder { prompt: Some(prompt), ..self }),
    {
        let mut builder = self;
        builder.prompt = Some(prompt);
        builder
    }
}

impl<M: Default, C: Default, B: Default, H: Default, P: Default, A: Default> LineBuilder<
    M,
    C,
    B,
    H,
    P,
    A,
> {
    /// The line made of the chosen parts, with a default for each part that was not chosen.
    /// It can always be built.
    pub fn build(self) -> (built: Result<Line<M, C, B, H, P, A>, LineBuilderError>)
        ensures
            built matches Ok(line) && {
                &&& line@ == LineView::fresh()
                &&& line.painter == (Painter {
                    term_size: (0, 0),
                    prompt_line: 0,
                    num_newlines: 0,
                })
                &&& line.normal_keys@ == Seq::<char>::empty()
                &&& chosen_or_default(self.menu, line.menu)
                &&& chosen_or_default(self.completer, line.completer)
                &&& chosen_or_default(self.buffer_history, line.buffer_history)
                &&& chosen_or_default(self.highlighter, line.highlighter)
                &&& chosen_or_default(self.prompt, line.prompt)
                &&& chosen_or_default(self.autosuggester, line.autosuggester)
            },
    {
        let line = Line {
            menu: or_default(self.menu),
            completer: or_default(self.completer),
            buffer_history: or_default(self.buffer_history),
            highlighter: or_default(self.highlighter),
            prompt: or_default(self.prompt),
            painter: Painter::default(),
            normal_keys: String::new(),
            autosuggester: or_default(self.autosuggester),
        };
        Ok(line)
    }
}

} // verus!
