//! The decision core of an interactive line reader with vi modes, history browsing,
//! completion and a prompt painter.
//!
//! The crate owns every decision: which edit a key asks for, when a line is submitted, how
//! history is browsed, what the screen has to show. It performs none of them. Each decision
//! is a [`Step`]: the effects to carry out, in order, and the question to answer next. The
//! program around the crate carries the effects out, and answers the question together with a
//! [`Snapshot`] of what it sees then. An effect that cannot be carried out ends the reading,
//! and what would follow it is not carried out.
//!
//! - [`line`] holds the reader and its parts, [`ctx`] the state of one reading.
//! - [`keys`] says what each key does, [`session`] which question follows on which answer.
//! - [`history`] keeps the place in history, [`painter`] the place on the screen.
//! - [`laws`], [`turn_laws`], [`edits`] and [`paint_laws`] state what holds of every reading, of
//!   every step, of the edited text and of every frame.
#![allow(unused_imports)]

pub mod ctx;
pub mod edits;
pub mod effect;
pub mod event;
pub mod history;
pub mod keys;
pub mod laws;
pub mod line;
pub mod paint_laws;
pub mod painter;
pub mod session;
pub mod text;
pub mod turn_laws;

pub use ctx::{Input, LineCtx, Next, Phase, Snapshot, Step};
pub use effect::{
    Action, Color, Command, Completion, CursorShape, Effect, LineMode, Location, MenuCommand,
    Motion, Overlay, ReplaceMethod, SnapshotCommand,
};
pub use event::{Event, KeyCode, KeyEvent, KeyModifiers};
pub use history::HistoryInd;
pub use line::{Line, LineBuilder, LineBuilderError};
pub use painter::{Frame, PaintOp, Painter};
