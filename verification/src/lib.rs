//! Core of an interactive terminal application's event/render loop.
//!
//! The crate is split along the two halves of such a loop:
//!
//! - [`tui`] models the terminal event source: the typed events it emits,
//!   the raw-mode / alternate-screen lifecycle it owns, and the decisions
//!   its background multiplexer task makes each time a timer fires, input
//!   arrives, or cancellation is requested.
//! - [`action`] defines the application-level intents that events are
//!   mapped to.
//! - [`app`] is the application dispatch loop: it maps one event to at most
//!   one initial action, applies actions to the application state through a
//!   FIFO action queue (chaining until the queue is drained), and decides
//!   when a frame must be drawn and when the loop must stop.
//!
//! The blocking terminal I/O itself (raw-mode toggling, the draw call, the
//! timers) is performed by the embedding binary; this crate holds the state
//! machines those calls are driven by, with their contracts proved.

pub mod action;
pub mod app;
pub mod tui;

pub use action::Action;
pub use app::App;
