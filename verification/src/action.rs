//! Application-level intents produced by mapping terminal events through
//! the application's policy.

use vstd::prelude::*;

verus! {

/// An application-level intent. An action is a request, not a state:
/// applying it through the dispatch loop is the only way it has effect.
///
/// `Tick` asks for per-tick bookkeeping, `Render` signals that a frame
/// redraw is due, and `Quit` asks the loop to terminate.
#[derive(Clone, Copy, Debug, PartialEq, Eq, Structural)]
pub enum Action {
    Tick,
    Render,
    Quit,
}

} // verus!
