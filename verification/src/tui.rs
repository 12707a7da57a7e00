//! The terminal event source.
//!
//! The source multiplexes three concurrent signal generators — a tick timer,
//! a render timer, and a poll of the terminal input backend — into one
//! ordered stream of [`Event`]s, and owns the raw-mode / alternate-screen
//! lifecycle of the terminal.
//!
//! The timers, the input poll and the raw-mode toggling are blocking or
//! asynchronous terminal I/O and are performed by the embedding binary. What
//! stands here, verified, is everything those calls are driven by:
//!
//! - [`TuiState`], the lifecycle state machine (uninitialized / entered /
//!   exited) together with the terminal mode flags it saves and restores;
//! - [`source_step`], the decision the background multiplexer task makes for
//!   each signal that wakes it: which event to emit and whether to keep
//!   running;
//! - [`timer_fires`], the ideal (jitter-free) count of timer firings in a
//!   window, which pins down what the two periodic generators owe.

use vstd::prelude::*;

verus! {

/// A key code reported by the terminal, reduced to the plain values the
/// application policy can match on. Codes the policy never distinguishes
/// are folded into `Other`.
#[derive(Clone, Copy, Debug, PartialEq, Eq, Structural)]
pub enum KeyCode {
    Esc,
    Enter,
    Backspace,
    Tab,
    Left,
    Right,
    Up,
    Down,
    Home,
    End,
    PageUp,
    PageDown,
    Delete,
    Insert,
    F(u8),
    Char(char),
    Other,
}

/// Modifier bit for a held shift key in [`KeyEvent::modifiers`].
pub const MOD_SHIFT: u8 = 1;
/// Modifier bit for a held control key in [`KeyEvent::modifiers`].
pub const MOD_CONTROL: u8 = 2;
/// Modifier bit for a held alt key in [`KeyEvent::modifiers`].
pub const MOD_ALT: u8 = 4;

/// One key press as delivered by the terminal: a code plus a bitset of the
/// modifier keys held with it.
#[derive(Clone, Copy, Debug, PartialEq, Eq, Structural)]
pub struct KeyEvent {
    pub code: KeyCode,
    pub modifiers: u8,
}

/// What a mouse occurrence did.
#[derive(Clone, Copy, Debug, PartialEq, Eq, Structural)]
pub enum MouseKind {
    Down,
    Up,
    Drag,
    Moved,
    ScrollUp,
    ScrollDown,
}

/// One mouse occurrence: what happened and at which cell.
#[derive(Clone, Copy, Debug, PartialEq, Eq, Structural)]
pub struct MouseEvent {
    pub kind: MouseKind,
    pub column: u16,
    pub row: u16,
}

/// A typed signal delivered by the terminal source to the application loop.
/// Each value is produced exactly once per occurrence and has no identity
/// beyond its data.
#[derive(Clone, Debug)]
pub enum Event {
    /// The source has started.
    Init,
    /// The source asks the consumer to stop.
    Quit,
    /// A transient input read failed; the source keeps running.
    Error,
    /// The source hit an unrecoverable terminal failure and is closing.
    Closed,
    /// The tick timer fired.
    Tick,
    /// The render timer fired: a frame redraw is due.
    Render,
    FocusGained,
    FocusLost,
    Paste(String),
    Key(KeyEvent),
    Mouse(MouseEvent),
    Resize(u16, u16),
}

/// The error kinds the terminal source can report.
#[derive(Clone, Copy, Debug, PartialEq, Eq, Structural)]
pub enum TuiError {
    /// The terminal could not be placed into raw mode / the alternate
    /// screen; fatal, reported before the loop starts.
    Startup,
    /// A transient terminal read or write failed.
    Io,
    /// A draw call failed; the frame is skipped and the loop continues.
    Render,
    /// The background task did not stop within the bounded wait on exit;
    /// terminal restoration is attempted regardless.
    ShutdownTimeout,
    /// Configuration was attempted after the source had been entered.
    AlreadyEntered,
}

/// Where the source stands in its lifecycle.
#[derive(Clone, Copy, Debug, PartialEq, Eq, Structural)]
pub enum TuiMode {
    Uninitialized,
    Entered,
    Exited,
}

/// The two terminal mode flags the source toggles on entry and must hand
/// back unchanged on exit.
#[derive(Clone, Copy, Debug, PartialEq, Eq, Structural)]
pub struct TermFlags {
    pub raw_mode: bool,
    pub alternate_screen: bool,
}

/// The lifecycle state machine of the terminal source.
///
/// `flags` tracks the terminal mode flags as the source's toggles leave
/// them; `saved_flags` remembers the flags found at the last entry, so that
/// exit restores the terminal exactly as it was. The two periods are the
/// intervals of the tick and render timers, in milliseconds.
#[derive(Clone, Copy, Debug, PartialEq, Eq, Structural)]
pub struct TuiState {
    pub mode: TuiMode,
    pub flags: TermFlags,
    pub saved_flags: TermFlags,
    pub tick_period_ms: u64,
    pub frame_period_ms: u64,
}

impl TuiState {
    /// Both timer rates are strictly positive, so both periods are at least
    /// one millisecond.
    pub open spec fn wf(self) -> bool {
        self.tick_period_ms >= 1 && self.frame_period_ms >= 1
    }

    pub open spec fn entered(self) -> bool {
        self.mode == TuiMode::Entered
    }

    /// The state after a successful entry: raw mode and the alternate
    /// screen are on, the prior flags are saved, the source runs.
    pub open spec fn enter_transition(self) -> TuiState {
        TuiState {
            mode: TuiMode::Entered,
            flags: TermFlags { raw_mode: true, alternate_screen: true },
            saved_flags: self.flags,
            tick_period_ms: self.tick_period_ms,
            frame_period_ms: self.frame_period_ms,
        }
    }

    /// The state after an exit: if the source was entered, the flags found
    /// at entry are restored and the source is exited; otherwise nothing
    /// changes (exit is a no-op when there is nothing to undo).
    pub open spec fn exit_transition(self) -> TuiState {
        if self.entered() {
            TuiState {
                mode: TuiMode::Exited,
                flags: self.saved_flags,
                saved_flags: self.saved_flags,
                tick_period_ms: self.tick_period_ms,
                frame_period_ms: self.frame_period_ms,
            }
        } else {
            self
        }
    }

    /// A fresh, not yet entered source, with the terminal in cooked mode
    /// and the default rates of four ticks and roughly thirty frames per
    /// second.
    pub fn new() -> (s: TuiState)
        ensures
            s.mode == TuiMode::Uninitialized,
            s.flags == (TermFlags { raw_mode: false, alternate_screen: false }),
            s.saved_flags == s.flags,
            s.tick_period_ms == 250,
            s.frame_period_ms == 33,
            s.wf(),
    {
        TuiState {
            mode: TuiMode::Uninitialized,
            flags: TermFlags { raw_mode: false, alternate_screen: false },
            saved_flags: TermFlags { raw_mode: false, alternate_screen: false },
            tick_period_ms: 250,
            frame_period_ms: 33,
        }
    }

    /// Sets the timer periods. Configuration is immutable once entered:
    /// called on an entered source this fails and changes nothing.
    pub fn configure(&mut self, tick_period_ms: u64, frame_period_ms: u64) -> (r: Result<
        (),
        TuiError,
    >)
        requires
            tick_period_ms >= 1,
            frame_period_ms >= 1,
        ensures
            old(self).entered() ==> r == Err::<(), TuiError>(TuiError::AlreadyEntered)
                && *final(self) == *old(self),
            !old(self).entered() ==> r == Ok::<(), TuiError>(()) && *final(self) == (TuiState {
                tick_period_ms,
                frame_period_ms,
                ..*old(self)
            }),
    {
        if matches!(self.mode, TuiMode::Entered) {
            Err(TuiError::AlreadyEntered)
        } else {
            self.tick_period_ms = tick_period_ms;
            self.frame_period_ms = frame_period_ms;
            Ok(())
        }
    }

    /// Records an attempt to enter raw mode and the alternate screen, whose
    /// outcome the caller reports in `raw_mode_ok`. A source is entered at
    /// most once between exits, so entry from the entered state is ruled
    /// out. On success the source runs and, to prime the first render, at
    /// once owes the consumer the event [`priming_event`] returns; on
    /// failure nothing has been toggled and the startup error is reported.
    pub fn enter(&mut self, raw_mode_ok: bool) -> (r: Result<(), TuiError>)
        requires
            !old(self).entered(),
        ensures
            raw_mode_ok ==> r == Ok::<(), TuiError>(())
                && *final(self) == old(self).enter_transition(),
            !raw_mode_ok ==> r == Err::<(), TuiError>(TuiError::Startup)
                && *final(self) == *old(self),
    {
        if raw_mode_ok {
            self.saved_flags = self.flags;
            self.flags = TermFlags { raw_mode: true, alternate_screen: true };
            self.mode = TuiMode::Entered;
            Ok(())
        } else {
            Err(TuiError::Startup)
        }
    }

    /// Records an exit. The caller reports in `task_stopped` whether the
    /// background task terminated within the bounded wait; restoration of
    /// the terminal flags happens regardless, and a task that would not
    /// stop is reported as a shutdown timeout rather than swallowed. On a
    /// source that is not entered, exit is a no-op and never errs.
    pub fn exit(&mut self, task_stopped: bool) -> (r: Result<(), TuiError>)
        ensures
            *final(self) == old(self).exit_transition(),
            r == if old(self).entered() && !task_stopped {
                Err::<(), TuiError>(TuiError::ShutdownTimeout)
            } else {
                Ok::<(), TuiError>(())
            },
    {
        if matches!(self.mode, TuiMode::Entered) {
            self.flags = self.saved_flags;
            self.mode = TuiMode::Exited;
            if task_stopped {
                Ok(())
            } else {
                Err(TuiError::ShutdownTimeout)
            }
        } else {
            Ok(())
        }
    }

    /// Classifies the outcome of one draw call, which renders exactly one
    /// frame: a failed terminal write is a render error — the caller skips
    /// the frame and may retry on the next one. Drawing is only defined on
    /// an entered source.
    pub fn draw_outcome(&self, write_ok: bool) -> (r: Result<(), TuiError>)
        requires
            self.entered(),
        ensures
            r == if write_ok {
                Ok::<(), TuiError>(())
            } else {
                Err::<(), TuiError>(TuiError::Render)
            },
    {
        if write_ok {
            Ok(())
        } else {
            Err(TuiError::Render)
        }
    }
}

/// The event a freshly entered source emits before anything else, priming
/// the first render.
pub fn priming_event() -> (e: Event)
    ensures
        e == Event::Tick,
{
    Event::Tick
}

/// Law: entering and then immediately exiting hands the terminal mode flags
/// back exactly as they were before entry, and leaves the source exited.
pub proof fn lemma_enter_exit_restores_flags(s: TuiState)
    requires
        !s.entered(),
    ensures
        s.enter_transition().exit_transition().flags == s.flags,
        s.enter_transition().exit_transition().mode == TuiMode::Exited,
{
}

/// Law: exiting is idempotent — a second exit changes nothing, and since
/// the source is no longer entered after the first, [`TuiState::exit`]'s
/// contract makes the second call return `Ok` whatever is reported of the
/// background task.
pub proof fn lemma_exit_idempotent(s: TuiState)
    ensures
        s.exit_transition().exit_transition() == s.exit_transition(),
        !s.exit_transition().entered(),
{
}

/// A raw occurrence read from the terminal input backend, reduced to plain
/// values.
#[derive(Clone, Debug)]
pub enum RawInput {
    FocusGained,
    FocusLost,
    Key(KeyEvent),
    Mouse(MouseEvent),
    Paste(String),
    Resize(u16, u16),
}

/// One wake-up of the background multiplexer task: exactly one of its
/// generators fired, its input poll returned, or cancellation was
/// requested.
#[derive(Clone, Debug)]
pub enum SourceSignal {
    /// `exit` asked the task to stop.
    Cancel,
    /// The tick timer fired.
    TickTimer,
    /// The render timer fired.
    RenderTimer,
    /// The input poll delivered an occurrence.
    Input(RawInput),
    /// The input poll failed; `fatal` says whether the failure is an
    /// unrecoverable terminal failure or a transient read error.
    InputError { fatal: bool },
}

/// What the task does with one signal: the event it sends down the channel,
/// if any, and whether it stops (closing the channel) afterwards.
#[derive(Clone, Debug)]
pub struct SourceStep {
    pub emit: Option<Event>,
    pub stop: bool,
}

/// The event a raw input occurrence is forwarded as.
pub open spec fn raw_input_event(raw: RawInput) -> Event {
    match raw {
        RawInput::FocusGained => Event::FocusGained,
        RawInput::FocusLost => Event::FocusLost,
        RawInput::Key(k) => Event::Key(k),
        RawInput::Mouse(m) => Event::Mouse(m),
        RawInput::Paste(s) => Event::Paste(s),
        RawInput::Resize(w, h) => Event::Resize(w, h),
    }
}

/// The event emitted for one signal: timers emit their event, input is
/// forwarded, a transient read error becomes `Error`, an unrecoverable one
/// becomes `Closed`, and cancellation emits nothing. No signal is dropped
/// or coalesced.
pub open spec fn source_emit(sig: SourceSignal) -> Option<Event> {
    match sig {
        SourceSignal::Cancel => None,
        SourceSignal::TickTimer => Some(Event::Tick),
        SourceSignal::RenderTimer => Some(Event::Render),
        SourceSignal::Input(raw) => Some(raw_input_event(raw)),
        SourceSignal::InputError { fatal } => Some(
            if fatal {
                Event::Closed
            } else {
                Event::Error
            },
        ),
    }
}

/// Whether the task stops after one signal: only on explicit cancellation
/// or on an unrecoverable terminal failure; transient input errors never
/// stop it.
pub open spec fn source_stops(sig: SourceSignal) -> bool {
    match sig {
        SourceSignal::Cancel => true,
        SourceSignal::InputError { fatal } => fatal,
        _ => false,
    }
}

/// The decision the background task makes on each wake-up.
pub fn source_step(sig: SourceSignal) -> (r: SourceStep)
    ensures
        r.emit == source_emit(sig),
        r.stop == source_stops(sig),
{
    match sig {
        SourceSignal::Cancel => SourceStep { emit: None, stop: true },
        SourceSignal::TickTimer => SourceStep { emit: Some(Event::Tick), stop: false },
        SourceSignal::RenderTimer => SourceStep { emit: Some(Event::Render), stop: false },
        SourceSignal::Input(raw) => {
            let event = match raw {
                RawInput::FocusGained => Event::FocusGained,
                RawInput::FocusLost => Event::FocusLost,
                RawInput::Key(k) => Event::Key(k),
                RawInput::Mouse(m) => Event::Mouse(m),
                RawInput::Paste(s) => Event::Paste(s),
                RawInput::Resize(w, h) => Event::Resize(w, h),
            };
            SourceStep { emit: Some(event), stop: false }
        },
        SourceSignal::InputError { fatal } => {
            if fatal {
                SourceStep { emit: Some(Event::Closed), stop: true }
            } else {
                SourceStep { emit: Some(Event::Error), stop: false }
            }
        },
    }
}

/// How often an ideal periodic timer with the given period fires within a
/// window: once each full period. The real timers are subject to
/// scheduling jitter around this count.
pub fn timer_fires(window_ms: u64, period_ms: u64) -> (n: u64)
    requires
        period_ms >= 1,
    ensures
        n == window_ms as int / period_ms as int,
{
    window_ms / period_ms
}

} // verus!
