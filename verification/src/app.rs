//! The application dispatch loop.
//!
//! [`App`] consumes the event stream of the terminal source one event at a
//! time: it maps the event to at most one initial action, sends it into a
//! FIFO action queue, then drains the queue, applying each action to the
//! application state — an applied action may send a follow-up action,
//! chaining until the queue is empty again. The loop draws when a render is
//! due (and a final time before quitting) and stops once an applied action
//! has set the quit flag.
//!
//! The suspension on the next event, the draw call and the terminal
//! lifecycle live in the embedding binary; [`App::process_event`] is the
//! complete, verified body of one loop iteration, and [`App::run_events`]
//! is the loop itself over any finite stream of events.

use vstd::prelude::*;

use crate::action::Action;
use crate::tui::{Event, KeyCode, KeyEvent};

verus! {

/// The FIFO queue of pending actions, backed by a tokio unbounded mpsc
/// channel whose two halves it owns. Owning both halves keeps the channel
/// open for as long as the queue lives, so sending cannot fail and
/// receiving cannot observe a disconnect.
#[verifier::external_body]
pub struct ActionQueue {
    tx: tokio::sync::mpsc::UnboundedSender<Action>,
    rx: tokio::sync::mpsc::UnboundedReceiver<Action>,
}

/// The actions sent into the queue and not yet received, oldest first.
pub uninterp spec fn queue_actions(q: ActionQueue) -> Seq<Action>;

impl ActionQueue {
    /// Relies on tokio::sync::mpsc::unbounded_channel: a freshly created
    /// channel buffers no messages.
    #[verifier::external_body]
    pub(crate) fn new() -> (q: ActionQueue)
        ensures
            queue_actions(q) == Seq::<Action>::empty(),
    {
        let (tx, rx) = tokio::sync::mpsc::unbounded_channel();
        ActionQueue { tx, rx }
    }

    /// Relies on tokio::sync::mpsc::UnboundedSender::send: on an unbounded
    /// channel it buffers the message behind those already sent, without
    /// blocking, and succeeds whenever the receive half is alive — which it
    /// is here, since this queue owns it.
    #[verifier::external_body]
    pub(crate) fn push(&mut self, action: Action)
        ensures
            queue_actions(*final(self)) == queue_actions(*old(self)).push(action),
    {
        let _ = self.tx.send(action);
    }

    /// Relies on tokio::sync::mpsc::UnboundedReceiver::try_recv: it returns
    /// the oldest buffered message, or the empty error — never spuriously —
    /// when nothing is buffered; a disconnect cannot be observed here,
    /// since this queue owns the send half.
    #[verifier::external_body]
    pub(crate) fn try_pop(&mut self) -> (r: Option<Action>)
        ensures
            queue_actions(*old(self)).len() == 0 ==> r is None && queue_actions(*final(self))
                == queue_actions(*old(self)),
            queue_actions(*old(self)).len() > 0 ==> r == Some(queue_actions(*old(self)).first())
                && queue_actions(*final(self)) == queue_actions(*old(self)).drop_first(),
    {
        match self.rx.try_recv() {
            Ok(action) => Some(action),
            Err(_) => None,
        }
    }
}

/// The action a key event is mapped to: `Esc` asks to quit, whatever the
/// modifiers; every other key is ignored.
pub open spec fn key_action(event: KeyEvent) -> Option<Action> {
    if event.code == KeyCode::Esc {
        Some(Action::Quit)
    } else {
        None
    }
}

/// The initial action an event is mapped to: a tick asks for per-tick
/// bookkeeping, a render request asks for a redraw, a key event goes
/// through the key policy, and every other event produces no action.
pub open spec fn event_action(event: Event) -> Option<Action> {
    match event {
        Event::Tick => Some(Action::Tick),
        Event::Render => Some(Action::Render),
        Event::Key(k) => key_action(k),
        _ => None,
    }
}

/// Whether processing an event quits the loop.
pub open spec fn quits(event: Event) -> bool {
    event_action(event) == Some(Action::Quit)
}

/// The index of the first event of `events` that quits the loop, or
/// `events.len()` if none does.
pub open spec fn first_quit(events: Seq<Event>) -> int
    decreases events.len(),
{
    if events.len() == 0 {
        0
    } else if quits(events[0]) {
        0
    } else {
        1 + first_quit(events.drop_first())
    }
}

/// `first_quit` finds what its name says: an index within bounds, with no
/// quitting event before it, and a quitting event at it unless there is
/// none at all.
pub proof fn lemma_first_quit(events: Seq<Event>)
    ensures
        0 <= first_quit(events) <= events.len(),
        forall|j: int| 0 <= j < first_quit(events) ==> !quits(events[j]),
        first_quit(events) < events.len() ==> quits(events[first_quit(events)]),
    decreases events.len(),
{
    if events.len() == 0 {
    } else if quits(events[0]) {
    } else {
        let rest = events.drop_first();
        lemma_first_quit(rest);
        assert forall|j: int| 0 <= j < first_quit(events) implies !quits(events[j]) by {
            if j >= 1 {
                assert(rest[j - 1] == events[j]);
            }
        }
        if first_quit(events) < events.len() {
            assert(rest[first_quit(events) - 1] == events[first_quit(events)]);
        }
    }
}

/// What one loop iteration asks of the embedding binary: whether a frame
/// must be drawn before the next suspension, and whether the loop stops
/// after this iteration.
#[derive(Clone, Copy, Debug, PartialEq, Eq, Structural)]
pub struct EventOutcome {
    pub draw: bool,
    pub quit: bool,
}

/// The application state: the quit flag that terminates the loop, and the
/// queue of pending actions. Both are owned exclusively by the dispatch
/// loop; nothing else reads or mutates them.
pub struct App {
    should_quit: bool,
    queue: ActionQueue,
}

impl App {
    /// The quit flag: set once a quit action has been applied.
    pub closed spec fn quit_flag(self) -> bool {
        self.should_quit
    }

    /// The pending actions, oldest first.
    pub closed spec fn pending(self) -> Seq<Action> {
        queue_actions(self.queue)
    }

    /// Between events the action queue is fully drained.
    pub open spec fn idle(self) -> bool {
        self.pending().len() == 0
    }

    /// A fresh application: not quitting, nothing pending.
    pub fn new() -> (app: App)
        ensures
            !app.quit_flag(),
            app.idle(),
    {
        App { should_quit: false, queue: ActionQueue::new() }
    }

    /// Reads the quit flag.
    pub fn should_quit(&self) -> (quit: bool)
        ensures
            quit == self.quit_flag(),
    {
        self.should_quit
    }

    /// Maps one key event to at most one action: `Esc` quits regardless of
    /// modifiers, every other key is ignored — not an error.
    pub fn handle_key_event(&self, event: KeyEvent) -> (r: Option<Action>)
        ensures
            r == key_action(event),
    {
        match event.code {
            KeyCode::Esc => Some(Action::Quit),
            _ => None,
        }
    }

    /// Maps one event to at most one initial action, keyed on the event
    /// variant alone — pure and side-effect-free.
    pub fn handle_event(&self, event: &Event) -> (r: Option<Action>)
        ensures
            r == event_action(*event),
    {
        match event {
            Event::Tick => Some(Action::Tick),
            Event::Render => Some(Action::Render),
            Event::Key(k) => self.handle_key_event(*k),
            _ => None,
        }
    }

    /// Per-tick bookkeeping. A placeholder point for application logic:
    /// it changes nothing.
    pub fn tick(&mut self)
        ensures
            *final(self) == *old(self),
    {
    }

    /// Applies one action to the state and returns the follow-up action it
    /// asks to chain. Applying never fails, only a quit action changes the
    /// state — it sets the quit flag — and no action here asks for a
    /// follow-up, so every chain ends after its first action.
    pub fn handle_action(&mut self, action: Action) -> (r: Option<Action>)
        ensures
            r is None,
            final(self).quit_flag() == (old(self).quit_flag() || action == Action::Quit),
            final(self).pending() == old(self).pending(),
    {
        match action {
            Action::Tick => self.tick(),
            Action::Quit => self.should_quit = true,
            Action::Render => {},
        }
        None
    }

    /// One complete loop iteration on one received event, everything
    /// between two suspensions: the event is mapped to its initial action,
    /// the action is sent into the queue, and the queue is drained,
    /// applying each action and chaining its follow-up, until it is empty.
    ///
    /// The outcome asks for a draw exactly when a render action or a quit
    /// action was applied (the redraw that is due, or the final frame
    /// before the loop stops), never mid-chain; and it asks to stop exactly
    /// when the quit flag is set afterwards — so once an action has set the
    /// flag the loop ends with the iteration that applied it.
    pub fn process_event(&mut self, event: &Event) -> (r: EventOutcome)
        requires
            old(self).idle(),
        ensures
            final(self).idle(),
            final(self).quit_flag() == (old(self).quit_flag() || event_action(*event) == Some(
                Action::Quit,
            )),
            r.quit == final(self).quit_flag(),
            r.draw == (event_action(*event) == Some(Action::Render) || event_action(*event)
                == Some(Action::Quit)),
    {
        let ghost initial: Option<Action> = event_action(*event);
        let ghost old_quit: bool = self.quit_flag();
        let mapped = self.handle_event(event);
        match mapped {
            Some(action) => self.queue.push(action),
            None => {},
        }
        proof {
            assert(match initial {
                Some(a) => self.pending() =~= Seq::<Action>::empty().push(a),
                None => self.pending() =~= Seq::<Action>::empty(),
            });
        }
        let mut draw: bool = false;
        loop
            invariant
                (self.quit_flag() == old_quit && !draw && (match initial {
                    Some(a) => self.pending() == Seq::<Action>::empty().push(a),
                    None => self.pending().len() == 0,
                })) || (self.pending().len() == 0 && self.quit_flag() == (old_quit || initial
                    == Some(Action::Quit)) && draw == (initial == Some(Action::Render) || initial
                    == Some(Action::Quit))),
            ensures
                self.pending().len() == 0,
                self.quit_flag() == (old_quit || initial == Some(Action::Quit)),
                draw == (initial == Some(Action::Render) || initial == Some(Action::Quit)),
            decreases self.pending().len(),
        {
            match self.queue.try_pop() {
                Some(action) => {
                    let follow = self.handle_action(action);
                    match follow {
                        Some(chained) => self.queue.push(chained),
                        None => {},
                    }
                    if matches!(action, Action::Render | Action::Quit) {
                        draw = true;
                    }
                },
                None => { break; },
            }
        }
        let quit = self.should_quit;
        EventOutcome { draw, quit }
    }

    /// The dispatch loop over a finite stream of events, processed strictly
    /// in order, each one fully — through its entire action chain — before
    /// the next. Returns how many events were processed: once an event's
    /// action sets the quit flag the loop stops with that very iteration,
    /// so everything after the first quitting event is left unprocessed;
    /// with no quitting event the whole stream is consumed and the loop
    /// ends with the stream.
    pub fn run_events(&mut self, events: &Vec<Event>) -> (n: usize)
        requires
            old(self).idle(),
            !old(self).quit_flag(),
        ensures
            final(self).idle(),
            final(self).quit_flag() == (first_quit(events@) < events@.len()),
            n == if first_quit(events@) < events@.len() {
                first_quit(events@) + 1
            } else {
                events@.len() as int
            },
    {
        let mut i: usize = 0;
        while i < events.len() && !self.should_quit
            invariant
                i <= events@.len(),
                self.idle(),
                !self.quit_flag() ==> forall|j: int| 0 <= j < i ==> !quits(events@[j]),
                self.quit_flag() ==> i >= 1 && quits(events@[i - 1]) && (forall|j: int|
                    0 <= j < i - 1 ==> !quits(events@[j])),
            decreases events@.len() - i,
        {
            let _outcome = self.process_event(&events[i]);
            i = i + 1;
        }
        proof {
            lemma_first_quit(events@);
        }
        i
    }
}

} // verus!
