//! What goes into the filter and what comes out of it.

use vstd::prelude::*;

use crate::keys::Key;
use crate::scroll::ScrollDirection;

verus! {

/// How long the sender rests after each synthetic event that it injects on
/// behalf of the filter, in milliseconds, whether or not the injection
/// worked.
pub const SEND_SETTLE_MS: u64 = 5;

/// A point on the screen, in whole pixels.
#[derive(Clone, Copy, Debug, PartialEq, Eq, Structural)]
pub struct Point {
    pub x: i64,
    pub y: i64,
}

/// A mouse button that the engine can press.
#[derive(Clone, Copy, Debug, PartialEq, Eq, Structural)]
pub enum Button {
    Left,
    Right,
}

/// One input event, as the hook delivers it.
#[derive(Clone, Copy, Debug, PartialEq, Eq, Structural)]
pub enum Event {
    /// The pointer was moved by the user or by the system.
    PointerMove { x: i64, y: i64 },
    KeyPress(Key),
    KeyRelease(Key),
    /// Any other kind of event.
    Other,
}

/// What the caller is to do for one filtered event. There is never more than
/// one thing to do.
#[derive(Clone, Copy, Debug, PartialEq, Eq, Structural)]
pub enum Action {
    /// Nothing is to be done.
    Nothing,
    /// Move the pointer to this point.
    MoveTo(Point),
    ButtonDown(Button),
    ButtonUp(Button),
    /// Start a scroll gesture of its own, which runs to its end beside
    /// whatever else is going on.
    Scroll(ScrollDirection),
    /// End the program.
    Exit,
}

/// Whether the event goes on to other listeners.
#[derive(Clone, Copy, Debug, PartialEq, Eq, Structural)]
pub enum Verdict {
    /// The event is swallowed.
    Consumed,
    /// The event is passed on as it came.
    Forwarded(Event),
}

/// The filter's answer to one event.
#[derive(Clone, Copy, Debug, PartialEq, Eq, Structural)]
pub struct Outcome {
    pub verdict: Verdict,
    pub action: Action,
}

impl Outcome {
    /// The answer that swallows the event and asks for `action`.
    pub open spec fn consumed(action: Action) -> Outcome {
        Outcome { verdict: Verdict::Consumed, action }
    }

    /// The answer that passes `event` on and asks for nothing.
    pub open spec fn forwarded(event: Event) -> Outcome {
        Outcome { verdict: Verdict::Forwarded(event), action: Action::Nothing }
    }

    /// Whether the event is swallowed.
    pub fn is_consumed(&self) -> (c: bool)
        ensures
            c == (self.verdict == Verdict::Consumed),
    {
        match self.verdict {
            Verdict::Consumed => true,
            Verdict::Forwarded(_) => false,
        }
    }
}

} // verus!
