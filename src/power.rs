use vstd::prelude::*;

verus! {

/// Power mode of the chip.
#[derive(Clone, Copy, Debug, PartialEq, Eq, Structural)]
pub enum Mode {
    ConstantLatency,
    LowPower,
}

/// A power event.
#[derive(Clone, Copy, Debug, PartialEq, Eq, Structural)]
pub enum Event {
    NoEvent,
    SleepEnter,
    SleepExit,
}

/// The event that the two event flags report; leaving sleep goes before entering it.
pub fn get_event(sleep_exit: bool, sleep_enter: bool) -> (r: Event)
    ensures
        r == (if sleep_exit {
            Event::SleepExit
        } else if sleep_enter {
            Event::SleepEnter
        } else {
            Event::NoEvent
        }),
{
    if sleep_exit {
        return Event::SleepExit;
    }
    if sleep_enter {
        return Event::SleepEnter;
    }
    Event::NoEvent
}

} // verus!
