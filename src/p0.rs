use vstd::prelude::*;

verus! {

/// Direction of a pin.
#[derive(Clone, Copy, Debug, PartialEq, Eq, Structural)]
pub enum Dir {
    Input,
    Output,
}

/// Pull resistor of a pin.
#[derive(Clone, Copy, Debug, PartialEq, Eq, Structural)]
pub enum Pull {
    Disabled,
    PullUp,
    PullDown,
}

/// Drive strength of a pin for a low and a high level: standard, high, or disconnected.
#[derive(Clone, Copy, Debug, PartialEq, Eq, Structural)]
pub enum Drive {
    S0S1,
    H0S1,
    S0H1,
    H0H1,
    D0S1,
    D0H1,
    S0D1,
    H0D1,
}

/// Level that a pin senses.
#[derive(Clone, Copy, Debug, PartialEq, Eq, Structural)]
pub enum Sense {
    Disabled,
    High,
    Low,
}

/// Whether a pin's input buffer is connected.
#[derive(Clone, Copy, Debug, PartialEq, Eq, Structural)]
pub enum Input {
    Connect,
    Disconnect,
}

} // verus!
