use vstd::prelude::*;

use core::marker::PhantomData;

verus! {

/// The phase of a peripheral handle.
pub trait State {}

/// A handle whose operation is outstanding: it can only be completed.
pub struct Active;

/// A handle with no operation outstanding: it can start one.
pub struct Inactive;

impl State for Active {}

impl State for Inactive {}

/// The random number generator's handle, tagged with its phase. A transition consumes the
/// handle and returns it in the other phase, so no second draw can start while one is
/// outstanding.
pub struct Rng<P, S: State> {
    peripheral: P,
    marker: PhantomData<S>,
}

impl<P, S: State> Rng<P, S> {
    pub closed spec fn peripheral_view(&self) -> P {
        self.peripheral
    }

    /// The peripheral that the handle owns.
    pub fn peripheral(&self) -> (r: &P)
        ensures
            *r == self.peripheral_view(),
    {
        &self.peripheral
    }
}

impl<P> Rng<P, Inactive> {
    /// Takes ownership of the peripheral, idle.
    pub fn new(peripheral: P) -> (r: Rng<P, Inactive>)
        ensures
            r.peripheral_view() == peripheral,
    {
        Rng { peripheral, marker: PhantomData }
    }

    /// Starts a draw: the handle becomes active.
    pub fn start_getting_value(self) -> (r: Rng<P, Active>)
        ensures
            r.peripheral_view() == self.peripheral_view(),
    {
        Rng { peripheral: self.peripheral, marker: PhantomData }
    }
}

impl<P> Rng<P, Active> {
    /// The draw has completed: the handle is idle again.
    pub fn complete(self) -> (r: Rng<P, Inactive>)
        ensures
            r.peripheral_view() == self.peripheral_view(),
    {
        Rng { peripheral: self.peripheral, marker: PhantomData }
    }
}

} // verus!
