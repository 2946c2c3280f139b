use vstd::prelude::*;

verus! {

/// Clock speed of the two-wire bus.
#[derive(Clone, Copy, Debug, PartialEq, Eq, Structural)]
pub enum Frequency {
    K100,
    K250,
    K400,
}

#[derive(Clone, Copy, Debug, PartialEq, Eq, Structural)]
pub enum Error {
    Transmit,
}

/// The outcome of a bus transfer that has stopped: `Transmit` where the error event came.
pub fn transfer_result(error: bool) -> (r: Result<(), Error>)
    ensures
        r is Ok <==> !error,
        r matches Err(e) ==> e == Error::Transmit,
{
    if error {
        Err(Error::Transmit)
    } else {
        Ok(())
    }
}

} // verus!
