use vstd::prelude::*;

verus! {

/// One operation on the two-wire bus.
#[derive(Debug, PartialEq, Eq)]
pub enum BusOp {
    /// Write these bytes to the device at `address`.
    Write { address: u8, bytes: Vec<u8> },
    /// Read `len` bytes from the device at `address`.
    Read { address: u8, len: usize },
    /// Wait this many milliseconds.
    DelayMs { ms: u32 },
}

pub enum BusOpView {
    Write { address: u8, bytes: Seq<u8> },
    Read { address: u8, len: nat },
    DelayMs { ms: u32 },
}

impl View for BusOp {
    type V = BusOpView;

    open spec fn view(&self) -> BusOpView {
        match self {
            BusOp::Write { address, bytes } => BusOpView::Write { address: *address, bytes: bytes@ },
            BusOp::Read { address, len } => BusOpView::Read { address: *address, len: *len as nat },
            BusOp::DelayMs { ms } => BusOpView::DelayMs { ms: *ms },
        }
    }
}

/// What a driver asks next: one more bus operation, or nothing more, with its result.
#[derive(Debug, PartialEq, Eq)]
pub enum Step<R> {
    Issue(BusOp),
    Finish(R),
}

/// The results handed back fit the operations issued: no more results than operations, every
/// one but the last a success, and each successful read as long as it was asked to be.
pub open spec fn results_fit<E>(ops: Seq<BusOpView>, done: Seq<Result<Vec<u8>, E>>) -> bool {
    &&& done.len() <= ops.len()
    &&& forall|i: int| 0 <= i < done.len() - 1 ==> #[trigger] done[i] is Ok
    &&& forall|i: int|
        0 <= i < done.len() ==> (#[trigger] done[i] matches Ok(b) ==> (ops[i] matches BusOpView::Read {
            len,
            ..
        } ==> b@.len() == len))
}

/// The last result is a bus error.
pub open spec fn failed<E>(done: Seq<Result<Vec<u8>, E>>) -> bool {
    done.len() > 0 && done.last() is Err
}

/// The bus error that the last result holds.
pub open spec fn last_error<E>(done: Seq<Result<Vec<u8>, E>>) -> E {
    done.last()->Err_0
}

/// The bus error of the last result, if it is one.
pub fn last_failure<E: Copy>(done: &[Result<Vec<u8>, E>]) -> (r: Option<E>)
    ensures
        r is Some <==> failed(done@),
        r matches Some(e) ==> e == last_error(done@),
{
    let n = done.len();
    if n == 0 {
        return None;
    }
    match &done[n - 1] {
        Ok(_) => None,
        Err(e) => Some(*e),
    }
}

/// A write of `bytes` to `address`.
pub fn write_op(address: u8, b0: u8, b1: Option<u8>) -> (r: BusOp)
    ensures
        r@ == (BusOpView::Write {
            address,
            bytes: match b1 {
                Some(b) => seq![b0, b],
                None => seq![b0],
            },
        }),
{
    let mut bytes: Vec<u8> = Vec::new();
    bytes.push(b0);
    match b1 {
        Some(b) => {
            bytes.push(b);
        },
        None => {},
    }
    let r = BusOp::Write { address, bytes };
    proof {
        match b1 {
            Some(b) => {
                assert(bytes@ =~= seq![b0, b]);
            },
            None => {
                assert(bytes@ =~= seq![b0]);
            },
        }
    }
    r
}

} // verus!
