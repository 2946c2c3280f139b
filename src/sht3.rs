use vstd::prelude::*;

use crate::exchange::{
    failed, last_error, last_failure, results_fit, write_op, BusOp, BusOpView, Step,
};
use crate::sht4x::{check_reply, crc8_spec, crc8_with_rounds, reply_ok, word_at, RawMeasurement};

verus! {

/// Command that wakes the sensor.
pub const COM_WAKEUP: [u8; 2] = [0x35, 0x17];

/// Command that asks for the sensor's id.
pub const COM_ID: [u8; 2] = [0xEF, 0xC8];

/// Command that resets the sensor.
pub const COM_RESET: [u8; 2] = [0x80, 0x5D];

/// Command that puts the sensor to sleep.
pub const COM_SLEEP: [u8; 2] = [0xB0, 0x98];

/// Command that measures temperature and humidity.
pub const COM_MEAS_TH: [u8; 2] = [0x78, 0x66];

/// Command that measures temperature and humidity in low-power mode.
pub const COM_MEAS_TH_LP: [u8; 2] = [0x60, 0x9C];

/// Bus address of the sensor.
pub const ADDRESS: u8 = 0x70;

/// Shifts per byte of the sensor's CRC.
pub const CRC_ROUNDS: u8 = 8;

/// Milliseconds to wait after waking the sensor.
pub const WAKEUP_MS: u32 = 1;

/// Milliseconds to wait for a measurement.
pub const MEASURE_MS: u32 = 15;

#[derive(Debug, PartialEq, Eq, Structural)]
pub enum Sht3Error<E> {
    EmbeddedError(E),
    IdError,
    CrcError,
}

/// The exchange that reads the id: wake up, wait, ask for the id, read three bytes, and put
/// the sensor back to sleep before anything is checked.
pub open spec fn init_ops(address: u8) -> Seq<BusOpView> {
    seq![
        BusOpView::Write { address, bytes: seq![COM_WAKEUP[0], COM_WAKEUP[1]] },
        BusOpView::DelayMs { ms: WAKEUP_MS },
        BusOpView::Write { address, bytes: seq![COM_ID[0], COM_ID[1]] },
        BusOpView::Read { address, len: 3 },
        BusOpView::Write { address, bytes: seq![COM_SLEEP[0], COM_SLEEP[1]] },
    ]
}

/// The exchange that takes a measurement: wake up, wait, start it, wait, read six bytes, and
/// put the sensor back to sleep before anything is checked.
pub open spec fn measurement_ops(address: u8) -> Seq<BusOpView> {
    seq![
        BusOpView::Write { address, bytes: seq![COM_WAKEUP[0], COM_WAKEUP[1]] },
        BusOpView::DelayMs { ms: WAKEUP_MS },
        BusOpView::Write { address, bytes: seq![COM_MEAS_TH[0], COM_MEAS_TH[1]] },
        BusOpView::DelayMs { ms: MEASURE_MS },
        BusOpView::Read { address, len: 6 },
        BusOpView::Write { address, bytes: seq![COM_SLEEP[0], COM_SLEEP[1]] },
    ]
}

/// What the three id bytes say: `IdError` where they name another sensor, else `CrcError`
/// where their CRC does not match.
pub open spec fn id_result<E>(id: Seq<u8>) -> Result<(), Sht3Error<E>> {
    if !id_ok(id) {
        Err(Sht3Error::IdError)
    } else if id[2] != crc8_spec(id.subrange(0, 2), CRC_ROUNDS as nat) {
        Err(Sht3Error::CrcError)
    } else {
        Ok(())
    }
}

/// The id reply names this kind of sensor.
pub open spec fn id_ok(id: Seq<u8>) -> bool {
    id[0] & 0x08 == 0x08 && id[1] & 0x3F == 0x07
}

/// The decisions of the temperature and humidity sensor's driver on a blocking bus.
pub struct SHT3 {
    address: u8,
}

impl SHT3 {
    pub closed spec fn address_view(&self) -> u8 {
        self.address
    }

    pub fn new() -> (r: SHT3)
        ensures
            r.address_view() == ADDRESS,
    {
        SHT3 { address: ADDRESS }
    }

    pub fn address(&self) -> (r: u8)
        ensures
            r == self.address_view(),
    {
        self.address
    }

    /// Checks the three bytes that the id command returned: `IdError` where they name
    /// another sensor, else `CrcError` where their CRC does not match.
    pub fn check_id<E>(&self, id: &[u8; 3]) -> (r: Result<(), Sht3Error<E>>)
        ensures
            r is Ok <==> id_ok(id@) && id@[2] == crc8_spec(id@.subrange(0, 2), CRC_ROUNDS as nat),
            r matches Err(e) ==> (if !id_ok(id@) {
                e is IdError
            } else {
                e is CrcError
            }),
            r == id_result::<E>(id@),
    {
        if (id[0] & 0x08 != 0x08) || (id[1] & 0x3F != 0x07) {
            return Err(Sht3Error::IdError);
        }
        let crc = self.crc8(vstd::slice::slice_subrange(id.as_slice(), 0, 2));
        if crc != id[2] {
            return Err(Sht3Error::CrcError);
        }
        Ok(())
    }

    /// The raw temperature and humidity in a six-byte measurement reply; `CrcError` where
    /// either CRC does not match.
    pub fn decode_measurement<E>(&self, reply: &[u8; 6]) -> (r: Result<RawMeasurement, Sht3Error<E>>)
        ensures
            r is Ok <==> reply_ok(reply@, CRC_ROUNDS as nat),
            r matches Ok(m) ==> m.temperature as nat == word_at(reply@, 0) && m.humidity as nat
                == word_at(reply@, 3),
            r matches Err(e) ==> e is CrcError,
    {
        if !check_reply(reply, CRC_ROUNDS) {
            return Err(Sht3Error::CrcError);
        }
        Ok(
            RawMeasurement {
                temperature: (reply[0] as u16) * 256 + reply[1] as u16,
                humidity: (reply[3] as u16) * 256 + reply[4] as u16,
            },
        )
    }

    fn op(&self, k: usize, ops: Ghost<Seq<BusOpView>>, wake: bool) -> (r: BusOp)
        requires
            ops@ == (if wake { init_ops(self.address_view()) } else { measurement_ops(self.address_view()) }),
            k < ops@.len(),
        ensures
            r@ == ops@[k as int],
    {
        let a = self.address;
        if wake {
            if k == 0 {
                write_op(a, COM_WAKEUP[0], Some(COM_WAKEUP[1]))
            } else if k == 1 {
                BusOp::DelayMs { ms: WAKEUP_MS }
            } else if k == 2 {
                write_op(a, COM_ID[0], Some(COM_ID[1]))
            } else if k == 3 {
                BusOp::Read { address: a, len: 3 }
            } else {
                write_op(a, COM_SLEEP[0], Some(COM_SLEEP[1]))
            }
        } else {
            if k == 0 {
                write_op(a, COM_WAKEUP[0], Some(COM_WAKEUP[1]))
            } else if k == 1 {
                BusOp::DelayMs { ms: WAKEUP_MS }
            } else if k == 2 {
                write_op(a, COM_MEAS_TH[0], Some(COM_MEAS_TH[1]))
            } else if k == 3 {
                BusOp::DelayMs { ms: MEASURE_MS }
            } else if k == 4 {
                BusOp::Read { address: a, len: 6 }
            } else {
                write_op(a, COM_SLEEP[0], Some(COM_SLEEP[1]))
            }
        }
    }

    /// The id check, one bus operation at a time. `done` holds the results of the operations
    /// issued so far; the next one of `init_ops` is returned until all have run, then the
    /// verdict on the id bytes read. A bus error ends the exchange at once.
    pub fn init<E: Copy>(&self, done: &[Result<Vec<u8>, E>]) -> (r: Step<Result<(), Sht3Error<E>>>)
        requires
            results_fit(init_ops(self.address_view()), done@),
        ensures
            failed(done@) ==> r == Step::<Result<(), Sht3Error<E>>>::Finish(
                Err(Sht3Error::EmbeddedError(last_error(done@))),
            ),
            !failed(done@) && done@.len() < 5 ==> (r matches Step::Issue(op) && op@ == init_ops(
                self.address_view(),
            )[done@.len() as int]),
            !failed(done@) && done@.len() == 5 ==> (done@[3] matches Ok(id) && r == Step::<
                Result<(), Sht3Error<E>>,
            >::Finish(id_result(id@))),
    {
        if let Some(e) = last_failure(done) {
            return Step::Finish(Err(Sht3Error::EmbeddedError(e)));
        }
        let n = done.len();
        if n < 5 {
            return Step::Issue(self.op(n, Ghost(init_ops(self.address_view())), true));
        }
        assert(done@[3] is Ok);
        match &done[3] {
            Ok(b) => {
                let id: [u8; 3] = [b[0], b[1], b[2]];
                assert(id@ =~= b@);
                Step::Finish(self.check_id(&id))
            },
            Err(_) => {
                proof {
                    assert(false);
                }
                Step::Finish(Err(Sht3Error::IdError))
            },
        }
    }

    /// A measurement, one bus operation at a time, as `init` does it: the next one of
    /// `measurement_ops` until all have run, then the raw words of the six bytes read, or
    /// `CrcError`. A bus error ends the exchange at once.
    pub fn get_measurement<E: Copy>(&self, done: &[Result<Vec<u8>, E>]) -> (r: Step<
        Result<RawMeasurement, Sht3Error<E>>,
    >)
        requires
            results_fit(measurement_ops(self.address_view()), done@),
        ensures
            failed(done@) ==> r == Step::<Result<RawMeasurement, Sht3Error<E>>>::Finish(
                Err(Sht3Error::EmbeddedError(last_error(done@))),
            ),
            !failed(done@) && done@.len() < 6 ==> (r matches Step::Issue(op) && op@
                == measurement_ops(self.address_view())[done@.len() as int]),
            !failed(done@) && done@.len() == 6 ==> (done@[4] matches Ok(b) && (r matches Step::Finish(
                m,
            ) && (m is Ok <==> reply_ok(b@, CRC_ROUNDS as nat)) && (m matches Ok(v) ==> v.temperature
                as nat == word_at(b@, 0) && v.humidity as nat == word_at(b@, 3)) && (m matches Err(
                e,
            ) ==> e is CrcError))),
    {
        if let Some(e) = last_failure(done) {
            return Step::Finish(Err(Sht3Error::EmbeddedError(e)));
        }
        let n = done.len();
        if n < 6 {
            return Step::Issue(self.op(n, Ghost(measurement_ops(self.address_view())), false));
        }
        assert(done@[4] is Ok);
        match &done[4] {
            Ok(b) => {
                let reply: [u8; 6] = [b[0], b[1], b[2], b[3], b[4], b[5]];
                assert(reply@ =~= b@);
                Step::Finish(self.decode_measurement(&reply))
            },
            Err(_) => {
                proof {
                    assert(false);
                }
                Step::Finish(Err(Sht3Error::IdError))
            },
        }
    }

    /// The sensor's CRC-8: polynomial 0x31, start 0xFF, eight shifts per byte.
    pub fn crc8(&self, buffer: &[u8]) -> (r: u8)
        ensures
            r == crc8_spec(buffer@, CRC_ROUNDS as nat),
    {
        crc8_with_rounds(buffer, CRC_ROUNDS)
    }
}

} // verus!
