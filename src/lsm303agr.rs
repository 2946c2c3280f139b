use vstd::prelude::*;

use crate::bytes::{le_seq, push_le};
use crate::exchange::{
    failed, last_error, last_failure, results_fit, write_op, BusOp, BusOpView, Step,
};

verus! {

pub const WHO_AM_I_A: u8 = 0x0F;
pub const CTRL_REG1_A: u8 = 0x20;
pub const CTRL_REG4_A: u8 = 0x23;
pub const CTRL_REG5_A: u8 = 0x24;
pub const STATUS_REG_A: u8 = 0x27;
pub const OUT_X_L_A: u8 = 0x28;
pub const WHO_AM_I_M: u8 = 0x4F;
pub const CFG_REG_A_M: u8 = 0x60;
pub const STATUS_REG_M: u8 = 0x67;
pub const OUTX_L_REG_M: u8 = 0x68;

/// Register address bit that makes a read walk through consecutive registers.
pub const AUTO_INCREMENT: u8 = 0x80;

/// Id that the accelerometer answers with.
pub const ACC_ID: u8 = 0b0011_0011;

/// Id that the magnetometer answers with.
pub const MAG_ID: u8 = 0b0100_0000;

/// Accelerometer control 5: reboot.
pub const ACC_REBOOT: u8 = 0b1000_0000;

/// Magnetometer configuration A: reboot and soft reset.
pub const MAG_REBOOT_RESET: u8 = 0b0110_0011;

/// Magnetometer configuration A: temperature compensation, 100 Hz, continuous mode.
pub const MAG_CONTINUOUS: u8 = 0b1000_1100;

/// Magnetometer configuration A: temperature compensation, 100 Hz, idle.
pub const MAG_IDLE: u8 = 0b1000_1111;

/// Accelerometer control 4: block update, 2 g full scale, high resolution.
pub const ACC_HIGH_RES: u8 = 0b1000_1000;

/// Accelerometer control 1: 100 Hz, all three axes.
pub const ACC_100HZ: u8 = 0b0101_0111;

/// Accelerometer control 1: powered down, all three axes.
pub const ACC_POWER_DOWN: u8 = 0b0000_0111;

/// Status bit: new data on all three axes.
pub const ZYX_READY: u8 = 0x08;

/// How many times the magnetometer's status is polled before giving up.
pub const MAG_POLL_LIMIT: u32 = 100;

/// How many times the accelerometer's status is polled before giving up.
pub const ACC_POLL_LIMIT: u32 = 30;

#[derive(Debug, PartialEq, Eq, Structural)]
pub enum Lsm303agrError<E> {
    EmbeddedError(E),
    IdError,
    MeasurementTimeoutError,
}

/// The exchange that checks both ids: ask the accelerometer for its id and read it, reboot
/// the accelerometer, ask the magnetometer for its id and read it, reboot and reset the
/// magnetometer. It ends after the first read where that id is wrong, and after the second
/// read where that one is.
pub open spec fn init_ops(acc: u8, mag: u8) -> Seq<BusOpView> {
    seq![
        BusOpView::Write { address: acc, bytes: seq![WHO_AM_I_A] },
        BusOpView::Read { address: acc, len: 1 },
        BusOpView::Write { address: acc, bytes: seq![CTRL_REG5_A, ACC_REBOOT] },
        BusOpView::Write { address: mag, bytes: seq![WHO_AM_I_M] },
        BusOpView::Read { address: mag, len: 1 },
        BusOpView::Write { address: mag, bytes: seq![CFG_REG_A_M, MAG_REBOOT_RESET] },
    ]
}

/// The byte that the read at `i` returned.
pub open spec fn byte_read<E>(done: Seq<Result<Vec<u8>, E>>, i: int) -> u8 {
    done[i]->Ok_0@[0]
}

/// Acceleration and magnetic field on three axes, in raw counts.
#[derive(Clone, Copy, Debug, PartialEq, Eq, Structural)]
pub struct Measurement {
    pub acc_x: i16,
    pub acc_y: i16,
    pub acc_z: i16,
    pub mag_x: i16,
    pub mag_y: i16,
    pub mag_z: i16,
}

/// The little-endian pair `lo`, `hi` read as a 16-bit two's complement number.
pub open spec fn le_i16(lo: u8, hi: u8) -> int {
    let u = lo as int + 256 * hi as int;
    if u >= 0x8000 {
        u - 0x10000
    } else {
        u
    }
}

/// The 12-bit two's complement number that sits left-aligned in the little-endian pair.
pub open spec fn left_aligned_12(lo: u8, hi: u8) -> int {
    let v = (lo as int + 256 * hi as int) / 16;
    if v >= 0x800 {
        v - 0x1000
    } else {
        v
    }
}

/// The two bytes of `x` in two's complement, as an unsigned number.
pub open spec fn i16_bits(x: i16) -> nat {
    if x < 0 {
        (x + 0x10000) as nat
    } else {
        x as nat
    }
}

pub open spec fn measurement_of(acc: Seq<u8>, mag: Seq<u8>) -> Measurement {
    Measurement {
        acc_x: left_aligned_12(acc[0], acc[1]) as i16,
        acc_y: left_aligned_12(acc[2], acc[3]) as i16,
        acc_z: left_aligned_12(acc[4], acc[5]) as i16,
        mag_x: le_i16(mag[0], mag[1]) as i16,
        mag_y: le_i16(mag[2], mag[3]) as i16,
        mag_z: le_i16(mag[4], mag[5]) as i16,
    }
}

/// The measurement fields of a motion record: the six axes, little-endian, acceleration first.
pub open spec fn motion_fields_spec(m: Measurement) -> Seq<u8> {
    le_seq(i16_bits(m.acc_x), 2) + le_seq(i16_bits(m.acc_y), 2) + le_seq(i16_bits(m.acc_z), 2)
        + le_seq(i16_bits(m.mag_x), 2) + le_seq(i16_bits(m.mag_y), 2) + le_seq(i16_bits(m.mag_z), 2)
}

fn i16_from_le(lo: u8, hi: u8) -> (r: i16)
    ensures
        r as int == le_i16(lo, hi),
{
    let u: u32 = lo as u32 + 256 * hi as u32;
    if u >= 0x8000 {
        (u as i32 - 0x10000) as i16
    } else {
        u as i16
    }
}

fn push_i16(out: &mut Vec<u8>, x: i16)
    ensures
        final(out)@ == old(out)@ + le_seq(i16_bits(x), 2),
{
    let bits: u64 = if x < 0 {
        (x as i32 + 0x10000) as u64
    } else {
        x as u64
    };
    push_le(out, bits, 2);
}

impl Measurement {
    /// The measurement fields of a motion record.
    pub fn fields(&self) -> (r: Vec<u8>)
        ensures
            r@ == motion_fields_spec(*self),
    {
        let mut out: Vec<u8> = Vec::new();
        push_i16(&mut out, self.acc_x);
        push_i16(&mut out, self.acc_y);
        push_i16(&mut out, self.acc_z);
        push_i16(&mut out, self.mag_x);
        push_i16(&mut out, self.mag_y);
        push_i16(&mut out, self.mag_z);
        out
    }
}

/// The decisions of the accelerometer and magnetometer's driver on a blocking bus.
pub struct LSM303AGR {
    address_acc: u8,
    address_mag: u8,
}

impl LSM303AGR {
    pub closed spec fn address_acc_view(&self) -> u8 {
        self.address_acc
    }

    pub closed spec fn address_mag_view(&self) -> u8 {
        self.address_mag
    }

    pub fn new() -> (r: LSM303AGR)
        ensures
            r.address_acc_view() == 0b0011001,
            r.address_mag_view() == 0b0011110,
    {
        LSM303AGR { address_acc: 0b0011001, address_mag: 0b0011110 }
    }

    pub fn address_acc(&self) -> (r: u8)
        ensures
            r == self.address_acc_view(),
    {
        self.address_acc
    }

    pub fn address_mag(&self) -> (r: u8)
        ensures
            r == self.address_mag_view(),
    {
        self.address_mag
    }

    /// Checks the accelerometer's id.
    pub fn check_acc_id<E>(&self, acc_id: u8) -> (r: Result<(), Lsm303agrError<E>>)
        ensures
            r is Ok <==> acc_id == ACC_ID,
            r matches Err(e) ==> e is IdError,
    {
        if acc_id != ACC_ID {
            return Err(Lsm303agrError::IdError);
        }
        Ok(())
    }

    /// Checks both ids, the accelerometer's first: `IdError` unless each names its part.
    pub fn check_ids<E>(&self, acc_id: u8, mag_id: u8) -> (r: Result<(), Lsm303agrError<E>>)
        ensures
            r is Ok <==> acc_id == ACC_ID && mag_id == MAG_ID,
            r matches Err(e) ==> e is IdError,
    {
        if acc_id != ACC_ID {
            return Err(Lsm303agrError::IdError);
        }
        if mag_id != MAG_ID {
            return Err(Lsm303agrError::IdError);
        }
        Ok(())
    }

    fn init_op(&self, k: usize) -> (r: BusOp)
        requires
            k < 6,
        ensures
            r@ == init_ops(self.address_acc_view(), self.address_mag_view())[k as int],
    {
        if k == 0 {
            write_op(self.address_acc, WHO_AM_I_A, None)
        } else if k == 1 {
            BusOp::Read { address: self.address_acc, len: 1 }
        } else if k == 2 {
            write_op(self.address_acc, CTRL_REG5_A, Some(ACC_REBOOT))
        } else if k == 3 {
            write_op(self.address_mag, WHO_AM_I_M, None)
        } else if k == 4 {
            BusOp::Read { address: self.address_mag, len: 1 }
        } else {
            write_op(self.address_mag, CFG_REG_A_M, Some(MAG_REBOOT_RESET))
        }
    }

    /// The id check, one bus operation at a time. `done` holds the results of the operations
    /// issued so far. A bus error ends the exchange at once; a wrong id ends it after its read
    /// with `IdError`; otherwise the next one of `init_ops` is returned, and `Ok` once all six
    /// have run.
    pub fn init<E: Copy>(&self, done: &[Result<Vec<u8>, E>]) -> (r: Step<
        Result<(), Lsm303agrError<E>>,
    >)
        requires
            results_fit(init_ops(self.address_acc_view(), self.address_mag_view()), done@),
        ensures
            ({
                let n = done@.len() as int;
                let ops = init_ops(self.address_acc_view(), self.address_mag_view());
                let acc_bad = n >= 2 && byte_read(done@, 1) != ACC_ID;
                let mag_bad = n >= 5 && byte_read(done@, 4) != MAG_ID;
                &&& failed(done@) ==> r == Step::<Result<(), Lsm303agrError<E>>>::Finish(
                    Err(Lsm303agrError::EmbeddedError(last_error(done@))),
                )
                &&& !failed(done@) && (acc_bad || mag_bad) ==> r == Step::<
                    Result<(), Lsm303agrError<E>>,
                >::Finish(Err(Lsm303agrError::IdError))
                &&& !failed(done@) && !acc_bad && !mag_bad && n < 6 ==> (r matches Step::Issue(op)
                    && op@ == ops[n])
                &&& !failed(done@) && !acc_bad && !mag_bad && n == 6 ==> r == Step::<
                    Result<(), Lsm303agrError<E>>,
                >::Finish(Ok(()))
            }),
    {
        if let Some(e) = last_failure(done) {
            return Step::Finish(Err(Lsm303agrError::EmbeddedError(e)));
        }
        let n = done.len();
        if n >= 2 {
            assert(done@[1] is Ok);
            match &done[1] {
                Ok(b) => {
                    if b[0] != ACC_ID {
                        return Step::Finish(Err(Lsm303agrError::IdError));
                    }
                },
                Err(_) => {},
            }
        }
        if n >= 5 {
            assert(done@[4] is Ok);
            match &done[4] {
                Ok(b) => {
                    if b[0] != MAG_ID {
                        return Step::Finish(Err(Lsm303agrError::IdError));
                    }
                },
                Err(_) => {},
            }
        }
        if n < 6 {
            return Step::Issue(self.init_op(n));
        }
        Step::Finish(Ok(()))
    }

    /// Whether to read the status once more: the poll count is under its limit and the
    /// status does not yet show new data.
    pub fn keep_polling(&self, polls: u32, limit: u32, status: u8) -> (r: bool)
        ensures
            r == (polls < limit && status & ZYX_READY != ZYX_READY),
    {
        polls < limit && status & ZYX_READY != ZYX_READY
    }

    /// After polling: a count that reached its limit is a timeout, even where the last read
    /// showed new data.
    pub fn poll_outcome<E>(&self, polls: u32, limit: u32) -> (r: Result<(), Lsm303agrError<E>>)
        ensures
            r is Ok <==> polls != limit,
            r matches Err(e) ==> e is MeasurementTimeoutError,
    {
        if polls == limit {
            return Err(Lsm303agrError::MeasurementTimeoutError);
        }
        Ok(())
    }

    /// The measurement from the two polls and the six output bytes of each part; a timeout
    /// where either poll reached its limit.
    pub fn get_measurement<E>(&self, mag_polls: u32, acc_polls: u32, acc: &[u8; 6], mag: &[u8; 6]) -> (r:
        Result<Measurement, Lsm303agrError<E>>)
        ensures
            r is Ok <==> mag_polls != MAG_POLL_LIMIT && acc_polls != ACC_POLL_LIMIT,
            r matches Ok(m) ==> m == measurement_of(acc@, mag@),
            r matches Err(e) ==> e is MeasurementTimeoutError,
    {
        self.poll_outcome::<E>(mag_polls, MAG_POLL_LIMIT)?;
        self.poll_outcome::<E>(acc_polls, ACC_POLL_LIMIT)?;
        let ax = self.sign_extend([acc[0], acc[1]]);
        let ay = self.sign_extend([acc[2], acc[3]]);
        let az = self.sign_extend([acc[4], acc[5]]);
        Ok(
            Measurement {
                acc_x: i16_from_le(ax[0], ax[1]),
                acc_y: i16_from_le(ay[0], ay[1]),
                acc_z: i16_from_le(az[0], az[1]),
                mag_x: i16_from_le(mag[0], mag[1]),
                mag_y: i16_from_le(mag[2], mag[3]),
                mag_z: i16_from_le(mag[4], mag[5]),
            },
        )
    }

    /// Sign-extends a 12-bit two's complement number, left-aligned in a little-endian pair, to
    /// 16 bits.
    pub fn sign_extend(&self, bytes: [u8; 2]) -> (r: [u8; 2])
        ensures
            le_i16(r[0], r[1]) == left_aligned_12(bytes[0], bytes[1]),
    {
        let tmp: u16 = (bytes[0] as u16 + bytes[1] as u16 * 256) / 16;
        let ext: u16 = if tmp >= 0x0800 {
            tmp + 0xF000
        } else {
            tmp
        };
        [(ext % 256) as u8, (ext / 256) as u8]
    }
}

} // verus!
