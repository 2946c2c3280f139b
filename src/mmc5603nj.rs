use vstd::prelude::*;

verus! {

/// Internal control register 0.
pub const CTRL0: u8 = 0x1B;

/// Status register.
pub const STATUS1: u8 = 0x18;

/// First magnetic output register.
pub const XOUT0: u8 = 0x00;

/// Temperature output register.
pub const TOUT: u8 = 0x09;

/// Status bit: a magnetic measurement is done.
pub const MEAS_M_DONE: u8 = 0x40;

/// Status bit: a temperature measurement is done.
pub const MEAS_T_DONE: u8 = 0x80;

#[derive(Clone, Copy, Debug, PartialEq, Eq, Structural)]
pub enum Mmc5603njError {
    CrcError,
    TimerError,
    NotDoneError,
}

/// The pulse applied to the sensing element before a magnetic measurement.
#[derive(Clone, Copy, Debug, PartialEq, Eq, Structural)]
pub enum Mmc5603njBias {
    SetPulse,
    ResetPulse,
    NoPulse,
}

/// The control value that applies a bias pulse, if any.
pub open spec fn bias_value(bias: Mmc5603njBias) -> Option<u8> {
    match bias {
        Mmc5603njBias::SetPulse => Some(0x08u8),
        Mmc5603njBias::ResetPulse => Some(0x10u8),
        Mmc5603njBias::NoPulse => None,
    }
}

/// The decisions of the magnetometer's driver: the register writes that start a measurement,
/// when its status says it is done, and what its output registers hold.
pub struct MMC5603NJ {
    address: u8,
    buffer: [u8; 1],
}

impl MMC5603NJ {
    pub closed spec fn address_view(&self) -> u8 {
        self.address
    }

    pub fn new(address: u8) -> (r: MMC5603NJ)
        ensures
            r.address_view() == address,
    {
        MMC5603NJ { address, buffer: [0u8; 1] }
    }

    pub fn address(&self) -> (r: u8)
        ensures
            r == self.address_view(),
    {
        self.address
    }

    /// The writes, each a register and a value, that start a magnetic measurement: the bias
    /// pulse where one is asked for, then the measurement itself.
    pub fn start_magnetic__measruement(&mut self, bias: Mmc5603njBias) -> (r: Result<
        Vec<[u8; 2]>,
        Mmc5603njError,
    >)
        ensures
            r matches Ok(w) && ({
                let n = w@.len();
                &&& n == (if bias_value(bias) is Some { 2int } else { 1int })
                &&& w@[n - 1]@ == seq![CTRL0, 0x01u8]
                &&& bias_value(bias) matches Some(v) ==> w@[0]@ == seq![CTRL0, v]
            }),
            final(self).address_view() == old(self).address_view(),
    {
        let mut writes: Vec<[u8; 2]> = Vec::new();
        match bias {
            Mmc5603njBias::SetPulse => {
                writes.push([CTRL0, 0x08]);
            },
            Mmc5603njBias::ResetPulse => {
                writes.push([CTRL0, 0x10]);
            },
            Mmc5603njBias::NoPulse => {},
        }
        writes.push([CTRL0, 0x01]);
        proof {
            assert(writes@[writes@.len() - 1]@ =~= seq![CTRL0, 0x01u8]);
            if bias_value(bias) is Some {
                assert(writes@[0]@ =~= seq![CTRL0, bias_value(bias).unwrap()]);
            }
        }
        Ok(writes)
    }

    /// The write that starts a temperature measurement.
    pub fn start_temperature_measurement(&mut self) -> (r: Result<[u8; 2], Mmc5603njError>)
        ensures
            r matches Ok(w) && w@ == seq![CTRL0, 0x02u8],
            final(self).address_view() == old(self).address_view(),
    {
        let w: [u8; 2] = [CTRL0, 0x02];
        assert(w@ =~= seq![CTRL0, 0x02u8]);
        Ok(w)
    }

    /// Whether the status register says the magnetic measurement is done.
    pub fn magnetic_done(&self, status: u8) -> (r: bool)
        ensures
            r == (status & MEAS_M_DONE == MEAS_M_DONE),
    {
        status & MEAS_M_DONE == MEAS_M_DONE
    }

    /// Whether the status register says the temperature measurement is done.
    pub fn temperature_done(&self, status: u8) -> (r: bool)
        ensures
            r == (status & MEAS_T_DONE == MEAS_T_DONE),
    {
        status & MEAS_T_DONE == MEAS_T_DONE
    }

    /// The three axes of a magnetic measurement in raw counts, each read big-endian from the
    /// six output bytes.
    pub fn wait_for_magnetic_measurement(&self, out: &[u8; 6]) -> (r: Result<
        (u16, u16, u16),
        Mmc5603njError,
    >)
        ensures
            r matches Ok((x, y, z)) && x as nat == out@[0] as nat * 256 + out@[1] as nat && y as nat
                == out@[2] as nat * 256 + out@[3] as nat && z as nat == out@[4] as nat * 256
                + out@[5] as nat,
    {
        Ok(
            (
                (out[0] as u16) * 256 + out[1] as u16,
                (out[2] as u16) * 256 + out[3] as u16,
                (out[4] as u16) * 256 + out[5] as u16,
            ),
        )
    }

    /// The raw temperature byte of a temperature measurement.
    pub fn wait_for_temperature_measurement(&self, out: u8) -> (r: Result<u8, Mmc5603njError>)
        ensures
            r == Ok::<u8, Mmc5603njError>(out),
    {
        Ok(out)
    }
}

} // verus!
