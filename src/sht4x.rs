use vstd::prelude::*;

verus! {

/// Command that asks for the serial number.
pub const CMD_READ_SERIAL: u8 = 0x89;

/// Command that starts a high-precision measurement.
pub const CMD_MEASURE: u8 = 0xFD;

/// Microseconds to wait after asking for the serial number.
pub const SERIAL_WAIT_US: u32 = 1_000;

/// Microseconds to wait after starting a measurement.
pub const MEASURE_WAIT_US: u32 = 10_000;

/// Generator polynomial of the sensor's CRC-8, without its leading term.
pub const CRC_POLY: u8 = 0x31;

#[derive(Clone, Copy, Debug, PartialEq, Eq, Structural)]
pub enum Sht4xError {
    IdError,
    CrcError,
    TimerError,
}

/// One step of the CRC register: shift left, and fold in the polynomial where the top bit
/// fell out.
pub open spec fn crc_shift(rem: u8) -> u8 {
    if rem & 0x80 == 0x80 {
        ((rem << 1u8) ^ CRC_POLY) as u8
    } else {
        (rem << 1u8) as u8
    }
}

pub open spec fn crc_rounds(rem: u8, n: nat) -> u8
    decreases n,
{
    if n == 0 {
        rem
    } else {
        crc_rounds(crc_shift(rem), (n - 1) as nat)
    }
}

/// The CRC-8 of `s`, starting from 0xFF, with `rounds` shifts after each byte is folded in.
pub open spec fn crc8_spec(s: Seq<u8>, rounds: nat) -> u8
    decreases s.len(),
{
    if s.len() == 0 {
        0xFF
    } else {
        crc_rounds(crc8_spec(s.drop_last(), rounds) ^ s.last(), rounds)
    }
}

/// The CRC-8 of `buffer` with `rounds` shifts per byte.
pub fn crc8_with_rounds(buffer: &[u8], rounds: u8) -> (r: u8)
    ensures
        r == crc8_spec(buffer@, rounds as nat),
{
    let mut rem: u8 = 0xFF;
    let mut k: usize = 0;
    while k < buffer.len()
        invariant
            k <= buffer@.len(),
            rem == crc8_spec(buffer@.subrange(0, k as int), rounds as nat),
        decreases buffer@.len() - k,
    {
        assert(buffer@.subrange(0, k + 1).drop_last() =~= buffer@.subrange(0, k as int));
        rem = rem ^ buffer[k];
        let ghost start = rem;
        let mut i: u8 = 0;
        while i < rounds
            invariant
                i <= rounds,
                crc_rounds(rem, (rounds - i) as nat) == crc_rounds(start, rounds as nat),
            decreases rounds - i,
        {
            if rem & 0x80 == 0x80 {
                rem = (rem << 1u8) ^ CRC_POLY;
            } else {
                rem = rem << 1u8;
            }
            i += 1;
        }
        k += 1;
    }
    assert(buffer@.subrange(0, buffer@.len() as int) =~= buffer@);
    rem
}

/// The CRC-8 that the sensor appends to each pair of bytes: polynomial 0x31, start 0xFF,
/// eight shifts per byte.
pub fn crc8(buffer: &[u8]) -> (r: u8)
    ensures
        r == crc8_spec(buffer@, 8),
{
    crc8_with_rounds(buffer, 8)
}

/// Both words of a six-byte reply (two bytes and their CRC, twice) carry a matching CRC.
pub open spec fn reply_ok(b: Seq<u8>, rounds: nat) -> bool {
    b[2] == crc8_spec(b.subrange(0, 2), rounds) && b[5] == crc8_spec(b.subrange(3, 5), rounds)
}

/// The two words of a six-byte reply, each read big-endian.
pub open spec fn word_at(b: Seq<u8>, i: int) -> nat {
    b[i] as nat * 256 + b[i + 1] as nat
}

/// A measurement as the sensor reports it, before conversion to physical units.
#[derive(Clone, Copy, Debug, PartialEq, Eq, Structural)]
pub struct RawMeasurement {
    pub temperature: u16,
    pub humidity: u16,
}

/// The decisions of the temperature and humidity sensor's driver: the command it sends and
/// how long it waits, and what it makes of the sensor's replies.
pub struct SHT4X {
    address: u8,
    buffer: [u8; 1],
    wait_us: u32,
}

impl SHT4X {
    pub closed spec fn address_view(&self) -> u8 {
        self.address
    }

    pub closed spec fn command_view(&self) -> u8 {
        self.buffer[0]
    }

    pub closed spec fn wait_view(&self) -> u32 {
        self.wait_us
    }

    pub fn new(address: u8) -> (r: SHT4X)
        ensures
            r.address_view() == address,
            r.command_view() == 0,
            r.wait_view() == 0,
    {
        SHT4X { address, buffer: [0u8; 1], wait_us: 0 }
    }

    pub fn address(&self) -> (r: u8)
        ensures
            r == self.address_view(),
    {
        self.address
    }

    /// The command byte to write to the sensor.
    pub fn command(&self) -> (r: u8)
        ensures
            r == self.command_view(),
    {
        self.buffer[0]
    }

    /// How long to wait, in microseconds, before reading the reply.
    pub fn wait_us(&self) -> (r: u32)
        ensures
            r == self.wait_view(),
    {
        self.wait_us
    }

    /// Prepares the request for the serial number and its wait.
    pub fn start_reading_serial(&mut self) -> (r: Result<(), Sht4xError>)
        ensures
            r is Ok,
            final(self).command_view() == CMD_READ_SERIAL,
            final(self).wait_view() == SERIAL_WAIT_US,
            final(self).address_view() == old(self).address_view(),
    {
        self.buffer[0] = CMD_READ_SERIAL;
        self.wait_us = SERIAL_WAIT_US;
        Ok(())
    }

    /// Prepares the request for a measurement and its wait.
    pub fn start_measurement(&mut self) -> (r: Result<(), Sht4xError>)
        ensures
            r is Ok,
            final(self).command_view() == CMD_MEASURE,
            final(self).wait_view() == MEASURE_WAIT_US,
            final(self).address_view() == old(self).address_view(),
    {
        self.buffer[0] = CMD_MEASURE;
        self.wait_us = MEASURE_WAIT_US;
        Ok(())
    }

    /// The serial number in the sensor's reply: the two words big-endian, the first on top;
    /// `CrcError` where either CRC does not match.
    pub fn wait_for_serial(&self, reply: &[u8; 6]) -> (r: Result<u32, Sht4xError>)
        ensures
            r is Ok <==> reply_ok(reply@, 8),
            r matches Ok(v) ==> v as nat == word_at(reply@, 0) * 0x1_0000 + word_at(reply@, 3),
            r matches Err(e) ==> e == Sht4xError::CrcError,
    {
        if !check_reply(reply, 8) {
            return Err(Sht4xError::CrcError);
        }
        Ok((reply[0] as u32) * 0x100_0000 + (reply[1] as u32) * 0x1_0000 + (reply[3] as u32) * 0x100
            + reply[4] as u32)
    }

    /// The raw temperature and humidity in the sensor's reply; `CrcError` where either CRC
    /// does not match.
    pub fn wait_for_measurement(&self, reply: &[u8; 6]) -> (r: Result<RawMeasurement, Sht4xError>)
        ensures
            r is Ok <==> reply_ok(reply@, 8),
            r matches Ok(m) ==> m.temperature as nat == word_at(reply@, 0) && m.humidity as nat
                == word_at(reply@, 3),
            r matches Err(e) ==> e == Sht4xError::CrcError,
    {
        if !check_reply(reply, 8) {
            return Err(Sht4xError::CrcError);
        }
        Ok(
            RawMeasurement {
                temperature: (reply[0] as u16) * 256 + reply[1] as u16,
                humidity: (reply[3] as u16) * 256 + reply[4] as u16,
            },
        )
    }
}

/// Whether both words of a six-byte reply carry a matching CRC.
pub fn check_reply(reply: &[u8; 6], rounds: u8) -> (r: bool)
    ensures
        r == reply_ok(reply@, rounds as nat),
{
    let s = reply.as_slice();
    let first = vstd::slice::slice_subrange(s, 0, 2);
    let second = vstd::slice::slice_subrange(s, 3, 5);
    reply[2] == crc8_with_rounds(first, rounds) && reply[5] == crc8_with_rounds(second, rounds)
}

} // verus!
