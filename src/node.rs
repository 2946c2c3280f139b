use vstd::prelude::*;

use crate::codec::TelemetryRecord;

verus! {

/// Below this battery voltage, in millivolts, a node stops sampling for good.
pub const LOW_BATTERY_MV: u32 = 1100;

/// Full scale of the battery reading in millivolts: 0.6 V reference over a gain of 0.4.
pub const ADC_FULL_SCALE_MV: u32 = 1500;

/// Counts of the 10-bit battery reading.
pub const ADC_COUNTS: u32 = 1024;

/// Where a sensor node stands in its cycle.
#[derive(Clone, Copy, Debug, PartialEq, Eq, Structural)]
pub enum NodeState {
    /// Waiting for the real-time counter's compare match.
    Sleeping,
    /// Reading the sensors.
    Sampling,
    /// The record is out to the radio.
    Transmitting,
    /// The battery ran low: the node only waits on the counter from now on.
    Halted,
}

/// The millivolts that a raw battery reading stands for, rounded down.
pub open spec fn millivolts_of(raw: u16) -> nat {
    (raw as nat * ADC_FULL_SCALE_MV as nat) / ADC_COUNTS as nat
}

/// The millivolts that a raw battery reading stands for, rounded down.
pub fn adc_to_millivolts(raw: u16) -> (r: u32)
    ensures
        r as nat == millivolts_of(raw),
{
    assert(raw as u32 * ADC_FULL_SCALE_MV <= 0xFFFF * 1500) by (nonlinear_arith)
        requires
            raw <= 0xFFFF,
    ;
    raw as u32 * ADC_FULL_SCALE_MV / ADC_COUNTS
}

/// The sensor node's decisions: its identity, its state, and the sequence index of the next
/// record, which counts the records since power-on and wraps at 2^32.
pub struct SensorNode {
    device_id: u64,
    part_id: u32,
    sensor_id: u16,
    index: u32,
    state: NodeState,
    sent: Ghost<nat>,
}

impl SensorNode {
    pub closed spec fn device_id_view(&self) -> u64 {
        self.device_id
    }

    pub closed spec fn part_id_view(&self) -> u32 {
        self.part_id
    }

    pub closed spec fn sensor_id_view(&self) -> u16 {
        self.sensor_id
    }

    pub closed spec fn index_view(&self) -> u32 {
        self.index
    }

    pub closed spec fn state_view(&self) -> NodeState {
        self.state
    }

    /// How many records the node has assembled since power-on.
    pub closed spec fn sent_view(&self) -> nat {
        self.sent@
    }

    pub closed spec fn wf(&self) -> bool {
        self.index as nat == self.sent@ % 0x1_0000_0000
    }

    /// A node just after power-on: asleep, with sequence index 0.
    pub fn new(device_id: u64, part_id: u32, sensor_id: u16) -> (r: SensorNode)
        ensures
            r.wf(),
            r.device_id_view() == device_id,
            r.part_id_view() == part_id,
            r.sensor_id_view() == sensor_id,
            r.index_view() == 0,
            r.sent_view() == 0,
            r.state_view() == NodeState::Sleeping,
    {
        SensorNode { device_id, part_id, sensor_id, index: 0, state: NodeState::Sleeping, sent: Ghost(0) }
    }

    pub fn state(&self) -> (r: NodeState)
        ensures
            r == self.state_view(),
    {
        self.state
    }

    pub fn index(&self) -> (r: u32)
        ensures
            r == self.index_view(),
    {
        self.index
    }

    /// The compare match woke a sleeping node with this battery reading: below
    /// `LOW_BATTERY_MV` it halts for good and returns false, otherwise it starts sampling.
    pub fn wake(&mut self, battery_mv: u32) -> (r: bool)
        requires
            old(self).state_view() == NodeState::Sleeping,
        ensures
            r == (battery_mv >= LOW_BATTERY_MV),
            final(self).state_view() == (if r { NodeState::Sampling } else { NodeState::Halted }),
            final(self).index_view() == old(self).index_view(),
            final(self).sent_view() == old(self).sent_view(),
            final(self).device_id_view() == old(self).device_id_view(),
            final(self).part_id_view() == old(self).part_id_view(),
            final(self).sensor_id_view() == old(self).sensor_id_view(),
            old(self).wf() ==> final(self).wf(),
    {
        if battery_mv < LOW_BATTERY_MV {
            self.state = NodeState::Halted;
            false
        } else {
            self.state = NodeState::Sampling;
            true
        }
    }

    /// Builds the record of this cycle from the measurement fields, with the current sequence
    /// index, then moves the index on by one (wrapping) and hands the record to the radio.
    pub fn assemble(&mut self, packet_type: u16, fields: Vec<u8>) -> (r: TelemetryRecord)
        requires
            old(self).state_view() == NodeState::Sampling,
            old(self).wf(),
        ensures
            r.packet_type == packet_type,
            r.device_id == old(self).device_id_view(),
            r.part_id == old(self).part_id_view(),
            r.sensor_id == old(self).sensor_id_view(),
            r.sequence == old(self).index_view(),
            r.sequence as nat == old(self).sent_view() % 0x1_0000_0000,
            r.fields@ == fields@,
            final(self).index_view() == (if old(self).index_view() == u32::MAX {
                0
            } else {
                (old(self).index_view() + 1) as u32
            }),
            final(self).sent_view() == old(self).sent_view() + 1,
            final(self).state_view() == NodeState::Transmitting,
            final(self).device_id_view() == old(self).device_id_view(),
            final(self).part_id_view() == old(self).part_id_view(),
            final(self).sensor_id_view() == old(self).sensor_id_view(),
            final(self).wf(),
    {
        let r = TelemetryRecord {
            packet_type,
            device_id: self.device_id,
            part_id: self.part_id,
            sequence: self.index,
            sensor_id: self.sensor_id,
            fields,
        };
        proof {
            let s = self.sent@;
            assert((s + 1) % 0x1_0000_0000 == if s % 0x1_0000_0000 == 0xFFFF_FFFF {
                0
            } else {
                s % 0x1_0000_0000 + 1
            }) by (nonlinear_arith);
        }
        self.index = self.index.wrapping_add(1);
        self.sent = Ghost(self.sent@ + 1);
        self.state = NodeState::Transmitting;
        r
    }

    /// The radio finished sending: the node goes back to sleep.
    pub fn transmitted(&mut self)
        requires
            old(self).state_view() == NodeState::Transmitting,
        ensures
            final(self).state_view() == NodeState::Sleeping,
            final(self).index_view() == old(self).index_view(),
            final(self).sent_view() == old(self).sent_view(),
            final(self).device_id_view() == old(self).device_id_view(),
            final(self).part_id_view() == old(self).part_id_view(),
            final(self).sensor_id_view() == old(self).sensor_id_view(),
            old(self).wf() ==> final(self).wf(),
    {
        self.state = NodeState::Sleeping;
    }
}

/// Of two states of one node since power-on, the one that has assembled more records holds
/// the larger next sequence index, until the index wraps after 2^32 records; since each
/// record carries the index that its node held, records leave a node in increasing order.
pub proof fn lemma_sequence_monotonic(earlier: SensorNode, later: SensorNode)
    requires
        earlier.wf(),
        later.wf(),
        earlier.sent_view() < later.sent_view() < 0x1_0000_0000,
    ensures
        earlier.index_view() < later.index_view(),
{
}

/// The board configuration word: board type and a major, minor and patch version, one byte
/// each from the top.
#[derive(Clone, Copy, Debug, PartialEq, Eq, Structural)]
pub struct BoardConfig {
    pub board_type: u8,
    pub major: u8,
    pub minor: u8,
    pub patch: u8,
}

impl BoardConfig {
    pub open spec fn word_spec(&self) -> nat {
        self.board_type as nat * 0x100_0000 + self.major as nat * 0x1_0000 + self.minor as nat
            * 0x100 + self.patch as nat
    }

    /// Splits a configuration word into its four bytes, the board type on top.
    pub fn from_word(w: u32) -> (r: BoardConfig)
        ensures
            r.board_type as nat == w as nat / 0x100_0000,
            r.major as nat == (w as nat / 0x1_0000) % 0x100,
            r.minor as nat == (w as nat / 0x100) % 0x100,
            r.patch as nat == w as nat % 0x100,
            r.word_spec() == w as nat,
    {
        let r = BoardConfig {
            board_type: (w / 0x100_0000) as u8,
            major: ((w / 0x1_0000) % 0x100) as u8,
            minor: ((w / 0x100) % 0x100) as u8,
            patch: (w % 0x100) as u8,
        };
        assert(r.word_spec() == w as nat) by (nonlinear_arith)
            requires
                r.board_type as nat == w as nat / 0x100_0000,
                r.major as nat == (w as nat / 0x1_0000) % 0x100,
                r.minor as nat == (w as nat / 0x100) % 0x100,
                r.patch as nat == w as nat % 0x100,
                w as nat <= 0xFFFF_FFFF,
        ;
        r
    }

    /// The configuration word of these four bytes.
    pub fn to_word(&self) -> (r: u32)
        ensures
            r as nat == self.word_spec(),
    {
        (self.board_type as u32) * 0x100_0000 + (self.major as u32) * 0x1_0000
            + (self.minor as u32) * 0x100 + self.patch as u32
    }
}

/// The 64-bit device id from the two words of the factory registers, the high word on top.
pub fn device_id_from(low: u32, high: u32) -> (r: u64)
    ensures
        r as nat == high as nat * 0x1_0000_0000 + low as nat,
{
    (high as u64) * 0x1_0000_0000 + low as u64
}

} // verus!
