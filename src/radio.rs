use vstd::prelude::*;

use vstd::slice::slice_subrange;

verus! {

/// Size of the packet buffer shared by transmission and reception.
pub const PACKET_LEN: usize = 258;

/// The most payload bytes that `start_transmission` takes: the buffer less its length byte.
pub const MAX_TX_LEN: usize = 257;

/// Radio channel: 2400 MHz plus this many MHz.
pub const FREQUENCY: u8 = 90;

/// Base address of both address slots.
pub const BASE_ADDRESS: u32 = 0xABCDABCD;

/// Address prefix that the transmitter sends with.
pub const TX_PREFIX: u8 = 0xEF;

/// Address prefix of the receiver's first slot.
pub const RX_PREFIX0: u8 = 0xDA;

/// Address prefix of the receiver's second slot.
pub const RX_PREFIX1: u8 = 0xEF;

/// Length in bytes of the base address.
pub const BASE_ADDRESS_LEN: u8 = 4;

/// Largest value of the length field.
pub const MAX_LEN_FIELD: u8 = 255;

/// Length in bytes of the CRC.
pub const CRC_LEN: u8 = 3;

/// CRC polynomial x^24 + x^10 + x^9 + x^6 + x^4 + x^3 + x + 1, without its leading term.
pub const CRC_POLY: u32 = 0b0000_0110_0101_1011;

/// Where the link layer stands.
#[derive(Clone, Copy, Debug, PartialEq, Eq, Structural)]
pub enum LinkState {
    /// Not enabled; nothing on air.
    Disabled,
    /// Powered and configured for one direction, waiting to be started.
    Ready,
    /// Sending the buffer; the hardware disables itself at the end of the packet.
    Transmitting,
    /// Listening into the buffer; the hardware disables itself at the end of the packet.
    Receiving,
}

/// The radio's event flags, or a set of its interrupt enables, one per event.
#[derive(Clone, Copy, Debug, PartialEq, Eq, Structural)]
pub struct RadioEvents {
    pub ready: bool,
    pub address: bool,
    pub payload: bool,
    pub end: bool,
    pub disabled: bool,
    pub devmatch: bool,
    pub devmiss: bool,
    pub rssiend: bool,
    pub bcmatch: bool,
    pub crcok: bool,
    pub crcerror: bool,
}

impl RadioEvents {
    pub open spec fn is_empty(&self) -> bool {
        !self.ready && !self.address && !self.payload && !self.end && !self.disabled
            && !self.devmatch && !self.devmiss && !self.rssiend && !self.bcmatch && !self.crcok
            && !self.crcerror
    }

    pub open spec fn is_full(&self) -> bool {
        self.ready && self.address && self.payload && self.end && self.disabled && self.devmatch
            && self.devmiss && self.rssiend && self.bcmatch && self.crcok && self.crcerror
    }

    /// Every flag of either set.
    pub open spec fn union(self, o: RadioEvents) -> RadioEvents {
        RadioEvents {
            ready: self.ready || o.ready,
            address: self.address || o.address,
            payload: self.payload || o.payload,
            end: self.end || o.end,
            disabled: self.disabled || o.disabled,
            devmatch: self.devmatch || o.devmatch,
            devmiss: self.devmiss || o.devmiss,
            rssiend: self.rssiend || o.rssiend,
            bcmatch: self.bcmatch || o.bcmatch,
            crcok: self.crcok || o.crcok,
            crcerror: self.crcerror || o.crcerror,
        }
    }

    pub open spec fn none_spec() -> RadioEvents {
        RadioEvents {
            ready: false,
            address: false,
            payload: false,
            end: false,
            disabled: false,
            devmatch: false,
            devmiss: false,
            rssiend: false,
            bcmatch: false,
            crcok: false,
            crcerror: false,
        }
    }

    /// A set with no flag raised.
    pub fn none() -> (r: RadioEvents)
        ensures
            r == RadioEvents::none_spec(),
            r.is_empty(),
    {
        RadioEvents {
            ready: false,
            address: false,
            payload: false,
            end: false,
            disabled: false,
            devmatch: false,
            devmiss: false,
            rssiend: false,
            bcmatch: false,
            crcok: false,
            crcerror: false,
        }
    }

    /// A set with every flag raised.
    pub fn all() -> (r: RadioEvents)
        ensures
            r.is_full(),
    {
        RadioEvents {
            ready: true,
            address: true,
            payload: true,
            end: true,
            disabled: true,
            devmatch: true,
            devmiss: true,
            rssiend: true,
            bcmatch: true,
            crcok: true,
            crcerror: true,
        }
    }

    /// A packet came in whole: address and payload seen, ended, CRC good, signal strength
    /// sampled.
    pub open spec fn packet_complete(&self) -> bool {
        self.address && self.payload && self.end && self.crcok && self.rssiend
    }
}

/// The bytes of all parts, one after another.
pub open spec fn concat(parts: Seq<Seq<u8>>) -> Seq<u8>
    decreases parts.len(),
{
    if parts.len() == 0 {
        Seq::empty()
    } else {
        concat(parts.drop_last()) + parts.last()
    }
}

pub open spec fn parts_of(data: Seq<&[u8]>) -> Seq<Seq<u8>> {
    data.map_values(|p: &[u8]| p@)
}

proof fn lemma_concat_prefix_len(parts: Seq<Seq<u8>>, k: int)
    requires
        0 <= k <= parts.len(),
    ensures
        concat(parts.take(k)).len() <= concat(parts).len(),
    decreases parts.len() - k,
{
    if k < parts.len() {
        lemma_concat_prefix_len(parts, k + 1);
        assert(parts.take(k + 1).drop_last() =~= parts.take(k));
    } else {
        assert(parts.take(k) =~= parts);
    }
}

/// The direction that the radio was last configured for.
#[derive(Clone, Copy, Debug, PartialEq, Eq, Structural)]
pub enum Direction {
    Unconfigured,
    Transmit,
    Receive,
}

/// The radio's configuration, register by register: channel, data rate, packet format,
/// addresses, transmit power, CRC and shortcuts.
#[derive(Clone, Copy, Debug, PartialEq, Eq, Structural)]
pub struct RadioConfig {
    pub powered: bool,
    /// Bluetooth Low Energy modulation at 1 Mbit/s.
    pub ble_1mbit: bool,
    /// 2400 MHz plus this many MHz.
    pub frequency: u8,
    /// Bits of the length field.
    pub length_bits: u8,
    /// A 16-bit preamble.
    pub long_preamble: bool,
    pub max_len: u8,
    pub base_address_len: u8,
    /// Most significant bit on air first.
    pub big_endian: bool,
    pub base0: u32,
    pub base1: u32,
    /// Prefix of address slot 0.
    pub prefix_ap0: u8,
    /// Prefix of address slot 1.
    pub prefix_ap1: u8,
    /// Address slot that a transmission uses.
    pub tx_address: u8,
    /// Address slots that a reception accepts, one bit each.
    pub rx_addresses: u8,
    /// Transmit power of +4 dBm.
    pub tx_power_pos4: bool,
    pub crc_len: u8,
    pub crc_poly: u32,
    /// Device address match: bases, prefixes, and whether slot 0 is enabled.
    pub dab0: u32,
    pub dab1: u32,
    pub dap0: u16,
    pub dap1: u16,
    pub dacnf_ena0: bool,
    /// Shortcut from READY to START.
    pub short_ready_start: bool,
    /// Shortcut from END to DISABLE.
    pub short_end_disable: bool,
    /// Shortcut from ADDRESS to RSSISTART.
    pub short_address_rssistart: bool,
}

impl RadioConfig {
    /// The radio as reset leaves it: off, every field zero.
    pub open spec fn reset_spec() -> RadioConfig {
        RadioConfig {
            powered: false,
            ble_1mbit: false,
            frequency: 0,
            length_bits: 0,
            long_preamble: false,
            max_len: 0,
            base_address_len: 0,
            big_endian: false,
            base0: 0,
            base1: 0,
            prefix_ap0: 0,
            prefix_ap1: 0,
            tx_address: 0,
            rx_addresses: 0,
            tx_power_pos4: false,
            crc_len: 0,
            crc_poly: 0,
            dab0: 0,
            dab1: 0,
            dap0: 0,
            dap1: 0,
            dacnf_ena0: false,
            short_ready_start: false,
            short_end_disable: false,
            short_address_rssistart: false,
        }
    }

    /// Sending: channel 90, BLE 1 Mbit, 8-bit length, packets up to 255 bytes, a 4-byte base
    /// 0xABCDABCD with prefix 0xEF in slot 0, +4 dBm, a 3-byte CRC, READY to START and END to
    /// DISABLE.
    pub open spec fn transmit_spec() -> RadioConfig {
        RadioConfig {
            powered: true,
            ble_1mbit: true,
            frequency: FREQUENCY,
            length_bits: 8,
            long_preamble: true,
            max_len: MAX_LEN_FIELD,
            base_address_len: BASE_ADDRESS_LEN,
            big_endian: true,
            base0: BASE_ADDRESS,
            prefix_ap0: TX_PREFIX,
            tx_address: 0,
            tx_power_pos4: true,
            crc_len: CRC_LEN,
            crc_poly: CRC_POLY,
            short_ready_start: true,
            short_end_disable: true,
            ..RadioConfig::reset_spec()
        }
    }

    /// Listening: the same channel, format and CRC; base 0xABCDABCD in both slots with prefixes
    /// 0xDA and 0xEF, both slots accepted, device address match on slot 0, and READY to START,
    /// ADDRESS to RSSISTART and END to DISABLE.
    pub open spec fn receive_spec() -> RadioConfig {
        RadioConfig {
            powered: true,
            ble_1mbit: true,
            frequency: FREQUENCY,
            length_bits: 8,
            long_preamble: true,
            max_len: MAX_LEN_FIELD,
            base_address_len: BASE_ADDRESS_LEN,
            big_endian: true,
            base0: BASE_ADDRESS,
            base1: BASE_ADDRESS,
            prefix_ap0: RX_PREFIX0,
            prefix_ap1: RX_PREFIX1,
            rx_addresses: 0b11,
            crc_len: CRC_LEN,
            crc_poly: CRC_POLY,
            dab0: BASE_ADDRESS,
            dab1: BASE_ADDRESS,
            dap0: RX_PREFIX0 as u16,
            dap1: RX_PREFIX0 as u16,
            dacnf_ena0: true,
            short_ready_start: true,
            short_end_disable: true,
            short_address_rssistart: true,
            ..RadioConfig::reset_spec()
        }
    }

    pub fn reset() -> (r: RadioConfig)
        ensures
            r == RadioConfig::reset_spec(),
    {
        RadioConfig {
            powered: false,
            ble_1mbit: false,
            frequency: 0,
            length_bits: 0,
            long_preamble: false,
            max_len: 0,
            base_address_len: 0,
            big_endian: false,
            base0: 0,
            base1: 0,
            prefix_ap0: 0,
            prefix_ap1: 0,
            tx_address: 0,
            rx_addresses: 0,
            tx_power_pos4: false,
            crc_len: 0,
            crc_poly: 0,
            dab0: 0,
            dab1: 0,
            dap0: 0,
            dap1: 0,
            dacnf_ena0: false,
            short_ready_start: false,
            short_end_disable: false,
            short_address_rssistart: false,
        }
    }

    pub fn transmit() -> (r: RadioConfig)
        ensures
            r == RadioConfig::transmit_spec(),
    {
        RadioConfig {
            powered: true,
            ble_1mbit: true,
            frequency: FREQUENCY,
            length_bits: 8,
            long_preamble: true,
            max_len: MAX_LEN_FIELD,
            base_address_len: BASE_ADDRESS_LEN,
            big_endian: true,
            base0: BASE_ADDRESS,
            prefix_ap0: TX_PREFIX,
            tx_address: 0,
            tx_power_pos4: true,
            crc_len: CRC_LEN,
            crc_poly: CRC_POLY,
            short_ready_start: true,
            short_end_disable: true,
            ..RadioConfig::reset()
        }
    }

    pub fn receive() -> (r: RadioConfig)
        ensures
            r == RadioConfig::receive_spec(),
    {
        RadioConfig {
            powered: true,
            ble_1mbit: true,
            frequency: FREQUENCY,
            length_bits: 8,
            long_preamble: true,
            max_len: MAX_LEN_FIELD,
            base_address_len: BASE_ADDRESS_LEN,
            big_endian: true,
            base0: BASE_ADDRESS,
            base1: BASE_ADDRESS,
            prefix_ap0: RX_PREFIX0,
            prefix_ap1: RX_PREFIX1,
            rx_addresses: 0b11,
            crc_len: CRC_LEN,
            crc_poly: CRC_POLY,
            dab0: BASE_ADDRESS,
            dab1: BASE_ADDRESS,
            dap0: RX_PREFIX0 as u16,
            dap1: RX_PREFIX0 as u16,
            dacnf_ena0: true,
            short_ready_start: true,
            short_end_disable: true,
            short_address_rssistart: true,
            ..RadioConfig::reset()
        }
    }
}

/// What the radio interrupt asks of its caller.
#[derive(Clone, Copy, Debug, PartialEq, Eq, Structural)]
pub struct RxOutcome {
    /// A whole packet with a good CRC sits in the buffer: `payload` gives it.
    pub deliver: bool,
    /// The radio has finished and reception was started again.
    pub rearm: bool,
}

/// The link layer: its state, the event flags and interrupt enables it has seen set, and the
/// one packet buffer, which the length byte leads.
pub struct Radio {
    packet: [u8; 258],
    state: LinkState,
    direction: Direction,
    config: RadioConfig,
    powered: bool,
    events: RadioEvents,
    interrupts: RadioEvents,
}

impl Radio {
    pub closed spec fn packet_view(&self) -> Seq<u8> {
        self.packet@
    }

    pub closed spec fn state_view(&self) -> LinkState {
        self.state
    }

    pub closed spec fn config_view(&self) -> RadioConfig {
        self.config
    }

    pub closed spec fn direction_view(&self) -> Direction {
        self.direction
    }

    pub closed spec fn powered_view(&self) -> bool {
        self.powered
    }

    pub closed spec fn events_view(&self) -> RadioEvents {
        self.events
    }

    pub closed spec fn interrupts_view(&self) -> RadioEvents {
        self.interrupts
    }

    /// The payload that the length byte announces: bytes `1 .. packet[0]`.
    pub open spec fn payload_spec(&self) -> Option<Seq<u8>> {
        if self.packet_view()[0] > 0 {
            Some(self.packet_view().subrange(1, self.packet_view()[0] as int))
        } else {
            None
        }
    }

    /// A radio that is off, with a zeroed buffer, no event and no interrupt enabled.
    pub fn new() -> (r: Radio)
        ensures
            r.packet_view() == Seq::new(258, |i: int| 0u8),
            r.state_view() == LinkState::Disabled,
            r.direction_view() == Direction::Unconfigured,
            r.config_view() == RadioConfig::reset_spec(),
            !r.powered_view(),
            r.events_view().is_empty(),
            r.interrupts_view().is_empty(),
    {
        let r = Radio {
            packet: [0u8; 258],
            state: LinkState::Disabled,
            direction: Direction::Unconfigured,
            config: RadioConfig::reset(),
            powered: false,
            events: RadioEvents::none(),
            interrupts: RadioEvents::none(),
        };
        assert(r.packet@ =~= Seq::new(258, |i: int| 0u8));
        r
    }

    pub fn power_off(&mut self)
        ensures
            !final(self).powered_view(),
            final(self).state_view() == LinkState::Disabled,
            final(self).direction_view() == old(self).direction_view(),
            final(self).config_view() == (RadioConfig { powered: false, ..old(self).config_view() }),
            final(self).packet_view() == old(self).packet_view(),
            final(self).events_view() == old(self).events_view(),
            final(self).interrupts_view() == old(self).interrupts_view(),
    {
        self.powered = false;
        self.state = LinkState::Disabled;
        self.config.powered = false;
    }

    pub fn power_enabled(&self) -> (r: bool)
        ensures
            r == self.powered_view(),
    {
        self.powered
    }

    pub fn state(&self) -> (r: LinkState)
        ensures
            r == self.state_view(),
    {
        self.state
    }

    /// Powers the radio and readies it to send with the fixed channel, address and CRC.
    pub fn init_transmission(&mut self)
        ensures
            final(self).powered_view(),
            final(self).state_view() == LinkState::Ready,
            final(self).direction_view() == Direction::Transmit,
            final(self).config_view() == RadioConfig::transmit_spec(),
            final(self).packet_view() == old(self).packet_view(),
            final(self).events_view() == old(self).events_view(),
            final(self).interrupts_view() == old(self).interrupts_view(),
    {
        self.powered = true;
        self.state = LinkState::Ready;
        self.direction = Direction::Transmit;
        self.config = RadioConfig::transmit();
    }

    /// Powers the radio and readies it to listen on the fixed channel, addresses and CRC.
    pub fn init_reception(&mut self)
        ensures
            final(self).powered_view(),
            final(self).state_view() == LinkState::Ready,
            final(self).direction_view() == Direction::Receive,
            final(self).config_view() == RadioConfig::receive_spec(),
            final(self).packet_view() == old(self).packet_view(),
            final(self).events_view() == old(self).events_view(),
            final(self).interrupts_view() == old(self).interrupts_view(),
    {
        self.powered = true;
        self.state = LinkState::Ready;
        self.direction = Direction::Receive;
        self.config = RadioConfig::receive();
    }

    /// The configuration that the registers must hold.
    pub fn config(&self) -> (r: RadioConfig)
        ensures
            r == self.config_view(),
    {
        self.config
    }

    pub fn direction(&self) -> (r: Direction)
        ensures
            r == self.direction_view(),
    {
        self.direction
    }

    /// Puts the parts one after another into the buffer behind a length byte of their total
    /// length plus one (modulo 256), enables the "disabled" interrupt and starts sending.
    pub fn start_transmission(&mut self, data: &[&[u8]])
        requires
            concat(parts_of(data@)).len() <= MAX_TX_LEN,
        ensures
            ({
                let bytes = concat(parts_of(data@));
                let n = bytes.len() as int;
                let p = final(self).packet_view();
                &&& p.len() == PACKET_LEN
                &&& p[0] == ((bytes.len() + 1) % 256) as u8
                &&& p.subrange(1, 1 + n) == bytes
                &&& p.subrange(1 + n, PACKET_LEN as int) == old(self).packet_view().subrange(
                    1 + n,
                    PACKET_LEN as int,
                )
            }),
            final(self).state_view() == LinkState::Transmitting,
            final(self).interrupts_view() == (RadioEvents { disabled: true, ..old(self).interrupts_view() }),
            final(self).events_view() == old(self).events_view(),
            final(self).powered_view() == old(self).powered_view(),
            final(self).direction_view() == old(self).direction_view(),
            final(self).config_view() == old(self).config_view(),
    {
        let ghost parts = parts_of(data@);
        let ghost old_packet = self.packet@;
        let mut len: usize = 0;
        let mut k: usize = 0;
        while k < data.len()
            invariant
                k <= data@.len(),
                parts == parts_of(data@),
                concat(parts).len() <= MAX_TX_LEN,
                len == concat(parts.take(k as int)).len(),
                self.packet@.len() == PACKET_LEN,
                self.packet@.subrange(1, 1 + len as int) == concat(parts.take(k as int)),
                self.packet@.subrange(1 + len as int, PACKET_LEN as int) == old_packet.subrange(
                    1 + len as int,
                    PACKET_LEN as int,
                ),
                self.packet@[0] == old_packet[0],
                old_packet.len() == PACKET_LEN,
                self.events == old(self).events,
                self.interrupts == old(self).interrupts,
                self.powered == old(self).powered,
                self.direction == old(self).direction,
                self.config == old(self).config,
            decreases data@.len() - k,
        {
            let part: &[u8] = data[k];
            proof {
                assert(parts.take(k + 1).drop_last() =~= parts.take(k as int));
                assert(parts.take(k + 1).last() == part@);
                lemma_concat_prefix_len(parts, k + 1);
            }
            let ghost len0 = len;
            let ghost before = self.packet@;
            let mut j: usize = 0;
            while j < part.len()
                invariant
                    j <= part@.len(),
                    len == len0 + j,
                    len0 + part@.len() <= MAX_TX_LEN,
                    self.packet@.len() == PACKET_LEN,
                    before.len() == PACKET_LEN,
                    old_packet.len() == PACKET_LEN,
                    len0 == concat(parts.take(k as int)).len(),
                    before.subrange(1, 1 + len0) == concat(parts.take(k as int)),
                    before.subrange(1 + len0, PACKET_LEN as int) == old_packet.subrange(
                        1 + len0,
                        PACKET_LEN as int,
                    ),
                    before[0] == old_packet[0],
                    self.events == old(self).events,
                    self.interrupts == old(self).interrupts,
                    self.powered == old(self).powered,
                    self.direction == old(self).direction,
                    self.config == old(self).config,
                self.config == old(self).config,
                    forall|i: int| 0 <= i < j ==> #[trigger] self.packet@[1 + len0 + i] == part@[i],
                    forall|i: int|
                        0 <= i < PACKET_LEN && !(1 + len0 <= i < 1 + len0 + j) ==> #[trigger] self.packet@[i]
                            == before[i],
                decreases part@.len() - j,
            {
                self.packet[len + 1] = part[j];
                len += 1;
                j += 1;
            }
            proof {
                let prev = concat(parts.take(k as int));
                assert forall|i: int| 0 <= i < len0 implies self.packet@[1 + i] == prev[i] by {
                    assert(before.subrange(1, 1 + len0)[i] == before[1 + i]);
                }
                assert forall|i: int| 0 <= i < part@.len() implies self.packet@[1 + len0 + i]
                    == part@[i] by {}
                assert forall|i: int| 0 <= i < len implies #[trigger] self.packet@.subrange(
                    1,
                    1 + len as int,
                )[i] == (prev + part@)[i] by {
                    if i >= len0 {
                        let t = i - len0;
                        assert(self.packet@[1 + len0 + t] == part@[t]);
                    }
                }
                assert(self.packet@.subrange(1, 1 + len as int) =~= prev + part@);
                assert forall|i: int| 1 + len <= i < PACKET_LEN implies self.packet@[i]
                    == old_packet[i] by {
                    assert(before.subrange(1 + len0, PACKET_LEN as int)[i - 1 - len0] == before[i]);
                    assert(old_packet.subrange(1 + len0, PACKET_LEN as int)[i - 1 - len0]
                        == old_packet[i]);
                }
                assert(self.packet@.subrange(1 + len as int, PACKET_LEN as int) =~= old_packet.subrange(
                    1 + len as int,
                    PACKET_LEN as int,
                ));
            }
            k += 1;
        }
        assert(parts.take(data@.len() as int) =~= parts);
        self.packet[0] = ((len + 1) % 256) as u8;
        assert(self.packet@.subrange(1, 1 + len as int) =~= concat(parts));
        assert(self.packet@.subrange(1 + len as int, PACKET_LEN as int) =~= old_packet.subrange(
            1 + len as int,
            PACKET_LEN as int,
        ));
        self.interrupts.disabled = true;
        self.state = LinkState::Transmitting;
    }

    /// Enables the "disabled" interrupt and starts listening into the buffer.
    pub fn start_reception(&mut self)
        ensures
            final(self).state_view() == LinkState::Receiving,
            final(self).interrupts_view() == (RadioEvents { disabled: true, ..old(self).interrupts_view() }),
            final(self).packet_view() == old(self).packet_view(),
            final(self).events_view() == old(self).events_view(),
            final(self).powered_view() == old(self).powered_view(),
            final(self).direction_view() == old(self).direction_view(),
            final(self).config_view() == old(self).config_view(),
    {
        self.interrupts.disabled = true;
        self.state = LinkState::Receiving;
    }

    /// Raises the flags that the hardware reports; a raised flag stays raised until reset.
    pub fn latch_events(&mut self, seen: RadioEvents)
        ensures
            final(self).events_view() == old(self).events_view().union(seen),
            final(self).packet_view() == old(self).packet_view(),
            final(self).state_view() == old(self).state_view(),
            final(self).interrupts_view() == old(self).interrupts_view(),
            final(self).powered_view() == old(self).powered_view(),
            final(self).direction_view() == old(self).direction_view(),
            final(self).config_view() == old(self).config_view(),
    {
        let e = self.events;
        self.events = RadioEvents {
            ready: e.ready || seen.ready,
            address: e.address || seen.address,
            payload: e.payload || seen.payload,
            end: e.end || seen.end,
            disabled: e.disabled || seen.disabled,
            devmatch: e.devmatch || seen.devmatch,
            devmiss: e.devmiss || seen.devmiss,
            rssiend: e.rssiend || seen.rssiend,
            bcmatch: e.bcmatch || seen.bcmatch,
            crcok: e.crcok || seen.crcok,
            crcerror: e.crcerror || seen.crcerror,
        };
    }

    /// Lowers every event flag.
    pub fn event_reset_all(&mut self)
        ensures
            final(self).events_view().is_empty(),
            final(self).packet_view() == old(self).packet_view(),
            final(self).state_view() == old(self).state_view(),
            final(self).interrupts_view() == old(self).interrupts_view(),
            final(self).powered_view() == old(self).powered_view(),
            final(self).direction_view() == old(self).direction_view(),
            final(self).config_view() == old(self).config_view(),
    {
        self.events = RadioEvents::none();
    }

    /// Disables every radio interrupt.
    pub fn clear_all(&mut self)
        ensures
            final(self).interrupts_view() == RadioEvents::none_spec(),
            final(self).interrupts_view().is_empty(),
            final(self).packet_view() == old(self).packet_view(),
            final(self).state_view() == old(self).state_view(),
            final(self).events_view() == old(self).events_view(),
            final(self).powered_view() == old(self).powered_view(),
            final(self).direction_view() == old(self).direction_view(),
            final(self).config_view() == old(self).config_view(),
    {
        self.interrupts = RadioEvents::none();
    }

    /// Enables every radio interrupt.
    pub fn set_all(&mut self)
        ensures
            final(self).interrupts_view().is_full(),
            final(self).packet_view() == old(self).packet_view(),
            final(self).state_view() == old(self).state_view(),
            final(self).events_view() == old(self).events_view(),
            final(self).powered_view() == old(self).powered_view(),
            final(self).direction_view() == old(self).direction_view(),
            final(self).config_view() == old(self).config_view(),
    {
        self.interrupts = RadioEvents::all();
    }

    /// Disables the ready interrupt.
    pub fn clear_ready(&mut self)
        ensures
            final(self).interrupts_view() == (RadioEvents { ready: false, ..old(self).interrupts_view() }),
            final(self).packet_view() == old(self).packet_view(),
            final(self).state_view() == old(self).state_view(),
            final(self).events_view() == old(self).events_view(),
            final(self).powered_view() == old(self).powered_view(),
            final(self).direction_view() == old(self).direction_view(),
            final(self).config_view() == old(self).config_view(),
    {
        self.interrupts.ready = false;
    }

    /// Disables the address interrupt.
    pub fn clear_address(&mut self)
        ensures
            final(self).interrupts_view() == (RadioEvents { address: false, ..old(self).interrupts_view() }),
            final(self).packet_view() == old(self).packet_view(),
            final(self).state_view() == old(self).state_view(),
            final(self).events_view() == old(self).events_view(),
            final(self).powered_view() == old(self).powered_view(),
            final(self).direction_view() == old(self).direction_view(),
            final(self).config_view() == old(self).config_view(),
    {
        self.interrupts.address = false;
    }

    /// Disables the payload interrupt.
    pub fn clear_payload(&mut self)
        ensures
            final(self).interrupts_view() == (RadioEvents { payload: false, ..old(self).interrupts_view() }),
            final(self).packet_view() == old(self).packet_view(),
            final(self).state_view() == old(self).state_view(),
            final(self).events_view() == old(self).events_view(),
            final(self).powered_view() == old(self).powered_view(),
            final(self).direction_view() == old(self).direction_view(),
            final(self).config_view() == old(self).config_view(),
    {
        self.interrupts.payload = false;
    }

    /// Disables the disabled interrupt.
    pub fn clear_disabled(&mut self)
        ensures
            final(self).interrupts_view() == (RadioEvents { disabled: false, ..old(self).interrupts_view() }),
            final(self).packet_view() == old(self).packet_view(),
            final(self).state_view() == old(self).state_view(),
            final(self).events_view() == old(self).events_view(),
            final(self).powered_view() == old(self).powered_view(),
            final(self).direction_view() == old(self).direction_view(),
            final(self).config_view() == old(self).config_view(),
    {
        self.interrupts.disabled = false;
    }

    /// Whether the ready interrupt is enabled.
    pub fn is_ready_set(&self) -> (r: bool)
        ensures
            r == self.interrupts_view().ready,
    {
        self.interrupts.ready
    }

    pub fn is_ready(&self) -> (r: bool)
        ensures
            r == self.events_view().ready,
    {
        self.events.ready
    }

    pub fn is_address(&self) -> (r: bool)
        ensures
            r == self.events_view().address,
    {
        self.events.address
    }

    pub fn is_payload(&self) -> (r: bool)
        ensures
            r == self.events_view().payload,
    {
        self.events.payload
    }

    pub fn is_rssi_ready(&self) -> (r: bool)
        ensures
            r == self.events_view().rssiend,
    {
        self.events.rssiend
    }

    pub fn event_ready(&self) -> (r: bool)
        ensures
            r == self.events_view().ready,
    {
        self.events.ready
    }

    pub fn event_address(&self) -> (r: bool)
        ensures
            r == self.events_view().address,
    {
        self.events.address
    }

    pub fn event_payload(&self) -> (r: bool)
        ensures
            r == self.events_view().payload,
    {
        self.events.payload
    }

    pub fn event_end(&self) -> (r: bool)
        ensures
            r == self.events_view().end,
    {
        self.events.end
    }

    pub fn event_disabled(&self) -> (r: bool)
        ensures
            r == self.events_view().disabled,
    {
        self.events.disabled
    }

    pub fn event_devmatch(&self) -> (r: bool)
        ensures
            r == self.events_view().devmatch,
    {
        self.events.devmatch
    }

    pub fn event_devmiss(&self) -> (r: bool)
        ensures
            r == self.events_view().devmiss,
    {
        self.events.devmiss
    }

    pub fn event_rssiend(&self) -> (r: bool)
        ensures
            r == self.events_view().rssiend,
    {
        self.events.rssiend
    }

    pub fn event_bcmatch(&self) -> (r: bool)
        ensures
            r == self.events_view().bcmatch,
    {
        self.events.bcmatch
    }

    pub fn event_crcok(&self) -> (r: bool)
        ensures
            r == self.events_view().crcok,
    {
        self.events.crcok
    }

    pub fn event_crcerror(&self) -> (r: bool)
        ensures
            r == self.events_view().crcerror,
    {
        self.events.crcerror
    }

    /// The radio interrupt of a listening link: disables the interrupts, takes the flags and
    /// lowers them all, reports whether a whole packet with a good CRC and a payload is in the
    /// buffer, and, where the radio has disabled itself, listens again whatever the CRC said.
    pub fn handle_interrupt(&mut self) -> (r: RxOutcome)
        ensures
            r.deliver == (old(self).events_view().packet_complete() && old(self).payload_spec() is Some),
            r.rearm == old(self).events_view().disabled,
            final(self).events_view().is_empty(),
            final(self).packet_view() == old(self).packet_view(),
            final(self).powered_view() == old(self).powered_view(),
            final(self).direction_view() == old(self).direction_view(),
            final(self).config_view() == old(self).config_view(),
            r.rearm ==> final(self).state_view() == LinkState::Receiving
                && final(self).interrupts_view() == (RadioEvents { disabled: true, ..RadioEvents::none_spec() }),
            !r.rearm ==> final(self).state_view() == old(self).state_view()
                && final(self).interrupts_view().is_empty(),
    {
        self.clear_all();
        let seen = self.events;
        self.event_reset_all();
        let deliver = seen.address && seen.payload && seen.end && seen.crcok && seen.rssiend
            && self.packet[0] > 0;
        if seen.disabled {
            self.start_reception();
        }
        RxOutcome { deliver, rearm: seen.disabled }
    }

    /// The whole packet buffer, length byte first, as the radio sends it.
    pub fn packet(&self) -> (r: &[u8; 258])
        ensures
            r@ == self.packet_view(),
    {
        &self.packet
    }

    /// The packet buffer, for a reception to fill, length byte first.
    pub fn packet_mut(&mut self) -> (r: &mut [u8; 258])
        ensures
            (*r)@ == old(self).packet_view(),
            final(self).packet_view() == (*final(r))@,
            final(self).state_view() == old(self).state_view(),
            final(self).events_view() == old(self).events_view(),
            final(self).interrupts_view() == old(self).interrupts_view(),
            final(self).powered_view() == old(self).powered_view(),
            final(self).direction_view() == old(self).direction_view(),
            final(self).config_view() == old(self).config_view(),
    {
        &mut self.packet
    }

    /// Takes the buffer that a reception filled, length byte first.
    pub fn receive(&mut self, frame: [u8; 258])
        ensures
            final(self).packet_view() == frame@,
            final(self).state_view() == old(self).state_view(),
            final(self).events_view() == old(self).events_view(),
            final(self).interrupts_view() == old(self).interrupts_view(),
            final(self).powered_view() == old(self).powered_view(),
            final(self).direction_view() == old(self).direction_view(),
            final(self).config_view() == old(self).config_view(),
    {
        self.packet = frame;
    }

    /// The payload of the packet in the buffer, `None` where its length byte is zero. It is
    /// valid until the next transmission or reception.
    pub fn payload(&self) -> (r: Option<&[u8]>)
        ensures
            r is Some <==> self.payload_spec() is Some,
            r matches Some(s) ==> self.payload_spec() == Some(s@),
    {
        let n = self.packet[0];
        if n > 0 {
            Some(slice_subrange(self.packet.as_slice(), 1, n as usize))
        } else {
            None
        }
    }
}

} // verus!
