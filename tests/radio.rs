use sensor_net::radio::{Direction, LinkState, Radio, RadioConfig, RadioEvents, MAX_TX_LEN, PACKET_LEN};

#[test]
fn new_radio_has_no_payload() {
    let r = Radio::new();
    assert_eq!(r.payload(), None);
    assert_eq!(r.state(), LinkState::Disabled);
    assert!(!r.power_enabled());
}

#[test]
fn transmission_concatenates_parts() {
    let mut r = Radio::new();
    r.init_transmission();
    assert!(r.power_enabled());
    assert_eq!(r.state(), LinkState::Ready);
    let a = [1u8, 2];
    let b = [3u8];
    let parts: [&[u8]; 3] = [&a, &[], &b];
    r.start_transmission(&parts);
    assert_eq!(r.state(), LinkState::Transmitting);
    assert_eq!(r.payload(), Some(&[1u8, 2, 3][..]));
}

#[test]
fn transmission_of_full_buffer() {
    let mut r = Radio::new();
    let data: Vec<u8> = (0..MAX_TX_LEN).map(|i| i as u8).collect();
    assert_eq!(data.len(), 257);
    let parts: [&[u8]; 1] = [&data];
    r.start_transmission(&parts);
    // the length byte is the total plus one, modulo 256
    assert_eq!(r.payload(), Some(&[0u8][..]));
    assert_eq!(PACKET_LEN, 258);
}

#[test]
fn transmission_of_largest_consistent_packet() {
    let mut r = Radio::new();
    let data: Vec<u8> = (0..254u32).map(|i| i as u8).collect();
    let parts: [&[u8]; 1] = [&data];
    r.start_transmission(&parts);
    assert_eq!(r.payload(), Some(&data[..]));
}

#[test]
fn empty_transmission_payload() {
    let mut r = Radio::new();
    let parts: [&[u8]; 0] = [];
    r.start_transmission(&parts);
    assert_eq!(r.payload(), Some(&[][..]));
}

#[test]
fn event_reset_clears_every_reader() {
    let mut r = Radio::new();
    r.latch_events(RadioEvents::all());
    assert!(r.event_ready() && r.event_address() && r.event_payload() && r.event_end());
    assert!(r.event_disabled() && r.event_devmatch() && r.event_devmiss() && r.event_rssiend());
    assert!(r.event_bcmatch() && r.event_crcok() && r.event_crcerror());
    r.event_reset_all();
    assert!(!r.event_ready());
    assert!(!r.event_address());
    assert!(!r.event_payload());
    assert!(!r.event_end());
    assert!(!r.event_disabled());
    assert!(!r.event_devmatch());
    assert!(!r.event_devmiss());
    assert!(!r.event_rssiend());
    assert!(!r.event_bcmatch());
    assert!(!r.event_crcok());
    assert!(!r.event_crcerror());
}

#[test]
fn crc_failure_still_rearms() {
    let mut r = Radio::new();
    r.init_reception();
    r.start_reception();
    let mut seen = RadioEvents::none();
    seen.address = true;
    seen.payload = true;
    seen.end = true;
    seen.disabled = true;
    seen.rssiend = true;
    seen.crcerror = true;
    r.latch_events(seen);
    let out = r.handle_interrupt();
    assert!(!out.deliver);
    assert!(out.rearm);
    assert_eq!(r.state(), LinkState::Receiving);
    assert!(!r.event_crcerror() && !r.event_disabled());
}

#[test]
fn good_packet_is_delivered() {
    let mut r = Radio::new();
    let body = [0x04u8, 0x00, 0x55];
    let parts: [&[u8]; 1] = [&body];
    r.start_transmission(&parts);
    let mut seen = RadioEvents::none();
    seen.address = true;
    seen.payload = true;
    seen.end = true;
    seen.crcok = true;
    seen.rssiend = true;
    r.latch_events(seen);
    let out = r.handle_interrupt();
    assert!(out.deliver);
    assert!(!out.rearm);
    assert_eq!(r.payload(), Some(&body[..]));
}

#[test]
fn interrupt_enables() {
    let mut r = Radio::new();
    r.set_all();
    r.clear_all();
    r.power_off();
    assert_eq!(r.state(), LinkState::Disabled);
    assert!(!r.power_enabled());
}

#[test]
fn received_frame_gives_payload() {
    let mut r = Radio::new();
    let mut frame = [0u8; 258];
    frame[0] = 3;
    frame[1] = 0xAA;
    frame[2] = 0xBB;
    frame[3] = 0xCC;
    r.receive(frame);
    assert_eq!(r.packet()[0], 3);
    assert_eq!(r.payload(), Some(&[0xAAu8, 0xBB][..]));
}

#[test]
fn direction_follows_configuration() {
    let mut r = Radio::new();
    assert_eq!(r.direction(), Direction::Unconfigured);
    r.init_reception();
    assert_eq!(r.direction(), Direction::Receive);
    r.init_transmission();
    assert_eq!(r.direction(), Direction::Transmit);
    r.power_off();
    assert_eq!(r.direction(), Direction::Transmit);
}

#[test]
fn init_fixes_the_configuration() {
    let mut r = Radio::new();
    assert_eq!(r.config(), RadioConfig::reset());
    r.init_transmission();
    let t = r.config();
    assert!(t.powered && t.ble_1mbit && t.tx_power_pos4);
    assert_eq!((t.frequency, t.length_bits, t.max_len, t.base_address_len), (90, 8, 255, 4));
    assert_eq!((t.base0, t.prefix_ap0, t.tx_address), (0xABCDABCD, 0xEF, 0));
    assert_eq!((t.crc_len, t.crc_poly), (3, 0x65B));
    assert!(t.short_ready_start && t.short_end_disable && !t.short_address_rssistart);
    r.init_reception();
    let c = r.config();
    assert_eq!((c.frequency, c.crc_len, c.crc_poly), (90, 3, 0x65B));
    assert_eq!((c.base0, c.base1, c.prefix_ap0, c.prefix_ap1, c.rx_addresses), (0xABCDABCD, 0xABCDABCD, 0xDA, 0xEF, 0b11));
    assert!(c.short_ready_start && c.short_end_disable && c.short_address_rssistart);
    assert_eq!(c, RadioConfig::receive());
    r.power_off();
    assert!(!r.config().powered);
}

#[test]
fn interrupt_and_event_readers() {
    let mut r = Radio::new();
    r.set_all();
    assert!(r.is_ready_set());
    r.clear_ready();
    assert!(!r.is_ready_set());
    r.clear_address();
    r.clear_payload();
    r.clear_disabled();
    let mut seen = RadioEvents::none();
    seen.ready = true;
    seen.rssiend = true;
    r.latch_events(seen);
    assert!(r.is_ready() && r.is_rssi_ready() && !r.is_address() && !r.is_payload());
}
