use sensor_net::clock::{Clock, Source};
use sensor_net::node::{adc_to_millivolts, device_id_from, BoardConfig, NodeState, SensorNode, LOW_BATTERY_MV};
use sensor_net::power::{get_event, Event};
use sensor_net::rng::Rng;
use sensor_net::utils::{copy_into_array, get_key, DEFAULT_KEY};

#[test]
fn sequence_indices_increase() {
    let mut node = SensorNode::new(1, 2, 3);
    let mut last = None;
    for _ in 0..5 {
        assert_eq!(node.state(), NodeState::Sleeping);
        assert!(node.wake(LOW_BATTERY_MV));
        let r = node.assemble(4, vec![]);
        if let Some(prev) = last {
            assert!(r.sequence > prev);
            assert_eq!(r.sequence, prev + 1);
        }
        last = Some(r.sequence);
        assert_eq!(node.state(), NodeState::Transmitting);
        node.transmitted();
    }
    assert_eq!(last, Some(4));
    assert_eq!(node.index(), 5);
}

#[test]
fn low_battery_halts() {
    let mut node = SensorNode::new(1, 2, 3);
    assert!(!node.wake(LOW_BATTERY_MV - 1));
    assert_eq!(node.state(), NodeState::Halted);
    assert_eq!(node.index(), 0);
}

#[test]
fn battery_reading_in_millivolts() {
    assert_eq!(adc_to_millivolts(1023), 1498);
    assert_eq!(adc_to_millivolts(750), 1098);
    assert_eq!(adc_to_millivolts(751), 1100);
    assert_eq!(adc_to_millivolts(0), 0);
}

#[test]
fn board_config_word() {
    let c = BoardConfig::from_word(0x01010100);
    assert_eq!(c, BoardConfig { board_type: 1, major: 1, minor: 1, patch: 0 });
    assert_eq!(c.to_word(), 0x01010100);
    assert_eq!(BoardConfig::from_word(0xFEDCBA98).to_word(), 0xFEDCBA98);
}

#[test]
fn device_id_words() {
    assert_eq!(device_id_from(0x55667788, 0x11223344), 0x1122334455667788);
}

#[test]
fn power_event_priority() {
    assert_eq!(get_event(true, true), Event::SleepExit);
    assert_eq!(get_event(false, true), Event::SleepEnter);
    assert_eq!(get_event(false, false), Event::NoEvent);
}

#[test]
fn default_key_bytes() {
    let expected = u128::from_str_radix(DEFAULT_KEY, 16).unwrap().to_le_bytes();
    assert_eq!(get_key(DEFAULT_KEY.as_bytes()), Some(expected));
    assert_eq!(
        get_key(DEFAULT_KEY.as_bytes()),
        Some([159, 142, 125, 108, 91, 74, 57, 40, 23, 6, 245, 228, 211, 194, 177, 160])
    );
}

#[test]
fn key_text_edge_cases() {
    let mut one = [0u8; 16];
    one[0] = 1;
    assert_eq!(get_key(b"+1"), Some(one));
    assert_eq!(get_key(b""), None);
    assert_eq!(get_key(b"+"), None);
    assert_eq!(get_key(b"-1"), None);
    assert_eq!(get_key(b"12g4"), None);
    assert_eq!(get_key(&[b'f'; 32]), Some([0xFF; 16]));
    assert_eq!(get_key(&[b'f'; 33]), None);
    let mut padded = vec![b'0'; 40];
    padded.push(b'1');
    assert_eq!(get_key(&padded), Some(one));
    assert_eq!(get_key(b"aBcD"), Some({
        let mut k = [0u8; 16];
        k[0] = 0xCD;
        k[1] = 0xAB;
        k
    }));
}

#[test]
fn copy_into_array_keeps_tail() {
    let mut target = [9u8; 6];
    copy_into_array(&[1, 2, 3], &mut target);
    assert_eq!(target, [1, 2, 3, 9, 9, 9]);
    copy_into_array(&[], &mut target);
    assert_eq!(target, [1, 2, 3, 9, 9, 9]);
}

#[test]
fn clock_typestate() {
    let clock = Clock::new(7u32);
    assert_eq!(clock.lf_config(), None);
    let clock = clock.start_lfclk(Source::Xtal, false, false);
    let hf = clock.start_hfclk();
    assert_eq!(*hf.peripheral(), 7);
    let clock = hf.stop_hfclk();
    assert_eq!(clock.lf_config().map(|c| c.source), Some(Source::Xtal));
    let clock = clock.stop_lfclk();
    assert_eq!(*clock.peripheral(), 7);
}

#[test]
fn rng_typestate() {
    let rng = Rng::new("rng");
    let active = rng.start_getting_value();
    assert_eq!(*active.peripheral(), "rng");
    let idle = active.complete();
    assert_eq!(*idle.peripheral(), "rng");
}
