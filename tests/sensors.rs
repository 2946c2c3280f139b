use sensor_net::exchange::{BusOp, Step};
use sensor_net::lsm303agr::{Lsm303agrError, Measurement, ACC_POLL_LIMIT, LSM303AGR, MAG_POLL_LIMIT};
use sensor_net::mmc5603nj::{Mmc5603njBias, MMC5603NJ};
use sensor_net::sht3::{Sht3Error, SHT3};
use sensor_net::sht4x::{crc8, Sht4xError, CMD_MEASURE, CMD_READ_SERIAL, SHT4X};
use sensor_net::twim::{transfer_result, Error};

#[test]
fn crc8_datasheet_example() {
    assert_eq!(crc8(&[0xBE, 0xEF]), 0x92);
    assert_eq!(crc8(&[]), 0xFF);
}

#[test]
fn sht4x_commands() {
    let mut s = SHT4X::new(0x44);
    assert_eq!(s.address(), 0x44);
    assert_eq!(s.start_reading_serial(), Ok(()));
    assert_eq!(s.command(), CMD_READ_SERIAL);
    assert_eq!(s.wait_us(), 1_000);
    assert_eq!(s.start_measurement(), Ok(()));
    assert_eq!(s.command(), CMD_MEASURE);
    assert_eq!(s.wait_us(), 10_000);
}

#[test]
fn sht4x_serial() {
    let s = SHT4X::new(0x44);
    assert_eq!(s.wait_for_serial(&[0xBE, 0xEF, 0x92, 0x12, 0x34, 0x37]), Ok(0xBEEF1234));
    assert_eq!(s.wait_for_serial(&[0xBE, 0xEF, 0x93, 0x12, 0x34, 0x37]), Err(Sht4xError::CrcError));
    assert_eq!(s.wait_for_serial(&[0xBE, 0xEF, 0x92, 0x12, 0x34, 0x36]), Err(Sht4xError::CrcError));
}

#[test]
fn sht4x_measurement() {
    let s = SHT4X::new(0x44);
    let m = s.wait_for_measurement(&[0x66, 0x66, 0x93, 0x80, 0x00, 0xA2]).unwrap();
    assert_eq!(m.temperature, 0x6666);
    assert_eq!(m.humidity, 0x8000);
}

#[test]
fn sht3_check_id_then_crc() {
    let s = SHT3::new();
    assert_eq!(s.address(), 0x70);
    assert_eq!(s.check_id::<()>(&[0x08, 0x47, 0x1C]), Ok(()));
    assert_eq!(s.check_id::<()>(&[0x00, 0x47, 0x1C]), Err(Sht3Error::IdError));
    assert_eq!(s.check_id::<()>(&[0x08, 0x46, 0x1C]), Err(Sht3Error::IdError));
    assert_eq!(s.check_id::<()>(&[0x08, 0x47, 0x1D]), Err(Sht3Error::CrcError));
}

#[test]
fn sht3_decode_and_crc() {
    let s = SHT3::new();
    assert_eq!(s.crc8(&[0x08, 0x47]), 0x1C);
    assert_eq!(s.crc8(&[0xBE, 0xEF]), 0x92);
    let m = s.decode_measurement::<()>(&[0x66, 0x66, 0x93, 0x80, 0x00, 0xA2]).unwrap();
    assert_eq!((m.temperature, m.humidity), (0x6666, 0x8000));
    assert_eq!(s.decode_measurement::<()>(&[0x66, 0x66, 0x2D, 0x80, 0x00, 0xA2]), Err(Sht3Error::CrcError));
}

fn w(address: u8, bytes: &[u8]) -> BusOp {
    BusOp::Write { address, bytes: bytes.to_vec() }
}

#[test]
fn sht3_init_exchange() {
    let s = SHT3::new();
    let expected = [
        w(0x70, &[0x35, 0x17]),
        BusOp::DelayMs { ms: 1 },
        w(0x70, &[0xEF, 0xC8]),
        BusOp::Read { address: 0x70, len: 3 },
        w(0x70, &[0xB0, 0x98]),
    ];
    let mut done: Vec<Result<Vec<u8>, u8>> = Vec::new();
    for op in expected {
        assert_eq!(s.init(&done), Step::Issue(op));
        let reply = if done.len() == 3 { vec![0x08, 0x46, 0x1C] } else { vec![] };
        done.push(Ok(reply));
    }
    // the sleep command went out before the id was found wrong
    assert_eq!(s.init(&done), Step::Finish(Err(Sht3Error::IdError)));
    done[3] = Ok(vec![0x08, 0x47, 0x1C]);
    assert_eq!(s.init(&done), Step::Finish(Ok(())));
    let failed: Vec<Result<Vec<u8>, u8>> = vec![Ok(vec![]), Err(7)];
    assert_eq!(s.init(&failed), Step::Finish(Err(Sht3Error::EmbeddedError(7))));
}

#[test]
fn sht3_measurement_exchange() {
    let s = SHT3::new();
    let mut done: Vec<Result<Vec<u8>, u8>> = Vec::new();
    let mut ops = Vec::new();
    while let Step::Issue(op) = s.get_measurement(&done) {
        let reply = if let BusOp::Read { len, .. } = op { vec![0x66, 0x66, 0x93, 0x80, 0x00, 0xA2][..len].to_vec() } else { vec![] };
        ops.push(op);
        done.push(Ok(reply));
    }
    assert_eq!(ops.len(), 6);
    assert_eq!(ops[3], BusOp::DelayMs { ms: 15 });
    assert_eq!(ops[5], w(0x70, &[0xB0, 0x98]));
    match s.get_measurement(&done) {
        Step::Finish(Ok(m)) => assert_eq!((m.temperature, m.humidity), (0x6666, 0x8000)),
        other => panic!("unexpected {:?}", other),
    }
    done[4] = Ok(vec![0x66, 0x66, 0x00, 0x80, 0x00, 0xA2]);
    assert_eq!(s.get_measurement(&done), Step::Finish(Err(Sht3Error::CrcError)));
}

#[test]
fn lsm303agr_init_exchange() {
    let s = LSM303AGR::new();
    let mut done: Vec<Result<Vec<u8>, u8>> = Vec::new();
    assert_eq!(s.init(&done), Step::Issue(w(0x19, &[0x0F])));
    done.push(Ok(vec![]));
    assert_eq!(s.init(&done), Step::Issue(BusOp::Read { address: 0x19, len: 1 }));
    done.push(Ok(vec![0x32]));
    assert_eq!(s.init(&done), Step::Finish(Err(Lsm303agrError::IdError)));
    done[1] = Ok(vec![0x33]);
    assert_eq!(s.init(&done), Step::Issue(w(0x19, &[0x24, 0x80])));
    done.push(Ok(vec![]));
    assert_eq!(s.init(&done), Step::Issue(w(0x1E, &[0x4F])));
    done.push(Ok(vec![]));
    assert_eq!(s.init(&done), Step::Issue(BusOp::Read { address: 0x1E, len: 1 }));
    done.push(Ok(vec![0x40]));
    assert_eq!(s.init(&done), Step::Issue(w(0x1E, &[0x60, 0x63])));
    done.push(Ok(vec![]));
    assert_eq!(s.init(&done), Step::Finish(Ok(())));
    done[4] = Ok(vec![0x41]);
    done.truncate(5);
    assert_eq!(s.init(&done), Step::Finish(Err(Lsm303agrError::IdError)));
    done[4] = Err(3);
    assert_eq!(s.init(&done), Step::Finish(Err(Lsm303agrError::EmbeddedError(3))));
}

#[test]
fn mmc5603nj_start_writes() {
    let mut m = MMC5603NJ::new(0b0011_0000);
    assert_eq!(m.address(), 0b0011_0000);
    assert_eq!(m.start_magnetic__measruement(Mmc5603njBias::SetPulse), Ok(vec![[0x1B, 0x08], [0x1B, 0x01]]));
    assert_eq!(m.start_magnetic__measruement(Mmc5603njBias::ResetPulse), Ok(vec![[0x1B, 0x10], [0x1B, 0x01]]));
    assert_eq!(m.start_magnetic__measruement(Mmc5603njBias::NoPulse), Ok(vec![[0x1B, 0x01]]));
    assert_eq!(m.start_temperature_measurement(), Ok([0x1B, 0x02]));
}

#[test]
fn mmc5603nj_readings() {
    let m = MMC5603NJ::new(0x30);
    assert!(m.magnetic_done(0x40));
    assert!(!m.magnetic_done(0x80));
    assert!(m.temperature_done(0xC0));
    assert!(!m.temperature_done(0x40));
    assert_eq!(m.wait_for_magnetic_measurement(&[0x80, 0x00, 0x12, 0x34, 0xFF, 0xFF]), Ok((0x8000, 0x1234, 0xFFFF)));
    assert_eq!(m.wait_for_temperature_measurement(100), Ok(100));
}

#[test]
fn lsm303agr_ids() {
    let s = LSM303AGR::new();
    assert_eq!((s.address_acc(), s.address_mag()), (0b0011001, 0b0011110));
    assert_eq!(s.check_ids::<()>(0x33, 0x40), Ok(()));
    assert_eq!(s.check_ids::<()>(0x32, 0x40), Err(Lsm303agrError::IdError));
    assert_eq!(s.check_ids::<()>(0x33, 0x41), Err(Lsm303agrError::IdError));
    assert_eq!(s.check_acc_id::<()>(0x33), Ok(()));
}

#[test]
fn lsm303agr_sign_extend() {
    let s = LSM303AGR::new();
    assert_eq!(s.sign_extend([0xF0, 0xFF]), [0xFF, 0xFF]);
    assert_eq!(s.sign_extend([0x00, 0x80]), [0x00, 0xF8]);
    assert_eq!(s.sign_extend([0xF0, 0x7F]), [0xFF, 0x07]);
    assert_eq!(s.sign_extend([0x10, 0x00]), [0x01, 0x00]);
}

#[test]
fn lsm303agr_polling_and_measurement() {
    let s = LSM303AGR::new();
    assert!(s.keep_polling(0, MAG_POLL_LIMIT, 0x00));
    assert!(!s.keep_polling(0, MAG_POLL_LIMIT, 0x08));
    assert!(!s.keep_polling(MAG_POLL_LIMIT, MAG_POLL_LIMIT, 0x00));
    let acc = [0xF0, 0xFF, 0x00, 0x80, 0xF0, 0x7F];
    let mag = [0x2C, 0x01, 0xD4, 0xFE, 0x00, 0x00];
    assert_eq!(
        s.get_measurement::<()>(3, 2, &acc, &mag),
        Ok(Measurement { acc_x: -1, acc_y: -2048, acc_z: 2047, mag_x: 300, mag_y: -300, mag_z: 0 })
    );
    assert_eq!(s.get_measurement::<()>(MAG_POLL_LIMIT, 2, &acc, &mag), Err(Lsm303agrError::MeasurementTimeoutError));
    assert_eq!(s.get_measurement::<()>(3, ACC_POLL_LIMIT, &acc, &mag), Err(Lsm303agrError::MeasurementTimeoutError));
    assert_eq!(s.poll_outcome::<()>(ACC_POLL_LIMIT, ACC_POLL_LIMIT), Err(Lsm303agrError::MeasurementTimeoutError));
}

#[test]
fn twim_transfer_result() {
    assert_eq!(transfer_result(false), Ok(()));
    assert!(matches!(transfer_result(true), Err(Error::Transmit)));
}
