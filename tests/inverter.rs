use modbus_rtu::config::{Config as LineConfig, DataBits, FlowControl, Parity, StopBits};
use modbus_rtu::frame::Frame;
use modbus_rtu::id_pool::IdPool;
use modbus_rtu::inverter::{ErrorCode, RunState, Status, SystemStatus, US3202510};
use modbus_rtu::structs::request::{ReadRegisters, WriteRegister};
use modbus_rtu::structs::RequestPayload;

fn line_config() -> LineConfig {
    LineConfig {
        slave_id: 1,
        path: "/dev/ttyUSB0".to_string(),
        data_bits: DataBits::Eight,
        parity: Parity::Off,
        stop_bits: StopBits::One,
        flow_control: FlowControl::Off,
        timeout: 500_000_000,
        baudrate: 38_400,
        machine_operation_delay: 0,
    }
}

fn with_crc(body: &[u8]) -> Vec<u8> {
    let crc = Frame::compute_crc(body);
    let mut v = body.to_vec();
    v.push((crc & 0xff) as u8);
    v.push((crc >> 8) as u8);
    v
}

#[test]
fn frequency_target_is_sent_to_its_register() {
    let mut vfd = US3202510::new(line_config());
    assert!(vfd.update(None).is_none());
    vfd.set_frequency_target(5000);
    vfd.set_frequency_target(2500);
    assert_eq!(vfd.get_config().frequency, 2500);
    let f = vfd.update(None).expect("frame to send");
    assert_eq!(
        RequestPayload::decode_frame(&f),
        Some(RequestPayload::PresetHoldingRegister(WriteRegister { address: 0x0002, value: 2500 }))
    );
    // in flight: nothing more is handed out until the reply is settled
    vfd.refresh_status();
    assert!(vfd.update(None).is_none());
    let next = vfd.update(Some(Ok(None))).expect("status read");
    assert_eq!(
        RequestPayload::decode_frame(&next),
        Some(RequestPayload::ReadInputRegisters(ReadRegisters { start_address: 0x0008, quantity: 6 }))
    );
}

#[test]
fn rotation_is_inverted_for_the_gearbox() {
    let mut vfd = US3202510::new(line_config());
    vfd.set_rotation_state(RunState::Forward);
    assert_eq!(vfd.get_config().run_state, RunState::Forward);
    let f = vfd.update(None).unwrap();
    assert_eq!(f.bytes()[..6], [0x01, 0x06, 0x00, 0x03, 0x00, 0x03]);
    vfd.set_rotation_state(RunState::Reverse);
    let f = vfd.update(Some(Ok(None))).unwrap();
    assert_eq!(f.bytes()[..6], [0x01, 0x06, 0x00, 0x03, 0x00, 0x01]);
    vfd.stop_motor();
    let f = vfd.update(Some(Ok(None))).unwrap();
    assert_eq!(f.bytes()[..6], [0x01, 0x06, 0x00, 0x03, 0x00, 0x02]);
}

#[test]
fn status_reply_updates_status() {
    let mut vfd = US3202510::new(line_config());
    vfd.refresh_status();
    let f = vfd.update(None).unwrap();
    assert_eq!(f.bytes(), &with_crc(&[0x01, 0x04, 0x00, 0x08, 0x00, 0x06])[..]);
    let reply = with_crc(&[
        0x01, 0x04, 0x0C, 0x01, 0x36, 0x00, 0x64, 0x00, 0x2A, 0x00, 0x01, 0x00, 0x00, 0x13, 0x88,
    ]);
    let reply = Frame::from_bytes(&reply).unwrap();
    assert!(vfd.update(Some(Ok(Some(reply)))).is_none());
    assert_eq!(
        vfd.get_status(),
        Some(Status {
            voltage: 310,
            current: 100,
            temperature: 42,
            system_status: 1,
            error_code: 0,
            frequency: 5000,
        })
    );
}

#[test]
fn failed_transaction_keeps_status() {
    let mut vfd = US3202510::new(line_config());
    vfd.refresh_status();
    vfd.update(None).unwrap();
    let e = std::io::Error::new(std::io::ErrorKind::Other, "line down");
    vfd.set_acceleration_level(3);
    let f = vfd.update(Some(Err(modbus_rtu::interface::InterfaceIOError::Write(e)))).unwrap();
    assert_eq!(f.bytes()[..6], [0x01, 0x06, 0x00, 0x04, 0x00, 0x03]);
    assert_eq!(vfd.get_status(), None);
    vfd.set_deceleration_level(9);
    assert_eq!(vfd.get_config().deceleration_level, 9);
}

#[test]
fn id_pool_reuses_freed_ids() {
    let mut pool = IdPool::new(2);
    assert_eq!(pool.allocate(), Some(0));
    assert_eq!(pool.allocate(), Some(1));
    assert_eq!(pool.allocate(), None);
    pool.free(0);
    pool.free(1);
    assert_eq!(pool.allocate(), Some(1));
    assert_eq!(pool.allocate(), Some(0));
    assert_eq!(pool.allocate(), None);
}

#[test]
fn status_codes_decode() {
    assert_eq!(SystemStatus::from_register(0), Some(SystemStatus::Idle));
    assert_eq!(SystemStatus::from_register(2), Some(SystemStatus::Fault));
    assert_eq!(SystemStatus::from_register(3), None);
    assert_eq!(ErrorCode::from_register(0), Some(ErrorCode::NoError));
    assert_eq!(ErrorCode::from_register(7), Some(ErrorCode::InverterPowerCut));
    assert_eq!(ErrorCode::from_register(8), None);
}
