use modbus_rtu::config::{Config, DataBits, FlowControl, Parity, StopBits};
use modbus_rtu::frame::{Frame, FrameParseError};
use modbus_rtu::interface::{
    higher_priority_than, Interface, InterfaceIOError, Request, RequestRegistryEntry, SendError,
};
use modbus_rtu::structs::request::{ReadRegisters, WriteRegister};
use modbus_rtu::structs::{RequestPayload, RequestResult};

fn line_config() -> Config {
    Config {
        slave_id: 1,
        path: "/dev/ttyUSB0".to_string(),
        data_bits: DataBits::Eight,
        parity: Parity::Off,
        stop_bits: StopBits::One,
        flow_control: FlowControl::Off,
        timeout: 500_000_000,
        baudrate: 9600,
        machine_operation_delay: 0,
    }
}

fn registry(priorities: &[u32]) -> Vec<RequestRegistryEntry> {
    priorities.iter().map(|&priority| RequestRegistryEntry { priority, extra_delay: 0 }).collect()
}

fn write(address: u16, value: u16) -> RequestPayload {
    RequestPayload::PresetHoldingRegister(WriteRegister { address, value })
}

fn sent_payload(f: &Frame) -> RequestPayload {
    RequestPayload::decode_frame(f).expect("request frame")
}

#[test]
fn second_send_fails_while_in_flight() {
    let mut iface = Interface::new(line_config(), &registry(&[1, 2]));
    iface.queue_request(Request { type_id: 0, payload: write(1, 1) });
    iface.queue_request(Request { type_id: 1, payload: write(2, 2) });
    let first = iface.send_next_request().expect("first send");
    assert_eq!(sent_payload(&first), write(2, 2));
    assert!(!iface.is_ready_to_send());
    assert!(matches!(iface.send_next_request(), Err(SendError::RequestInFlight)));
    assert!(matches!(iface.send_next_request(), Err(SendError::RequestInFlight)));
    // the first request is still the one settled by the reply
    let r = iface.check_result(Some(Ok(Some(first.clone())))).unwrap();
    match r {
        Some(RequestResult::PresetHoldingRegister(d)) => {
            assert_eq!(d.request, WriteRegister { address: 2, value: 2 })
        }
        other => panic!("unexpected {:?}", other),
    }
    assert!(iface.is_ready_to_send());
    let second = iface.send_next_request().expect("second send");
    assert_eq!(sent_payload(&second), write(1, 1));
}

#[test]
fn send_with_nothing_queued_fails() {
    let mut iface = Interface::new(line_config(), &registry(&[5, 5, 5]));
    assert!(matches!(iface.send_next_request(), Err(SendError::NothingQueued)));
    assert!(iface.is_ready_to_send());
}

#[test]
fn higher_priority_is_sent_first() {
    let mut iface = Interface::new(line_config(), &registry(&[10, 12]));
    iface.queue_request(Request { type_id: 0, payload: write(0xA, 0) });
    iface.queue_request(Request { type_id: 1, payload: write(0xB, 0) });
    let f = iface.send_next_request().unwrap();
    assert_eq!(sent_payload(&f), write(0xB, 0));
}

#[test]
fn aging_serves_low_priority_slot() {
    let mut iface = Interface::new(line_config(), &registry(&[10, 12]));
    iface.queue_request(Request { type_id: 0, payload: write(0xA, 0) });
    iface.queue_request(Request { type_id: 1, payload: write(0xB, 0) });
    let mut sends_of_b = 0;
    loop {
        let f = iface.send_next_request().unwrap();
        assert!(iface.check_result(Some(Ok(None))).unwrap().is_none());
        if sent_payload(&f) == write(0xA, 0) {
            break;
        }
        sends_of_b += 1;
        assert!(sends_of_b <= 3, "slot A starved");
        iface.queue_request(Request { type_id: 1, payload: write(0xB, 0) });
    }
    // A waits while its priority plus waiting count is at most 12: three rounds
    assert_eq!(sends_of_b, 3);
}

#[test]
fn equal_priorities_alternate() {
    let mut iface = Interface::new(line_config(), &registry(&[7, 7]));
    iface.queue_request(Request { type_id: 0, payload: write(0, 0) });
    iface.queue_request(Request { type_id: 1, payload: write(1, 1) });
    let f = iface.send_next_request().unwrap();
    assert_eq!(sent_payload(&f), write(0, 0));
    iface.check_result(Some(Ok(None))).unwrap();
    iface.queue_request(Request { type_id: 0, payload: write(0, 0) });
    let f = iface.send_next_request().unwrap();
    assert_eq!(sent_payload(&f), write(1, 1));
}

#[test]
fn tie_goes_to_higher_static_priority() {
    assert!(higher_priority_than(12, 0, 10, 2));
    assert!(!higher_priority_than(10, 2, 12, 0));
    assert!(higher_priority_than(10, 3, 12, 0));
    assert!(!higher_priority_than(5, 0, 5, 0));
    assert!(higher_priority_than(u32::MAX, u32::MAX, u32::MAX, u32::MAX - 1));
}

#[test]
fn requeue_before_send_coalesces() {
    let mut iface = Interface::new(line_config(), &registry(&[3]));
    iface.queue_request(Request { type_id: 0, payload: write(2, 100) });
    iface.queue_request(Request { type_id: 0, payload: write(2, 200) });
    let f = iface.send_next_request().unwrap();
    assert_eq!(sent_payload(&f), write(2, 200));
    iface.check_result(Some(Ok(None))).unwrap();
    assert!(matches!(iface.send_next_request(), Err(SendError::NothingQueued)));
}

#[test]
fn end_to_end_preset_holding_register() {
    let mut iface = Interface::new(line_config(), &registry(&[1]));
    let payload = write(0x0002, 50);
    iface.queue_request(Request { type_id: 0, payload });
    let f = iface.send_next_request().unwrap();
    assert_eq!(f.bytes(), &[0x01, 0x06, 0x00, 0x02, 0x00, 0x32, 0xA9, 0xDF]);
    let echo = Frame::from_bytes(f.bytes()).unwrap();
    match iface.check_result(Some(Ok(Some(echo)))) {
        Ok(Some(RequestResult::PresetHoldingRegister(d))) => {
            assert_eq!(d.request, WriteRegister { address: 0x0002, value: 50 });
            assert_eq!(d.result, ());
        }
        other => panic!("unexpected {:?}", other),
    }
    assert!(iface.is_ready_to_send());
}

#[test]
fn check_result_without_request_in_flight() {
    let mut iface = Interface::new(line_config(), &registry(&[1]));
    assert!(matches!(iface.check_result(None), Ok(None)));
    assert!(matches!(iface.check_result(Some(Err(InterfaceIOError::ChannelClosed))), Ok(None)));
    assert!(iface.is_ready_to_send());
}

#[test]
fn pending_reply_keeps_request_in_flight() {
    let mut iface = Interface::new(line_config(), &registry(&[1]));
    iface.queue_request(Request { type_id: 0, payload: write(1, 1) });
    iface.send_next_request().unwrap();
    assert!(matches!(iface.check_result(None), Ok(None)));
    assert!(!iface.is_ready_to_send());
}

#[test]
fn transport_errors_are_passed_on() {
    let mut iface = Interface::new(line_config(), &registry(&[1]));
    iface.queue_request(Request { type_id: 0, payload: write(1, 1) });
    iface.send_next_request().unwrap();
    let e = std::io::Error::new(std::io::ErrorKind::TimedOut, "timed out");
    assert!(matches!(iface.check_result(Some(Err(InterfaceIOError::Read(e)))), Err(InterfaceIOError::Read(_))));
    assert!(iface.is_ready_to_send());

    iface.queue_request(Request { type_id: 0, payload: write(1, 1) });
    iface.send_next_request().unwrap();
    let r = iface.check_result(Some(Err(InterfaceIOError::Parse(FrameParseError::InvalidCRC))));
    assert!(matches!(r, Err(InterfaceIOError::Parse(FrameParseError::InvalidCRC))));

    iface.queue_request(Request { type_id: 0, payload: write(1, 1) });
    iface.send_next_request().unwrap();
    let r = iface.check_result(Some(Err(InterfaceIOError::ChannelClosed)));
    assert!(matches!(r, Err(InterfaceIOError::ChannelClosed)));
    assert!(iface.is_ready_to_send());
}

#[test]
fn mismatched_reply_is_dropped() {
    let mut iface = Interface::new(line_config(), &registry(&[1]));
    iface.queue_request(Request { type_id: 0, payload: write(1, 1) });
    iface.send_next_request().unwrap();
    let read = RequestPayload::ReadHoldingRegisters(ReadRegisters { start_address: 0, quantity: 1 });
    let other = Frame::from_request(1, &read);
    assert!(matches!(iface.check_result(Some(Ok(Some(other)))), Ok(None)));
    assert!(iface.is_ready_to_send());
}

#[test]
fn discard_drops_pending_requests() {
    let mut iface = Interface::new(line_config(), &registry(&[1, 2]));
    iface.queue_request(Request { type_id: 0, payload: write(1, 1) });
    iface.queue_request(Request { type_id: 1, payload: write(2, 2) });
    iface.discard_all_requests();
    assert!(matches!(iface.send_next_request(), Err(SendError::NothingQueued)));
}

#[test]
fn out_of_range_slot_is_ignored() {
    let mut iface = Interface::new(line_config(), &registry(&[1, 2]));
    assert_eq!(iface.slot_count(), 2);
    iface.queue_request(Request { type_id: 2, payload: write(1, 1) });
    assert!(matches!(iface.send_next_request(), Err(SendError::NothingQueued)));
}
