use sps30_hdlc::codec::checksum;
use sps30_hdlc::Sps30;
use sps30_hdlc::Sps30Fault;
use sps30_hdlc::Transport;
use sps30_hdlc::TransportError;

struct MockLink {
    written: Vec<Vec<u8>>,
    responses: Vec<Vec<u8>>,
    next: usize,
    pauses: Vec<u64>,
}

impl MockLink {
    fn new(responses: Vec<Vec<u8>>) -> Self {
        MockLink { written: Vec::new(), responses, next: 0, pauses: Vec::new() }
    }
}

impl Transport for &mut MockLink {
    fn write_frame_bytes(&mut self, data: &[u8]) -> Result<(), TransportError> {
        self.written.push(data.to_vec());
        Ok(())
    }

    fn read_frame_bytes(&mut self) -> Result<Vec<u8>, TransportError> {
        if self.next < self.responses.len() {
            let r = self.responses[self.next].clone();
            self.next += 1;
            Ok(r)
        } else {
            Err(TransportError {})
        }
    }

    fn pause_millis(&mut self, ms: u64) {
        self.pauses.push(ms);
    }
}

/// Builds the stuffed wire bytes of one device response frame.
fn response_wire(opcode: u8, state: u8, payload: &[u8]) -> Vec<u8> {
    let mut body = vec![0x00, opcode, state, payload.len() as u8];
    body.extend_from_slice(payload);
    let c = checksum(&body);
    body.push(c);
    hdlc::encode(&body, hdlc::SpecialChars::default()).unwrap()
}

#[test]
fn get_device_info_returns_payload_string() {
    let mut mock = MockLink::new(vec![response_wire(0xD0, 0, b"SPS30-X")]);
    {
        let mut sensor = Sps30::new(&mut mock);
        assert_eq!(sensor.get_device_info().unwrap(), "SPS30-X");
    }
    // the request was byte-stuffed: delimited, and destuffable to the
    // expected checksummed request body
    assert_eq!(mock.written.len(), 1);
    let wire = &mock.written[0];
    assert_eq!(wire[0], 0x7E);
    assert_eq!(wire[wire.len() - 1], 0x7E);
    let body = hdlc::decode(wire, hdlc::SpecialChars::default()).unwrap();
    assert_eq!(body, vec![0x00, 0xD0, 0x01, 0x00, 0x2E]);
    assert_ne!(*wire, body);
}

#[test]
fn get_device_info_unstuffs_reserved_bytes() {
    // 0x7E inside the payload must be escaped on the wire and restored
    let mut mock = MockLink::new(vec![response_wire(0xD0, 0, &[0x7E, 0x7D])]);
    let mut sensor = Sps30::new(&mut mock);
    assert_eq!(sensor.get_device_info().unwrap(), "~}");
}

#[test]
fn get_device_info_rejects_invalid_utf8() {
    let mut mock = MockLink::new(vec![response_wire(0xD0, 0, &[0xFF, 0xFE])]);
    let mut sensor = Sps30::new(&mut mock);
    assert!(sensor.get_device_info().is_none());
}

#[test]
fn get_device_info_rejects_corrupt_frame() {
    let mut wire = response_wire(0xD0, 0, b"SPS30");
    let k = wire.len() / 2;
    wire[k] ^= 0x01;
    let mut mock = MockLink::new(vec![wire]);
    let mut sensor = Sps30::new(&mut mock);
    assert!(sensor.get_device_info().is_none());
}

#[test]
fn start_twice_fails_second_without_transmitting() {
    let mut mock = MockLink::new(vec![response_wire(0x00, 0, &[])]);
    {
        let mut sensor = Sps30::new(&mut mock);
        assert!(sensor.start_measurement().is_ok());
        assert!(sensor.start_measurement().is_err());
    }
    assert_eq!(mock.written.len(), 1);
}

#[test]
fn start_request_carries_float_format_payload() {
    let mut mock = MockLink::new(vec![response_wire(0x00, 0, &[])]);
    {
        let mut sensor = Sps30::new(&mut mock);
        sensor.start_measurement().unwrap();
    }
    let body = hdlc::decode(&mock.written[0], hdlc::SpecialChars::default()).unwrap();
    assert_eq!(body, vec![0x00, 0x00, 0x02, 0x01, 0x03, 0xF9]);
}

#[test]
fn start_state_rule_accepts_only_zero() {
    assert!(sps30_hdlc::session::accept_start_state(0).is_ok());
    assert!(sps30_hdlc::session::accept_start_state(1).is_err());
    assert!(sps30_hdlc::session::accept_start_state(0x43).is_err());
    assert!(sps30_hdlc::session::accept_start_state(0xFF).is_err());
}

#[test]
fn start_with_nonzero_state_fails_and_stays_idle() {
    let mut mock = MockLink::new(vec![
        response_wire(0x00, 1, &[]),
        response_wire(0x00, 0, &[]),
    ]);
    {
        let mut sensor = Sps30::new(&mut mock);
        assert!(sensor.start_measurement().is_err());
        // still idle: the next start transmits again and succeeds
        assert!(sensor.start_measurement().is_ok());
    }
    assert_eq!(mock.written.len(), 2);
}

#[test]
fn reset_allows_starting_again() {
    let mut mock = MockLink::new(vec![
        response_wire(0x00, 0, &[]),
        response_wire(0xD3, 0, &[]),
        response_wire(0x00, 0, &[]),
    ]);
    {
        let mut sensor = Sps30::new(&mut mock);
        sensor.start_measurement().unwrap();
        assert!(sensor.start_measurement().is_err());
        sensor.device_reset().unwrap();
        sensor.start_measurement().unwrap();
    }
    assert_eq!(mock.written.len(), 3);
    assert_eq!(mock.pauses, vec![100]);
}

#[test]
fn read_measurement_empty_payload_is_none() {
    let mut mock = MockLink::new(vec![response_wire(0x03, 0, &[])]);
    let mut sensor = Sps30::new(&mut mock);
    assert!(sensor.read_measurement().unwrap().is_none());
}

#[test]
fn read_measurement_decodes_forty_byte_payload() {
    let values = [1.0f32, 2.5, 4.0, 10.0, 0.5, 1.5, 2.25, 4.75, 100.0, 0.75];
    let mut payload: Vec<u8> = Vec::new();
    for v in values {
        payload.extend_from_slice(&v.to_be_bytes());
    }
    let mut mock = MockLink::new(vec![response_wire(0x03, 0, &payload)]);
    let mut sensor = Sps30::new(&mut mock);
    let m = sensor.read_measurement().unwrap().unwrap();
    assert_eq!(m.mass_1_0, 0x3F80_0000);
    assert_eq!(f32::from_bits(m.mass_1_0), 1.0);
    assert_eq!(f32::from_bits(m.mass_10), 10.0);
    assert_eq!(f32::from_bits(m.particle), 0.75);
}

#[test]
fn read_measurement_wrong_length_is_error() {
    let mut mock = MockLink::new(vec![response_wire(0x03, 0, &[0x00; 12])]);
    let mut sensor = Sps30::new(&mut mock);
    assert!(sensor.read_measurement().is_err());
}

#[test]
fn read_device_status_reports_faults() {
    let mut mock = MockLink::new(vec![response_wire(0xD2, 0, &[0, 0, 0, 0b0011_0000, 0])]);
    let mut sensor = Sps30::new(&mut mock);
    let faults = sensor.read_device_status().unwrap().unwrap();
    assert_eq!(faults, vec![Sps30Fault::Fan, Sps30Fault::Laser]);
}

#[test]
fn read_device_status_all_zero_is_none() {
    let mut mock = MockLink::new(vec![response_wire(0xD2, 0, &[0, 0, 0, 0, 0])]);
    let mut sensor = Sps30::new(&mut mock);
    assert!(sensor.read_device_status().unwrap().is_none());
}

#[test]
fn read_version_formats_the_parts() {
    let mut mock = MockLink::new(vec![response_wire(0xD1, 0, &[2, 2, 0, 7, 0, 2, 0])]);
    let mut sensor = Sps30::new(&mut mock);
    let v = sensor.read_version().unwrap();
    assert_eq!(v.firmware, "2.2");
    assert_eq!(v.hardware, "7");
    assert_eq!(v.shdlc, "2.0");
}

#[test]
fn read_version_wrong_payload_length_is_error() {
    let mut mock = MockLink::new(vec![response_wire(0xD1, 0, &[2, 2, 0])]);
    let mut sensor = Sps30::new(&mut mock);
    assert!(sensor.read_version().is_err());
}

#[test]
fn exhausted_transport_is_an_error() {
    let mut mock = MockLink::new(Vec::new());
    let mut sensor = Sps30::new(&mut mock);
    assert!(sensor.read_measurement().is_err());
}
