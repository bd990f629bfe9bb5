use sps30_hdlc::codec::checksum;
use sps30_hdlc::codec::decode_frame;
use sps30_hdlc::codec::encode_frame;
use sps30_hdlc::Command;
use sps30_hdlc::DecodeError;
use sps30_hdlc::Frame;

#[test]
fn checksum_of_empty_is_ff() {
    assert_eq!(checksum(&[]), 0xFF);
}

#[test]
fn checksum_is_not_of_wrapping_sum() {
    let data = [0x00u8, 0xD1, 0x00];
    let sum = data.iter().fold(0u8, |acc, x| acc.wrapping_add(*x));
    assert_eq!(checksum(&data), !sum);
    assert_eq!(checksum(&data), 0x2E);

    let wrapping = [0xFFu8, 0xFF, 0x03];
    let sum = wrapping.iter().fold(0u8, |acc, x| acc.wrapping_add(*x));
    assert_eq!(sum, 0x01);
    assert_eq!(checksum(&wrapping), !sum);
    assert_eq!(checksum(&wrapping), 0xFE);
}

#[test]
fn encode_request_layout() {
    let f = Frame { addr: 0, cmd: Command::StartMeasurement, data: vec![0x01, 0x03] };
    let bytes = encode_frame(&f).unwrap();
    assert_eq!(bytes, vec![0x00, 0x00, 0x02, 0x01, 0x03, 0xF9]);
}

#[test]
fn encode_rejects_nonzero_address() {
    let f = Frame { addr: 1, cmd: Command::Reset, data: Vec::new() };
    assert!(encode_frame(&f).is_err());
}

#[test]
fn round_trip_with_zero_state() {
    let f = Frame { addr: 0, cmd: Command::ReadVersion, data: vec![9, 8, 7] };
    let mut wire = encode_frame(&f).unwrap();
    // a response carries a state byte after the opcode; a zero state byte
    // leaves the checksum untouched
    wire.insert(2, 0x00);
    let (state, g) = decode_frame(&wire).unwrap();
    assert_eq!(state, 0);
    assert_eq!(g.addr, 0);
    assert_eq!(g.cmd, Command::ReadVersion);
    assert_eq!(g.data, vec![9, 8, 7]);
}

#[test]
fn flip_any_single_byte_is_rejected() {
    let f = Frame { addr: 0, cmd: Command::ReadMeasuredValue, data: vec![0x11, 0x22, 0x7E] };
    let mut wire = encode_frame(&f).unwrap();
    wire.insert(2, 0x00);
    assert!(decode_frame(&wire).is_ok());
    for i in 0..wire.len() {
        let mut bad = wire.clone();
        bad[i] ^= 0x01;
        assert!(
            matches!(decode_frame(&bad), Err(DecodeError::Frame(_))),
            "altered byte {} was accepted",
            i
        );
    }
}

#[test]
fn length_mismatch_is_rejected() {
    // declares 5 payload bytes but carries 2; checksum itself is valid
    let mut wire = vec![0x00, 0x00, 0x00, 0x05, 0xAA, 0xBB];
    let c = checksum(&wire);
    wire.push(c);
    assert!(matches!(decode_frame(&wire), Err(DecodeError::Frame(_))));

    // declares 0 payload bytes but carries 1
    let mut wire = vec![0x00, 0x00, 0x00, 0x00, 0xAA];
    let c = checksum(&wire);
    wire.push(c);
    assert!(matches!(decode_frame(&wire), Err(DecodeError::Frame(_))));

    // declares 2 payload bytes but carries 0
    let mut wire = vec![0x00, 0x00, 0x00, 0x02];
    let c = checksum(&wire);
    wire.push(c);
    assert!(matches!(decode_frame(&wire), Err(DecodeError::Frame(_))));
}

#[test]
fn short_input_is_rejected() {
    assert!(decode_frame(&vec![]).is_err());
    assert!(decode_frame(&vec![0xFF]).is_err());
    assert!(decode_frame(&vec![0x00, 0x00, 0x00, 0x00]).is_err());
}

#[test]
fn opcode_table_round_trips() {
    let table = [
        (Command::StartMeasurement, 0x00u8),
        (Command::StopMeasurement, 0x01),
        (Command::ReadMeasuredValue, 0x03),
        (Command::Sleep, 0x10),
        (Command::WakeUp, 0x11),
        (Command::StartFanCleaning, 0x56),
        (Command::RWAutoCleaningInterval, 0x80),
        (Command::DeviceInformation, 0xD0),
        (Command::ReadVersion, 0xD1),
        (Command::ReadDeviceStatusRegister, 0xD2),
        (Command::Reset, 0xD3),
    ];
    for (cmd, opcode) in table {
        assert_eq!(cmd.opcode(), opcode);
        assert_eq!(Command::from_opcode(opcode).unwrap(), cmd);
    }
}

#[test]
fn unknown_opcodes_are_rejected() {
    for opcode in [0x02u8, 0x04, 0x0F, 0x12, 0x55, 0x57, 0x7F, 0x81, 0xCF, 0xD4, 0xFF] {
        assert!(Command::from_opcode(opcode).is_err());
    }
}

#[test]
fn sound_frame_with_unknown_opcode_is_command_error() {
    let mut wire = vec![0x00, 0x02, 0x00, 0x00];
    let c = checksum(&wire);
    wire.push(c);
    assert!(matches!(decode_frame(&wire), Err(DecodeError::Command(_))));
}
