//! Typed sensor responses decoded from validated frame payloads: version
//! strings, status-register faults, and particulate measurements.

use vstd::prelude::*;
use crate::link::utf8_to_string;

verus! {

/// A semantically invalid but well-formed response: wrong payload length
/// for the command, a non-zero device state on start, a start issued while
/// already measuring, or a transport or framing failure mid-exchange.
#[derive(Debug)]
pub struct DeviceError {}

/// Faults the sensor can report in its device status register.
#[derive(Clone, Copy, PartialEq, Eq, Structural, Debug)]
pub enum Sps30Fault {
    Fan,
    Laser,
    FanSpeed,
}

/// The big-endian 32-bit value at offset `i` of a byte sequence.
pub open spec fn be32(s: Seq<u8>, i: int) -> u32
    recommends
        0 <= i,
        i + 4 <= s.len(),
{
    (s[i] * 0x100_0000 + s[i + 1] * 0x1_0000 + s[i + 2] * 0x100 + s[i + 3]) as u32
}

/// Reads the big-endian 32-bit value at offset `off`.
pub fn be_u32(data: &Vec<u8>, off: usize) -> (r: u32)
    requires
        off + 4 <= data@.len(),
    ensures
        r == be32(data@, off as int),
{
    proof {
        vstd::std_specs::vec::axiom_spec_len(data);
    }
    let b0: u32 = data[off] as u32;
    let b1: u32 = data[off + 1] as u32;
    let b2: u32 = data[off + 2] as u32;
    let b3: u32 = data[off + 3] as u32;
    b0 * 0x100_0000 + b1 * 0x1_0000 + b2 * 0x100 + b3
}

/// One particulate measurement.  Each field holds the raw big-endian
/// 32-bit pattern of an IEEE-754 binary32 channel value, exactly as the
/// sensor sent it; callers reinterpret the bits as a float outside this
/// verified core.
#[derive(Clone, Copy, PartialEq, Eq, Structural, Debug)]
pub struct Sps30Measurement {
    pub mass_1_0: u32,
    pub mass_2_5: u32,
    pub mass_4_0: u32,
    pub mass_10: u32,
    pub concentration_pm005: u32,
    pub concentration_pm010: u32,
    pub concentration_pm025: u32,
    pub concentration_pm040: u32,
    pub concentration_pm100: u32,
    pub particle: u32,
}

/// The measurement encoded in a 40-byte payload: ten consecutive
/// big-endian 32-bit channels in fixed order.
pub open spec fn spec_measurement_of(s: Seq<u8>) -> Sps30Measurement
    recommends
        s.len() == 40,
{
    Sps30Measurement {
        mass_1_0: be32(s, 0),
        mass_2_5: be32(s, 4),
        mass_4_0: be32(s, 8),
        mass_10: be32(s, 12),
        concentration_pm005: be32(s, 16),
        concentration_pm010: be32(s, 20),
        concentration_pm025: be32(s, 24),
        concentration_pm040: be32(s, 28),
        concentration_pm100: be32(s, 32),
        particle: be32(s, 36),
    }
}

/// Decodes a read-measurement payload: an empty payload means no new
/// measurement, a 40-byte payload carries the ten channels, and any other
/// length is rejected.
pub fn parse_measurement(payload: &Vec<u8>) -> (r: Result<
    Option<Sps30Measurement>,
    DeviceError,
>)
    ensures
        r is Ok <==> (payload@.len() == 0 || payload@.len() == 40),
        payload@.len() == 0 ==> r is Ok && r->Ok_0 is None,
        payload@.len() == 40 ==> r is Ok && r->Ok_0 == Some(spec_measurement_of(payload@)),
{
    if payload.len() == 0 {
        return Ok(None);
    }
    if payload.len() != 40 {
        return Err(DeviceError {});
    }
    Ok(
        Some(
            Sps30Measurement {
                mass_1_0: be_u32(payload, 0),
                mass_2_5: be_u32(payload, 4),
                mass_4_0: be_u32(payload, 8),
                mass_10: be_u32(payload, 12),
                concentration_pm005: be_u32(payload, 16),
                concentration_pm010: be_u32(payload, 20),
                concentration_pm025: be_u32(payload, 24),
                concentration_pm040: be_u32(payload, 28),
                concentration_pm100: be_u32(payload, 32),
                particle: be_u32(payload, 36),
            },
        ),
    )
}

/// Whether the fan-failure bit (bit 4 of byte 3) is set in a status payload.
pub open spec fn fan_fault(s: Seq<u8>) -> bool
    recommends
        s.len() == 5,
{
    s[3] & 0x10 != 0
}

/// Whether the laser-failure bit (bit 5 of byte 3) is set in a status payload.
pub open spec fn laser_fault(s: Seq<u8>) -> bool
    recommends
        s.len() == 5,
{
    s[3] & 0x20 != 0
}

/// Whether the fan-speed-out-of-range bit (bit 5 of byte 1) is set in a
/// status payload.
pub open spec fn fan_speed_fault(s: Seq<u8>) -> bool
    recommends
        s.len() == 5,
{
    s[1] & 0x20 != 0
}

/// The active faults of a 5-byte status payload, in the fixed order fan,
/// laser, fan speed.
pub open spec fn spec_faults_of(s: Seq<u8>) -> Seq<Sps30Fault> {
    (if fan_fault(s) {
        seq![Sps30Fault::Fan]
    } else {
        Seq::<Sps30Fault>::empty()
    }) + (if laser_fault(s) {
        seq![Sps30Fault::Laser]
    } else {
        Seq::<Sps30Fault>::empty()
    }) + (if fan_speed_fault(s) {
        seq![Sps30Fault::FanSpeed]
    } else {
        Seq::<Sps30Fault>::empty()
    })
}

/// Turns a masked flag byte into a boolean: zero is false, anything else
/// true.
pub fn to_bool(i: u8) -> (r: bool)
    ensures
        r == (i != 0),
{
    match i {
        0 => false,
        _ => true,
    }
}

/// Decodes a device-status payload: exactly 5 bytes; `None` when no fault
/// bit is set, else the active faults in fixed order.
pub fn parse_status(payload: &Vec<u8>) -> (r: Result<Option<Vec<Sps30Fault>>, DeviceError>)
    ensures
        r is Ok <==> payload@.len() == 5,
        r is Ok ==> (r->Ok_0 is Some <==> spec_faults_of(payload@).len() > 0),
        r is Ok && r->Ok_0 is Some ==> r->Ok_0->Some_0@ == spec_faults_of(payload@),
{
    if payload.len() != 5 {
        return Err(DeviceError {});
    }
    let fan_err = to_bool(payload[3] & 0x10);
    let laser_err = to_bool(payload[3] & 0x20);
    let speed_err = to_bool(payload[1] & 0x20);
    let mut faults: Vec<Sps30Fault> = Vec::new();
    if fan_err {
        faults.push(Sps30Fault::Fan);
    }
    if laser_err {
        faults.push(Sps30Fault::Laser);
    }
    if speed_err {
        faults.push(Sps30Fault::FanSpeed);
    }
    proof {
        assert(faults@ =~= spec_faults_of(payload@));
    }
    if faults.len() > 0 {
        Ok(Some(faults))
    } else {
        Ok(None)
    }
}

/// Sensor version information, each part a decimal string: firmware
/// "major.minor", hardware revision, SHDLC protocol "major.minor".
#[derive(Debug)]
pub struct Sps30Version {
    pub firmware: String,
    pub hardware: String,
    pub shdlc: String,
}

/// The ASCII decimal digits of a byte value, most significant first and
/// without leading zeros.
pub open spec fn dec_bytes(n: u8) -> Seq<u8> {
    if n < 10 {
        seq![(0x30 + n) as u8]
    } else if n < 100 {
        seq![(0x30 + n / 10) as u8, (0x30 + n % 10) as u8]
    } else {
        seq![(0x30 + n / 100) as u8, (0x30 + (n / 10) % 10) as u8, (0x30 + n % 10) as u8]
    }
}

/// The characters of an ASCII byte sequence, one character per byte.
pub open spec fn ascii_chars(s: Seq<u8>) -> Seq<char> {
    s.map_values(|b: u8| b as char)
}

/// The decimal character rendering of a byte value.
pub open spec fn dec_chars(n: u8) -> Seq<char> {
    ascii_chars(dec_bytes(n))
}

/// The "major.minor" character rendering of a version byte pair.
pub open spec fn version_pair_chars(major: u8, minor: u8) -> Seq<char> {
    dec_chars(major) + seq!['.'] + dec_chars(minor)
}

/// ASCII bytes are valid UTF-8 and decode to exactly one character per
/// byte.
proof fn lemma_ascii_decode(bytes: Seq<u8>)
    requires
        forall|i: int| 0 <= i < bytes.len() ==> bytes[i] < 0x80,
    ensures
        vstd::utf8::valid_utf8(bytes),
        vstd::utf8::decode_utf8(bytes) == ascii_chars(bytes),
{
    let chars = ascii_chars(bytes);
    assert(vstd::utf8::is_ascii_chars(chars)) by {
        assert forall|i: int| 0 <= i < chars.len() implies '\0' <= #[trigger] chars[i]
            <= '\u{7f}' by {
            assert(chars[i] == bytes[i] as char);
        }
    }
    vstd::utf8::is_ascii_chars_encode_utf8(chars);
    assert(vstd::utf8::encode_utf8(chars) =~= bytes);
    vstd::utf8::encode_utf8_valid_utf8(chars);
    vstd::utf8::encode_utf8_decode_utf8(chars);
}

proof fn lemma_dec_bytes_ascii(n: u8)
    ensures
        forall|i: int| 0 <= i < dec_bytes(n).len() ==> dec_bytes(n)[i] < 0x80,
{
}

/// Appends the decimal digits of `n` to `out`.
fn push_dec(out: &mut Vec<u8>, n: u8)
    ensures
        final(out)@ == old(out)@ + dec_bytes(n),
{
    if n >= 100 {
        out.push(0x30 + n / 100);
        out.push(0x30 + (n / 10) % 10);
        out.push(0x30 + n % 10);
        proof {
            assert(out@ =~= old(out)@ + dec_bytes(n));
        }
    } else if n >= 10 {
        out.push(0x30 + n / 10);
        out.push(0x30 + n % 10);
        proof {
            assert(out@ =~= old(out)@ + dec_bytes(n));
        }
    } else {
        out.push(0x30 + n);
        proof {
            assert(out@ =~= old(out)@ + dec_bytes(n));
        }
    }
}

/// Renders a byte value as a decimal string.
fn dec_string(n: u8) -> (s: String)
    ensures
        s@ == dec_chars(n),
{
    let mut bytes: Vec<u8> = Vec::new();
    push_dec(&mut bytes, n);
    proof {
        lemma_dec_bytes_ascii(n);
        assert(bytes@ =~= dec_bytes(n));
        lemma_ascii_decode(bytes@);
    }
    match utf8_to_string(&bytes) {
        Some(s) => s,
        None => {
            proof {
                assert(false);
            }
            String::new()
        },
    }
}

/// Renders a "major.minor" version byte pair as a decimal string.
fn version_pair_string(major: u8, minor: u8) -> (s: String)
    ensures
        s@ == version_pair_chars(major, minor),
{
    let mut bytes: Vec<u8> = Vec::new();
    push_dec(&mut bytes, major);
    bytes.push(0x2E);
    push_dec(&mut bytes, minor);
    proof {
        lemma_dec_bytes_ascii(major);
        lemma_dec_bytes_ascii(minor);
        assert(bytes@ =~= dec_bytes(major) + seq![0x2Eu8] + dec_bytes(minor));
        lemma_ascii_decode(bytes@);
        assert(ascii_chars(bytes@) =~= version_pair_chars(major, minor));
    }
    match utf8_to_string(&bytes) {
        Some(s) => s,
        None => {
            proof {
                assert(false);
            }
            String::new()
        },
    }
}

/// Decodes a read-version payload: exactly 7 bytes, with the firmware
/// major and minor at positions 0 and 1, the hardware revision at 3, and
/// the SHDLC protocol major and minor at 5 and 6.
pub fn parse_version(payload: &Vec<u8>) -> (r: Result<Sps30Version, DeviceError>)
    ensures
        r is Ok <==> payload@.len() == 7,
        r is Ok ==> r->Ok_0.firmware@ == version_pair_chars(payload@[0], payload@[1]),
        r is Ok ==> r->Ok_0.hardware@ == dec_chars(payload@[3]),
        r is Ok ==> r->Ok_0.shdlc@ == version_pair_chars(payload@[5], payload@[6]),
{
    if payload.len() != 7 {
        return Err(DeviceError {});
    }
    let firmware = version_pair_string(payload[0], payload[1]);
    let hardware = dec_string(payload[3]);
    let shdlc = version_pair_string(payload[5], payload[6]);
    Ok(Sps30Version { firmware, hardware, shdlc })
}

} // verus!
