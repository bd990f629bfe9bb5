//! The SHDLC frame codec: typed commands, checksummed frame encoding, and
//! validated frame decoding.
//!
//! A request frame is laid out as `[address, opcode, length, payload...,
//! checksum]`; a response frame carries one extra device-state byte,
//! `[address, opcode, state, length, payload..., checksum]`.  The checksum
//! byte is the bitwise complement of the 8-bit wrapping sum of all preceding
//! bytes, computed over the unstuffed byte sequence on both paths.

use vstd::prelude::*;

verus! {

/// The commands the sensor understands.  Each variant corresponds to exactly
/// one opcode byte; see [`spec_opcode`] and [`spec_from_opcode`].
#[derive(Clone, Copy, PartialEq, Eq, Structural, Debug)]
pub enum Command {
    StartMeasurement,
    StopMeasurement,
    ReadMeasuredValue,
    Sleep,
    WakeUp,
    StartFanCleaning,
    RWAutoCleaningInterval,
    DeviceInformation,
    ReadVersion,
    ReadDeviceStatusRegister,
    Reset,
}

/// The opcode byte that encodes a command on the wire.
pub open spec fn spec_opcode(c: Command) -> u8 {
    match c {
        Command::StartMeasurement => 0x00,
        Command::StopMeasurement => 0x01,
        Command::ReadMeasuredValue => 0x03,
        Command::Sleep => 0x10,
        Command::WakeUp => 0x11,
        Command::StartFanCleaning => 0x56,
        Command::RWAutoCleaningInterval => 0x80,
        Command::DeviceInformation => 0xD0,
        Command::ReadVersion => 0xD1,
        Command::ReadDeviceStatusRegister => 0xD2,
        Command::Reset => 0xD3,
    }
}

/// The command an opcode byte decodes to, or `None` for a byte outside the
/// command table.
pub open spec fn spec_from_opcode(value: u8) -> Option<Command> {
    if value == 0x00 {
        Some(Command::StartMeasurement)
    } else if value == 0x01 {
        Some(Command::StopMeasurement)
    } else if value == 0x03 {
        Some(Command::ReadMeasuredValue)
    } else if value == 0x10 {
        Some(Command::Sleep)
    } else if value == 0x11 {
        Some(Command::WakeUp)
    } else if value == 0x56 {
        Some(Command::StartFanCleaning)
    } else if value == 0x80 {
        Some(Command::RWAutoCleaningInterval)
    } else if value == 0xD0 {
        Some(Command::DeviceInformation)
    } else if value == 0xD1 {
        Some(Command::ReadVersion)
    } else if value == 0xD2 {
        Some(Command::ReadDeviceStatusRegister)
    } else if value == 0xD3 {
        Some(Command::Reset)
    } else {
        None
    }
}

impl Command {
    /// The opcode byte for this command.
    pub fn opcode(self) -> (r: u8)
        ensures
            r == spec_opcode(self),
    {
        match self {
            Command::StartMeasurement => 0x00,
            Command::StopMeasurement => 0x01,
            Command::ReadMeasuredValue => 0x03,
            Command::Sleep => 0x10,
            Command::WakeUp => 0x11,
            Command::StartFanCleaning => 0x56,
            Command::RWAutoCleaningInterval => 0x80,
            Command::DeviceInformation => 0xD0,
            Command::ReadVersion => 0xD1,
            Command::ReadDeviceStatusRegister => 0xD2,
            Command::Reset => 0xD3,
        }
    }

    /// Decodes an opcode byte, rejecting any byte outside the command table.
    pub fn from_opcode(value: u8) -> (r: Result<Command, CommandError>)
        ensures
            r is Ok <==> spec_from_opcode(value) is Some,
            r is Ok ==> Some(r->Ok_0) == spec_from_opcode(value),
    {
        match value {
            0x00 => Ok(Command::StartMeasurement),
            0x01 => Ok(Command::StopMeasurement),
            0x03 => Ok(Command::ReadMeasuredValue),
            0x10 => Ok(Command::Sleep),
            0x11 => Ok(Command::WakeUp),
            0x56 => Ok(Command::StartFanCleaning),
            0x80 => Ok(Command::RWAutoCleaningInterval),
            0xD0 => Ok(Command::DeviceInformation),
            0xD1 => Ok(Command::ReadVersion),
            0xD2 => Ok(Command::ReadDeviceStatusRegister),
            0xD3 => Ok(Command::Reset),
            _ => Err(CommandError {}),
        }
    }
}

/// The command table is a bijection: every command's opcode decodes back to
/// that command, and every byte that decodes at all decodes to a command
/// whose opcode is that byte.
pub proof fn lemma_opcode_bijection()
    ensures
        forall|c: Command| #[trigger] spec_from_opcode(spec_opcode(c)) == Some(c),
        forall|value: u8|
            #[trigger] spec_from_opcode(value) is Some ==> spec_opcode(
                spec_from_opcode(value)->Some_0,
            ) == value,
{
    assert forall|c: Command| #[trigger] spec_from_opcode(spec_opcode(c)) == Some(c) by {
        match c {
            Command::StartMeasurement => {},
            Command::StopMeasurement => {},
            Command::ReadMeasuredValue => {},
            Command::Sleep => {},
            Command::WakeUp => {},
            Command::StartFanCleaning => {},
            Command::RWAutoCleaningInterval => {},
            Command::DeviceInformation => {},
            Command::ReadVersion => {},
            Command::ReadDeviceStatusRegister => {},
            Command::Reset => {},
        }
    }
}

/// Malformed wire data: bad address on encode; short input, checksum
/// mismatch or length-field mismatch on decode.
#[derive(Debug)]
pub struct FrameError {}

/// An opcode byte that decodes to no known command.
#[derive(Debug)]
pub struct CommandError {}

/// Everything frame decoding can reject: either the framing itself is bad,
/// or the frame is sound but its opcode is unknown.
#[derive(Debug)]
pub enum DecodeError {
    Frame(FrameError),
    Command(CommandError),
}

/// A protocol frame: device address, command, and 0 to 255 payload bytes.
#[derive(Debug)]
pub struct Frame {
    pub addr: u8,
    pub cmd: Command,
    pub data: Vec<u8>,
}

impl Frame {
    /// The payload length must fit the one-byte length field.
    pub open spec fn wf(self) -> bool {
        self.data@.len() <= 255
    }
}

/// The plain (unwrapped) sum of a byte sequence.
pub open spec fn sum_bytes(s: Seq<u8>) -> int
    decreases s.len(),
{
    if s.len() == 0 {
        0
    } else {
        sum_bytes(s.drop_last()) + s.last()
    }
}

proof fn lemma_sum_bytes_nonneg(s: Seq<u8>)
    ensures
        sum_bytes(s) >= 0,
    decreases s.len(),
{
    if s.len() > 0 {
        lemma_sum_bytes_nonneg(s.drop_last());
    }
}

/// The frame checksum: the bitwise complement of the 8-bit wrapping sum of
/// the bytes.
pub open spec fn spec_checksum(s: Seq<u8>) -> u8 {
    !((sum_bytes(s) % 256) as u8)
}

/// Computes the checksum byte: NOT of the wrapping 8-bit sum of `buf`.
pub fn checksum(buf: &[u8]) -> (r: u8)
    ensures
        r == spec_checksum(buf@),
{
    let mut c: u8 = 0;
    let mut i: usize = 0;
    while i < buf.len()
        invariant
            i <= buf@.len(),
            c == sum_bytes(buf@.take(i as int)) % 256,
        decreases buf@.len() - i,
    {
        proof {
            let pre = buf@.take(i as int);
            let post = buf@.take(i + 1);
            assert(post.drop_last() =~= pre);
            assert(post.last() == buf@[i as int]);
            lemma_sum_bytes_nonneg(pre);
            vstd::arithmetic::div_mod::lemma_add_mod_noop(
                sum_bytes(pre),
                buf@[i as int] as int,
                256,
            );
            vstd::arithmetic::div_mod::lemma_mod_bound(sum_bytes(pre) + buf@[i as int], 256);
            vstd::arithmetic::div_mod::lemma_small_mod(buf@[i as int] as nat, 256);
        }
        c = c.wrapping_add(buf[i]);
        i += 1;
    }
    proof {
        assert(buf@.take(buf@.len() as int) =~= buf@);
    }
    !c
}

/// The wire bytes of a request frame, before transport byte stuffing:
/// `[address, opcode, length] ++ payload ++ [checksum]`.
pub open spec fn request_bytes(addr: u8, cmd: Command, data: Seq<u8>) -> Seq<u8> {
    let body = seq![addr, spec_opcode(cmd), data.len() as u8] + data;
    body.push(spec_checksum(body))
}

/// The wire bytes of a response frame, before transport byte stuffing:
/// `[address, opcode, state, length] ++ payload ++ [checksum]`.
pub open spec fn response_bytes(addr: u8, cmd: Command, state: u8, data: Seq<u8>) -> Seq<u8> {
    let body = seq![addr, spec_opcode(cmd), state, data.len() as u8] + data;
    body.push(spec_checksum(body))
}

/// Builds the checksummed request bytes for a frame; the transport
/// byte-stuffing step is applied afterwards by the caller.  Only address 0
/// is valid in this single-device protocol.
pub fn encode_frame(f: &Frame) -> (r: Result<Vec<u8>, FrameError>)
    requires
        f.wf(),
    ensures
        r is Ok <==> f.addr == 0,
        r is Ok ==> r->Ok_0@ == request_bytes(f.addr, f.cmd, f.data@),
{
    if f.addr != 0 {
        return Err(FrameError {});
    }
    let ghost header = seq![f.addr, spec_opcode(f.cmd), f.data@.len() as u8];
    let mut buffer: Vec<u8> = Vec::new();
    buffer.push(f.addr);
    buffer.push(f.cmd.opcode());
    buffer.push(f.data.len() as u8);
    proof {
        assert(buffer@ =~= header + f.data@.take(0));
    }
    let mut i: usize = 0;
    while i < f.data.len()
        invariant
            i <= f.data@.len(),
            f.wf(),
            buffer@ == header + f.data@.take(i as int),
        decreases f.data@.len() - i,
    {
        buffer.push(f.data[i]);
        proof {
            assert(buffer@ =~= header + f.data@.take(i + 1));
        }
        i += 1;
    }
    proof {
        assert(f.data@.take(f.data@.len() as int) =~= f.data@);
    }
    let c = checksum(buffer.as_slice());
    buffer.push(c);
    Ok(buffer)
}

/// Whether the trailing byte of a received sequence is the checksum of
/// everything before it.
pub open spec fn checksum_ok(s: Seq<u8>) -> bool {
    s.len() >= 1 && s.last() == spec_checksum(s.drop_last())
}

/// Whether a received byte sequence is a well-formed response frame: long
/// enough for the fixed header, checksum-valid, a known opcode, and a length
/// field that matches the actual payload byte count.
pub open spec fn decode_ok(s: Seq<u8>) -> bool {
    &&& s.len() >= 5
    &&& checksum_ok(s)
    &&& spec_from_opcode(s[1]) is Some
    &&& s[3] as int == s.len() - 5
}

/// The state byte of a well-formed response.
pub open spec fn decoded_state(s: Seq<u8>) -> u8 {
    s[2]
}

/// The payload bytes of a well-formed response.
pub open spec fn decoded_payload(s: Seq<u8>) -> Seq<u8> {
    s.subrange(4, s.len() - 1)
}

/// Validates and decodes a received (already unstuffed) response frame into
/// its state byte and frame.  Position is strict: address, opcode, state,
/// length, payload, checksum; any deviation is a hard failure, and a sound
/// frame with an unknown opcode is a command error.
pub fn decode_frame(bytes: &Vec<u8>) -> (r: Result<(u8, Frame), DecodeError>)
    ensures
        r is Ok <==> decode_ok(bytes@),
        r is Ok ==> ({
            let (state, f) = r->Ok_0;
            &&& state == decoded_state(bytes@)
            &&& f.addr == bytes@[0]
            &&& Some(f.cmd) == spec_from_opcode(bytes@[1])
            &&& f.data@ == decoded_payload(bytes@)
            &&& f.wf()
        }),
        r is Err ==> (r->Err_0 is Command <==> bytes@.len() >= 5 && checksum_ok(bytes@)
            && spec_from_opcode(bytes@[1]) is None),
{
    let n = bytes.len();
    if n < 5 {
        return Err(DecodeError::Frame(FrameError {}));
    }
    proof {
        assert(bytes@.drop_last() =~= bytes@.subrange(0, n - 1));
    }
    let body = vstd::slice::slice_subrange(bytes.as_slice(), 0, n - 1);
    let c = checksum(body);
    if bytes[n - 1] != c {
        return Err(DecodeError::Frame(FrameError {}));
    }
    let cmd = match Command::from_opcode(bytes[1]) {
        Ok(cmd) => cmd,
        Err(e) => {
            return Err(DecodeError::Command(e));
        },
    };
    let declared = bytes[3];
    if declared as usize != n - 5 {
        return Err(DecodeError::Frame(FrameError {}));
    }
    let mut data: Vec<u8> = Vec::new();
    proof {
        assert(data@ =~= bytes@.subrange(4, 4));
    }
    let mut i: usize = 4;
    while i < n - 1
        invariant
            4 <= i <= n - 1,
            5 <= n == bytes@.len(),
            data@ == bytes@.subrange(4, i as int),
        decreases n - 1 - i,
    {
        data.push(bytes[i]);
        proof {
            assert(data@ =~= bytes@.subrange(4, i + 1));
        }
        i += 1;
    }
    Ok((bytes[2], Frame { addr: bytes[0], cmd, data }))
}

proof fn lemma_sum_concat(a: Seq<u8>, b: Seq<u8>)
    ensures
        sum_bytes(a + b) == sum_bytes(a) + sum_bytes(b),
    decreases b.len(),
{
    if b.len() == 0 {
        assert(a + b =~= a);
    } else {
        assert((a + b).drop_last() =~= a + b.drop_last());
        assert((a + b).last() == b.last());
        lemma_sum_concat(a, b.drop_last());
    }
}

proof fn lemma_sum3(x: u8, y: u8, z: u8)
    ensures
        sum_bytes(seq![x, y, z]) == x + y + z,
{
    assert(sum_bytes(Seq::<u8>::empty()) == 0);
    assert(seq![x].drop_last() =~= Seq::<u8>::empty());
    assert(sum_bytes(seq![x]) == x);
    assert(seq![x, y].drop_last() =~= seq![x]);
    assert(sum_bytes(seq![x, y]) == x + y);
    assert(seq![x, y, z].drop_last() =~= seq![x, y]);
    assert(sum_bytes(seq![x, y, z]) == x + y + z);
}

proof fn lemma_sum4(w: u8, x: u8, y: u8, z: u8)
    ensures
        sum_bytes(seq![w, x, y, z]) == w + x + y + z,
{
    assert(seq![w, x, y, z].drop_last() =~= seq![w, x, y]);
    lemma_sum3(w, x, y);
}

/// Inserting a zero state byte after the opcode turns a request's wire
/// bytes into the response layout without disturbing the checksum, since a
/// zero byte does not change the wrapping sum.
pub proof fn lemma_state_insertion(addr: u8, cmd: Command, data: Seq<u8>)
    requires
        data.len() <= 255,
    ensures
        response_bytes(addr, cmd, 0, data) == request_bytes(addr, cmd, data).insert(2, 0),
{
    let req_body = seq![addr, spec_opcode(cmd), data.len() as u8] + data;
    let resp_body = seq![addr, spec_opcode(cmd), 0u8, data.len() as u8] + data;
    lemma_sum_concat(seq![addr, spec_opcode(cmd), data.len() as u8], data);
    lemma_sum_concat(seq![addr, spec_opcode(cmd), 0u8, data.len() as u8], data);
    lemma_sum3(addr, spec_opcode(cmd), data.len() as u8);
    lemma_sum4(addr, spec_opcode(cmd), 0u8, data.len() as u8);
    assert(sum_bytes(resp_body) == sum_bytes(req_body));
    assert(response_bytes(addr, cmd, 0, data) =~= request_bytes(addr, cmd, data).insert(2, 0));
}

/// Round trip: the response bytes built from any valid frame with address 0
/// and a zero state byte decode back to that very frame, with state 0.
pub proof fn lemma_round_trip(cmd: Command, data: Seq<u8>)
    requires
        data.len() <= 255,
    ensures
        ({
            let w = response_bytes(0, cmd, 0, data);
            &&& decode_ok(w)
            &&& w[0] == 0
            &&& decoded_state(w) == 0
            &&& spec_from_opcode(w[1]) == Some(cmd)
            &&& decoded_payload(w) == data
        }),
{
    let body = seq![0u8, spec_opcode(cmd), 0u8, data.len() as u8] + data;
    let w = response_bytes(0, cmd, 0, data);
    assert(w.drop_last() =~= body);
    assert(w.last() == spec_checksum(body));
    lemma_opcode_bijection();
    assert(w[1] == spec_opcode(cmd));
    assert(w[3] == data.len() as u8);
    assert(decoded_payload(w) =~= data);
}

/// A frame whose declared length byte disagrees with the actual payload
/// byte count after the fixed header is rejected by decoding.
pub proof fn lemma_length_mismatch_rejected(s: Seq<u8>)
    requires
        s.len() >= 5,
        s[3] as int != s.len() - 5,
    ensures
        !decode_ok(s),
{
}

proof fn lemma_sum_update(s: Seq<u8>, i: int, b: u8)
    requires
        0 <= i < s.len(),
    ensures
        sum_bytes(s.update(i, b)) == sum_bytes(s) - s[i] + b,
    decreases s.len(),
{
    if i == s.len() - 1 {
        assert(s.update(i, b).drop_last() =~= s.drop_last());
        assert(s.update(i, b).last() == b);
    } else {
        assert(s.update(i, b).drop_last() =~= s.drop_last().update(i, b));
        assert(s.update(i, b).last() == s.last());
        lemma_sum_update(s.drop_last(), i, b);
    }
}

proof fn lemma_mod_change(x: int, y: int)
    requires
        x >= 0,
        y >= 0,
        x != y,
        -256 < y - x < 256,
    ensures
        x % 256 != y % 256,
{
    vstd::arithmetic::div_mod::lemma_fundamental_div_mod(x, 256);
    vstd::arithmetic::div_mod::lemma_fundamental_div_mod(y, 256);
    if x % 256 == y % 256 {
        let k = y / 256 - x / 256;
        assert(y - x == 256 * k);
        assert(k != 0);
        assert(k >= 1 ==> 256 * k >= 256);
        assert(k <= -1 ==> 256 * k <= -256);
        assert(false);
    }
}

/// Changing any single byte of a checksum-valid byte sequence breaks the
/// checksum, so decoding rejects the altered sequence as a framing error.
pub proof fn lemma_flip_breaks_checksum(s: Seq<u8>, i: int, b: u8)
    requires
        checksum_ok(s),
        0 <= i < s.len(),
        b != s[i],
    ensures
        !checksum_ok(s.update(i, b)),
        !decode_ok(s.update(i, b)),
{
    let t = s.update(i, b);
    if i == s.len() - 1 {
        assert(t.drop_last() =~= s.drop_last());
        assert(t.last() == b);
    } else {
        assert(t.drop_last() =~= s.drop_last().update(i, b));
        assert(t.last() == s.last());
        assert(s.drop_last()[i] == s[i]);
        lemma_sum_update(s.drop_last(), i, b);
        let x = sum_bytes(s.drop_last());
        let y = sum_bytes(t.drop_last());
        lemma_sum_bytes_nonneg(s.drop_last());
        lemma_sum_bytes_nonneg(t.drop_last());
        lemma_mod_change(x, y);
        vstd::arithmetic::div_mod::lemma_mod_bound(x, 256);
        vstd::arithmetic::div_mod::lemma_mod_bound(y, 256);
        let m0 = (x % 256) as u8;
        let m1 = (y % 256) as u8;
        assert(m0 != m1);
        assert(!m0 != !m1) by (bit_vector)
            requires
                m0 != m1,
        ;
    }
}

} // verus!
