//! The device session: it owns the byte transport exclusively, runs one
//! strict request/response transaction per operation, and tracks the single
//! piece of persistent state, whether a measurement is running.

use vstd::prelude::*;
use crate::codec::encode_frame;
use crate::codec::decode_frame;
use crate::codec::Command;
use crate::codec::Frame;
use crate::link::hdlc_destuff;
use crate::link::hdlc_stuff;
use crate::link::utf8_to_string;
use crate::response::parse_measurement;
use crate::response::parse_status;
use crate::response::parse_version;
use crate::response::DeviceError;
use crate::response::Sps30Fault;
use crate::response::Sps30Measurement;
use crate::response::Sps30Version;

verus! {

/// An I/O failure reported by the transport.
#[derive(Debug)]
pub struct TransportError {}

/// The byte stream under the session: it writes whole stuffed wire frames
/// and blocks to read the next complete delimited wire frame.  The
/// surrounding application supplies the implementation (a serial port with
/// an incremental frame reader); tests supply an in-memory one.
pub trait Transport {
    /// Writes one stuffed wire frame to the device.
    fn write_frame_bytes(&mut self, data: &[u8]) -> Result<(), TransportError>;

    /// Blocks until one complete delimited wire frame has been read from
    /// the stream, and returns its raw (still stuffed) bytes.
    fn read_frame_bytes(&mut self) -> Result<Vec<u8>, TransportError>;

    /// Pauses for the given number of milliseconds before the next read.
    fn pause_millis(&mut self, ms: u64);
}

/// The start-measurement acceptance rule: the device's response state
/// byte must be zero; any other state is a device error.
pub fn accept_start_state(state: u8) -> (r: Result<(), DeviceError>)
    ensures
        r is Ok <==> state == 0,
{
    if state == 0 {
        Ok(())
    } else {
        Err(DeviceError {})
    }
}

/// A session with one SPS30 sensor over an exclusively owned transport.
pub struct Sps30<P> {
    port: P,
    running: bool,
}

impl<P: Transport> Sps30<P> {
    /// Whether a measurement was started and not reset since.
    pub closed spec fn is_running(self) -> bool {
        self.running
    }

    /// Opens a session; no measurement is running initially.
    pub fn new(port: P) -> (r: Self)
        ensures
            !r.is_running(),
    {
        Self { port, running: false }
    }

    /// Encodes one request frame, stuffs it, and writes it to the device.
    /// A frame with a non-zero address is rejected before anything reaches
    /// the transport.
    fn send_frame(&mut self, f: &Frame) -> (r: Result<(), DeviceError>)
        requires
            f.wf(),
        ensures
            final(self).is_running() == old(self).is_running(),
            f.addr != 0 ==> r is Err && *final(self) == *old(self),
    {
        let buffer = match encode_frame(f) {
            Ok(b) => b,
            Err(_) => {
                return Err(DeviceError {});
            },
        };
        let packet = hdlc_stuff(buffer.as_slice());
        match self.port.write_frame_bytes(packet.as_slice()) {
            Ok(()) => Ok(()),
            Err(_) => Err(DeviceError {}),
        }
    }

    /// Reads one wire frame, destuffs it, and validates and decodes it
    /// into the device state byte and the response frame.
    fn receive_frame(&mut self) -> (r: Result<(u8, Frame), DeviceError>)
        ensures
            final(self).is_running() == old(self).is_running(),
            r is Ok ==> r->Ok_0.1.wf(),
    {
        let raw = match self.port.read_frame_bytes() {
            Ok(v) => v,
            Err(_) => {
                return Err(DeviceError {});
            },
        };
        let unstuffed = match hdlc_destuff(raw.as_slice()) {
            Some(v) => v,
            None => {
                return Err(DeviceError {});
            },
        };
        match decode_frame(&unstuffed) {
            Ok(p) => Ok(p),
            Err(_) => Err(DeviceError {}),
        }
    }

    /// Sends the device-information command (payload `[0x00]`) and decodes
    /// the response payload as a UTF-8 string.  Returns `None` when the
    /// exchange fails or the payload is not valid UTF-8.  Never changes
    /// whether a measurement is running.
    pub fn get_device_info(&mut self) -> (r: Option<String>)
        ensures
            final(self).is_running() == old(self).is_running(),
    {
        let f = Frame { addr: 0x0, cmd: Command::DeviceInformation, data: vec![0x0] };
        match self.send_frame(&f) {
            Ok(()) => {},
            Err(_) => {
                return None;
            },
        }
        let frame = match self.receive_frame() {
            Ok(p) => p.1,
            Err(_) => {
                return None;
            },
        };
        utf8_to_string(&frame.data)
    }

    /// Sends the read-version command and decodes the 7-byte version
    /// payload; any other payload length is an error.  Never changes
    /// whether a measurement is running.
    pub fn read_version(&mut self) -> (r: Result<Sps30Version, DeviceError>)
        ensures
            final(self).is_running() == old(self).is_running(),
    {
        let f = Frame { addr: 0, cmd: Command::ReadVersion, data: Vec::new() };
        match self.send_frame(&f) {
            Ok(()) => {},
            Err(_) => {
                return Err(DeviceError {});
            },
        }
        let frame = match self.receive_frame() {
            Ok(p) => p.1,
            Err(_) => {
                return Err(DeviceError {});
            },
        };
        parse_version(&frame.data)
    }

    /// Starts a measurement with IEEE-754 float output format (payload
    /// `[0x01, 0x03]`).  Fails immediately, without transmitting anything,
    /// when a measurement is already running; fails when the device
    /// answers with a non-zero state byte; exactly on success the session
    /// records that a measurement is running.
    pub fn start_measurement(&mut self) -> (r: Result<(), DeviceError>)
        ensures
            old(self).is_running() ==> r is Err && *final(self) == *old(self),
            final(self).is_running() == (old(self).is_running() || r is Ok),
    {
        if self.running {
            return Err(DeviceError {});
        }
        let f = Frame { addr: 0x0, cmd: Command::StartMeasurement, data: vec![0x01u8, 0x03] };
        match self.send_frame(&f) {
            Ok(()) => {},
            Err(_) => {
                return Err(DeviceError {});
            },
        }
        let state = match self.receive_frame() {
            Ok(p) => p.0,
            Err(_) => {
                return Err(DeviceError {});
            },
        };
        match accept_start_state(state) {
            Ok(()) => {},
            Err(e) => {
                return Err(e);
            },
        }
        self.running = true;
        Ok(())
    }

    /// Sends a reset with an empty payload, pauses briefly so the device
    /// can reboot, and reads the acknowledgement.  On success no
    /// measurement is running afterwards; on failure the running state is
    /// unchanged.
    pub fn device_reset(&mut self) -> (r: Result<(), DeviceError>)
        ensures
            r is Ok ==> !final(self).is_running(),
            r is Err ==> final(self).is_running() == old(self).is_running(),
    {
        let f = Frame { addr: 0x0, cmd: Command::Reset, data: Vec::new() };
        match self.send_frame(&f) {
            Ok(()) => {},
            Err(_) => {
                return Err(DeviceError {});
            },
        }
        self.port.pause_millis(100);
        match self.receive_frame() {
            Ok(_) => {},
            Err(_) => {
                return Err(DeviceError {});
            },
        }
        self.running = false;
        Ok(())
    }

    /// Sends the read-measured-value command with an empty payload.  An
    /// empty response payload means no new measurement (`Ok(None)`); a
    /// 40-byte payload decodes to the ten channels; any other length is an
    /// error.  Never changes whether a measurement is running.
    pub fn read_measurement(&mut self) -> (r: Result<Option<Sps30Measurement>, DeviceError>)
        ensures
            final(self).is_running() == old(self).is_running(),
    {
        let f = Frame { addr: 0x0, cmd: Command::ReadMeasuredValue, data: Vec::new() };
        match self.send_frame(&f) {
            Ok(()) => {},
            Err(_) => {
                return Err(DeviceError {});
            },
        }
        let frame = match self.receive_frame() {
            Ok(p) => p.1,
            Err(_) => {
                return Err(DeviceError {});
            },
        };
        parse_measurement(&frame.data)
    }

    /// Sends the read-device-status command with payload `[0x01]` (clear
    /// the register on read) and decodes the 5-byte status payload into
    /// the active faults, `None` when no fault bit is set.  Never changes
    /// whether a measurement is running.
    pub fn read_device_status(&mut self) -> (r: Result<Option<Vec<Sps30Fault>>, DeviceError>)
        ensures
            final(self).is_running() == old(self).is_running(),
    {
        let f = Frame { addr: 0x0, cmd: Command::ReadDeviceStatusRegister, data: vec![0x01] };
        match self.send_frame(&f) {
            Ok(()) => {},
            Err(_) => {
                return Err(DeviceError {});
            },
        }
        let frame = match self.receive_frame() {
            Ok(p) => p.1,
            Err(_) => {
                return Err(DeviceError {});
            },
        };
        parse_status(&frame.data)
    }
}

} // verus!
