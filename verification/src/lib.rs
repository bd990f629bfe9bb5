//! Driver core for the SPS30 particulate-matter sensor's SHDLC serial
//! protocol: a verified frame codec (checksummed request/response frames),
//! verified response decoders, and a request/response session that talks to
//! the sensor through a byte-oriented transport.

pub mod codec;
pub mod link;
pub mod response;
pub mod session;

pub use codec::Command;
pub use codec::CommandError;
pub use codec::DecodeError;
pub use codec::Frame;
pub use codec::FrameError;
pub use response::DeviceError;
pub use response::Sps30Fault;
pub use response::Sps30Measurement;
pub use response::Sps30Version;
pub use session::Sps30;
pub use session::Transport;
pub use session::TransportError;
