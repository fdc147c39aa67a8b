//! A statically checked model of a packet-capture engine.
//!
//! The crate wraps an opaque, mutation-heavy capture handle in a typestate
//! lifecycle: a handle is created inactive, configured through consuming
//! builder calls, activated, and then polled for packets.  Each state exposes
//! only the operations that are valid in that state, so invalid operation
//! sequences (configuring after activation, reading before activation,
//! reusing a consumed handle) are unrepresentable.
//!
//! The native engine itself is an external collaborator.  Everything the
//! engine decides on its own — whether a device can be activated, whether a
//! filter program compiles, which packets arrive on the wire — enters this
//! crate as an explicit value (an [`capture::Activation`], an engine reply,
//! a delivered packet), and every function that consumes such a value states
//! exactly what it returns for each possible outcome.  The embedding layer
//! performs the native calls and hands the outcomes in.

pub mod capture;
pub mod device;
pub mod error;
pub mod laws;
pub mod link;
pub mod packet;
pub mod stat;
pub mod stream;

pub use capture::Activated;
pub use capture::Activation;
pub use capture::Active;
pub use capture::AnyActivated;
pub use capture::Capture;
pub use capture::CaptureFile;
pub use capture::Dead;
pub use capture::Direction;
pub use capture::EngineReply;
pub use capture::Event;
pub use capture::Inactive;
pub use capture::Offline;
pub use capture::Precision;
pub use capture::Settings;
pub use capture::SourceKind;
pub use capture::State;
pub use capture::TimestampType;
pub use device::Device;
pub use error::Error;
pub use error::IoKind;
pub use link::Linktype;
pub use packet::Packet;
pub use packet::PacketHeader;
pub use packet::Timeval;
pub use stat::Stat;
pub use stream::PacketCodec;
pub use stream::PacketStream;
pub use stream::StreamPoll;
