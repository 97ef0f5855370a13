//! Bridge between a physical mute button, reached over a serial byte
//! channel speaking a small binary frame protocol, and the mute flag of one
//! audio capture source. The framing, the request dispatcher, and the
//! two-way state synchronization with reconnect handling live here; the
//! serial and audio I/O around them does not.

pub mod codec;
pub mod config;
pub mod dispatch;
pub mod session;

pub use codec::{Command, Frame, FrameKind};
pub use config::Config;
