//! Control library for Megatec-protocol UPS devices that tunnel their ASCII
//! command/response payloads over USB string-descriptor reads.
//!
//! The protocol codec — the command-to-descriptor table, the printable
//! character filter, the minutes-to-time-code encoding and the status-line
//! parser — is verified. The USB transport itself is reached through a small
//! set of trusted wrappers around `rusb`.

pub mod codec;
pub mod device;
pub mod error;
pub mod status;
mod transport;

pub use codec::Command;
pub use codec::DescriptorPlan;
pub use device::MegatecUps;
pub use error::UpsError;
pub use status::UpsStatus;
