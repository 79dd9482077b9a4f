//! Pairing a wireless debugging client with a host over the local network.
//!
//! The library holds the logic: the one-time credential, the pairing text,
//! the two-phase discovery state machine with its deadline and teardown, the
//! parser of port mappings and the reader of the bridge tool's device listing.
//! A runner performs the actions that the state machine asks for.

pub mod credential;
pub mod devices;
pub mod error;
pub mod pair;
pub mod port;

pub use error::CliError;
pub use pair::{DeviceInfo, PairService};
pub use port::PortMapping;
