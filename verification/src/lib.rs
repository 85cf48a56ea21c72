//! Channel State Information (CSI) collection middleware for an 802.11 radio
//! on a microcontroller.
//!
//! The crate coordinates network-role selection, the connection lifecycle
//! (association with retry and backoff), CSI frame capture with fan-out to
//! subscribers, and scheduled traffic emission, all under a single-threaded
//! cooperative scheduler with fixed-capacity buffers throughout.

use vstd::prelude::*;

pub mod architecture;
pub mod bounded;
pub mod capture;
pub mod channel;
pub mod collector;
pub mod config;
pub mod connection;
pub mod controller;
mod error;
pub mod traffic;

pub use architecture::ArchitectureProfile;
pub use architecture::CsiSource;
pub use architecture::NetworkArchitecture;
pub use architecture::WiFiMode;
pub use capture::CSICapturePipe;
pub use capture::CSIFrame;
pub use channel::DistributionChannel;
pub use channel::NextPoll;
pub use collector::CSICollector;
pub use connection::BringUpReport;
pub use connection::LinkHandle;
pub use controller::CollectionController;
pub use controller::SessionState;
pub use error::Error;
pub use traffic::TrafficGenerator;

verus! {

/// The number of per-subcarrier samples a captured frame can hold at most.
pub const FRAME_CAPACITY: usize = 616;

} // verus!
