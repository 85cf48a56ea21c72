//! Error variants shared by every component of the collector.

use vstd::prelude::*;

verus! {

/// Error kinds raised by the collector, each carrying a static diagnostic
/// message.
///
/// - `WiFiError`: station association exhausted its retries, access-point
///   activation failed, or bring-up was aborted by `stop`.
/// - `ConfigError`: a malformed or contradictory configuration, detected at
///   construction or bring-up.
/// - `TrafficError`: a traffic send failed; never fatal to the generator.
/// - `CSIError`: capture-hook registration failed or the subscriber count
///   was exceeded; fatal to that call only.
/// - `SystemError`: an internal invariant violation, such as a re-entrant
///   `start`.
#[derive(Clone, Copy, Debug)]
pub enum Error {
    WiFiError(&'static str),
    ConfigError(&'static str),
    TrafficError(&'static str),
    CSIError(&'static str),
    SystemError(&'static str),
}

} // verus!
