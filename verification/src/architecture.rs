//! Network-role selection: a pure mapping from the requested radio role and
//! the network topology to the derived capture profile.

use vstd::prelude::*;

use crate::error::Error;

verus! {

/// The radio role this device is asked to take.
#[derive(Clone, Copy, Debug, PartialEq, Eq, Structural)]
pub enum WiFiMode {
    /// Passive capture of overheard traffic; no link is brought up.
    Sniffer,
    /// Associate to an existing access point or router.
    Station,
    /// Host an access point for other stations.
    AccessPoint,
    /// Host an access point while also associating to an upstream router.
    AccessPointStation,
}

/// The topology the device takes part in.
#[derive(Clone, Copy, Debug, PartialEq, Eq, Structural)]
pub enum NetworkArchitecture {
    /// A lone device overhearing ambient traffic.
    Sniffer,
    /// One device hosting; nothing upstream.
    AccessPoint,
    /// A hosting device with stations attached; no upstream router.
    AccessPointStation,
    /// A hosting device with stations attached, itself a station of an
    /// upstream router.
    RouterAccessPointStation,
    /// A device associated directly to an upstream router.
    RouterStation,
}

/// Where the captured frames originate for a given role.
#[derive(Clone, Copy, Debug, PartialEq, Eq, Structural)]
pub enum CsiSource {
    /// Frames stimulated by this device's own generated traffic.
    OwnTraffic,
    /// Frames sent by peers associated to this device.
    AssociatedPeers,
    /// Ambient overheard traffic.
    Ambient,
}

/// The two properties a role/topology pair fixes: whether a time-sync uplink
/// exists, and where captured frames come from.
#[derive(Clone, Copy, Debug, PartialEq, Eq, Structural)]
pub struct ArchitectureProfile {
    /// True when an upstream router link exists, so a best-effort time sync
    /// is attempted after bring-up.
    pub time_sync: bool,
    /// The class of traffic the capture hook will observe.
    pub csi_source: CsiSource,
}

/// An upstream router link, and with it time synchronization, exists exactly
/// in the topologies that include a router.
pub open spec fn arch_has_uplink(arch: NetworkArchitecture) -> bool {
    arch is RouterAccessPointStation || arch is RouterStation
}

/// The frame origin implied by the requested role: a sniffer overhears
/// ambient traffic, a station stimulates frames with its own traffic, and a
/// hosting role observes the traffic of its associated peers.
pub open spec fn mode_csi_source(mode: WiFiMode) -> CsiSource {
    match mode {
        WiFiMode::Sniffer => CsiSource::Ambient,
        WiFiMode::Station => CsiSource::OwnTraffic,
        WiFiMode::AccessPoint => CsiSource::AssociatedPeers,
        WiFiMode::AccessPointStation => CsiSource::AssociatedPeers,
    }
}

/// Which role/topology pairs make sense together:
/// - a sniffer takes part in no topology but its own;
/// - a plain access point hosts, with or without stations attached;
/// - a station needs a host to associate to: another device's access point
///   or an upstream router;
/// - the combined access-point-and-station role needs an upstream router
///   besides its own hosting duty.
pub open spec fn compatible(mode: WiFiMode, arch: NetworkArchitecture) -> bool {
    match mode {
        WiFiMode::Sniffer => arch is Sniffer,
        WiFiMode::Station => arch is AccessPointStation || arch is RouterStation,
        WiFiMode::AccessPoint => arch is AccessPoint || arch is AccessPointStation,
        WiFiMode::AccessPointStation => arch is RouterAccessPointStation,
    }
}

/// The profile a compatible role/topology pair fixes.
pub open spec fn spec_profile(mode: WiFiMode, arch: NetworkArchitecture) -> ArchitectureProfile {
    ArchitectureProfile { time_sync: arch_has_uplink(arch), csi_source: mode_csi_source(mode) }
}

/// Maps the requested role and topology to the derived capture profile,
/// rejecting incompatible combinations.
pub fn select(mode: WiFiMode, arch: NetworkArchitecture) -> (r: Result<ArchitectureProfile, Error>)
    ensures
        r is Ok <==> compatible(mode, arch),
        r matches Ok(p) ==> p == spec_profile(mode, arch),
        r matches Err(e) ==> e is ConfigError,
{
    let ok = match mode {
        WiFiMode::Sniffer => matches!(arch, NetworkArchitecture::Sniffer),
        WiFiMode::Station => matches!(
            arch,
            NetworkArchitecture::AccessPointStation | NetworkArchitecture::RouterStation
        ),
        WiFiMode::AccessPoint => matches!(
            arch,
            NetworkArchitecture::AccessPoint | NetworkArchitecture::AccessPointStation
        ),
        WiFiMode::AccessPointStation => matches!(arch, NetworkArchitecture::RouterAccessPointStation),
    };
    if !ok {
        return Err(Error::ConfigError("requested role is incompatible with the network architecture"));
    }
    let time_sync = matches!(
        arch,
        NetworkArchitecture::RouterAccessPointStation | NetworkArchitecture::RouterStation
    );
    let csi_source = match mode {
        WiFiMode::Sniffer => CsiSource::Ambient,
        WiFiMode::Station => CsiSource::OwnTraffic,
        WiFiMode::AccessPoint => CsiSource::AssociatedPeers,
        WiFiMode::AccessPointStation => CsiSource::AssociatedPeers,
    };
    Ok(ArchitectureProfile { time_sync, csi_source })
}

/// Time synchronization is enabled if and only if the architecture implies
/// an upstream router link: true for `RouterAccessPointStation` and
/// `RouterStation`, false for `Sniffer`, `AccessPoint` and
/// `AccessPointStation`.
pub proof fn lemma_time_sync_iff_uplink(mode: WiFiMode, arch: NetworkArchitecture)
    ensures
        spec_profile(mode, arch).time_sync <==> (arch is RouterAccessPointStation
            || arch is RouterStation),
        spec_profile(mode, arch).time_sync ==> (arch !is Sniffer && arch !is AccessPoint
            && arch !is AccessPointStation),
{
}

} // verus!
