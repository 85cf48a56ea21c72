//! In-memory configuration for the collector: the radio link, the capture
//! feature selection, and the traffic generator.

use vstd::prelude::*;

use crate::architecture::WiFiMode;
use crate::bounded::str32_chars;
use crate::bounded::str32_clone;
use crate::bounded::str32_from;
use crate::bounded::str32_is_empty;
use crate::bounded::str32_new;
use crate::bounded::str64_chars;
use crate::bounded::str64_clone;
use crate::bounded::str64_from;
use crate::bounded::str64_new;
use crate::error::Error;
use vstd::string::StringSliceAdditionalSpecFns;

verus! {

/// WiFi configuration.
///
/// SSIDs are bounded at 32 bytes and passwords at 64 bytes; a string over
/// its bound is rejected by the setters below, never truncated.
pub struct WiFiConfig {
    /// Network SSID to associate to in station roles.
    pub ssid: heapless::String<32>,
    /// Network password for station roles.
    pub password: heapless::String<64>,
    /// SSID hosted in access-point roles.
    pub ap_ssid: heapless::String<32>,
    /// Password of the hosted access point.
    pub ap_password: heapless::String<64>,
    /// Most stations allowed to attach in access-point roles.
    pub max_connections: u16,
    /// Hide the hosted SSID.
    pub ssid_hidden: bool,
    /// WiFi channel (1-14).
    pub channel: u8,
    /// Most association attempts made before station bring-up fails.
    pub max_retries: u32,
    /// Seconds waited between association attempts.
    pub timeout_secs: u32,
}

/// The mathematical content of a `WiFiConfig`: each bounded string as its
/// characters, the scalar fields as they stand.
pub ghost struct WiFiConfigView {
    pub ssid: Seq<char>,
    pub password: Seq<char>,
    pub ap_ssid: Seq<char>,
    pub ap_password: Seq<char>,
    pub max_connections: u16,
    pub ssid_hidden: bool,
    pub channel: u8,
    pub max_retries: u32,
    pub timeout_secs: u32,
}

impl View for WiFiConfig {
    type V = WiFiConfigView;

    open spec fn view(&self) -> WiFiConfigView {
        WiFiConfigView {
            ssid: str32_chars(self.ssid),
            password: str64_chars(self.password),
            ap_ssid: str32_chars(self.ap_ssid),
            ap_password: str64_chars(self.ap_password),
            max_connections: self.max_connections,
            ssid_hidden: self.ssid_hidden,
            channel: self.channel,
            max_retries: self.max_retries,
            timeout_secs: self.timeout_secs,
        }
    }
}

impl Default for WiFiConfig {
    /// The default configuration: empty SSIDs and passwords, one allowed
    /// connection, a visible SSID on channel 1, five association attempts,
    /// thirty seconds between them.
    fn default() -> (r: Self)
        ensures
            r@ == (WiFiConfigView {
                ssid: Seq::<char>::empty(),
                password: Seq::<char>::empty(),
                ap_ssid: Seq::<char>::empty(),
                ap_password: Seq::<char>::empty(),
                max_connections: 1u16,
                ssid_hidden: false,
                channel: 1u8,
                max_retries: 5u32,
                timeout_secs: 30u32,
            }),
    {
        WiFiConfig {
            ssid: str32_new(),
            password: str64_new(),
            ap_ssid: str32_new(),
            ap_password: str64_new(),
            max_connections: 1,
            ssid_hidden: false,
            channel: 1,
            max_retries: 5,
            timeout_secs: 30,
        }
    }
}

impl Clone for WiFiConfig {
    fn clone(&self) -> (r: Self)
        ensures
            r@ == self@,
    {
        WiFiConfig {
            ssid: str32_clone(&self.ssid),
            password: str64_clone(&self.password),
            ap_ssid: str32_clone(&self.ap_ssid),
            ap_password: str64_clone(&self.ap_password),
            max_connections: self.max_connections,
            ssid_hidden: self.ssid_hidden,
            channel: self.channel,
            max_retries: self.max_retries,
            timeout_secs: self.timeout_secs,
        }
    }
}

/// A configuration is well formed for a role when the channel is in range
/// and the strings the role reads are present: station roles need a network
/// SSID, hosting roles need a hosted SSID and room for at least one
/// connection.
pub open spec fn wifi_config_ok(v: WiFiConfigView, mode: WiFiMode) -> bool {
    &&& 1 <= v.channel <= 14
    &&& (mode is Station || mode is AccessPointStation) ==> v.ssid.len() > 0
    &&& (mode is AccessPoint || mode is AccessPointStation) ==> (v.ap_ssid.len() > 0
        && v.max_connections >= 1)
}

impl WiFiConfig {
    /// Replaces the station SSID, rejecting a string over the 32-byte bound.
    pub fn set_ssid(&mut self, s: &str) -> (r: Result<(), Error>)
        ensures
            r is Ok <==> s.spec_bytes().len() <= 32,
            r is Ok ==> final(self)@ == (WiFiConfigView { ssid: s@, ..old(self)@ }),
            r is Err ==> final(self)@ == old(self)@ && (r matches Err(e) && e is ConfigError),
    {
        match str32_from(s) {
            Ok(v) => {
                self.ssid = v;
                Ok(())
            },
            Err(()) => Err(Error::ConfigError("SSID exceeds the 32-byte bound")),
        }
    }

    /// Replaces the station password, rejecting a string over the 64-byte
    /// bound.
    pub fn set_password(&mut self, s: &str) -> (r: Result<(), Error>)
        ensures
            r is Ok <==> s.spec_bytes().len() <= 64,
            r is Ok ==> final(self)@ == (WiFiConfigView { password: s@, ..old(self)@ }),
            r is Err ==> final(self)@ == old(self)@ && (r matches Err(e) && e is ConfigError),
    {
        match str64_from(s) {
            Ok(v) => {
                self.password = v;
                Ok(())
            },
            Err(()) => Err(Error::ConfigError("password exceeds the 64-byte bound")),
        }
    }

    /// Replaces the hosted SSID, rejecting a string over the 32-byte bound.
    pub fn set_ap_ssid(&mut self, s: &str) -> (r: Result<(), Error>)
        ensures
            r is Ok <==> s.spec_bytes().len() <= 32,
            r is Ok ==> final(self)@ == (WiFiConfigView { ap_ssid: s@, ..old(self)@ }),
            r is Err ==> final(self)@ == old(self)@ && (r matches Err(e) && e is ConfigError),
    {
        match str32_from(s) {
            Ok(v) => {
                self.ap_ssid = v;
                Ok(())
            },
            Err(()) => Err(Error::ConfigError("access point SSID exceeds the 32-byte bound")),
        }
    }

    /// Replaces the hosted access point's password, rejecting a string over
    /// the 64-byte bound.
    pub fn set_ap_password(&mut self, s: &str) -> (r: Result<(), Error>)
        ensures
            r is Ok <==> s.spec_bytes().len() <= 64,
            r is Ok ==> final(self)@ == (WiFiConfigView { ap_password: s@, ..old(self)@ }),
            r is Err ==> final(self)@ == old(self)@ && (r matches Err(e) && e is ConfigError),
    {
        match str64_from(s) {
            Ok(v) => {
                self.ap_password = v;
                Ok(())
            },
            Err(()) => Err(Error::ConfigError("access point password exceeds the 64-byte bound")),
        }
    }

    /// Checks the configuration against the requested role.
    pub fn validate(&self, mode: WiFiMode) -> (r: Result<(), Error>)
        ensures
            r is Ok <==> wifi_config_ok(self@, mode),
            r matches Err(e) ==> e is ConfigError,
    {
        if self.channel < 1 || self.channel > 14 {
            return Err(Error::ConfigError("channel must lie between 1 and 14"));
        }
        let needs_station = matches!(mode, WiFiMode::Station | WiFiMode::AccessPointStation);
        let needs_ap = matches!(mode, WiFiMode::AccessPoint | WiFiMode::AccessPointStation);
        if needs_station && str32_is_empty(&self.ssid) {
            return Err(Error::ConfigError("station roles need a network SSID"));
        }
        if needs_ap && str32_is_empty(&self.ap_ssid) {
            return Err(Error::ConfigError("hosting roles need an access point SSID"));
        }
        if needs_ap && self.max_connections == 0 {
            return Err(Error::ConfigError("hosting roles need room for at least one connection"));
        }
        Ok(())
    }
}

/// Capture feature selection, forwarded verbatim to the radio driver.
///
/// Two hardware generations take structurally different shapes, so the
/// selector is one logical capability with two concrete tagged encodings;
/// nothing in this crate interprets the bits.
#[derive(Clone, Copy, Debug, PartialEq, Eq, Structural)]
#[allow(inconsistent_fields)]
pub enum CSIConfig {
    /// The selector shape of the earlier hardware generation.
    Legacy {
        /// Receive legacy long training field (lltf) data.
        lltf_enabled: bool,
        /// Receive HT long training field (htltf) data.
        htltf_enabled: bool,
        /// Receive space-time block code HT long training field data.
        stbc_htltf2_enabled: bool,
        /// Generate htltf data by averaging lltf and ht_ltf data.
        ltf_merge_enabled: bool,
        /// Smooth adjacent sub-carriers with the channel filter.
        channel_filter_enabled: bool,
        /// Scale the CSI data manually rather than automatically.
        manu_scale: bool,
        /// Left-shift bits applied under manual scaling (0-15).
        shift: u8,
        /// Dump 802.11 ACK frames.
        dump_ack_en: bool,
    },
    /// The selector shape of the later hardware generation.
    Extended {
        /// Acquire CSI at all.
        enable: u32,
        /// Acquire L-LTF when receiving an 11g PPDU.
        acquire_csi_legacy: u32,
        /// Acquire HT-LTF when receiving an HT20 PPDU.
        acquire_csi_ht20: u32,
        /// Acquire HT-LTF when receiving an HT40 PPDU.
        acquire_csi_ht40: u32,
        /// Acquire HE-LTF when receiving an HE20 SU PPDU.
        acquire_csi_su: u32,
        /// Acquire HE-LTF when receiving an HE20 MU PPDU.
        acquire_csi_mu: u32,
        /// Acquire HE-LTF when receiving an HE20 DCM applied PPDU.
        acquire_csi_dcm: u32,
        /// Acquire HE-LTF when receiving an HE20 beamformed PPDU.
        acquire_csi_beamformed: u32,
        /// How to sample the HE-LTFs of an STBC applied HE PPDU.
        acquire_csi_he_stbc: u32,
        /// Scaling selection (0-3).
        val_scale_cfg: u32,
        /// Dump 802.11 ACK frames.
        dump_ack_en: u32,
        /// Reserved.
        reserved: u32,
    },
}

/// The default selector of the earlier hardware generation: every training
/// field enabled, merging and filtering on, automatic scaling, no ACK dump.
pub open spec fn spec_default_csi_config() -> CSIConfig {
    CSIConfig::Legacy {
        lltf_enabled: true,
        htltf_enabled: true,
        stbc_htltf2_enabled: true,
        ltf_merge_enabled: true,
        channel_filter_enabled: true,
        manu_scale: false,
        shift: 0u8,
        dump_ack_en: false,
    }
}

impl Default for CSIConfig {
    /// The default selector in the legacy encoding.
    fn default() -> (r: Self)
        ensures
            r == spec_default_csi_config(),
    {
        CSIConfig::Legacy {
            lltf_enabled: true,
            htltf_enabled: true,
            stbc_htltf2_enabled: true,
            ltf_merge_enabled: true,
            channel_filter_enabled: true,
            manu_scale: false,
            shift: 0,
            dump_ack_en: false,
        }
    }
}

/// The default selector of the later hardware generation.
pub open spec fn spec_extended_csi_config() -> CSIConfig {
    CSIConfig::Extended {
        enable: 1u32,
        acquire_csi_legacy: 1u32,
        acquire_csi_ht20: 1u32,
        acquire_csi_ht40: 1u32,
        acquire_csi_su: 1u32,
        acquire_csi_mu: 1u32,
        acquire_csi_dcm: 1u32,
        acquire_csi_beamformed: 1u32,
        acquire_csi_he_stbc: 2u32,
        val_scale_cfg: 2u32,
        dump_ack_en: 1u32,
        reserved: 19u32,
    }
}

impl CSIConfig {
    /// The default selector in the extended encoding.
    pub fn extended_default() -> (r: Self)
        ensures
            r == spec_extended_csi_config(),
    {
        CSIConfig::Extended {
            enable: 1,
            acquire_csi_legacy: 1,
            acquire_csi_ht20: 1,
            acquire_csi_ht40: 1,
            acquire_csi_su: 1,
            acquire_csi_mu: 1,
            acquire_csi_dcm: 1,
            acquire_csi_beamformed: 1,
            acquire_csi_he_stbc: 2,
            val_scale_cfg: 2,
            dump_ack_en: 1,
            reserved: 19,
        }
    }
}

/// The kind of packet the traffic generator emits.
#[derive(Clone, Copy, Debug, PartialEq, Eq, Structural)]
pub enum TrafficType {
    /// One UDP datagram per interval.
    UDP,
    /// One ICMP echo request per interval.
    ICMPPing,
}

/// Traffic generation configuration.
#[derive(Clone, Copy, Debug, PartialEq, Eq, Structural)]
pub struct TrafficConfig {
    /// The kind of packet emitted.
    pub traffic_type: TrafficType,
    /// Milliseconds between packets.
    pub traffic_interval_ms: u64,
}

impl Default for TrafficConfig {
    /// The default traffic configuration: one ICMP echo request per second.
    fn default() -> (r: Self)
        ensures
            r == (TrafficConfig { traffic_type: TrafficType::ICMPPing, traffic_interval_ms: 1000u64 }),
    {
        TrafficConfig { traffic_type: TrafficType::ICMPPing, traffic_interval_ms: 1000 }
    }
}

} // verus!
