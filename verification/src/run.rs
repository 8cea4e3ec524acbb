//! What a collection run is built from: the settings the CSI engine is
//! given for the configured mode, decided from a snapshot of the
//! configuration, and the handling of the stop key while a run is active.

use vstd::prelude::*;

use crate::bounded::{text_as_str, text_chars};
use crate::config::{
    mac_view, CollectionMode, ConfigModel, IoTasks, NodeMode, PhyRate, Protocol, SecondaryChannel,
    UserConfig,
};

verus! {

/// The collection mode a run uses and whether the mode fixes it: only a
/// station, a softAP and the ESP-NOW pair read the configured one; a sniffer
/// and the simplex peer always collect, an emitter and the simplex source
/// always listen.
pub open spec fn spec_effective_collection(mode: NodeMode, configured: CollectionMode) -> (CollectionMode, bool) {
    match mode {
        NodeMode::WifiStation | NodeMode::WifiAccessPoint | NodeMode::EspNowCentral
        | NodeMode::EspNowPeripheral => (configured, false),
        NodeMode::WifiSniffer | NodeMode::EspNowFastCollector => (CollectionMode::Collector, true),
        NodeMode::Ht20Emitter | NodeMode::Ht40Emitter | NodeMode::EspNowFastSource => (
            CollectionMode::Listener,
            true,
        ),
    }
}

/// The collection mode a run in `mode` uses, and whether the mode fixes it
/// regardless of the configured one.
pub fn effective_collection(mode: NodeMode, configured: CollectionMode) -> (r: (CollectionMode, bool))
    ensures
        r == spec_effective_collection(mode, configured),
{
    match mode {
        NodeMode::WifiStation | NodeMode::WifiAccessPoint | NodeMode::EspNowCentral
        | NodeMode::EspNowPeripheral => (configured, false),
        NodeMode::WifiSniffer | NodeMode::EspNowFastCollector => (CollectionMode::Collector, true),
        NodeMode::Ht20Emitter | NodeMode::Ht40Emitter | NodeMode::EspNowFastSource => (
            CollectionMode::Listener,
            true,
        ),
    }
}

/// The ESP-NOW settings of a run.
pub struct EspNowSetup {
    pub channel: u8,
    /// The per-peer TX PHY rate; `None` for the simplex pair, which takes
    /// its rate from its own profile.
    pub phy_rate: Option<PhyRate>,
    /// Explicit peer; `None` keeps automatic pairing.
    pub peer: Option<[u8; 6]>,
    /// Forced HT40 TX PHY.
    pub ht40: Option<SecondaryChannel>,
}

/// The softAP settings of a run (the SSID and password are read from the
/// configuration as they are).
pub struct ApSetup {
    pub channel: u8,
    /// WPA2-Personal with the configured password; open when it is empty.
    pub secured: bool,
    pub ht40: Option<SecondaryChannel>,
    pub dhcp: bool,
    pub leases: u8,
    pub sync_burst: bool,
}

/// The emitter settings of a run.
pub struct EmitterSetup {
    /// 40 MHz with the secondary channel above; otherwise 20 MHz.
    pub ht40: bool,
    pub channel: u8,
    /// Injection destination; `None` for broadcast.
    pub destination: Option<[u8; 6]>,
    pub period_us: u32,
    pub use_sta_if: bool,
}

/// How the node reaches the channel during a run.
pub enum NodeSetup {
    Sniffer { channel: u8 },
    /// A station; the SSID and password are read from the configuration, and
    /// the channel is only a hint.
    Station { channel_hint: u8, secured: bool },
    AccessPoint(ApSetup),
    EspNowCentral(EspNowSetup),
    EspNowPeripheral(EspNowSetup),
    SimplexPeer(EspNowSetup),
    SimplexSource(EspNowSetup),
    Emitter(EmitterSetup),
}

/// Everything a collection run is built from.
pub struct RunPlan {
    pub node: NodeSetup,
    pub collection: CollectionMode,
    /// Wi-Fi power saving is switched off for the throughput modes.
    pub power_save_off: bool,
    /// Traffic rate; `None` sends no traffic.
    pub traffic_hz: Option<u16>,
    pub io_tasks: IoTasks,
    pub flood_unsolicited: bool,
    pub protocol: Protocol,
    /// The PHY rate pinned on the node; only the ESP-NOW pair applies it.
    pub rate: Option<PhyRate>,
    /// Register the zero-copy raw fast path instead of the logging path.
    pub raw_delivery: bool,
    /// Whether the inline CSI log gate is open during the run.
    pub inline_logging: bool,
    pub csi_output_enabled: bool,
    pub peer_filter: Option<[u8; 6]>,
    pub min_sig_mode: u8,
}

/// The ESP-NOW settings of the pair, or of the simplex ends (no rate).
pub open spec fn espnow_ok(s: EspNowSetup, c: ConfigModel, with_rate: bool) -> bool {
    &&& s.channel == c.channel
    &&& s.phy_rate == (if with_rate { Some(c.phy_rate) } else { None })
    &&& mac_view(s.peer) == c.peer_mac
    &&& s.ht40 == c.ht40_secondary
}

/// The node settings for the configured mode.
pub open spec fn node_ok(n: NodeSetup, c: ConfigModel) -> bool {
    match c.node_mode {
        NodeMode::WifiSniffer => n == NodeSetup::Sniffer { channel: c.channel },
        NodeMode::WifiStation => n == NodeSetup::Station {
            channel_hint: c.channel,
            secured: c.sta_password.len() != 0,
        },
        NodeMode::WifiAccessPoint => n == NodeSetup::AccessPoint(
            ApSetup {
                channel: c.channel,
                secured: c.ap_password.len() != 0,
                ht40: c.ht40_secondary,
                dhcp: c.serve_dhcp,
                leases: c.ap_lease_count,
                sync_burst: c.ap_sync_burst,
            },
        ),
        NodeMode::Ht20Emitter | NodeMode::Ht40Emitter => match n {
            NodeSetup::Emitter(e) => {
                &&& e.ht40 == (c.node_mode == NodeMode::Ht40Emitter)
                &&& e.channel == c.channel
                &&& mac_view(e.destination) == c.peer_mac
                &&& e.period_us == c.inject_period_us
                &&& e.use_sta_if == c.emitter_use_sta_if
            },
            _ => false,
        },
        NodeMode::EspNowCentral => n matches NodeSetup::EspNowCentral(s) && espnow_ok(s, c, true),
        NodeMode::EspNowPeripheral => n matches NodeSetup::EspNowPeripheral(s) && espnow_ok(s, c, true),
        NodeMode::EspNowFastCollector => n matches NodeSetup::SimplexPeer(s) && espnow_ok(s, c, false),
        NodeMode::EspNowFastSource => n matches NodeSetup::SimplexSource(s) && espnow_ok(s, c, false),
    }
}

/// The modes that generate traffic with the ICMP flood.
pub open spec fn floods(mode: NodeMode) -> bool {
    mode == NodeMode::WifiAccessPoint || mode == NodeMode::WifiStation
}

/// The plan of a run for configuration `c`: the node settings of its mode;
/// its effective collection mode; power saving off for the softAP, the
/// station and the simplex ends; traffic off for a frequency of 0
/// and otherwise the frequency truncated to 16 bits; the configured IO
/// tasks, except that the flood modes with a frequency of 0 do not
/// transmit; the rate pinned only on the ESP-NOW pair; and raw delivery
/// with logging closed, or logging open for a collector only.
pub open spec fn plan_ok(p: RunPlan, c: ConfigModel) -> bool {
    let coll = spec_effective_collection(c.node_mode, c.collection_mode).0;
    &&& node_ok(p.node, c)
    &&& p.collection == coll
    &&& p.power_save_off == (c.node_mode == NodeMode::WifiAccessPoint || c.node_mode
        == NodeMode::WifiStation || c.node_mode == NodeMode::EspNowFastCollector || c.node_mode
        == NodeMode::EspNowFastSource)
    &&& p.traffic_hz == (if c.trigger_freq == 0 { None } else { Some(c.trigger_freq as u16) })
    &&& p.io_tasks == IoTasks {
        tx_enabled: c.io_tasks.tx_enabled && !(c.trigger_freq == 0 && floods(c.node_mode)),
        rx_enabled: c.io_tasks.rx_enabled,
    }
    &&& p.flood_unsolicited == c.flood_unsolicited
    &&& p.protocol == c.protocol
    &&& p.rate == (if c.node_mode == NodeMode::EspNowCentral || c.node_mode
        == NodeMode::EspNowPeripheral { Some(c.phy_rate) } else { None })
    &&& p.raw_delivery == c.delivery_raw
    &&& p.inline_logging == (!c.delivery_raw && coll == CollectionMode::Collector)
    &&& p.csi_output_enabled == c.csi_output_enabled
    &&& mac_view(p.peer_filter) == c.csi_peer_filter
    &&& p.min_sig_mode == c.csi_min_sig_mode
}

fn espnow_setup(config: &UserConfig, with_rate: bool) -> (s: EspNowSetup)
    ensures
        espnow_ok(s, config@, with_rate),
{
    EspNowSetup {
        channel: config.channel,
        phy_rate: if with_rate {
            Some(config.phy_rate)
        } else {
            None
        },
        peer: config.peer_mac,
        ht40: config.ht40_secondary,
    }
}

fn node_setup(config: &UserConfig) -> (n: NodeSetup)
    ensures
        node_ok(n, config@),
{
    match config.node_mode {
        NodeMode::WifiSniffer => NodeSetup::Sniffer { channel: config.channel },
        NodeMode::WifiStation => NodeSetup::Station {
            channel_hint: config.channel,
            secured: !text_as_str(&config.sta_password).is_empty(),
        },
        NodeMode::WifiAccessPoint => NodeSetup::AccessPoint(
            ApSetup {
                channel: config.channel,
                secured: !text_as_str(&config.ap_password).is_empty(),
                ht40: config.ht40_secondary,
                dhcp: config.serve_dhcp,
                leases: config.ap_lease_count,
                sync_burst: config.ap_sync_burst,
            },
        ),
        NodeMode::Ht20Emitter | NodeMode::Ht40Emitter => NodeSetup::Emitter(
            EmitterSetup {
                ht40: match config.node_mode {
                    NodeMode::Ht40Emitter => true,
                    _ => false,
                },
                channel: config.channel,
                destination: config.peer_mac,
                period_us: config.inject_period_us,
                use_sta_if: config.emitter_use_sta_if,
            },
        ),
        NodeMode::EspNowCentral => NodeSetup::EspNowCentral(espnow_setup(config, true)),
        NodeMode::EspNowPeripheral => NodeSetup::EspNowPeripheral(espnow_setup(config, true)),
        NodeMode::EspNowFastCollector => NodeSetup::SimplexPeer(espnow_setup(config, false)),
        NodeMode::EspNowFastSource => NodeSetup::SimplexSource(espnow_setup(config, false)),
    }
}

/// Decides how a collection run is built from a snapshot of the
/// configuration.
pub fn plan_run(config: &UserConfig) -> (p: RunPlan)
    ensures
        plan_ok(p, config@),
{
    let (collection, _) = effective_collection(config.node_mode, config.collection_mode);
    let mode = config.node_mode;
    let power_save_off = match mode {
        NodeMode::WifiAccessPoint | NodeMode::WifiStation | NodeMode::EspNowFastCollector
        | NodeMode::EspNowFastSource => true,
        _ => false,
    };
    let flood = match mode {
        NodeMode::WifiAccessPoint | NodeMode::WifiStation => true,
        _ => false,
    };
    let traffic_hz = if config.trigger_freq == 0 {
        None
    } else {
        Some(config.trigger_freq as u16)
    };
    let rate = match mode {
        NodeMode::EspNowCentral | NodeMode::EspNowPeripheral => Some(config.phy_rate),
        _ => None,
    };
    let collector = match collection {
        CollectionMode::Collector => true,
        CollectionMode::Listener => false,
    };
    RunPlan {
        node: node_setup(config),
        collection,
        power_save_off,
        traffic_hz,
        io_tasks: IoTasks {
            tx_enabled: config.io_tasks.tx_enabled && !(config.trigger_freq == 0 && flood),
            rx_enabled: config.io_tasks.rx_enabled,
        },
        flood_unsolicited: config.flood_unsolicited,
        protocol: config.protocol,
        rate,
        raw_delivery: config.delivery_raw,
        inline_logging: !config.delivery_raw && collector,
        csi_output_enabled: config.csi_output_enabled,
        peer_filter: config.csi_peer_filter,
        min_sig_mode: config.csi_min_sig_mode,
    }
}

/// The node settings a run plan gives the softAP and the ESP-NOW ends: the
/// softAP takes its channel, WPA2 exactly when a password is set, its HT40
/// secondary, DHCP, lease pool and burst from the configuration; the ESP-NOW
/// pair takes channel, PHY rate, explicit peer and HT40 PHY; the simplex ends
/// take the same without a rate.
pub proof fn lemma_plan_node_settings(p: RunPlan, c: ConfigModel)
    requires
        plan_ok(p, c),
    ensures
        c.node_mode == NodeMode::WifiAccessPoint ==> p.node == NodeSetup::AccessPoint(
            ApSetup {
                channel: c.channel,
                secured: c.ap_password.len() != 0,
                ht40: c.ht40_secondary,
                dhcp: c.serve_dhcp,
                leases: c.ap_lease_count,
                sync_burst: c.ap_sync_burst,
            },
        ),
        c.node_mode == NodeMode::EspNowCentral ==> (p.node matches NodeSetup::EspNowCentral(s) && {
            &&& s.channel == c.channel
            &&& s.phy_rate == Some(c.phy_rate)
            &&& mac_view(s.peer) == c.peer_mac
            &&& s.ht40 == c.ht40_secondary
        }),
        c.node_mode == NodeMode::EspNowPeripheral ==> (p.node matches NodeSetup::EspNowPeripheral(s) && {
            &&& s.channel == c.channel
            &&& s.phy_rate == Some(c.phy_rate)
            &&& mac_view(s.peer) == c.peer_mac
            &&& s.ht40 == c.ht40_secondary
        }),
        c.node_mode == NodeMode::EspNowFastSource ==> (p.node matches NodeSetup::SimplexSource(s) && {
            &&& s.channel == c.channel
            &&& s.phy_rate is None
            &&& mac_view(s.peer) == c.peer_mac
            &&& s.ht40 == c.ht40_secondary
        }),
        c.node_mode == NodeMode::EspNowFastCollector ==> (p.node matches NodeSetup::SimplexPeer(s) && {
            &&& s.channel == c.channel
            &&& s.phy_rate is None
            &&& mac_view(s.peer) == c.peer_mac
            &&& s.ht40 == c.ht40_secondary
        }),
{
}

// ---------------------------------------------------------------- stop key

/// The keys that stop a run early: `q` and `Q`.
pub open spec fn spec_is_stop_key(b: u8) -> bool {
    b == 0x71 || b == 0x51
}

/// `b` is a stop key.
pub fn is_stop_key(b: u8) -> (r: bool)
    ensures
        r == spec_is_stop_key(b),
{
    b == 0x71 || b == 0x51
}

/// A chunk read from the console during a run holds a stop key.
pub fn contains_stop_key(bytes: &[u8]) -> (r: bool)
    ensures
        r == exists|i: int| 0 <= i < bytes@.len() && spec_is_stop_key(#[trigger] bytes@[i]),
{
    let mut i: usize = 0;
    while i < bytes.len()
        invariant
            i <= bytes@.len(),
            forall|j: int| 0 <= j < i ==> !spec_is_stop_key(#[trigger] bytes@[j]),
        decreases bytes@.len() - i,
    {
        if is_stop_key(bytes[i]) {
            return true;
        }
        i = i + 1;
    }
    false
}

/// The stop-key state of one collection run: the stop is announced once,
/// however often the key is pressed before the run winds down.
pub struct StopLatch {
    pub announced: bool,
}

impl StopLatch {
    /// The state at the start of a run.
    pub fn new() -> (r: StopLatch)
        ensures
            !r.announced,
    {
        StopLatch { announced: false }
    }

    /// A stop key was seen: the stop is requested every time, and the
    /// result says whether to announce it, which is only the first time.
    pub fn stop_key(&mut self) -> (announce: bool)
        ensures
            announce == !old(self).announced,
            final(self).announced,
    {
        let announce = !self.announced;
        self.announced = true;
        announce
    }
}

} // verus!
