//! The runtime configuration of a CSI node, edited live through the command
//! line and snapshotted by each collection run, with its defaults.

use vstd::prelude::*;

use crate::bounded::{text_chars, TEXT_CAPACITY};
use crate::text::{text_field, utf8_len};

verus! {

/// The chip the firmware is built for. It decides the default Wi-Fi channel
/// and which CSI acquisition settings the radio offers.
#[derive(Clone, Copy, Debug, PartialEq, Eq, Structural)]
pub enum Chip {
    Esp32,
    Esp32C3,
    Esp32C5,
    Esp32C6,
    Esp32S3,
}

/// The node's operational mode: how it reaches the channel.
#[derive(Clone, Copy, Debug, PartialEq, Eq, Structural)]
pub enum NodeMode {
    /// Promiscuous capture on a locked channel.
    WifiSniffer,
    /// Associates to an access point as a station.
    WifiStation,
    /// Self-contained softAP collector (DHCP + ICMP flood).
    WifiAccessPoint,
    /// Unassociated raw 802.11n injection at 20 MHz.
    Ht20Emitter,
    /// Unassociated raw 802.11n injection at 40 MHz.
    Ht40Emitter,
    /// The central end of the symmetric ESP-NOW exchange.
    EspNowCentral,
    /// The peripheral end of the symmetric ESP-NOW exchange.
    EspNowPeripheral,
    /// The receiving (peer) end of the asymmetric ESP-NOW exchange.
    EspNowFastCollector,
    /// The flooding (source) end of the asymmetric ESP-NOW exchange.
    EspNowFastSource,
}

/// Whether the node's measurements leave it.
#[derive(Clone, Copy, Debug, PartialEq, Eq, Structural)]
pub enum CollectionMode {
    Collector,
    Listener,
}

/// The secondary channel of an HT40 link.
#[derive(Clone, Copy, Debug, PartialEq, Eq, Structural)]
pub enum SecondaryChannel {
    Above,
    Below,
}

/// Wi-Fi PHY rates selectable with `set-rate`.
#[derive(Clone, Copy, Debug, PartialEq, Eq, Structural)]
pub enum PhyRate {
    Rate1mL,
    Rate2m,
    Rate5mL,
    Rate11mL,
    Rate6m,
    Rate9m,
    Rate12m,
    Rate18m,
    Rate24m,
    Rate36m,
    Rate48m,
    Rate54m,
    RateMcs0Lgi,
    RateMcs1Lgi,
    RateMcs2Lgi,
    RateMcs3Lgi,
    RateMcs4Lgi,
    RateMcs5Lgi,
    RateMcs6Lgi,
    RateMcs7Lgi,
    RateMcs0Sgi,
}

/// Wi-Fi PHY protocols selectable with `set-protocol`.
#[derive(Clone, Copy, Debug, PartialEq, Eq, Structural)]
pub enum Protocol {
    B,
    G,
    N,
    LR,
    A,
    AC,
}

/// Per-direction task enables.
#[derive(Clone, Copy, Debug, PartialEq, Eq, Structural)]
pub struct IoTasks {
    pub tx_enabled: bool,
    pub rx_enabled: bool,
}

/// CSI acquisition settings of the ESP32, ESP32-C3 and ESP32-S3.
#[derive(Clone, Copy, Debug, PartialEq, Eq, Structural)]
pub struct ClassicCsi {
    pub lltf_en: bool,
    pub htltf_en: bool,
    pub stbc_htltf2_en: bool,
    pub ltf_merge_en: bool,
    pub channel_filter_en: bool,
    pub manu_scale: bool,
    pub shift: u8,
    pub dump_ack_en: bool,
}

/// CSI acquisition settings of the ESP32-C5 and ESP32-C6. The forced L-LTF
/// and VHT switches exist on the ESP32-C5 only and are `None` elsewhere.
#[derive(Clone, Copy, Debug, PartialEq, Eq, Structural)]
pub struct HeCsi {
    pub enable: u32,
    pub acquire_csi_legacy: u32,
    pub acquire_csi_ht20: u32,
    pub acquire_csi_ht40: u32,
    pub acquire_csi_su: u32,
    pub acquire_csi_mu: u32,
    pub acquire_csi_dcm: u32,
    pub acquire_csi_beamformed: u32,
    pub acquire_csi_he_stbc: u32,
    pub val_scale_cfg: u32,
    pub dump_ack_en: u32,
    pub acquire_csi_force_lltf: Option<bool>,
    pub acquire_csi_vht: Option<bool>,
}

/// The CSI acquisition settings of the chip the firmware runs on.
#[derive(Clone, Copy, Debug, PartialEq, Eq, Structural)]
pub enum CsiSettings {
    Classic(ClassicCsi),
    He(HeCsi),
}

impl Chip {
    /// The chip's name as `info` reports it.
    pub fn name(&self) -> (r: &'static str)
        ensures
            r@ == chip_name(*self),
    {
        match self {
            Chip::Esp32 => "esp32",
            Chip::Esp32C3 => "esp32c3",
            Chip::Esp32C5 => "esp32c5",
            Chip::Esp32C6 => "esp32c6",
            Chip::Esp32S3 => "esp32s3",
        }
    }
}

/// The chip's name as `info` reports it.
pub open spec fn chip_name(chip: Chip) -> Seq<char> {
    match chip {
        Chip::Esp32 => "esp32"@,
        Chip::Esp32C3 => "esp32c3"@,
        Chip::Esp32C5 => "esp32c5"@,
        Chip::Esp32C6 => "esp32c6"@,
        Chip::Esp32S3 => "esp32s3"@,
    }
}

/// The default Wi-Fi channel: 5 GHz channel 149 on the ESP32-C5, 2.4 GHz
/// channel 1 on every other chip.
pub open spec fn spec_default_wifi_channel(chip: Chip) -> u8 {
    if chip == Chip::Esp32C5 {
        149
    } else {
        1
    }
}

/// The chip's default CSI acquisition settings: on the classic chips every
/// LTF switch on and the channel filter, manual scaling and ACK dump off; on
/// the ESP32-C5 and ESP32-C6 every acquisition and the ACK dump on, STBC
/// HE-LTF sampled across both LTFs and value scale 2.
pub open spec fn default_csi(chip: Chip) -> CsiSettings {
    match chip {
        Chip::Esp32C5 | Chip::Esp32C6 => CsiSettings::He(
            HeCsi {
                enable: 1,
                acquire_csi_legacy: 1,
                acquire_csi_ht20: 1,
                acquire_csi_ht40: 1,
                acquire_csi_su: 1,
                acquire_csi_mu: 1,
                acquire_csi_dcm: 1,
                acquire_csi_beamformed: 1,
                acquire_csi_he_stbc: 2,
                val_scale_cfg: 2,
                dump_ack_en: 1,
                acquire_csi_force_lltf: if chip == Chip::Esp32C5 { Some(true) } else { None },
                acquire_csi_vht: if chip == Chip::Esp32C5 { Some(true) } else { None },
            },
        ),
        _ => CsiSettings::Classic(
            ClassicCsi {
                lltf_en: true,
                htltf_en: true,
                stbc_htltf2_en: true,
                ltf_merge_en: true,
                channel_filter_en: false,
                manu_scale: false,
                shift: 0,
                dump_ack_en: false,
            },
        ),
    }
}

/// The default Wi-Fi channel for the chip.
pub fn default_wifi_channel(chip: Chip) -> (r: u8)
    ensures
        r == spec_default_wifi_channel(chip),
{
    match chip {
        Chip::Esp32C5 => 149,
        _ => 1,
    }
}

/// The chip's default CSI acquisition settings.
pub fn default_csi_settings(chip: Chip) -> (r: CsiSettings)
    ensures
        r == default_csi(chip),
{
    match chip {
        Chip::Esp32C5 | Chip::Esp32C6 => {
            let c5 = match chip {
                Chip::Esp32C5 => true,
                _ => false,
            };
            CsiSettings::He(
                HeCsi {
                    enable: 1,
                    acquire_csi_legacy: 1,
                    acquire_csi_ht20: 1,
                    acquire_csi_ht40: 1,
                    acquire_csi_su: 1,
                    acquire_csi_mu: 1,
                    acquire_csi_dcm: 1,
                    acquire_csi_beamformed: 1,
                    acquire_csi_he_stbc: 2,
                    val_scale_cfg: 2,
                    dump_ack_en: 1,
                    acquire_csi_force_lltf: if c5 { Some(true) } else { None },
                    acquire_csi_vht: if c5 { Some(true) } else { None },
                },
            )
        },
        _ => CsiSettings::Classic(
            ClassicCsi {
                lltf_en: true,
                htltf_en: true,
                stbc_htltf2_en: true,
                ltf_merge_en: true,
                channel_filter_en: false,
                manu_scale: false,
                shift: 0,
                dump_ack_en: false,
            },
        ),
    }
}

/// Runtime configuration for the CSI node, edited live through the command
/// line and snapshotted at the start of each collection run.
#[derive(Debug)]
pub struct UserConfig {
    /// Operational mode (sniffer, station, softAP, emitter, ESP-NOW ends).
    pub node_mode: NodeMode,
    /// Collection mode, read by the modes that admit a choice.
    pub collection_mode: CollectionMode,
    /// Whether captured CSI is delivered off-device.
    pub csi_output_enabled: bool,
    /// Deliver CSI only for frames from this source; `None` accepts all.
    pub csi_peer_filter: Option<[u8; 6]>,
    /// Minimum `sig_mode` to deliver: 0 any PHY, 1 HT and better.
    pub csi_min_sig_mode: u8,
    /// Traffic generation frequency in Hz; 0 disables traffic generation.
    pub trigger_freq: u64,
    /// Flood unsolicited echo replies instead of echo requests.
    pub flood_unsolicited: bool,
    /// SSID used in station mode.
    pub sta_ssid: heapless::String<32>,
    /// Password used in station mode.
    pub sta_password: heapless::String<32>,
    /// SSID of the softAP.
    pub ap_ssid: heapless::String<32>,
    /// Password of the softAP; empty for an open network.
    pub ap_password: heapless::String<32>,
    /// Whether the softAP runs its DHCP server.
    pub serve_dhcp: bool,
    /// DHCP lease pool size of the softAP (1 to 8).
    pub ap_lease_count: u8,
    /// Synchronized burst flood of the softAP.
    pub ap_sync_burst: bool,
    /// CSI acquisition settings.
    pub csi_config: CsiSettings,
    /// Wi-Fi channel.
    pub channel: u8,
    /// Wi-Fi PHY rate of the ESP-NOW pair.
    pub phy_rate: PhyRate,
    /// Wi-Fi PHY protocol applied before each run.
    pub protocol: Protocol,
    /// Per-direction task enables.
    pub io_tasks: IoTasks,
    /// Emitter destination or explicit ESP-NOW peer; `None` for broadcast or
    /// automatic pairing.
    pub peer_mac: Option<[u8; 6]>,
    /// Secondary channel of the softAP / forced HT40 PHY of ESP-NOW.
    pub ht40_secondary: Option<SecondaryChannel>,
    /// Register the zero-copy raw CSI fast path at the next run.
    pub delivery_raw: bool,
    /// Delay between injected frames of the emitter modes, in microseconds.
    pub inject_period_us: u32,
    /// Interface an emitter injects on: `true` STA, `false` AP.
    pub emitter_use_sta_if: bool,
}

/// The mathematical value of a [`UserConfig`]: text fields as characters and
/// addresses as byte sequences.
#[verifier::ext_equal]
pub struct ConfigModel {
    pub node_mode: NodeMode,
    pub collection_mode: CollectionMode,
    pub csi_output_enabled: bool,
    pub csi_peer_filter: Option<Seq<u8>>,
    pub csi_min_sig_mode: u8,
    pub trigger_freq: u64,
    pub flood_unsolicited: bool,
    pub sta_ssid: Seq<char>,
    pub sta_password: Seq<char>,
    pub ap_ssid: Seq<char>,
    pub ap_password: Seq<char>,
    pub serve_dhcp: bool,
    pub ap_lease_count: u8,
    pub ap_sync_burst: bool,
    pub csi_config: CsiSettings,
    pub channel: u8,
    pub phy_rate: PhyRate,
    pub protocol: Protocol,
    pub io_tasks: IoTasks,
    pub peer_mac: Option<Seq<u8>>,
    pub ht40_secondary: Option<SecondaryChannel>,
    pub delivery_raw: bool,
    pub inject_period_us: u32,
    pub emitter_use_sta_if: bool,
}

/// An optional address as a byte sequence.
pub open spec fn mac_view(m: Option<[u8; 6]>) -> Option<Seq<u8>> {
    match m {
        Some(a) => Some(a@),
        None => None,
    }
}

impl View for UserConfig {
    type V = ConfigModel;

    open spec fn view(&self) -> ConfigModel {
        ConfigModel {
            node_mode: self.node_mode,
            collection_mode: self.collection_mode,
            csi_output_enabled: self.csi_output_enabled,
            csi_peer_filter: mac_view(self.csi_peer_filter),
            csi_min_sig_mode: self.csi_min_sig_mode,
            trigger_freq: self.trigger_freq,
            flood_unsolicited: self.flood_unsolicited,
            sta_ssid: text_chars(self.sta_ssid),
            sta_password: text_chars(self.sta_password),
            ap_ssid: text_chars(self.ap_ssid),
            ap_password: text_chars(self.ap_password),
            serve_dhcp: self.serve_dhcp,
            ap_lease_count: self.ap_lease_count,
            ap_sync_burst: self.ap_sync_burst,
            csi_config: self.csi_config,
            channel: self.channel,
            phy_rate: self.phy_rate,
            protocol: self.protocol,
            io_tasks: self.io_tasks,
            peer_mac: mac_view(self.peer_mac),
            ht40_secondary: self.ht40_secondary,
            delivery_raw: self.delivery_raw,
            inject_period_us: self.inject_period_us,
            emitter_use_sta_if: self.emitter_use_sta_if,
        }
    }
}

/// The SSID of the softAP until one is configured.
pub open spec fn default_ap_ssid() -> Seq<char> {
    "esp-csi-ap"@
}

/// The configuration a node boots with, and that `reset-config` restores.
pub open spec fn default_config(chip: Chip) -> ConfigModel {
    ConfigModel {
        node_mode: NodeMode::WifiSniffer,
        collection_mode: CollectionMode::Collector,
        csi_output_enabled: true,
        csi_peer_filter: None,
        csi_min_sig_mode: 0,
        trigger_freq: 100,
        flood_unsolicited: false,
        sta_ssid: Seq::empty(),
        sta_password: Seq::empty(),
        ap_ssid: default_ap_ssid(),
        ap_password: Seq::empty(),
        serve_dhcp: true,
        ap_lease_count: 4,
        ap_sync_burst: false,
        csi_config: default_csi(chip),
        channel: spec_default_wifi_channel(chip),
        phy_rate: PhyRate::RateMcs0Lgi,
        protocol: Protocol::LR,
        io_tasks: IoTasks { tx_enabled: true, rx_enabled: true },
        peer_mac: None,
        ht40_secondary: None,
        delivery_raw: false,
        inject_period_us: 20000,
        emitter_use_sta_if: true,
    }
}

impl UserConfig {
    /// A configuration holding the defaults for `chip`: sniffer mode,
    /// collector, CSI output on and unfiltered, 100 Hz echo-request traffic,
    /// no station credentials, an open softAP `esp-csi-ap` with DHCP and a
    /// 4-lease pool and no burst, the chip's CSI settings and channel, rate
    /// MCS0-LGI, protocol LR, both IO tasks on, automatic peer, HT20,
    /// no raw delivery, 20 ms injection period on the STA interface.
    pub fn new(chip: Chip) -> (r: UserConfig)
        ensures
            r@ == default_config(chip),
    {
        let empty = "";
        let ap = "esp-csi-ap";
        proof {
            reveal_strlit("");
            reveal_strlit("esp-csi-ap");
            assert(utf8_len(empty@) <= TEXT_CAPACITY) by {
                vstd::utf8::is_ascii_chars_encode_utf8(empty@);
            }
            assert(utf8_len(ap@) <= TEXT_CAPACITY) by {
                assert(vstd::utf8::is_ascii_chars(ap@));
                vstd::utf8::is_ascii_chars_encode_utf8(ap@);
            }
        }
        let sta_ssid = text_field(empty, false).unwrap();
        let sta_password = text_field(empty, false).unwrap();
        let ap_ssid = text_field(ap, false).unwrap();
        let ap_password = text_field(empty, false).unwrap();
        let r = UserConfig {
            node_mode: NodeMode::WifiSniffer,
            collection_mode: CollectionMode::Collector,
            csi_output_enabled: true,
            csi_peer_filter: None,
            csi_min_sig_mode: 0,
            trigger_freq: 100,
            flood_unsolicited: false,
            sta_ssid,
            sta_password,
            ap_ssid,
            ap_password,
            serve_dhcp: true,
            ap_lease_count: 4,
            ap_sync_burst: false,
            csi_config: default_csi_settings(chip),
            channel: default_wifi_channel(chip),
            phy_rate: PhyRate::RateMcs0Lgi,
            protocol: Protocol::LR,
            io_tasks: IoTasks { tx_enabled: true, rx_enabled: true },
            peer_mac: None,
            ht40_secondary: None,
            delivery_raw: false,
            inject_period_us: 20000,
            emitter_use_sta_if: true,
        };
        assert(r@.sta_ssid =~= Seq::<char>::empty());
        assert(r@.sta_password =~= Seq::<char>::empty());
        assert(r@.ap_password =~= Seq::<char>::empty());
        r
    }
}

} // verus!
