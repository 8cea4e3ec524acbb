use esp_csi_cli::commands::{
    reset_config, set_csi, set_csi_delivery_cmd, set_csi_filter, set_csi_output, set_io_tasks_cmd,
    set_log_mode, set_phy_rate, set_protocol_cmd, set_traffic, set_wifi, start_csi_collect, wifi_texts_fit, Arg,
    Context, DeliveryMode, DeliveryRequest, LogMode, Opt,
};
use esp_csi_cli::config::{
    default_wifi_channel, Chip, ClassicCsi, CollectionMode, CsiSettings, NodeMode, PhyRate, Protocol,
    SecondaryChannel, UserConfig,
};

fn classic() -> UserConfig {
    UserConfig::new(Chip::Esp32)
}

#[test]
fn defaults_match_the_documented_table() {
    let c = classic();
    assert_eq!(c.node_mode, NodeMode::WifiSniffer);
    assert_eq!(c.collection_mode, CollectionMode::Collector);
    assert!(c.csi_output_enabled);
    assert_eq!(c.csi_peer_filter, None);
    assert_eq!(c.csi_min_sig_mode, 0);
    assert_eq!(c.trigger_freq, 100);
    assert!(!c.flood_unsolicited);
    assert_eq!(c.sta_ssid.as_str(), "");
    assert_eq!(c.sta_password.as_str(), "");
    assert_eq!(c.ap_ssid.as_str(), "esp-csi-ap");
    assert_eq!(c.ap_password.as_str(), "");
    assert!(c.serve_dhcp);
    assert_eq!(c.ap_lease_count, 4);
    assert!(!c.ap_sync_burst);
    assert_eq!(c.channel, 1);
    assert_eq!(c.phy_rate, PhyRate::RateMcs0Lgi);
    assert_eq!(c.protocol, Protocol::LR);
    assert!(c.io_tasks.tx_enabled && c.io_tasks.rx_enabled);
    assert_eq!(c.peer_mac, None);
    assert_eq!(c.ht40_secondary, None);
    assert!(!c.delivery_raw);
    assert_eq!(c.inject_period_us, 20000);
    assert!(c.emitter_use_sta_if);
    assert_eq!(
        c.csi_config,
        CsiSettings::Classic(ClassicCsi {
            lltf_en: true,
            htltf_en: true,
            stbc_htltf2_en: true,
            ltf_merge_en: true,
            channel_filter_en: false,
            manu_scale: false,
            shift: 0,
            dump_ack_en: false,
        })
    );
}

#[test]
fn default_channel_depends_on_chip() {
    assert_eq!(default_wifi_channel(Chip::Esp32C5), 149);
    assert_eq!(default_wifi_channel(Chip::Esp32C6), 1);
    assert_eq!(default_wifi_channel(Chip::Esp32), 1);
    assert_eq!(UserConfig::new(Chip::Esp32C5).channel, 149);
}

#[test]
fn context_default_is_usable() {
    let _c = Context::default();
    let _d = Context::new();
}

#[test]
fn set_traffic_frequency_and_unsolicited() {
    let mut c = classic();
    let r = set_traffic(&mut c, &["--frequency-hz=10", "--unsolicited=on"]);
    assert!(r.is_empty());
    assert_eq!(c.trigger_freq, 10);
    assert!(c.flood_unsolicited);
    let r = set_traffic(&mut c, &["--frequency-hz=0"]);
    assert!(r.is_empty());
    assert_eq!(c.trigger_freq, 0);
    assert!(c.flood_unsolicited);
}

#[test]
fn set_traffic_refuses_bad_frequency() {
    let mut c = classic();
    let r = set_traffic(&mut c, &["--frequency-hz=fast", "--unsolicited=maybe"]);
    assert_eq!(r, vec![Opt::FrequencyHz, Opt::Unsolicited]);
    assert_eq!(c.trigger_freq, 100);
    let r = set_traffic(&mut c, &["--frequency-hz=18446744073709551616"]);
    assert_eq!(r, vec![Opt::FrequencyHz]);
    assert_eq!(c.trigger_freq, 100);
    let r = set_traffic(&mut c, &["--frequency-hz=18446744073709551615"]);
    assert!(r.is_empty());
    assert_eq!(c.trigger_freq, u64::MAX);
}

#[test]
fn decimal_values_follow_from_str() {
    let mut c = classic();
    assert!(set_traffic(&mut c, &["--frequency-hz=+42"]).is_empty());
    assert_eq!(c.trigger_freq, 42);
    assert_eq!(set_traffic(&mut c, &["--frequency-hz=+"]), vec![Opt::FrequencyHz]);
    assert_eq!(set_traffic(&mut c, &["--frequency-hz=-1"]), vec![Opt::FrequencyHz]);
    assert_eq!(set_traffic(&mut c, &["--frequency-hz="]), vec![Opt::FrequencyHz]);
    assert!(set_traffic(&mut c, &["--frequency-hz=007"]).is_empty());
    assert_eq!(c.trigger_freq, 7);
}

#[test]
fn first_matching_argument_wins() {
    let mut c = classic();
    assert!(set_traffic(&mut c, &["--frequency-hz=5", "--frequency-hz=6"]).is_empty());
    assert_eq!(c.trigger_freq, 5);
    // a word that only starts like the option is not it
    assert!(set_traffic(&mut c, &["--frequency-hzz=9", "frequency-hz=9"]).is_empty());
    assert_eq!(c.trigger_freq, 5);
}

#[test]
fn set_csi_output_gate() {
    let mut c = classic();
    assert_eq!(set_csi_output(&mut c, &["--enabled=false"]), Arg::Given(false));
    assert!(!c.csi_output_enabled);
    assert_eq!(set_csi_output(&mut c, &["--enabled=yes"]), Arg::Given(true));
    assert!(c.csi_output_enabled);
    assert_eq!(set_csi_output(&mut c, &[]), Arg::Absent);
    assert_eq!(set_csi_output(&mut c, &["--enabled=sometimes"]), Arg::Refused);
    assert!(c.csi_output_enabled);
}

#[test]
fn set_csi_filter_source_and_phy() {
    let mut c = classic();
    let r = set_csi_filter(&mut c, &["--peer-mac=aa:bb:cc:dd:ee:ff", "--min-phy=ht"]);
    assert!(r.is_empty());
    assert_eq!(c.csi_peer_filter, Some([0xaa, 0xbb, 0xcc, 0xdd, 0xee, 0xff]));
    assert_eq!(c.csi_min_sig_mode, 1);
    let r = set_csi_filter(&mut c, &["--peer-mac=any", "--min-phy=any"]);
    assert!(r.is_empty());
    assert_eq!(c.csi_peer_filter, None);
    assert_eq!(c.csi_min_sig_mode, 0);
    assert!(set_csi_filter(&mut c, &["--peer-mac=11:22:33:44:55:66"]).is_empty());
    assert!(set_csi_filter(&mut c, &["--peer-mac="]).is_empty());
    assert_eq!(c.csi_peer_filter, None);
    let r = set_csi_filter(&mut c, &["--peer-mac=nope", "--min-phy=vht"]);
    assert_eq!(r, vec![Opt::PeerMac, Opt::MinPhy]);
}

#[test]
fn set_wifi_modes_and_aliases() {
    let mut c = classic();
    let cases = [
        ("station", NodeMode::WifiStation),
        ("sniffer", NodeMode::WifiSniffer),
        ("wifi-ap", NodeMode::WifiAccessPoint),
        ("ht20-emitter", NodeMode::Ht20Emitter),
        ("ht40-emitter", NodeMode::Ht40Emitter),
        ("esp-now-central", NodeMode::EspNowCentral),
        ("esp-now-peripheral", NodeMode::EspNowPeripheral),
        ("esp-now-fast-source", NodeMode::EspNowFastSource),
        ("esp-now-fast-collector", NodeMode::EspNowFastCollector),
        ("esp-now-simplex-source", NodeMode::EspNowFastSource),
        ("esp-now-simplex-peer", NodeMode::EspNowFastCollector),
    ];
    for (name, mode) in cases {
        let arg = format!("--mode={}", name);
        assert!(set_wifi(&mut c, &[arg.as_str()]).is_empty());
        assert_eq!(c.node_mode, mode);
    }
    assert_eq!(set_wifi(&mut c, &["--mode=mesh"]), vec![Opt::Mode]);
    assert_eq!(c.node_mode, NodeMode::EspNowFastCollector);
}

#[test]
fn set_wifi_station_with_quoted_spaces() {
    let mut c = classic();
    let r = set_wifi(
        &mut c,
        &["--mode=station", "--sta-ssid=My\u{1f}Network", "--sta-password=my\u{1f}password"],
    );
    assert!(r.is_empty());
    assert_eq!(c.node_mode, NodeMode::WifiStation);
    assert_eq!(c.sta_ssid.as_str(), "My Network");
    assert_eq!(c.sta_password.as_str(), "my password");
    // underscores stay literal
    assert!(set_wifi(&mut c, &["--sta-ssid=lab_ap"]).is_empty());
    assert_eq!(c.sta_ssid.as_str(), "lab_ap");
    // exactly 32 bytes fits
    let long = format!("--ap-ssid={}", "x".repeat(32));
    assert!(set_wifi(&mut c, &[long.as_str()]).is_empty());
    assert_eq!(c.ap_ssid.as_str().len(), 32);
}

#[test]
fn overlong_text_values_are_caught_before_set_wifi() {
    let fits = format!("--sta-ssid={}", "y".repeat(32));
    let too_long = format!("--sta-password={}", "y".repeat(33));
    assert!(wifi_texts_fit(&[fits.as_str(), "--mode=station"]));
    assert!(!wifi_texts_fit(&[fits.as_str(), too_long.as_str()]));
    // two bytes per character: 17 of them are 34 bytes
    let wide = format!("--ap-ssid={}", "\u{e9}".repeat(17));
    assert!(!wifi_texts_fit(&[wide.as_str()]));
    assert!(wifi_texts_fit(&["--channel=6"]));
}

#[test]
fn set_wifi_access_point_options() {
    let mut c = classic();
    let r = set_wifi(
        &mut c,
        &[
            "--mode=wifi-ap",
            "--set-channel=6",
            "--ap-ssid=Lab\u{1f}AP",
            "--ap-password=secret",
            "--ap-dhcp=off",
            "--ap-leases=8",
            "--ap-burst=on",
            "--ht40=above",
        ],
    );
    assert!(r.is_empty());
    assert_eq!(c.node_mode, NodeMode::WifiAccessPoint);
    assert_eq!(c.channel, 6);
    assert_eq!(c.ap_ssid.as_str(), "Lab AP");
    assert_eq!(c.ap_password.as_str(), "secret");
    assert!(!c.serve_dhcp);
    assert_eq!(c.ap_lease_count, 8);
    assert!(c.ap_sync_burst);
    assert_eq!(c.ht40_secondary, Some(SecondaryChannel::Above));
}

#[test]
fn an_invalid_mode_does_not_stop_the_other_options() {
    let mut a = classic();
    let mut b = classic();
    let ra = set_wifi(&mut a, &["--mode=foo", "--set-channel=6", "--sta-ssid=lab"]);
    let rb = set_wifi(&mut b, &["--set-channel=6", "--sta-ssid=lab"]);
    assert_eq!(ra, vec![Opt::Mode]);
    assert!(rb.is_empty());
    assert_eq!(a.node_mode, NodeMode::WifiSniffer);
    assert_eq!(a.channel, 6);
    assert_eq!(a.sta_ssid.as_str(), "lab");
    assert_eq!(b.channel, 6);
}

#[test]
fn val_scale_cfg_range_is_not_enforced() {
    let mut c = UserConfig::new(Chip::Esp32C6);
    assert!(set_csi(&mut c, &["--val-scale-cfg=7"]).is_empty());
    match c.csi_config {
        CsiSettings::He(h) => assert_eq!(h.val_scale_cfg, 7),
        _ => panic!("expected the ESP32-C6 settings"),
    }
    assert_eq!(set_csi(&mut c, &["--val-scale-cfg=big"]), vec![Opt::ValScaleCfg]);
    match c.csi_config {
        CsiSettings::He(h) => assert_eq!(h.val_scale_cfg, 7),
        _ => panic!("expected the ESP32-C6 settings"),
    }
}

#[test]
fn set_wifi_refusals_keep_settings_and_keep_order() {
    let mut c = classic();
    let r = set_wifi(
        &mut c,
        &[
            "--emitter-iface=usb",
            "--ht40=sideways",
            "--ap-leases=0",
            "--set-channel=300",
            "--collection=maybe",
            "--mode=x",
            "--peer-mac=zz:zz:zz:zz:zz:zz",
            "--ap-dhcp=2",
            "--ap-burst=x",
            "--inject-period-ms=4294968",
            "--inject-period-us=4294967296",
        ],
    );
    assert_eq!(
        r,
        vec![
            Opt::Mode,
            Opt::Collection,
            Opt::SetChannel,
            Opt::ApDhcp,
            Opt::ApLeases,
            Opt::ApBurst,
            Opt::PeerMac,
            Opt::Ht40,
            Opt::InjectPeriodMs,
            Opt::InjectPeriodUs,
            Opt::EmitterIface,
        ]
    );
    assert_eq!(c.node_mode, NodeMode::WifiSniffer);
    assert_eq!(c.channel, 1);
    assert_eq!(c.ap_lease_count, 4);
    assert_eq!(c.inject_period_us, 20000);
    assert_eq!(set_wifi(&mut c, &["--ap-leases=9"]), vec![Opt::ApLeases]);
}

#[test]
fn set_wifi_peer_and_emitter() {
    let mut c = classic();
    let r = set_wifi(
        &mut c,
        &[
            "--mode=ht40-emitter",
            "--peer-mac=AA-BB-CC-DD-EE-FF",
            "--inject-period-ms=5",
            "--emitter-iface=ap",
            "--collection=listener",
        ],
    );
    assert!(r.is_empty());
    assert_eq!(c.peer_mac, Some([0xaa, 0xbb, 0xcc, 0xdd, 0xee, 0xff]));
    assert_eq!(c.inject_period_us, 5000);
    assert!(!c.emitter_use_sta_if);
    assert_eq!(c.collection_mode, CollectionMode::Listener);
    // the microsecond period is applied after the millisecond one
    assert!(set_wifi(&mut c, &["--inject-period-us=1234", "--inject-period-ms=9"]).is_empty());
    assert_eq!(c.inject_period_us, 1234);
    // an empty peer clears it, and `none`/`off` clear HT40
    assert!(set_wifi(&mut c, &["--peer-mac=", "--ht40=below"]).is_empty());
    assert_eq!(c.peer_mac, None);
    assert_eq!(c.ht40_secondary, Some(SecondaryChannel::Below));
    assert!(set_wifi(&mut c, &["--ht40=off"]).is_empty());
    assert_eq!(c.ht40_secondary, None);
}

#[test]
fn set_csi_classic_switches_toggle() {
    let mut c = classic();
    let r = set_csi(&mut c, &["--lltf=off", "--ltf-merge=disable"]);
    assert!(r.is_empty());
    match c.csi_config {
        CsiSettings::Classic(k) => {
            assert!(!k.lltf_en && k.htltf_en && k.stbc_htltf2_en && !k.ltf_merge_en);
        }
        _ => panic!("classic settings expected"),
    }
    let r = set_csi(&mut c, &["--lltf=enable", "--htltf=perhaps"]);
    assert_eq!(r, vec![Opt::Htltf]);
    match c.csi_config {
        CsiSettings::Classic(k) => assert!(k.lltf_en && k.htltf_en),
        _ => panic!("classic settings expected"),
    }
}

#[test]
fn set_csi_he_settings() {
    let mut c = UserConfig::new(Chip::Esp32C6);
    let r = set_csi(&mut c, &["--csi-legacy=off", "--val-scale-cfg=3", "--csi-force-lltf=off"]);
    assert!(r.is_empty());
    match c.csi_config {
        CsiSettings::He(h) => {
            assert_eq!(h.acquire_csi_legacy, 0);
            assert_eq!(h.val_scale_cfg, 3);
            assert_eq!(h.acquire_csi_force_lltf, None);
            assert_eq!(h.dump_ack_en, 1);
        }
        _ => panic!("C6 settings expected"),
    }
    // the preset is applied before the individual switches
    let r = set_csi(&mut c, &["--csi-ht20=off", "--preset=default"]);
    assert!(r.is_empty());
    match c.csi_config {
        CsiSettings::He(h) => {
            assert_eq!(h.acquire_csi_legacy, 1);
            assert_eq!(h.acquire_csi_ht20, 0);
            assert_eq!(h.val_scale_cfg, 2);
        }
        _ => panic!("C6 settings expected"),
    }
    assert_eq!(set_csi(&mut c, &["--preset=fast", "--dump-ack=x"]), vec![Opt::Preset, Opt::DumpAck]);
}

#[test]
fn set_csi_c5_only_switches() {
    let mut c = UserConfig::new(Chip::Esp32C5);
    let r = set_csi(&mut c, &["--csi-force-lltf=off", "--csi-vht=0", "--csi=off"]);
    assert!(r.is_empty());
    match c.csi_config {
        CsiSettings::He(h) => {
            assert_eq!(h.acquire_csi_force_lltf, Some(false));
            assert_eq!(h.acquire_csi_vht, Some(false));
            assert_eq!(h.enable, 0);
        }
        _ => panic!("C5 settings expected"),
    }
}

#[test]
fn set_rate_names() {
    let mut c = classic();
    assert_eq!(set_phy_rate(&mut c, &["--rate=24m"]), Arg::Given(PhyRate::Rate24m));
    assert_eq!(c.phy_rate, PhyRate::Rate24m);
    assert_eq!(set_phy_rate(&mut c, &["--rate=1m"]), Arg::Given(PhyRate::Rate1mL));
    assert_eq!(set_phy_rate(&mut c, &["--rate=5m5-l"]), Arg::Given(PhyRate::Rate5mL));
    assert_eq!(set_phy_rate(&mut c, &["--rate=mcs7-lgi"]), Arg::Given(PhyRate::RateMcs7Lgi));
    assert_eq!(set_phy_rate(&mut c, &["--rate=mcs0-sgi"]), Arg::Given(PhyRate::RateMcs0Sgi));
    assert_eq!(set_phy_rate(&mut c, &["--rate=7m"]), Arg::Refused);
    assert_eq!(set_phy_rate(&mut c, &[]), Arg::Absent);
    assert_eq!(c.phy_rate, PhyRate::RateMcs0Sgi);
}

#[test]
fn set_protocol_names() {
    let mut c = classic();
    assert_eq!(set_protocol_cmd(&mut c, &["--protocol=n"]), Arg::Given(Protocol::N));
    assert_eq!(c.protocol, Protocol::N);
    assert_eq!(set_protocol_cmd(&mut c, &["--protocol=ac"]), Arg::Given(Protocol::AC));
    assert_eq!(set_protocol_cmd(&mut c, &["--protocol=wifi7"]), Arg::Refused);
    assert_eq!(set_protocol_cmd(&mut c, &[]), Arg::Absent);
    assert_eq!(c.protocol, Protocol::AC);
}

#[test]
fn set_io_tasks_independent() {
    let mut c = classic();
    assert!(set_io_tasks_cmd(&mut c, &["--tx=off"]).is_empty());
    assert!(!c.io_tasks.tx_enabled && c.io_tasks.rx_enabled);
    assert_eq!(set_io_tasks_cmd(&mut c, &["--tx=on", "--rx=huh"]), vec![Opt::Rx]);
    assert!(c.io_tasks.tx_enabled && c.io_tasks.rx_enabled);
}

#[test]
fn set_csi_delivery_modes() {
    let mut c = classic();
    let r = set_csi_delivery_cmd(&mut c, &["--mode=raw"]);
    assert_eq!(r, DeliveryRequest { mode: Arg::Given(DeliveryMode::Raw), logging: Arg::Absent });
    assert!(c.delivery_raw);
    let r = set_csi_delivery_cmd(&mut c, &["--mode=async", "--logging=off"]);
    assert_eq!(r, DeliveryRequest { mode: Arg::Given(DeliveryMode::Async), logging: Arg::Given(false) });
    assert!(!c.delivery_raw);
    c.delivery_raw = true;
    let r = set_csi_delivery_cmd(&mut c, &["--mode=bulk", "--logging=loud"]);
    assert_eq!(r, DeliveryRequest { mode: Arg::Refused, logging: Arg::Refused });
    assert!(c.delivery_raw);
}

#[test]
fn start_duration() {
    assert_eq!(start_csi_collect(&["--duration=120"]), Arg::Given(120));
    assert_eq!(start_csi_collect(&[]), Arg::Absent);
    assert_eq!(start_csi_collect(&["--duration=soon"]), Arg::Refused);
}

#[test]
fn log_mode_names() {
    assert_eq!(set_log_mode(&["--mode=text"]), Arg::Given(LogMode::Text));
    assert_eq!(set_log_mode(&["--mode=array-list"]), Arg::Given(LogMode::ArrayList));
    assert_eq!(set_log_mode(&["--mode=serialized"]), Arg::Given(LogMode::Serialized));
    assert_eq!(set_log_mode(&["--mode=esp-csi-tool"]), Arg::Given(LogMode::EspCsiTool));
    assert_eq!(set_log_mode(&["--mode=json"]), Arg::Refused);
    assert_eq!(set_log_mode(&[]), Arg::Absent);
}

#[test]
fn reset_restores_defaults() {
    let mut c = UserConfig::new(Chip::Esp32C5);
    set_wifi(&mut c, &["--mode=station", "--set-channel=36", "--sta-ssid=x"]);
    set_traffic(&mut c, &["--frequency-hz=5"]);
    reset_config(&mut c, Chip::Esp32C5);
    assert_eq!(c.node_mode, NodeMode::WifiSniffer);
    assert_eq!(c.channel, 149);
    assert_eq!(c.trigger_freq, 100);
    assert_eq!(c.sta_ssid.as_str(), "");
}

#[test]
fn repeating_a_command_changes_nothing_more() {
    let args = ["--mode=wifi-ap", "--ap-leases=2", "--set-channel=11", "--ht40=x"];
    let mut once = classic();
    let r1 = set_wifi(&mut once, &args);
    let mut twice = classic();
    set_wifi(&mut twice, &args);
    let r2 = set_wifi(&mut twice, &args);
    assert_eq!(r1, r2);
    assert_eq!(once.node_mode, twice.node_mode);
    assert_eq!(once.ap_lease_count, twice.ap_lease_count);
    assert_eq!(once.channel, twice.channel);
}

#[test]
fn no_arguments_change_nothing() {
    let mut c = classic();
    assert!(set_wifi(&mut c, &[]).is_empty());
    assert!(set_csi(&mut c, &[]).is_empty());
    assert!(set_traffic(&mut c, &[]).is_empty());
    assert_eq!(c.node_mode, NodeMode::WifiSniffer);
    assert_eq!(c.trigger_freq, 100);
}

#[test]
fn configuration_prints_for_debugging() {
    let text = format!("{:?}", classic());
    assert!(text.contains("WifiSniffer"));
    assert!(text.contains("esp-csi-ap"));
}
