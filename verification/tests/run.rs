use esp_csi_cli::commands::set_wifi;
use esp_csi_cli::config::{Chip, CollectionMode, NodeMode, PhyRate, SecondaryChannel, UserConfig};
use esp_csi_cli::run::{
    contains_stop_key, effective_collection, is_stop_key, plan_run, NodeSetup, StopLatch,
};

#[test]
fn sniffer_run_plan() {
    let c = UserConfig::new(Chip::Esp32);
    let p = plan_run(&c);
    assert!(matches!(p.node, NodeSetup::Sniffer { channel: 1 }));
    assert_eq!(p.collection, CollectionMode::Collector);
    assert!(!p.power_save_off);
    assert_eq!(p.traffic_hz, Some(100));
    assert_eq!(p.rate, None);
    assert!(!p.raw_delivery);
    assert!(p.inline_logging);
}

#[test]
fn zero_frequency_disables_the_flood() {
    let mut c = UserConfig::new(Chip::Esp32);
    set_wifi(&mut c, &["--mode=station", "--sta-password=pw"]);
    c.trigger_freq = 0;
    let p = plan_run(&c);
    assert_eq!(p.traffic_hz, None);
    assert!(!p.io_tasks.tx_enabled);
    assert!(p.io_tasks.rx_enabled);
    assert!(p.power_save_off);
    assert!(matches!(p.node, NodeSetup::Station { channel_hint: 1, secured: true }));
    // an ESP-NOW node keeps its TX task
    set_wifi(&mut c, &["--mode=esp-now-central"]);
    let p = plan_run(&c);
    assert!(p.io_tasks.tx_enabled);
}

#[test]
fn frequency_is_truncated_to_sixteen_bits() {
    let mut c = UserConfig::new(Chip::Esp32);
    c.trigger_freq = 70000;
    assert_eq!(plan_run(&c).traffic_hz, Some(70000u64 as u16));
    c.trigger_freq = 65536;
    assert_eq!(plan_run(&c).traffic_hz, Some(0));
}

#[test]
fn espnow_pair_pins_the_rate() {
    let mut c = UserConfig::new(Chip::Esp32);
    set_wifi(&mut c, &["--mode=esp-now-peripheral", "--set-channel=6", "--ht40=below", "--peer-mac=01:02:03:04:05:06"]);
    c.phy_rate = PhyRate::Rate24m;
    let p = plan_run(&c);
    assert_eq!(p.rate, Some(PhyRate::Rate24m));
    match p.node {
        NodeSetup::EspNowPeripheral(s) => {
            assert_eq!(s.channel, 6);
            assert_eq!(s.phy_rate, Some(PhyRate::Rate24m));
            assert_eq!(s.peer, Some([1, 2, 3, 4, 5, 6]));
            assert_eq!(s.ht40, Some(SecondaryChannel::Below));
        }
        _ => panic!("ESP-NOW peripheral expected"),
    }
    set_wifi(&mut c, &["--mode=esp-now-simplex-source"]);
    let p = plan_run(&c);
    assert_eq!(p.rate, None);
    assert_eq!(p.collection, CollectionMode::Listener);
    match p.node {
        NodeSetup::SimplexSource(s) => assert_eq!(s.phy_rate, None),
        _ => panic!("simplex source expected"),
    }
}

#[test]
fn softap_and_emitter_plans() {
    let mut c = UserConfig::new(Chip::Esp32C6);
    set_wifi(&mut c, &["--mode=wifi-ap", "--ap-leases=3", "--ap-burst=on"]);
    match plan_run(&c).node {
        NodeSetup::AccessPoint(a) => {
            assert!(!a.secured);
            assert_eq!(a.leases, 3);
            assert!(a.sync_burst && a.dhcp);
        }
        _ => panic!("softAP expected"),
    }
    set_wifi(&mut c, &["--mode=ht40-emitter", "--inject-period-us=500"]);
    let p = plan_run(&c);
    assert_eq!(p.collection, CollectionMode::Listener);
    assert!(!p.inline_logging);
    match p.node {
        NodeSetup::Emitter(e) => {
            assert!(e.ht40);
            assert_eq!(e.period_us, 500);
            assert!(e.use_sta_if);
            assert_eq!(e.destination, None);
        }
        _ => panic!("emitter expected"),
    }
}

#[test]
fn raw_delivery_closes_the_log_gate() {
    let mut c = UserConfig::new(Chip::Esp32);
    c.delivery_raw = true;
    let p = plan_run(&c);
    assert!(p.raw_delivery);
    assert!(!p.inline_logging);
}

#[test]
fn listener_collection_only_where_the_mode_reads_it() {
    assert_eq!(
        effective_collection(NodeMode::WifiStation, CollectionMode::Listener),
        (CollectionMode::Listener, false)
    );
    assert_eq!(
        effective_collection(NodeMode::WifiSniffer, CollectionMode::Listener),
        (CollectionMode::Collector, true)
    );
    assert_eq!(
        effective_collection(NodeMode::Ht20Emitter, CollectionMode::Collector),
        (CollectionMode::Listener, true)
    );
    assert_eq!(
        effective_collection(NodeMode::EspNowFastCollector, CollectionMode::Listener),
        (CollectionMode::Collector, true)
    );
}

#[test]
fn stop_keys() {
    assert!(is_stop_key(b'q') && is_stop_key(b'Q'));
    assert!(!is_stop_key(b'w'));
    assert!(contains_stop_key(b"\r\nq\r\n"));
    assert!(!contains_stop_key(b"hello"));
    assert!(!contains_stop_key(b""));
}

#[test]
fn stop_is_announced_once() {
    let mut latch = StopLatch::new();
    assert!(latch.stop_key());
    assert!(!latch.stop_key());
    assert!(!latch.stop_key());
}
