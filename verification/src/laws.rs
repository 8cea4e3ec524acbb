//! Laws of the command line stated from the outside: what each option does
//! to the configuration and to the list of refused options, in terms of the
//! words typed, over every configuration and command line.

use vstd::prelude::*;
use vstd::seq_lib::lemma_seq_concat_contains_all_elements;

use crate::args::named_value;
use crate::commands::{
    lease_count_of, refusal, set_csi_spec, set_wifi_spec, spec_arg, switch_arg, wifi_ap_spec, wifi_emitter_spec,
    wifi_peer_spec, wifi_radio_spec, wifi_texts_spec, Arg, Opt,
};
use crate::commands::{DeliveryMode, LogMode};
use crate::config::{CollectionMode, ConfigModel, CsiSettings, NodeMode, PhyRate, Protocol, SecondaryChannel};
use crate::run::{plan_ok, spec_effective_collection, RunPlan};
use crate::text::{feature_switch, on_off, parse_unsigned};

verus! {

broadcast use lemma_seq_concat_contains_all_elements;

/// A refusal list of one argument holds an option exactly when that
/// argument was refused and is that option.
proof fn lemma_refusal_contains<T>(a: Arg<T>, o: Opt, x: Opt)
    ensures
        refusal(a, o).contains(x) <==> (a is Refused && o == x),
{
    if a is Refused {
        assert(refusal(a, o)[0] == o);
    }
}

/// The switch vocabulary: `on`, `true`, `1`, `yes` switch on and `off`,
/// `false`, `0`, `no` switch off; the CSI feature switches also take
/// `enable` and `disable`.
pub proof fn lemma_switch_words()
    ensures
        on_off("on"@) == Some(true),
        on_off("true"@) == Some(true),
        on_off("1"@) == Some(true),
        on_off("yes"@) == Some(true),
        on_off("off"@) == Some(false),
        on_off("false"@) == Some(false),
        on_off("0"@) == Some(false),
        on_off("no"@) == Some(false),
        on_off("enable"@) is None,
        on_off("disable"@) is None,
        feature_switch("on"@) == Some(true),
        feature_switch("true"@) == Some(true),
        feature_switch("1"@) == Some(true),
        feature_switch("yes"@) == Some(true),
        feature_switch("enable"@) == Some(true),
        feature_switch("off"@) == Some(false),
        feature_switch("false"@) == Some(false),
        feature_switch("0"@) == Some(false),
        feature_switch("no"@) == Some(false),
        feature_switch("disable"@) == Some(false),
{
    reveal_strlit("on");
    reveal_strlit("true");
    reveal_strlit("1");
    reveal_strlit("yes");
    reveal_strlit("off");
    reveal_strlit("false");
    reveal_strlit("0");
    reveal_strlit("no");
    reveal_strlit("enable");
    reveal_strlit("disable");
    assert("on"@[0] != "true"@[0]);
    assert("on"@[0] != "1"@[0]);
    assert("on"@[0] != "yes"@[0]);
    assert("on"@[1] != "off"@[1]);
    assert("on"@[0] != "false"@[0]);
    assert("on"@[0] != "0"@[0]);
    assert("on"@[0] != "no"@[0]);
    assert("on"@[0] != "enable"@[0]);
    assert("on"@[0] != "disable"@[0]);
    assert("true"@[0] != "1"@[0]);
    assert("true"@[0] != "yes"@[0]);
    assert("true"@[0] != "off"@[0]);
    assert("true"@[0] != "false"@[0]);
    assert("true"@[0] != "0"@[0]);
    assert("true"@[0] != "no"@[0]);
    assert("true"@[0] != "enable"@[0]);
    assert("true"@[0] != "disable"@[0]);
    assert("1"@[0] != "yes"@[0]);
    assert("1"@[0] != "off"@[0]);
    assert("1"@[0] != "false"@[0]);
    assert("1"@[0] != "0"@[0]);
    assert("1"@[0] != "no"@[0]);
    assert("1"@[0] != "enable"@[0]);
    assert("1"@[0] != "disable"@[0]);
    assert("yes"@[0] != "off"@[0]);
    assert("yes"@[0] != "false"@[0]);
    assert("yes"@[0] != "0"@[0]);
    assert("yes"@[0] != "no"@[0]);
    assert("yes"@[0] != "enable"@[0]);
    assert("yes"@[0] != "disable"@[0]);
    assert("off"@[0] != "false"@[0]);
    assert("off"@[0] != "0"@[0]);
    assert("off"@[0] != "no"@[0]);
    assert("off"@[0] != "enable"@[0]);
    assert("off"@[0] != "disable"@[0]);
    assert("false"@[0] != "0"@[0]);
    assert("false"@[0] != "no"@[0]);
    assert("false"@[0] != "enable"@[0]);
    assert("false"@[0] != "disable"@[0]);
    assert("0"@[0] != "no"@[0]);
    assert("0"@[0] != "enable"@[0]);
    assert("0"@[0] != "disable"@[0]);
    assert("no"@[0] != "enable"@[0]);
    assert("no"@[0] != "disable"@[0]);
    assert("enable"@[0] != "disable"@[0]);
}

/// `set-wifi --ap-leases=<n>`: every decimal lease count from 1 to 8 is
/// stored as it is and refuses nothing; any other value (0, more than 8,
/// or not a number) keeps the count and is refused. Without the option
/// the count is kept and nothing about it is refused.
pub proof fn lemma_ap_leases(c: ConfigModel, av: Seq<Seq<char>>)
    ensures
        match named_value(av, "ap-leases"@) {
            Some(v) => match parse_unsigned(v, u64::MAX as nat) {
                Some(n) => if 1 <= n <= 8 {
                    &&& set_wifi_spec(c, av).0.ap_lease_count == n
                    &&& !set_wifi_spec(c, av).1.contains(Opt::ApLeases)
                } else {
                    &&& set_wifi_spec(c, av).0.ap_lease_count == c.ap_lease_count
                    &&& set_wifi_spec(c, av).1.contains(Opt::ApLeases)
                },
                None => {
                    &&& set_wifi_spec(c, av).0.ap_lease_count == c.ap_lease_count
                    &&& set_wifi_spec(c, av).1.contains(Opt::ApLeases)
                },
            },
            None => {
                &&& set_wifi_spec(c, av).0.ap_lease_count == c.ap_lease_count
                &&& !set_wifi_spec(c, av).1.contains(Opt::ApLeases)
            },
        },
{
    let leases = spec_arg(av, "ap-leases"@, |v: Seq<char>| lease_count_of(v));
    if let Some(v) = named_value(av, "ap-leases"@) {
        if let Some(n) = parse_unsigned(v, u64::MAX as nat) {
            assert(parse_unsigned(v, 255) == (if n <= 255 { Some(n) } else { None::<nat> }));
        } else {
            assert(parse_unsigned(v, 255) is None);
        }
    }
    lemma_wifi_refuses(c, av, Opt::ApLeases);
}

/// The options `set-wifi` refuses are exactly those whose value it could
/// not read.
proof fn lemma_wifi_refuses(c: ConfigModel, av: Seq<Seq<char>>, x: Opt)
    ensures
        set_wifi_spec(c, av).1.contains(x) <==> {
            ||| x == Opt::Mode && spec_arg(av, "mode"@, |v: Seq<char>| crate::commands::node_mode_of(v)) is Refused
            ||| x == Opt::Collection && spec_arg(av, "collection"@, |v: Seq<char>| crate::commands::collection_of(v)) is Refused
            ||| x == Opt::SetChannel && spec_arg(av, "set-channel"@, |v: Seq<char>| crate::commands::channel_of(v)) is Refused
            ||| x == Opt::ApDhcp && crate::commands::on_off_arg(av, "ap-dhcp"@) is Refused
            ||| x == Opt::ApLeases && spec_arg(av, "ap-leases"@, |v: Seq<char>| lease_count_of(v)) is Refused
            ||| x == Opt::ApBurst && crate::commands::on_off_arg(av, "ap-burst"@) is Refused
            ||| x == Opt::PeerMac && spec_arg(av, "peer-mac"@, |v: Seq<char>| crate::commands::peer_of(v)) is Refused
            ||| x == Opt::Ht40 && spec_arg(av, "ht40"@, |v: Seq<char>| crate::commands::ht40_of(v)) is Refused
            ||| x == Opt::InjectPeriodMs && spec_arg(av, "inject-period-ms"@, |v: Seq<char>| crate::commands::inject_ms_of(v)) is Refused
            ||| x == Opt::InjectPeriodUs && spec_arg(av, "inject-period-us"@, |v: Seq<char>| crate::commands::inject_us_of(v)) is Refused
            ||| x == Opt::EmitterIface && spec_arg(av, "emitter-iface"@, |v: Seq<char>| crate::commands::iface_of(v)) is Refused
        },
{
    let r = wifi_radio_spec(c, av);
    let t = wifi_texts_spec(r.0, av);
    let a = wifi_ap_spec(t, av);
    let p = wifi_peer_spec(a.0, av);
    let e = wifi_emitter_spec(p.0, av);
    lemma_refusal_contains(spec_arg(av, "mode"@, |v: Seq<char>| crate::commands::node_mode_of(v)), Opt::Mode, x);
    lemma_refusal_contains(spec_arg(av, "collection"@, |v: Seq<char>| crate::commands::collection_of(v)), Opt::Collection, x);
    lemma_refusal_contains(spec_arg(av, "set-channel"@, |v: Seq<char>| crate::commands::channel_of(v)), Opt::SetChannel, x);
    lemma_refusal_contains(crate::commands::on_off_arg(av, "ap-dhcp"@), Opt::ApDhcp, x);
    lemma_refusal_contains(spec_arg(av, "ap-leases"@, |v: Seq<char>| lease_count_of(v)), Opt::ApLeases, x);
    lemma_refusal_contains(crate::commands::on_off_arg(av, "ap-burst"@), Opt::ApBurst, x);
    lemma_refusal_contains(spec_arg(av, "peer-mac"@, |v: Seq<char>| crate::commands::peer_of(v)), Opt::PeerMac, x);
    lemma_refusal_contains(spec_arg(av, "ht40"@, |v: Seq<char>| crate::commands::ht40_of(v)), Opt::Ht40, x);
    lemma_refusal_contains(spec_arg(av, "inject-period-ms"@, |v: Seq<char>| crate::commands::inject_ms_of(v)), Opt::InjectPeriodMs, x);
    lemma_refusal_contains(spec_arg(av, "inject-period-us"@, |v: Seq<char>| crate::commands::inject_us_of(v)), Opt::InjectPeriodUs, x);
    lemma_refusal_contains(spec_arg(av, "emitter-iface"@, |v: Seq<char>| crate::commands::iface_of(v)), Opt::EmitterIface, x);
    assert(set_wifi_spec(c, av).1 == r.1 + a.1 + p.1 + e.1);
}

/// The number typed for option `name`, read as a decimal without a bound.
pub open spec fn decimal_arg(av: Seq<Seq<char>>, name: Seq<char>) -> Option<nat> {
    match named_value(av, name) {
        Some(v) => parse_unsigned(v, u64::MAX as nat),
        None => None,
    }
}

/// The switch word typed for option `name`, read with the on/off vocabulary.
pub open spec fn switch_word(av: Seq<Seq<char>>, name: Seq<char>) -> Option<bool> {
    match named_value(av, name) {
        Some(v) => on_off(v),
        None => None,
    }
}

/// `set-wifi --set-channel=<n>`: a channel from 0 to 255 is stored; a
/// larger number or other text keeps the channel and is refused.
pub proof fn lemma_wifi_channel(c: ConfigModel, av: Seq<Seq<char>>)
    ensures
        decimal_arg(av, "set-channel"@) is Some && decimal_arg(av, "set-channel"@)->0 <= 255 ==> set_wifi_spec(c, av).0.channel
            == decimal_arg(av, "set-channel"@)->0,
        !(decimal_arg(av, "set-channel"@) is Some && decimal_arg(av, "set-channel"@)->0 <= 255) ==> set_wifi_spec(
            c,
            av,
        ).0.channel == c.channel,
        set_wifi_spec(c, av).1.contains(Opt::SetChannel) <==> (named_value(av, "set-channel"@) is Some && !(decimal_arg(
            av,
            "set-channel"@,
        ) is Some && decimal_arg(av, "set-channel"@)->0 <= 255)),
{
    lemma_wifi_refuses(c, av, Opt::SetChannel);
}

/// `set-wifi --inject-period-us=<n>` and `--inject-period-ms=<n>`: a period
/// in microseconds that fits 32 bits is stored, one in milliseconds is
/// stored times 1000 when that fits, and the microsecond option wins when
/// both are accepted; a value that does not fit, or is not a number, is
/// refused.
pub proof fn lemma_wifi_inject_period(c: ConfigModel, av: Seq<Seq<char>>)
    ensures
        ({
            let us = decimal_arg(av, "inject-period-us"@);
            let ms = decimal_arg(av, "inject-period-ms"@);
            let us_ok = us is Some && us->0 <= u32::MAX;
            let ms_ok = ms is Some && ms->0 * 1000 <= u32::MAX;
            &&& us_ok ==> set_wifi_spec(c, av).0.inject_period_us == us->0
            &&& !us_ok && ms_ok ==> set_wifi_spec(c, av).0.inject_period_us == ms->0 * 1000
            &&& !us_ok && !ms_ok ==> set_wifi_spec(c, av).0.inject_period_us == c.inject_period_us
            &&& set_wifi_spec(c, av).1.contains(Opt::InjectPeriodUs) <==> (named_value(av, "inject-period-us"@) is Some
                && !us_ok)
            &&& set_wifi_spec(c, av).1.contains(Opt::InjectPeriodMs) <==> (named_value(av, "inject-period-ms"@) is Some
                && !ms_ok)
        }),
{
    lemma_wifi_refuses(c, av, Opt::InjectPeriodUs);
    lemma_wifi_refuses(c, av, Opt::InjectPeriodMs);
}

/// `set-wifi --ap-dhcp=<on|off>` and `--ap-burst=<on|off>` switch the softAP
/// DHCP server and burst flood; any other word keeps them and is refused.
pub proof fn lemma_wifi_ap_switches(c: ConfigModel, av: Seq<Seq<char>>)
    ensures
        switch_word(av, "ap-dhcp"@) is Some ==> set_wifi_spec(c, av).0.serve_dhcp == switch_word(av, "ap-dhcp"@)->0,
        switch_word(av, "ap-dhcp"@) is None ==> set_wifi_spec(c, av).0.serve_dhcp == c.serve_dhcp,
        set_wifi_spec(c, av).1.contains(Opt::ApDhcp) <==> (named_value(av, "ap-dhcp"@) is Some && switch_word(
            av,
            "ap-dhcp"@,
        ) is None),
        switch_word(av, "ap-burst"@) is Some ==> set_wifi_spec(c, av).0.ap_sync_burst == switch_word(av, "ap-burst"@)->0,
        switch_word(av, "ap-burst"@) is None ==> set_wifi_spec(c, av).0.ap_sync_burst == c.ap_sync_burst,
        set_wifi_spec(c, av).1.contains(Opt::ApBurst) <==> (named_value(av, "ap-burst"@) is Some && switch_word(
            av,
            "ap-burst"@,
        ) is None),
{
    lemma_wifi_refuses(c, av, Opt::ApDhcp);
    lemma_wifi_refuses(c, av, Opt::ApBurst);
}

/// `set-wifi --peer-mac=<mac>`: an empty value clears the peer, an address
/// sets it, and anything else keeps it and is refused.
pub proof fn lemma_wifi_peer(c: ConfigModel, av: Seq<Seq<char>>)
    ensures
        named_value(av, "peer-mac"@) is Some && named_value(av, "peer-mac"@)->0.len() == 0 ==> set_wifi_spec(
            c,
            av,
        ).0.peer_mac is None,
        named_value(av, "peer-mac"@) is Some && named_value(av, "peer-mac"@)->0.len() != 0 && crate::mac::mac_of(
            named_value(av, "peer-mac"@)->0,
        ) is Some ==> set_wifi_spec(c, av).0.peer_mac == crate::mac::mac_of(named_value(av, "peer-mac"@)->0),
        set_wifi_spec(c, av).1.contains(Opt::PeerMac) <==> (named_value(av, "peer-mac"@) is Some && named_value(
            av,
            "peer-mac"@,
        )->0.len() != 0 && crate::mac::mac_of(named_value(av, "peer-mac"@)->0) is None),
        named_value(av, "peer-mac"@) is None ==> set_wifi_spec(c, av).0.peer_mac == c.peer_mac,
        set_wifi_spec(c, av).1.contains(Opt::PeerMac) ==> set_wifi_spec(c, av).0.peer_mac == c.peer_mac,
{
    lemma_wifi_refuses(c, av, Opt::PeerMac);
}

/// `set-wifi` credentials: a given SSID or password is stored character by
/// character, each quoted-space separator (U+001F) turned into a space and
/// every other character kept.
pub proof fn lemma_wifi_text_chars(c: ConfigModel, av: Seq<Seq<char>>)
    ensures
        named_value(av, "sta-ssid"@) matches Some(s) ==> {
            let r = set_wifi_spec(c, av).0.sta_ssid;
            &&& r.len() == s.len()
            &&& forall|i: int| 0 <= i < s.len() ==> #[trigger] r[i] == (if s[i] == '\u{1F}' { ' ' } else { s[i] })
        },
        named_value(av, "sta-password"@) matches Some(s) ==> {
            let r = set_wifi_spec(c, av).0.sta_password;
            &&& r.len() == s.len()
            &&& forall|i: int| 0 <= i < s.len() ==> #[trigger] r[i] == (if s[i] == '\u{1F}' { ' ' } else { s[i] })
        },
        named_value(av, "ap-ssid"@) matches Some(s) ==> {
            let r = set_wifi_spec(c, av).0.ap_ssid;
            &&& r.len() == s.len()
            &&& forall|i: int| 0 <= i < s.len() ==> #[trigger] r[i] == (if s[i] == '\u{1F}' { ' ' } else { s[i] })
        },
        named_value(av, "ap-password"@) matches Some(s) ==> {
            let r = set_wifi_spec(c, av).0.ap_password;
            &&& r.len() == s.len()
            &&& forall|i: int| 0 <= i < s.len() ==> #[trigger] r[i] == (if s[i] == '\u{1F}' { ' ' } else { s[i] })
        },
{
}

/// `set-traffic`: `--frequency-hz=<n>` stores any 64-bit number, and
/// `--unsolicited=<on|off>` selects echo replies or requests; anything else
/// keeps the setting and is refused. Nothing else changes.
pub proof fn lemma_traffic(c: ConfigModel, av: Seq<Seq<char>>)
    ensures
        ({
            let r = crate::commands::set_traffic_spec(c, av);
            let f = decimal_arg(av, "frequency-hz"@);
            let f_ok = f is Some && f->0 <= u64::MAX;
            &&& f_ok ==> r.0.trigger_freq == f->0
            &&& !f_ok ==> r.0.trigger_freq == c.trigger_freq
            &&& switch_word(av, "unsolicited"@) is Some ==> r.0.flood_unsolicited == switch_word(av, "unsolicited"@)->0
            &&& switch_word(av, "unsolicited"@) is None ==> r.0.flood_unsolicited == c.flood_unsolicited
            &&& r.1.contains(Opt::FrequencyHz) <==> (named_value(av, "frequency-hz"@) is Some && !f_ok)
            &&& r.1.contains(Opt::Unsolicited) <==> (named_value(av, "unsolicited"@) is Some && switch_word(
                av,
                "unsolicited"@,
            ) is None)
            &&& r.0 == (ConfigModel { trigger_freq: r.0.trigger_freq, flood_unsolicited: r.0.flood_unsolicited, ..c })
        }),
{
    let f = crate::commands::unsigned_arg(av, "frequency-hz"@, u64::MAX as nat);
    let u = crate::commands::on_off_arg(av, "unsolicited"@);
    lemma_refusal_contains(f, Opt::FrequencyHz, Opt::FrequencyHz);
    lemma_refusal_contains(u, Opt::Unsolicited, Opt::FrequencyHz);
    lemma_refusal_contains(f, Opt::FrequencyHz, Opt::Unsolicited);
    lemma_refusal_contains(u, Opt::Unsolicited, Opt::Unsolicited);
}

/// `set-csi-output`: an on/off word given as `--enabled` switches CSI
/// delivery on or off; with no readable word delivery stays as it was, and
/// no other setting changes.
pub proof fn lemma_csi_output(c: ConfigModel, av: Seq<Seq<char>>)
    ensures
        ({
            let r = crate::commands::set_csi_output_spec(c, av);
            &&& switch_word(av, "enabled"@) is Some ==> r.0.csi_output_enabled == switch_word(av, "enabled"@)->0
            &&& switch_word(av, "enabled"@) is None ==> r.0.csi_output_enabled == c.csi_output_enabled
            &&& r.0 == (ConfigModel { csi_output_enabled: r.0.csi_output_enabled, ..c })
            &&& (r.1 is Refused <==> (named_value(av, "enabled"@) is Some && switch_word(av, "enabled"@) is None))
            &&& (r.1 is Absent <==> named_value(av, "enabled"@) is None)
        }),
{
}

/// `set-io-tasks`: `--tx` and `--rx` each switch their own direction task
/// with an on/off word; an omitted or unreadable one keeps its state.
/// Nothing else changes.
pub proof fn lemma_io_tasks(c: ConfigModel, av: Seq<Seq<char>>)
    ensures
        ({
            let r = crate::commands::set_io_tasks_spec(c, av);
            &&& switch_word(av, "tx"@) is Some ==> r.0.io_tasks.tx_enabled == switch_word(av, "tx"@)->0
            &&& switch_word(av, "tx"@) is None ==> r.0.io_tasks.tx_enabled == c.io_tasks.tx_enabled
            &&& switch_word(av, "rx"@) is Some ==> r.0.io_tasks.rx_enabled == switch_word(av, "rx"@)->0
            &&& switch_word(av, "rx"@) is None ==> r.0.io_tasks.rx_enabled == c.io_tasks.rx_enabled
            &&& r.0 == (ConfigModel { io_tasks: r.0.io_tasks, ..c })
            &&& r.1.contains(Opt::Tx) <==> (named_value(av, "tx"@) is Some && switch_word(av, "tx"@) is None)
            &&& r.1.contains(Opt::Rx) <==> (named_value(av, "rx"@) is Some && switch_word(av, "rx"@) is None)
        }),
{
    let t = crate::commands::on_off_arg(av, "tx"@);
    let x = crate::commands::on_off_arg(av, "rx"@);
    lemma_refusal_contains(t, Opt::Tx, Opt::Tx);
    lemma_refusal_contains(x, Opt::Rx, Opt::Tx);
    lemma_refusal_contains(t, Opt::Tx, Opt::Rx);
    lemma_refusal_contains(x, Opt::Rx, Opt::Rx);
}

/// `set-csi-filter`: `--peer-mac=any` or an empty value accepts every
/// source and an address accepts that source only; `--min-phy=any` delivers
/// every PHY (minimum 0) and `ht` HT and better (minimum 1). Other text keeps
/// the filter and is refused. Nothing else changes.
pub proof fn lemma_csi_filter(c: ConfigModel, av: Seq<Seq<char>>)
    ensures
        ({
            let r = crate::commands::set_csi_filter_spec(c, av);
            let p = named_value(av, "peer-mac"@);
            let m = named_value(av, "min-phy"@);
            let p_any = p is Some && (p->0 == "any"@ || p->0.len() == 0);
            let p_mac = p is Some && !p_any && crate::mac::mac_of(p->0) is Some;
            &&& p_any ==> r.0.csi_peer_filter is None
            &&& p_mac ==> r.0.csi_peer_filter == crate::mac::mac_of(p->0)
            &&& !p_any && !p_mac ==> r.0.csi_peer_filter == c.csi_peer_filter
            &&& r.1.contains(Opt::PeerMac) <==> (p is Some && !p_any && !p_mac)
            &&& m == Some("any"@) ==> r.0.csi_min_sig_mode == 0
            &&& m == Some("ht"@) ==> r.0.csi_min_sig_mode == 1
            &&& m != Some("any"@) && m != Some("ht"@) ==> r.0.csi_min_sig_mode == c.csi_min_sig_mode
            &&& r.1.contains(Opt::MinPhy) <==> (m is Some && m != Some("any"@) && m != Some("ht"@))
            &&& r.0 == (ConfigModel { csi_peer_filter: r.0.csi_peer_filter, csi_min_sig_mode: r.0.csi_min_sig_mode, ..c })
        }),
{
    lemma_min_phy_names_distinct();
    let pa = spec_arg(av, "peer-mac"@, |v: Seq<char>| crate::commands::source_filter_of(v));
    let ma = spec_arg(av, "min-phy"@, |v: Seq<char>| crate::commands::min_phy_of(v));
    lemma_refusal_contains(pa, Opt::PeerMac, Opt::PeerMac);
    lemma_refusal_contains(ma, Opt::MinPhy, Opt::PeerMac);
    lemma_refusal_contains(pa, Opt::PeerMac, Opt::MinPhy);
    lemma_refusal_contains(ma, Opt::MinPhy, Opt::MinPhy);
}

/// `set-csi-delivery`: `--mode=raw` asks for the raw fast path at the next
/// run and any other accepted mode turns it off; `--logging` only asks for
/// the inline log gate. Nothing else changes.
pub proof fn lemma_delivery(c: ConfigModel, av: Seq<Seq<char>>)
    ensures
        ({
            let r = crate::commands::set_csi_delivery_spec(c, av);
            &&& r.1.mode matches Arg::Given(m) ==> r.0.delivery_raw == (m == DeliveryMode::Raw)
            &&& !(r.1.mode is Given) ==> r.0.delivery_raw == c.delivery_raw
            &&& named_value(av, "mode"@) == Some("raw"@) ==> r.0.delivery_raw && r.1.mode == Arg::Given(DeliveryMode::Raw)
            &&& named_value(av, "mode"@) == Some("off"@) ==> !r.0.delivery_raw && r.1.mode == Arg::Given(DeliveryMode::Off)
            &&& r.1.logging is Given ==> r.1.logging == Arg::Given(switch_word(av, "logging"@)->0)
            &&& (r.1.logging is Given <==> switch_word(av, "logging"@) is Some)
            &&& (r.1.logging is Refused <==> (named_value(av, "logging"@) is Some && switch_word(av, "logging"@) is None))
            &&& r.0 == (ConfigModel { delivery_raw: r.0.delivery_raw, ..c })
        }),
{
    lemma_delivery_names_distinct();
}

/// The run plan's traffic, power saving, pinned rate and IO tasks: a
/// frequency of 0 sends no traffic and keeps the flooding modes (station
/// and softAP) from transmitting; any other frequency is sent as its value
/// modulo 2^16; power saving is off exactly for the station, the softAP and
/// the simplex ends; the configured rate is pinned exactly on the ESP-NOW
/// pair; the receive task follows its setting.
pub proof fn lemma_plan_traffic(p: RunPlan, c: ConfigModel)
    requires
        plan_ok(p, c),
    ensures
        c.trigger_freq == 0 ==> p.traffic_hz is None,
        c.trigger_freq != 0 ==> p.traffic_hz == Some((c.trigger_freq % 65536) as u16),
        c.trigger_freq == 0 && (c.node_mode == NodeMode::WifiStation || c.node_mode == NodeMode::WifiAccessPoint)
            ==> !p.io_tasks.tx_enabled,
        !(c.trigger_freq == 0 && (c.node_mode == NodeMode::WifiStation || c.node_mode == NodeMode::WifiAccessPoint))
            ==> p.io_tasks.tx_enabled == c.io_tasks.tx_enabled,
        p.io_tasks.rx_enabled == c.io_tasks.rx_enabled,
        p.power_save_off <==> (c.node_mode == NodeMode::WifiStation || c.node_mode == NodeMode::WifiAccessPoint
            || c.node_mode == NodeMode::EspNowFastSource || c.node_mode == NodeMode::EspNowFastCollector),
        (c.node_mode == NodeMode::EspNowCentral || c.node_mode == NodeMode::EspNowPeripheral) ==> p.rate == Some(
            c.phy_rate,
        ),
        !(c.node_mode == NodeMode::EspNowCentral || c.node_mode == NodeMode::EspNowPeripheral) ==> p.rate is None,
{
    if c.trigger_freq != 0 {
        let f: u64 = c.trigger_freq;
        assert((f as u16) == (f % 65536) as u16) by (bit_vector);
    }
}

/// The acquisition flags of the ESP32-C5 / ESP32-C6 settings after
/// `set-csi`: each of `--csi`, `--csi-legacy`, `--csi-ht20`, `--csi-ht40` and
/// `--dump-ack`, given a switch word, leaves its flag 1 when switched on and
/// 0 when switched off, whatever it was and whether or not a preset is given.
pub proof fn lemma_he_flags(c: ConfigModel, av: Seq<Seq<char>>)
    requires
        c.csi_config is He,
    ensures
        set_csi_spec(c, av).0.csi_config is He,
        named_value(av, "csi"@) matches Some(v) ==> (feature_switch(v) matches Some(b) ==> set_csi_spec(c, av).0.csi_config->He_0.enable
            == (if b { 1u32 } else { 0u32 })),
        named_value(av, "csi-legacy"@) matches Some(v) ==> (feature_switch(v) matches Some(b) ==> set_csi_spec(c, av).0.csi_config->He_0.acquire_csi_legacy
            == (if b { 1u32 } else { 0u32 })),
        named_value(av, "csi-ht20"@) matches Some(v) ==> (feature_switch(v) matches Some(b) ==> set_csi_spec(c, av).0.csi_config->He_0.acquire_csi_ht20
            == (if b { 1u32 } else { 0u32 })),
        named_value(av, "csi-ht40"@) matches Some(v) ==> (feature_switch(v) matches Some(b) ==> set_csi_spec(c, av).0.csi_config->He_0.acquire_csi_ht40
            == (if b { 1u32 } else { 0u32 })),
        named_value(av, "dump-ack"@) matches Some(v) ==> (feature_switch(v) matches Some(b) ==> set_csi_spec(c, av).0.csi_config->He_0.dump_ack_en
            == (if b { 1u32 } else { 0u32 })),
        named_value(av, "preset"@) is None ==> {
            let h = c.csi_config->He_0;
            let r = set_csi_spec(c, av).0.csi_config->He_0;
            &&& named_value(av, "csi"@) is None ==> r.enable == h.enable
            &&& named_value(av, "csi-legacy"@) is None ==> r.acquire_csi_legacy == h.acquire_csi_legacy
            &&& named_value(av, "csi-ht20"@) is None ==> r.acquire_csi_ht20 == h.acquire_csi_ht20
            &&& named_value(av, "csi-ht40"@) is None ==> r.acquire_csi_ht40 == h.acquire_csi_ht40
            &&& named_value(av, "dump-ack"@) is None ==> r.dump_ack_en == h.dump_ack_en
        },
{
}

/// The collection mode of a run: a station, a softAP and both ends of the
/// ESP-NOW pair use the configured collection mode, which the mode does not
/// fix; a sniffer and the simplex peer always collect, and the emitters and
/// the simplex source always listen, whatever is configured. Inline CSI
/// logging is open only for a collecting run without raw delivery.
pub proof fn lemma_collection_choice(mode: NodeMode, configured: CollectionMode, p: RunPlan, c: ConfigModel)
    requires
        plan_ok(p, c),
    ensures
        (mode == NodeMode::WifiStation || mode == NodeMode::WifiAccessPoint || mode == NodeMode::EspNowCentral
            || mode == NodeMode::EspNowPeripheral) ==> spec_effective_collection(mode, configured) == (
            configured,
            false,
        ),
        (mode == NodeMode::WifiSniffer || mode == NodeMode::EspNowFastCollector) ==> spec_effective_collection(
            mode,
            configured,
        ) == (CollectionMode::Collector, true),
        (mode == NodeMode::Ht20Emitter || mode == NodeMode::Ht40Emitter || mode == NodeMode::EspNowFastSource)
            ==> spec_effective_collection(mode, configured) == (CollectionMode::Listener, true),
        (c.node_mode == NodeMode::WifiStation || c.node_mode == NodeMode::WifiAccessPoint || c.node_mode
            == NodeMode::EspNowCentral || c.node_mode == NodeMode::EspNowPeripheral) ==> p.collection
            == c.collection_mode,
        p.inline_logging == (!c.delivery_raw && p.collection == CollectionMode::Collector),
{
}

/// `set-rate --rate=<name>`: every documented rate name selects the rate it names, the bare `1m`, `5m5` and `11m` naming the long-preamble rates like their `-l` spellings; and two names that select the same value are the same
/// name or spellings of one name.
pub proof fn lemma_rate_names(v1: Seq<char>, v2: Seq<char>)
    ensures
        crate::commands::phy_rate_of("1m"@) == Some(PhyRate::Rate1mL),
        crate::commands::phy_rate_of("1m-l"@) == Some(PhyRate::Rate1mL),
        crate::commands::phy_rate_of("2m"@) == Some(PhyRate::Rate2m),
        crate::commands::phy_rate_of("5m5"@) == Some(PhyRate::Rate5mL),
        crate::commands::phy_rate_of("5m5-l"@) == Some(PhyRate::Rate5mL),
        crate::commands::phy_rate_of("11m"@) == Some(PhyRate::Rate11mL),
        crate::commands::phy_rate_of("11m-l"@) == Some(PhyRate::Rate11mL),
        crate::commands::phy_rate_of("6m"@) == Some(PhyRate::Rate6m),
        crate::commands::phy_rate_of("9m"@) == Some(PhyRate::Rate9m),
        crate::commands::phy_rate_of("12m"@) == Some(PhyRate::Rate12m),
        crate::commands::phy_rate_of("18m"@) == Some(PhyRate::Rate18m),
        crate::commands::phy_rate_of("24m"@) == Some(PhyRate::Rate24m),
        crate::commands::phy_rate_of("36m"@) == Some(PhyRate::Rate36m),
        crate::commands::phy_rate_of("48m"@) == Some(PhyRate::Rate48m),
        crate::commands::phy_rate_of("54m"@) == Some(PhyRate::Rate54m),
        crate::commands::phy_rate_of("mcs0-lgi"@) == Some(PhyRate::RateMcs0Lgi),
        crate::commands::phy_rate_of("mcs1-lgi"@) == Some(PhyRate::RateMcs1Lgi),
        crate::commands::phy_rate_of("mcs2-lgi"@) == Some(PhyRate::RateMcs2Lgi),
        crate::commands::phy_rate_of("mcs3-lgi"@) == Some(PhyRate::RateMcs3Lgi),
        crate::commands::phy_rate_of("mcs4-lgi"@) == Some(PhyRate::RateMcs4Lgi),
        crate::commands::phy_rate_of("mcs5-lgi"@) == Some(PhyRate::RateMcs5Lgi),
        crate::commands::phy_rate_of("mcs6-lgi"@) == Some(PhyRate::RateMcs6Lgi),
        crate::commands::phy_rate_of("mcs7-lgi"@) == Some(PhyRate::RateMcs7Lgi),
        crate::commands::phy_rate_of("mcs0-sgi"@) == Some(PhyRate::RateMcs0Sgi),
        crate::commands::phy_rate_of(v1) is Some && crate::commands::phy_rate_of(v1) == crate::commands::phy_rate_of(v2) ==> v1 == v2 || ((v1 == "1m"@ || v1 == "1m-l"@) && (v2 == "1m"@ || v2 == "1m-l"@)) || ((v1 == "5m5"@ || v1 == "5m5-l"@) && (v2 == "5m5"@ || v2 == "5m5-l"@)) || ((v1 == "11m"@ || v1 == "11m-l"@) && (v2 == "11m"@ || v2 == "11m-l"@)),
{
    lemma_rate_names_distinct();
}

proof fn lemma_rate_names_distinct()
    ensures
        crate::commands::phy_rate_of("1m"@) == Some(PhyRate::Rate1mL),
        crate::commands::phy_rate_of("1m-l"@) == Some(PhyRate::Rate1mL),
        crate::commands::phy_rate_of("2m"@) == Some(PhyRate::Rate2m),
        crate::commands::phy_rate_of("5m5"@) == Some(PhyRate::Rate5mL),
        crate::commands::phy_rate_of("5m5-l"@) == Some(PhyRate::Rate5mL),
        crate::commands::phy_rate_of("11m"@) == Some(PhyRate::Rate11mL),
        crate::commands::phy_rate_of("11m-l"@) == Some(PhyRate::Rate11mL),
        crate::commands::phy_rate_of("6m"@) == Some(PhyRate::Rate6m),
        crate::commands::phy_rate_of("9m"@) == Some(PhyRate::Rate9m),
        crate::commands::phy_rate_of("12m"@) == Some(PhyRate::Rate12m),
        crate::commands::phy_rate_of("18m"@) == Some(PhyRate::Rate18m),
        crate::commands::phy_rate_of("24m"@) == Some(PhyRate::Rate24m),
        crate::commands::phy_rate_of("36m"@) == Some(PhyRate::Rate36m),
        crate::commands::phy_rate_of("48m"@) == Some(PhyRate::Rate48m),
        crate::commands::phy_rate_of("54m"@) == Some(PhyRate::Rate54m),
        crate::commands::phy_rate_of("mcs0-lgi"@) == Some(PhyRate::RateMcs0Lgi),
        crate::commands::phy_rate_of("mcs1-lgi"@) == Some(PhyRate::RateMcs1Lgi),
        crate::commands::phy_rate_of("mcs2-lgi"@) == Some(PhyRate::RateMcs2Lgi),
        crate::commands::phy_rate_of("mcs3-lgi"@) == Some(PhyRate::RateMcs3Lgi),
        crate::commands::phy_rate_of("mcs4-lgi"@) == Some(PhyRate::RateMcs4Lgi),
        crate::commands::phy_rate_of("mcs5-lgi"@) == Some(PhyRate::RateMcs5Lgi),
        crate::commands::phy_rate_of("mcs6-lgi"@) == Some(PhyRate::RateMcs6Lgi),
        crate::commands::phy_rate_of("mcs7-lgi"@) == Some(PhyRate::RateMcs7Lgi),
        crate::commands::phy_rate_of("mcs0-sgi"@) == Some(PhyRate::RateMcs0Sgi),
{
    reveal_strlit("1m");
    reveal_strlit("1m-l");
    reveal_strlit("2m");
    reveal_strlit("5m5");
    reveal_strlit("5m5-l");
    reveal_strlit("11m");
    reveal_strlit("11m-l");
    reveal_strlit("6m");
    reveal_strlit("9m");
    reveal_strlit("12m");
    reveal_strlit("18m");
    reveal_strlit("24m");
    reveal_strlit("36m");
    reveal_strlit("48m");
    reveal_strlit("54m");
    reveal_strlit("mcs0-lgi");
    reveal_strlit("mcs1-lgi");
    reveal_strlit("mcs2-lgi");
    reveal_strlit("mcs3-lgi");
    reveal_strlit("mcs4-lgi");
    reveal_strlit("mcs5-lgi");
    reveal_strlit("mcs6-lgi");
    reveal_strlit("mcs7-lgi");
    reveal_strlit("mcs0-sgi");
    assert("1m"@.len() != "1m-l"@.len());
    assert("1m"@[0] != "2m"@[0]);
    assert("1m"@[0] != "5m5"@[0]);
    assert("1m"@[0] != "5m5-l"@[0]);
    assert("1m"@[1] != "11m"@[1]);
    assert("1m"@[1] != "11m-l"@[1]);
    assert("1m"@[0] != "6m"@[0]);
    assert("1m"@[0] != "9m"@[0]);
    assert("1m"@[1] != "12m"@[1]);
    assert("1m"@[1] != "18m"@[1]);
    assert("1m"@[0] != "24m"@[0]);
    assert("1m"@[0] != "36m"@[0]);
    assert("1m"@[0] != "48m"@[0]);
    assert("1m"@[0] != "54m"@[0]);
    assert("1m"@[0] != "mcs0-lgi"@[0]);
    assert("1m"@[0] != "mcs1-lgi"@[0]);
    assert("1m"@[0] != "mcs2-lgi"@[0]);
    assert("1m"@[0] != "mcs3-lgi"@[0]);
    assert("1m"@[0] != "mcs4-lgi"@[0]);
    assert("1m"@[0] != "mcs5-lgi"@[0]);
    assert("1m"@[0] != "mcs6-lgi"@[0]);
    assert("1m"@[0] != "mcs7-lgi"@[0]);
    assert("1m"@[0] != "mcs0-sgi"@[0]);
    assert("1m-l"@[0] != "2m"@[0]);
    assert("1m-l"@[0] != "5m5"@[0]);
    assert("1m-l"@[0] != "5m5-l"@[0]);
    assert("1m-l"@[1] != "11m"@[1]);
    assert("1m-l"@[1] != "11m-l"@[1]);
    assert("1m-l"@[0] != "6m"@[0]);
    assert("1m-l"@[0] != "9m"@[0]);
    assert("1m-l"@[1] != "12m"@[1]);
    assert("1m-l"@[1] != "18m"@[1]);
    assert("1m-l"@[0] != "24m"@[0]);
    assert("1m-l"@[0] != "36m"@[0]);
    assert("1m-l"@[0] != "48m"@[0]);
    assert("1m-l"@[0] != "54m"@[0]);
    assert("1m-l"@[0] != "mcs0-lgi"@[0]);
    assert("1m-l"@[0] != "mcs1-lgi"@[0]);
    assert("1m-l"@[0] != "mcs2-lgi"@[0]);
    assert("1m-l"@[0] != "mcs3-lgi"@[0]);
    assert("1m-l"@[0] != "mcs4-lgi"@[0]);
    assert("1m-l"@[0] != "mcs5-lgi"@[0]);
    assert("1m-l"@[0] != "mcs6-lgi"@[0]);
    assert("1m-l"@[0] != "mcs7-lgi"@[0]);
    assert("1m-l"@[0] != "mcs0-sgi"@[0]);
    assert("2m"@[0] != "5m5"@[0]);
    assert("2m"@[0] != "5m5-l"@[0]);
    assert("2m"@[0] != "11m"@[0]);
    assert("2m"@[0] != "11m-l"@[0]);
    assert("2m"@[0] != "6m"@[0]);
    assert("2m"@[0] != "9m"@[0]);
    assert("2m"@[0] != "12m"@[0]);
    assert("2m"@[0] != "18m"@[0]);
    assert("2m"@[1] != "24m"@[1]);
    assert("2m"@[0] != "36m"@[0]);
    assert("2m"@[0] != "48m"@[0]);
    assert("2m"@[0] != "54m"@[0]);
    assert("2m"@[0] != "mcs0-lgi"@[0]);
    assert("2m"@[0] != "mcs1-lgi"@[0]);
    assert("2m"@[0] != "mcs2-lgi"@[0]);
    assert("2m"@[0] != "mcs3-lgi"@[0]);
    assert("2m"@[0] != "mcs4-lgi"@[0]);
    assert("2m"@[0] != "mcs5-lgi"@[0]);
    assert("2m"@[0] != "mcs6-lgi"@[0]);
    assert("2m"@[0] != "mcs7-lgi"@[0]);
    assert("2m"@[0] != "mcs0-sgi"@[0]);
    assert("5m5"@.len() != "5m5-l"@.len());
    assert("5m5"@[0] != "11m"@[0]);
    assert("5m5"@[0] != "11m-l"@[0]);
    assert("5m5"@[0] != "6m"@[0]);
    assert("5m5"@[0] != "9m"@[0]);
    assert("5m5"@[0] != "12m"@[0]);
    assert("5m5"@[0] != "18m"@[0]);
    assert("5m5"@[0] != "24m"@[0]);
    assert("5m5"@[0] != "36m"@[0]);
    assert("5m5"@[0] != "48m"@[0]);
    assert("5m5"@[1] != "54m"@[1]);
    assert("5m5"@[0] != "mcs0-lgi"@[0]);
    assert("5m5"@[0] != "mcs1-lgi"@[0]);
    assert("5m5"@[0] != "mcs2-lgi"@[0]);
    assert("5m5"@[0] != "mcs3-lgi"@[0]);
    assert("5m5"@[0] != "mcs4-lgi"@[0]);
    assert("5m5"@[0] != "mcs5-lgi"@[0]);
    assert("5m5"@[0] != "mcs6-lgi"@[0]);
    assert("5m5"@[0] != "mcs7-lgi"@[0]);
    assert("5m5"@[0] != "mcs0-sgi"@[0]);
    assert("5m5-l"@[0] != "11m"@[0]);
    assert("5m5-l"@[0] != "11m-l"@[0]);
    assert("5m5-l"@[0] != "6m"@[0]);
    assert("5m5-l"@[0] != "9m"@[0]);
    assert("5m5-l"@[0] != "12m"@[0]);
    assert("5m5-l"@[0] != "18m"@[0]);
    assert("5m5-l"@[0] != "24m"@[0]);
    assert("5m5-l"@[0] != "36m"@[0]);
    assert("5m5-l"@[0] != "48m"@[0]);
    assert("5m5-l"@[1] != "54m"@[1]);
    assert("5m5-l"@[0] != "mcs0-lgi"@[0]);
    assert("5m5-l"@[0] != "mcs1-lgi"@[0]);
    assert("5m5-l"@[0] != "mcs2-lgi"@[0]);
    assert("5m5-l"@[0] != "mcs3-lgi"@[0]);
    assert("5m5-l"@[0] != "mcs4-lgi"@[0]);
    assert("5m5-l"@[0] != "mcs5-lgi"@[0]);
    assert("5m5-l"@[0] != "mcs6-lgi"@[0]);
    assert("5m5-l"@[0] != "mcs7-lgi"@[0]);
    assert("5m5-l"@[0] != "mcs0-sgi"@[0]);
    assert("11m"@.len() != "11m-l"@.len());
    assert("11m"@[0] != "6m"@[0]);
    assert("11m"@[0] != "9m"@[0]);
    assert("11m"@[1] != "12m"@[1]);
    assert("11m"@[1] != "18m"@[1]);
    assert("11m"@[0] != "24m"@[0]);
    assert("11m"@[0] != "36m"@[0]);
    assert("11m"@[0] != "48m"@[0]);
    assert("11m"@[0] != "54m"@[0]);
    assert("11m"@[0] != "mcs0-lgi"@[0]);
    assert("11m"@[0] != "mcs1-lgi"@[0]);
    assert("11m"@[0] != "mcs2-lgi"@[0]);
    assert("11m"@[0] != "mcs3-lgi"@[0]);
    assert("11m"@[0] != "mcs4-lgi"@[0]);
    assert("11m"@[0] != "mcs5-lgi"@[0]);
    assert("11m"@[0] != "mcs6-lgi"@[0]);
    assert("11m"@[0] != "mcs7-lgi"@[0]);
    assert("11m"@[0] != "mcs0-sgi"@[0]);
    assert("11m-l"@[0] != "6m"@[0]);
    assert("11m-l"@[0] != "9m"@[0]);
    assert("11m-l"@[1] != "12m"@[1]);
    assert("11m-l"@[1] != "18m"@[1]);
    assert("11m-l"@[0] != "24m"@[0]);
    assert("11m-l"@[0] != "36m"@[0]);
    assert("11m-l"@[0] != "48m"@[0]);
    assert("11m-l"@[0] != "54m"@[0]);
    assert("11m-l"@[0] != "mcs0-lgi"@[0]);
    assert("11m-l"@[0] != "mcs1-lgi"@[0]);
    assert("11m-l"@[0] != "mcs2-lgi"@[0]);
    assert("11m-l"@[0] != "mcs3-lgi"@[0]);
    assert("11m-l"@[0] != "mcs4-lgi"@[0]);
    assert("11m-l"@[0] != "mcs5-lgi"@[0]);
    assert("11m-l"@[0] != "mcs6-lgi"@[0]);
    assert("11m-l"@[0] != "mcs7-lgi"@[0]);
    assert("11m-l"@[0] != "mcs0-sgi"@[0]);
    assert("6m"@[0] != "9m"@[0]);
    assert("6m"@[0] != "12m"@[0]);
    assert("6m"@[0] != "18m"@[0]);
    assert("6m"@[0] != "24m"@[0]);
    assert("6m"@[0] != "36m"@[0]);
    assert("6m"@[0] != "48m"@[0]);
    assert("6m"@[0] != "54m"@[0]);
    assert("6m"@[0] != "mcs0-lgi"@[0]);
    assert("6m"@[0] != "mcs1-lgi"@[0]);
    assert("6m"@[0] != "mcs2-lgi"@[0]);
    assert("6m"@[0] != "mcs3-lgi"@[0]);
    assert("6m"@[0] != "mcs4-lgi"@[0]);
    assert("6m"@[0] != "mcs5-lgi"@[0]);
    assert("6m"@[0] != "mcs6-lgi"@[0]);
    assert("6m"@[0] != "mcs7-lgi"@[0]);
    assert("6m"@[0] != "mcs0-sgi"@[0]);
    assert("9m"@[0] != "12m"@[0]);
    assert("9m"@[0] != "18m"@[0]);
    assert("9m"@[0] != "24m"@[0]);
    assert("9m"@[0] != "36m"@[0]);
    assert("9m"@[0] != "48m"@[0]);
    assert("9m"@[0] != "54m"@[0]);
    assert("9m"@[0] != "mcs0-lgi"@[0]);
    assert("9m"@[0] != "mcs1-lgi"@[0]);
    assert("9m"@[0] != "mcs2-lgi"@[0]);
    assert("9m"@[0] != "mcs3-lgi"@[0]);
    assert("9m"@[0] != "mcs4-lgi"@[0]);
    assert("9m"@[0] != "mcs5-lgi"@[0]);
    assert("9m"@[0] != "mcs6-lgi"@[0]);
    assert("9m"@[0] != "mcs7-lgi"@[0]);
    assert("9m"@[0] != "mcs0-sgi"@[0]);
    assert("12m"@[1] != "18m"@[1]);
    assert("12m"@[0] != "24m"@[0]);
    assert("12m"@[0] != "36m"@[0]);
    assert("12m"@[0] != "48m"@[0]);
    assert("12m"@[0] != "54m"@[0]);
    assert("12m"@[0] != "mcs0-lgi"@[0]);
    assert("12m"@[0] != "mcs1-lgi"@[0]);
    assert("12m"@[0] != "mcs2-lgi"@[0]);
    assert("12m"@[0] != "mcs3-lgi"@[0]);
    assert("12m"@[0] != "mcs4-lgi"@[0]);
    assert("12m"@[0] != "mcs5-lgi"@[0]);
    assert("12m"@[0] != "mcs6-lgi"@[0]);
    assert("12m"@[0] != "mcs7-lgi"@[0]);
    assert("12m"@[0] != "mcs0-sgi"@[0]);
    assert("18m"@[0] != "24m"@[0]);
    assert("18m"@[0] != "36m"@[0]);
    assert("18m"@[0] != "48m"@[0]);
    assert("18m"@[0] != "54m"@[0]);
    assert("18m"@[0] != "mcs0-lgi"@[0]);
    assert("18m"@[0] != "mcs1-lgi"@[0]);
    assert("18m"@[0] != "mcs2-lgi"@[0]);
    assert("18m"@[0] != "mcs3-lgi"@[0]);
    assert("18m"@[0] != "mcs4-lgi"@[0]);
    assert("18m"@[0] != "mcs5-lgi"@[0]);
    assert("18m"@[0] != "mcs6-lgi"@[0]);
    assert("18m"@[0] != "mcs7-lgi"@[0]);
    assert("18m"@[0] != "mcs0-sgi"@[0]);
    assert("24m"@[0] != "36m"@[0]);
    assert("24m"@[0] != "48m"@[0]);
    assert("24m"@[0] != "54m"@[0]);
    assert("24m"@[0] != "mcs0-lgi"@[0]);
    assert("24m"@[0] != "mcs1-lgi"@[0]);
    assert("24m"@[0] != "mcs2-lgi"@[0]);
    assert("24m"@[0] != "mcs3-lgi"@[0]);
    assert("24m"@[0] != "mcs4-lgi"@[0]);
    assert("24m"@[0] != "mcs5-lgi"@[0]);
    assert("24m"@[0] != "mcs6-lgi"@[0]);
    assert("24m"@[0] != "mcs7-lgi"@[0]);
    assert("24m"@[0] != "mcs0-sgi"@[0]);
    assert("36m"@[0] != "48m"@[0]);
    assert("36m"@[0] != "54m"@[0]);
    assert("36m"@[0] != "mcs0-lgi"@[0]);
    assert("36m"@[0] != "mcs1-lgi"@[0]);
    assert("36m"@[0] != "mcs2-lgi"@[0]);
    assert("36m"@[0] != "mcs3-lgi"@[0]);
    assert("36m"@[0] != "mcs4-lgi"@[0]);
    assert("36m"@[0] != "mcs5-lgi"@[0]);
    assert("36m"@[0] != "mcs6-lgi"@[0]);
    assert("36m"@[0] != "mcs7-lgi"@[0]);
    assert("36m"@[0] != "mcs0-sgi"@[0]);
    assert("48m"@[0] != "54m"@[0]);
    assert("48m"@[0] != "mcs0-lgi"@[0]);
    assert("48m"@[0] != "mcs1-lgi"@[0]);
    assert("48m"@[0] != "mcs2-lgi"@[0]);
    assert("48m"@[0] != "mcs3-lgi"@[0]);
    assert("48m"@[0] != "mcs4-lgi"@[0]);
    assert("48m"@[0] != "mcs5-lgi"@[0]);
    assert("48m"@[0] != "mcs6-lgi"@[0]);
    assert("48m"@[0] != "mcs7-lgi"@[0]);
    assert("48m"@[0] != "mcs0-sgi"@[0]);
    assert("54m"@[0] != "mcs0-lgi"@[0]);
    assert("54m"@[0] != "mcs1-lgi"@[0]);
    assert("54m"@[0] != "mcs2-lgi"@[0]);
    assert("54m"@[0] != "mcs3-lgi"@[0]);
    assert("54m"@[0] != "mcs4-lgi"@[0]);
    assert("54m"@[0] != "mcs5-lgi"@[0]);
    assert("54m"@[0] != "mcs6-lgi"@[0]);
    assert("54m"@[0] != "mcs7-lgi"@[0]);
    assert("54m"@[0] != "mcs0-sgi"@[0]);
    assert("mcs0-lgi"@[3] != "mcs1-lgi"@[3]);
    assert("mcs0-lgi"@[3] != "mcs2-lgi"@[3]);
    assert("mcs0-lgi"@[3] != "mcs3-lgi"@[3]);
    assert("mcs0-lgi"@[3] != "mcs4-lgi"@[3]);
    assert("mcs0-lgi"@[3] != "mcs5-lgi"@[3]);
    assert("mcs0-lgi"@[3] != "mcs6-lgi"@[3]);
    assert("mcs0-lgi"@[3] != "mcs7-lgi"@[3]);
    assert("mcs0-lgi"@[5] != "mcs0-sgi"@[5]);
    assert("mcs1-lgi"@[3] != "mcs2-lgi"@[3]);
    assert("mcs1-lgi"@[3] != "mcs3-lgi"@[3]);
    assert("mcs1-lgi"@[3] != "mcs4-lgi"@[3]);
    assert("mcs1-lgi"@[3] != "mcs5-lgi"@[3]);
    assert("mcs1-lgi"@[3] != "mcs6-lgi"@[3]);
    assert("mcs1-lgi"@[3] != "mcs7-lgi"@[3]);
    assert("mcs1-lgi"@[3] != "mcs0-sgi"@[3]);
    assert("mcs2-lgi"@[3] != "mcs3-lgi"@[3]);
    assert("mcs2-lgi"@[3] != "mcs4-lgi"@[3]);
    assert("mcs2-lgi"@[3] != "mcs5-lgi"@[3]);
    assert("mcs2-lgi"@[3] != "mcs6-lgi"@[3]);
    assert("mcs2-lgi"@[3] != "mcs7-lgi"@[3]);
    assert("mcs2-lgi"@[3] != "mcs0-sgi"@[3]);
    assert("mcs3-lgi"@[3] != "mcs4-lgi"@[3]);
    assert("mcs3-lgi"@[3] != "mcs5-lgi"@[3]);
    assert("mcs3-lgi"@[3] != "mcs6-lgi"@[3]);
    assert("mcs3-lgi"@[3] != "mcs7-lgi"@[3]);
    assert("mcs3-lgi"@[3] != "mcs0-sgi"@[3]);
    assert("mcs4-lgi"@[3] != "mcs5-lgi"@[3]);
    assert("mcs4-lgi"@[3] != "mcs6-lgi"@[3]);
    assert("mcs4-lgi"@[3] != "mcs7-lgi"@[3]);
    assert("mcs4-lgi"@[3] != "mcs0-sgi"@[3]);
    assert("mcs5-lgi"@[3] != "mcs6-lgi"@[3]);
    assert("mcs5-lgi"@[3] != "mcs7-lgi"@[3]);
    assert("mcs5-lgi"@[3] != "mcs0-sgi"@[3]);
    assert("mcs6-lgi"@[3] != "mcs7-lgi"@[3]);
    assert("mcs6-lgi"@[3] != "mcs0-sgi"@[3]);
    assert("mcs7-lgi"@[3] != "mcs0-sgi"@[3]);
}

/// `set-csi-delivery --mode=<name>`: each delivery mode name selects its own mode; and two names that select the same value are the same
/// name.
pub proof fn lemma_delivery_names(v1: Seq<char>, v2: Seq<char>)
    ensures
        crate::commands::delivery_mode_of("off"@) == Some(DeliveryMode::Off),
        crate::commands::delivery_mode_of("callback"@) == Some(DeliveryMode::Callback),
        crate::commands::delivery_mode_of("async"@) == Some(DeliveryMode::Async),
        crate::commands::delivery_mode_of("raw"@) == Some(DeliveryMode::Raw),
        crate::commands::delivery_mode_of(v1) is Some && crate::commands::delivery_mode_of(v1) == crate::commands::delivery_mode_of(v2) ==> v1 == v2,
{
    lemma_delivery_names_distinct();
}

proof fn lemma_delivery_names_distinct()
    ensures
        crate::commands::delivery_mode_of("off"@) == Some(DeliveryMode::Off),
        crate::commands::delivery_mode_of("callback"@) == Some(DeliveryMode::Callback),
        crate::commands::delivery_mode_of("async"@) == Some(DeliveryMode::Async),
        crate::commands::delivery_mode_of("raw"@) == Some(DeliveryMode::Raw),
{
    reveal_strlit("off");
    reveal_strlit("callback");
    reveal_strlit("async");
    reveal_strlit("raw");
    assert("off"@[0] != "callback"@[0]);
    assert("off"@[0] != "async"@[0]);
    assert("off"@[0] != "raw"@[0]);
    assert("callback"@[0] != "async"@[0]);
    assert("callback"@[0] != "raw"@[0]);
    assert("async"@[0] != "raw"@[0]);
}

/// `set-protocol --protocol=<name>`: each protocol name selects its own protocol; and two names that select the same value are the same
/// name.
pub proof fn lemma_protocol_names(v1: Seq<char>, v2: Seq<char>)
    ensures
        crate::commands::protocol_of("b"@) == Some(Protocol::B),
        crate::commands::protocol_of("g"@) == Some(Protocol::G),
        crate::commands::protocol_of("n"@) == Some(Protocol::N),
        crate::commands::protocol_of("lr"@) == Some(Protocol::LR),
        crate::commands::protocol_of("a"@) == Some(Protocol::A),
        crate::commands::protocol_of("ac"@) == Some(Protocol::AC),
        crate::commands::protocol_of(v1) is Some && crate::commands::protocol_of(v1) == crate::commands::protocol_of(v2) ==> v1 == v2,
{
    lemma_protocol_names_distinct();
}

proof fn lemma_protocol_names_distinct()
    ensures
        crate::commands::protocol_of("b"@) == Some(Protocol::B),
        crate::commands::protocol_of("g"@) == Some(Protocol::G),
        crate::commands::protocol_of("n"@) == Some(Protocol::N),
        crate::commands::protocol_of("lr"@) == Some(Protocol::LR),
        crate::commands::protocol_of("a"@) == Some(Protocol::A),
        crate::commands::protocol_of("ac"@) == Some(Protocol::AC),
{
    reveal_strlit("b");
    reveal_strlit("g");
    reveal_strlit("n");
    reveal_strlit("lr");
    reveal_strlit("a");
    reveal_strlit("ac");
    assert("b"@[0] != "g"@[0]);
    assert("b"@[0] != "n"@[0]);
    assert("b"@[0] != "lr"@[0]);
    assert("b"@[0] != "a"@[0]);
    assert("b"@[0] != "ac"@[0]);
    assert("g"@[0] != "n"@[0]);
    assert("g"@[0] != "lr"@[0]);
    assert("g"@[0] != "a"@[0]);
    assert("g"@[0] != "ac"@[0]);
    assert("n"@[0] != "lr"@[0]);
    assert("n"@[0] != "a"@[0]);
    assert("n"@[0] != "ac"@[0]);
    assert("lr"@[0] != "a"@[0]);
    assert("lr"@[0] != "ac"@[0]);
    assert("a"@.len() != "ac"@.len());
}

/// `set-log-mode --mode=<name>`: each format name selects its own format; and two names that select the same value are the same
/// name.
pub proof fn lemma_log_mode_names(v1: Seq<char>, v2: Seq<char>)
    ensures
        crate::commands::log_mode_of("text"@) == Some(LogMode::Text),
        crate::commands::log_mode_of("array-list"@) == Some(LogMode::ArrayList),
        crate::commands::log_mode_of("serialized"@) == Some(LogMode::Serialized),
        crate::commands::log_mode_of("esp-csi-tool"@) == Some(LogMode::EspCsiTool),
        crate::commands::log_mode_of(v1) is Some && crate::commands::log_mode_of(v1) == crate::commands::log_mode_of(v2) ==> v1 == v2,
{
    lemma_log_mode_names_distinct();
}

proof fn lemma_log_mode_names_distinct()
    ensures
        crate::commands::log_mode_of("text"@) == Some(LogMode::Text),
        crate::commands::log_mode_of("array-list"@) == Some(LogMode::ArrayList),
        crate::commands::log_mode_of("serialized"@) == Some(LogMode::Serialized),
        crate::commands::log_mode_of("esp-csi-tool"@) == Some(LogMode::EspCsiTool),
{
    reveal_strlit("text");
    reveal_strlit("array-list");
    reveal_strlit("serialized");
    reveal_strlit("esp-csi-tool");
    assert("text"@[0] != "array-list"@[0]);
    assert("text"@[0] != "serialized"@[0]);
    assert("text"@[0] != "esp-csi-tool"@[0]);
    assert("array-list"@[0] != "serialized"@[0]);
    assert("array-list"@[0] != "esp-csi-tool"@[0]);
    assert("serialized"@[0] != "esp-csi-tool"@[0]);
}

/// `set-wifi --collection=<name>`: `collector` and `listener` select their own collection mode; and two names that select the same value are the same
/// name.
pub proof fn lemma_collection_names(v1: Seq<char>, v2: Seq<char>)
    ensures
        crate::commands::collection_of("collector"@) == Some(CollectionMode::Collector),
        crate::commands::collection_of("listener"@) == Some(CollectionMode::Listener),
        crate::commands::collection_of(v1) is Some && crate::commands::collection_of(v1) == crate::commands::collection_of(v2) ==> v1 == v2,
{
    lemma_collection_names_distinct();
}

proof fn lemma_collection_names_distinct()
    ensures
        crate::commands::collection_of("collector"@) == Some(CollectionMode::Collector),
        crate::commands::collection_of("listener"@) == Some(CollectionMode::Listener),
{
    reveal_strlit("collector");
    reveal_strlit("listener");
    assert("collector"@[0] != "listener"@[0]);
}

/// `set-wifi --ht40=<name>`: `above` and `below` select that secondary channel, and `none` and `off` clear it; and two names that select the same value are the same
/// name or spellings of one name.
pub proof fn lemma_ht40_names(v1: Seq<char>, v2: Seq<char>)
    ensures
        crate::commands::ht40_of("above"@) == Some(Some(SecondaryChannel::Above)),
        crate::commands::ht40_of("below"@) == Some(Some(SecondaryChannel::Below)),
        crate::commands::ht40_of("none"@) == Some(None::<SecondaryChannel>),
        crate::commands::ht40_of("off"@) == Some(None::<SecondaryChannel>),
        crate::commands::ht40_of(v1) is Some && crate::commands::ht40_of(v1) == crate::commands::ht40_of(v2) ==> v1 == v2 || ((v1 == "none"@ || v1 == "off"@) && (v2 == "none"@ || v2 == "off"@)),
{
    lemma_ht40_names_distinct();
}

proof fn lemma_ht40_names_distinct()
    ensures
        crate::commands::ht40_of("above"@) == Some(Some(SecondaryChannel::Above)),
        crate::commands::ht40_of("below"@) == Some(Some(SecondaryChannel::Below)),
        crate::commands::ht40_of("none"@) == Some(None::<SecondaryChannel>),
        crate::commands::ht40_of("off"@) == Some(None::<SecondaryChannel>),
{
    reveal_strlit("above");
    reveal_strlit("below");
    reveal_strlit("none");
    reveal_strlit("off");
    assert("above"@[0] != "below"@[0]);
    assert("above"@[0] != "none"@[0]);
    assert("above"@[0] != "off"@[0]);
    assert("below"@[0] != "none"@[0]);
    assert("below"@[0] != "off"@[0]);
    assert("none"@[0] != "off"@[0]);
}

/// `set-csi-filter --min-phy=<name>`: `any` delivers every PHY (`sig_mode` 0 and up) and `ht` only HT and better (1 and up); and two names that select the same value are the same
/// name.
pub proof fn lemma_min_phy_names(v1: Seq<char>, v2: Seq<char>)
    ensures
        crate::commands::min_phy_of("any"@) == Some(0u8),
        crate::commands::min_phy_of("ht"@) == Some(1u8),
        crate::commands::min_phy_of(v1) is Some && crate::commands::min_phy_of(v1) == crate::commands::min_phy_of(v2) ==> v1 == v2,
{
    lemma_min_phy_names_distinct();
}

proof fn lemma_min_phy_names_distinct()
    ensures
        crate::commands::min_phy_of("any"@) == Some(0u8),
        crate::commands::min_phy_of("ht"@) == Some(1u8),
{
    reveal_strlit("any");
    reveal_strlit("ht");
    assert("any"@[0] != "ht"@[0]);
}

/// `set-wifi --emitter-iface=<name>`: `sta` injects on the station interface and `ap` on the softAP interface; and two names that select the same value are the same
/// name.
pub proof fn lemma_iface_names(v1: Seq<char>, v2: Seq<char>)
    ensures
        crate::commands::iface_of("sta"@) == Some(true),
        crate::commands::iface_of("ap"@) == Some(false),
        crate::commands::iface_of(v1) is Some && crate::commands::iface_of(v1) == crate::commands::iface_of(v2) ==> v1 == v2,
{
    lemma_iface_names_distinct();
}

proof fn lemma_iface_names_distinct()
    ensures
        crate::commands::iface_of("sta"@) == Some(true),
        crate::commands::iface_of("ap"@) == Some(false),
{
    reveal_strlit("sta");
    reveal_strlit("ap");
    assert("sta"@[0] != "ap"@[0]);
}

/// `set-wifi --mode=<name>`: no two mode names select the same mode unless one is the simplex alias of the other; and two names that select the same value are the same
/// name or spellings of one name.
pub proof fn lemma_mode_names_exact(v1: Seq<char>, v2: Seq<char>)
    ensures
        crate::commands::node_mode_of("station"@) == Some(NodeMode::WifiStation),
        crate::commands::node_mode_of("sniffer"@) == Some(NodeMode::WifiSniffer),
        crate::commands::node_mode_of("wifi-ap"@) == Some(NodeMode::WifiAccessPoint),
        crate::commands::node_mode_of("ht20-emitter"@) == Some(NodeMode::Ht20Emitter),
        crate::commands::node_mode_of("ht40-emitter"@) == Some(NodeMode::Ht40Emitter),
        crate::commands::node_mode_of("esp-now-central"@) == Some(NodeMode::EspNowCentral),
        crate::commands::node_mode_of("esp-now-peripheral"@) == Some(NodeMode::EspNowPeripheral),
        crate::commands::node_mode_of("esp-now-fast-source"@) == Some(NodeMode::EspNowFastSource),
        crate::commands::node_mode_of("esp-now-simplex-source"@) == Some(NodeMode::EspNowFastSource),
        crate::commands::node_mode_of("esp-now-fast-collector"@) == Some(NodeMode::EspNowFastCollector),
        crate::commands::node_mode_of("esp-now-simplex-peer"@) == Some(NodeMode::EspNowFastCollector),
        crate::commands::node_mode_of(v1) is Some && crate::commands::node_mode_of(v1) == crate::commands::node_mode_of(v2) ==> v1 == v2 || ((v1 == "esp-now-fast-source"@ || v1 == "esp-now-simplex-source"@) && (v2 == "esp-now-fast-source"@ || v2 == "esp-now-simplex-source"@)) || ((v1 == "esp-now-fast-collector"@ || v1 == "esp-now-simplex-peer"@) && (v2 == "esp-now-fast-collector"@ || v2 == "esp-now-simplex-peer"@)),
{
    lemma_mode_names_distinct();
}

proof fn lemma_mode_names_distinct()
    ensures
        crate::commands::node_mode_of("station"@) == Some(NodeMode::WifiStation),
        crate::commands::node_mode_of("sniffer"@) == Some(NodeMode::WifiSniffer),
        crate::commands::node_mode_of("wifi-ap"@) == Some(NodeMode::WifiAccessPoint),
        crate::commands::node_mode_of("ht20-emitter"@) == Some(NodeMode::Ht20Emitter),
        crate::commands::node_mode_of("ht40-emitter"@) == Some(NodeMode::Ht40Emitter),
        crate::commands::node_mode_of("esp-now-central"@) == Some(NodeMode::EspNowCentral),
        crate::commands::node_mode_of("esp-now-peripheral"@) == Some(NodeMode::EspNowPeripheral),
        crate::commands::node_mode_of("esp-now-fast-source"@) == Some(NodeMode::EspNowFastSource),
        crate::commands::node_mode_of("esp-now-simplex-source"@) == Some(NodeMode::EspNowFastSource),
        crate::commands::node_mode_of("esp-now-fast-collector"@) == Some(NodeMode::EspNowFastCollector),
        crate::commands::node_mode_of("esp-now-simplex-peer"@) == Some(NodeMode::EspNowFastCollector),
{
    reveal_strlit("station");
    reveal_strlit("sniffer");
    reveal_strlit("wifi-ap");
    reveal_strlit("ht20-emitter");
    reveal_strlit("ht40-emitter");
    reveal_strlit("esp-now-central");
    reveal_strlit("esp-now-peripheral");
    reveal_strlit("esp-now-fast-source");
    reveal_strlit("esp-now-simplex-source");
    reveal_strlit("esp-now-fast-collector");
    reveal_strlit("esp-now-simplex-peer");
    assert("station"@[1] != "sniffer"@[1]);
    assert("station"@[0] != "wifi-ap"@[0]);
    assert("station"@[0] != "ht20-emitter"@[0]);
    assert("station"@[0] != "ht40-emitter"@[0]);
    assert("station"@[0] != "esp-now-central"@[0]);
    assert("station"@[0] != "esp-now-peripheral"@[0]);
    assert("station"@[0] != "esp-now-fast-source"@[0]);
    assert("station"@[0] != "esp-now-simplex-source"@[0]);
    assert("station"@[0] != "esp-now-fast-collector"@[0]);
    assert("station"@[0] != "esp-now-simplex-peer"@[0]);
    assert("sniffer"@[0] != "wifi-ap"@[0]);
    assert("sniffer"@[0] != "ht20-emitter"@[0]);
    assert("sniffer"@[0] != "ht40-emitter"@[0]);
    assert("sniffer"@[0] != "esp-now-central"@[0]);
    assert("sniffer"@[0] != "esp-now-peripheral"@[0]);
    assert("sniffer"@[0] != "esp-now-fast-source"@[0]);
    assert("sniffer"@[0] != "esp-now-simplex-source"@[0]);
    assert("sniffer"@[0] != "esp-now-fast-collector"@[0]);
    assert("sniffer"@[0] != "esp-now-simplex-peer"@[0]);
    assert("wifi-ap"@[0] != "ht20-emitter"@[0]);
    assert("wifi-ap"@[0] != "ht40-emitter"@[0]);
    assert("wifi-ap"@[0] != "esp-now-central"@[0]);
    assert("wifi-ap"@[0] != "esp-now-peripheral"@[0]);
    assert("wifi-ap"@[0] != "esp-now-fast-source"@[0]);
    assert("wifi-ap"@[0] != "esp-now-simplex-source"@[0]);
    assert("wifi-ap"@[0] != "esp-now-fast-collector"@[0]);
    assert("wifi-ap"@[0] != "esp-now-simplex-peer"@[0]);
    assert("ht20-emitter"@[2] != "ht40-emitter"@[2]);
    assert("ht20-emitter"@[0] != "esp-now-central"@[0]);
    assert("ht20-emitter"@[0] != "esp-now-peripheral"@[0]);
    assert("ht20-emitter"@[0] != "esp-now-fast-source"@[0]);
    assert("ht20-emitter"@[0] != "esp-now-simplex-source"@[0]);
    assert("ht20-emitter"@[0] != "esp-now-fast-collector"@[0]);
    assert("ht20-emitter"@[0] != "esp-now-simplex-peer"@[0]);
    assert("ht40-emitter"@[0] != "esp-now-central"@[0]);
    assert("ht40-emitter"@[0] != "esp-now-peripheral"@[0]);
    assert("ht40-emitter"@[0] != "esp-now-fast-source"@[0]);
    assert("ht40-emitter"@[0] != "esp-now-simplex-source"@[0]);
    assert("ht40-emitter"@[0] != "esp-now-fast-collector"@[0]);
    assert("ht40-emitter"@[0] != "esp-now-simplex-peer"@[0]);
    assert("esp-now-central"@[8] != "esp-now-peripheral"@[8]);
    assert("esp-now-central"@[8] != "esp-now-fast-source"@[8]);
    assert("esp-now-central"@[8] != "esp-now-simplex-source"@[8]);
    assert("esp-now-central"@[8] != "esp-now-fast-collector"@[8]);
    assert("esp-now-central"@[8] != "esp-now-simplex-peer"@[8]);
    assert("esp-now-peripheral"@[8] != "esp-now-fast-source"@[8]);
    assert("esp-now-peripheral"@[8] != "esp-now-simplex-source"@[8]);
    assert("esp-now-peripheral"@[8] != "esp-now-fast-collector"@[8]);
    assert("esp-now-peripheral"@[8] != "esp-now-simplex-peer"@[8]);
    assert("esp-now-fast-source"@[8] != "esp-now-simplex-source"@[8]);
    assert("esp-now-fast-source"@[13] != "esp-now-fast-collector"@[13]);
    assert("esp-now-fast-source"@[8] != "esp-now-simplex-peer"@[8]);
    assert("esp-now-simplex-source"@[8] != "esp-now-fast-collector"@[8]);
    assert("esp-now-simplex-source"@[16] != "esp-now-simplex-peer"@[16]);
    assert("esp-now-fast-collector"@[8] != "esp-now-simplex-peer"@[8]);
}

/// The configuration a node boots with and `reset-config` restores: sniffer
/// mode, collector, CSI output on and unfiltered, 100 Hz echo requests, no
/// station credentials, an open softAP `esp-csi-ap` with DHCP, 4 leases and
/// no burst, channel 149 on the ESP32-C5 and 1 elsewhere, rate MCS0 long GI,
/// protocol LR, both IO tasks on, automatic peer, no HT40, no raw delivery,
/// a 20 ms injection period on the station interface; and the chip's CSI
/// defaults: every LTF switch on and no filter, scaling or ACK dump on the
/// classic chips; every acquisition and the ACK dump on, STBC HE 2 and value
/// scale 2 on the ESP32-C5 / ESP32-C6, with the forced L-LTF and VHT
/// switches on the ESP32-C5 only.
pub proof fn lemma_defaults(chip: crate::config::Chip)
    ensures
        ({
            let d = crate::config::default_config(chip);
            &&& d.node_mode == NodeMode::WifiSniffer
            &&& d.collection_mode == CollectionMode::Collector
            &&& d.csi_output_enabled
            &&& d.csi_peer_filter is None
            &&& d.csi_min_sig_mode == 0
            &&& d.trigger_freq == 100
            &&& !d.flood_unsolicited
            &&& d.sta_ssid.len() == 0
            &&& d.sta_password.len() == 0
            &&& d.ap_ssid == seq!['e', 's', 'p', '-', 'c', 's', 'i', '-', 'a', 'p']
            &&& d.ap_password.len() == 0
            &&& d.serve_dhcp
            &&& d.ap_lease_count == 4
            &&& !d.ap_sync_burst
            &&& d.channel == (if chip == crate::config::Chip::Esp32C5 { 149u8 } else { 1u8 })
            &&& d.phy_rate == PhyRate::RateMcs0Lgi
            &&& d.protocol == Protocol::LR
            &&& d.io_tasks.tx_enabled && d.io_tasks.rx_enabled
            &&& d.peer_mac is None
            &&& d.ht40_secondary is None
            &&& !d.delivery_raw
            &&& d.inject_period_us == 20000
            &&& d.emitter_use_sta_if
            &&& (chip == crate::config::Chip::Esp32C5 || chip == crate::config::Chip::Esp32C6) ==> d.csi_config
                == CsiSettings::He(
                crate::config::HeCsi {
                    enable: 1,
                    acquire_csi_legacy: 1,
                    acquire_csi_ht20: 1,
                    acquire_csi_ht40: 1,
                    acquire_csi_su: 1,
                    acquire_csi_mu: 1,
                    acquire_csi_dcm: 1,
                    acquire_csi_beamformed: 1,
                    acquire_csi_he_stbc: 2,
                    val_scale_cfg: 2,
                    dump_ack_en: 1,
                    acquire_csi_force_lltf: if chip == crate::config::Chip::Esp32C5 { Some(true) } else { None },
                    acquire_csi_vht: if chip == crate::config::Chip::Esp32C5 { Some(true) } else { None },
                },
            )
            &&& !(chip == crate::config::Chip::Esp32C5 || chip == crate::config::Chip::Esp32C6) ==> d.csi_config
                == CsiSettings::Classic(
                crate::config::ClassicCsi {
                    lltf_en: true,
                    htltf_en: true,
                    stbc_htltf2_en: true,
                    ltf_merge_en: true,
                    channel_filter_en: false,
                    manu_scale: false,
                    shift: 0,
                    dump_ack_en: false,
                },
            )
        }),
{
    reveal_strlit("esp-csi-ap");
    assert(crate::config::default_ap_ssid() =~= seq!['e', 's', 'p', '-', 'c', 's', 'i', '-', 'a', 'p']);
}

/// `set-csi --preset=default` on the ESP32-C5 / ESP32-C6 restores the chip's
/// default settings before the other options apply, so with no other
/// option the settings are the defaults; another preset name is refused
/// and restores nothing.
pub proof fn lemma_he_preset(c: ConfigModel, av: Seq<Seq<char>>, chip: crate::config::Chip)
    requires
        chip == crate::config::Chip::Esp32C5 || chip == crate::config::Chip::Esp32C6,
        c.csi_config is He,
        c.csi_config->He_0.acquire_csi_force_lltf is Some <==> chip == crate::config::Chip::Esp32C5,
        named_value(av, "preset"@) == Some("default"@),
        named_value(av, "csi"@) is None,
        named_value(av, "csi-legacy"@) is None,
        named_value(av, "csi-ht20"@) is None,
        named_value(av, "csi-ht40"@) is None,
        named_value(av, "val-scale-cfg"@) is None,
        named_value(av, "dump-ack"@) is None,
        named_value(av, "csi-force-lltf"@) is None,
        named_value(av, "csi-vht"@) is None,
    ensures
        set_csi_spec(c, av).0.csi_config == crate::config::default_config(chip).csi_config,
        set_csi_spec(c, av).1.len() == 0,
{
    reveal_strlit("default");
}

/// `set-csi` on the ESP32-C5 / ESP32-C6 without a preset: the forced L-LTF
/// and VHT switches exist on the ESP32-C5 settings only. There a switch word
/// sets them; on the ESP32-C6 settings the options are ignored, not refused.
pub proof fn lemma_c5_only_switches(c: ConfigModel, av: Seq<Seq<char>>)
    requires
        c.csi_config is He,
        named_value(av, "preset"@) is None,
    ensures
        ({
            let h = c.csi_config->He_0;
            let r = set_csi_spec(c, av);
            let f = named_value(av, "csi-force-lltf"@);
            let v = named_value(av, "csi-vht"@);
            &&& h.acquire_csi_force_lltf is None ==> r.0.csi_config->He_0.acquire_csi_force_lltf is None
                && !r.1.contains(Opt::CsiForceLltf)
            &&& h.acquire_csi_vht is None ==> r.0.csi_config->He_0.acquire_csi_vht is None && !r.1.contains(Opt::CsiVht)
            &&& h.acquire_csi_force_lltf is Some && f is Some && feature_switch(f->0) is Some
                ==> r.0.csi_config->He_0.acquire_csi_force_lltf == feature_switch(f->0)
            &&& h.acquire_csi_vht is Some && v is Some && feature_switch(v->0) is Some
                ==> r.0.csi_config->He_0.acquire_csi_vht == feature_switch(v->0)
        }),
{
    let h = c.csi_config->He_0;
    let x1 = Opt::CsiForceLltf;
    let x2 = Opt::CsiVht;
    let av2 = av;
    let e = switch_arg(av2, "csi"@);
    let l = switch_arg(av2, "csi-legacy"@);
    let h20 = switch_arg(av2, "csi-ht20"@);
    let h40 = switch_arg(av2, "csi-ht40"@);
    let sc = crate::commands::unsigned_arg(av2, "val-scale-cfg"@, u32::MAX as nat);
    let d = switch_arg(av2, "dump-ack"@);
    let p = spec_arg(av2, "preset"@, |v: Seq<char>| crate::commands::preset_of(v));
    let f = crate::commands::optional_switch(av2, "csi-force-lltf"@, h.acquire_csi_force_lltf);
    let v = crate::commands::optional_switch(av2, "csi-vht"@, h.acquire_csi_vht);
    if h.acquire_csi_force_lltf is None {
        lemma_refusal_contains(p, Opt::Preset, x1);
        lemma_refusal_contains(e, Opt::Csi, x1);
        lemma_refusal_contains(l, Opt::CsiLegacy, x1);
        lemma_refusal_contains(h20, Opt::CsiHt20, x1);
        lemma_refusal_contains(h40, Opt::CsiHt40, x1);
        lemma_refusal_contains(sc, Opt::ValScaleCfg, x1);
        lemma_refusal_contains(d, Opt::DumpAck, x1);
        lemma_refusal_contains(f, Opt::CsiForceLltf, x1);
        lemma_refusal_contains(v, Opt::CsiVht, x1);
    }
    if h.acquire_csi_vht is None {
        lemma_refusal_contains(p, Opt::Preset, x2);
        lemma_refusal_contains(e, Opt::Csi, x2);
        lemma_refusal_contains(l, Opt::CsiLegacy, x2);
        lemma_refusal_contains(h20, Opt::CsiHt20, x2);
        lemma_refusal_contains(h40, Opt::CsiHt40, x2);
        lemma_refusal_contains(sc, Opt::ValScaleCfg, x2);
        lemma_refusal_contains(d, Opt::DumpAck, x2);
        lemma_refusal_contains(f, Opt::CsiForceLltf, x2);
        lemma_refusal_contains(v, Opt::CsiVht, x2);
    }
}

/// Decimal numbers as the options read them: a single digit is its value,
/// appending a digit multiplies the value by ten and adds the digit, one
/// leading `+` is skipped, and empty text, a `-` sign or a value above the
/// bound is not a number.
pub proof fn lemma_decimal(s: Seq<char>, d: char, max: nat)
    requires
        '0' <= d <= '9',
    ensures
        parse_unsigned(seq![d], max) == (if (d as u32 - '0' as u32) <= max { Some((d as u32 - '0' as u32) as nat) } else { None::<nat> }),
        parse_unsigned(s, max) is Some && !(s.len() > 0 && s[0] == '+') && parse_unsigned(s, max)->0 * 10 + (d as u32 - '0' as u32) <= max
            ==> parse_unsigned(s.push(d), max) == Some((parse_unsigned(s, max)->0 * 10 + (d as u32 - '0' as u32)) as nat),
        parse_unsigned(seq!['+'] + s, max) == (if s.len() > 0 && s[0] == '+' { None } else { parse_unsigned(s, max) }),
        parse_unsigned(Seq::empty(), max) is None,
        parse_unsigned(seq!['-'] + s, max) is None,
{
    lemma_single_digit(d, max);
    assert((seq!['+'] + s).drop_first() =~= s);
    assert((seq!['-'] + s)[0] == '-');
    assert(!crate::text::is_digit('-'));
    if parse_unsigned(s, max) is Some && !(s.len() > 0 && s[0] == '+') {
        assert(s.push(d)[0] == s[0]);
        assert(s.push(d).drop_last() =~= s);
        assert(crate::text::unsigned_body(s.push(d)) =~= s.push(d));
        assert(crate::text::all_digits(s.push(d))) by {
            assert forall|i: int| 0 <= i < s.push(d).len() implies crate::text::is_digit(#[trigger] s.push(d)[i]) by {
                if i < s.len() {
                    assert(s.push(d)[i] == s[i]);
                }
            }
        }
    }
    if s.len() > 0 && s[0] == '+' {
        let t = seq!['+'] + s;
        assert(crate::text::unsigned_body(t) =~= s);
        assert(!crate::text::is_digit(s[0]));
        assert(!crate::text::all_digits(s));
    }
}

proof fn lemma_single_digit(d: char, max: nat)
    requires
        '0' <= d <= '9',
    ensures
        parse_unsigned(seq![d], max) == (if (d as u32 - '0' as u32) <= max { Some((d as u32 - '0' as u32) as nat) } else { None::<nat> }),
{
    let s = seq![d];
    assert(s[0] == d);
    assert(crate::text::unsigned_body(s) =~= s);
    assert(s.drop_last() =~= Seq::<char>::empty());
    assert(s.last() == d);
    assert(crate::text::digits_value(Seq::<char>::empty()) == 0);
    assert(crate::text::digits_value(s) == crate::text::digits_value(s.drop_last()) * 10 + crate::text::digit_value(
        s.last(),
    ));
    assert(crate::text::digits_value(s) == crate::text::digit_value(d));
    assert(crate::text::all_digits(s));
}

/// What `format_mac` writes: six groups of two hexadecimal digits, the
/// first digit of group `k` the high four bits of byte `k` and the second
/// the low four, separated by colons, in upper case when asked and lower
/// case otherwise.
pub proof fn lemma_mac_text(m: Seq<u8>, upper: bool, k: int)
    requires
        m.len() == 6,
        0 <= k < 6,
    ensures
        ({
            let t = crate::mac::mac_text(m, upper);
            &&& t.len() == 17
            &&& k < 5 ==> t[3 * k + 2] == ':'
            &&& crate::mac::hex_value(t[3 * k]) == Some((m[k] / 16) as nat)
            &&& crate::mac::hex_value(t[3 * k + 1]) == Some((m[k] % 16) as nat)
            &&& upper ==> !('a' <= t[3 * k] <= 'f') && !('a' <= t[3 * k + 1] <= 'f')
            &&& !upper ==> !('A' <= t[3 * k] <= 'F') && !('A' <= t[3 * k + 1] <= 'F')
        }),
{
    let t = crate::mac::mac_text(m, upper);
    assert((3 * k) / 3 == k && (3 * k) % 3 == 0);
    assert((3 * k + 1) / 3 == k && (3 * k + 1) % 3 == 1);
    assert((3 * k + 2) % 3 == 2);
    let hi = (m[k] / 16) as nat;
    let lo = (m[k] % 16) as nat;
    assert(t[3 * k] == crate::mac::hex_digit(hi, upper));
    assert(t[3 * k + 1] == crate::mac::hex_digit(lo, upper));
    let a = crate::mac::hex_digit(hi, upper);
    let b = crate::mac::hex_digit(lo, upper);
    if hi < 10 { assert(a as u32 == hi + 48); } else if upper { assert(a as u32 == hi + 55); } else { assert(a as u32 == hi + 87); }
    if lo < 10 { assert(b as u32 == lo + 48); } else if upper { assert(b as u32 == lo + 55); } else { assert(b as u32 == lo + 87); }
}

/// The stop keys of a run are `q` and `Q` and no other byte, and a chunk
/// read from the console asks for a stop exactly when it holds one of them.
pub proof fn lemma_stop_keys(b: u8)
    ensures
        crate::run::spec_is_stop_key(b) <==> (b == 113 || b == 81),
{
}

/// The line editor on ordinary input: outside quotes a byte that is not a
/// quote, a backspace or a line end is echoed and handed to the runner
/// unchanged while the runner's line has room; a carriage return is handed
/// on and starts an empty line; a backspace on a non-empty line forgets its
/// last character, and the runner is told unless that character was a quote.
pub proof fn lemma_editor_plain(m: crate::editor::EditorModel, b: u8)
    requires
        m.quote is None || crate::editor::is_quote(m.quote->0),
    ensures
        ({
            let (n, st) = crate::editor::editor_step(m, b);
            &&& m.quote is None && b != 0x22 && b != 0x27 && b != 0x08 && b != 0x7F && b != 0x0D && b != 0x0A
                && m.forwarded < 256 ==> {
                &&& st.echo == crate::editor::Echo::Byte(b)
                &&& st.forward == Some(b)
                &&& n.forwarded == m.forwarded + 1
                &&& m.shadow.len() < 256 ==> n.shadow == m.shadow.push(b)
            }
            &&& b == 0x0D ==> st.forward == Some(0x0Du8) && n.shadow.len() == 0 && n.quote is None && n.forwarded == 0
            &&& (b == 0x08 || b == 0x7F) && m.shadow.len() > 0 ==> {
                &&& n.shadow == m.shadow.drop_last()
                &&& (m.shadow.last() == 0x22 || m.shadow.last() == 0x27) ==> st.forward is None
                &&& !(m.shadow.last() == 0x22 || m.shadow.last() == 0x27) ==> st.forward == Some(b)
            }
        }),
{
}

} // verus!
