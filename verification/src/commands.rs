//! The commands of the serial command line: what each one reads from its
//! arguments, how it changes the configuration, which argument values it
//! refuses, and what it asks the caller to do.

use vstd::prelude::*;

use crate::args::{arg_views, named_argument, named_value};
use crate::config::{
    default_config, Chip, CollectionMode, ConfigModel, CsiSettings, NodeMode, PhyRate, Protocol, SecondaryChannel, UserConfig,
};
use crate::mac::{mac_of, parse_mac};
use crate::bounded::{text_chars, TEXT_CAPACITY};
use crate::text::{
    decode_spaces, text_field, utf8_len, feature_switch, on_off, parse_bounded, parse_feature_switch, parse_on_off, parse_unsigned, str_eq,
};

verus! {

/// What a command made of one of its optional arguments.
#[derive(Clone, Copy, Debug, PartialEq, Eq, Structural)]
pub enum Arg<T> {
    /// The argument was not given.
    Absent,
    /// The argument was given and its value read as this.
    Given(T),
    /// The argument was given with a value that is refused.
    Refused,
}

/// The options whose values a command can refuse; each refusal is reported
/// to the user in the order the command reads its options.
#[derive(Clone, Copy, Debug, PartialEq, Eq, Structural)]
pub enum Opt {
    FrequencyHz,
    Unsolicited,
    Enabled,
    PeerMac,
    MinPhy,
    Mode,
    Collection,
    SetChannel,
    ApDhcp,
    ApLeases,
    ApBurst,
    Ht40,
    InjectPeriodMs,
    InjectPeriodUs,
    EmitterIface,
    Lltf,
    Htltf,
    StbcHtltf,
    LtfMerge,
    Csi,
    CsiLegacy,
    CsiHt20,
    CsiHt40,
    ValScaleCfg,
    Preset,
    DumpAck,
    CsiForceLltf,
    CsiVht,
    Tx,
    Rx,
    Logging,
}

/// `[o]` when the argument was refused, nothing otherwise.
pub open spec fn refusal<T>(a: Arg<T>, o: Opt) -> Seq<Opt> {
    if a is Refused {
        seq![o]
    } else {
        Seq::empty()
    }
}

/// The new value of a field: the given value, or the old one.
pub open spec fn updated<T>(a: Arg<T>, old: T) -> T {
    match a {
        Arg::Given(v) => v,
        _ => old,
    }
}

/// Reads the argument `name` with `read`; absent when not given.
pub open spec fn spec_arg<T>(av: Seq<Seq<char>>, name: Seq<char>, read: spec_fn(Seq<char>) -> Option<T>) -> Arg<T> {
    match named_value(av, name) {
        None => Arg::Absent,
        Some(v) => match read(v) {
            Some(x) => Arg::Given(x),
            None => Arg::Refused,
        },
    }
}

/// An unsigned decimal argument no larger than `max`.
pub open spec fn unsigned_arg(av: Seq<Seq<char>>, name: Seq<char>, max: nat) -> Arg<nat> {
    spec_arg(av, name, |v: Seq<char>| parse_unsigned(v, max))
}

/// An on/off argument.
pub open spec fn on_off_arg(av: Seq<Seq<char>>, name: Seq<char>) -> Arg<bool> {
    spec_arg(av, name, |v: Seq<char>| on_off(v))
}

/// A CSI feature switch argument.
pub open spec fn switch_arg(av: Seq<Seq<char>>, name: Seq<char>) -> Arg<bool> {
    spec_arg(av, name, |v: Seq<char>| feature_switch(v))
}

/// Reads an unsigned decimal argument no larger than `max`.
pub fn read_unsigned(args: &[&str], name: &str, max: u64) -> (r: Arg<u64>)
    ensures
        match unsigned_arg(arg_views(args@), name@, max as nat) {
            Arg::Absent => r is Absent,
            Arg::Refused => r is Refused,
            Arg::Given(v) => r == Arg::Given(v as u64),
        },
{
    match named_argument(args, name) {
        None => Arg::Absent,
        Some(v) => match parse_bounded(v.as_str(), max) {
            Some(x) => Arg::Given(x),
            None => Arg::Refused,
        },
    }
}

/// Reads an on/off argument.
pub fn read_on_off(args: &[&str], name: &str) -> (r: Arg<bool>)
    ensures
        r == on_off_arg(arg_views(args@), name@),
{
    match named_argument(args, name) {
        None => Arg::Absent,
        Some(v) => match parse_on_off(v.as_str()) {
            Some(x) => Arg::Given(x),
            None => Arg::Refused,
        },
    }
}

/// Reads a CSI feature switch argument.
pub fn read_switch(args: &[&str], name: &str) -> (r: Arg<bool>)
    ensures
        r == switch_arg(arg_views(args@), name@),
{
    match named_argument(args, name) {
        None => Arg::Absent,
        Some(v) => match parse_feature_switch(v.as_str()) {
            Some(x) => Arg::Given(x),
            None => Arg::Refused,
        },
    }
}

/// Appends `o` to `out` when `a` was refused.
fn note<T>(out: &mut Vec<Opt>, a: &Arg<T>, o: Opt)
    ensures
        final(out)@ == old(out)@ + refusal(*a, o),
{
    match a {
        Arg::Refused => {
            out.push(o);
            assert(final(out)@ =~= old(out)@ + refusal(*a, o));
        },
        _ => {
            assert(final(out)@ =~= old(out)@ + refusal(*a, o));
        },
    }
}

/// Per-session state handed by the command runner to every command. It
/// carries nothing yet.
pub struct Context {
    _inner: u32,
}

impl Context {
    /// The state of a session that has not stored anything.
    pub closed spec fn is_fresh(&self) -> bool {
        self._inner == 0
    }

    /// An empty session state.
    pub fn new() -> (r: Context)
        ensures
            r.is_fresh(),
    {
        Context { _inner: 0 }
    }
}

impl Default for Context {
    fn default() -> (r: Context)
        ensures
            r.is_fresh(),
    {
        Context::new()
    }
}

// ---------------------------------------------------------------- set-traffic

/// `set-traffic`: `--frequency-hz=<u64>` sets the traffic generation rate
/// (0 disables it) and `--unsolicited=<on|off>` selects echo replies instead
/// of echo requests.
pub open spec fn set_traffic_spec(c: ConfigModel, av: Seq<Seq<char>>) -> (ConfigModel, Seq<Opt>) {
    let f = unsigned_arg(av, "frequency-hz"@, u64::MAX as nat);
    let u = on_off_arg(av, "unsolicited"@);
    (
        ConfigModel {
            trigger_freq: match f {
                Arg::Given(n) => n as u64,
                _ => c.trigger_freq,
            },
            flood_unsolicited: updated(u, c.flood_unsolicited),
            ..c
        },
        refusal(f, Opt::FrequencyHz) + refusal(u, Opt::Unsolicited),
    )
}

/// The `set-traffic` command.
pub fn set_traffic(config: &mut UserConfig, args: &[&str]) -> (refused: Vec<Opt>)
    ensures
        final(config)@ == set_traffic_spec(old(config)@, arg_views(args@)).0,
        refused@ == set_traffic_spec(old(config)@, arg_views(args@)).1,
{
    let mut refused = Vec::new();
    let f = read_unsigned(args, "frequency-hz", u64::MAX);
    if let Arg::Given(n) = f {
        config.trigger_freq = n;
    }
    note(&mut refused, &f, Opt::FrequencyHz);
    let u = read_on_off(args, "unsolicited");
    if let Arg::Given(b) = u {
        config.flood_unsolicited = b;
    }
    note(&mut refused, &u, Opt::Unsolicited);
    proof {
        let av = arg_views(args@);
        let fa = unsigned_arg(av, "frequency-hz"@, u64::MAX as nat);
        assert(refusal(f, Opt::FrequencyHz) == refusal(fa, Opt::FrequencyHz));
    }
    refused
}

// ---------------------------------------------------------------- set-csi-output

/// `set-csi-output`: `--enabled=<on|off>` opens or closes the runtime CSI
/// delivery gate. Without the argument the command only prints its usage.
pub open spec fn set_csi_output_spec(c: ConfigModel, av: Seq<Seq<char>>) -> (ConfigModel, Arg<bool>) {
    let e = on_off_arg(av, "enabled"@);
    (ConfigModel { csi_output_enabled: updated(e, c.csi_output_enabled), ..c }, e)
}

/// The `set-csi-output` command.
pub fn set_csi_output(config: &mut UserConfig, args: &[&str]) -> (r: Arg<bool>)
    ensures
        final(config)@ == set_csi_output_spec(old(config)@, arg_views(args@)).0,
        r == set_csi_output_spec(old(config)@, arg_views(args@)).1,
{
    let e = read_on_off(args, "enabled");
    if let Arg::Given(b) = e {
        config.csi_output_enabled = b;
    }
    e
}

// ---------------------------------------------------------------- set-csi-filter

/// The source filter of `--peer-mac=`: `any` or an empty value accepts every
/// source, an address accepts that source only.
pub open spec fn source_filter_of(v: Seq<char>) -> Option<Option<Seq<u8>>> {
    if v == "any"@ || v.len() == 0 {
        Some(None)
    } else {
        match mac_of(v) {
            Some(m) => Some(Some(m)),
            None => None,
        }
    }
}

/// The minimum `sig_mode` of `--min-phy=`: `any` is 0, `ht` is 1.
pub open spec fn min_phy_of(v: Seq<char>) -> Option<u8> {
    if v == "any"@ {
        Some(0)
    } else if v == "ht"@ {
        Some(1)
    } else {
        None
    }
}

/// `set-csi-filter`: `--peer-mac=<mac|any>` restricts delivered CSI to one
/// source and `--min-phy=<any|ht>` drops legacy-rate frames.
pub open spec fn set_csi_filter_spec(c: ConfigModel, av: Seq<Seq<char>>) -> (ConfigModel, Seq<Opt>) {
    let p = spec_arg(av, "peer-mac"@, |v: Seq<char>| source_filter_of(v));
    let m = spec_arg(av, "min-phy"@, |v: Seq<char>| min_phy_of(v));
    (
        ConfigModel {
            csi_peer_filter: updated(p, c.csi_peer_filter),
            csi_min_sig_mode: updated(m, c.csi_min_sig_mode),
            ..c
        },
        refusal(p, Opt::PeerMac) + refusal(m, Opt::MinPhy),
    )
}

fn parse_source_filter(v: &str) -> (r: Option<Option<[u8; 6]>>)
    ensures
        match source_filter_of(v@) {
            Some(f) => r is Some && crate::config::mac_view(r->0) == f,
            None => r is None,
        },
{
    if str_eq(v, "any") || v.unicode_len() == 0 {
        Some(None)
    } else {
        match parse_mac(v) {
            Some(m) => Some(Some(m)),
            None => None,
        }
    }
}

fn parse_min_phy(v: &str) -> (r: Option<u8>)
    ensures
        r == min_phy_of(v@),
{
    if str_eq(v, "any") {
        Some(0)
    } else if str_eq(v, "ht") {
        Some(1)
    } else {
        None
    }
}

/// The `set-csi-filter` command.
pub fn set_csi_filter(config: &mut UserConfig, args: &[&str]) -> (refused: Vec<Opt>)
    ensures
        final(config)@ == set_csi_filter_spec(old(config)@, arg_views(args@)).0,
        refused@ == set_csi_filter_spec(old(config)@, arg_views(args@)).1,
{
    let ghost av = arg_views(args@);
    let mut refused = Vec::new();
    match named_argument(args, "peer-mac") {
        None => {},
        Some(v) => match parse_source_filter(v.as_str()) {
            Some(f) => {
                config.csi_peer_filter = f;
            },
            None => {
                refused.push(Opt::PeerMac);
            },
        },
    }
    let ghost p = spec_arg(av, "peer-mac"@, |v: Seq<char>| source_filter_of(v));
    assert(refused@ =~= refusal(p, Opt::PeerMac));
    match named_argument(args, "min-phy") {
        None => {},
        Some(v) => match parse_min_phy(v.as_str()) {
            Some(m) => {
                config.csi_min_sig_mode = m;
            },
            None => {
                refused.push(Opt::MinPhy);
            },
        },
    }
    let ghost m = spec_arg(av, "min-phy"@, |v: Seq<char>| min_phy_of(v));
    assert(refused@ =~= refusal(p, Opt::PeerMac) + refusal(m, Opt::MinPhy));
    refused
}

// ---------------------------------------------------------------- set-io-tasks

/// `set-io-tasks`: `--tx=<on|off>` and `--rx=<on|off>` switch the
/// direction tasks; an omitted one keeps its state.
pub open spec fn set_io_tasks_spec(c: ConfigModel, av: Seq<Seq<char>>) -> (ConfigModel, Seq<Opt>) {
    let t = on_off_arg(av, "tx"@);
    let r = on_off_arg(av, "rx"@);
    (
        ConfigModel {
            io_tasks: crate::config::IoTasks {
                tx_enabled: updated(t, c.io_tasks.tx_enabled),
                rx_enabled: updated(r, c.io_tasks.rx_enabled),
            },
            ..c
        },
        refusal(t, Opt::Tx) + refusal(r, Opt::Rx),
    )
}

/// The `set-io-tasks` command.
pub fn set_io_tasks_cmd(config: &mut UserConfig, args: &[&str]) -> (refused: Vec<Opt>)
    ensures
        final(config)@ == set_io_tasks_spec(old(config)@, arg_views(args@)).0,
        refused@ == set_io_tasks_spec(old(config)@, arg_views(args@)).1,
{
    let mut refused = Vec::new();
    let t = read_on_off(args, "tx");
    if let Arg::Given(b) = t {
        config.io_tasks.tx_enabled = b;
    }
    note(&mut refused, &t, Opt::Tx);
    let r = read_on_off(args, "rx");
    if let Arg::Given(b) = r {
        config.io_tasks.rx_enabled = b;
    }
    note(&mut refused, &r, Opt::Rx);
    refused
}

// ---------------------------------------------------------------- start

/// `start`: `--duration=<u64>` asks for a run of that many seconds; without
/// it the run is indefinite; a malformed duration starts nothing.
pub open spec fn start_spec(av: Seq<Seq<char>>) -> Arg<u64> {
    match unsigned_arg(av, "duration"@, u64::MAX as nat) {
        Arg::Given(n) => Arg::Given(n as u64),
        Arg::Absent => Arg::Absent,
        Arg::Refused => Arg::Refused,
    }
}

/// The `start` command: `Given(secs)` for a timed run, `Absent` for an
/// indefinite run, `Refused` when the duration is malformed.
pub fn start_csi_collect(args: &[&str]) -> (r: Arg<u64>)
    ensures
        r == start_spec(arg_views(args@)),
{
    read_unsigned(args, "duration", u64::MAX)
}

// ---------------------------------------------------------------- set-log-mode

/// The output formats of the CSI logger.
#[derive(Clone, Copy, Debug, PartialEq, Eq, Structural)]
pub enum LogMode {
    Text,
    ArrayList,
    Serialized,
    EspCsiTool,
}

/// The format named by `--mode=` of `set-log-mode`.
pub open spec fn log_mode_of(v: Seq<char>) -> Option<LogMode> {
    if v == "text"@ {
        Some(LogMode::Text)
    } else if v == "array-list"@ {
        Some(LogMode::ArrayList)
    } else if v == "serialized"@ {
        Some(LogMode::Serialized)
    } else if v == "esp-csi-tool"@ {
        Some(LogMode::EspCsiTool)
    } else {
        None
    }
}

/// `set-log-mode`: the format to switch the logger to; `Absent` when
/// `--mode` is missing (usage), `Refused` when it names no format.
pub fn set_log_mode(args: &[&str]) -> (r: Arg<LogMode>)
    ensures
        r == spec_arg(arg_views(args@), "mode"@, |v: Seq<char>| log_mode_of(v)),
{
    match named_argument(args, "mode") {
        None => Arg::Absent,
        Some(v) => {
            let v = v.as_str();
            if str_eq(v, "text") {
                Arg::Given(LogMode::Text)
            } else if str_eq(v, "array-list") {
                Arg::Given(LogMode::ArrayList)
            } else if str_eq(v, "serialized") {
                Arg::Given(LogMode::Serialized)
            } else if str_eq(v, "esp-csi-tool") {
                Arg::Given(LogMode::EspCsiTool)
            } else {
                Arg::Refused
            }
        },
    }
}

// ---------------------------------------------------------------- set-rate

/// The rate named by `--rate=`: the bare `1m`, `5m5` and `11m` name the
/// long-preamble rates, as do their `-l` spellings.
pub open spec fn phy_rate_of(v: Seq<char>) -> Option<PhyRate> {
    if v == "1m"@ || v == "1m-l"@ {
        Some(PhyRate::Rate1mL)
    } else if v == "2m"@ {
        Some(PhyRate::Rate2m)
    } else if v == "5m5"@ || v == "5m5-l"@ {
        Some(PhyRate::Rate5mL)
    } else if v == "11m"@ || v == "11m-l"@ {
        Some(PhyRate::Rate11mL)
    } else if v == "6m"@ {
        Some(PhyRate::Rate6m)
    } else if v == "9m"@ {
        Some(PhyRate::Rate9m)
    } else if v == "12m"@ {
        Some(PhyRate::Rate12m)
    } else if v == "18m"@ {
        Some(PhyRate::Rate18m)
    } else if v == "24m"@ {
        Some(PhyRate::Rate24m)
    } else if v == "36m"@ {
        Some(PhyRate::Rate36m)
    } else if v == "48m"@ {
        Some(PhyRate::Rate48m)
    } else if v == "54m"@ {
        Some(PhyRate::Rate54m)
    } else if v == "mcs0-lgi"@ {
        Some(PhyRate::RateMcs0Lgi)
    } else if v == "mcs1-lgi"@ {
        Some(PhyRate::RateMcs1Lgi)
    } else if v == "mcs2-lgi"@ {
        Some(PhyRate::RateMcs2Lgi)
    } else if v == "mcs3-lgi"@ {
        Some(PhyRate::RateMcs3Lgi)
    } else if v == "mcs4-lgi"@ {
        Some(PhyRate::RateMcs4Lgi)
    } else if v == "mcs5-lgi"@ {
        Some(PhyRate::RateMcs5Lgi)
    } else if v == "mcs6-lgi"@ {
        Some(PhyRate::RateMcs6Lgi)
    } else if v == "mcs7-lgi"@ {
        Some(PhyRate::RateMcs7Lgi)
    } else if v == "mcs0-sgi"@ {
        Some(PhyRate::RateMcs0Sgi)
    } else {
        None
    }
}

/// Reads a PHY rate name.
pub fn parse_phy_rate(v: &str) -> (r: Option<PhyRate>)
    ensures
        r == phy_rate_of(v@),
{
    if str_eq(v, "1m") || str_eq(v, "1m-l") {
        Some(PhyRate::Rate1mL)
    } else if str_eq(v, "2m") {
        Some(PhyRate::Rate2m)
    } else if str_eq(v, "5m5") || str_eq(v, "5m5-l") {
        Some(PhyRate::Rate5mL)
    } else if str_eq(v, "11m") || str_eq(v, "11m-l") {
        Some(PhyRate::Rate11mL)
    } else if str_eq(v, "6m") {
        Some(PhyRate::Rate6m)
    } else if str_eq(v, "9m") {
        Some(PhyRate::Rate9m)
    } else if str_eq(v, "12m") {
        Some(PhyRate::Rate12m)
    } else if str_eq(v, "18m") {
        Some(PhyRate::Rate18m)
    } else if str_eq(v, "24m") {
        Some(PhyRate::Rate24m)
    } else if str_eq(v, "36m") {
        Some(PhyRate::Rate36m)
    } else if str_eq(v, "48m") {
        Some(PhyRate::Rate48m)
    } else if str_eq(v, "54m") {
        Some(PhyRate::Rate54m)
    } else if str_eq(v, "mcs0-lgi") {
        Some(PhyRate::RateMcs0Lgi)
    } else if str_eq(v, "mcs1-lgi") {
        Some(PhyRate::RateMcs1Lgi)
    } else if str_eq(v, "mcs2-lgi") {
        Some(PhyRate::RateMcs2Lgi)
    } else if str_eq(v, "mcs3-lgi") {
        Some(PhyRate::RateMcs3Lgi)
    } else if str_eq(v, "mcs4-lgi") {
        Some(PhyRate::RateMcs4Lgi)
    } else if str_eq(v, "mcs5-lgi") {
        Some(PhyRate::RateMcs5Lgi)
    } else if str_eq(v, "mcs6-lgi") {
        Some(PhyRate::RateMcs6Lgi)
    } else if str_eq(v, "mcs7-lgi") {
        Some(PhyRate::RateMcs7Lgi)
    } else if str_eq(v, "mcs0-sgi") {
        Some(PhyRate::RateMcs0Sgi)
    } else {
        None
    }
}

/// `set-rate`: `--rate=<name>` stores the PHY rate. `Absent` when the
/// argument is missing (usage), `Refused` for an unknown name; the
/// configuration changes only on `Given`.
pub open spec fn set_phy_rate_spec(c: ConfigModel, av: Seq<Seq<char>>) -> (ConfigModel, Arg<PhyRate>) {
    let r = spec_arg(av, "rate"@, |v: Seq<char>| phy_rate_of(v));
    (ConfigModel { phy_rate: updated(r, c.phy_rate), ..c }, r)
}

/// The `set-rate` command.
pub fn set_phy_rate(config: &mut UserConfig, args: &[&str]) -> (r: Arg<PhyRate>)
    ensures
        final(config)@ == set_phy_rate_spec(old(config)@, arg_views(args@)).0,
        r == set_phy_rate_spec(old(config)@, arg_views(args@)).1,
{
    match named_argument(args, "rate") {
        None => Arg::Absent,
        Some(v) => match parse_phy_rate(v.as_str()) {
            Some(rate) => {
                config.phy_rate = rate;
                Arg::Given(rate)
            },
            None => Arg::Refused,
        },
    }
}

// ---------------------------------------------------------------- set-protocol

/// The protocol named by `--protocol=`.
pub open spec fn protocol_of(v: Seq<char>) -> Option<Protocol> {
    if v == "b"@ {
        Some(Protocol::B)
    } else if v == "g"@ {
        Some(Protocol::G)
    } else if v == "n"@ {
        Some(Protocol::N)
    } else if v == "lr"@ {
        Some(Protocol::LR)
    } else if v == "a"@ {
        Some(Protocol::A)
    } else if v == "ac"@ {
        Some(Protocol::AC)
    } else {
        None
    }
}

/// `set-protocol`: `--protocol=<b|g|n|lr|a|ac>` stores the PHY protocol.
/// `Absent` when the argument is missing (usage), `Refused` for an unknown
/// name; the configuration changes only on `Given`.
pub open spec fn set_protocol_spec(c: ConfigModel, av: Seq<Seq<char>>) -> (ConfigModel, Arg<Protocol>) {
    let p = spec_arg(av, "protocol"@, |v: Seq<char>| protocol_of(v));
    (ConfigModel { protocol: updated(p, c.protocol), ..c }, p)
}

/// The `set-protocol` command.
pub fn set_protocol_cmd(config: &mut UserConfig, args: &[&str]) -> (r: Arg<Protocol>)
    ensures
        final(config)@ == set_protocol_spec(old(config)@, arg_views(args@)).0,
        r == set_protocol_spec(old(config)@, arg_views(args@)).1,
{
    match named_argument(args, "protocol") {
        None => Arg::Absent,
        Some(v) => {
            let v = v.as_str();
            let p = if str_eq(v, "b") {
                Some(Protocol::B)
            } else if str_eq(v, "g") {
                Some(Protocol::G)
            } else if str_eq(v, "n") {
                Some(Protocol::N)
            } else if str_eq(v, "lr") {
                Some(Protocol::LR)
            } else if str_eq(v, "a") {
                Some(Protocol::A)
            } else if str_eq(v, "ac") {
                Some(Protocol::AC)
            } else {
                None
            };
            match p {
                Some(p) => {
                    config.protocol = p;
                    Arg::Given(p)
                },
                None => Arg::Refused,
            }
        },
    }
}

// ---------------------------------------------------------------- set-csi-delivery

/// How the Wi-Fi callback hands captured CSI out.
#[derive(Clone, Copy, Debug, PartialEq, Eq, Structural)]
pub enum DeliveryMode {
    Off,
    Callback,
    Async,
    /// The zero-copy fast path, registered at the next run.
    Raw,
}

/// The delivery mode named by `--mode=` of `set-csi-delivery`.
pub open spec fn delivery_mode_of(v: Seq<char>) -> Option<DeliveryMode> {
    if v == "off"@ {
        Some(DeliveryMode::Off)
    } else if v == "callback"@ {
        Some(DeliveryMode::Callback)
    } else if v == "async"@ {
        Some(DeliveryMode::Async)
    } else if v == "raw"@ {
        Some(DeliveryMode::Raw)
    } else {
        None
    }
}

/// What `set-csi-delivery` asks of the CSI engine: a delivery mode to
/// switch to (`Raw` only takes effect at the next run) and a state of the
/// inline log gate.
#[derive(Clone, Copy, Debug, PartialEq, Eq, Structural)]
pub struct DeliveryRequest {
    pub mode: Arg<DeliveryMode>,
    pub logging: Arg<bool>,
}

/// `set-csi-delivery`: `--mode=<off|callback|async|raw>` and
/// `--logging=<on|off>`. A given mode records whether the raw fast path is
/// wanted at the next run.
pub open spec fn set_csi_delivery_spec(c: ConfigModel, av: Seq<Seq<char>>) -> (ConfigModel, DeliveryRequest) {
    let m = spec_arg(av, "mode"@, |v: Seq<char>| delivery_mode_of(v));
    let l = on_off_arg(av, "logging"@);
    (
        ConfigModel {
            delivery_raw: match m {
                Arg::Given(mode) => mode == DeliveryMode::Raw,
                _ => c.delivery_raw,
            },
            ..c
        },
        DeliveryRequest { mode: m, logging: l },
    )
}

/// The `set-csi-delivery` command.
pub fn set_csi_delivery_cmd(config: &mut UserConfig, args: &[&str]) -> (r: DeliveryRequest)
    ensures
        final(config)@ == set_csi_delivery_spec(old(config)@, arg_views(args@)).0,
        r == set_csi_delivery_spec(old(config)@, arg_views(args@)).1,
{
    let mode = match named_argument(args, "mode") {
        None => Arg::Absent,
        Some(v) => {
            let v = v.as_str();
            if str_eq(v, "off") {
                Arg::Given(DeliveryMode::Off)
            } else if str_eq(v, "callback") {
                Arg::Given(DeliveryMode::Callback)
            } else if str_eq(v, "async") {
                Arg::Given(DeliveryMode::Async)
            } else if str_eq(v, "raw") {
                Arg::Given(DeliveryMode::Raw)
            } else {
                Arg::Refused
            }
        },
    };
    if let Arg::Given(m) = mode {
        config.delivery_raw = match m {
            DeliveryMode::Raw => true,
            _ => false,
        };
    }
    let logging = read_on_off(args, "logging");
    DeliveryRequest { mode, logging }
}

// ---------------------------------------------------------------- set-wifi

/// The operational mode named by `--mode=` of `set-wifi`; the simplex ends
/// also answer to `esp-now-simplex-source` and `esp-now-simplex-peer`.
pub open spec fn node_mode_of(v: Seq<char>) -> Option<NodeMode> {
    if v == "station"@ {
        Some(NodeMode::WifiStation)
    } else if v == "sniffer"@ {
        Some(NodeMode::WifiSniffer)
    } else if v == "wifi-ap"@ {
        Some(NodeMode::WifiAccessPoint)
    } else if v == "ht20-emitter"@ {
        Some(NodeMode::Ht20Emitter)
    } else if v == "ht40-emitter"@ {
        Some(NodeMode::Ht40Emitter)
    } else if v == "esp-now-central"@ {
        Some(NodeMode::EspNowCentral)
    } else if v == "esp-now-peripheral"@ {
        Some(NodeMode::EspNowPeripheral)
    } else if v == "esp-now-fast-source"@ || v == "esp-now-simplex-source"@ {
        Some(NodeMode::EspNowFastSource)
    } else if v == "esp-now-fast-collector"@ || v == "esp-now-simplex-peer"@ {
        Some(NodeMode::EspNowFastCollector)
    } else {
        None
    }
}

/// The collection mode named by `--collection=`.
pub open spec fn collection_of(v: Seq<char>) -> Option<CollectionMode> {
    if v == "collector"@ {
        Some(CollectionMode::Collector)
    } else if v == "listener"@ {
        Some(CollectionMode::Listener)
    } else {
        None
    }
}

/// The lease pool size of `--ap-leases=`: a number from 1 to 8.
pub open spec fn lease_count_of(v: Seq<char>) -> Option<u8> {
    match parse_unsigned(v, 255) {
        Some(n) => if 1 <= n <= 8 {
            Some(n as u8)
        } else {
            None
        },
        None => None,
    }
}

/// The peer of `--peer-mac=`: an empty value clears it.
pub open spec fn peer_of(v: Seq<char>) -> Option<Option<Seq<u8>>> {
    if v.len() == 0 {
        Some(None)
    } else {
        match mac_of(v) {
            Some(m) => Some(Some(m)),
            None => None,
        }
    }
}

/// The secondary channel of `--ht40=`: `above` or `below`; `none` or `off`
/// clears it.
pub open spec fn ht40_of(v: Seq<char>) -> Option<Option<SecondaryChannel>> {
    if v == "above"@ {
        Some(Some(SecondaryChannel::Above))
    } else if v == "below"@ {
        Some(Some(SecondaryChannel::Below))
    } else if v == "none"@ || v == "off"@ {
        Some(None)
    } else {
        None
    }
}

/// The largest `--inject-period-ms=` whose value in microseconds fits.
pub open spec fn max_inject_ms() -> nat {
    4294967
}

/// The injection period, in microseconds, of `--inject-period-ms=`.
pub open spec fn inject_ms_of(v: Seq<char>) -> Option<u32> {
    match parse_unsigned(v, max_inject_ms()) {
        Some(n) => Some((n * 1000) as u32),
        None => None,
    }
}

/// The injection period of `--inject-period-us=`.
pub open spec fn inject_us_of(v: Seq<char>) -> Option<u32> {
    match parse_unsigned(v, u32::MAX as nat) {
        Some(n) => Some(n as u32),
        None => None,
    }
}

/// The emitter interface of `--emitter-iface=`: `sta` (true) or `ap`.
pub open spec fn iface_of(v: Seq<char>) -> Option<bool> {
    if v == "sta"@ {
        Some(true)
    } else if v == "ap"@ {
        Some(false)
    } else {
        None
    }
}

/// The channel of `--set-channel=`.
pub open spec fn channel_of(v: Seq<char>) -> Option<u8> {
    match parse_unsigned(v, 255) {
        Some(n) => Some(n as u8),
        None => None,
    }
}

/// A free-text value, with quoted spaces turned back into spaces.
pub open spec fn text_arg(av: Seq<Seq<char>>, name: Seq<char>, old: Seq<char>) -> Seq<char> {
    match named_value(av, name) {
        Some(v) => decode_spaces(v),
        None => old,
    }
}

/// A free-text value, when given, fits in a 32-byte text field.
pub open spec fn text_fits(av: Seq<Seq<char>>, name: Seq<char>) -> bool {
    named_value(av, name) matches Some(v) ==> utf8_len(v) <= TEXT_CAPACITY
}

/// The free-text values of `set-wifi` all fit in their fields; a longer one
/// is a fatal error of the command.
pub open spec fn set_wifi_texts_fit(av: Seq<Seq<char>>) -> bool {
    &&& text_fits(av, "sta-ssid"@)
    &&& text_fits(av, "sta-password"@)
    &&& text_fits(av, "ap-ssid"@)
    &&& text_fits(av, "ap-password"@)
}

/// The radio part of `set-wifi`: `--mode`, `--collection`, `--set-channel`.
pub open spec fn wifi_radio_spec(c: ConfigModel, av: Seq<Seq<char>>) -> (ConfigModel, Seq<Opt>) {
    let mode = spec_arg(av, "mode"@, |v: Seq<char>| node_mode_of(v));
    let coll = spec_arg(av, "collection"@, |v: Seq<char>| collection_of(v));
    let chan = spec_arg(av, "set-channel"@, |v: Seq<char>| channel_of(v));
    (
        ConfigModel {
            node_mode: updated(mode, c.node_mode),
            collection_mode: updated(coll, c.collection_mode),
            channel: updated(chan, c.channel),
            ..c
        },
        refusal(mode, Opt::Mode) + refusal(coll, Opt::Collection) + refusal(chan, Opt::SetChannel),
    )
}

/// The credentials part of `set-wifi`: `--sta-ssid`, `--sta-password`,
/// `--ap-ssid`, `--ap-password`, each with quoted spaces restored.
pub open spec fn wifi_texts_spec(c: ConfigModel, av: Seq<Seq<char>>) -> ConfigModel {
    ConfigModel {
        sta_ssid: text_arg(av, "sta-ssid"@, c.sta_ssid),
        sta_password: text_arg(av, "sta-password"@, c.sta_password),
        ap_ssid: text_arg(av, "ap-ssid"@, c.ap_ssid),
        ap_password: text_arg(av, "ap-password"@, c.ap_password),
        ..c
    }
}

/// The softAP part of `set-wifi`: `--ap-dhcp`, `--ap-leases`, `--ap-burst`.
pub open spec fn wifi_ap_spec(c: ConfigModel, av: Seq<Seq<char>>) -> (ConfigModel, Seq<Opt>) {
    let dhcp = on_off_arg(av, "ap-dhcp"@);
    let leases = spec_arg(av, "ap-leases"@, |v: Seq<char>| lease_count_of(v));
    let burst = on_off_arg(av, "ap-burst"@);
    (
        ConfigModel {
            serve_dhcp: updated(dhcp, c.serve_dhcp),
            ap_lease_count: updated(leases, c.ap_lease_count),
            ap_sync_burst: updated(burst, c.ap_sync_burst),
            ..c
        },
        refusal(dhcp, Opt::ApDhcp) + refusal(leases, Opt::ApLeases) + refusal(burst, Opt::ApBurst),
    )
}

/// The peer part of `set-wifi`: `--peer-mac` and `--ht40`.
pub open spec fn wifi_peer_spec(c: ConfigModel, av: Seq<Seq<char>>) -> (ConfigModel, Seq<Opt>) {
    let peer = spec_arg(av, "peer-mac"@, |v: Seq<char>| peer_of(v));
    let ht40 = spec_arg(av, "ht40"@, |v: Seq<char>| ht40_of(v));
    (
        ConfigModel {
            peer_mac: updated(peer, c.peer_mac),
            ht40_secondary: updated(ht40, c.ht40_secondary),
            ..c
        },
        refusal(peer, Opt::PeerMac) + refusal(ht40, Opt::Ht40),
    )
}

/// The emitter part of `set-wifi`: `--inject-period-ms`,
/// `--inject-period-us` (applied after the former, so it wins) and
/// `--emitter-iface`.
pub open spec fn wifi_emitter_spec(c: ConfigModel, av: Seq<Seq<char>>) -> (ConfigModel, Seq<Opt>) {
    let ms = spec_arg(av, "inject-period-ms"@, |v: Seq<char>| inject_ms_of(v));
    let us = spec_arg(av, "inject-period-us"@, |v: Seq<char>| inject_us_of(v));
    let iface = spec_arg(av, "emitter-iface"@, |v: Seq<char>| iface_of(v));
    (
        ConfigModel {
            inject_period_us: updated(us, updated(ms, c.inject_period_us)),
            emitter_use_sta_if: updated(iface, c.emitter_use_sta_if),
            ..c
        },
        refusal(ms, Opt::InjectPeriodMs) + refusal(us, Opt::InjectPeriodUs) + refusal(
            iface,
            Opt::EmitterIface,
        ),
    )
}

/// `set-wifi`: the operational mode, collection mode, channel, station and
/// softAP credentials, softAP DHCP / lease pool / burst, peer address,
/// HT40 secondary channel, injection period and emitter interface. Each
/// option that is given with an acceptable value replaces its setting, and
/// the refused options are reported in that order.
pub open spec fn set_wifi_spec(c: ConfigModel, av: Seq<Seq<char>>) -> (ConfigModel, Seq<Opt>) {
    let r = wifi_radio_spec(c, av);
    let t = wifi_texts_spec(r.0, av);
    let a = wifi_ap_spec(t, av);
    let p = wifi_peer_spec(a.0, av);
    let e = wifi_emitter_spec(p.0, av);
    (e.0, r.1 + a.1 + p.1 + e.1)
}

fn read_node_mode(args: &[&str]) -> (r: Arg<NodeMode>)
    ensures
        r == spec_arg(arg_views(args@), "mode"@, |v: Seq<char>| node_mode_of(v)),
{
    match named_argument(args, "mode") {
        None => Arg::Absent,
        Some(v) => {
            let v = v.as_str();
            if str_eq(v, "station") {
                Arg::Given(NodeMode::WifiStation)
            } else if str_eq(v, "sniffer") {
                Arg::Given(NodeMode::WifiSniffer)
            } else if str_eq(v, "wifi-ap") {
                Arg::Given(NodeMode::WifiAccessPoint)
            } else if str_eq(v, "ht20-emitter") {
                Arg::Given(NodeMode::Ht20Emitter)
            } else if str_eq(v, "ht40-emitter") {
                Arg::Given(NodeMode::Ht40Emitter)
            } else if str_eq(v, "esp-now-central") {
                Arg::Given(NodeMode::EspNowCentral)
            } else if str_eq(v, "esp-now-peripheral") {
                Arg::Given(NodeMode::EspNowPeripheral)
            } else if str_eq(v, "esp-now-fast-source") || str_eq(v, "esp-now-simplex-source") {
                Arg::Given(NodeMode::EspNowFastSource)
            } else if str_eq(v, "esp-now-fast-collector") || str_eq(v, "esp-now-simplex-peer") {
                Arg::Given(NodeMode::EspNowFastCollector)
            } else {
                Arg::Refused
            }
        },
    }
}

fn read_collection(args: &[&str]) -> (r: Arg<CollectionMode>)
    ensures
        r == spec_arg(arg_views(args@), "collection"@, |v: Seq<char>| collection_of(v)),
{
    match named_argument(args, "collection") {
        None => Arg::Absent,
        Some(v) => {
            let v = v.as_str();
            if str_eq(v, "collector") {
                Arg::Given(CollectionMode::Collector)
            } else if str_eq(v, "listener") {
                Arg::Given(CollectionMode::Listener)
            } else {
                Arg::Refused
            }
        },
    }
}

fn read_channel(args: &[&str]) -> (r: Arg<u8>)
    ensures
        r == spec_arg(arg_views(args@), "set-channel"@, |v: Seq<char>| channel_of(v)),
{
    match named_argument(args, "set-channel") {
        None => Arg::Absent,
        Some(v) => match parse_bounded(v.as_str(), 255) {
            Some(n) => Arg::Given(n as u8),
            None => Arg::Refused,
        },
    }
}

fn read_leases(args: &[&str]) -> (r: Arg<u8>)
    ensures
        r == spec_arg(arg_views(args@), "ap-leases"@, |v: Seq<char>| lease_count_of(v)),
{
    match named_argument(args, "ap-leases") {
        None => Arg::Absent,
        Some(v) => match parse_bounded(v.as_str(), 255) {
            Some(n) => if 1 <= n && n <= 8 {
                Arg::Given(n as u8)
            } else {
                Arg::Refused
            },
            None => Arg::Refused,
        },
    }
}

fn read_peer(args: &[&str]) -> (r: Arg<Option<[u8; 6]>>)
    ensures
        match spec_arg(arg_views(args@), "peer-mac"@, |v: Seq<char>| peer_of(v)) {
            Arg::Absent => r is Absent,
            Arg::Refused => r is Refused,
            Arg::Given(p) => r matches Arg::Given(q) && crate::config::mac_view(q) == p,
        },
{
    match named_argument(args, "peer-mac") {
        None => Arg::Absent,
        Some(v) => {
            let v = v.as_str();
            if v.unicode_len() == 0 {
                Arg::Given(None)
            } else {
                match parse_mac(v) {
                    Some(m) => Arg::Given(Some(m)),
                    None => Arg::Refused,
                }
            }
        },
    }
}

fn read_ht40(args: &[&str]) -> (r: Arg<Option<SecondaryChannel>>)
    ensures
        r == spec_arg(arg_views(args@), "ht40"@, |v: Seq<char>| ht40_of(v)),
{
    match named_argument(args, "ht40") {
        None => Arg::Absent,
        Some(v) => {
            let v = v.as_str();
            if str_eq(v, "above") {
                Arg::Given(Some(SecondaryChannel::Above))
            } else if str_eq(v, "below") {
                Arg::Given(Some(SecondaryChannel::Below))
            } else if str_eq(v, "none") || str_eq(v, "off") {
                Arg::Given(None)
            } else {
                Arg::Refused
            }
        },
    }
}

fn read_inject_ms(args: &[&str]) -> (r: Arg<u32>)
    ensures
        r == spec_arg(arg_views(args@), "inject-period-ms"@, |v: Seq<char>| inject_ms_of(v)),
{
    match named_argument(args, "inject-period-ms") {
        None => Arg::Absent,
        Some(v) => match parse_bounded(v.as_str(), 4294967) {
            Some(n) => Arg::Given((n * 1000) as u32),
            None => Arg::Refused,
        },
    }
}

fn read_inject_us(args: &[&str]) -> (r: Arg<u32>)
    ensures
        r == spec_arg(arg_views(args@), "inject-period-us"@, |v: Seq<char>| inject_us_of(v)),
{
    match named_argument(args, "inject-period-us") {
        None => Arg::Absent,
        Some(v) => match parse_bounded(v.as_str(), 4294967295) {
            Some(n) => Arg::Given(n as u32),
            None => Arg::Refused,
        },
    }
}

fn read_iface(args: &[&str]) -> (r: Arg<bool>)
    ensures
        r == spec_arg(arg_views(args@), "emitter-iface"@, |v: Seq<char>| iface_of(v)),
{
    match named_argument(args, "emitter-iface") {
        None => Arg::Absent,
        Some(v) => {
            let v = v.as_str();
            if str_eq(v, "sta") {
                Arg::Given(true)
            } else if str_eq(v, "ap") {
                Arg::Given(false)
            } else {
                Arg::Refused
            }
        },
    }
}

/// Reads the free-text option `name` into a text field.
fn read_text(args: &[&str], name: &str) -> (r: Option<heapless::String<32>>)
    requires
        text_fits(arg_views(args@), name@),
    ensures
        match named_value(arg_views(args@), name@) {
            Some(v) => r is Some && text_chars(r->0) == decode_spaces(v),
            None => r is None,
        },
{
    match named_argument(args, name) {
        None => None,
        Some(v) => Some(text_field(v.as_str(), true).unwrap()),
    }
}

fn set_wifi_radio(config: &mut UserConfig, args: &[&str], refused: &mut Vec<Opt>)
    ensures
        final(config)@ == wifi_radio_spec(old(config)@, arg_views(args@)).0,
        final(refused)@ == old(refused)@ + wifi_radio_spec(old(config)@, arg_views(args@)).1,
{
    let ghost r0 = refused@;
    let mode = read_node_mode(args);
    if let Arg::Given(m) = mode {
        config.node_mode = m;
    }
    note(refused, &mode, Opt::Mode);
    let coll = read_collection(args);
    if let Arg::Given(m) = coll {
        config.collection_mode = m;
    }
    note(refused, &coll, Opt::Collection);
    let chan = read_channel(args);
    if let Arg::Given(n) = chan {
        config.channel = n;
    }
    note(refused, &chan, Opt::SetChannel);
    assert(final(config)@ =~= wifi_radio_spec(old(config)@, arg_views(args@)).0);
    assert(refused@ =~= r0 + wifi_radio_spec(old(config)@, arg_views(args@)).1);
}

fn set_text(field: &mut heapless::String<32>, args: &[&str], name: &str)
    requires
        text_fits(arg_views(args@), name@),
    ensures
        text_chars(*final(field)) == text_arg(arg_views(args@), name@, text_chars(*old(field))),
{
    if let Some(t) = read_text(args, name) {
        *field = t;
    }
}

fn set_wifi_texts(config: &mut UserConfig, args: &[&str])
    requires
        set_wifi_texts_fit(arg_views(args@)),
    ensures
        final(config)@ == wifi_texts_spec(old(config)@, arg_views(args@)),
{
    set_text(&mut config.sta_ssid, args, "sta-ssid");
    set_text(&mut config.sta_password, args, "sta-password");
    set_text(&mut config.ap_ssid, args, "ap-ssid");
    set_text(&mut config.ap_password, args, "ap-password");
    assert(final(config)@ =~= wifi_texts_spec(old(config)@, arg_views(args@)));
}

fn set_wifi_ap(config: &mut UserConfig, args: &[&str], refused: &mut Vec<Opt>)
    ensures
        final(config)@ == wifi_ap_spec(old(config)@, arg_views(args@)).0,
        final(refused)@ == old(refused)@ + wifi_ap_spec(old(config)@, arg_views(args@)).1,
{
    let ghost r0 = refused@;
    let dhcp = read_on_off(args, "ap-dhcp");
    if let Arg::Given(b) = dhcp {
        config.serve_dhcp = b;
    }
    note(refused, &dhcp, Opt::ApDhcp);
    let leases = read_leases(args);
    if let Arg::Given(n) = leases {
        config.ap_lease_count = n;
    }
    note(refused, &leases, Opt::ApLeases);
    let burst = read_on_off(args, "ap-burst");
    if let Arg::Given(b) = burst {
        config.ap_sync_burst = b;
    }
    note(refused, &burst, Opt::ApBurst);
    assert(final(config)@ =~= wifi_ap_spec(old(config)@, arg_views(args@)).0);
    assert(refused@ =~= r0 + wifi_ap_spec(old(config)@, arg_views(args@)).1);
}

fn set_wifi_peer(config: &mut UserConfig, args: &[&str], refused: &mut Vec<Opt>)
    ensures
        final(config)@ == wifi_peer_spec(old(config)@, arg_views(args@)).0,
        final(refused)@ == old(refused)@ + wifi_peer_spec(old(config)@, arg_views(args@)).1,
{
    let ghost r0 = refused@;
    let peer = read_peer(args);
    if let Arg::Given(p) = peer {
        config.peer_mac = p;
    }
    note(refused, &peer, Opt::PeerMac);
    let ht40 = read_ht40(args);
    if let Arg::Given(h) = ht40 {
        config.ht40_secondary = h;
    }
    note(refused, &ht40, Opt::Ht40);
    proof {
        let av = arg_views(args@);
        let pspec = spec_arg(av, "peer-mac"@, |v: Seq<char>| peer_of(v));
        assert(refusal(peer, Opt::PeerMac) == refusal(pspec, Opt::PeerMac));
    }
    assert(final(config)@ =~= wifi_peer_spec(old(config)@, arg_views(args@)).0);
    assert(refused@ =~= r0 + wifi_peer_spec(old(config)@, arg_views(args@)).1);
}

fn set_wifi_emitter(config: &mut UserConfig, args: &[&str], refused: &mut Vec<Opt>)
    ensures
        final(config)@ == wifi_emitter_spec(old(config)@, arg_views(args@)).0,
        final(refused)@ == old(refused)@ + wifi_emitter_spec(old(config)@, arg_views(args@)).1,
{
    let ghost r0 = refused@;
    let ms = read_inject_ms(args);
    if let Arg::Given(p) = ms {
        config.inject_period_us = p;
    }
    note(refused, &ms, Opt::InjectPeriodMs);
    let us = read_inject_us(args);
    if let Arg::Given(p) = us {
        config.inject_period_us = p;
    }
    note(refused, &us, Opt::InjectPeriodUs);
    let iface = read_iface(args);
    if let Arg::Given(b) = iface {
        config.emitter_use_sta_if = b;
    }
    note(refused, &iface, Opt::EmitterIface);
    assert(final(config)@ =~= wifi_emitter_spec(old(config)@, arg_views(args@)).0);
    assert(refused@ =~= r0 + wifi_emitter_spec(old(config)@, arg_views(args@)).1);
}

fn text_arg_fits(args: &[&str], name: &str) -> (r: bool)
    ensures
        r == text_fits(arg_views(args@), name@),
{
    match named_argument(args, name) {
        None => true,
        Some(v) => v.as_str().as_bytes().len() <= TEXT_CAPACITY,
    }
}

/// Whether every free-text value of a `set-wifi` command line fits in its
/// 32-byte field, which `set_wifi` needs.
pub fn wifi_texts_fit(args: &[&str]) -> (r: bool)
    ensures
        r == set_wifi_texts_fit(arg_views(args@)),
{
    text_arg_fits(args, "sta-ssid") && text_arg_fits(args, "sta-password") && text_arg_fits(
        args,
        "ap-ssid",
    ) && text_arg_fits(args, "ap-password")
}

/// The `set-wifi` command. A free-text value longer than its 32-byte field
/// is a fatal error of the command, so the caller checks the lengths first.
pub fn set_wifi(config: &mut UserConfig, args: &[&str]) -> (refused: Vec<Opt>)
    requires
        set_wifi_texts_fit(arg_views(args@)),
    ensures
        final(config)@ == set_wifi_spec(old(config)@, arg_views(args@)).0,
        refused@ == set_wifi_spec(old(config)@, arg_views(args@)).1,
{
    let mut refused = Vec::new();
    set_wifi_radio(config, args, &mut refused);
    set_wifi_texts(config, args);
    set_wifi_ap(config, args, &mut refused);
    set_wifi_peer(config, args, &mut refused);
    set_wifi_emitter(config, args, &mut refused);
    proof {
        let av = arg_views(args@);
        let r = wifi_radio_spec(old(config)@, av);
        let a = wifi_ap_spec(wifi_texts_spec(r.0, av), av);
        let p = wifi_peer_spec(a.0, av);
        let e = wifi_emitter_spec(p.0, av);
        assert(refused@ =~= r.1 + a.1 + p.1 + e.1);
    }
    refused
}

// ---------------------------------------------------------------- set-csi

/// An acquisition flag of the ESP32-C5 / ESP32-C6 settings after a switch.
pub open spec fn flag(a: Arg<bool>, old: u32) -> u32 {
    match a {
        Arg::Given(b) => if b {
            1
        } else {
            0
        },
        _ => old,
    }
}

/// The classic-chip part of `set-csi`: `--lltf`, `--htltf`, `--stbc-htltf`
/// and `--ltf-merge` switch their LTF acquisition on or off.
pub open spec fn classic_csi_spec(k: crate::config::ClassicCsi, av: Seq<Seq<char>>) -> (crate::config::ClassicCsi, Seq<Opt>) {
    let l = switch_arg(av, "lltf"@);
    let h = switch_arg(av, "htltf"@);
    let s = switch_arg(av, "stbc-htltf"@);
    let m = switch_arg(av, "ltf-merge"@);
    (
        crate::config::ClassicCsi {
            lltf_en: updated(l, k.lltf_en),
            htltf_en: updated(h, k.htltf_en),
            stbc_htltf2_en: updated(s, k.stbc_htltf2_en),
            ltf_merge_en: updated(m, k.ltf_merge_en),
            ..k
        },
        refusal(l, Opt::Lltf) + refusal(h, Opt::Htltf) + refusal(s, Opt::StbcHtltf) + refusal(
            m,
            Opt::LtfMerge,
        ),
    )
}

/// The preset named by `--preset=`; `default` is the only one.
pub open spec fn preset_of(v: Seq<char>) -> Option<bool> {
    if v == "default"@ {
        Some(true)
    } else {
        None
    }
}

/// The chip's default ESP32-C5 / ESP32-C6 settings; the settings of the
/// ESP32-C5 are the ones with the forced L-LTF switch.
pub open spec fn he_default(h: crate::config::HeCsi) -> crate::config::HeCsi {
    let chip = if h.acquire_csi_force_lltf is Some { Chip::Esp32C5 } else { Chip::Esp32C6 };
    match crate::config::default_csi(chip) {
        CsiSettings::He(d) => d,
        CsiSettings::Classic(_) => h,
    }
}

/// A switch that exists only when the settings have the field.
pub open spec fn optional_switch(av: Seq<Seq<char>>, name: Seq<char>, field: Option<bool>) -> Arg<bool> {
    if field is Some {
        switch_arg(av, name)
    } else {
        Arg::Absent
    }
}

/// The ESP32-C5 / ESP32-C6 part of `set-csi`. `--preset=default` first
/// restores the chip's defaults; then `--csi`, `--csi-legacy`, `--csi-ht20`,
/// `--csi-ht40` and `--dump-ack` switch their flag, `--val-scale-cfg=<u32>`
/// sets the value scale, and on the ESP32-C5 `--csi-force-lltf` and
/// `--csi-vht` switch their acquisition.
pub open spec fn he_csi_spec(h: crate::config::HeCsi, av: Seq<Seq<char>>) -> (crate::config::HeCsi, Seq<Opt>) {
    let p = spec_arg(av, "preset"@, |v: Seq<char>| preset_of(v));
    let b = if p is Given { he_default(h) } else { h };
    let e = switch_arg(av, "csi"@);
    let l = switch_arg(av, "csi-legacy"@);
    let h20 = switch_arg(av, "csi-ht20"@);
    let h40 = switch_arg(av, "csi-ht40"@);
    let sc = unsigned_arg(av, "val-scale-cfg"@, u32::MAX as nat);
    let d = switch_arg(av, "dump-ack"@);
    let f = optional_switch(av, "csi-force-lltf"@, b.acquire_csi_force_lltf);
    let v = optional_switch(av, "csi-vht"@, b.acquire_csi_vht);
    (
        crate::config::HeCsi {
            enable: flag(e, b.enable),
            acquire_csi_legacy: flag(l, b.acquire_csi_legacy),
            acquire_csi_ht20: flag(h20, b.acquire_csi_ht20),
            acquire_csi_ht40: flag(h40, b.acquire_csi_ht40),
            val_scale_cfg: match sc {
                Arg::Given(n) => n as u32,
                _ => b.val_scale_cfg,
            },
            dump_ack_en: flag(d, b.dump_ack_en),
            acquire_csi_force_lltf: match f {
                Arg::Given(x) => Some(x),
                _ => b.acquire_csi_force_lltf,
            },
            acquire_csi_vht: match v {
                Arg::Given(x) => Some(x),
                _ => b.acquire_csi_vht,
            },
            ..b
        },
        refusal(p, Opt::Preset) + refusal(e, Opt::Csi) + refusal(l, Opt::CsiLegacy) + refusal(
            h20,
            Opt::CsiHt20,
        ) + refusal(h40, Opt::CsiHt40) + refusal(sc, Opt::ValScaleCfg) + refusal(d, Opt::DumpAck)
            + refusal(f, Opt::CsiForceLltf) + refusal(v, Opt::CsiVht),
    )
}

/// `set-csi`: the CSI acquisition switches of the chip the settings belong
/// to.
pub open spec fn set_csi_spec(c: ConfigModel, av: Seq<Seq<char>>) -> (ConfigModel, Seq<Opt>) {
    match c.csi_config {
        CsiSettings::Classic(k) => {
            let r = classic_csi_spec(k, av);
            (ConfigModel { csi_config: CsiSettings::Classic(r.0), ..c }, r.1)
        },
        CsiSettings::He(h) => {
            let r = he_csi_spec(h, av);
            (ConfigModel { csi_config: CsiSettings::He(r.0), ..c }, r.1)
        },
    }
}

fn classic_csi(k: crate::config::ClassicCsi, args: &[&str]) -> (r: (crate::config::ClassicCsi, Vec<Opt>))
    ensures
        r.0 == classic_csi_spec(k, arg_views(args@)).0,
        r.1@ == classic_csi_spec(k, arg_views(args@)).1,
{
    let mut k = k;
    let mut refused = Vec::new();
    let l = read_switch(args, "lltf");
    if let Arg::Given(b) = l {
        k.lltf_en = b;
    }
    note(&mut refused, &l, Opt::Lltf);
    let h = read_switch(args, "htltf");
    if let Arg::Given(b) = h {
        k.htltf_en = b;
    }
    note(&mut refused, &h, Opt::Htltf);
    let s = read_switch(args, "stbc-htltf");
    if let Arg::Given(b) = s {
        k.stbc_htltf2_en = b;
    }
    note(&mut refused, &s, Opt::StbcHtltf);
    let m = read_switch(args, "ltf-merge");
    if let Arg::Given(b) = m {
        k.ltf_merge_en = b;
    }
    note(&mut refused, &m, Opt::LtfMerge);
    (k, refused)
}

fn set_flag(field: &mut u32, a: &Arg<bool>)
    ensures
        *final(field) == flag(*a, *old(field)),
{
    if let Arg::Given(b) = a {
        *field = if *b {
            1
        } else {
            0
        };
    }
}

fn he_csi_flags(h: crate::config::HeCsi, args: &[&str], refused: &mut Vec<Opt>) -> (r: crate::config::HeCsi)
    ensures
        r == (crate::config::HeCsi {
            enable: flag(switch_arg(arg_views(args@), "csi"@), h.enable),
            acquire_csi_legacy: flag(switch_arg(arg_views(args@), "csi-legacy"@), h.acquire_csi_legacy),
            acquire_csi_ht20: flag(switch_arg(arg_views(args@), "csi-ht20"@), h.acquire_csi_ht20),
            acquire_csi_ht40: flag(switch_arg(arg_views(args@), "csi-ht40"@), h.acquire_csi_ht40),
            ..h
        }),
        final(refused)@ == old(refused)@ + refusal(switch_arg(arg_views(args@), "csi"@), Opt::Csi)
            + refusal(switch_arg(arg_views(args@), "csi-legacy"@), Opt::CsiLegacy)
            + refusal(switch_arg(arg_views(args@), "csi-ht20"@), Opt::CsiHt20)
            + refusal(switch_arg(arg_views(args@), "csi-ht40"@), Opt::CsiHt40),
{
    let mut h = h;
    let e = read_switch(args, "csi");
    set_flag(&mut h.enable, &e);
    note(refused, &e, Opt::Csi);
    let l = read_switch(args, "csi-legacy");
    set_flag(&mut h.acquire_csi_legacy, &l);
    note(refused, &l, Opt::CsiLegacy);
    let h20 = read_switch(args, "csi-ht20");
    set_flag(&mut h.acquire_csi_ht20, &h20);
    note(refused, &h20, Opt::CsiHt20);
    let h40 = read_switch(args, "csi-ht40");
    set_flag(&mut h.acquire_csi_ht40, &h40);
    note(refused, &h40, Opt::CsiHt40);
    h
}

fn he_csi(h0: crate::config::HeCsi, args: &[&str]) -> (r: (crate::config::HeCsi, Vec<Opt>))
    ensures
        r.0 == he_csi_spec(h0, arg_views(args@)).0,
        r.1@ == he_csi_spec(h0, arg_views(args@)).1,
{
    let ghost av = arg_views(args@);
    let mut refused = Vec::new();
    let preset = match named_argument(args, "preset") {
        None => Arg::Absent,
        Some(v) => if str_eq(v.as_str(), "default") {
            Arg::Given(true)
        } else {
            Arg::Refused
        },
    };
    note(&mut refused, &preset, Opt::Preset);
    let mut h = h0;
    if let Arg::Given(_) = preset {
        let chip = match h.acquire_csi_force_lltf {
            Some(_) => Chip::Esp32C5,
            None => Chip::Esp32C6,
        };
        if let CsiSettings::He(d) = crate::config::default_csi_settings(chip) {
            h = d;
        }
    }
    let ghost b = h;
    let mut h = he_csi_flags(h, args, &mut refused);
    let sc = read_unsigned(args, "val-scale-cfg", 4294967295);
    if let Arg::Given(n) = sc {
        h.val_scale_cfg = n as u32;
    }
    note(&mut refused, &sc, Opt::ValScaleCfg);
    let d = read_switch(args, "dump-ack");
    set_flag(&mut h.dump_ack_en, &d);
    note(&mut refused, &d, Opt::DumpAck);
    let f = match h.acquire_csi_force_lltf {
        Some(_) => read_switch(args, "csi-force-lltf"),
        None => Arg::Absent,
    };
    if let Arg::Given(x) = f {
        h.acquire_csi_force_lltf = Some(x);
    }
    note(&mut refused, &f, Opt::CsiForceLltf);
    let v = match h.acquire_csi_vht {
        Some(_) => read_switch(args, "csi-vht"),
        None => Arg::Absent,
    };
    if let Arg::Given(x) = v {
        h.acquire_csi_vht = Some(x);
    }
    note(&mut refused, &v, Opt::CsiVht);
    proof {
        let sa = unsigned_arg(av, "val-scale-cfg"@, u32::MAX as nat);
        assert(refusal(sc, Opt::ValScaleCfg) == refusal(sa, Opt::ValScaleCfg));
        assert(h == he_csi_spec(h0, av).0);
        assert(refused@ =~= he_csi_spec(h0, av).1);
    }
    (h, refused)
}

/// The `set-csi` command.
pub fn set_csi(config: &mut UserConfig, args: &[&str]) -> (refused: Vec<Opt>)
    ensures
        final(config)@ == set_csi_spec(old(config)@, arg_views(args@)).0,
        refused@ == set_csi_spec(old(config)@, arg_views(args@)).1,
{
    match config.csi_config {
        CsiSettings::Classic(k) => {
            let (k, refused) = classic_csi(k, args);
            config.csi_config = CsiSettings::Classic(k);
            refused
        },
        CsiSettings::He(h) => {
            let (h, refused) = he_csi(h, args);
            config.csi_config = CsiSettings::He(h);
            refused
        },
    }
}

// ---------------------------------------------------------------- laws

/// A command line with no arguments changes nothing and refuses nothing:
/// every option that is omitted keeps its current state.
pub proof fn lemma_omitted_options_keep_settings(c: ConfigModel)
    ensures
        set_traffic_spec(c, Seq::empty()) == (c, Seq::<Opt>::empty()),
        set_csi_output_spec(c, Seq::empty()).0 == c,
        set_csi_filter_spec(c, Seq::empty()) == (c, Seq::<Opt>::empty()),
        set_io_tasks_spec(c, Seq::empty()) == (c, Seq::<Opt>::empty()),
        set_wifi_spec(c, Seq::empty()) == (c, Seq::<Opt>::empty()),
        set_csi_spec(c, Seq::empty()) == (c, Seq::<Opt>::empty()),
        set_phy_rate_spec(c, Seq::empty()).0 == c,
        set_protocol_spec(c, Seq::empty()).0 == c,
        set_csi_delivery_spec(c, Seq::empty()).0 == c,
{
    let e = Seq::<Seq<char>>::empty();
    assert(set_traffic_spec(c, e).0 =~= c);
    assert(set_traffic_spec(c, e).1 =~= Seq::<Opt>::empty());
    assert(set_csi_output_spec(c, e).0 =~= c);
    assert(set_csi_filter_spec(c, e).0 =~= c);
    assert(set_csi_filter_spec(c, e).1 =~= Seq::<Opt>::empty());
    assert(set_io_tasks_spec(c, e).0 =~= c);
    assert(set_io_tasks_spec(c, e).1 =~= Seq::<Opt>::empty());
    assert(set_wifi_spec(c, e).0 =~= c);
    assert(set_wifi_spec(c, e).1 =~= Seq::<Opt>::empty());
    match c.csi_config {
        CsiSettings::Classic(k) => {
            assert(classic_csi_spec(k, e).0 == k);
        },
        CsiSettings::He(h) => {
            assert(he_csi_spec(h, e).0 == h);
        },
    }
    assert(set_csi_spec(c, e).0 =~= c);
    assert(set_csi_spec(c, e).1 =~= Seq::<Opt>::empty());
    assert(set_phy_rate_spec(c, e).0 =~= c);
    assert(set_protocol_spec(c, e).0 =~= c);
    assert(set_csi_delivery_spec(c, e).0 =~= c);
}

proof fn lemma_small_commands_idempotent(c: ConfigModel, av: Seq<Seq<char>>)
    ensures
        set_traffic_spec(set_traffic_spec(c, av).0, av) == set_traffic_spec(c, av),
        set_csi_output_spec(set_csi_output_spec(c, av).0, av) == set_csi_output_spec(c, av),
        set_csi_filter_spec(set_csi_filter_spec(c, av).0, av) == set_csi_filter_spec(c, av),
        set_io_tasks_spec(set_io_tasks_spec(c, av).0, av) == set_io_tasks_spec(c, av),
{
    assert(set_traffic_spec(set_traffic_spec(c, av).0, av).0 =~= set_traffic_spec(c, av).0);
    assert(set_csi_output_spec(set_csi_output_spec(c, av).0, av).0 =~= set_csi_output_spec(c, av).0);
    assert(set_csi_filter_spec(set_csi_filter_spec(c, av).0, av).0 =~= set_csi_filter_spec(c, av).0);
    assert(set_io_tasks_spec(set_io_tasks_spec(c, av).0, av).0 =~= set_io_tasks_spec(c, av).0);
}

proof fn lemma_choice_commands_idempotent(c: ConfigModel, av: Seq<Seq<char>>)
    ensures
        set_phy_rate_spec(set_phy_rate_spec(c, av).0, av) == set_phy_rate_spec(c, av),
        set_protocol_spec(set_protocol_spec(c, av).0, av) == set_protocol_spec(c, av),
        set_csi_delivery_spec(set_csi_delivery_spec(c, av).0, av) == set_csi_delivery_spec(c, av),
{
    assert(set_phy_rate_spec(set_phy_rate_spec(c, av).0, av).0 =~= set_phy_rate_spec(c, av).0);
    assert(set_protocol_spec(set_protocol_spec(c, av).0, av).0 =~= set_protocol_spec(c, av).0);
    assert(set_csi_delivery_spec(set_csi_delivery_spec(c, av).0, av).0 =~= set_csi_delivery_spec(
        c,
        av,
    ).0);
}

#[verifier::spinoff_prover]
#[verifier::rlimit(80)]
proof fn lemma_set_wifi_idempotent(c: ConfigModel, av: Seq<Seq<char>>)
    ensures
        set_wifi_spec(set_wifi_spec(c, av).0, av) == set_wifi_spec(c, av),
{
    let r = wifi_radio_spec(c, av);
    let t = wifi_texts_spec(r.0, av);
    let a = wifi_ap_spec(t, av);
    let p = wifi_peer_spec(a.0, av);
    let e = wifi_emitter_spec(p.0, av);
    let w = e.0;
    let r2 = wifi_radio_spec(w, av);
    assert(r2.0 =~= w);
    let t2 = wifi_texts_spec(r2.0, av);
    assert(t2 =~= w);
    let a2 = wifi_ap_spec(t2, av);
    assert(a2.0 =~= w);
    let p2 = wifi_peer_spec(a2.0, av);
    assert(p2.0 =~= w);
    let e2 = wifi_emitter_spec(p2.0, av);
    assert(e2.0 =~= w);
}

proof fn lemma_set_csi_idempotent(c: ConfigModel, av: Seq<Seq<char>>)
    ensures
        set_csi_spec(set_csi_spec(c, av).0, av) == set_csi_spec(c, av),
{
    match c.csi_config {
        CsiSettings::Classic(k) => {
            let k1 = classic_csi_spec(k, av).0;
            assert(classic_csi_spec(k1, av).0 == k1);
        },
        CsiSettings::He(h) => {
            let h1 = he_csi_spec(h, av).0;
            assert(he_default(h1) == he_default(h));
            assert(he_csi_spec(h1, av).0 == h1);
            assert(he_csi_spec(h1, av).1 == he_csi_spec(h, av).1);
        },
    }
    assert(set_csi_spec(set_csi_spec(c, av).0, av).0 =~= set_csi_spec(c, av).0);
}

/// Sending the same configuration command twice has the effect of sending
/// it once, and the second time refuses the same options.
pub proof fn lemma_commands_idempotent(c: ConfigModel, av: Seq<Seq<char>>)
    ensures
        set_traffic_spec(set_traffic_spec(c, av).0, av) == set_traffic_spec(c, av),
        set_csi_output_spec(set_csi_output_spec(c, av).0, av) == set_csi_output_spec(c, av),
        set_csi_filter_spec(set_csi_filter_spec(c, av).0, av) == set_csi_filter_spec(c, av),
        set_io_tasks_spec(set_io_tasks_spec(c, av).0, av) == set_io_tasks_spec(c, av),
        set_wifi_spec(set_wifi_spec(c, av).0, av) == set_wifi_spec(c, av),
        set_csi_spec(set_csi_spec(c, av).0, av) == set_csi_spec(c, av),
        set_phy_rate_spec(set_phy_rate_spec(c, av).0, av) == set_phy_rate_spec(c, av),
        set_protocol_spec(set_protocol_spec(c, av).0, av) == set_protocol_spec(c, av),
        set_csi_delivery_spec(set_csi_delivery_spec(c, av).0, av) == set_csi_delivery_spec(c, av),
{
    lemma_small_commands_idempotent(c, av);
    lemma_choice_commands_idempotent(c, av);
    lemma_set_wifi_idempotent(c, av);
    lemma_set_csi_idempotent(c, av);
}

// ---------------------------------------------------------------- option laws

/// Two command lines give every option other than `name` the same value.
pub open spec fn same_args_except(av1: Seq<Seq<char>>, av2: Seq<Seq<char>>, name: Seq<char>) -> bool {
    forall|n: Seq<char>| n != name ==> #[trigger] named_value(av1, n) == named_value(av2, n)
}

/// What `set-wifi` does after its radio part: the credentials, softAP,
/// peer and emitter parts in turn, with their refusals.
pub open spec fn wifi_rest_spec(x: ConfigModel, av: Seq<Seq<char>>) -> (ConfigModel, Seq<Opt>) {
    let t = wifi_texts_spec(x, av);
    let a = wifi_ap_spec(t, av);
    let p = wifi_peer_spec(a.0, av);
    let e = wifi_emitter_spec(p.0, av);
    (e.0, a.1 + p.1 + e.1)
}

proof fn lemma_set_wifi_split(c: ConfigModel, av: Seq<Seq<char>>)
    ensures
        set_wifi_spec(c, av) == (
            wifi_rest_spec(wifi_radio_spec(c, av).0, av).0,
            wifi_radio_spec(c, av).1 + wifi_rest_spec(wifi_radio_spec(c, av).0, av).1,
        ),
{
    let r = wifi_radio_spec(c, av);
    let t = wifi_texts_spec(r.0, av);
    let a = wifi_ap_spec(t, av);
    let p = wifi_peer_spec(a.0, av);
    let e = wifi_emitter_spec(p.0, av);
    assert(r.1 + a.1 + p.1 + e.1 =~= r.1 + (a.1 + p.1 + e.1));
}

/// The parts after the radio part neither read nor write the mode.
#[verifier::spinoff_prover]
#[verifier::rlimit(80)]
proof fn lemma_wifi_rest_keeps_mode(x: ConfigModel, m: NodeMode, av1: Seq<Seq<char>>, av2: Seq<Seq<char>>)
    requires
        same_args_except(av1, av2, "mode"@),
    ensures
        wifi_rest_spec(ConfigModel { node_mode: m, ..x }, av1) == (
            ConfigModel { node_mode: m, ..wifi_rest_spec(x, av2).0 },
            wifi_rest_spec(x, av2).1,
        ),
{
    lemma_set_wifi_names_distinct();
    assert(named_value(av1, "sta-ssid"@) == named_value(av2, "sta-ssid"@));
    assert(named_value(av1, "sta-password"@) == named_value(av2, "sta-password"@));
    assert(named_value(av1, "ap-ssid"@) == named_value(av2, "ap-ssid"@));
    assert(named_value(av1, "ap-password"@) == named_value(av2, "ap-password"@));
    assert(named_value(av1, "ap-dhcp"@) == named_value(av2, "ap-dhcp"@));
    assert(named_value(av1, "ap-leases"@) == named_value(av2, "ap-leases"@));
    assert(named_value(av1, "ap-burst"@) == named_value(av2, "ap-burst"@));
    assert(named_value(av1, "peer-mac"@) == named_value(av2, "peer-mac"@));
    assert(named_value(av1, "ht40"@) == named_value(av2, "ht40"@));
    assert(named_value(av1, "inject-period-ms"@) == named_value(av2, "inject-period-ms"@));
    assert(named_value(av1, "inject-period-us"@) == named_value(av2, "inject-period-us"@));
    assert(named_value(av1, "emitter-iface"@) == named_value(av2, "emitter-iface"@));
    let x1 = ConfigModel { node_mode: m, ..x };
    assert(wifi_texts_spec(x1, av1) =~= ConfigModel { node_mode: m, ..wifi_texts_spec(x, av2) });
    let t1 = wifi_texts_spec(x1, av1);
    let t2 = wifi_texts_spec(x, av2);
    assert(wifi_ap_spec(t1, av1).0 =~= ConfigModel { node_mode: m, ..wifi_ap_spec(t2, av2).0 });
    let a1 = wifi_ap_spec(t1, av1).0;
    let a2 = wifi_ap_spec(t2, av2).0;
    assert(wifi_peer_spec(a1, av1).0 =~= ConfigModel { node_mode: m, ..wifi_peer_spec(a2, av2).0 });
    let p1 = wifi_peer_spec(a1, av1).0;
    let p2 = wifi_peer_spec(a2, av2).0;
    assert(wifi_emitter_spec(p1, av1).0 =~= ConfigModel { node_mode: m, ..wifi_emitter_spec(p2, av2).0 });
}

/// `set-wifi --mode=<m>`: a mode string selects its mode (see
/// [`lemma_mode_names`]), and anything else keeps the mode and is refused.
/// Either way the mode option acts on the mode alone: the other options of
/// the same command line still apply exactly as they would without it, and
/// a refusal of the mode comes first.
pub proof fn lemma_set_wifi_mode_alone(c: ConfigModel, av1: Seq<Seq<char>>, av2: Seq<Seq<char>>, v: Seq<char>)
    requires
        named_value(av1, "mode"@) == Some(v),
        named_value(av2, "mode"@) is None,
        same_args_except(av1, av2, "mode"@),
    ensures
        set_wifi_spec(c, av1).0 == (ConfigModel {
            node_mode: match node_mode_of(v) {
                Some(m) => m,
                None => c.node_mode,
            },
            ..set_wifi_spec(c, av2).0
        }),
        set_wifi_spec(c, av1).1 == (if node_mode_of(v) is Some {
            Seq::<Opt>::empty()
        } else {
            seq![Opt::Mode]
        }) + set_wifi_spec(c, av2).1,
{
    let m = match node_mode_of(v) {
        Some(m) => m,
        None => c.node_mode,
    };
    let pre = if node_mode_of(v) is Some {
        Seq::<Opt>::empty()
    } else {
        seq![Opt::Mode]
    };
    lemma_wifi_radio_mode(c, av1, av2, v);
    let r2 = wifi_radio_spec(c, av2);
    lemma_set_wifi_split(c, av1);
    lemma_set_wifi_split(c, av2);
    lemma_wifi_rest_keeps_mode(r2.0, m, av1, av2);
    assert(pre + r2.1 + wifi_rest_spec(r2.0, av2).1 =~= pre + (r2.1 + wifi_rest_spec(r2.0, av2).1));
}

/// The radio part of `set-wifi` reads the mode and nothing else differs.
#[verifier::spinoff_prover]
proof fn lemma_wifi_radio_mode(c: ConfigModel, av1: Seq<Seq<char>>, av2: Seq<Seq<char>>, v: Seq<char>)
    requires
        named_value(av1, "mode"@) == Some(v),
        named_value(av2, "mode"@) is None,
        same_args_except(av1, av2, "mode"@),
    ensures
        wifi_radio_spec(c, av1).0 == (ConfigModel {
            node_mode: match node_mode_of(v) {
                Some(m) => m,
                None => c.node_mode,
            },
            ..wifi_radio_spec(c, av2).0
        }),
        wifi_radio_spec(c, av1).1 == (if node_mode_of(v) is Some {
            Seq::<Opt>::empty()
        } else {
            seq![Opt::Mode]
        }) + wifi_radio_spec(c, av2).1,
{
    lemma_set_wifi_names_distinct();
    assert(named_value(av1, "collection"@) == named_value(av2, "collection"@));
    assert(named_value(av1, "set-channel"@) == named_value(av2, "set-channel"@));
    let r1 = wifi_radio_spec(c, av1);
    let r2 = wifi_radio_spec(c, av2);
    assert(r1.0 =~= ConfigModel {
        node_mode: match node_mode_of(v) {
            Some(m) => m,
            None => c.node_mode,
        },
        ..r2.0
    });
    assert(r1.1 =~= (if node_mode_of(v) is Some {
        Seq::<Opt>::empty()
    } else {
        seq![Opt::Mode]
    }) + r2.1);
}

/// The documented mode strings of `set-wifi --mode`, the simplex aliases
/// included, and the mode each selects.
pub proof fn lemma_mode_names()
    ensures
        node_mode_of("sniffer"@) == Some(NodeMode::WifiSniffer),
        node_mode_of("station"@) == Some(NodeMode::WifiStation),
        node_mode_of("wifi-ap"@) == Some(NodeMode::WifiAccessPoint),
        node_mode_of("ht20-emitter"@) == Some(NodeMode::Ht20Emitter),
        node_mode_of("ht40-emitter"@) == Some(NodeMode::Ht40Emitter),
        node_mode_of("esp-now-central"@) == Some(NodeMode::EspNowCentral),
        node_mode_of("esp-now-peripheral"@) == Some(NodeMode::EspNowPeripheral),
        node_mode_of("esp-now-fast-source"@) == Some(NodeMode::EspNowFastSource),
        node_mode_of("esp-now-simplex-source"@) == Some(NodeMode::EspNowFastSource),
        node_mode_of("esp-now-fast-collector"@) == Some(NodeMode::EspNowFastCollector),
        node_mode_of("esp-now-simplex-peer"@) == Some(NodeMode::EspNowFastCollector),
{
    reveal_strlit("sniffer");
    reveal_strlit("station");
    reveal_strlit("wifi-ap");
    reveal_strlit("ht20-emitter");
    reveal_strlit("ht40-emitter");
    reveal_strlit("esp-now-central");
    reveal_strlit("esp-now-peripheral");
    reveal_strlit("esp-now-fast-source");
    reveal_strlit("esp-now-simplex-source");
    reveal_strlit("esp-now-fast-collector");
    reveal_strlit("esp-now-simplex-peer");
    assert("sniffer"@[1] != "station"@[1]);
    assert("esp-now-central"@[0] != "station"@[0]);
    assert("esp-now-central"@[0] != "sniffer"@[0]);
    assert("esp-now-central"@[0] != "wifi-ap"@[0]);
    assert("esp-now-central"@[0] != "ht20-emitter"@[0]);
    assert("esp-now-central"@[0] != "ht40-emitter"@[0]);
    assert("esp-now-peripheral"@[0] != "station"@[0]);
    assert("esp-now-peripheral"@[0] != "sniffer"@[0]);
    assert("esp-now-peripheral"@[0] != "wifi-ap"@[0]);
    assert("esp-now-peripheral"@[0] != "ht20-emitter"@[0]);
    assert("esp-now-peripheral"@[0] != "ht40-emitter"@[0]);
    assert("ht20-emitter"@[2] != "ht40-emitter"@[2]);
    assert("esp-now-central"@[8] != "esp-now-peripheral"@[8]);
    assert("esp-now-central"@[8] != "esp-now-fast-source"@[8]);
    assert("esp-now-peripheral"@[8] != "esp-now-fast-source"@[8]);
    assert("esp-now-central"@[8] != "esp-now-simplex-source"@[8]);
    assert("esp-now-peripheral"@[8] != "esp-now-simplex-source"@[8]);
    assert("esp-now-fast-source"@[8] != "esp-now-simplex-source"@[8]);
    assert("esp-now-central"@[8] != "esp-now-fast-collector"@[8]);
    assert("esp-now-peripheral"@[8] != "esp-now-fast-collector"@[8]);
    assert("esp-now-fast-source"@[13] != "esp-now-fast-collector"@[13]);
    assert("esp-now-simplex-source"@[8] != "esp-now-fast-collector"@[8]);
    assert("esp-now-central"@[8] != "esp-now-simplex-peer"@[8]);
    assert("esp-now-peripheral"@[8] != "esp-now-simplex-peer"@[8]);
    assert("esp-now-fast-source"@[8] != "esp-now-simplex-peer"@[8]);
    assert("esp-now-simplex-source"@[16] != "esp-now-simplex-peer"@[16]);
    assert("esp-now-fast-collector"@[8] != "esp-now-simplex-peer"@[8]);
}

/// The option names of `set-wifi` are pairwise different from `mode`.
proof fn lemma_set_wifi_names_distinct()
    ensures
        "collection"@ != "mode"@,
        "set-channel"@ != "mode"@,
        "sta-ssid"@ != "mode"@,
        "sta-password"@ != "mode"@,
        "ap-ssid"@ != "mode"@,
        "ap-password"@ != "mode"@,
        "ap-dhcp"@ != "mode"@,
        "ap-leases"@ != "mode"@,
        "ap-burst"@ != "mode"@,
        "peer-mac"@ != "mode"@,
        "ht40"@ != "mode"@,
        "inject-period-ms"@ != "mode"@,
        "inject-period-us"@ != "mode"@,
        "emitter-iface"@ != "mode"@,
{
    reveal_strlit("mode");
    reveal_strlit("collection");
    reveal_strlit("set-channel");
    reveal_strlit("sta-ssid");
    reveal_strlit("sta-password");
    reveal_strlit("ap-ssid");
    reveal_strlit("ap-password");
    reveal_strlit("ap-dhcp");
    reveal_strlit("ap-leases");
    reveal_strlit("ap-burst");
    reveal_strlit("peer-mac");
    reveal_strlit("ht40");
    reveal_strlit("inject-period-ms");
    reveal_strlit("inject-period-us");
    reveal_strlit("emitter-iface");
    assert("ht40"@[0] != "mode"@[0]);
}

/// The classic settings after the switch `key` is set to `b`.
pub open spec fn with_classic_switch(k: crate::config::ClassicCsi, key: Seq<char>, b: bool) -> crate::config::ClassicCsi {
    if key == "lltf"@ {
        crate::config::ClassicCsi { lltf_en: b, ..k }
    } else if key == "htltf"@ {
        crate::config::ClassicCsi { htltf_en: b, ..k }
    } else if key == "stbc-htltf"@ {
        crate::config::ClassicCsi { stbc_htltf2_en: b, ..k }
    } else {
        crate::config::ClassicCsi { ltf_merge_en: b, ..k }
    }
}

/// The LTF switches of the classic chips.
pub open spec fn is_classic_switch(key: Seq<char>) -> bool {
    key == "lltf"@ || key == "htltf"@ || key == "stbc-htltf"@ || key == "ltf-merge"@
}

proof fn lemma_classic_switch_names_distinct()
    ensures
        "lltf"@ != "htltf"@,
        "lltf"@ != "stbc-htltf"@,
        "lltf"@ != "ltf-merge"@,
        "htltf"@ != "stbc-htltf"@,
        "htltf"@ != "ltf-merge"@,
        "stbc-htltf"@ != "ltf-merge"@,
{
    reveal_strlit("lltf");
    reveal_strlit("htltf");
    reveal_strlit("stbc-htltf");
    reveal_strlit("ltf-merge");
    assert("lltf"@[0] != "htltf"@[0]);
    assert("lltf"@[0] != "stbc-htltf"@[0]);
    assert("lltf"@[1] != "ltf-merge"@[1]);
    assert("htltf"@[0] != "stbc-htltf"@[0]);
    assert("htltf"@[0] != "ltf-merge"@[0]);
    assert("stbc-htltf"@[0] != "ltf-merge"@[0]);
}

/// `set-csi` on the classic chips: each of `--lltf`, `--htltf`,
/// `--stbc-htltf` and `--ltf-merge`, given a value of the switch
/// vocabulary, sets its LTF switch to that value whatever it was before (a
/// switch turned off can be turned on again), and the other options of the
/// same command line apply exactly as they would without it.
#[verifier::spinoff_prover]
#[verifier::rlimit(80)]
pub proof fn lemma_classic_switch_toggles(
    c: ConfigModel,
    av1: Seq<Seq<char>>,
    av2: Seq<Seq<char>>,
    key: Seq<char>,
    v: Seq<char>,
    b: bool,
)
    requires
        c.csi_config is Classic,
        is_classic_switch(key),
        named_value(av1, key) == Some(v),
        feature_switch(v) == Some(b),
        named_value(av2, key) is None,
        same_args_except(av1, av2, key),
    ensures
        set_csi_spec(c, av1).1 == set_csi_spec(c, av2).1,
        set_csi_spec(c, av2).0.csi_config matches CsiSettings::Classic(k2) && set_csi_spec(c, av1).0
            == (ConfigModel { csi_config: CsiSettings::Classic(with_classic_switch(k2, key, b)), ..c }),
{
    lemma_classic_switch_names_distinct();
    let k = c.csi_config->Classic_0;
    assert(named_value(av1, "lltf"@) == named_value(av2, "lltf"@) || key == "lltf"@);
    assert(named_value(av1, "htltf"@) == named_value(av2, "htltf"@) || key == "htltf"@);
    assert(named_value(av1, "stbc-htltf"@) == named_value(av2, "stbc-htltf"@) || key == "stbc-htltf"@);
    assert(named_value(av1, "ltf-merge"@) == named_value(av2, "ltf-merge"@) || key == "ltf-merge"@);
    assert(classic_csi_spec(k, av1).1 =~= classic_csi_spec(k, av2).1);
}

/// `set-csi` on the ESP32-C5 / ESP32-C6 without a preset:
/// `--val-scale-cfg=<n>` stores any `u32` value as it is, and text that
/// is not one keeps the old value and is refused.
pub proof fn lemma_val_scale_cfg(c: ConfigModel, av: Seq<Seq<char>>, s: Seq<char>)
    requires
        c.csi_config is He,
        named_value(av, "val-scale-cfg"@) == Some(s),
        named_value(av, "preset"@) is None,
    ensures
        set_csi_spec(c, av).0.csi_config is He,
        parse_unsigned(s, u32::MAX as nat) matches Some(n) ==> set_csi_spec(c, av).0.csi_config->He_0.val_scale_cfg == n,
        parse_unsigned(s, u32::MAX as nat) is None ==> {
            &&& set_csi_spec(c, av).0.csi_config->He_0.val_scale_cfg == c.csi_config->He_0.val_scale_cfg
            &&& set_csi_spec(c, av).1.contains(Opt::ValScaleCfg)
        },
{
    let h = c.csi_config->He_0;
    let r = he_csi_spec(h, av);
    if parse_unsigned(s, u32::MAX as nat) is None {
        let e = switch_arg(av, "csi"@);
        let l = switch_arg(av, "csi-legacy"@);
        let h20 = switch_arg(av, "csi-ht20"@);
        let h40 = switch_arg(av, "csi-ht40"@);
        let pre = refusal(spec_arg(av, "preset"@, |v: Seq<char>| preset_of(v)), Opt::Preset) + refusal(e, Opt::Csi)
            + refusal(l, Opt::CsiLegacy) + refusal(h20, Opt::CsiHt20) + refusal(h40, Opt::CsiHt40);
        let sc = unsigned_arg(av, "val-scale-cfg"@, u32::MAX as nat);
        assert(sc is Refused);
        assert((pre + refusal(sc, Opt::ValScaleCfg))[pre.len() as int] == Opt::ValScaleCfg);
        assert(r.1[pre.len() as int] == Opt::ValScaleCfg);
    }
}

/// `set-wifi` credentials: `--sta-ssid`, `--sta-password`, `--ap-ssid` and
/// `--ap-password` each store their value with every quoted-space
/// separator turned back into a space (underscores stay as they are); a
/// value that does not fit its 32-byte field is refused before the
/// command runs (see `wifi_texts_fit`).
pub proof fn lemma_set_wifi_texts(c: ConfigModel, av: Seq<Seq<char>>)
    ensures
        named_value(av, "sta-ssid"@) matches Some(s) ==> set_wifi_spec(c, av).0.sta_ssid == decode_spaces(s),
        named_value(av, "sta-password"@) matches Some(s) ==> set_wifi_spec(c, av).0.sta_password == decode_spaces(s),
        named_value(av, "ap-ssid"@) matches Some(s) ==> set_wifi_spec(c, av).0.ap_ssid == decode_spaces(s),
        named_value(av, "ap-password"@) matches Some(s) ==> set_wifi_spec(c, av).0.ap_password == decode_spaces(s),
        named_value(av, "sta-ssid"@) is None ==> set_wifi_spec(c, av).0.sta_ssid == c.sta_ssid,
        named_value(av, "sta-password"@) is None ==> set_wifi_spec(c, av).0.sta_password == c.sta_password,
        named_value(av, "ap-ssid"@) is None ==> set_wifi_spec(c, av).0.ap_ssid == c.ap_ssid,
        named_value(av, "ap-password"@) is None ==> set_wifi_spec(c, av).0.ap_password == c.ap_password,
{
}

/// `set-csi-delivery --logging=<on|off>` only asks for the inline log gate:
/// the configuration the command leaves is the one it leaves without it.
pub proof fn lemma_logging_leaves_config(c: ConfigModel, av1: Seq<Seq<char>>, av2: Seq<Seq<char>>)
    requires
        same_args_except(av1, av2, "logging"@),
    ensures
        set_csi_delivery_spec(c, av1).0 == set_csi_delivery_spec(c, av2).0,
        set_csi_delivery_spec(c, av1).1.mode == set_csi_delivery_spec(c, av2).1.mode,
        set_csi_delivery_spec(c, av1).1.logging == on_off_arg(av1, "logging"@),
{
    reveal_strlit("mode");
    reveal_strlit("logging");
    assert("mode"@[0] != "logging"@[0]);
    assert(named_value(av1, "mode"@) == named_value(av2, "mode"@));
}

/// `set-rate`: without `--rate` nothing changes, and an unknown rate name
/// changes nothing and is refused.
pub proof fn lemma_set_rate_refusals(c: ConfigModel, av: Seq<Seq<char>>)
    ensures
        set_phy_rate_spec(c, av) == match named_value(av, "rate"@) {
            None => (c, Arg::<PhyRate>::Absent),
            Some(s) => match phy_rate_of(s) {
                None => (c, Arg::<PhyRate>::Refused),
                Some(r) => (ConfigModel { phy_rate: r, ..c }, Arg::Given(r)),
            },
        },
{
    if let Some(s) = named_value(av, "rate"@) {
        if let Some(r) = phy_rate_of(s) {
            assert(set_phy_rate_spec(c, av).1 == Arg::Given(r));
            assert(set_phy_rate_spec(c, av).0 =~= ConfigModel { phy_rate: r, ..c });
        }
    }
    assert(named_value(av, "rate"@) is None ==> set_phy_rate_spec(c, av).0 =~= c);
    assert(named_value(av, "rate"@) matches Some(s) && phy_rate_of(s) is None ==> set_phy_rate_spec(c, av).0
        =~= c);
}

// ---------------------------------------------------------------- reset-config

/// The `reset-config` command: every setting back to the chip's defaults.
pub fn reset_config(config: &mut UserConfig, chip: Chip)
    ensures
        final(config)@ == default_config(chip),
{
    *config = UserConfig::new(chip);
}

} // verus!
