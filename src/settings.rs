//! The typed configuration model: defaults, field validation and the
//! normalization of the peer endpoint.
use vstd::prelude::*;

verus! {

pub const DEFAULT_INGEST_PORT: u16 = 38370;
pub const DEFAULT_PUBLISH_PORT: u16 = 38371;
pub const DEFAULT_GRAPHQL_PORT: u16 = 8442;
/// The peer endpoint that means "no clustering configured".
pub const PEER_ADDR_SENTINEL: &'static str = "254.254.254.254:38383";
pub const DEFAULT_RETENTION: &'static str = "100d";
pub const DEFAULT_ACK_TRANSMISSION: u16 = 1024;
pub const DEFAULT_MAX_OPEN_FILES: i32 = 8000;
pub const DEFAULT_MAX_MB_OF_LEVEL_BASE: u64 = 512;
pub const DEFAULT_NUM_OF_THREAD: i32 = 8;
pub const DEFAULT_MAX_SUB_COMPACTIONS: u32 = 2;

pub const KEY_INGEST_SRV_ADDR: &'static str = "ingest_srv_addr";
pub const KEY_PUBLISH_SRV_ADDR: &'static str = "publish_srv_addr";
pub const KEY_GRAPHQL_SRV_ADDR: &'static str = "graphql_srv_addr";
pub const KEY_DATA_DIR: &'static str = "data_dir";
pub const KEY_RETENTION: &'static str = "retention";
pub const KEY_LOG_DIR: &'static str = "log_dir";
pub const KEY_EXPORT_DIR: &'static str = "export_dir";
pub const KEY_MAX_OPEN_FILES: &'static str = "max_open_files";
pub const KEY_MAX_MB_OF_LEVEL_BASE: &'static str = "max_mb_of_level_base";
pub const KEY_NUM_OF_THREAD: &'static str = "num_of_thread";
pub const KEY_MAX_SUB_COMPACTIONS: &'static str = "max_sub_compactions";
pub const KEY_ADDR_TO_PEERS: &'static str = "addr_to_peers";
pub const KEY_PEERS: &'static str = "peers";
pub const KEY_ACK_TRANSMISSION: &'static str = "ack_transmission";

/// Command-line arguments of the service.
pub struct Args {
    /// Path to the local configuration TOML file.
    pub config: Option<String>,
    /// Path to the certificate file.
    pub cert: String,
    /// Path to the key file.
    pub key: String,
    /// Paths to the CA certificate files.
    pub ca_certs: Vec<String>,
    /// Enable the repair mode.
    pub repair: bool,
}

impl Args {
    /// The service runs in local mode when it was given a configuration file.
    pub fn is_local(&self) -> (r: bool)
        ensures
            r == self.config.is_some(),
    {
        self.config.is_some()
    }
}

/// An IP address, version 4 as four octets, version 6 as eight groups and a
/// scope id.
#[derive(Clone, Copy, Debug, PartialEq, Eq, Structural)]
pub enum IpAddress {
    V4(u8, u8, u8, u8),
    V6(u16, u16, u16, u16, u16, u16, u16, u16, u32),
}

/// A network endpoint: an IP address and a port.
#[derive(Clone, Copy, Debug, PartialEq, Eq, Structural)]
pub struct Endpoint {
    pub ip: IpAddress,
    pub port: u16,
}

impl Endpoint {
    /// The unspecified IPv6 address `[::]` on the given port.
    pub fn unspecified_v6(port: u16) -> (r: Endpoint)
        ensures
            r == unspecified_v6_spec(port),
    {
        Endpoint { ip: IpAddress::V6(0, 0, 0, 0, 0, 0, 0, 0, 0), port }
    }
}

pub open spec fn unspecified_v6_spec(port: u16) -> Endpoint {
    Endpoint { ip: IpAddress::V6(0, 0, 0, 0, 0, 0, 0, 0, 0), port }
}

/// A retention period, in whole seconds and the nanoseconds beyond them.
#[derive(Clone, Copy, Debug, PartialEq, Eq, Structural)]
pub struct Retention {
    pub secs: u64,
    pub nanos: u32,
}

/// One peer of the cluster.
#[derive(Clone, Debug)]
pub struct PeerIdentity {
    pub addr: Endpoint,
    pub hostname: String,
}

impl View for PeerIdentity {
    type V = (Endpoint, Seq<char>);

    open spec fn view(&self) -> (Endpoint, Seq<char>) {
        (self.addr, self.hostname@)
    }
}

/// The canonical set of tunables.
#[derive(Clone, Debug)]
pub struct Config {
    pub ingest_srv_addr: Endpoint,
    pub publish_srv_addr: Endpoint,
    pub data_dir: String,
    pub retention: Retention,
    pub graphql_srv_addr: Endpoint,
    pub log_dir: String,
    pub export_dir: String,
    pub max_open_files: i32,
    pub max_mb_of_level_base: u64,
    pub num_of_thread: i32,
    pub max_sub_compactions: u32,
    pub addr_to_peers: Option<Endpoint>,
    pub peers: Option<Vec<PeerIdentity>>,
    pub ack_transmission: u16,
}

/// What a `Config` means: its fields as values, the peers as a set.
pub struct ConfigModel {
    pub ingest_srv_addr: Endpoint,
    pub publish_srv_addr: Endpoint,
    pub data_dir: Seq<char>,
    pub retention: Retention,
    pub graphql_srv_addr: Endpoint,
    pub log_dir: Seq<char>,
    pub export_dir: Seq<char>,
    pub max_open_files: i32,
    pub max_mb_of_level_base: u64,
    pub num_of_thread: i32,
    pub max_sub_compactions: u32,
    pub addr_to_peers: Option<Endpoint>,
    pub peers: Option<Set<(Endpoint, Seq<char>)>>,
    pub ack_transmission: u16,
}

pub open spec fn peer_views(v: Seq<PeerIdentity>) -> Seq<(Endpoint, Seq<char>)> {
    v.map_values(|p: PeerIdentity| p@)
}

pub open spec fn peer_set(v: Seq<PeerIdentity>) -> Set<(Endpoint, Seq<char>)> {
    peer_views(v).to_set()
}

impl View for Config {
    type V = ConfigModel;

    open spec fn view(&self) -> ConfigModel {
        ConfigModel {
            ingest_srv_addr: self.ingest_srv_addr,
            publish_srv_addr: self.publish_srv_addr,
            data_dir: self.data_dir@,
            retention: self.retention,
            graphql_srv_addr: self.graphql_srv_addr,
            log_dir: self.log_dir@,
            export_dir: self.export_dir@,
            max_open_files: self.max_open_files,
            max_mb_of_level_base: self.max_mb_of_level_base,
            num_of_thread: self.num_of_thread,
            max_sub_compactions: self.max_sub_compactions,
            addr_to_peers: self.addr_to_peers,
            peers: match self.peers {
                Some(v) => Some(peer_set(v@)),
                None => None,
            },
            ack_transmission: self.ack_transmission,
        }
    }
}

/// A `Config` and the file it was loaded from (`None`: no file backs it).
#[derive(Clone, Debug)]
pub struct Settings {
    pub config: Config,
    pub cfg_path: Option<String>,
}

/// A failure to build a `Config`.
#[derive(Clone, Debug)]
pub enum ConfigError {
    /// A malformed address or duration: the key and the text found there.
    Format { key: String, value: String },
    /// An integer that does not fit its field: the key and the integer.
    Range { key: String, value: i64 },
}

/// What a `ConfigError` says.
pub enum ConfigFault {
    Format(Seq<char>, Seq<char>),
    Range(Seq<char>, int),
}

impl View for ConfigError {
    type V = ConfigFault;

    open spec fn view(&self) -> ConfigFault {
        match self {
            ConfigError::Format { key, value } => ConfigFault::Format(key@, value@),
            ConfigError::Range { key, value } => ConfigFault::Range(key@, *value as int),
        }
    }
}

/// An address as it was found in a configuration source: its text, and the
/// endpoint that the text denotes, if it denotes one.
#[derive(Clone, Debug)]
pub struct RawEndpoint {
    pub text: String,
    pub parsed: Option<Endpoint>,
}

/// A peer as it was found in a configuration source.
#[derive(Clone, Debug)]
pub struct RawPeer {
    pub addr: RawEndpoint,
    pub hostname: String,
}

/// The fields that a configuration source sets; `None` where it is silent.
#[derive(Clone, Debug)]
pub struct RawConfig {
    pub ingest_srv_addr: Option<RawEndpoint>,
    pub publish_srv_addr: Option<RawEndpoint>,
    pub data_dir: Option<String>,
    pub retention: Option<String>,
    pub graphql_srv_addr: Option<RawEndpoint>,
    pub log_dir: Option<String>,
    pub export_dir: Option<String>,
    pub max_open_files: Option<i64>,
    pub max_mb_of_level_base: Option<i64>,
    pub num_of_thread: Option<i64>,
    pub max_sub_compactions: Option<i64>,
    pub addr_to_peers: Option<RawEndpoint>,
    pub peers: Option<Vec<RawPeer>>,
    pub ack_transmission: Option<i64>,
}

/// The directories used where a source names none.
#[derive(Clone, Debug)]
pub struct DefaultDirs {
    pub data_dir: String,
    pub log_dir: String,
    pub export_dir: String,
}

/// What `humantime::parse_duration` makes of a text, as seconds and
/// nanoseconds.
pub uninterp spec fn duration_of(text: Seq<char>) -> Option<(u64, u32)>;

/// The most decimal digits that a retention text may hold. With at most this
/// many digits in all, no sum of its spans comes near `u64::MAX` seconds,
/// where `humantime::parse_duration` would panic in `Duration::new`.
pub const MAX_RETENTION_DIGITS: usize = 10;

pub open spec fn is_ascii_digit(b: u8) -> bool {
    48 <= b <= 57
}

/// How many bytes of `b` are ASCII decimal digits.
pub open spec fn digit_count(b: Seq<u8>) -> nat
    decreases b.len(),
{
    if b.len() == 0 {
        0
    } else {
        digit_count(b.drop_last()) + if is_ascii_digit(b.last()) {
            1nat
        } else {
            0nat
        }
    }
}

/// Relies on `humantime::parse_duration`: the duration that the text denotes,
/// or `None` where it denotes none; a `Duration` keeps its nanoseconds below
/// one second. The call cannot panic on a text of few digits.
#[verifier::external_body]
fn parse_duration(text: &str) -> (r: Option<Retention>)
    requires
        digit_count(vstd::utf8::encode_utf8(text@)) <= MAX_RETENTION_DIGITS,
    ensures
        match r {
            Some(d) => duration_of(text@) == Some((d.secs, d.nanos)) && d.nanos < 1_000_000_000,
            None => duration_of(text@) is None,
        },
{
    humantime::parse_duration(text).ok().map(
        |d| Retention { secs: d.as_secs(), nanos: d.subsec_nanos() },
    )
}

/// Counts the ASCII decimal digits of a byte string.
fn count_digits(b: &[u8]) -> (r: usize)
    ensures
        r == digit_count(b@),
{
    let mut n: usize = 0;
    let mut i: usize = 0;
    while i < b.len()
        invariant
            i <= b@.len(),
            n == digit_count(b@.take(i as int)),
            n <= i,
        decreases b@.len() - i,
    {
        assert(b@.take(i as int + 1).drop_last() =~= b@.take(i as int));
        if 48 <= b[i] && b[i] <= 57 {
            n = n + 1;
        }
        i = i + 1;
    }
    assert(b@.take(b@.len() as int) =~= b@);
    n
}

pub open spec fn endpoint_field(key: Seq<char>, raw: Option<RawEndpoint>, dflt: Endpoint) -> Result<
    Endpoint,
    ConfigFault,
> {
    match raw {
        None => Ok(dflt),
        Some(e) => match e.parsed {
            Some(p) => Ok(p),
            None => Err(ConfigFault::Format(key, e.text@)),
        },
    }
}

pub open spec fn is_absent_peer_text(text: Seq<char>) -> bool {
    text == PEER_ADDR_SENTINEL@ || text.len() == 0
}

pub open spec fn peer_addr_field(raw: Option<RawEndpoint>) -> Result<Option<Endpoint>, ConfigFault> {
    match raw {
        None => Ok(None),
        Some(e) => if is_absent_peer_text(e.text@) {
            Ok(None)
        } else {
            match e.parsed {
                Some(p) => Ok(Some(p)),
                None => Err(ConfigFault::Format(KEY_ADDR_TO_PEERS@, e.text@)),
            }
        },
    }
}

pub open spec fn int_field(key: Seq<char>, v: Option<i64>, dflt: int, lo: int, hi: int) -> Result<
    int,
    ConfigFault,
> {
    match v {
        None => Ok(dflt),
        Some(x) => if lo <= x <= hi {
            Ok(x as int)
        } else {
            Err(ConfigFault::Range(key, x as int))
        },
    }
}

pub open spec fn retention_text(text: Option<String>) -> Seq<char> {
    match text {
        None => DEFAULT_RETENTION@,
        Some(s) => s@,
    }
}

/// A retention text with too many digits is refused; any other is what
/// humantime makes of it.
pub open spec fn retention_field(text: Seq<char>) -> Result<Retention, ConfigFault> {
    if digit_count(vstd::utf8::encode_utf8(text)) > MAX_RETENTION_DIGITS {
        Err(ConfigFault::Format(KEY_RETENTION@, text))
    } else {
        match duration_of(text) {
            Some(d) => Ok(Retention { secs: d.0, nanos: d.1 }),
            None => Err(ConfigFault::Format(KEY_RETENTION@, text)),
        }
    }
}

pub open spec fn text_or(v: Option<String>, dflt: String) -> Seq<char> {
    match v {
        Some(s) => s@,
        None => dflt@,
    }
}

pub open spec fn peers_field(raw: Seq<RawPeer>) -> Result<Seq<(Endpoint, Seq<char>)>, ConfigFault>
    decreases raw.len(),
{
    if raw.len() == 0 {
        Ok(Seq::empty())
    } else {
        match peers_field(raw.drop_last()) {
            Err(f) => Err(f),
            Ok(v) => match raw.last().addr.parsed {
                Some(p) => Ok(v.push((p, raw.last().hostname@))),
                None => Err(ConfigFault::Format(KEY_PEERS@, raw.last().addr.text@)),
            },
        }
    }
}

/// Resolves an address field: the endpoint its text denotes, or a format
/// error that names the key and the text.
pub fn resolve_endpoint(key: &str, raw: RawEndpoint) -> (r: Result<Endpoint, ConfigError>)
    ensures
        match raw.parsed {
            Some(e) => r == Ok::<Endpoint, ConfigError>(e),
            None => r matches Err(f) && f@ == ConfigFault::Format(key@, raw.text@),
        },
{
    match raw.parsed {
        Some(e) => Ok(e),
        None => Err(ConfigError::Format { key: key.to_owned(), value: raw.text }),
    }
}

/// Resolves an optional address field, taking `dflt` where the source is silent.
pub fn resolve_endpoint_or(key: &str, raw: Option<RawEndpoint>, dflt: Endpoint) -> (r: Result<
    Endpoint,
    ConfigError,
>)
    ensures
        match r {
            Ok(e) => endpoint_field(key@, raw, dflt) == Ok::<Endpoint, ConfigFault>(e),
            Err(f) => endpoint_field(key@, raw, dflt) == Err::<Endpoint, ConfigFault>(f@),
        },
{
    match raw {
        None => Ok(dflt),
        Some(e) => resolve_endpoint(key, e),
    }
}

/// Resolves the peer endpoint: the sentinel address, an empty text and a
/// silent source all mean that no peer is configured.
pub fn resolve_peer_endpoint(raw: Option<RawEndpoint>) -> (r: Result<Option<Endpoint>, ConfigError>)
    ensures
        match r {
            Ok(e) => peer_addr_field(raw) == Ok::<Option<Endpoint>, ConfigFault>(e),
            Err(f) => peer_addr_field(raw) == Err::<Option<Endpoint>, ConfigFault>(f@),
        },
        raw is None ==> r matches Ok(None),
        raw matches Some(e) && is_absent_peer_text(e.text@) ==> r matches Ok(None),
{
    match raw {
        None => Ok(None),
        Some(e) => {
            if e.text.as_str().is_empty() || e.text == PEER_ADDR_SENTINEL.to_owned() {
                Ok(None)
            } else {
                match e.parsed {
                    Some(p) => Ok(Some(p)),
                    None => Err(ConfigError::Format { key: KEY_ADDR_TO_PEERS.to_owned(), value: e.text }),
                }
            }
        },
    }
}

/// Resolves an integer field that must lie in `lo..=hi`.
fn resolve_int(key: &str, v: Option<i64>, dflt: i64, lo: i64, hi: i64) -> (r: Result<i64, ConfigError>)
    ensures
        match r {
            Ok(x) => int_field(key@, v, dflt as int, lo as int, hi as int) == Ok::<int, ConfigFault>(x as int),
            Err(f) => int_field(key@, v, dflt as int, lo as int, hi as int) == Err::<int, ConfigFault>(f@),
        },
{
    match v {
        None => Ok(dflt),
        Some(x) => if lo <= x && x <= hi {
            Ok(x)
        } else {
            Err(ConfigError::Range { key: key.to_owned(), value: x })
        },
    }
}

/// Resolves the retention from its text and from the duration that the text
/// was found to denote.
pub fn resolve_retention(text: &str, parsed: Option<Retention>) -> (r: Result<Retention, ConfigError>)
    ensures
        match parsed {
            Some(d) => r == Ok::<Retention, ConfigError>(d),
            None => r matches Err(f) && f@ == ConfigFault::Format(KEY_RETENTION@, text@),
        },
{
    match parsed {
        Some(d) => Ok(d),
        None => Err(ConfigError::Format { key: KEY_RETENTION.to_owned(), value: text.to_owned() }),
    }
}

/// Parses a retention text as a human-readable duration; a text of more than
/// `MAX_RETENTION_DIGITS` digits is refused.
pub fn retention_from_text(text: &str) -> (r: Result<Retention, ConfigError>)
    ensures
        match r {
            Ok(d) => retention_field(text@) == Ok::<Retention, ConfigFault>(d) && d.nanos < 1_000_000_000,
            Err(f) => retention_field(text@) == Err::<Retention, ConfigFault>(f@),
        },
{
    if count_digits(text.as_bytes()) > MAX_RETENTION_DIGITS {
        return resolve_retention(text, None);
    }
    let parsed = parse_duration(text);
    resolve_retention(text, parsed)
}

/// A failure within a prefix of the peer list is the failure of the whole list.
proof fn lemma_peers_error_extends(s: Seq<RawPeer>, k: int)
    requires
        0 <= k <= s.len(),
        peers_field(s.take(k)) is Err,
    ensures
        peers_field(s) == peers_field(s.take(k)),
    decreases s.len(),
{
    if k < s.len() {
        assert(s.drop_last().take(k) =~= s.take(k));
        lemma_peers_error_extends(s.drop_last(), k);
    } else {
        assert(s.take(k) =~= s);
    }
}

/// Resolves the peer list: each peer's address must denote an endpoint. The
/// peers form a set: a peer listed twice is kept once.
pub fn resolve_peers(raw: &Vec<RawPeer>) -> (r: Result<Vec<PeerIdentity>, ConfigError>)
    ensures
        match r {
            Ok(v) => peers_field(raw@) is Ok && peers_field(raw@)->Ok_0.to_set() == peer_set(v@)
                && peer_views(v@).no_duplicates(),
            Err(f) => peers_field(raw@) == Err::<Seq<(Endpoint, Seq<char>)>, ConfigFault>(f@),
        },
{
    let mut out: Vec<PeerIdentity> = Vec::new();
    let mut i: usize = 0;
    assert(raw@.take(0) =~= Seq::<RawPeer>::empty());
    assert(peer_views(out@) =~= Seq::<(Endpoint, Seq<char>)>::empty());
    assert(Seq::<(Endpoint, Seq<char>)>::empty().to_set() =~= Set::empty());
    while i < raw.len()
        invariant
            i <= raw@.len(),
            peers_field(raw@.take(i as int)) is Ok,
            peers_field(raw@.take(i as int))->Ok_0.to_set() == peer_set(out@),
            peer_views(out@).no_duplicates(),
        decreases raw@.len() - i,
    {
        let p = &raw[i];
        assert(raw@.take(i as int + 1).drop_last() =~= raw@.take(i as int));
        assert(raw@.take(i as int + 1).last() == raw@[i as int]);
        match p.addr.parsed {
            Some(e) => {
                let ghost before = out@;
                let ghost s = peers_field(raw@.take(i as int))->Ok_0;
                let candidate = PeerIdentity { addr: e, hostname: p.hostname.clone() };
                proof {
                    Seq::lemma_to_set_insert_commutes(s, candidate@);
                    assert(s.push(candidate@) =~= s + seq![candidate@]);
                }
                if !contains_peer(&out, &candidate) {
                    out.push(candidate);
                    assert(peer_views(out@) =~= peer_views(before).push((e, p.hostname@)));
                    proof {
                        Seq::lemma_to_set_insert_commutes(peer_views(before), (e, p.hostname@));
                        assert(peer_views(before).push((e, p.hostname@)) =~= peer_views(before)
                            + seq![(e, p.hostname@)]);
                    }
                } else {
                    assert(peer_set(out@).insert(candidate@) =~= peer_set(out@));
                }
            },
            None => {
                proof {
                    lemma_peers_error_extends(raw@, i as int + 1);
                }
                return Err(ConfigError::Format { key: KEY_PEERS.to_owned(), value: p.addr.text.clone() });
            },
        }
        i = i + 1;
    }
    assert(raw@.take(raw@.len() as int) =~= raw@);
    Ok(out)
}

pub open spec fn peers_list_field(raw: Option<Vec<RawPeer>>) -> Result<
    Option<Set<(Endpoint, Seq<char>)>>,
    ConfigFault,
> {
    match raw {
        None => Ok(None),
        Some(v) => match peers_field(v@) {
            Ok(s) => Ok(Some(s.to_set())),
            Err(f) => Err(f),
        },
    }
}

/// The configuration that a source denotes over the defaults, or the first
/// field, in declaration order, that fails.
pub open spec fn config_outcome(raw: RawConfig, dirs: DefaultDirs) -> Result<ConfigModel, ConfigFault> {
    let ingest = endpoint_field(
        KEY_INGEST_SRV_ADDR@,
        raw.ingest_srv_addr,
        unspecified_v6_spec(DEFAULT_INGEST_PORT),
    );
    let publish = endpoint_field(
        KEY_PUBLISH_SRV_ADDR@,
        raw.publish_srv_addr,
        unspecified_v6_spec(DEFAULT_PUBLISH_PORT),
    );
    let retention = retention_field(retention_text(raw.retention));
    let graphql = endpoint_field(
        KEY_GRAPHQL_SRV_ADDR@,
        raw.graphql_srv_addr,
        unspecified_v6_spec(DEFAULT_GRAPHQL_PORT),
    );
    let open_files = int_field(
        KEY_MAX_OPEN_FILES@,
        raw.max_open_files,
        DEFAULT_MAX_OPEN_FILES as int,
        i32::MIN as int,
        i32::MAX as int,
    );
    let level_base = int_field(
        KEY_MAX_MB_OF_LEVEL_BASE@,
        raw.max_mb_of_level_base,
        DEFAULT_MAX_MB_OF_LEVEL_BASE as int,
        0,
        i64::MAX as int,
    );
    let threads = int_field(
        KEY_NUM_OF_THREAD@,
        raw.num_of_thread,
        DEFAULT_NUM_OF_THREAD as int,
        i32::MIN as int,
        i32::MAX as int,
    );
    let sub_compactions = int_field(
        KEY_MAX_SUB_COMPACTIONS@,
        raw.max_sub_compactions,
        DEFAULT_MAX_SUB_COMPACTIONS as int,
        0,
        u32::MAX as int,
    );
    let peer_addr = peer_addr_field(raw.addr_to_peers);
    let peers = peers_list_field(raw.peers);
    let ack = int_field(
        KEY_ACK_TRANSMISSION@,
        raw.ack_transmission,
        DEFAULT_ACK_TRANSMISSION as int,
        0,
        u16::MAX as int,
    );
    if ingest is Err {
        Err(ingest->Err_0)
    } else if publish is Err {
        Err(publish->Err_0)
    } else if retention is Err {
        Err(retention->Err_0)
    } else if graphql is Err {
        Err(graphql->Err_0)
    } else if open_files is Err {
        Err(open_files->Err_0)
    } else if level_base is Err {
        Err(level_base->Err_0)
    } else if threads is Err {
        Err(threads->Err_0)
    } else if sub_compactions is Err {
        Err(sub_compactions->Err_0)
    } else if peer_addr is Err {
        Err(peer_addr->Err_0)
    } else if peers is Err {
        Err(peers->Err_0)
    } else if ack is Err {
        Err(ack->Err_0)
    } else {
        Ok(
            ConfigModel {
                ingest_srv_addr: ingest->Ok_0,
                publish_srv_addr: publish->Ok_0,
                data_dir: text_or(raw.data_dir, dirs.data_dir),
                retention: retention->Ok_0,
                graphql_srv_addr: graphql->Ok_0,
                log_dir: text_or(raw.log_dir, dirs.log_dir),
                export_dir: text_or(raw.export_dir, dirs.export_dir),
                max_open_files: (open_files->Ok_0) as i32,
                max_mb_of_level_base: (level_base->Ok_0) as u64,
                num_of_thread: (threads->Ok_0) as i32,
                max_sub_compactions: (sub_compactions->Ok_0) as u32,
                addr_to_peers: peer_addr->Ok_0,
                peers: peers->Ok_0,
                ack_transmission: (ack->Ok_0) as u16,
            },
        )
    }
}

fn text_or_default(v: Option<String>, dflt: String) -> (r: String)
    ensures
        r@ == text_or(v, dflt),
{
    match v {
        Some(s) => s,
        None => dflt,
    }
}

impl Config {
    /// Builds a configuration from what a source sets, filling every field
    /// that it leaves out with its default.
    pub fn from_raw(raw: RawConfig, dirs: DefaultDirs) -> (r: Result<Config, ConfigError>)
        ensures
            match r {
                Ok(c) => config_outcome(raw, dirs) == Ok::<ConfigModel, ConfigFault>(c@),
                Err(f) => config_outcome(raw, dirs) == Err::<ConfigModel, ConfigFault>(f@),
            },
    {
        let ghost raw0 = raw;
        let ghost dirs0 = dirs;
        let ingest_srv_addr = match resolve_endpoint_or(
            KEY_INGEST_SRV_ADDR,
            raw.ingest_srv_addr,
            Endpoint::unspecified_v6(DEFAULT_INGEST_PORT),
        ) {
            Ok(e) => e,
            Err(f) => return Err(f),
        };
        let publish_srv_addr = match resolve_endpoint_or(
            KEY_PUBLISH_SRV_ADDR,
            raw.publish_srv_addr,
            Endpoint::unspecified_v6(DEFAULT_PUBLISH_PORT),
        ) {
            Ok(e) => e,
            Err(f) => return Err(f),
        };
        let retention = match &raw.retention {
            Some(t) => retention_from_text(t.as_str()),
            None => retention_from_text(DEFAULT_RETENTION),
        };
        let retention = match retention {
            Ok(d) => d,
            Err(f) => return Err(f),
        };
        let graphql_srv_addr = match resolve_endpoint_or(
            KEY_GRAPHQL_SRV_ADDR,
            raw.graphql_srv_addr,
            Endpoint::unspecified_v6(DEFAULT_GRAPHQL_PORT),
        ) {
            Ok(e) => e,
            Err(f) => return Err(f),
        };
        let max_open_files = match resolve_int(
            KEY_MAX_OPEN_FILES,
            raw.max_open_files,
            DEFAULT_MAX_OPEN_FILES as i64,
            i32::MIN as i64,
            i32::MAX as i64,
        ) {
            Ok(x) => x as i32,
            Err(f) => return Err(f),
        };
        let max_mb_of_level_base = match resolve_int(
            KEY_MAX_MB_OF_LEVEL_BASE,
            raw.max_mb_of_level_base,
            DEFAULT_MAX_MB_OF_LEVEL_BASE as i64,
            0,
            i64::MAX,
        ) {
            Ok(x) => x as u64,
            Err(f) => return Err(f),
        };
        let num_of_thread = match resolve_int(
            KEY_NUM_OF_THREAD,
            raw.num_of_thread,
            DEFAULT_NUM_OF_THREAD as i64,
            i32::MIN as i64,
            i32::MAX as i64,
        ) {
            Ok(x) => x as i32,
            Err(f) => return Err(f),
        };
        let max_sub_compactions = match resolve_int(
            KEY_MAX_SUB_COMPACTIONS,
            raw.max_sub_compactions,
            DEFAULT_MAX_SUB_COMPACTIONS as i64,
            0,
            u32::MAX as i64,
        ) {
            Ok(x) => x as u32,
            Err(f) => return Err(f),
        };
        let addr_to_peers = match resolve_peer_endpoint(raw.addr_to_peers) {
            Ok(e) => e,
            Err(f) => return Err(f),
        };
        let peers = match &raw.peers {
            None => None,
            Some(v) => match resolve_peers(v) {
                Ok(p) => Some(p),
                Err(f) => return Err(f),
            },
        };
        let ack_transmission = match resolve_int(
            KEY_ACK_TRANSMISSION,
            raw.ack_transmission,
            DEFAULT_ACK_TRANSMISSION as i64,
            0,
            u16::MAX as i64,
        ) {
            Ok(x) => x as u16,
            Err(f) => return Err(f),
        };
        let c = Config {
            ingest_srv_addr,
            publish_srv_addr,
            data_dir: text_or_default(raw.data_dir, dirs.data_dir),
            retention,
            graphql_srv_addr,
            log_dir: text_or_default(raw.log_dir, dirs.log_dir),
            export_dir: text_or_default(raw.export_dir, dirs.export_dir),
            max_open_files,
            max_mb_of_level_base,
            num_of_thread,
            max_sub_compactions,
            addr_to_peers,
            peers,
            ack_transmission,
        };
        assert(c@ == config_outcome(raw0, dirs0)->Ok_0);
        Ok(c)
    }
}

/// Whether the peer list holds a peer equal to `p`.
fn contains_peer(v: &Vec<PeerIdentity>, p: &PeerIdentity) -> (r: bool)
    ensures
        r == peer_set(v@).contains(p@),
{
    let mut i: usize = 0;
    while i < v.len()
        invariant
            i <= v@.len(),
            forall|j: int| 0 <= j < i ==> v@[j]@ != p@,
        decreases v@.len() - i,
    {
        if v[i].addr == p.addr && v[i].hostname == p.hostname {
            assert(peer_views(v@)[i as int] == p@);
            return true;
        }
        i = i + 1;
    }
    assert forall|j: int| 0 <= j < peer_views(v@).len() implies peer_views(v@)[j] != p@ by {
        assert(peer_views(v@)[j] == v@[j]@);
    }
    false
}

/// Whether every peer of `a` is a peer of `b`.
fn peers_within(a: &Vec<PeerIdentity>, b: &Vec<PeerIdentity>) -> (r: bool)
    ensures
        r == peer_set(a@).subset_of(peer_set(b@)),
{
    let mut i: usize = 0;
    while i < a.len()
        invariant
            i <= a@.len(),
            forall|j: int| 0 <= j < i ==> peer_set(b@).contains(#[trigger] a@[j]@),
        decreases a@.len() - i,
    {
        if !contains_peer(b, &a[i]) {
            assert(peer_set(a@).contains(peer_views(a@)[i as int]));
            return false;
        }
        i = i + 1;
    }
    assert forall|x| peer_set(a@).contains(x) implies peer_set(b@).contains(x) by {
        let j = choose|j: int| 0 <= j < peer_views(a@).len() && peer_views(a@)[j] == x;
        assert(a@[j]@ == x);
    }
    true
}

fn same_peers(a: &Option<Vec<PeerIdentity>>, b: &Option<Vec<PeerIdentity>>) -> (r: bool)
    ensures
        r == (match (a, b) {
            (Some(x), Some(y)) => Some(peer_set(x@)) == Some(peer_set(y@)),
            (None, None) => true,
            _ => false,
        }),
{
    match (a, b) {
        (Some(x), Some(y)) => {
            let r = peers_within(x, y) && peers_within(y, x);
            if r {
                assert(peer_set(x@) =~= peer_set(y@));
            }
            r
        },
        (None, None) => true,
        _ => false,
    }
}

fn same_endpoint_opt(a: &Option<Endpoint>, b: &Option<Endpoint>) -> (r: bool)
    ensures
        r == (a == b),
{
    match (a, b) {
        (Some(x), Some(y)) => x == y,
        (None, None) => true,
        _ => false,
    }
}

impl Config {
    /// Structural equality: every field equal, the peers compared as sets.
    pub fn same_as(&self, other: &Config) -> (r: bool)
        ensures
            r == (self@ == other@),
    {
        let r = self.ingest_srv_addr == other.ingest_srv_addr
            && self.publish_srv_addr == other.publish_srv_addr
            && self.data_dir == other.data_dir
            && self.retention == other.retention
            && self.graphql_srv_addr == other.graphql_srv_addr
            && self.log_dir == other.log_dir
            && self.export_dir == other.export_dir
            && self.max_open_files == other.max_open_files
            && self.max_mb_of_level_base == other.max_mb_of_level_base
            && self.num_of_thread == other.num_of_thread
            && self.max_sub_compactions == other.max_sub_compactions
            && same_endpoint_opt(&self.addr_to_peers, &other.addr_to_peers)
            && same_peers(&self.peers, &other.peers)
            && self.ack_transmission == other.ack_transmission;
        r
    }
}

impl Settings {
    /// Settings built from what a source sets over the defaults, and the
    /// file that the source was, if any.
    pub fn from_raw(raw: RawConfig, dirs: DefaultDirs, cfg_path: Option<String>) -> (r: Result<
        Settings,
        ConfigError,
    >)
        ensures
            match r {
                Ok(s) => config_outcome(raw, dirs) == Ok::<ConfigModel, ConfigFault>(s.config@)
                    && s.cfg_path == cfg_path,
                Err(f) => config_outcome(raw, dirs) == Err::<ConfigModel, ConfigFault>(f@),
            },
    {
        match Config::from_raw(raw, dirs) {
            Ok(config) => Ok(Settings { config, cfg_path }),
            Err(f) => Err(f),
        }
    }
}

/// The first field, in declaration order, that a draft must set and leaves
/// out. A draft must set every field but the peer endpoint and the peer list.
pub open spec fn missing_field(raw: RawConfig) -> Option<Seq<char>> {
    if raw.ingest_srv_addr is None {
        Some(KEY_INGEST_SRV_ADDR@)
    } else if raw.publish_srv_addr is None {
        Some(KEY_PUBLISH_SRV_ADDR@)
    } else if raw.data_dir is None {
        Some(KEY_DATA_DIR@)
    } else if raw.retention is None {
        Some(KEY_RETENTION@)
    } else if raw.graphql_srv_addr is None {
        Some(KEY_GRAPHQL_SRV_ADDR@)
    } else if raw.log_dir is None {
        Some(KEY_LOG_DIR@)
    } else if raw.export_dir is None {
        Some(KEY_EXPORT_DIR@)
    } else if raw.max_open_files is None {
        Some(KEY_MAX_OPEN_FILES@)
    } else if raw.max_mb_of_level_base is None {
        Some(KEY_MAX_MB_OF_LEVEL_BASE@)
    } else if raw.num_of_thread is None {
        Some(KEY_NUM_OF_THREAD@)
    } else if raw.max_sub_compactions is None {
        Some(KEY_MAX_SUB_COMPACTIONS@)
    } else if raw.ack_transmission is None {
        Some(KEY_ACK_TRANSMISSION@)
    } else {
        None
    }
}

/// Why a draft configuration is refused.
#[derive(Clone, Debug)]
pub enum DraftError {
    /// A field that a draft must set is missing.
    MissingField { key: String },
    /// A field is set to an invalid value.
    Invalid(ConfigError),
}

fn first_missing_field(raw: &RawConfig) -> (r: Option<&'static str>)
    ensures
        match r {
            Some(k) => missing_field(*raw) == Some(k@),
            None => missing_field(*raw) is None,
        },
{
    if raw.ingest_srv_addr.is_none() {
        Some(KEY_INGEST_SRV_ADDR)
    } else if raw.publish_srv_addr.is_none() {
        Some(KEY_PUBLISH_SRV_ADDR)
    } else if raw.data_dir.is_none() {
        Some(KEY_DATA_DIR)
    } else if raw.retention.is_none() {
        Some(KEY_RETENTION)
    } else if raw.graphql_srv_addr.is_none() {
        Some(KEY_GRAPHQL_SRV_ADDR)
    } else if raw.log_dir.is_none() {
        Some(KEY_LOG_DIR)
    } else if raw.export_dir.is_none() {
        Some(KEY_EXPORT_DIR)
    } else if raw.max_open_files.is_none() {
        Some(KEY_MAX_OPEN_FILES)
    } else if raw.max_mb_of_level_base.is_none() {
        Some(KEY_MAX_MB_OF_LEVEL_BASE)
    } else if raw.num_of_thread.is_none() {
        Some(KEY_NUM_OF_THREAD)
    } else if raw.max_sub_compactions.is_none() {
        Some(KEY_MAX_SUB_COMPACTIONS)
    } else if raw.ack_transmission.is_none() {
        Some(KEY_ACK_TRANSMISSION)
    } else {
        None
    }
}

impl Config {
    /// Builds a configuration from a draft, which must set every field but
    /// the peer endpoint and the peer list.
    pub fn from_draft(raw: RawConfig, dirs: DefaultDirs) -> (r: Result<Config, DraftError>)
        ensures
            match missing_field(raw) {
                Some(k) => r matches Err(DraftError::MissingField { key }) && key@ == k,
                None => match r {
                    Ok(c) => config_outcome(raw, dirs) == Ok::<ConfigModel, ConfigFault>(c@),
                    Err(DraftError::Invalid(f)) => config_outcome(raw, dirs) == Err::<
                        ConfigModel,
                        ConfigFault,
                    >(f@),
                    Err(DraftError::MissingField { .. }) => false,
                },
            },
    {
        match first_missing_field(&raw) {
            Some(k) => Err(DraftError::MissingField { key: k.to_owned() }),
            None => match Config::from_raw(raw, dirs) {
                Ok(c) => Ok(c),
                Err(f) => Err(DraftError::Invalid(f)),
            },
        }
    }
}

/// A peer address whose text is neither empty nor the sentinel resolves to
/// the endpoint that the text denotes: formatting an endpoint and resolving
/// the text gives the endpoint back.
pub proof fn lemma_peer_address_round_trip(raw: RawEndpoint, a: Endpoint)
    requires
        raw.parsed == Some(a),
        raw.text@.len() > 0,
        raw.text@ != PEER_ADDR_SENTINEL@,
    ensures
        peer_addr_field(Some(raw)) == Ok::<Option<Endpoint>, ConfigFault>(Some(a)),
{
}

} // verus!
