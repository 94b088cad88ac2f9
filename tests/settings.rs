use giganto::settings::{
    resolve_endpoint, resolve_peer_endpoint, resolve_retention, retention_from_text, Args,
    Config, ConfigError, DefaultDirs, DraftError, Endpoint, IpAddress, RawConfig, RawEndpoint, RawPeer,
    Retention, Settings,
};

fn dirs() -> DefaultDirs {
    DefaultDirs {
        data_dir: "db".to_string(),
        log_dir: "logs/apps".to_string(),
        export_dir: "export".to_string(),
    }
}

fn blank() -> RawConfig {
    RawConfig {
        ingest_srv_addr: None,
        publish_srv_addr: None,
        data_dir: None,
        retention: None,
        graphql_srv_addr: None,
        log_dir: None,
        export_dir: None,
        max_open_files: None,
        max_mb_of_level_base: None,
        num_of_thread: None,
        max_sub_compactions: None,
        addr_to_peers: None,
        peers: None,
        ack_transmission: None,
    }
}

fn raw(text: &str, parsed: Option<Endpoint>) -> RawEndpoint {
    RawEndpoint { text: text.to_string(), parsed }
}

fn any_v6(port: u16) -> Endpoint {
    Endpoint { ip: IpAddress::V6(0, 0, 0, 0, 0, 0, 0, 0, 0), port }
}

#[test]
fn args_local_mode_follows_config_path() {
    let mut args = Args {
        config: None,
        cert: "cert.pem".to_string(),
        key: "key.pem".to_string(),
        ca_certs: vec!["ca.pem".to_string()],
        repair: false,
    };
    assert!(!args.is_local());
    args.config = Some("config.toml".to_string());
    assert!(args.is_local());
}

#[test]
fn empty_source_yields_all_defaults() {
    let c = Config::from_raw(blank(), dirs()).unwrap();
    assert_eq!(c.ingest_srv_addr, any_v6(38370));
    assert_eq!(c.publish_srv_addr, any_v6(38371));
    assert_eq!(c.graphql_srv_addr, any_v6(8442));
    assert_eq!(c.data_dir, "db");
    assert_eq!(c.log_dir, "logs/apps");
    assert_eq!(c.export_dir, "export");
    assert_eq!(c.retention, Retention { secs: 100 * 86_400, nanos: 0 });
    assert_eq!(c.max_open_files, 8000);
    assert_eq!(c.max_mb_of_level_base, 512);
    assert_eq!(c.num_of_thread, 8);
    assert_eq!(c.max_sub_compactions, 2);
    assert_eq!(c.addr_to_peers, None);
    assert!(c.peers.is_none());
    assert_eq!(c.ack_transmission, 1024);
}

#[test]
fn settings_keep_their_file() {
    let s = Settings::from_raw(blank(), dirs(), Some("/etc/c.toml".to_string())).unwrap();
    assert_eq!(s.cfg_path.as_deref(), Some("/etc/c.toml"));
    let s = Settings::from_raw(blank(), dirs(), None).unwrap();
    assert!(s.cfg_path.is_none());
}

#[test]
fn sentinel_and_empty_peer_address_mean_absent() {
    let sentinel = raw("254.254.254.254:38383", None);
    assert!(matches!(resolve_peer_endpoint(Some(sentinel)), Ok(None)));
    let parsed_sentinel = raw(
        "254.254.254.254:38383",
        Some(Endpoint { ip: IpAddress::V4(254, 254, 254, 254), port: 38383 }),
    );
    assert!(matches!(resolve_peer_endpoint(Some(parsed_sentinel)), Ok(None)));
    assert!(matches!(resolve_peer_endpoint(Some(raw("", None))), Ok(None)));
    assert!(matches!(resolve_peer_endpoint(None), Ok(None)));

    let mut r = blank();
    r.addr_to_peers = Some(raw("254.254.254.254:38383", None));
    assert_eq!(Config::from_raw(r, dirs()).unwrap().addr_to_peers, None);
}

#[test]
fn peer_address_is_kept_or_refused() {
    let e = Endpoint { ip: IpAddress::V4(127, 0, 0, 1), port: 48383 };
    let got = resolve_peer_endpoint(Some(raw("127.0.0.1:48383", Some(e)))).unwrap();
    assert_eq!(got, Some(e));
    match resolve_peer_endpoint(Some(raw("not-an-address", None))) {
        Err(ConfigError::Format { key, value }) => {
            assert_eq!(key, "addr_to_peers");
            assert_eq!(value, "not-an-address");
        }
        other => panic!("unexpected {other:?}"),
    }
}

#[test]
fn malformed_address_names_key_and_text() {
    match resolve_endpoint("ingest_srv_addr", raw("1.2.3:99", None)) {
        Err(ConfigError::Format { key, value }) => {
            assert_eq!(key, "ingest_srv_addr");
            assert_eq!(value, "1.2.3:99");
        }
        other => panic!("unexpected {other:?}"),
    }
    let mut r = blank();
    r.graphql_srv_addr = Some(raw("localhost", None));
    match Config::from_raw(r, dirs()) {
        Err(ConfigError::Format { key, value }) => {
            assert_eq!(key, "graphql_srv_addr");
            assert_eq!(value, "localhost");
        }
        other => panic!("unexpected {other:?}"),
    }
}

#[test]
fn first_failing_field_is_reported() {
    let mut r = blank();
    r.publish_srv_addr = Some(raw("bad-publish", None));
    r.ack_transmission = Some(70_000);
    match Config::from_raw(r, dirs()) {
        Err(ConfigError::Format { key, .. }) => assert_eq!(key, "publish_srv_addr"),
        other => panic!("unexpected {other:?}"),
    }
}

#[test]
fn integers_out_of_range_are_refused() {
    let mut r = blank();
    r.ack_transmission = Some(65_536);
    match Config::from_raw(r, dirs()) {
        Err(ConfigError::Range { key, value }) => {
            assert_eq!(key, "ack_transmission");
            assert_eq!(value, 65_536);
        }
        other => panic!("unexpected {other:?}"),
    }
    let mut r = blank();
    r.max_mb_of_level_base = Some(-1);
    assert!(matches!(Config::from_raw(r, dirs()), Err(ConfigError::Range { value: -1, .. })));
    let mut r = blank();
    r.max_open_files = Some(i64::from(i32::MAX) + 1);
    assert!(matches!(Config::from_raw(r, dirs()), Err(ConfigError::Range { .. })));
    let mut r = blank();
    r.ack_transmission = Some(65_535);
    r.max_sub_compactions = Some(i64::from(u32::MAX));
    let c = Config::from_raw(r, dirs()).unwrap();
    assert_eq!(c.ack_transmission, u16::MAX);
    assert_eq!(c.max_sub_compactions, u32::MAX);
}

#[test]
fn retention_is_parsed_as_a_duration() {
    assert_eq!(retention_from_text("100d").unwrap(), Retention { secs: 8_640_000, nanos: 0 });
    assert_eq!(retention_from_text("2h 37min").unwrap(), Retention { secs: 9420, nanos: 0 });
    assert_eq!(retention_from_text("32ms").unwrap(), Retention { secs: 0, nanos: 32_000_000 });
    match retention_from_text("forever") {
        Err(ConfigError::Format { key, value }) => {
            assert_eq!(key, "retention");
            assert_eq!(value, "forever");
        }
        other => panic!("unexpected {other:?}"),
    }
    let d = Retention { secs: 5, nanos: 1 };
    assert_eq!(resolve_retention("5s", Some(d)).unwrap(), d);
    assert!(resolve_retention("x", None).is_err());
}

#[test]
fn peers_need_valid_addresses() {
    let mut r = blank();
    r.peers = Some(vec![
        RawPeer {
            addr: raw("10.0.0.1:1", Some(Endpoint { ip: IpAddress::V4(10, 0, 0, 1), port: 1 })),
            hostname: "a".to_string(),
        },
        RawPeer { addr: raw("nowhere", None), hostname: "b".to_string() },
    ]);
    match Config::from_raw(r, dirs()) {
        Err(ConfigError::Format { key, value }) => {
            assert_eq!(key, "peers");
            assert_eq!(value, "nowhere");
        }
        other => panic!("unexpected {other:?}"),
    }
    let mut r = blank();
    r.peers = Some(vec![]);
    assert_eq!(Config::from_raw(r, dirs()).unwrap().peers.unwrap().len(), 0);
}

#[test]
fn configs_compare_by_fields() {
    let a = Config::from_raw(blank(), dirs()).unwrap();
    let b = Config::from_raw(blank(), dirs()).unwrap();
    assert!(a.same_as(&b));
    let mut r = blank();
    r.num_of_thread = Some(9);
    let c = Config::from_raw(r, dirs()).unwrap();
    assert!(!a.same_as(&c));
    let mut r = blank();
    r.peers = Some(vec![]);
    let d = Config::from_raw(r, dirs()).unwrap();
    assert!(!a.same_as(&d));
}

#[test]
fn duplicate_peers_are_kept_once() {
    let e = Endpoint { ip: IpAddress::V4(10, 0, 0, 1), port: 38383 };
    let twice = || RawPeer { addr: raw("10.0.0.1:38383", Some(e)), hostname: "node1".to_string() };
    let other = RawPeer { addr: raw("10.0.0.1:38383", Some(e)), hostname: "node9".to_string() };
    let mut r = blank();
    r.peers = Some(vec![twice(), other, twice()]);
    let peers = Config::from_raw(r, dirs()).unwrap().peers.unwrap();
    assert_eq!(peers.len(), 2);
    assert_eq!(peers[0].hostname, "node1");
    assert_eq!(peers[1].hostname, "node9");
}

#[test]
fn retention_with_too_many_digits_is_refused() {
    match retention_from_text("18446744073709551615s 1000000000ns") {
        Err(ConfigError::Format { key, value }) => {
            assert_eq!(key, "retention");
            assert_eq!(value, "18446744073709551615s 1000000000ns");
        }
        other => panic!("unexpected {other:?}"),
    }
    assert!(retention_from_text("00000000001d").is_err());
    assert_eq!(
        retention_from_text("1000000000s").unwrap(),
        Retention { secs: 1_000_000_000, nanos: 0 }
    );
}

#[test]
fn drafts_must_set_every_required_field() {
    match Config::from_draft(blank(), dirs()) {
        Err(DraftError::MissingField { key }) => assert_eq!(key, "ingest_srv_addr"),
        other => panic!("unexpected {other:?}"),
    }
    let e = Endpoint { ip: IpAddress::V4(0, 0, 0, 0), port: 1 };
    let mut r = blank();
    r.ingest_srv_addr = Some(raw("0.0.0.0:1", Some(e)));
    r.publish_srv_addr = Some(raw("0.0.0.0:1", Some(e)));
    r.data_dir = Some("d".to_string());
    r.retention = Some("1d".to_string());
    r.graphql_srv_addr = Some(raw("0.0.0.0:1", Some(e)));
    r.log_dir = Some("l".to_string());
    r.export_dir = Some("x".to_string());
    r.max_open_files = Some(1);
    r.max_mb_of_level_base = Some(1);
    r.num_of_thread = Some(1);
    r.max_sub_compactions = Some(1);
    let partial = r.clone();
    match Config::from_draft(partial, dirs()) {
        Err(DraftError::MissingField { key }) => assert_eq!(key, "ack_transmission"),
        other => panic!("unexpected {other:?}"),
    }
    r.ack_transmission = Some(70_000);
    assert!(matches!(
        Config::from_draft(r.clone(), dirs()),
        Err(DraftError::Invalid(ConfigError::Range { .. }))
    ));
    r.ack_transmission = Some(7);
    let c = Config::from_draft(r, dirs()).unwrap();
    assert_eq!(c.ack_transmission, 7);
    assert_eq!(c.addr_to_peers, None);
}
