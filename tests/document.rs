use giganto::document::{insert_toml_peers, parse_toml_element_to_string, DocError, PeerRecord};
use toml_edit::DocumentMut;

const DOC: &str = r#"# service configuration
publish_srv_addr = "0.0.0.0:38371"   # keep this comment
graphql_srv_addr = "127.0.0.1:8442"
max_open_files = 8000
peers = [{ addr = "127.0.0.1:60192", hostname = "node2" }]
"#;

fn doc(text: &str) -> DocumentMut {
    text.parse::<DocumentMut>().unwrap()
}

fn peer(addr: &str, hostname: &str) -> PeerRecord {
    PeerRecord { addr: addr.to_string(), hostname: hostname.to_string() }
}

#[test]
fn reads_string_fields() {
    let d = doc(DOC);
    assert_eq!(parse_toml_element_to_string("publish_srv_addr", &d).unwrap(), "0.0.0.0:38371");
    match parse_toml_element_to_string("ingest_srv_addr", &d) {
        Err(DocError::NotFound { key }) => assert_eq!(key, "ingest_srv_addr"),
        other => panic!("unexpected {other:?}"),
    }
    match parse_toml_element_to_string("max_open_files", &d) {
        Err(DocError::TypeMismatch { key }) => assert_eq!(key, "max_open_files"),
        other => panic!("unexpected {other:?}"),
    }
}

#[test]
fn no_peers_given_leaves_document_as_is() {
    let mut d = doc(DOC);
    insert_toml_peers::<PeerRecord>(&mut d, None).unwrap();
    assert_eq!(d.to_string(), DOC);
}

#[test]
fn empty_peer_list_clears_the_array() {
    let mut d = doc(DOC);
    insert_toml_peers::<PeerRecord>(&mut d, Some(vec![])).unwrap();
    let text = d.to_string();
    assert!(text.contains("peers = []"));
    assert!(text.contains("# keep this comment"));
    assert!(d["peers"].as_array().unwrap().is_empty());
}

#[test]
fn peers_are_replaced_with_inline_records() {
    let mut d = doc(DOC);
    let peers = vec![peer("10.0.0.1:38383", "node1"), peer("10.0.0.2:38383", "node3")];
    insert_toml_peers(&mut d, Some(peers)).unwrap();
    let array = d["peers"].as_array().unwrap();
    assert_eq!(array.len(), 2);
    let first = array.get(0).unwrap().as_inline_table().unwrap();
    assert_eq!(first.get("addr").unwrap().as_str(), Some("10.0.0.1:38383"));
    assert_eq!(first.get("hostname").unwrap().as_str(), Some("node1"));
    let second = array.get(1).unwrap().as_inline_table().unwrap();
    assert_eq!(second.get("hostname").unwrap().as_str(), Some("node3"));
    let text = d.to_string();
    assert!(!text.contains("node2"));
    assert!(text.contains("# keep this comment"));
    assert_eq!(parse_toml_element_to_string("graphql_srv_addr", &d).unwrap(), "127.0.0.1:8442");
}

#[test]
fn missing_peer_array_is_refused_untouched() {
    let text = "publish_srv_addr = \"0.0.0.0:38371\"\n";
    let mut d = doc(text);
    match insert_toml_peers(&mut d, Some(vec![peer("10.0.0.1:1", "n")])) {
        Err(DocError::NotFound { key }) => assert_eq!(key, "peers"),
        other => panic!("unexpected {other:?}"),
    }
    assert_eq!(d.to_string(), text);

    let text = "peers = \"not an array\"\n";
    let mut d = doc(text);
    assert!(matches!(
        insert_toml_peers(&mut d, Some(vec![peer("10.0.0.1:1", "n")])),
        Err(DocError::NotFound { .. })
    ));
    assert_eq!(d.to_string(), text);
}

#[test]
fn everything_outside_the_peer_list_is_kept() {
    let text = "# head\nb = 2 # two\n\npeers = [{ addr = \"x\", hostname = \"y\" }]\na = { c = 1 }\n\n[t]\nk = 'v'\n";
    let mut d = doc(text);
    insert_toml_peers(&mut d, Some(vec![peer("10.0.0.1:1", "n1")])).unwrap();
    let expected = "# head\nb = 2 # two\n\npeers = [{ addr = \"10.0.0.1:1\", hostname = \"n1\" }]\na = { c = 1 }\n\n[t]\nk = 'v'\n";
    assert_eq!(d.to_string(), expected);
}

#[test]
fn a_document_without_root_table_has_no_keys() {
    let mut d = doc(DOC);
    *d.as_item_mut() = toml_edit::Item::None;
    assert!(matches!(
        parse_toml_element_to_string("publish_srv_addr", &d),
        Err(DocError::NotFound { .. })
    ));
    assert!(matches!(
        insert_toml_peers(&mut d, Some(vec![peer("10.0.0.1:1", "n")])),
        Err(DocError::NotFound { .. })
    ));
}
