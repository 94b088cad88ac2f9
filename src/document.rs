//! Structure-preserving edits of the persisted configuration document.
use toml_edit::{DocumentMut, InlineTable};
use vstd::prelude::*;

verus! {

#[verifier::external_type_specification]
#[verifier::external_body]
pub struct ExDocumentMut(DocumentMut);

/// The key of the peer list in the configuration document.
pub const PEERS_KEY: &'static str = "peers";
/// The key of a peer's address within its record.
pub const PEER_ADDR_KEY: &'static str = "addr";
/// The key of a peer's host name within its record.
pub const PEER_HOSTNAME_KEY: &'static str = "hostname";

/// The keys of the document's root table whose item is not `Item::None`, each
/// with its text where its value is a string, `None` where it is not. A
/// document whose root is not a table has no keys.
pub uninterp spec fn doc_strings(d: DocumentMut) -> Map<Seq<char>, Option<Seq<char>>>;

/// The keys of the document's root table whose value is an array, each with
/// its elements read as inline records of keys and texts, in insertion order.
/// A document whose root is not a table has no keys.
pub uninterp spec fn doc_arrays(d: DocumentMut) -> Map<Seq<char>, Seq<Seq<(Seq<char>, Seq<char>)>>>;

/// The document as text with the value under a root key left out: every
/// other item, every key, comment and blank, and their order.
pub uninterp spec fn doc_outside(d: DocumentMut, key: Seq<char>) -> Seq<char>;

/// Relies on `DocumentMut::as_item`, `Item::as_table`, `Table::get` and
/// `Item::as_str` of toml_edit: the item under a root key, and its text where
/// it is a string.
#[verifier::external_body]
fn lookup_str(doc: &DocumentMut, key: &str) -> (r: Option<Option<String>>)
    ensures
        match r {
            None => !doc_strings(*doc).contains_key(key@),
            Some(None) => doc_strings(*doc).contains_key(key@) && doc_strings(*doc)[key@] is None,
            Some(Some(s)) => doc_strings(*doc).contains_key(key@) && doc_strings(*doc)[key@]
                == Some(s@),
        },
{
    match doc.as_item().as_table().and_then(|t| t.get(key)) {
        None => None,
        Some(item) => Some(item.as_str().map(str::to_owned)),
    }
}

/// Relies on `DocumentMut::as_item`, `Item::as_table`, `Table::get` and
/// `Item::is_array` of toml_edit: whether the item under a root key is an
/// array.
#[verifier::external_body]
fn is_array_at(doc: &DocumentMut, key: &str) -> (r: bool)
    ensures
        r == doc_arrays(*doc).contains_key(key@),
{
    match doc.as_item().as_table().and_then(|t| t.get(key)) {
        None => false,
        Some(item) => item.is_array(),
    }
}

/// Relies on `DocumentMut::as_item_mut`, `Item::as_table_mut`,
/// `Table::get_mut`, `Item::as_array_mut` and `Array::clear` of toml_edit:
/// empties the array under a root key and touches nothing else.
#[verifier::external_body]
fn clear_array_at(doc: &mut DocumentMut, key: &str)
    requires
        doc_arrays(*old(doc)).contains_key(key@),
    ensures
        doc_arrays(*final(doc)) == doc_arrays(*old(doc)).insert(key@, Seq::empty()),
        doc_strings(*final(doc)) == doc_strings(*old(doc)),
        doc_outside(*final(doc), key@) == doc_outside(*old(doc), key@),
{
    let table = doc.as_item_mut().as_table_mut();
    if let Some(array) = table.and_then(|t| t.get_mut(key)).and_then(|item| item.as_array_mut()) {
        array.clear();
    }
}

/// Relies on `DocumentMut::as_item_mut`, `Item::as_table_mut`,
/// `Table::get_mut`, `Item::as_array_mut`, `InlineTable::insert` and
/// `Array::push` of toml_edit: appends an inline record of two distinct string
/// fields, in that order, to the array under a root key and touches nothing
/// else.
#[verifier::external_body]
fn push_record_at(doc: &mut DocumentMut, key: &str, k1: &str, v1: &str, k2: &str, v2: &str)
    requires
        doc_arrays(*old(doc)).contains_key(key@),
        k1@ != k2@,
    ensures
        doc_arrays(*final(doc)) == doc_arrays(*old(doc)).insert(
            key@,
            doc_arrays(*old(doc))[key@].push(seq![(k1@, v1@), (k2@, v2@)]),
        ),
        doc_strings(*final(doc)) == doc_strings(*old(doc)),
        doc_outside(*final(doc), key@) == doc_outside(*old(doc), key@),
{
    let table = doc.as_item_mut().as_table_mut();
    if let Some(array) = table.and_then(|t| t.get_mut(key)).and_then(|item| item.as_array_mut()) {
        let mut record = InlineTable::new();
        record.insert(k1, v1.into());
        record.insert(k2, v2.into());
        array.push(record);
    }
}

/// A failure to read or edit the document.
#[derive(Clone, Debug)]
pub enum DocError {
    /// The key is not in the document.
    NotFound { key: String },
    /// The key is there, but its value has another shape.
    TypeMismatch { key: String },
}

/// What a peer contributes to the document: its address and its host name,
/// as texts.
pub trait TomlPeers {
    spec fn hostname_text(&self) -> Seq<char>;

    spec fn addr_text(&self) -> Seq<char>;

    fn get_hostname(&self) -> (r: String)
        ensures
            r@ == self.hostname_text(),
    ;

    fn get_addr(&self) -> (r: String)
        ensures
            r@ == self.addr_text(),
    ;
}

/// A peer as the document records it.
#[derive(Clone, Debug)]
pub struct PeerRecord {
    pub addr: String,
    pub hostname: String,
}

impl TomlPeers for PeerRecord {
    open spec fn hostname_text(&self) -> Seq<char> {
        self.hostname@
    }

    open spec fn addr_text(&self) -> Seq<char> {
        self.addr@
    }

    fn get_hostname(&self) -> (r: String) {
        self.hostname.clone()
    }

    fn get_addr(&self) -> (r: String) {
        self.addr.clone()
    }
}

/// The record that the document holds for a peer.
pub open spec fn peer_record<T: TomlPeers>(p: T) -> Seq<(Seq<char>, Seq<char>)> {
    seq![(PEER_ADDR_KEY@, p.addr_text()), (PEER_HOSTNAME_KEY@, p.hostname_text())]
}

pub open spec fn peer_records<T: TomlPeers>(v: Seq<T>) -> Seq<Seq<(Seq<char>, Seq<char>)>> {
    v.map_values(|p: T| peer_record(p))
}

/// Reads a top-level string of the document.
pub fn parse_toml_element_to_string(key: &str, doc: &DocumentMut) -> (r: Result<String, DocError>)
    ensures
        match r {
            Ok(s) => doc_strings(*doc).contains_key(key@) && doc_strings(*doc)[key@] == Some(s@),
            Err(DocError::NotFound { key: k }) => k@ == key@ && !doc_strings(*doc).contains_key(
                key@,
            ),
            Err(DocError::TypeMismatch { key: k }) => k@ == key@ && doc_strings(*doc).contains_key(
                key@,
            ) && doc_strings(*doc)[key@] is None,
        },
{
    match lookup_str(doc, key) {
        None => Err(DocError::NotFound { key: key.to_owned() }),
        Some(None) => Err(DocError::TypeMismatch { key: key.to_owned() }),
        Some(Some(s)) => Ok(s),
    }
}

/// Replaces the peer list of the document with one inline record per peer,
/// leaving everything outside that list as it was. With no peers given the
/// document is left as it is; a document without a peer array is refused and
/// left as it is.
pub fn insert_toml_peers<T: TomlPeers>(doc: &mut DocumentMut, input: Option<Vec<T>>) -> (r: Result<
    (),
    DocError,
>)
    ensures
        match input {
            None => r is Ok && *final(doc) == *old(doc),
            Some(peers) => if doc_arrays(*old(doc)).contains_key(PEERS_KEY@) {
                r is Ok && doc_arrays(*final(doc)) == doc_arrays(*old(doc)).insert(
                    PEERS_KEY@,
                    peer_records(peers@),
                ) && doc_strings(*final(doc)) == doc_strings(*old(doc)) && doc_outside(
                    *final(doc),
                    PEERS_KEY@,
                ) == doc_outside(*old(doc), PEERS_KEY@)
            } else {
                r matches Err(DocError::NotFound { key: k }) && k@ == PEERS_KEY@ && *final(doc)
                    == *old(doc)
            },
        },
{
    match input {
        None => Ok(()),
        Some(peers) => {
            if !is_array_at(doc, PEERS_KEY) {
                return Err(DocError::NotFound { key: PEERS_KEY.to_owned() });
            }
            let ghost arrays0 = doc_arrays(*doc);
            let ghost strings0 = doc_strings(*doc);
            let ghost outside0 = doc_outside(*doc, PEERS_KEY@);
            clear_array_at(doc, PEERS_KEY);
            let mut i: usize = 0;
            assert(peer_records(peers@.take(0)) =~= Seq::empty());
            while i < peers.len()
                invariant
                    i <= peers@.len(),
                    doc_arrays(*doc) == arrays0.insert(
                        PEERS_KEY@,
                        peer_records(peers@.take(i as int)),
                    ),
                    doc_strings(*doc) == strings0,
                    doc_outside(*doc, PEERS_KEY@) == outside0,
                decreases peers@.len() - i,
            {
                let addr = peers[i].get_addr();
                let hostname = peers[i].get_hostname();
                assert(doc_arrays(*doc).contains_key(PEERS_KEY@));
                proof {
                    reveal_strlit("addr");
                    reveal_strlit("hostname");
                    assert(PEER_ADDR_KEY@.len() != PEER_HOSTNAME_KEY@.len());
                }
                push_record_at(
                    doc,
                    PEERS_KEY,
                    PEER_ADDR_KEY,
                    addr.as_str(),
                    PEER_HOSTNAME_KEY,
                    hostname.as_str(),
                );
                assert(peer_records(peers@.take(i as int + 1)) =~= peer_records(
                    peers@.take(i as int),
                ).push(peer_record(peers@[i as int])));
                assert(doc_arrays(*doc) =~= arrays0.insert(
                    PEERS_KEY@,
                    peer_records(peers@.take(i as int + 1)),
                ));
                i = i + 1;
            }
            assert(peers@.take(peers@.len() as int) =~= peers@);
            Ok(())
        },
    }
}

} // verus!
