//! The persistent store: documents under the digest of their content, and
//! slug records under the slug.

use vstd::prelude::*;
use vstd::bytes::*;
use vstd::slice::*;
use vstd::string::*;
use vstd::utf8::*;
use crate::codec::{
    fits_string_field, lemma_parse_string_field, lemma_parse_string_field_inverse,
    parse_string_field, put_bytes, put_string, put_u32, put_u64, string_field, take_string,
    DecodeError, FromIVec, IntoIVec, U32_WIDTH, U64_WIDTH,
};
use crate::errors::StoreError;

verus! {

/// Number of bytes of a content digest.
pub const HASH_LEN: usize = 32;

/// Whether the storage engine compresses what it writes.
pub const USE_COMPRESSION: bool = true;

/// Level at which the storage engine compresses what it writes.
pub const COMPRESSION_FACTOR: i32 = 10;

/// Name of the namespace that holds the slug records.
pub const SLUG_NAMESPACE: &'static str = "slugs";

/// Name of the namespace that holds the documents.
pub const DOCUMENT_NAMESPACE: &'static str = "documents";

/// The content address of a document: the digest of its bytes. It is
/// computed from the content, or read back from the store, never chosen.
#[derive(Debug, Clone, Copy, PartialEq, Eq)]
pub struct DocumentHash([u8; 32]);

impl View for DocumentHash {
    type V = Seq<u8>;

    closed spec fn view(&self) -> Seq<u8> {
        self.0@
    }
}

/// A point in time: whole seconds since the Unix epoch, and the nanoseconds
/// into that second.
#[derive(Debug, Clone, Copy, PartialEq, Eq, Structural)]
pub struct Timestamp {
    pub seconds: i64,
    pub nanoseconds: u32,
}

/// A stored document: its text, and when it was first stored.
#[derive(Debug, Clone, PartialEq)]
pub struct DocumentRecord {
    pub content: String,
    pub created: Timestamp,
}

/// What a `DocumentRecord` holds.
pub ghost struct DocumentRecordView {
    pub content: Seq<char>,
    pub created: Timestamp,
}

impl View for DocumentRecord {
    type V = DocumentRecordView;

    open spec fn view(&self) -> DocumentRecordView {
        DocumentRecordView { content: self.content@, created: self.created }
    }
}

/// What a slug stands for: the document it names, and the secret that
/// authorizes changing or removing the slug.
#[derive(Debug, Clone, PartialEq)]
pub struct SlugRecord {
    pub document_hash: DocumentHash,
    pub edit_code: String,
}

/// What a `SlugRecord` holds.
pub ghost struct SlugRecordView {
    pub document_hash: Seq<u8>,
    pub edit_code: Seq<char>,
}

impl View for SlugRecord {
    type V = SlugRecordView;

    open spec fn view(&self) -> SlugRecordView {
        SlugRecordView { document_hash: self.document_hash@, edit_code: self.edit_code@ }
    }
}

/// The stored form of a timestamp: the seconds as a 64-bit two's complement
/// little-endian integer, then the nanoseconds as a 32-bit one.
pub open spec fn timestamp_field(t: Timestamp) -> Seq<u8> {
    spec_u64_to_le_bytes(t.seconds as u64) + spec_u32_to_le_bytes(t.nanoseconds)
}

/// Width of a stored timestamp.
pub const TIMESTAMP_WIDTH: usize = U64_WIDTH + U32_WIDTH;

/// The timestamp that twelve bytes store.
pub open spec fn parse_timestamp_field(bytes: Seq<u8>) -> Timestamp {
    Timestamp {
        seconds: spec_u64_from_le_bytes(bytes.subrange(0, U64_WIDTH as int)) as i64,
        nanoseconds: spec_u32_from_le_bytes(
            bytes.subrange(U64_WIDTH as int, TIMESTAMP_WIDTH as int),
        ),
    }
}

impl DocumentRecordView {
    /// A record that can be the view of a value in memory.
    pub open spec fn wf(self) -> bool {
        fits_string_field(self.content)
    }
}

impl SlugRecordView {
    /// A record that can be the view of a value in memory.
    pub open spec fn wf(self) -> bool {
        &&& self.document_hash.len() == HASH_LEN
        &&& fits_string_field(self.edit_code)
    }
}

impl IntoIVec for DocumentHash {
    open spec fn storable(v: Seq<u8>) -> bool {
        v.len() == HASH_LEN
    }

    /// A digest is stored as its bytes.
    open spec fn encoding(v: Seq<u8>) -> Seq<u8> {
        v
    }

    fn to_ivec(&self) -> (bytes: Vec<u8>) {
        proof {
            self.lemma_len();
        }
        slice_to_vec(self.0.as_slice())
    }
}

impl FromIVec for DocumentHash {
    open spec fn decoding(bytes: Seq<u8>) -> Result<Seq<u8>, DecodeError> {
        if bytes.len() < HASH_LEN {
            Err(DecodeError::UnexpectedEnd)
        } else if bytes.len() > HASH_LEN {
            Err(DecodeError::TrailingBytes)
        } else {
            Ok(bytes)
        }
    }

    fn from_ivec(bytes: &[u8]) -> (r: Result<Self, DecodeError>) {
        let len: usize = bytes.len();
        if len < HASH_LEN {
            assert(DocumentHash::decoding(bytes@) is Err);
            return Err(DecodeError::UnexpectedEnd);
        }
        if len > HASH_LEN {
            return Err(DecodeError::TrailingBytes);
        }
        let mut digest: [u8; 32] = [0u8; 32];
        let mut i: usize = 0;
        while i < HASH_LEN
            invariant
                0 <= i <= HASH_LEN,
                bytes@.len() == HASH_LEN,
                forall|j: int| 0 <= j < i ==> digest@[j] == bytes@[j],
            decreases HASH_LEN - i,
        {
            digest[i] = bytes[i];
            i += 1;
        }
        assert(digest@ =~= bytes@);
        Ok(DocumentHash(digest))
    }

    proof fn lemma_round_trip(v: Seq<u8>) {
    }

    proof fn lemma_decoding_exact(bytes: Seq<u8>) {
    }
}

impl IntoIVec for SlugRecord {
    open spec fn storable(v: SlugRecordView) -> bool {
        v.wf()
    }

    /// The digest, then the edit code as a string field.
    open spec fn encoding(v: SlugRecordView) -> Seq<u8> {
        v.document_hash + string_field(v.edit_code)
    }

    fn to_ivec(&self) -> (bytes: Vec<u8>) {
        proof {
            self.document_hash.lemma_len();
        }
        let mut out: Vec<u8> = Vec::new();
        put_bytes(&mut out, self.document_hash.0.as_slice());
        put_string(&mut out, self.edit_code.as_str());
        out
    }
}

impl FromIVec for SlugRecord {
    open spec fn decoding(bytes: Seq<u8>) -> Result<SlugRecordView, DecodeError> {
        if bytes.len() < HASH_LEN {
            Err(DecodeError::UnexpectedEnd)
        } else {
            match parse_string_field(bytes.subrange(HASH_LEN as int, bytes.len() as int)) {
                Ok((edit_code, rest)) => if rest.len() == 0 {
                    Ok(
                        SlugRecordView {
                            document_hash: bytes.subrange(0, HASH_LEN as int),
                            edit_code,
                        },
                    )
                } else {
                    Err(DecodeError::TrailingBytes)
                },
                Err(e) => Err(e),
            }
        }
    }

    fn from_ivec(bytes: &[u8]) -> (r: Result<Self, DecodeError>) {
        let len: usize = bytes.len();
        if len < HASH_LEN {
            return Err(DecodeError::UnexpectedEnd);
        }
        let tail = slice_subrange(bytes, HASH_LEN, len);
        match take_string(tail) {
            Ok((edit_code, used)) => {
                if used != tail.len() {
                    return Err(DecodeError::TrailingBytes);
                }
                match DocumentHash::from_ivec(slice_subrange(bytes, 0, HASH_LEN)) {
                    Ok(document_hash) => Ok(SlugRecord { document_hash, edit_code }),
                    Err(e) => Err(e),
                }
            },
            Err(e) => Err(e),
        }
    }

    proof fn lemma_round_trip(v: SlugRecordView) {
        let bytes = SlugRecord::encoding(v);
        let tail = bytes.subrange(HASH_LEN as int, bytes.len() as int);
        assert(tail =~= string_field(v.edit_code) + Seq::<u8>::empty());
        lemma_parse_string_field(v.edit_code, Seq::<u8>::empty());
        assert(bytes.subrange(0, HASH_LEN as int) =~= v.document_hash);
    }

    proof fn lemma_decoding_exact(bytes: Seq<u8>) {
        lemma_parse_string_field_inverse(bytes.subrange(HASH_LEN as int, bytes.len() as int));
    }
}

impl IntoIVec for DocumentRecord {
    open spec fn storable(v: DocumentRecordView) -> bool {
        v.wf()
    }

    /// The content as a string field, then the creation time.
    open spec fn encoding(v: DocumentRecordView) -> Seq<u8> {
        string_field(v.content) + timestamp_field(v.created)
    }

    fn to_ivec(&self) -> (bytes: Vec<u8>) {
        let mut out: Vec<u8> = Vec::new();
        put_string(&mut out, self.content.as_str());
        put_u64(&mut out, #[verifier::truncate] (self.created.seconds as u64));
        put_u32(&mut out, self.created.nanoseconds);
        out
    }
}

impl FromIVec for DocumentRecord {
    open spec fn decoding(bytes: Seq<u8>) -> Result<DocumentRecordView, DecodeError> {
        match parse_string_field(bytes) {
            Ok((content, rest)) => if rest.len() < TIMESTAMP_WIDTH {
                Err(DecodeError::UnexpectedEnd)
            } else if rest.len() > TIMESTAMP_WIDTH {
                Err(DecodeError::TrailingBytes)
            } else {
                Ok(DocumentRecordView { content, created: parse_timestamp_field(rest) })
            },
            Err(e) => Err(e),
        }
    }

    fn from_ivec(bytes: &[u8]) -> (r: Result<Self, DecodeError>) {
        match take_string(bytes) {
            Ok((content, used)) => {
                let len: usize = bytes.len();
                let left: usize = len - used;
                if left < TIMESTAMP_WIDTH {
                    return Err(DecodeError::UnexpectedEnd);
                }
                if left > TIMESTAMP_WIDTH {
                    return Err(DecodeError::TrailingBytes);
                }
                let rest = slice_subrange(bytes, used, len);
                let seconds_bits: u64 = u64_from_le_bytes(slice_subrange(rest, 0, U64_WIDTH));
                let nanoseconds: u32 = u32_from_le_bytes(
                    slice_subrange(rest, U64_WIDTH, TIMESTAMP_WIDTH),
                );
                let seconds: i64 = #[verifier::truncate] (seconds_bits as i64);
                Ok(DocumentRecord { content, created: Timestamp { seconds, nanoseconds } })
            },
            Err(e) => Err(e),
        }
    }

    proof fn lemma_round_trip(v: DocumentRecordView) {
        lemma_parse_string_field(v.content, timestamp_field(v.created));
        lemma_timestamp_field(v.created, Seq::<u8>::empty());
    }

    proof fn lemma_decoding_exact(bytes: Seq<u8>) {
        lemma_parse_string_field_inverse(bytes);
        let parsed = parse_string_field(bytes)->Ok_0;
        lemma_timestamp_field(parse_timestamp_field(parsed.1), parsed.1);
    }
}

/// Twelve bytes that store a timestamp are the stored form of that timestamp,
/// and a stored timestamp reads back as itself.
pub proof fn lemma_timestamp_field(t: Timestamp, bytes: Seq<u8>)
    ensures
        timestamp_field(t).len() == TIMESTAMP_WIDTH,
        parse_timestamp_field(timestamp_field(t)) == t,
        bytes.len() == TIMESTAMP_WIDTH ==> timestamp_field(parse_timestamp_field(bytes)) == bytes,
{
    lemma_auto_spec_u64_to_from_le_bytes();
    lemma_auto_spec_u32_to_from_le_bytes();
    let field = timestamp_field(t);
    let bits = t.seconds as u64;
    assert(field.subrange(0, U64_WIDTH as int) =~= spec_u64_to_le_bytes(bits));
    assert(field.subrange(U64_WIDTH as int, TIMESTAMP_WIDTH as int) =~= spec_u32_to_le_bytes(
        t.nanoseconds,
    ));
    let seconds = t.seconds;
    assert((seconds as u64) as i64 == seconds) by (bit_vector);
    if bytes.len() == TIMESTAMP_WIDTH {
        let word = spec_u64_from_le_bytes(bytes.subrange(0, U64_WIDTH as int));
        assert((word as i64) as u64 == word) by (bit_vector);
    }
}

/// `sled::Db`: the handle on an open store. Nothing of it is read here.
#[verifier::external_type_specification]
#[verifier::external_body]
pub struct ExSledDb(sled::Db);

/// `sled::Tree`: the handle on one namespace of an open store. Nothing of
/// it is read here but through `tree_entries`.
#[verifier::external_type_specification]
#[verifier::external_body]
pub struct ExSledTree(sled::Tree);

/// The key-value pairs that a `sled::Tree` holds. They change only through
/// the handle: the store is opened by one `Database`, which keeps its
/// handles to itself.
pub uninterp spec fn tree_entries(tree: sled::Tree) -> Map<Seq<u8>, Seq<u8>>;

/// What `sled::Tree::name` returns for `tree`: the name under which the
/// tree was opened.
pub uninterp spec fn tree_name(tree: sled::Tree) -> Seq<u8>;

/// What `blake3::hash` returns for `input`: its BLAKE3 digest.
pub uninterp spec fn blake3_digest(input: Seq<u8>) -> Seq<u8>;

/// `blake3::hash`: the 32-byte BLAKE3 digest of `input`, which depends on
/// the bytes of `input` alone.
#[verifier::external_body]
fn blake3_hash(input: &[u8]) -> (digest: [u8; 32])
    ensures
        digest@ == blake3_digest(input@),
{
    *blake3::hash(input).as_bytes()
}

/// `sled::Config::open`: opens, or creates, the store in the directory
/// `path`; with zstd compression at level `compression_factor` if
/// `use_compression` is set. Nothing is claimed of what the store holds.
#[verifier::external_body]
fn open_store(path: &str, use_compression: bool, compression_factor: i32) -> (r: Result<
    sled::Db,
    sled::Error,
>) {
    sled::Config::default()
        .use_compression(use_compression)
        .compression_factor(compression_factor)
        .path(path)
        .open()
}

/// `sled::Db::open_tree`: the tree called `name`, created if the store has
/// none of that name. The tree that it gives bears that name. Nothing is
/// claimed of what the tree holds.
#[verifier::external_body]
fn open_tree(db: &sled::Db, name: &str) -> (r: Result<sled::Tree, sled::Error>)
    ensures
        match r {
            Ok(tree) => tree_name(tree) == encode_utf8(name@),
            Err(_) => true,
        },
{
    db.open_tree(name)
}

/// `sled::Tree::insert`: when it succeeds, `key` is bound to `value`, every
/// other key is as before, and the value that `key` had before, if any, is
/// returned. Nothing is claimed of the tree after a failure.
#[verifier::external_body]
fn tree_insert(tree: &mut sled::Tree, key: &[u8], value: &[u8]) -> (r: Result<
    Option<Vec<u8>>,
    sled::Error,
>)
    ensures
        match r {
            Ok(previous) => {
                &&& tree_entries(*final(tree)) == tree_entries(*old(tree)).insert(key@, value@)
                &&& match previous {
                    Some(bytes) => tree_entries(*old(tree)).contains_key(key@) && tree_entries(
                        *old(tree),
                    )[key@] == bytes@,
                    None => !tree_entries(*old(tree)).contains_key(key@),
                }
            },
            Err(_) => true,
        },
        tree_name(*final(tree)) == tree_name(*old(tree)),
{
    tree.insert(key, value).map(|previous| previous.map(|bytes| bytes.to_vec()))
}

/// `sled::Tree::get`: when it succeeds, the value that `key` is bound to, or
/// `None` if the tree has no such key.
#[verifier::external_body]
fn tree_get(tree: &sled::Tree, key: &[u8]) -> (r: Result<Option<Vec<u8>>, sled::Error>)
    ensures
        match r {
            Ok(Some(bytes)) => tree_entries(*tree).contains_key(key@) && tree_entries(*tree)[key@]
                == bytes@,
            Ok(None) => !tree_entries(*tree).contains_key(key@),
            Err(_) => true,
        },
{
    tree.get(key).map(|found| found.map(|bytes| bytes.to_vec()))
}

/// `sled::Tree::remove`: when it succeeds, `key` is bound to nothing, every
/// other key is as before, and the value that `key` had before, if any, is
/// returned. Nothing is claimed of the tree after a failure.
#[verifier::external_body]
fn tree_remove(tree: &mut sled::Tree, key: &[u8]) -> (r: Result<Option<Vec<u8>>, sled::Error>)
    ensures
        match r {
            Ok(previous) => {
                &&& tree_entries(*final(tree)) == tree_entries(*old(tree)).remove(key@)
                &&& match previous {
                    Some(bytes) => tree_entries(*old(tree)).contains_key(key@) && tree_entries(
                        *old(tree),
                    )[key@] == bytes@,
                    None => !tree_entries(*old(tree)).contains_key(key@),
                }
            },
            Err(_) => true,
        },
        tree_name(*final(tree)) == tree_name(*old(tree)),
{
    tree.remove(key).map(|previous| previous.map(|bytes| bytes.to_vec()))
}

/// `sled::Tree::contains_key`: when it succeeds, whether the tree binds
/// `key`.
#[verifier::external_body]
fn tree_contains_key(tree: &sled::Tree, key: &[u8]) -> (r: Result<bool, sled::Error>)
    ensures
        match r {
            Ok(present) => present == tree_entries(*tree).contains_key(key@),
            Err(_) => true,
        },
{
    tree.contains_key(key)
}

/// The view of what an `Option` holds.
pub open spec fn option_view<T: View>(value: Option<T>) -> Option<T::V> {
    match value {
        Some(inner) => Some(inner@),
        None => None,
    }
}

/// What `entries` stores under `key`, read as a `T`: nothing, the view of a
/// value, or the reason why the bytes there store no `T`.
pub open spec fn stored<T: FromIVec>(entries: Map<Seq<u8>, Seq<u8>>, key: Seq<u8>) -> Result<
    Option<T::V>,
    DecodeError,
> {
    if entries.contains_key(key) {
        match T::decoding(entries[key]) {
            Ok(value) => Ok(Some(value)),
            Err(e) => Err(e),
        }
    } else {
        Ok(None)
    }
}

/// The digest under which a document with the text `content` is stored.
pub open spec fn content_hash(content: Seq<char>) -> Seq<u8> {
    blake3_digest(encode_utf8(content))
}

/// The key under which the record of `slug` is stored: its UTF-8 bytes.
pub open spec fn slug_key(slug: Seq<char>) -> Seq<u8> {
    encode_utf8(slug)
}

/// What the store holds: the two namespaces, each as a map from key bytes to
/// value bytes.
pub ghost struct StoreView {
    pub documents: Map<Seq<u8>, Seq<u8>>,
    pub slugs: Map<Seq<u8>, Seq<u8>>,
}

impl StoreView {
    /// The document stored under `hash`.
    pub open spec fn document(self, hash: Seq<u8>) -> Result<
        Option<DocumentRecordView>,
        DecodeError,
    > {
        stored::<DocumentRecord>(self.documents, hash)
    }

    /// The record stored under `slug`.
    pub open spec fn slug(self, slug: Seq<char>) -> Result<Option<SlugRecordView>, DecodeError> {
        stored::<SlugRecord>(self.slugs, slug_key(slug))
    }

    /// The store after `record` was offered to it: written under the digest
    /// of its content, unless that digest already has an entry.
    pub open spec fn with_document(self, record: DocumentRecordView) -> StoreView {
        if self.documents.contains_key(content_hash(record.content)) {
            self
        } else {
            StoreView {
                documents: self.documents.insert(
                    content_hash(record.content),
                    DocumentRecord::encoding(record),
                ),
                slugs: self.slugs,
            }
        }
    }

    /// The store without the document under `hash`.
    pub open spec fn without_document(self, hash: Seq<u8>) -> StoreView {
        StoreView { documents: self.documents.remove(hash), slugs: self.slugs }
    }

    /// The store with `slug` bound to `record`.
    pub open spec fn with_slug(self, slug: Seq<char>, record: SlugRecordView) -> StoreView {
        StoreView {
            documents: self.documents,
            slugs: self.slugs.insert(slug_key(slug), SlugRecord::encoding(record)),
        }
    }

    /// The store without `slug`.
    pub open spec fn without_slug(self, slug: Seq<char>) -> StoreView {
        StoreView { documents: self.documents, slugs: self.slugs.remove(slug_key(slug)) }
    }
}

impl DocumentHash {
    /// The content address of `content`.
    pub fn digest(content: &[u8]) -> (hash: DocumentHash)
        ensures
            hash@ == blake3_digest(content@),
            hash@.len() == HASH_LEN,
    {
        DocumentHash(blake3_hash(content))
    }

    /// Every digest has `HASH_LEN` bytes.
    pub proof fn lemma_len(self)
        ensures
            self@.len() == HASH_LEN,
    {
        vstd::array::array_len_matches_n(&self.0);
    }
}

impl AsRef<[u8; 32]> for DocumentHash {
    /// The bytes of the digest.
    fn as_ref(&self) -> (bytes: &[u8; 32])
        ensures
            bytes@ == self@,
    {
        &self.0
    }
}

/// The store: one handle on the storage engine and on each of its two
/// namespaces. All writes to the namespaces go through this handle.
#[derive(Debug)]
pub struct Database {
    #[allow(dead_code)]
    db: sled::Db,
    slugs: sled::Tree,
    documents: sled::Tree,
}

impl View for Database {
    type V = StoreView;

    closed spec fn view(&self) -> StoreView {
        StoreView { documents: tree_entries(self.documents), slugs: tree_entries(self.slugs) }
    }
}

impl Database {
    /// The name, in the storage engine, of the namespace that this handle
    /// keeps the slug records in.
    pub closed spec fn slug_namespace(&self) -> Seq<u8> {
        tree_name(self.slugs)
    }

    /// The name, in the storage engine, of the namespace that this handle
    /// keeps the documents in.
    pub closed spec fn document_namespace(&self) -> Seq<u8> {
        tree_name(self.documents)
    }

    /// The handle is on the two namespaces that a store of pastes is made
    /// of: `SLUG_NAMESPACE` for the slug records, `DOCUMENT_NAMESPACE` for
    /// the documents.
    pub open spec fn wf(&self) -> bool {
        &&& self.slug_namespace() == encode_utf8(SLUG_NAMESPACE@)
        &&& self.document_namespace() == encode_utf8(DOCUMENT_NAMESPACE@)
    }

    /// The handle is on the same two namespaces as `before`.
    pub open spec fn same_namespaces(&self, before: &Database) -> bool {
        &&& self.slug_namespace() == before.slug_namespace()
        &&& self.document_namespace() == before.document_namespace()
    }

    /// The two namespaces of a handle are two: no write to one is a write
    /// to the other.
    pub proof fn lemma_namespaces_differ(&self)
        requires
            self.wf(),
        ensures
            self.slug_namespace() != self.document_namespace(),
    {
        reveal_strlit("slugs");
        reveal_strlit("documents");
        encode_utf8_decode_utf8(SLUG_NAMESPACE@);
        encode_utf8_decode_utf8(DOCUMENT_NAMESPACE@);
    }

    /// Opens the store in the directory `path`, creating it if there is
    /// none, and in it the namespace of the slug records and the namespace
    /// of the documents, creating each if the store has none of its name.
    /// Fails with the fault of the storage engine if the store or one of
    /// the namespaces cannot be opened.
    pub fn new(path: &str) -> (r: Result<Database, sled::Error>)
        ensures
            match r {
                Ok(db) => db.wf(),
                Err(_) => true,
            },
    {
        let db = match open_store(path, USE_COMPRESSION, COMPRESSION_FACTOR) {
            Ok(db) => db,
            Err(e) => { return Err(e); },
        };
        let slugs = match open_tree(&db, SLUG_NAMESPACE) {
            Ok(tree) => tree,
            Err(e) => { return Err(e); },
        };
        let documents = match open_tree(&db, DOCUMENT_NAMESPACE) {
            Ok(tree) => tree,
            Err(e) => { return Err(e); },
        };
        Ok(Database { db, slugs, documents })
    }

    /// Stores `doc` under the digest of its content, unless a document is
    /// stored there already, and returns the digest either way.
    pub fn insert_document(&mut self, doc: &DocumentRecord) -> (r: Result<DocumentHash, StoreError>)
        ensures
            final(self).same_namespaces(old(self)),
            doc@.wf(),
            match r {
                Ok(hash) => {
                    &&& hash@ == content_hash(doc@.content)
                    &&& hash@.len() == HASH_LEN
                    &&& final(self)@ == old(self)@.with_document(doc@)
                },
                Err(e) => e is Sled && final(self)@.slugs == old(self)@.slugs,
            },
    {
        let content = doc.content.as_str().as_bytes();
        assert(content@.len() == spec_slice_len(content));
        let hash = DocumentHash::digest(content);
        match Self::contains_key(&self.documents, hash.0.as_slice()) {
            Ok(true) => Ok(hash),
            Ok(false) => {
                match Self::insert_and_transform::<DocumentRecord, DocumentRecord>(
                    &mut self.documents,
                    hash.0.as_slice(),
                    doc,
                ) {
                    Ok(_) => Ok(hash),
                    Err(e) => Err(e),
                }
            },
            Err(e) => Err(e),
        }
    }

    /// The document stored under `hash`, if there is one.
    pub fn get_document(&self, hash: &DocumentHash) -> (r: Result<
        Option<DocumentRecord>,
        StoreError,
    >)
        ensures
            match r {
                Ok(found) => self@.document(hash@) == Ok::<Option<DocumentRecordView>, DecodeError>(
                    option_view(found),
                ),
                Err(StoreError::Encoding(e)) => self@.document(hash@) == Err::<
                    Option<DocumentRecordView>,
                    DecodeError,
                >(e),
                Err(StoreError::Sled(_)) => true,
            },
    {
        Self::get_and_transform(&self.documents, hash.0.as_slice())
    }

    /// Removes the document stored under `hash`, and returns it.
    pub fn remove_document(&mut self, hash: &DocumentHash) -> (r: Result<
        Option<DocumentRecord>,
        StoreError,
    >)
        ensures
            final(self).same_namespaces(old(self)),
            match r {
                Ok(previous) => {
                    &&& final(self)@ == old(self)@.without_document(hash@)
                    &&& old(self)@.document(hash@) == Ok::<Option<DocumentRecordView>, DecodeError>(
                        option_view(previous),
                    )
                },
                Err(StoreError::Encoding(e)) => {
                    &&& final(self)@ == old(self)@.without_document(hash@)
                    &&& old(self)@.document(hash@) == Err::<Option<DocumentRecordView>, DecodeError>(
                        e,
                    )
                },
                Err(StoreError::Sled(_)) => final(self)@.slugs == old(self)@.slugs,
            },
    {
        Self::remove(&mut self.documents, hash.0.as_slice())
    }

    /// Whether a document is stored under `hash`.
    pub fn contains_document(&self, hash: &DocumentHash) -> (r: Result<bool, StoreError>)
        ensures
            match r {
                Ok(present) => present == self@.documents.contains_key(hash@),
                Err(e) => e is Sled,
            },
    {
        Self::contains_key(&self.documents, hash.0.as_slice())
    }

    /// Binds `slug` to `record`, whatever it was bound to, and returns the
    /// record that it was bound to before.
    pub fn insert_slug(&mut self, slug: &str, record: &SlugRecord) -> (r: Result<
        Option<SlugRecord>,
        StoreError,
    >)
        ensures
            final(self).same_namespaces(old(self)),
            record@.wf(),
            match r {
                Ok(previous) => {
                    &&& final(self)@ == old(self)@.with_slug(slug@, record@)
                    &&& old(self)@.slug(slug@) == Ok::<Option<SlugRecordView>, DecodeError>(
                        option_view(previous),
                    )
                },
                Err(StoreError::Encoding(e)) => {
                    &&& final(self)@ == old(self)@.with_slug(slug@, record@)
                    &&& old(self)@.slug(slug@) == Err::<Option<SlugRecordView>, DecodeError>(e)
                },
                Err(StoreError::Sled(_)) => final(self)@.documents == old(self)@.documents,
            },
    {
        Self::insert_and_transform(&mut self.slugs, slug.as_bytes(), record)
    }

    /// The record that `slug` is bound to, if it is bound.
    pub fn get_slug(&self, slug: &str) -> (r: Result<Option<SlugRecord>, StoreError>)
        ensures
            match r {
                Ok(found) => self@.slug(slug@) == Ok::<Option<SlugRecordView>, DecodeError>(
                    option_view(found),
                ),
                Err(StoreError::Encoding(e)) => self@.slug(slug@) == Err::<
                    Option<SlugRecordView>,
                    DecodeError,
                >(e),
                Err(StoreError::Sled(_)) => true,
            },
    {
        Self::get_and_transform(&self.slugs, slug.as_bytes())
    }

    /// Unbinds `slug`, and returns the record that it was bound to.
    pub fn remove_slug(&mut self, slug: &str) -> (r: Result<Option<SlugRecord>, StoreError>)
        ensures
            final(self).same_namespaces(old(self)),
            match r {
                Ok(previous) => {
                    &&& final(self)@ == old(self)@.without_slug(slug@)
                    &&& old(self)@.slug(slug@) == Ok::<Option<SlugRecordView>, DecodeError>(
                        option_view(previous),
                    )
                },
                Err(StoreError::Encoding(e)) => {
                    &&& final(self)@ == old(self)@.without_slug(slug@)
                    &&& old(self)@.slug(slug@) == Err::<Option<SlugRecordView>, DecodeError>(e)
                },
                Err(StoreError::Sled(_)) => final(self)@.documents == old(self)@.documents,
            },
    {
        Self::remove(&mut self.slugs, slug.as_bytes())
    }

    /// Whether `slug` is bound.
    pub fn contains_slug(&self, slug: &str) -> (r: Result<bool, StoreError>)
        ensures
            match r {
                Ok(present) => present == self@.slugs.contains_key(slug_key(slug@)),
                Err(e) => e is Sled,
            },
    {
        Self::contains_key(&self.slugs, slug.as_bytes())
    }

    /// Reads back what a lookup in the store returned.
    fn transform<T: FromIVec>(found: Option<Vec<u8>>) -> (r: Result<Option<T>, StoreError>)
        ensures
            match r {
                Ok(value) => match found {
                    Some(bytes) => value is Some && T::decoding(bytes@) == Ok::<T::V, DecodeError>(
                        value->Some_0@,
                    ),
                    None => value is None,
                },
                Err(StoreError::Encoding(e)) => found is Some && T::decoding(found->Some_0@)
                    == Err::<T::V, DecodeError>(e),
                Err(StoreError::Sled(_)) => false,
            },
    {
        match found {
            Some(bytes) => match T::from_ivec(bytes.as_slice()) {
                Ok(value) => Ok(Some(value)),
                Err(e) => Err(StoreError::Encoding(e)),
            },
            None => Ok(None),
        }
    }

    fn insert_and_transform<V: IntoIVec, T: FromIVec>(
        store: &mut sled::Tree,
        key: &[u8],
        value: &V,
    ) -> (r: Result<Option<T>, StoreError>)
        ensures
            tree_name(*final(store)) == tree_name(*old(store)),
            V::storable(value@),
            match r {
                Ok(previous) => {
                    &&& tree_entries(*final(store)) == tree_entries(*old(store)).insert(
                        key@,
                        V::encoding(value@),
                    )
                    &&& stored::<T>(tree_entries(*old(store)), key@) == Ok::<
                        Option<T::V>,
                        DecodeError,
                    >(option_view(previous))
                },
                Err(StoreError::Encoding(e)) => {
                    &&& tree_entries(*final(store)) == tree_entries(*old(store)).insert(
                        key@,
                        V::encoding(value@),
                    )
                    &&& stored::<T>(tree_entries(*old(store)), key@) == Err::<
                        Option<T::V>,
                        DecodeError,
                    >(e)
                },
                Err(StoreError::Sled(_)) => true,
            },
    {
        let bytes = value.to_ivec();
        match tree_insert(store, key, bytes.as_slice()) {
            Ok(previous) => Self::transform(previous),
            Err(e) => Err(StoreError::Sled(e)),
        }
    }

    fn get_and_transform<V: FromIVec>(store: &sled::Tree, key: &[u8]) -> (r: Result<
        Option<V>,
        StoreError,
    >)
        ensures
            match r {
                Ok(found) => stored::<V>(tree_entries(*store), key@) == Ok::<
                    Option<V::V>,
                    DecodeError,
                >(option_view(found)),
                Err(StoreError::Encoding(e)) => stored::<V>(tree_entries(*store), key@) == Err::<
                    Option<V::V>,
                    DecodeError,
                >(e),
                Err(StoreError::Sled(_)) => true,
            },
    {
        match tree_get(store, key) {
            Ok(found) => Self::transform(found),
            Err(e) => Err(StoreError::Sled(e)),
        }
    }

    fn remove<V: FromIVec>(store: &mut sled::Tree, key: &[u8]) -> (r: Result<
        Option<V>,
        StoreError,
    >)
        ensures
            tree_name(*final(store)) == tree_name(*old(store)),
            match r {
                Ok(previous) => {
                    &&& tree_entries(*final(store)) == tree_entries(*old(store)).remove(key@)
                    &&& stored::<V>(tree_entries(*old(store)), key@) == Ok::<
                        Option<V::V>,
                        DecodeError,
                    >(option_view(previous))
                },
                Err(StoreError::Encoding(e)) => {
                    &&& tree_entries(*final(store)) == tree_entries(*old(store)).remove(key@)
                    &&& stored::<V>(tree_entries(*old(store)), key@) == Err::<
                        Option<V::V>,
                        DecodeError,
                    >(e)
                },
                Err(StoreError::Sled(_)) => true,
            },
    {
        match tree_remove(store, key) {
            Ok(previous) => Self::transform(previous),
            Err(e) => Err(StoreError::Sled(e)),
        }
    }

    fn contains_key(store: &sled::Tree, key: &[u8]) -> (r: Result<bool, StoreError>)
        ensures
            match r {
                Ok(present) => present == tree_entries(*store).contains_key(key@),
                Err(e) => e is Sled,
            },
    {
        match tree_contains_key(store, key) {
            Ok(present) => Ok(present),
            Err(e) => Err(StoreError::Sled(e)),
        }
    }
}

/// Deduplication: two documents with the same content have the same digest,
/// and offering the second to a store that was offered the first changes
/// nothing, so the number of stored documents does not grow.
pub proof fn lemma_insert_document_dedup(
    store: StoreView,
    first: DocumentRecordView,
    second: DocumentRecordView,
)
    requires
        first.content == second.content,
    ensures
        content_hash(first.content) == content_hash(second.content),
        store.with_document(first).with_document(second) == store.with_document(first),
        store.with_document(first).with_document(second).documents.len() == store.with_document(
            first,
        ).documents.len(),
{
}

/// Offering a document never removes or rewrites a stored document.
pub proof fn lemma_with_document_keeps_documents(
    store: StoreView,
    record: DocumentRecordView,
    hash: Seq<u8>,
)
    requires
        store.documents.contains_key(hash),
    ensures
        store.with_document(record).documents.contains_key(hash),
        store.with_document(record).documents[hash] == store.documents[hash],
{
}

} // verus!
