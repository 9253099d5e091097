use paste_service::codec::{DecodeError, IntoIVec};
use paste_service::db::{Database, DocumentHash, DocumentRecord, SlugRecord, Timestamp};
use paste_service::errors::StoreError;

fn fresh_path(test: &str) -> String {
    let stamp = std::time::SystemTime::now()
        .duration_since(std::time::UNIX_EPOCH)
        .map(|since| since.as_nanos())
        .unwrap_or(0);
    format!("/tmp/paste_service_store_{}_{}", test, stamp)
}

fn open_store(test: &str) -> Database {
    Database::new(&fresh_path(test)).unwrap()
}

fn document(content: &str, seconds: i64) -> DocumentRecord {
    DocumentRecord { content: content.to_string(), created: Timestamp { seconds, nanoseconds: 0 } }
}

#[test]
fn digest_is_blake3_of_the_content() {
    let hash = DocumentHash::digest(b"hello world");
    let bytes: &[u8; 32] = hash.as_ref();
    let hex: String = bytes.iter().map(|byte| format!("{:02x}", byte)).collect();
    assert_eq!(hex, "d74981efa70a0c880b8d8c1985d075dbcbf679b99a5f9914e5aaf96b831a9e24");
    assert_eq!(bytes, blake3::hash(b"hello world").as_bytes());
    assert_ne!(DocumentHash::digest(b"hello world"), DocumentHash::digest(b"hello world!"));
}

#[test]
fn inserted_document_is_stored_under_its_digest() {
    let mut db = open_store("insert_document");
    let record = document("hello world", 10);
    let hash = db.insert_document(&record).unwrap();
    assert_eq!(hash, DocumentHash::digest(b"hello world"));
    assert!(db.contains_document(&hash).unwrap());
    assert_eq!(db.get_document(&hash).unwrap(), Some(record));
}

#[test]
fn document_that_was_never_stored_is_absent() {
    let db = open_store("absent_document");
    let hash = DocumentHash::digest(b"nothing here");
    assert!(!db.contains_document(&hash).unwrap());
    assert_eq!(db.get_document(&hash).unwrap(), None);
}

#[test]
fn identical_content_is_stored_once() {
    let mut db = open_store("dedup");
    let first = db.insert_document(&document("same text", 10)).unwrap();
    let second = db.insert_document(&document("same text", 20)).unwrap();
    assert_eq!(first, second);
    // The record of the first insert is the one that stays.
    assert_eq!(db.get_document(&first).unwrap(), Some(document("same text", 10)));
}

#[test]
fn distinct_content_is_stored_apart() {
    let mut db = open_store("distinct");
    let first = db.insert_document(&document("one", 1)).unwrap();
    let second = db.insert_document(&document("two", 2)).unwrap();
    assert_ne!(first, second);
    assert_eq!(db.get_document(&first).unwrap(), Some(document("one", 1)));
    assert_eq!(db.get_document(&second).unwrap(), Some(document("two", 2)));
}

#[test]
fn removed_document_is_returned_and_gone() {
    let mut db = open_store("remove_document");
    let record = document("to be removed", 3);
    let hash = db.insert_document(&record).unwrap();
    assert_eq!(db.remove_document(&hash).unwrap(), Some(record));
    assert!(!db.contains_document(&hash).unwrap());
    assert_eq!(db.remove_document(&hash).unwrap(), None);
}

#[test]
fn slug_is_bound_read_rebound_and_unbound() {
    let mut db = open_store("slugs");
    let first = SlugRecord {
        document_hash: DocumentHash::digest(b"one"),
        edit_code: "code-one".to_string(),
    };
    let second = SlugRecord {
        document_hash: DocumentHash::digest(b"two"),
        edit_code: "code-two".to_string(),
    };
    assert!(!db.contains_slug("abcd1234").unwrap());
    assert_eq!(db.get_slug("abcd1234").unwrap(), None);
    assert_eq!(db.insert_slug("abcd1234", &first).unwrap(), None);
    assert!(db.contains_slug("abcd1234").unwrap());
    assert_eq!(db.get_slug("abcd1234").unwrap(), Some(first.clone()));
    assert_eq!(db.insert_slug("abcd1234", &second).unwrap(), Some(first));
    assert_eq!(db.get_slug("abcd1234").unwrap(), Some(second.clone()));
    assert_eq!(db.remove_slug("abcd1234").unwrap(), Some(second));
    assert!(!db.contains_slug("abcd1234").unwrap());
    assert_eq!(db.remove_slug("abcd1234").unwrap(), None);
}

#[test]
fn slugs_and_documents_are_separate_namespaces() {
    let mut db = open_store("namespaces");
    let hash = db.insert_document(&document("text", 1)).unwrap();
    let record = SlugRecord { document_hash: hash, edit_code: "abcd".to_string() };
    db.insert_slug("slug", &record).unwrap();
    db.remove_slug("slug").unwrap();
    assert!(db.contains_document(&hash).unwrap());
    db.insert_slug("slug", &record).unwrap();
    db.remove_document(&hash).unwrap();
    assert_eq!(db.get_slug("slug").unwrap(), Some(record));
}

#[test]
fn many_slugs_may_name_one_document() {
    let mut db = open_store("shared_document");
    let hash = db.insert_document(&document("shared", 1)).unwrap();
    for slug in ["first", "second", "third"] {
        let record = SlugRecord { document_hash: hash, edit_code: slug.to_string() };
        db.insert_slug(slug, &record).unwrap();
    }
    for slug in ["first", "second", "third"] {
        assert_eq!(db.get_slug(slug).unwrap().unwrap().document_hash, hash);
    }
}

#[test]
fn what_was_written_is_there_after_reopening() {
    let path = fresh_path("reopen");
    let record = document("durable", 5);
    let slug_record = SlugRecord {
        document_hash: DocumentHash::digest(b"durable"),
        edit_code: "abcd".to_string(),
    };
    {
        let mut db = Database::new(&path).unwrap();
        db.insert_document(&record).unwrap();
        db.insert_slug("kept", &slug_record).unwrap();
    }
    let db = Database::new(&path).unwrap();
    assert_eq!(db.get_document(&slug_record.document_hash).unwrap(), Some(record));
    assert_eq!(db.get_slug("kept").unwrap(), Some(slug_record));
    assert_eq!(db.get_slug("other").unwrap(), None);
}

#[test]
fn a_store_is_open_in_one_place_at_a_time() {
    let path = fresh_path("exclusive");
    let first = Database::new(&path).unwrap();
    assert!(Database::new(&path).is_err());
    drop(first);
    assert!(Database::new(&path).is_ok());
}

#[test]
fn a_store_that_cannot_be_opened_is_an_error() {
    assert!(Database::new("/proc/paste_service_no_such_directory/store").is_err());
}

#[test]
fn slug_keys_are_told_apart_byte_for_byte() {
    let mut db = open_store("keys");
    let record = SlugRecord {
        document_hash: DocumentHash::digest(b"x"),
        edit_code: "abcd".to_string(),
    };
    db.insert_slug("abcd", &record).unwrap();
    assert!(!db.contains_slug("ABCD").unwrap());
    assert!(!db.contains_slug("abc").unwrap());
    assert!(!db.contains_slug("abcde").unwrap());
    assert!(!db.contains_slug("").unwrap());
    assert!(db.contains_slug("abcd").unwrap());
}

fn open_raw(path: &str) -> sled::Db {
    sled::Config::default().use_compression(true).compression_factor(10).path(path).open().unwrap()
}

#[test]
fn namespaces_hold_the_stated_keys_and_values() {
    let path = fresh_path("raw_layout");
    let record = document("on disk", 9);
    let hash = DocumentHash::digest(b"on disk");
    let slug_record = SlugRecord { document_hash: hash, edit_code: "abcd".to_string() };
    {
        let mut db = Database::new(&path).unwrap();
        db.insert_document(&record).unwrap();
        db.insert_slug("slug1", &slug_record).unwrap();
    }
    let raw = open_raw(&path);
    let documents = raw.open_tree("documents").unwrap();
    let slugs = raw.open_tree("slugs").unwrap();
    let digest: &[u8; 32] = hash.as_ref();
    assert_eq!(documents.len(), 1);
    assert_eq!(documents.get(digest).unwrap().unwrap().to_vec(), record.to_ivec());
    assert_eq!(slugs.len(), 1);
    assert_eq!(slugs.get(b"slug1").unwrap().unwrap().to_vec(), slug_record.to_ivec());
}

#[test]
fn inserting_identical_content_adds_no_document() {
    let path = fresh_path("count");
    {
        let mut db = Database::new(&path).unwrap();
        db.insert_document(&document("same", 1)).unwrap();
        db.insert_document(&document("same", 2)).unwrap();
        db.insert_document(&document("same", 3)).unwrap();
        db.insert_document(&document("other", 4)).unwrap();
    }
    let raw = open_raw(&path);
    assert_eq!(raw.open_tree("documents").unwrap().len(), 2);
    assert_eq!(raw.open_tree("slugs").unwrap().len(), 0);
}

#[test]
fn bytes_that_store_no_record_are_an_encoding_fault() {
    let path = fresh_path("corrupt");
    let hash = DocumentHash::digest(b"corrupt");
    {
        let raw = open_raw(&path);
        let digest: &[u8; 32] = hash.as_ref();
        raw.open_tree("slugs").unwrap().insert(b"short", vec![1u8, 2, 3]).unwrap();
        raw.open_tree("documents").unwrap().insert(digest, vec![0xffu8; 40]).unwrap();
    }
    let mut db = Database::new(&path).unwrap();
    assert!(db.contains_slug("short").unwrap());
    assert!(matches!(
        db.get_slug("short"),
        Err(StoreError::Encoding(DecodeError::UnexpectedEnd))
    ));
    assert!(db.contains_document(&hash).unwrap());
    assert!(matches!(
        db.get_document(&hash),
        Err(StoreError::Encoding(DecodeError::UnexpectedEnd))
    ));
    // Binding the slug anew goes through, and reports what it replaced.
    let record = SlugRecord { document_hash: hash, edit_code: "abcd".to_string() };
    assert!(matches!(
        db.insert_slug("short", &record),
        Err(StoreError::Encoding(DecodeError::UnexpectedEnd))
    ));
    assert_eq!(db.get_slug("short").unwrap(), Some(record));
    // A document that is stored already is left as it is.
    assert_eq!(db.insert_document(&document("corrupt", 1)).unwrap(), hash);
    assert!(db.get_document(&hash).is_err());
}

#[test]
fn a_new_store_has_the_two_namespaces() {
    let path = fresh_path("namespaces_by_name");
    {
        Database::new(&path).unwrap();
    }
    let raw = open_raw(&path);
    let names: Vec<Vec<u8>> = raw.tree_names().iter().map(|name| name.to_vec()).collect();
    assert!(names.contains(&b"slugs".to_vec()));
    assert!(names.contains(&b"documents".to_vec()));
    // Besides the two there is only the tree that every store starts with.
    assert_eq!(names.len(), 3);
}
