use matrix_sdk_sqlite::error::{OpenStoreError, OperationError};
use matrix_sdk_sqlite::store::SqliteEventCacheStore;

fn fresh_conn() -> rusqlite::Connection {
    rusqlite::Connection::open_in_memory().expect("in-memory database")
}

fn open_encrypted(conn: &mut rusqlite::Connection, passphrase: &str) -> SqliteEventCacheStore {
    SqliteEventCacheStore::open(conn, Some(passphrase)).expect("open encrypted store")
}

#[test]
fn round_trip_encrypted() {
    let mut conn = fresh_conn();
    let store = open_encrypted(&mut conn, "secret-passphrase");
    let content: Vec<u8> = b"hello world".to_vec();
    store.add_media_content(&mut conn, b"mxc://localhost/media", b"file", &content).expect("put");
    let got = store
        .get_media_content(&mut conn, b"mxc://localhost/media", b"file")
        .expect("get")
        .expect("present");
    assert_eq!(got, content);
}

#[test]
fn stored_bytes_are_not_plaintext() {
    let mut conn = fresh_conn();
    let store = open_encrypted(&mut conn, "secret-passphrase");
    let content: Vec<u8> = b"top secret body".to_vec();
    store.add_media_content(&mut conn, b"mxc://localhost/media", b"file", &content).expect("put");
    let stored: Vec<u8> = conn
        .query_row("SELECT data FROM media LIMIT 1", (), |row| row.get(0))
        .expect("stored row");
    assert_ne!(stored, content);
    let uri: Vec<u8> = conn
        .query_row("SELECT uri FROM media LIMIT 1", (), |row| row.get(0))
        .expect("stored uri");
    assert_ne!(uri, b"mxc://localhost/media".to_vec());
    assert_eq!(uri.len(), 32);
}

#[test]
fn key_hashing_deterministic_and_separated() {
    let mut conn = fresh_conn();
    let store = open_encrypted(&mut conn, "secret-passphrase");
    let first = store.encode_key("media", b"mxc://localhost/media");
    let second = store.encode_key("media", b"mxc://localhost/media");
    assert_eq!(first, second);
    assert_eq!(first.len(), 32);

    let other_id = store.encode_key("media", b"mxc://localhost/other");
    assert_ne!(first, other_id);

    let other_table = store.encode_key("other", b"mxc://localhost/media");
    assert_ne!(first, other_table);

    let mut conn2 = fresh_conn();
    let store2 = open_encrypted(&mut conn2, "another-passphrase");
    let foreign = store2.encode_key("media", b"mxc://localhost/media");
    assert_ne!(first, foreign);
}

#[test]
fn encryption_nondeterministic_decryption_correct() {
    let mut conn = fresh_conn();
    let store = open_encrypted(&mut conn, "secret-passphrase");
    let blob1 = store.encode_value(b"same plaintext").expect("encode");
    let blob2 = store.encode_value(b"same plaintext").expect("encode");
    assert_ne!(blob1, blob2, "each encryption embeds a fresh nonce");
    assert_eq!(store.decode_value(&blob1).expect("decode"), b"same plaintext".to_vec());
    assert_eq!(store.decode_value(&blob2).expect("decode"), b"same plaintext".to_vec());
}

#[test]
fn decrypting_under_other_key_fails() {
    let mut conn = fresh_conn();
    let store = open_encrypted(&mut conn, "secret-passphrase");
    let blob = store.encode_value(b"under the first key").expect("encode");

    let mut conn2 = fresh_conn();
    let store2 = open_encrypted(&mut conn2, "another-passphrase");
    let err = store2.decode_value(&blob).expect_err("foreign ciphertext must be rejected");
    assert!(matches!(err, OperationError::Decode));
}

#[test]
fn decoding_tampered_blob_fails() {
    let mut conn = fresh_conn();
    let store = open_encrypted(&mut conn, "secret-passphrase");
    let mut blob = store.encode_value(b"authenticated").expect("encode");
    let last = blob.len() - 1;
    blob[last] ^= 0x01;
    let err = store.decode_value(&blob).expect_err("tampered ciphertext must be rejected");
    assert!(matches!(err, OperationError::Decode));
}

#[test]
fn reopen_with_same_passphrase_reads_old_rows() {
    let mut conn = fresh_conn();
    let store = open_encrypted(&mut conn, "secret-passphrase");
    let content: Vec<u8> = b"persisted".to_vec();
    store.add_media_content(&mut conn, b"mxc://localhost/media", b"file", &content).expect("put");
    drop(store);

    let store = open_encrypted(&mut conn, "secret-passphrase");
    let got = store
        .get_media_content(&mut conn, b"mxc://localhost/media", b"file")
        .expect("get")
        .expect("present");
    assert_eq!(got, content);
}

#[test]
fn reopen_with_wrong_passphrase_fails() {
    let mut conn = fresh_conn();
    let store = open_encrypted(&mut conn, "secret-passphrase");
    drop(store);
    let err = match SqliteEventCacheStore::open(&mut conn, Some("wrong-passphrase")) {
        Ok(_) => panic!("wrong passphrase must fail"),
        Err(e) => e,
    };
    assert!(matches!(err, OpenStoreError::Cipher(_)));
}
