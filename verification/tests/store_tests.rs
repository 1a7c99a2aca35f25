use matrix_sdk_sqlite::store::SqliteEventCacheStore;

fn fresh_conn() -> rusqlite::Connection {
    rusqlite::Connection::open_in_memory().expect("in-memory database")
}

fn open_plain(conn: &mut rusqlite::Connection) -> SqliteEventCacheStore {
    SqliteEventCacheStore::open(conn, None).expect("open plain store")
}

fn media_row_count(conn: &rusqlite::Connection) -> i64 {
    conn.query_row("SELECT count(*) FROM media", (), |row| row.get(0)).expect("count media rows")
}

#[test]
fn round_trip_plain() {
    let mut conn = fresh_conn();
    let store = open_plain(&mut conn);
    let content: Vec<u8> = b"hello world".to_vec();
    store.add_media_content(&mut conn, b"mxc://localhost/media", b"file", &content).expect("put");
    let got = store
        .get_media_content(&mut conn, b"mxc://localhost/media", b"file")
        .expect("get")
        .expect("present");
    assert_eq!(got, content);
}

#[test]
fn get_absent_returns_none() {
    let mut conn = fresh_conn();
    let store = open_plain(&mut conn);
    let got = store.get_media_content(&mut conn, b"mxc://localhost/none", b"file").expect("get");
    assert!(got.is_none());
}

#[test]
fn remove_absent_is_ok() {
    let mut conn = fresh_conn();
    let store = open_plain(&mut conn);
    store.remove_media_content(&mut conn, b"mxc://localhost/none", b"file").expect("remove");
    store.remove_media_content_for_uri(&mut conn, b"mxc://localhost/none").expect("remove all");
    assert_eq!(media_row_count(&conn), 0);
}

#[test]
fn overwrite_keeps_single_row() {
    let mut conn = fresh_conn();
    let store = open_plain(&mut conn);
    let uri: &[u8] = b"mxc://localhost/media";
    store.add_media_content(&mut conn, uri, b"file", b"first").expect("put first");
    store.add_media_content(&mut conn, uri, b"file", b"second").expect("put second");
    assert_eq!(media_row_count(&conn), 1);
    let got = store.get_media_content(&mut conn, uri, b"file").expect("get").expect("present");
    assert_eq!(got, b"second".to_vec());
}

#[test]
fn remove_leaves_other_rows() {
    let mut conn = fresh_conn();
    let store = open_plain(&mut conn);
    let uri: &[u8] = b"mxc://localhost/media";
    store.add_media_content(&mut conn, uri, b"file", b"a").expect("put");
    store.add_media_content(&mut conn, uri, b"thumb", b"b").expect("put");
    store.remove_media_content(&mut conn, uri, b"file").expect("remove");
    assert!(store.get_media_content(&mut conn, uri, b"file").expect("get").is_none());
    let got = store.get_media_content(&mut conn, uri, b"thumb").expect("get").expect("present");
    assert_eq!(got, b"b".to_vec());
}

#[test]
fn remove_all_scope() {
    let mut conn = fresh_conn();
    let store = open_plain(&mut conn);
    let id: &[u8] = b"mxc://localhost/one";
    let id2: &[u8] = b"mxc://localhost/two";
    store.add_media_content(&mut conn, id, b"file", b"x").expect("put");
    store.add_media_content(&mut conn, id, b"thumb", b"y").expect("put");
    store.add_media_content(&mut conn, id2, b"file", b"z").expect("put");
    store.remove_media_content_for_uri(&mut conn, id).expect("remove all");
    assert_eq!(media_row_count(&conn), 1);
    assert!(store.get_media_content(&mut conn, id, b"file").expect("get").is_none());
    assert!(store.get_media_content(&mut conn, id, b"thumb").expect("get").is_none());
    let got = store.get_media_content(&mut conn, id2, b"file").expect("get").expect("present");
    assert_eq!(got, b"z".to_vec());
}

fn unix_seconds() -> u64 {
    std::time::SystemTime::now()
        .duration_since(std::time::UNIX_EPOCH)
        .expect("clock after epoch")
        .as_secs()
}

fn wait_for_next_second() {
    let start = unix_seconds();
    while unix_seconds() <= start {}
}

fn rows_by_last_access_desc(conn: &rusqlite::Connection) -> Vec<Vec<u8>> {
    let mut stmt =
        conn.prepare("SELECT data FROM media ORDER BY last_access DESC").expect("prepare");
    let rows = stmt
        .query_map((), |row| row.get::<_, Vec<u8>>(0))
        .expect("query")
        .collect::<Result<Vec<_>, _>>()
        .expect("collect");
    rows
}

#[test]
fn last_access_ordering() {
    let mut conn = fresh_conn();
    let store = open_plain(&mut conn);
    let uri: &[u8] = b"mxc://localhost/media";
    let content: Vec<u8> = b"hello world".to_vec();
    let thumbnail_content: Vec<u8> = b"hello thumb".to_vec();

    store.add_media_content(&mut conn, uri, b"file", &content).expect("adding file failed");
    wait_for_next_second();
    store
        .add_media_content(&mut conn, uri, b"thumb", &thumbnail_content)
        .expect("adding thumbnail failed");

    let contents = rows_by_last_access_desc(&conn);
    assert_eq!(contents.len(), 2, "media cache contents length is wrong");
    assert_eq!(contents[0], thumbnail_content, "thumbnail is not last access");
    assert_eq!(contents[1], content, "file is not second-to-last access");

    wait_for_next_second();
    let _ = store
        .get_media_content(&mut conn, uri, b"file")
        .expect("getting file failed")
        .expect("file is missing");

    let contents = rows_by_last_access_desc(&conn);
    assert_eq!(contents.len(), 2, "media cache contents length is wrong");
    assert_eq!(contents[0], content, "file is not last access");
    assert_eq!(contents[1], thumbnail_content, "thumbnail is not second-to-last access");
}

#[test]
fn reopen_is_noop_and_preserves_rows() {
    let mut conn = fresh_conn();
    let store = open_plain(&mut conn);
    let content: Vec<u8> = b"persisted".to_vec();
    store.add_media_content(&mut conn, b"mxc://localhost/media", b"file", &content).expect("put");
    drop(store);

    let store = open_plain(&mut conn);
    assert_eq!(media_row_count(&conn), 1);
    let version: Vec<u8> = conn
        .query_row("SELECT value FROM kv WHERE key = 'version'", (), |row| row.get(0))
        .expect("version row");
    assert_eq!(version, vec![1u8]);
    let got = store
        .get_media_content(&mut conn, b"mxc://localhost/media", b"file")
        .expect("get")
        .expect("present");
    assert_eq!(got, content);
}

#[test]
fn open_future_version_fails() {
    let mut conn = fresh_conn();
    let store = open_plain(&mut conn);
    drop(store);
    conn.execute("UPDATE kv SET value = ? WHERE key = 'version'", (&[9u8][..],))
        .expect("bump version");
    let err = match SqliteEventCacheStore::open(&mut conn, None) {
        Ok(_) => panic!("future version must fail"),
        Err(e) => e,
    };
    assert!(matches!(err, matrix_sdk_sqlite::error::OpenStoreError::UnsupportedVersion(9)));
}

#[test]
fn encode_value_plain_is_identity() {
    let mut conn = fresh_conn();
    let store = open_plain(&mut conn);
    let blob = store.encode_value(b"payload").expect("encode");
    assert_eq!(blob, b"payload".to_vec());
    let plain = store.decode_value(&blob).expect("decode");
    assert_eq!(plain, b"payload".to_vec());
}

#[test]
fn sql_failure_surfaces_as_operation_error() {
    let mut conn = fresh_conn();
    let store = open_plain(&mut conn);
    conn.execute_batch("DROP TABLE media;").expect("drop media table");
    let err = match store.get_media_content(&mut conn, b"mxc://localhost/media", b"file") {
        Ok(_) => panic!("a dropped table must fail the lookup"),
        Err(e) => e,
    };
    assert!(matches!(err, matrix_sdk_sqlite::error::OperationError::Sqlite(_)));
}

#[test]
fn open_fails_when_schema_cannot_be_created() {
    let mut conn = fresh_conn();
    conn.execute_batch("CREATE TABLE media (junk INTEGER);").expect("occupy table name");
    let err = match SqliteEventCacheStore::open(&mut conn, None) {
        Ok(_) => panic!("schema creation must fail over a conflicting table"),
        Err(e) => e,
    };
    assert!(matches!(err, matrix_sdk_sqlite::error::OpenStoreError::Sqlite(_)));
}
