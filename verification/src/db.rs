//! The storage layer: one SQLite database holding a `kv` table (schema
//! version and cipher bootstrap material) and a `media` table (one row per
//! encoded key pair, with a value blob and an integer last-access time).
//!
//! The database is reached only through the trusted wrappers below, each of
//! which runs one SQL statement or one transaction on a borrowed connection.
//! Contracts speak of the two tables through [`media_rows`] and [`kv_rows`]:
//! the rows the connection's database holds in each table, or the empty map
//! while that table does not exist yet.

use vstd::prelude::*;
use rusqlite::OptionalExtension;

verus! {

/// Declares the outside connection handle so it can stand in signatures; its
/// inside stays opaque to the verifier.
#[verifier::external_type_specification]
#[verifier::external_body]
pub struct ExConnection(rusqlite::Connection);

/// Declares the outside storage-engine error type so results can carry it.
#[verifier::external_type_specification]
#[verifier::external_body]
pub struct ExRusqliteError(rusqlite::Error);

/// The rows of the `media` table reachable through this connection, keyed by
/// the encoded (identifier, format) pair; each holds the stored blob and the
/// last-access time in seconds. The empty map while the table does not exist.
pub uninterp spec fn media_rows(conn: rusqlite::Connection) -> Map<
    (Seq<u8>, Seq<u8>),
    (Seq<u8>, int),
>;

/// The rows of the `kv` table reachable through this connection. The empty
/// map while the table does not exist.
pub uninterp spec fn kv_rows(conn: rusqlite::Connection) -> Map<Seq<char>, Seq<u8>>;

/// The empty media table.
pub open spec fn empty_media() -> Map<(Seq<u8>, Seq<u8>), (Seq<u8>, int)> {
    Map::empty()
}

/// The empty kv table.
pub open spec fn empty_kv() -> Map<Seq<char>, Seq<u8>> {
    Map::empty()
}

/// Relies on Connection::execute_batch running `PRAGMA journal_mode`: it
/// switches the journal mode and leaves every table untouched.
#[verifier::external_body]
pub(crate) fn exec_enable_wal(conn: &mut rusqlite::Connection) -> (r: Result<
    (),
    rusqlite::Error,
>)
    ensures
        media_rows(*final(conn)) == media_rows(*old(conn)),
        kv_rows(*final(conn)) == kv_rows(*old(conn)),
{
    conn.execute_batch("PRAGMA journal_mode = wal;")
}

/// Relies on Connection::transaction and Transaction::execute_batch: creates
/// the `kv` and `media` tables in one transaction. `CREATE TABLE` fails when
/// a table already exists, so success means both tables were absent — their
/// models empty — and are now fresh and empty; on failure the transaction
/// rolls back and nothing changed.
#[verifier::external_body]
pub(crate) fn exec_create_schema(conn: &mut rusqlite::Connection) -> (r: Result<
    (),
    rusqlite::Error,
>)
    ensures
        r is Ok ==> media_rows(*final(conn)) == empty_media() && kv_rows(*final(conn))
            == empty_kv() && media_rows(*old(conn)) == empty_media() && kv_rows(*old(conn))
            == empty_kv(),
        r is Err ==> media_rows(*final(conn)) == media_rows(*old(conn)) && kv_rows(*final(conn))
            == kv_rows(*old(conn)),
{
    let txn = conn.transaction()?;
    txn.execute_batch(
        "CREATE TABLE kv (key TEXT PRIMARY KEY NOT NULL, value BLOB NOT NULL);
         CREATE TABLE media (uri BLOB NOT NULL, format BLOB NOT NULL, data BLOB NOT NULL,
                             last_access INTEGER NOT NULL, PRIMARY KEY (uri, format));",
    )?;
    txn.commit()
}

/// Relies on Connection::query_row over `sqlite_master`: reports whether the
/// `kv` table exists; while it does not, its model is the empty map.
#[verifier::external_body]
pub(crate) fn kv_table_exists(conn: &rusqlite::Connection) -> (r: Result<bool, rusqlite::Error>)
    ensures
        r matches Ok(false) ==> kv_rows(*conn) == empty_kv(),
{
    let n: u32 = conn.query_row(
        "SELECT count(*) FROM sqlite_master WHERE type = 'table' AND name = 'kv'",
        (),
        |row| row.get(0),
    )?;
    Ok(n > 0)
}

/// Relies on Connection::query_row: looks one key up in the `kv` table.
#[verifier::external_body]
pub(crate) fn exec_get_kv(conn: &rusqlite::Connection, key: &str) -> (r: Result<
    Option<Vec<u8>>,
    rusqlite::Error,
>)
    ensures
        match r {
            Ok(found) => match found {
                Some(v) => kv_rows(*conn).contains_key(key@) && v@ == kv_rows(*conn)[key@],
                None => !kv_rows(*conn).contains_key(key@),
            },
            Err(_) => true,
        },
{
    conn.query_row("SELECT value FROM kv WHERE key = ?", (key,), |row| row.get(0)).optional()
}

/// Relies on Connection::execute running `INSERT OR REPLACE` on the `kv`
/// table: stores the value under the key, replacing any prior row; a failed
/// statement changes nothing.
#[verifier::external_body]
pub(crate) fn exec_set_kv(conn: &mut rusqlite::Connection, key: &str, value: &[u8]) -> (r: Result<
    (),
    rusqlite::Error,
>)
    ensures
        r is Ok ==> kv_rows(*final(conn)) == kv_rows(*old(conn)).insert(key@, value@),
        r is Err ==> kv_rows(*final(conn)) == kv_rows(*old(conn)),
        media_rows(*final(conn)) == media_rows(*old(conn)),
{
    conn.execute("INSERT OR REPLACE INTO kv (key, value) VALUES (?, ?)", (key, value))?;
    Ok(())
}

/// Relies on Connection::execute running `INSERT OR REPLACE` on the `media`
/// table, whose primary key is the (uri, format) pair: replaces the row for
/// that pair wholesale and sets its last-access time; a failed statement
/// changes nothing.
#[verifier::external_body]
pub(crate) fn exec_set_media(
    conn: &mut rusqlite::Connection,
    uri: &[u8],
    format: &[u8],
    data: &[u8],
    now: i64,
) -> (r: Result<(), rusqlite::Error>)
    ensures
        r is Ok ==> media_rows(*final(conn)) == media_rows(*old(conn)).insert(
            (uri@, format@),
            (data@, now as int),
        ),
        r is Err ==> media_rows(*final(conn)) == media_rows(*old(conn)),
        kv_rows(*final(conn)) == kv_rows(*old(conn)),
{
    conn.execute(
        "INSERT OR REPLACE INTO media (uri, format, data, last_access) VALUES (?, ?, ?, ?)",
        (uri, format, data, now),
    )?;
    Ok(())
}

/// Relies on Connection::transaction, Transaction::query_row and
/// Transaction::execute: in one transaction, reads the blob stored for the
/// pair and, when a row was found, sets that row's last-access time. The read
/// and the update are atomic; a failed transaction rolls back and changes
/// nothing.
#[verifier::external_body]
pub(crate) fn exec_get_media(
    conn: &mut rusqlite::Connection,
    uri: &[u8],
    format: &[u8],
    now: i64,
) -> (r: Result<Option<Vec<u8>>, rusqlite::Error>)
    ensures
        kv_rows(*final(conn)) == kv_rows(*old(conn)),
        match r {
            Ok(found) => match found {
                Some(v) => media_rows(*old(conn)).contains_key((uri@, format@)) && v@ == media_rows(
                    *old(conn),
                )[(uri@, format@)].0 && media_rows(*final(conn)) == media_rows(*old(conn)).insert(
                    (uri@, format@),
                    (v@, now as int),
                ),
                None => !media_rows(*old(conn)).contains_key((uri@, format@)) && media_rows(
                    *final(conn),
                ) == media_rows(*old(conn)),
            },
            Err(_) => media_rows(*final(conn)) == media_rows(*old(conn)),
        },
{
    let txn = conn.transaction()?;
    let found: Option<Vec<u8>> = txn
        .query_row("SELECT data FROM media WHERE uri = ? AND format = ?", (uri, format), |row| {
            row.get(0)
        })
        .optional()?;
    if found.is_some() {
        txn.execute(
            "UPDATE media SET last_access = ? WHERE uri = ? AND format = ?",
            (now, uri, format),
        )?;
    }
    txn.commit()?;
    Ok(found)
}

/// Relies on Connection::execute running `DELETE` on the `media` table:
/// removes the row for the pair if one exists; a failed statement changes
/// nothing.
#[verifier::external_body]
pub(crate) fn exec_remove_media(
    conn: &mut rusqlite::Connection,
    uri: &[u8],
    format: &[u8],
) -> (r: Result<(), rusqlite::Error>)
    ensures
        r is Ok ==> media_rows(*final(conn)) == media_rows(*old(conn)).remove((uri@, format@)),
        r is Err ==> media_rows(*final(conn)) == media_rows(*old(conn)),
        kv_rows(*final(conn)) == kv_rows(*old(conn)),
{
    conn.execute("DELETE FROM media WHERE uri = ? AND format = ?", (uri, format))?;
    Ok(())
}

/// Relies on Connection::execute running `DELETE` on the `media` table:
/// removes every row whose uri column equals the given one, whatever its
/// format, and keeps every other row as it was; a failed statement changes
/// nothing.
#[verifier::external_body]
pub(crate) fn exec_remove_uri_media(conn: &mut rusqlite::Connection, uri: &[u8]) -> (r: Result<
    (),
    rusqlite::Error,
>)
    ensures
        r is Ok ==> forall|k: (Seq<u8>, Seq<u8>)|
            #![trigger media_rows(*final(conn)).contains_key(k)]
            media_rows(*final(conn)).contains_key(k) == (media_rows(*old(conn)).contains_key(k)
                && k.0 != uri@),
        r is Ok ==> forall|k: (Seq<u8>, Seq<u8>)|
            #![trigger media_rows(*final(conn))[k]]
            media_rows(*final(conn)).contains_key(k) ==> media_rows(*final(conn))[k] == media_rows(
                *old(conn),
            )[k],
        r is Err ==> media_rows(*final(conn)) == media_rows(*old(conn)),
        kv_rows(*final(conn)) == kv_rows(*old(conn)),
{
    conn.execute("DELETE FROM media WHERE uri = ?", (uri,))?;
    Ok(())
}

} // verus!
