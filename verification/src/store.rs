//! The media repository: a SQLite-backed cache of media blobs keyed by a
//! content identifier and a format descriptor, with optional encryption at
//! rest, schema bootstrap and migration, and last-access bookkeeping.
//!
//! Every contract speaks over the table models of [`crate::db`] and the
//! cipher model of [`crate::cipher`]: what a store holds is the map from
//! encoded key pairs to stored blobs, and what a stored blob means is what
//! it decodes to under the store's key material.

use vstd::prelude::*;
use vstd::slice::slice_to_vec;

use crate::cipher::{
    cipher_export, cipher_hash_key, cipher_import, cipher_material, cipher_new, cipher_open,
    cipher_seal, hashed_key, imported_material, unsealed,
};
use crate::db::{
    empty_kv, empty_media, exec_create_schema, exec_enable_wal, exec_get_kv, exec_get_media,
    exec_remove_media, exec_remove_uri_media, exec_set_kv, exec_set_media, kv_rows,
    kv_table_exists, media_rows,
};
use crate::error::{OpenStoreError, OperationError};

verus! {

/// Identifier of the latest database schema version. Every schema change
/// bumps this number and extends the migration steps run on open.
pub const DATABASE_VERSION: u8 = 1;

/// The table namespace under which media keys are hashed.
pub open spec fn media_table() -> Seq<char> {
    "media"@
}

/// The kv-table key under which the schema version is stored.
pub open spec fn version_key() -> Seq<char> {
    "version"@
}

/// The kv-table key under which the exported cipher material is stored.
pub open spec fn cipher_blob_key() -> Seq<char> {
    "cipher"@
}

/// The two reserved kv-table keys differ.
pub proof fn lemma_reserved_keys_distinct()
    ensures
        version_key() != cipher_blob_key(),
{
    reveal_strlit("version");
    reveal_strlit("cipher");
    assert(version_key().len() == 7);
    assert(cipher_blob_key().len() == 6);
}

/// How a lookup key is encoded before it reaches the storage medium: a
/// deterministic keyed hash in the namespace `table` when key material is
/// present, the raw bytes otherwise.
pub open spec fn enc_key(material: Option<Seq<u8>>, table: Seq<char>, key: Seq<u8>) -> Seq<u8> {
    match material {
        Some(m) => hashed_key(m, table, key),
        None => key,
    }
}

/// The encoded row key of the pair (identifier, format).
pub open spec fn media_key(material: Option<Seq<u8>>, uri: Seq<u8>, format: Seq<u8>) -> (
    Seq<u8>,
    Seq<u8>,
) {
    (enc_key(material, media_table(), uri), enc_key(material, media_table(), format))
}

/// What a stored blob means under the given key material: the plaintext it
/// decrypts to, or the blob itself when the store runs unencrypted; `None`
/// when it fails to decode or authenticate.
pub open spec fn decoded(material: Option<Seq<u8>>, blob: Seq<u8>) -> Option<Seq<u8>> {
    match material {
        Some(m) => unsealed(m, blob),
        None => Some(blob),
    }
}

/// `blob` is a valid at-rest encoding of `plain` under `material`.
pub open spec fn encodes(material: Option<Seq<u8>>, blob: Seq<u8>, plain: Seq<u8>) -> bool {
    decoded(material, blob) == Some(plain)
}

/// Whether the media table holds a row for the pair (identifier, format).
pub open spec fn model_contains(
    material: Option<Seq<u8>>,
    rows: Map<(Seq<u8>, Seq<u8>), (Seq<u8>, int)>,
    uri: Seq<u8>,
    format: Seq<u8>,
) -> bool {
    rows.contains_key(media_key(material, uri, format))
}

/// What a lookup of the pair (identifier, format) yields: the decoded stored
/// blob, or `None` when no row exists or the blob does not decode.
pub open spec fn model_lookup(
    material: Option<Seq<u8>>,
    rows: Map<(Seq<u8>, Seq<u8>), (Seq<u8>, int)>,
    uri: Seq<u8>,
    format: Seq<u8>,
) -> Option<Seq<u8>> {
    if model_contains(material, rows, uri, format) {
        decoded(material, rows[media_key(material, uri, format)].0)
    } else {
        None
    }
}

/// The media table after every row of the encoded identifier `ek_uri` is
/// removed: exactly the rows whose first key component differs, unchanged.
pub open spec fn model_remove_all(
    rows: Map<(Seq<u8>, Seq<u8>), (Seq<u8>, int)>,
    ek_uri: Seq<u8>,
) -> Map<(Seq<u8>, Seq<u8>), (Seq<u8>, int)> {
    Map::new(
        |k: (Seq<u8>, Seq<u8>)| rows.dom().contains(k) && k.0 != ek_uri,
        |k: (Seq<u8>, Seq<u8>)| rows[k],
    )
}

/// The schema version a kv table records: the first byte stored under the
/// version key, or 0 while none is stored.
pub open spec fn stored_version(kv: Map<Seq<char>, Seq<u8>>) -> int {
    if kv.contains_key(version_key()) && kv[version_key()].len() > 0 {
        kv[version_key()][0] as int
    } else {
        0
    }
}

/// Relies on std::time::SystemTime::now, read as whole seconds since the
/// Unix epoch: a wall clock, of whose value nothing is assumed.
#[verifier::external_body]
fn unix_time_secs() -> (r: i64) {
    match std::time::SystemTime::now().duration_since(std::time::UNIX_EPOCH) {
        Ok(d) => i64::try_from(d.as_secs()).unwrap_or(i64::MAX),
        Err(_) => 0,
    }
}

/// A SQLite-backed media cache. It owns the optional cipher; each operation
/// borrows one database connection for one statement or one transaction.
pub struct SqliteEventCacheStore {
    store_cipher: Option<matrix_sdk_store_encryption::StoreCipher>,
}

impl SqliteEventCacheStore {
    /// The key material this store encodes with; `None` while it runs
    /// unencrypted.
    pub closed spec fn material(&self) -> Option<Seq<u8>> {
        match self.store_cipher {
            Some(c) => Some(cipher_material(c)),
            None => None,
        }
    }

    /// Open the store over the given connection. On first open this creates
    /// the schema; on later opens it verifies the passphrase against the
    /// persisted cipher material and migrates the schema forward if needed.
    /// Media rows are never touched, whatever happens; a store already at the
    /// current version keeps its kv rows too, so a reopen is a no-op.
    pub fn open(conn: &mut rusqlite::Connection, passphrase: Option<&str>) -> (r: Result<
        SqliteEventCacheStore,
        OpenStoreError,
    >)
        ensures
            media_rows(*final(conn)) == media_rows(*old(conn)),
            r matches Ok(store) ==> stored_version(kv_rows(*final(conn)))
                == DATABASE_VERSION as int,
            r matches Ok(store) ==> (store.material() is Some <==> passphrase is Some),
            r matches Ok(store) ==> (passphrase matches Some(p) ==> (kv_rows(
                *old(conn),
            ).contains_key(cipher_blob_key()) ==> imported_material(
                p@,
                kv_rows(*old(conn))[cipher_blob_key()],
            ) == store.material())),
            stored_version(kv_rows(*old(conn))) == DATABASE_VERSION as int && (passphrase is None
                || kv_rows(*old(conn)).contains_key(cipher_blob_key())) ==> kv_rows(*final(conn))
                == kv_rows(*old(conn)),
            stored_version(kv_rows(*old(conn))) > DATABASE_VERSION as int ==> r is Err,
            r matches Err(OpenStoreError::UnsupportedVersion(v)) ==> v as int == stored_version(
                kv_rows(*old(conn)),
            ) && v as int > DATABASE_VERSION as int,
            passphrase matches Some(p) ==> ((kv_rows(*old(conn)).contains_key(cipher_blob_key())
                && imported_material(p@, kv_rows(*old(conn))[cipher_blob_key()]) is None) ==> r
                is Err),
            r is Ok && stored_version(kv_rows(*old(conn))) == 0 ==> media_rows(*old(conn))
                == empty_media(),
    {
        let version = match load_db_version(conn) {
            Ok(v) => v,
            Err(e) => {
                return Err(e);
            },
        };
        let version = if version == 0 {
            match init(conn) {
                Ok(()) => 1u8,
                Err(e) => {
                    return Err(e);
                },
            }
        } else {
            version
        };
        if version > DATABASE_VERSION {
            return Err(OpenStoreError::UnsupportedVersion(version));
        }
        proof {
            lemma_reserved_keys_distinct();
        }
        let store_cipher = match passphrase {
            Some(p) => match get_or_create_cipher(p, conn) {
                Ok(c) => Some(c),
                Err(e) => {
                    return Err(e);
                },
            },
            None => None,
        };
        let store = SqliteEventCacheStore { store_cipher };
        match run_migrations(conn, version) {
            Ok(()) => Ok(store),
            Err(e) => Err(e),
        }
    }

    /// Encode one lookup key for the given table namespace: hashed under the
    /// store's key material, or kept as raw bytes when none is configured.
    pub fn encode_key(&self, table: &str, key: &[u8]) -> (r: Vec<u8>)
        ensures
            r@ == enc_key(self.material(), table@, key@),
    {
        match &self.store_cipher {
            Some(c) => cipher_hash_key(c, table, key),
            None => slice_to_vec(key),
        }
    }

    /// Encode one value for storage: authenticated ciphertext under the
    /// store's key material, or the raw bytes when none is configured, in
    /// which case encoding cannot fail.
    pub fn encode_value(&self, value: &[u8]) -> (r: Result<Vec<u8>, OperationError>)
        ensures
            r matches Ok(blob) ==> encodes(self.material(), blob@, value@),
            self.material() is None ==> (r matches Ok(blob) && blob@ == value@),
    {
        match &self.store_cipher {
            Some(c) => match cipher_seal(c, value) {
                Some(blob) => Ok(blob),
                None => Err(OperationError::Encryption),
            },
            None => Ok(slice_to_vec(value)),
        }
    }

    /// Decode one stored blob: exactly the plaintext the blob stands for
    /// under the store's key material, and an error exactly when it fails to
    /// decode or authenticate.
    pub fn decode_value(&self, value: &[u8]) -> (r: Result<Vec<u8>, OperationError>)
        ensures
            match r {
                Ok(plain) => decoded(self.material(), value@) == Some(plain@),
                Err(e) => decoded(self.material(), value@) is None && e matches
                    OperationError::Decode,
            },
    {
        match &self.store_cipher {
            Some(c) => match cipher_open(c, value) {
                Some(plain) => Ok(plain),
                None => Err(OperationError::Decode),
            },
            None => Ok(slice_to_vec(value)),
        }
    }

    /// Store a media blob for the pair (identifier, format), replacing any
    /// prior row for that pair wholesale and stamping it with the current
    /// time; other rows and the kv table are untouched.
    pub fn add_media_content(
        &self,
        conn: &mut rusqlite::Connection,
        uri: &[u8],
        format: &[u8],
        content: &[u8],
    ) -> (r: Result<(), OperationError>)
        ensures
            kv_rows(*final(conn)) == kv_rows(*old(conn)),
            r is Err ==> media_rows(*final(conn)) == media_rows(*old(conn)),
            r is Ok ==> exists|blob: Seq<u8>, t: int|
                media_rows(*final(conn)) == media_rows(*old(conn)).insert(
                    media_key(self.material(), uri@, format@),
                    (blob, t),
                ) && encodes(self.material(), blob, content@),
    {
        let key_uri = self.encode_key("media", uri);
        let key_format = self.encode_key("media", format);
        let data = match self.encode_value(content) {
            Ok(d) => d,
            Err(e) => {
                return Err(e);
            },
        };
        let now = unix_time_secs();
        match exec_set_media(conn, key_uri.as_slice(), key_format.as_slice(), data.as_slice(), now) {
            Ok(()) => {
                proof {
                    let blob = data@;
                    let t = now as int;
                    assert(media_rows(*conn) == media_rows(*old(conn)).insert(
                        media_key(self.material(), uri@, format@),
                        (blob, t),
                    ) && encodes(self.material(), blob, content@));
                }
                Ok(())
            },
            Err(e) => Err(OperationError::Sqlite(e)),
        }
    }

    /// Look the pair (identifier, format) up. Within one transaction this
    /// reads the stored blob and, when a row was found, refreshes that row's
    /// last-access time; it then decodes the blob. `Ok(None)` means no row
    /// exists — a present row that fails to decode is a distinct error.
    pub fn get_media_content(
        &self,
        conn: &mut rusqlite::Connection,
        uri: &[u8],
        format: &[u8],
    ) -> (r: Result<Option<Vec<u8>>, OperationError>)
        ensures
            kv_rows(*final(conn)) == kv_rows(*old(conn)),
            r matches Ok(found) ==> match found {
                Some(v) => model_lookup(self.material(), media_rows(*old(conn)), uri@, format@)
                    == Some(v@) && exists|t: int|
                    media_rows(*final(conn)) == media_rows(*old(conn)).insert(
                        media_key(self.material(), uri@, format@),
                        (
                            media_rows(*old(conn))[media_key(self.material(), uri@, format@)].0,
                            t,
                        ),
                    ),
                None => !model_contains(self.material(), media_rows(*old(conn)), uri@, format@)
                    && media_rows(*final(conn)) == media_rows(*old(conn)),
            },
            r matches Err(OperationError::Decode) ==> model_contains(
                self.material(),
                media_rows(*old(conn)),
                uri@,
                format@,
            ) && model_lookup(self.material(), media_rows(*old(conn)), uri@, format@) is None,
            r is Err ==> media_rows(*final(conn)) == media_rows(*old(conn)) || exists|t: int|
                media_rows(*final(conn)) == media_rows(*old(conn)).insert(
                    media_key(self.material(), uri@, format@),
                    (media_rows(*old(conn))[media_key(self.material(), uri@, format@)].0, t),
                ),
    {
        let key_uri = self.encode_key("media", uri);
        let key_format = self.encode_key("media", format);
        let now = unix_time_secs();
        match exec_get_media(conn, key_uri.as_slice(), key_format.as_slice(), now) {
            Ok(Some(blob)) => match self.decode_value(blob.as_slice()) {
                Ok(plain) => Ok(Some(plain)),
                Err(_) => Err(OperationError::Decode),
            },
            Ok(None) => Ok(None),
            Err(e) => Err(OperationError::Sqlite(e)),
        }
    }

    /// Delete the row for the pair (identifier, format) if one exists; other
    /// rows and the kv table are untouched, and an absent row is no error.
    pub fn remove_media_content(
        &self,
        conn: &mut rusqlite::Connection,
        uri: &[u8],
        format: &[u8],
    ) -> (r: Result<(), OperationError>)
        ensures
            kv_rows(*final(conn)) == kv_rows(*old(conn)),
            r is Ok ==> media_rows(*final(conn)) == media_rows(*old(conn)).remove(
                media_key(self.material(), uri@, format@),
            ),
            r is Err ==> media_rows(*final(conn)) == media_rows(*old(conn)),
    {
        let key_uri = self.encode_key("media", uri);
        let key_format = self.encode_key("media", format);
        match exec_remove_media(conn, key_uri.as_slice(), key_format.as_slice()) {
            Ok(()) => Ok(()),
            Err(e) => Err(OperationError::Sqlite(e)),
        }
    }

    /// Delete every row stored for the identifier, whatever its format;
    /// rows of other identifiers and the kv table are untouched, and no
    /// matching row is no error.
    pub fn remove_media_content_for_uri(
        &self,
        conn: &mut rusqlite::Connection,
        uri: &[u8],
    ) -> (r: Result<(), OperationError>)
        ensures
            kv_rows(*final(conn)) == kv_rows(*old(conn)),
            r is Ok ==> media_rows(*final(conn)) == model_remove_all(
                media_rows(*old(conn)),
                enc_key(self.material(), media_table(), uri@),
            ),
            r is Err ==> media_rows(*final(conn)) == media_rows(*old(conn)),
    {
        let key_uri = self.encode_key("media", uri);
        match exec_remove_uri_media(conn, key_uri.as_slice()) {
            Ok(()) => {
                proof {
                    let m0 = media_rows(*old(conn));
                    let m1 = media_rows(*conn);
                    let ek = enc_key(self.material(), media_table(), uri@);
                    assert forall|k: (Seq<u8>, Seq<u8>)|
                        m1.contains_key(k) == model_remove_all(m0, ek).contains_key(k) by {
                        assert(model_remove_all(m0, ek).contains_key(k) == (m0.contains_key(k)
                            && k.0 != ek));
                    }
                    assert forall|k: (Seq<u8>, Seq<u8>)| m1.contains_key(k) implies m1[k]
                        == model_remove_all(m0, ek)[k] by {
                        assert(m1[k] == m0[k]);
                    }
                    assert(m1 =~= model_remove_all(m0, ek));
                }
                Ok(())
            },
            Err(e) => Err(OperationError::Sqlite(e)),
        }
    }
}

/// Read the schema version the database records: the byte stored under the
/// version key, or 0 while no schema exists yet.
fn load_db_version(conn: &rusqlite::Connection) -> (r: Result<u8, OpenStoreError>)
    ensures
        r matches Ok(v) ==> v as int == stored_version(kv_rows(*conn)),
        r matches Err(e) ==> e is Sqlite,
{
    match kv_table_exists(conn) {
        Ok(true) => match exec_get_kv(conn, "version") {
            Ok(Some(v)) => {
                if v.len() > 0 {
                    Ok(v[0])
                } else {
                    Ok(0)
                }
            },
            Ok(None) => Ok(0),
            Err(e) => Err(OpenStoreError::Sqlite(e)),
        },
        Ok(false) => Ok(0),
        Err(e) => Err(OpenStoreError::Sqlite(e)),
    }
}

/// Initialize a fresh database: enable write-ahead durability (outside any
/// transaction), create the schema in one transaction, and record version 1.
/// Media rows are preserved in every outcome: creation succeeds only on a
/// database that held no tables.
fn init(conn: &mut rusqlite::Connection) -> (r: Result<(), OpenStoreError>)
    ensures
        media_rows(*final(conn)) == media_rows(*old(conn)),
        r is Ok ==> kv_rows(*final(conn)) == empty_kv().insert(version_key(), seq![1u8])
            && media_rows(*old(conn)) == empty_media() && kv_rows(*old(conn)) == empty_kv(),
        r matches Err(e) ==> e is Sqlite,
{
    match exec_enable_wal(conn) {
        Ok(()) => (),
        Err(e) => {
            return Err(OpenStoreError::Sqlite(e));
        },
    }
    match exec_create_schema(conn) {
        Ok(()) => (),
        Err(e) => {
            return Err(OpenStoreError::Sqlite(e));
        },
    }
    let version = vec![1u8];
    proof {
        assert(version@ =~= seq![1u8]);
    }
    match exec_set_kv(conn, "version", version.as_slice()) {
        Ok(()) => Ok(()),
        Err(e) => Err(OpenStoreError::Sqlite(e)),
    }
}

/// Load the persisted cipher material and unlock it with the passphrase, or,
/// on the first encrypted open, generate fresh material and persist it under
/// the same passphrase. Fails when the passphrase does not unlock what is
/// stored.
fn get_or_create_cipher(passphrase: &str, conn: &mut rusqlite::Connection) -> (r: Result<
    matrix_sdk_store_encryption::StoreCipher,
    OpenStoreError,
>)
    ensures
        media_rows(*final(conn)) == media_rows(*old(conn)),
        r matches Ok(c) ==> (kv_rows(*old(conn)).contains_key(cipher_blob_key())
            ==> imported_material(passphrase@, kv_rows(*old(conn))[cipher_blob_key()]) == Some(
            cipher_material(c),
        ) && kv_rows(*final(conn)) == kv_rows(*old(conn))),
        r matches Ok(c) ==> (!kv_rows(*old(conn)).contains_key(cipher_blob_key())
            ==> exists|blob: Seq<u8>|
            kv_rows(*final(conn)) == kv_rows(*old(conn)).insert(cipher_blob_key(), blob)
                && imported_material(passphrase@, blob) == Some(cipher_material(c))),
        kv_rows(*old(conn)).contains_key(cipher_blob_key()) && imported_material(
            passphrase@,
            kv_rows(*old(conn))[cipher_blob_key()],
        ) is None ==> r is Err,
        r is Err ==> kv_rows(*final(conn)) == kv_rows(*old(conn)),
        r matches Err(e) ==> !(e is UnsupportedVersion),
{
    let stored = match exec_get_kv(conn, "cipher") {
        Ok(s) => s,
        Err(e) => {
            return Err(OpenStoreError::Sqlite(e));
        },
    };
    match stored {
        Some(blob) => match cipher_import(passphrase, blob.as_slice()) {
            Ok(c) => Ok(c),
            Err(e) => Err(OpenStoreError::Cipher(e)),
        },
        None => {
            let c = match cipher_new() {
                Ok(c) => c,
                Err(e) => {
                    return Err(OpenStoreError::Cipher(e));
                },
            };
            let exported = match cipher_export(&c, passphrase) {
                Ok(b) => b,
                Err(e) => {
                    return Err(OpenStoreError::Cipher(e));
                },
            };
            match exec_set_kv(conn, "cipher", exported.as_slice()) {
                Ok(()) => {
                    proof {
                        let blob = exported@;
                        assert(kv_rows(*conn) == kv_rows(*old(conn)).insert(
                            cipher_blob_key(),
                            blob,
                        ) && imported_material(passphrase@, blob) == Some(cipher_material(c)));
                    }
                    Ok(c)
                },
                Err(e) => Err(OpenStoreError::Sqlite(e)),
            }
        },
    }
}

/// Apply the migrations from the given version up to the current one, each
/// together with the version bump it belongs to; a store already at the
/// current version is left exactly as it is.
fn run_migrations(conn: &mut rusqlite::Connection, from: u8) -> (r: Result<(), OpenStoreError>)
    requires
        1 <= from <= DATABASE_VERSION,
        stored_version(kv_rows(*old(conn))) == from as int,
    ensures
        media_rows(*final(conn)) == media_rows(*old(conn)),
        r is Ok ==> stored_version(kv_rows(*final(conn))) == DATABASE_VERSION as int,
        from == DATABASE_VERSION ==> r is Ok && kv_rows(*final(conn)) == kv_rows(*old(conn)),
        r is Err ==> kv_rows(*final(conn)) == kv_rows(*old(conn)),
        r matches Err(e) ==> e is Sqlite,
{
    if from >= DATABASE_VERSION {
        return Ok(());
    }
    let version = vec![DATABASE_VERSION];
    proof {
        assert(version@ =~= seq![DATABASE_VERSION]);
    }
    match exec_set_kv(conn, "version", version.as_slice()) {
        Ok(()) => Ok(()),
        Err(e) => Err(OpenStoreError::Sqlite(e)),
    }
}

} // verus!
