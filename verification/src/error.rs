use vstd::prelude::*;

verus! {

/// Error raised while opening the store: the schema could not be read or
/// created, the stored cipher material could not be unlocked with the given
/// passphrase, or the database carries a schema version newer than this code.
#[derive(Debug)]
pub enum OpenStoreError {
    /// The storage engine rejected a statement while reading or writing the
    /// schema.
    Sqlite(rusqlite::Error),
    /// Fresh cipher material could not be generated or exported, or the
    /// persisted cipher material did not unlock under the given passphrase.
    Cipher(matrix_sdk_store_encryption::Error),
    /// The stored schema version is newer than the one this code expects.
    UnsupportedVersion(u8),
}

/// Error raised by one repository operation. It does not poison the store:
/// later calls may still succeed.
#[derive(Debug)]
pub enum OperationError {
    /// The storage engine rejected a statement.
    Sqlite(rusqlite::Error),
    /// A value could not be encrypted.
    Encryption,
    /// A stored blob could not be decoded or failed authentication: it was
    /// tampered with, truncated, or written under different key material.
    /// Reported distinctly from an absent row.
    Decode,
}

} // verus!
