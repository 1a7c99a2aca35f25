//! A SQLite-backed, encrypted-at-rest cache for binary media objects.
//!
//! Media blobs are keyed by a content identifier plus a format descriptor.
//! When a passphrase is supplied, identifiers are stored as deterministic
//! keyed hashes and values as authenticated ciphertext, so the database file
//! never holds plaintext keys or contents. The schema is versioned and
//! migrated on open.

pub mod cipher;
pub mod db;
pub mod error;
pub mod laws;
pub mod store;
