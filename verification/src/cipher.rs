//! The cipher layer: deterministic keyed hashing of lookup keys and
//! authenticated encryption of values, built on an outside store cipher.
//!
//! The cipher's key material is opaque; contracts speak of it through
//! [`cipher_material`]. Hashing and decryption are deterministic functions of
//! that material and their inputs, so their results carry names
//! ([`hashed_key`], [`unsealed`], [`imported_material`]) that the verified
//! layers above reason with.

use vstd::prelude::*;

verus! {

/// Declares the outside cipher handle so it can stand in fields and
/// signatures; its inside stays opaque to the verifier.
#[verifier::external_type_specification]
#[verifier::external_body]
pub struct ExStoreCipher(matrix_sdk_store_encryption::StoreCipher);

/// Declares the outside cipher error type so results can carry it.
#[verifier::external_type_specification]
#[verifier::external_body]
pub struct ExStoreCipherError(matrix_sdk_store_encryption::Error);

/// The key material a cipher handle holds. Two handles with equal material
/// hash and decrypt identically.
pub uninterp spec fn cipher_material(c: matrix_sdk_store_encryption::StoreCipher) -> Seq<u8>;

/// What hashing `key` under `material` in the namespace `table` yields: a
/// deterministic function of exactly these three, and of nothing else.
pub uninterp spec fn hashed_key(material: Seq<u8>, table: Seq<char>, key: Seq<u8>) -> Seq<u8>;

/// What a stored blob decrypts to under `material`: `Some(plaintext)` when it
/// decodes and authenticates, `None` when it is rejected. Deterministic in
/// both arguments.
pub uninterp spec fn unsealed(material: Seq<u8>, blob: Seq<u8>) -> Option<Seq<u8>>;

/// What importing an exported cipher blob under `passphrase` reconstructs:
/// `Some(material)` on success, `None` when the passphrase or the blob is
/// wrong. Deterministic in both arguments.
pub uninterp spec fn imported_material(passphrase: Seq<char>, blob: Seq<u8>) -> Option<Seq<u8>>;

/// Relies on StoreCipher::new: generates fresh random key material, about
/// which nothing is assumed.
#[verifier::external_body]
pub(crate) fn cipher_new() -> (r: Result<
    matrix_sdk_store_encryption::StoreCipher,
    matrix_sdk_store_encryption::Error,
>) {
    matrix_sdk_store_encryption::StoreCipher::new()
}

/// Relies on StoreCipher::export: the exported blob, fed back to
/// StoreCipher::import with the same passphrase, reconstructs the same key
/// material. The blob itself embeds a random salt, so nothing more is assumed
/// of it.
#[verifier::external_body]
pub(crate) fn cipher_export(
    c: &matrix_sdk_store_encryption::StoreCipher,
    passphrase: &str,
) -> (r: Result<Vec<u8>, matrix_sdk_store_encryption::Error>)
    ensures
        r matches Ok(blob) ==> imported_material(passphrase@, blob@) == Some(cipher_material(*c)),
{
    c.export(passphrase)
}

/// Relies on StoreCipher::import: deterministically reconstructs the key
/// material that was exported under the same passphrase, and fails when the
/// passphrase does not match the blob.
#[verifier::external_body]
pub(crate) fn cipher_import(passphrase: &str, blob: &[u8]) -> (r: Result<
    matrix_sdk_store_encryption::StoreCipher,
    matrix_sdk_store_encryption::Error,
>)
    ensures
        match r {
            Ok(c) => imported_material(passphrase@, blob@) == Some(cipher_material(c)),
            Err(_) => imported_material(passphrase@, blob@) is None,
        },
{
    matrix_sdk_store_encryption::StoreCipher::import(passphrase, blob)
}

/// Relies on StoreCipher::hash_key: a keyed hash of `key`, domain-separated
/// by `table`, depending on the cipher's key material and these two inputs
/// alone; always 32 bytes.
#[verifier::external_body]
pub(crate) fn cipher_hash_key(
    c: &matrix_sdk_store_encryption::StoreCipher,
    table: &str,
    key: &[u8],
) -> (r: Vec<u8>)
    ensures
        r@ == hashed_key(cipher_material(*c), table@, key@),
        r@.len() == 32,
{
    c.hash_key(table, key).to_vec()
}

/// Relies on StoreCipher::encrypt_value_data and rmp_serde::to_vec_named:
/// the packed ciphertext decrypts back to exactly the given plaintext under
/// the same key material. The ciphertext embeds a random nonce, so nothing
/// more is assumed of its bytes.
#[verifier::external_body]
pub(crate) fn cipher_seal(
    c: &matrix_sdk_store_encryption::StoreCipher,
    plain: &[u8],
) -> (r: Option<Vec<u8>>)
    ensures
        r matches Some(blob) ==> unsealed(cipher_material(*c), blob@) == Some(plain@),
{
    let encrypted = c.encrypt_value_data(plain.to_vec()).ok()?;
    rmp_serde::to_vec_named(&encrypted).ok()
}

/// Relies on rmp_serde::from_slice and StoreCipher::decrypt_value_data: a
/// deterministic function of the key material and the blob, returning the
/// plaintext exactly when the blob decodes and authenticates.
#[verifier::external_body]
pub(crate) fn cipher_open(
    c: &matrix_sdk_store_encryption::StoreCipher,
    blob: &[u8],
) -> (r: Option<Vec<u8>>)
    ensures
        match r {
            Some(plain) => unsealed(cipher_material(*c), blob@) == Some(plain@),
            None => unsealed(cipher_material(*c), blob@) is None,
        },
{
    let encrypted = rmp_serde::from_slice(blob).ok()?;
    c.decrypt_value_data(encrypted).ok()
}

} // verus!
