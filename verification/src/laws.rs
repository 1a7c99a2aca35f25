//! The laws the repository obeys, stated over the same model its contracts
//! use: the map of media rows, the key encoding, and the meaning of stored
//! blobs under key material. Each law quantifies over all inputs; scenario
//! properties on concrete values live in the test suite instead.

use vstd::prelude::*;

use crate::store::{
    enc_key, encodes, decoded, media_key, model_contains, model_lookup, model_remove_all,
};

verus! {

/// Round trip: storing a valid encoding of `plain` for the pair
/// (identifier, format) and then looking that pair up yields `plain`,
/// whatever the table held before, with or without key material.
pub proof fn lemma_put_then_get_round_trip(
    material: Option<Seq<u8>>,
    rows: Map<(Seq<u8>, Seq<u8>), (Seq<u8>, int)>,
    uri: Seq<u8>,
    format: Seq<u8>,
    blob: Seq<u8>,
    plain: Seq<u8>,
    t: int,
)
    requires
        encodes(material, blob, plain),
    ensures
        model_lookup(material, rows.insert(media_key(material, uri, format), (blob, t)), uri, format)
            == Some(plain),
{
}

/// Absence: looking up a pair for which the table holds no row yields
/// nothing.
pub proof fn lemma_get_absent(
    material: Option<Seq<u8>>,
    rows: Map<(Seq<u8>, Seq<u8>), (Seq<u8>, int)>,
    uri: Seq<u8>,
    format: Seq<u8>,
)
    requires
        !model_contains(material, rows, uri, format),
    ensures
        model_lookup(material, rows, uri, format) is None,
{
}

/// Absence: removing a row key the table does not hold leaves the table
/// exactly as it was.
pub proof fn lemma_remove_absent(
    rows: Map<(Seq<u8>, Seq<u8>), (Seq<u8>, int)>,
    k: (Seq<u8>, Seq<u8>),
)
    requires
        !rows.contains_key(k),
    ensures
        rows.remove(k) == rows,
{
    assert(rows.remove(k) =~= rows);
}

/// Absence: removing every row of an encoded identifier none of whose rows
/// exist leaves the table exactly as it was.
pub proof fn lemma_remove_all_absent(
    rows: Map<(Seq<u8>, Seq<u8>), (Seq<u8>, int)>,
    ek_uri: Seq<u8>,
)
    requires
        forall|k: (Seq<u8>, Seq<u8>)| #[trigger] rows.contains_key(k) ==> k.0 != ek_uri,
    ensures
        model_remove_all(rows, ek_uri) == rows,
{
    assert(model_remove_all(rows, ek_uri) =~= rows);
}

/// Overwrite: storing twice for the same pair leaves exactly the one row of
/// the second store — the table is the same as if the first store had never
/// happened — and a lookup yields the second value.
pub proof fn lemma_overwrite(
    material: Option<Seq<u8>>,
    rows: Map<(Seq<u8>, Seq<u8>), (Seq<u8>, int)>,
    uri: Seq<u8>,
    format: Seq<u8>,
    blob1: Seq<u8>,
    blob2: Seq<u8>,
    plain2: Seq<u8>,
    t1: int,
    t2: int,
)
    requires
        encodes(material, blob2, plain2),
    ensures
        rows.insert(media_key(material, uri, format), (blob1, t1)).insert(
            media_key(material, uri, format),
            (blob2, t2),
        ) == rows.insert(media_key(material, uri, format), (blob2, t2)),
        model_lookup(
            material,
            rows.insert(media_key(material, uri, format), (blob1, t1)).insert(
                media_key(material, uri, format),
                (blob2, t2),
            ),
            uri,
            format,
        ) == Some(plain2),
{
    assert(rows.insert(media_key(material, uri, format), (blob1, t1)).insert(
        media_key(material, uri, format),
        (blob2, t2),
    ) =~= rows.insert(media_key(material, uri, format), (blob2, t2)));
}

/// Scope of removing by identifier: exactly the rows whose encoded
/// identifier matches disappear; every other row survives unchanged, its
/// value and access time included.
pub proof fn lemma_remove_all_scope(
    rows: Map<(Seq<u8>, Seq<u8>), (Seq<u8>, int)>,
    ek_uri: Seq<u8>,
)
    ensures
        forall|k: (Seq<u8>, Seq<u8>)| #[trigger]
            model_remove_all(rows, ek_uri).contains_key(k) <==> (rows.contains_key(k) && k.0
                != ek_uri),
        forall|k: (Seq<u8>, Seq<u8>)|
            model_remove_all(rows, ek_uri).contains_key(k) ==> #[trigger] model_remove_all(
                rows,
                ek_uri,
            )[k] == rows[k],
{
}

/// Key hashing is deterministic: under fixed key material and a fixed table
/// namespace, equal inputs always encode to equal keys — a lookup after a
/// store hits the same row. That distinct inputs or distinct material give
/// distinct hashes is a property of the underlying keyed hash, observed by
/// the test suite, not provable here.
pub proof fn lemma_key_encoding_deterministic(
    material: Option<Seq<u8>>,
    table: Seq<char>,
    key1: Seq<u8>,
    key2: Seq<u8>,
)
    requires
        key1 == key2,
    ensures
        enc_key(material, table, key1) == enc_key(material, table, key2),
{
}

/// Decryption correctness: two encodings of the same plaintext under the
/// same key material — encryption may embed a fresh nonce each time — both
/// decode back to exactly that plaintext.
pub proof fn lemma_decryption_correct(
    material: Option<Seq<u8>>,
    blob1: Seq<u8>,
    blob2: Seq<u8>,
    plain: Seq<u8>,
)
    requires
        encodes(material, blob1, plain),
        encodes(material, blob2, plain),
    ensures
        decoded(material, blob1) == Some(plain),
        decoded(material, blob2) == Some(plain),
        decoded(material, blob1) == decoded(material, blob2),
{
}

} // verus!
