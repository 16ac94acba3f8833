//! Content fingerprints: the lower-case hexadecimal SHA-256 digest of a
//! payload, used as a change detector and deduplication key.

use sha2::{Digest, Sha256};
use vstd::prelude::*;

verus! {

/// The SHA-256 digest of a byte sequence.
pub uninterp spec fn sha256(data: Seq<u8>) -> [u8; 32];

/// The sixteen lower-case hexadecimal digits, in order of value.
pub open spec fn hex_digits() -> Seq<char> {
    seq!['0', '1', '2', '3', '4', '5', '6', '7', '8', '9', 'a', 'b', 'c', 'd', 'e', 'f']
}

/// Two digits for every byte, high half first.
pub open spec fn hex_lower(bytes: Seq<u8>) -> Seq<char> {
    Seq::new(
        2 * bytes.len(),
        |i: int|
            if i % 2 == 0 {
                hex_digits()[bytes[i / 2] as int / 16]
            } else {
                hex_digits()[bytes[i / 2] as int % 16]
            },
    )
}

/// The fingerprint of a payload: its digest, written in hexadecimal.
pub open spec fn fingerprint(data: Seq<u8>) -> Seq<char> {
    hex_lower(sha256(data)@)
}

/// Calls `sha2::Sha256::digest`, the one-shot form of hashing `data` with a
/// fresh hasher. The contract only gives the outcome its name, `sha256`:
/// nothing of the digest's value is proved here.
#[verifier::external_body]
fn sha256_digest(data: &[u8]) -> (digest: [u8; 32])
    ensures
        digest == sha256(data@),
{
    Sha256::digest(data).into()
}

/// Calls `hex::encode`. Assumed, not proved: it writes every byte as two
/// lower-case hexadecimal digits, the high four bits first.
#[verifier::external_body]
fn hex_encode(bytes: &[u8]) -> (text: String)
    ensures
        text@ == hex_lower(bytes@),
{
    hex::encode(bytes)
}

/// Fingerprint of an arbitrary payload, the empty one included.
pub fn compute_hash(data: &[u8]) -> (hash: String)
    ensures
        hash@ == fingerprint(data@),
        hash@.len() == 64,
{
    let digest = sha256_digest(data);
    hex_encode(digest.as_slice())
}

/// A hexadecimal digit determines the value it stands for.
proof fn lemma_hex_digit_injective(a: int, b: int)
    requires
        0 <= a < 16,
        0 <= b < 16,
        hex_digits()[a] == hex_digits()[b],
    ensures
        a == b,
{
}

/// Hexadecimal writing loses nothing: equal texts come from equal bytes.
pub proof fn lemma_hex_lower_injective(a: Seq<u8>, b: Seq<u8>)
    requires
        hex_lower(a) == hex_lower(b),
    ensures
        a == b,
{
    assert(hex_lower(a).len() == 2 * a.len());
    assert(hex_lower(b).len() == 2 * b.len());
    assert(a.len() == b.len());
    assert forall|k: int| 0 <= k < a.len() implies a[k] == b[k] by {
        let x = a[k] as int;
        let y = b[k] as int;
        assert(hex_lower(a)[2 * k] == hex_digits()[x / 16]);
        assert(hex_lower(b)[2 * k] == hex_digits()[y / 16]);
        assert(hex_lower(a)[2 * k + 1] == hex_digits()[x % 16]);
        assert(hex_lower(b)[2 * k + 1] == hex_digits()[y % 16]);
        lemma_hex_digit_injective(x / 16, y / 16);
        lemma_hex_digit_injective(x % 16, y % 16);
    }
    assert(a =~= b);
}

/// Equal payloads have equal fingerprints, and two fingerprints agree exactly
/// when the digests behind them agree.
pub proof fn lemma_fingerprint_follows_digest(a: Seq<u8>, b: Seq<u8>)
    ensures
        a == b ==> fingerprint(a) == fingerprint(b),
        fingerprint(a) == fingerprint(b) <==> sha256(a) == sha256(b),
{
    if fingerprint(a) == fingerprint(b) {
        lemma_hex_lower_injective(sha256(a)@, sha256(b)@);
        assert(sha256(a) =~= sha256(b));
    }
}

/// Every fingerprint is 64 characters long, each one a lower-case
/// hexadecimal digit.
pub proof fn lemma_fingerprint_shape(data: Seq<u8>)
    ensures
        fingerprint(data).len() == 64,
        forall|i: int| 0 <= i < 64 ==> hex_digits().contains(#[trigger] fingerprint(data)[i]),
{
    let digest = sha256(data)@;
    assert(digest.len() == 32);
    assert forall|i: int| 0 <= i < 64 implies hex_digits().contains(
        #[trigger] fingerprint(data)[i],
    ) by {
        let byte = digest[i / 2] as int;
        if i % 2 == 0 {
            assert(fingerprint(data)[i] == hex_digits()[byte / 16]);
        } else {
            assert(fingerprint(data)[i] == hex_digits()[byte % 16]);
        }
    }
}

} // verus!
