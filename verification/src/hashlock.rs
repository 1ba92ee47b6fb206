//! Hashlocks: the hex-encoded SHA-256 digest of a secret, and the test of a
//! secret against one.

use sha2::{Digest, Sha256};
use vstd::prelude::*;
use vstd::slice::slice_subrange;
use vstd::utf8::encode_utf8;

verus! {

/// The SHA-256 digest of `data`.
pub uninterp spec fn sha256(data: Seq<u8>) -> Seq<u8>;

/// The sixteen lower-case hexadecimal digits, in order of value.
pub open spec fn hex_digits() -> Seq<char> {
    seq!['0', '1', '2', '3', '4', '5', '6', '7', '8', '9', 'a', 'b', 'c', 'd', 'e', 'f']
}

/// The lower-case hexadecimal text of `bytes`: two digits for each byte, the
/// high half first.
pub open spec fn hex_encoding(bytes: Seq<u8>) -> Seq<char> {
    Seq::new(
        2 * bytes.len(),
        |i: int|
            if i % 2 == 0 {
                hex_digits()[bytes[i / 2] as int / 16]
            } else {
                hex_digits()[bytes[i / 2] as int % 16]
            },
    )
}

/// The hashlock that `secret` opens.
pub open spec fn hashlock_of(secret: Seq<char>) -> Seq<char> {
    hex_encoding(sha256(encode_utf8(secret)))
}

/// Whether `secret` opens `hashlock`: the whole text must agree.
pub open spec fn opens(secret: Seq<char>, hashlock: Seq<char>) -> bool {
    hashlock_of(secret) == hashlock
}

/// A lower-case hexadecimal digit.
pub open spec fn is_hex_digit(c: char) -> bool {
    ('0' <= c && c <= '9') || ('a' <= c && c <= 'f')
}

/// How many characters a hashlock has: two for each of the thirty-two bytes
/// of a digest.
pub const HASHLOCK_LEN: usize = 64;

/// The shape of every hashlock: sixty-four lower-case hexadecimal digits.
/// No other text can be opened by any secret.
pub open spec fn is_hashlock(text: Seq<char>) -> bool {
    &&& text.len() == HASHLOCK_LEN
    &&& forall|i: int| 0 <= i < text.len() ==> is_hex_digit(#[trigger] text[i])
}

/// Hashes `data` with `sha2::Sha256` (`new`, `update`, `finalize`).
///
/// Trusted: the bytes returned are taken to be the SHA-256 digest of `data`,
/// which is thirty-two bytes long.
#[verifier::external_body]
fn sha256_digest(data: &[u8]) -> (digest: Vec<u8>)
    ensures
        digest@ == sha256(data@),
        digest@.len() == 32,
{
    let mut hasher = Sha256::new();
    hasher.update(data);
    hasher.finalize().to_vec()
}

/// Calls `hex::encode` on `bytes`.
///
/// Trusted: the text returned is taken to hold two lower-case hexadecimal
/// digits for each byte, in the order of the bytes, the high half of a byte
/// before its low half.
#[verifier::external_body]
fn hex_encode(bytes: &[u8]) -> (text: String)
    ensures
        text@ == hex_encoding(bytes@),
{
    hex::encode(bytes)
}

/// Hashlock creation and verification.
pub struct CryptoUtils;

impl CryptoUtils {
    /// The hashlock whose digest is `digest`.
    pub fn hashlock_from_digest(digest: &[u8]) -> (hashlock: String)
        ensures
            hashlock@ == hex_encoding(digest@),
    {
        hex_encode(digest)
    }

    /// Whether `hashlock` is the hex encoding of `digest`.
    pub fn digest_matches(digest: &[u8], hashlock: &str) -> (matches: bool)
        ensures
            matches == (hex_encoding(digest@) == hashlock@),
    {
        let computed = hex_encode(digest);
        let expected = hashlock.to_owned();
        computed == expected
    }

    /// Whether `text` has the shape of a hashlock.
    pub fn is_hashlock(text: &str) -> (well_shaped: bool)
        ensures
            well_shaped == is_hashlock(text@),
    {
        if text.unicode_len() != HASHLOCK_LEN {
            return false;
        }
        let mut i: usize = 0;
        while i < HASHLOCK_LEN
            invariant
                i <= HASHLOCK_LEN,
                text@.len() == HASHLOCK_LEN,
                forall|j: int| 0 <= j < i ==> is_hex_digit(#[trigger] text@[j]),
            decreases HASHLOCK_LEN - i,
        {
            let c = text.get_char(i);
            if !(('0' <= c && c <= '9') || ('a' <= c && c <= 'f')) {
                return false;
            }
            i = i + 1;
        }
        true
    }

    /// The hashlock of `secret`: the hex encoding of the SHA-256 digest of its
    /// UTF-8 bytes.
    pub fn create_hashlock(secret: &str) -> (hashlock: String)
        ensures
            hashlock@ == hashlock_of(secret@),
            is_hashlock(hashlock@),
    {
        let digest = sha256_digest(secret.as_bytes());
        proof {
            lemma_hex_encoding_is_hex(digest@);
        }
        Self::hashlock_from_digest(digest.as_slice())
    }

    /// Whether `secret` opens `hashlock`.
    pub fn verify_secret(secret: &str, hashlock: &str) -> (verified: bool)
        ensures
            verified == opens(secret@, hashlock@),
    {
        let digest = sha256_digest(secret.as_bytes());
        Self::digest_matches(digest.as_slice(), hashlock)
    }

    /// A fresh secret made of the first sixteen bytes of `seed`, in hex. A
    /// shorter seed gives none.
    pub fn generate_secret(seed: &[u8]) -> (secret: Option<String>)
        ensures
            secret is Some <==> seed@.len() >= 16,
            secret matches Some(s) ==> s@ == hex_encoding(seed@.subrange(0, 16)),
    {
        if seed.len() < 16 {
            None
        } else {
            Some(hex_encode(slice_subrange(seed, 0, 16)))
        }
    }
}

/// Every character of a hex encoding is a hexadecimal digit.
pub proof fn lemma_hex_encoding_is_hex(bytes: Seq<u8>)
    ensures
        hex_encoding(bytes).len() == 2 * bytes.len(),
        forall|i: int|
            0 <= i < hex_encoding(bytes).len() ==> is_hex_digit(#[trigger] hex_encoding(bytes)[i]),
{
    assert forall|i: int| 0 <= i < hex_encoding(bytes).len() implies is_hex_digit(
        #[trigger] hex_encoding(bytes)[i],
    ) by {
        let b = bytes[i / 2] as int;
        assert(0 <= b / 16 < 16 && 0 <= b % 16 < 16);
        lemma_hex_digits_are_hex(b / 16);
        lemma_hex_digits_are_hex(b % 16);
    }
}

/// Each of the sixteen digits is a hexadecimal digit.
proof fn lemma_hex_digits_are_hex(n: int)
    requires
        0 <= n < 16,
    ensures
        is_hex_digit(hex_digits()[n]),
{
}

/// Hex encoding loses nothing: two byte strings with the same encoding are
/// the same.
pub proof fn lemma_hex_encoding_injective(a: Seq<u8>, b: Seq<u8>)
    requires
        hex_encoding(a) == hex_encoding(b),
    ensures
        a == b,
{
    assert(hex_encoding(a).len() == 2 * a.len());
    assert(hex_encoding(b).len() == 2 * b.len());
    assert(a.len() == b.len());
    assert forall|j: int| 0 <= j < a.len() implies a[j] == b[j] by {
        let x = a[j] as int;
        let y = b[j] as int;
        assert(hex_encoding(a)[2 * j] == hex_digits()[x / 16]);
        assert(hex_encoding(b)[2 * j] == hex_digits()[y / 16]);
        assert(hex_encoding(a)[2 * j + 1] == hex_digits()[x % 16]);
        assert(hex_encoding(b)[2 * j + 1] == hex_digits()[y % 16]);
        lemma_hex_digits_distinct(x / 16, y / 16);
        lemma_hex_digits_distinct(x % 16, y % 16);
    }
    assert(a =~= b);
}

/// No hexadecimal digit stands for two values.
proof fn lemma_hex_digits_distinct(m: int, n: int)
    requires
        0 <= m < 16,
        0 <= n < 16,
        hex_digits()[m] == hex_digits()[n],
    ensures
        m == n,
{
}

/// A secret opens the hashlock made of it.
pub proof fn lemma_secret_opens_own_hashlock(secret: Seq<char>)
    ensures
        opens(secret, hashlock_of(secret)),
{
}

/// A secret does not open the hashlock made of another, as long as SHA-256
/// tells the two apart.
pub proof fn lemma_other_secret_refused(secret: Seq<char>, other: Seq<char>)
    requires
        other != secret,
        sha256(encode_utf8(other)) != sha256(encode_utf8(secret)),
    ensures
        !opens(other, hashlock_of(secret)),
{
    if opens(other, hashlock_of(secret)) {
        lemma_hex_encoding_injective(sha256(encode_utf8(other)), sha256(encode_utf8(secret)));
    }
}

} // verus!
