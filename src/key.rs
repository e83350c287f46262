//! Cache keys: the lowercase hexadecimal SHA-256 digest of a locator's UTF-8 bytes.

use sha2::{Digest, Sha256};
use vstd::prelude::*;
use vstd::utf8::encode_utf8;

verus! {

/// The SHA-256 digest of a byte sequence.
pub uninterp spec fn sha256_of(bytes: Seq<u8>) -> Seq<u8>;

/// Relies on sha2's `Sha256::digest`: the digest depends on the input bytes
/// alone and is 32 bytes long (the hash's output size).
#[verifier::external_body]
fn sha256(bytes: &[u8]) -> (r: Vec<u8>)
    ensures
        r@ == sha256_of(bytes@),
        r@.len() == 32,
{
    Sha256::digest(bytes).to_vec()
}

/// The lowercase hexadecimal digits, by value.
pub open spec fn hex_digits() -> Seq<char> {
    seq!['0', '1', '2', '3', '4', '5', '6', '7', '8', '9', 'a', 'b', 'c', 'd', 'e', 'f']
}

/// Character `i` of the two-digits-per-byte lowercase hex rendering of `b`.
pub open spec fn hex_char_at(b: Seq<u8>, i: int) -> char {
    let byte = b[i / 2];
    if i % 2 == 0 {
        hex_digits()[byte as int / 16]
    } else {
        hex_digits()[byte as int % 16]
    }
}

/// Lowercase hexadecimal rendering, high nibble first, two digits per byte.
pub open spec fn hex_of(b: Seq<u8>) -> Seq<char> {
    Seq::new(2 * b.len(), |i: int| hex_char_at(b, i))
}

/// The cache key of a locator.
pub open spec fn key_of(locator: Seq<char>) -> Seq<char> {
    hex_of(sha256_of(encode_utf8(locator)))
}

/// Length of every cache key.
pub const KEY_LEN: usize = 64;

/// The digit for a nibble value, as a one-character string.
fn hex_digit(n: u8) -> (r: &'static str)
    requires
        n < 16,
    ensures
        r@ == seq![hex_digits()[n as int]],
{
    proof {
        reveal_strlit("0123456789abcdef");
    }
    let digits = "0123456789abcdef";
    assert(digits@ =~= hex_digits());
    let r = digits.substring_char(n as usize, n as usize + 1);
    assert(r@ =~= seq![hex_digits()[n as int]]);
    r
}

/// Renders bytes as lowercase hexadecimal.
pub fn to_hex(b: &[u8]) -> (r: String)
    requires
        b@.len() < usize::MAX / 2,
    ensures
        r@ == hex_of(b@),
{
    let mut r = String::new();
    let mut i: usize = 0;
    while i < b.len()
        invariant
            i <= b@.len(),
            b@.len() < usize::MAX / 2,
            r@ =~= hex_of(b@.subrange(0, i as int)),
        decreases b@.len() - i,
    {
        let byte = b[i];
        r.append(hex_digit(byte / 16));
        r.append(hex_digit(byte % 16));
        proof {
            let prev = b@.subrange(0, i as int);
            let next = b@.subrange(0, i + 1);
            assert forall|j: int| 0 <= j < 2 * i implies hex_char_at(next, j) == hex_char_at(prev, j) by {
                assert(next[j / 2] == prev[j / 2]);
            }
            assert(hex_char_at(next, 2 * i as int) == hex_digits()[(byte / 16) as int]);
            assert(hex_char_at(next, 2 * i + 1) == hex_digits()[(byte % 16) as int]);
        }
        i = i + 1;
    }
    assert(b@.subrange(0, b@.len() as int) =~= b@);
    r
}

/// Derives the cache key of a locator.
pub fn url_to_filename(url: &str) -> (r: String)
    ensures
        r@ == key_of(url@),
        r@.len() == KEY_LEN,
{
    let digest = sha256(url.as_bytes());
    to_hex(digest.as_slice())
}

/// Deriving a key is a function of the locator alone: two derivations from
/// the same locator yield the same key.
pub proof fn lemma_key_deterministic(locator: Seq<char>, first: Seq<char>, second: Seq<char>)
    requires
        first == key_of(locator),
        second == key_of(locator),
    ensures
        first == second,
{
}

proof fn lemma_hex_digit_injective(x: int, y: int)
    requires
        0 <= x < 16,
        0 <= y < 16,
        hex_digits()[x] == hex_digits()[y],
    ensures
        x == y,
{
    let d = hex_digits();
    assert(d[0] == '0' && d[1] == '1' && d[2] == '2' && d[3] == '3' && d[4] == '4' && d[5] == '5'
        && d[6] == '6' && d[7] == '7' && d[8] == '8' && d[9] == '9' && d[10] == 'a' && d[11] == 'b'
        && d[12] == 'c' && d[13] == 'd' && d[14] == 'e' && d[15] == 'f');
}

/// Hex rendering loses nothing: equal renderings come from equal bytes.
pub proof fn lemma_hex_injective(a: Seq<u8>, b: Seq<u8>)
    requires
        hex_of(a) == hex_of(b),
    ensures
        a == b,
{
    assert(hex_of(a).len() == 2 * a.len());
    assert(hex_of(b).len() == 2 * b.len());
    assert(a.len() == b.len());
    assert forall|j: int| 0 <= j < a.len() implies a[j] == b[j] by {
        assert((2 * j) / 2 == j && (2 * j) % 2 == 0);
        assert((2 * j + 1) / 2 == j && (2 * j + 1) % 2 == 1);
        assert(hex_of(a)[2 * j] == hex_char_at(a, 2 * j));
        assert(hex_of(b)[2 * j] == hex_char_at(b, 2 * j));
        assert(hex_of(a)[2 * j + 1] == hex_char_at(a, 2 * j + 1));
        assert(hex_of(b)[2 * j + 1] == hex_char_at(b, 2 * j + 1));
        lemma_hex_digit_injective(a[j] as int / 16, b[j] as int / 16);
        lemma_hex_digit_injective(a[j] as int % 16, b[j] as int % 16);
    }
    assert(a =~= b);
}

/// Two locators share a key only when their UTF-8 bytes share a SHA-256
/// digest: distinct keys are as likely as distinct digests.
pub proof fn lemma_key_collision_is_digest_collision(first: Seq<char>, second: Seq<char>)
    requires
        key_of(first) == key_of(second),
    ensures
        sha256_of(encode_utf8(first)) == sha256_of(encode_utf8(second)),
{
    lemma_hex_injective(sha256_of(encode_utf8(first)), sha256_of(encode_utf8(second)));
}

} // verus!
