use vstd::prelude::*;
use crate::text::{hex_text, is_lower_hex_char, lemma_hex_text_chars, lemma_hex_text_len, push_byte_hex};
use argon2::password_hash::rand_core::RngCore;
use sha2::Digest;

verus! {

broadcast use vstd::array::group_array_axioms;

/// The SHA-256 digest of the UTF-8 encoding of a text.
pub uninterp spec fn sha256_of_text(text: Seq<char>) -> Seq<u8>;

/// SHA-256 of the UTF-8 bytes of `text` (`sha2::Sha256::digest`).
/// Claimed: the digest is the named function of the text; its length (32 bytes)
/// comes from the array type.
#[verifier::external_body]
fn sha256_text(text: &str) -> (digest: [u8; 32])
    ensures
        digest@ == sha256_of_text(text@),
{
    sha2::Sha256::digest(text.as_bytes()).into()
}

/// `N` bytes from the operating system's random source
/// (`OsRng.fill_bytes` of the `rand_core` that `argon2` re-exports).
/// Nothing is claimed of the bytes: they are chance.
#[verifier::external_body]
pub(crate) fn os_random_bytes<const N: usize>() -> (bytes: [u8; N]) {
    let mut bytes = [0u8; N];
    argon2::password_hash::rand_core::OsRng.fill_bytes(&mut bytes);
    bytes
}

/// The value stored for a refresh token: the hexadecimal text of the SHA-256
/// digest of the token.
pub open spec fn refresh_token_hash(token: Seq<char>) -> Seq<char> {
    hex_text(sha256_of_text(token))
}

/// Is `t` 64 characters of `0-9a-f`?
pub open spec fn is_hex64(t: Seq<char>) -> bool {
    &&& t.len() == 64
    &&& forall|i: int| 0 <= i < t.len() ==> is_lower_hex_char(#[trigger] t[i])
}

/// Lowercase hexadecimal text of `bytes`, two digits per byte.
pub fn to_hex(bytes: &[u8]) -> (s: String)
    ensures
        s@ == hex_text(bytes@),
{
    let mut s = String::new();
    let mut i: usize = 0;
    while i < bytes.len()
        invariant
            0 <= i <= bytes@.len(),
            s@ == hex_text(bytes@.subrange(0, i as int)),
        decreases bytes@.len() - i,
    {
        let b = bytes[i];
        push_byte_hex(&mut s, b);
        assert(bytes@.subrange(0, i + 1).drop_last() =~= bytes@.subrange(0, i as int));
        i = i + 1;
    }
    assert(bytes@.subrange(0, bytes@.len() as int) =~= bytes@);
    s
}

/// A new refresh token: 32 random bytes as 64 hexadecimal characters. Not a JWT.
pub fn generate_refresh_token() -> (t: String)
    ensures
        exists|bytes: Seq<u8>| bytes.len() == 32 && t@ == hex_text(bytes),
        is_hex64(t@),
{
    let bytes: [u8; 32] = os_random_bytes();
    let t = to_hex(&bytes);
    proof {
        lemma_hex_text_len(bytes@);
        lemma_hex_text_chars(bytes@);
    }
    t
}

/// SHA-256 of the token as 64 hexadecimal characters, the form kept in storage.
/// A fast hash suffices: the token already has full entropy.
pub fn hash_refresh_token(token: &str) -> (h: String)
    ensures
        h@ == refresh_token_hash(token@),
        is_hex64(h@),
{
    let digest = sha256_text(token);
    let h = to_hex(&digest);
    proof {
        lemma_hex_text_len(digest@);
        lemma_hex_text_chars(digest@);
    }
    h
}

/// Distinct digests give distinct stored values: the hexadecimal step loses nothing.
pub proof fn lemma_refresh_hash_separates_digests(a: Seq<char>, b: Seq<char>)
    requires
        sha256_of_text(a) != sha256_of_text(b),
    ensures
        refresh_token_hash(a) != refresh_token_hash(b),
{
    if refresh_token_hash(a) == refresh_token_hash(b) {
        crate::text::lemma_hex_text_injective(sha256_of_text(a), sha256_of_text(b));
    }
}

} // verus!
