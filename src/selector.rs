//! Function selectors: the first four bytes, big-endian, of a digest of the
//! canonical signature, under Keccak-256 or, in GM mode, SM3.

use vstd::prelude::*;
use sha3::Digest;

verus! {

/// The Keccak-256 digest of the UTF-8 bytes of a text.
pub uninterp spec fn keccak256_of(s: Seq<char>) -> Seq<u8>;

/// The SM3 digest of the UTF-8 bytes of a text.
pub uninterp spec fn sm3_of(s: Seq<char>) -> Seq<u8>;

/// Relies on sha3::Keccak256::digest: a 32-byte digest of the text's UTF-8
/// bytes.
#[verifier::external_body]
fn keccak256(s: &str) -> (r: Vec<u8>)
    ensures
        r@ == keccak256_of(s@),
        r@.len() == 32,
{
    sha3::Keccak256::digest(s.as_bytes()).to_vec()
}

/// Relies on libsm::sm3::hash::Sm3Hash (`new`, then `get_hash`): a 32-byte
/// digest of the text's UTF-8 bytes.
#[verifier::external_body]
fn sm3(s: &str) -> (r: Vec<u8>)
    ensures
        r@ == sm3_of(s@),
        r@.len() == 32,
{
    libsm::sm3::hash::Sm3Hash::new(s.as_bytes()).get_hash().to_vec()
}

/// The unsigned value of the first four bytes of `d`, most significant first.
pub open spec fn be_u32(d: Seq<u8>) -> u32 {
    (d[0] as nat * 0x1000000 + d[1] as nat * 0x10000 + d[2] as nat * 0x100 + d[3] as nat) as u32
}

/// The digest a mode uses: SM3 in GM mode, Keccak-256 otherwise.
pub open spec fn digest_of(signature: Seq<char>, gm: bool) -> Seq<u8> {
    if gm {
        sm3_of(signature)
    } else {
        keccak256_of(signature)
    }
}

/// The selector of a canonical signature in a mode.
pub open spec fn selector_of(signature: Seq<char>, gm: bool) -> u32 {
    be_u32(digest_of(signature, gm))
}

/// The big-endian value of the first four bytes of a digest.
pub fn selector_from_digest(d: &[u8]) -> (r: u32)
    requires
        d@.len() >= 4,
    ensures
        r == be_u32(d@),
        r as nat == d@[0] as nat * 0x1000000 + d@[1] as nat * 0x10000 + d@[2] as nat * 0x100
            + d@[3] as nat,
{
    (d[0] as u32) * 0x1000000 + (d[1] as u32) * 0x10000 + (d[2] as u32) * 0x100 + (d[3] as u32)
}

/// The selector of `signature`: SM3 when `gm` holds, Keccak-256 otherwise.
pub fn get_method_id(signature: &str, gm: bool) -> (r: u32)
    ensures
        r == selector_of(signature@, gm),
{
    let digest = if gm {
        sm3(signature)
    } else {
        keccak256(signature)
    };
    selector_from_digest(digest.as_slice())
}

/// Hashing one signature twice in one mode gives one selector.
pub proof fn lemma_selector_deterministic(a: Seq<char>, b: Seq<char>, gm: bool)
    requires
        a == b,
    ensures
        selector_of(a, gm) == selector_of(b, gm),
{
}

} // verus!
