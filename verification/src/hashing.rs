//! Keccak-256, the one digest behind message identifiers and domain
//! separation tags.

use vstd::prelude::*;
use sha3::Digest;
use crate::codec::{append_bytes, append_u32_be, lemma_u32_be_round_trip, u32_be};
use crate::primitives::H256;

verus! {

/// The Keccak-256 digest of `data`, as the `sha3` crate computes it.
/// Nothing is claimed of it beyond being a function of the bytes.
pub uninterp spec fn keccak256_digest(data: Seq<u8>) -> Seq<u8>;

/// Calls `sha3::Keccak256::digest`. The contract names the 32 bytes it
/// returns `keccak256_digest` of the input: the digest depends on the input
/// bytes alone. No property of the hash function itself is assumed.
#[verifier::external_body]
fn keccak256_raw(data: &[u8]) -> (digest: [u8; 32])
    ensures
        digest@ == keccak256_digest(data@),
{
    sha3::Keccak256::digest(data).into()
}

/// The Keccak-256 digest of `data`.
pub fn keccak256(data: &[u8]) -> (digest: H256)
    ensures
        digest@ == keccak256_digest(data@),
{
    H256::new(keccak256_raw(data))
}

/// The ASCII bytes of the word that closes every domain separation tag.
pub open spec fn domain_tag_suffix() -> Seq<u8> {
    seq![0x48u8, 0x59u8, 0x50u8, 0x45u8, 0x52u8, 0x4cu8, 0x41u8, 0x4eu8, 0x45u8]
}

/// What is hashed to bind a domain to a mailbox address: the domain
/// identifier in four big-endian bytes, the address, and the closing word.
pub open spec fn domain_hash_preimage(address: Seq<u8>, domain: u32) -> Seq<u8> {
    u32_be(domain) + address + domain_tag_suffix()
}

/// The domain separation tag of the mailbox at `address` on `domain`.
pub open spec fn spec_domain_hash(address: Seq<u8>, domain: u32) -> Seq<u8> {
    keccak256_digest(domain_hash_preimage(address, domain))
}

/// The tag binds both parts: what is hashed for one mailbox is hashed for
/// no other, so two mailboxes share a tag only where Keccak-256 itself maps
/// two different byte strings to one digest.
pub proof fn lemma_domain_hash_binds(address: Seq<u8>, domain: u32, other_address: Seq<u8>, other_domain: u32)
    requires
        address.len() == 32,
        other_address.len() == 32,
    ensures
        domain_hash_preimage(address, domain) == domain_hash_preimage(other_address, other_domain)
            <==> address == other_address && domain == other_domain,
{
    let a = domain_hash_preimage(address, domain);
    let b = domain_hash_preimage(other_address, other_domain);
    lemma_u32_be_round_trip(domain);
    lemma_u32_be_round_trip(other_domain);
    assert(a.subrange(0, 4) =~= u32_be(domain));
    assert(b.subrange(0, 4) =~= u32_be(other_domain));
    assert(a.subrange(4, 36) =~= address);
    assert(b.subrange(4, 36) =~= other_address);
}

/// The domain separation tag of the mailbox at `address` on `domain`.
pub fn domain_hash(address: &H256, domain: u32) -> (tag: H256)
    ensures
        tag@ == spec_domain_hash(address@, domain),
{
    let mut preimage: Vec<u8> = Vec::new();
    append_u32_be(&mut preimage, domain);
    append_bytes(&mut preimage, address.as_bytes());
    let suffix: [u8; 9] = [0x48, 0x59, 0x50, 0x45, 0x52, 0x4c, 0x41, 0x4e, 0x45];
    append_bytes(&mut preimage, suffix.as_slice());
    assert(suffix@ =~= domain_tag_suffix());
    assert(preimage@ =~= domain_hash_preimage(address@, domain));
    keccak256(preimage.as_slice())
}

} // verus!
