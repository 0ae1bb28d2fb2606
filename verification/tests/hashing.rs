use hyperlane_test::codec::{
    append_bytes, append_u32_be, append_u64_be, copy_range, read_u32_be,
};
use hyperlane_test::hashing::{domain_hash, keccak256};
use hyperlane_test::primitives::{
    bytes_equal, HyperlaneDomain, HyperlaneDomainProtocol, H256,
};
use sha3::Digest;

const KECCAK_EMPTY: [u8; 32] = [
    197, 210, 70, 1, 134, 247, 35, 60, 146, 126, 125, 178, 220, 199, 3, 192, 229, 0, 182, 83, 202,
    130, 39, 59, 123, 250, 216, 4, 93, 133, 164, 112,
];

const KECCAK_ABC: [u8; 32] = [
    78, 3, 101, 122, 234, 69, 169, 79, 199, 212, 123, 168, 38, 200, 214, 103, 192, 209, 230, 227,
    58, 100, 160, 54, 236, 68, 245, 143, 161, 45, 108, 69,
];

const KECCAK_200_ZEROS: [u8; 32] = [
    225, 187, 84, 225, 188, 58, 244, 141, 1, 229, 219, 252, 129, 1, 92, 152, 21, 42, 87, 79, 100,
    40, 198, 148, 138, 164, 131, 124, 156, 11, 170, 217,
];

#[test]
fn keccak256_of_empty_input() {
    assert_eq!(keccak256(&[]), H256(KECCAK_EMPTY));
}

#[test]
fn keccak256_of_abc() {
    assert_eq!(keccak256(b"abc"), H256(KECCAK_ABC));
}

#[test]
fn keccak256_of_input_longer_than_one_block() {
    assert_eq!(keccak256(&[0u8; 200]), H256(KECCAK_200_ZEROS));
}

#[test]
fn keccak256_is_not_the_identity_on_32_bytes() {
    let input = [7u8; 32];
    assert_ne!(keccak256(&input), H256(input));
}

#[test]
fn keccak256_depends_on_the_bytes_alone() {
    let first = keccak256(&[1, 2, 3]);
    let second = keccak256(&vec![1, 2, 3]);
    assert_eq!(first, second);
    assert_ne!(first, keccak256(&[1, 2, 4]));
}

#[test]
fn domain_hash_of_known_mailbox() {
    let expected: [u8; 32] = [
        255, 34, 67, 252, 45, 178, 27, 205, 193, 8, 177, 127, 114, 99, 253, 173, 220, 214, 10,
        185, 129, 219, 229, 102, 110, 155, 218, 73, 32, 62, 213, 5,
    ];
    assert_eq!(domain_hash(&H256([0xab; 32]), 1000), H256(expected));
}

#[test]
fn domain_hash_is_keccak_of_domain_address_and_tag() {
    let address = H256([0x5a; 32]);
    let domain: u32 = 0x0102_0304;
    let digest: [u8; 32] = sha3::Keccak256::new()
        .chain_update(domain.to_be_bytes())
        .chain_update(address.0)
        .chain_update("HYPERLANE")
        .finalize()
        .into();
    assert_eq!(domain_hash(&address, domain), H256(digest));
}

#[test]
fn domain_hash_tells_domains_and_addresses_apart() {
    let address = H256([1; 32]);
    let other = H256([2; 32]);
    assert_ne!(domain_hash(&address, 1), domain_hash(&address, 2));
    assert_ne!(domain_hash(&address, 1), domain_hash(&other, 1));
    assert_eq!(domain_hash(&address, 1), domain_hash(&H256([1; 32]), 1));
}

#[test]
fn u32_is_written_big_endian() {
    let mut out = vec![9u8];
    append_u32_be(&mut out, 0x0102_0304);
    assert_eq!(out, vec![9, 1, 2, 3, 4]);
    let mut edge = Vec::new();
    append_u32_be(&mut edge, 0);
    append_u32_be(&mut edge, u32::MAX);
    assert_eq!(edge, vec![0, 0, 0, 0, 255, 255, 255, 255]);
}

#[test]
fn u64_is_written_big_endian() {
    let mut out = Vec::new();
    append_u64_be(&mut out, 0x0102_0304_0506_0708);
    assert_eq!(out, vec![1, 2, 3, 4, 5, 6, 7, 8]);
    let mut edge = Vec::new();
    append_u64_be(&mut edge, u64::MAX);
    assert_eq!(edge, vec![255; 8]);
}

#[test]
fn u32_is_read_back_as_written() {
    for x in [0u32, 1, 255, 256, 65_535, 65_536, 0x0102_0304, u32::MAX] {
        let mut out = vec![0xee, 0xee];
        append_u32_be(&mut out, x);
        assert_eq!(out.len(), 6);
        assert_eq!(&out[2..], &x.to_be_bytes()[..]);
        assert_eq!(read_u32_be(&out, 2), x);
    }
}

#[test]
fn append_bytes_appends() {
    let mut out = vec![1u8, 2];
    append_bytes(&mut out, &[3, 4, 5]);
    append_bytes(&mut out, &[]);
    assert_eq!(out, vec![1, 2, 3, 4, 5]);
}

#[test]
fn copy_range_copies_the_range() {
    let raw = [10u8, 11, 12, 13, 14];
    assert_eq!(copy_range(&raw, 1, 4), vec![11, 12, 13]);
    assert_eq!(copy_range(&raw, 0, 5), raw.to_vec());
    assert_eq!(copy_range(&raw, 5, 5), Vec::<u8>::new());
    assert_eq!(copy_range(&raw, 2, 2), Vec::<u8>::new());
}

#[test]
fn bytes_equal_compares_byte_for_byte() {
    assert!(bytes_equal(&[], &[]));
    assert!(bytes_equal(&[1, 2, 3], &[1, 2, 3]));
    assert!(!bytes_equal(&[1, 2, 3], &[1, 2, 4]));
    assert!(!bytes_equal(&[1, 2, 3], &[1, 2]));
    assert!(!bytes_equal(&[], &[0]));
}

#[test]
fn h256_identity_is_byte_equality() {
    let mut bytes = [0u8; 32];
    bytes[31] = 1;
    let one = H256::new(bytes);
    assert_eq!(one.to_bytes(), bytes);
    assert_eq!(one.as_bytes(), &bytes[..]);
    assert!(one.equals(&H256(bytes)));
    assert!(!one.equals(&H256::zero()));
    assert_eq!(H256::zero(), H256([0; 32]));
    assert!(H256::zero().equals(&H256([0; 32])));
    let mut high = [0u8; 32];
    high[0] = 1;
    assert!(!one.equals(&H256(high)));
}

#[test]
fn domain_keeps_what_it_was_made_with() {
    let domain = HyperlaneDomain::new(1000, String::from("test1"), HyperlaneDomainProtocol::Ethereum);
    assert_eq!(domain.id(), 1000);
    assert_eq!(domain.name(), "test1");
    assert_eq!(domain.protocol(), HyperlaneDomainProtocol::Ethereum);
    let other = HyperlaneDomain::new(7, String::new(), HyperlaneDomainProtocol::Sealevel);
    assert_eq!(other.id(), 7);
    assert_eq!(other.name(), "");
    assert_eq!(other.protocol(), HyperlaneDomainProtocol::Sealevel);
    assert_ne!(domain, other);
}
