//! Chain-agnostic value types: 32-byte addresses and digests, and the
//! identity of a chain.

use vstd::prelude::*;

verus! {

/// Whether two byte strings hold the same bytes.
pub fn bytes_equal(a: &[u8], b: &[u8]) -> (same: bool)
    ensures
        same == (a@ == b@),
{
    if a.len() != b.len() {
        return false;
    }
    let mut i: usize = 0;
    while i < a.len()
        invariant
            a@.len() == b@.len(),
            i <= a@.len(),
            forall|j: int| 0 <= j < i ==> a@[j] == b@[j],
        decreases a@.len() - i,
    {
        if a[i] != b[i] {
            return false;
        }
        i += 1;
    }
    assert(a@ =~= b@);
    true
}

/// A fixed-width, chain-agnostic account, contract or digest value.
/// Identity is byte-for-byte equality of the 32 bytes.
#[derive(Clone, Copy, Debug, PartialEq, Eq, Hash)]
pub struct H256(pub [u8; 32]);

impl View for H256 {
    type V = Seq<u8>;

    open spec fn view(&self) -> Seq<u8> {
        self.0@
    }
}

impl H256 {
    /// The value made of the given bytes.
    pub fn new(bytes: [u8; 32]) -> (h: H256)
        ensures
            h@ == bytes@,
    {
        H256(bytes)
    }

    /// The value whose bytes are all zero.
    pub fn zero() -> (h: H256)
        ensures
            h@ == Seq::new(32, |i: int| 0u8),
    {
        let h = H256([0u8; 32]);
        assert(h@ =~= Seq::new(32, |i: int| 0u8));
        h
    }

    /// The 32 bytes, most significant first.
    pub fn to_bytes(&self) -> (bytes: [u8; 32])
        ensures
            bytes@ == self@,
    {
        self.0
    }

    /// The 32 bytes, borrowed.
    pub fn as_bytes(&self) -> (bytes: &[u8])
        ensures
            bytes@ == self@,
    {
        self.0.as_slice()
    }

    /// Byte-for-byte equality.
    pub fn equals(&self, other: &H256) -> (same: bool)
        ensures
            same == (self@ == other@),
    {
        bytes_equal(self.0.as_slice(), other.0.as_slice())
    }

    /// Every value has exactly 32 bytes, and the bytes determine the value.
    pub proof fn lemma_identity(self, other: H256)
        ensures
            self@.len() == 32,
            self@ == other@ <==> self == other,
    {
        if self@ == other@ {
            assert(self.0 =~= other.0);
        }
    }
}


/// The family of chains a domain belongs to.
#[derive(Clone, Copy, Debug, PartialEq, Eq, Hash, Structural)]
pub enum HyperlaneDomainProtocol {
    /// An EVM chain.
    Ethereum,
    /// A Fuel chain.
    Fuel,
    /// A Sealevel chain.
    Sealevel,
    /// A Cosmos chain.
    Cosmos,
}

/// The identity of a chain as mathematical values.
pub struct DomainView {
    pub id: u32,
    pub name: Seq<char>,
    pub protocol: HyperlaneDomainProtocol,
}

/// The identity of a chain: a numeric identifier, a name for people, and
/// the family of the chain. Fixed once made.
#[derive(Clone, Debug, PartialEq, Eq, Hash)]
pub struct HyperlaneDomain {
    id: u32,
    name: String,
    protocol: HyperlaneDomainProtocol,
}

impl View for HyperlaneDomain {
    type V = DomainView;

    closed spec fn view(&self) -> DomainView {
        DomainView { id: self.id, name: self.name@, protocol: self.protocol }
    }
}

impl HyperlaneDomain {
    /// The domain with the given identifier, name and family.
    pub fn new(id: u32, name: String, protocol: HyperlaneDomainProtocol) -> (domain: HyperlaneDomain)
        ensures
            domain@ == (DomainView { id, name: name@, protocol }),
    {
        HyperlaneDomain { id, name, protocol }
    }

    /// The numeric identifier.
    pub fn id(&self) -> (id: u32)
        ensures
            id == self@.id,
    {
        self.id
    }

    /// The name.
    pub fn name(&self) -> (name: &str)
        ensures
            name@ == self@.name,
    {
        self.name.as_str()
    }

    /// The family of the chain.
    pub fn protocol(&self) -> (protocol: HyperlaneDomainProtocol)
        ensures
            protocol == self@.protocol,
    {
        self.protocol
    }
}

} // verus!
