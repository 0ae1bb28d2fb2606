//! The message envelope: its fields, its canonical wire encoding, and the
//! identifier derived from that encoding.

use vstd::prelude::*;
use crate::codec::{
    append_bytes, append_u32_be, copy_range, lemma_u32_be_round_trip,
    lemma_u32_from_be_round_trip, read_u32_be, u32_be, u32_from_be,
};
use crate::hashing::{keccak256, keccak256_digest};
use crate::primitives::H256;

verus! {

/// Number of bytes that precede the body in an encoded message.
pub const HEADER_LEN: usize = 77;

/// A raw message: the canonical encoding of an envelope.
pub type RawHyperlaneMessage = Vec<u8>;

/// The fields of an envelope as mathematical values.
pub struct MessageView {
    pub version: u8,
    pub nonce: u32,
    pub origin: u32,
    pub sender: Seq<u8>,
    pub destination: u32,
    pub recipient: Seq<u8>,
    pub body: Seq<u8>,
}

impl MessageView {
    /// Sender and recipient are 32-byte addresses.
    pub open spec fn well_formed(self) -> bool {
        &&& self.sender.len() == 32
        &&& self.recipient.len() == 32
    }

    /// The canonical encoding: version, nonce, origin, sender, destination
    /// and recipient at fixed offsets, integers big-endian, then the body.
    pub open spec fn encoding(self) -> Seq<u8> {
        seq![self.version] + u32_be(self.nonce) + u32_be(self.origin) + self.sender + u32_be(
            self.destination,
        ) + self.recipient + self.body
    }

    /// The identifier: the Keccak-256 digest of the canonical encoding.
    pub open spec fn id(self) -> Seq<u8> {
        keccak256_digest(self.encoding())
    }
}

/// The envelope that `raw` encodes, if `raw` is long enough to hold one.
pub open spec fn decoding(raw: Seq<u8>) -> Option<MessageView> {
    if raw.len() < HEADER_LEN {
        None
    } else {
        Some(
            MessageView {
                version: raw[0],
                nonce: u32_from_be(raw.subrange(1, 5)),
                origin: u32_from_be(raw.subrange(5, 9)),
                sender: raw.subrange(9, 41),
                destination: u32_from_be(raw.subrange(41, 45)),
                recipient: raw.subrange(45, 77),
                body: raw.subrange(77, raw.len() as int),
            },
        )
    }
}

/// Decoding the encoding of an envelope gives the envelope back.
pub proof fn lemma_decode_encode(m: MessageView)
    requires
        m.well_formed(),
    ensures
        m.encoding().len() == HEADER_LEN + m.body.len(),
        decoding(m.encoding()) == Some(m),
{
    let raw = m.encoding();
    lemma_u32_be_round_trip(m.nonce);
    lemma_u32_be_round_trip(m.origin);
    lemma_u32_be_round_trip(m.destination);
    assert(raw.subrange(1, 5) =~= u32_be(m.nonce));
    assert(raw.subrange(5, 9) =~= u32_be(m.origin));
    assert(raw.subrange(9, 41) =~= m.sender);
    assert(raw.subrange(41, 45) =~= u32_be(m.destination));
    assert(raw.subrange(45, 77) =~= m.recipient);
    assert(raw.subrange(77, raw.len() as int) =~= m.body);
}

/// Encoding the envelope decoded from a byte string gives the bytes back.
pub proof fn lemma_encode_decode(raw: Seq<u8>)
    requires
        raw.len() >= HEADER_LEN,
    ensures
        decoding(raw) is Some,
        decoding(raw).unwrap().well_formed(),
        decoding(raw).unwrap().encoding() == raw,
{
    let m = decoding(raw).unwrap();
    lemma_u32_from_be_round_trip(raw.subrange(1, 5));
    lemma_u32_from_be_round_trip(raw.subrange(5, 9));
    lemma_u32_from_be_round_trip(raw.subrange(41, 45));
    assert(m.encoding() =~= raw);
}

/// Content addressing. The identifier is a function of the fields, the
/// encoding tells any two envelopes apart, and so two envelopes that differ
/// in any field share an identifier only where Keccak-256 itself maps two
/// different byte strings to one digest.
pub proof fn lemma_content_addressed(a: MessageView, b: MessageView)
    requires
        a.well_formed(),
        b.well_formed(),
    ensures
        a == b ==> a.id() == b.id(),
        a.encoding() == b.encoding() <==> a == b,
        a.id() == b.id() && a != b ==> a.encoding() != b.encoding() && keccak256_digest(
            a.encoding(),
        ) == keccak256_digest(b.encoding()),
{
    lemma_decode_encode(a);
    lemma_decode_encode(b);
}

/// A cross-chain message.
#[derive(Clone, Debug, PartialEq, Eq)]
pub struct HyperlaneMessage {
    /// Version of the message format.
    pub version: u8,
    /// Position of the message in the outbound history of its origin mailbox.
    pub nonce: u32,
    /// Domain the message was sent from.
    pub origin: u32,
    /// Address that sent the message.
    pub sender: H256,
    /// Domain the message is bound for.
    pub destination: u32,
    /// Address the message is bound for.
    pub recipient: H256,
    /// Opaque payload.
    pub body: Vec<u8>,
}

impl View for HyperlaneMessage {
    type V = MessageView;

    open spec fn view(&self) -> MessageView {
        MessageView {
            version: self.version,
            nonce: self.nonce,
            origin: self.origin,
            sender: self.sender@,
            destination: self.destination,
            recipient: self.recipient@,
            body: self.body@,
        }
    }
}

/// The 32 bytes of `raw` that start at `at`.
fn read_h256(raw: &[u8], at: usize) -> (h: H256)
    requires
        at + 32 <= raw@.len(),
    ensures
        h@ == raw@.subrange(at as int, at + 32),
{
    let mut bytes = [0u8; 32];
    let mut i: usize = 0;
    while i < 32
        invariant
            i <= 32,
            at + 32 <= raw.len(),
            forall|j: int| 0 <= j < i ==> bytes@[j] == raw@[at + j],
        decreases 32 - i,
    {
        bytes[i] = raw[at + i];
        i += 1;
    }
    assert(bytes@ =~= raw@.subrange(at as int, at + 32));
    H256::new(bytes)
}

impl HyperlaneMessage {
    /// The canonical encoding of the message.
    pub fn to_vec(&self) -> (raw: RawHyperlaneMessage)
        ensures
            self@.well_formed(),
            raw@ == self@.encoding(),
            decoding(raw@) == Some(self@),
    {
        let mut raw: Vec<u8> = Vec::new();
        raw.push(self.version);
        append_u32_be(&mut raw, self.nonce);
        append_u32_be(&mut raw, self.origin);
        append_bytes(&mut raw, self.sender.as_bytes());
        append_u32_be(&mut raw, self.destination);
        append_bytes(&mut raw, self.recipient.as_bytes());
        append_bytes(&mut raw, self.body.as_slice());
        proof {
            assert(raw@ =~= self@.encoding());
            lemma_decode_encode(self@);
        }
        raw
    }

    /// The identifier of the message.
    pub fn id(&self) -> (id: H256)
        ensures
            id@ == self@.id(),
    {
        let raw = self.to_vec();
        keccak256(raw.as_slice())
    }

    /// The message that `raw` encodes; `None` where `raw` is shorter than
    /// the fixed header of an encoded message.
    pub fn read_from(raw: &[u8]) -> (message: Option<HyperlaneMessage>)
        ensures
            message is Some <==> raw@.len() >= HEADER_LEN,
            message matches Some(m) ==> decoding(raw@) == Some(m@) && m@.encoding() == raw@,
    {
        if raw.len() < HEADER_LEN {
            return None;
        }
        let message = HyperlaneMessage {
            version: raw[0],
            nonce: read_u32_be(raw, 1),
            origin: read_u32_be(raw, 5),
            sender: read_h256(raw, 9),
            destination: read_u32_be(raw, 41),
            recipient: read_h256(raw, 45),
            body: copy_range(raw, 77, raw.len()),
        };
        proof {
            lemma_encode_decode(raw@);
        }
        Some(message)
    }
}

} // verus!
