//! The mailbox as a mathematical state, and what each call of the mailbox
//! interface returns and changes in terms of that state.

use vstd::prelude::*;
use crate::checkpoint::{Checkpoint, CheckpointView};
use crate::codec::u64_be;
use crate::error::{ChainCommunicationError, ChainResult};
use crate::hashing::spec_domain_hash;
use crate::message::MessageView;
use crate::primitives::{DomainView, H256};
use crate::transaction::{TxCostEstimate, TxOutcome};

verus! {

/// Version that a mailbox stamps on the messages it dispatches.
pub const MAILBOX_VERSION: u8 = 3;

/// One entry of the outbound history: a message and the root that the
/// mailbox committed once the message was in its tree.
pub struct DispatchView {
    pub message: MessageView,
    pub root: Seq<u8>,
}

/// Everything a mailbox holds.
pub struct MailboxState {
    /// Chain the mailbox lives on.
    pub domain: DomainView,
    /// Address of the mailbox on that chain.
    pub address: Seq<u8>,
    /// Security module used where a message names none.
    pub default_ism: Seq<u8>,
    /// Metadata the security module insists on; `None` where it accepts any.
    pub required_metadata: Option<Seq<u8>>,
    /// Whether the backend answers.
    pub reachable: bool,
    /// Gas that one delivery consumes.
    pub delivery_gas: u64,
    /// Price of one unit of gas.
    pub gas_price: u64,
    /// Outbound history, the message with nonce `i` at position `i`.
    pub dispatched: Seq<DispatchView>,
    /// Identifiers of the messages delivered here, in order of delivery.
    pub delivered: Seq<Seq<u8>>,
    /// Payload of every delivery transaction that was attempted, in order.
    pub submitted: Seq<Seq<u8>>,
}

/// The wire payload of a delivery: the length of the metadata in eight
/// big-endian bytes, the metadata, and the canonical encoding of the message.
pub open spec fn calldata(message: MessageView, metadata: Seq<u8>) -> Seq<u8> {
    u64_be(metadata.len() as u64) + metadata + message.encoding()
}

/// The entry is a message that the mailbox of `domain` stamped at
/// `position`: the nonce is the position and the origin is the domain.
pub open spec fn stamped_by(entry: DispatchView, domain: u32, position: int) -> bool {
    &&& entry.message.well_formed()
    &&& entry.message.version == MAILBOX_VERSION
    &&& entry.message.nonce == position
    &&& entry.message.origin == domain
    &&& entry.root.len() == 32
}

impl MailboxState {
    /// A reachable mailbox that has dispatched and delivered nothing, whose
    /// security module accepts any metadata, and where a delivery is free.
    pub open spec fn initial(domain: DomainView, address: Seq<u8>, default_ism: Seq<u8>) -> MailboxState {
        MailboxState {
            domain,
            address,
            default_ism,
            required_metadata: None,
            reachable: true,
            delivery_gas: 0,
            gas_price: 0,
            dispatched: Seq::empty(),
            delivered: Seq::empty(),
            submitted: Seq::empty(),
        }
    }

    /// What holds of every mailbox: addresses are 32 bytes, the outbound
    /// history is numbered without gaps and fits the 32-bit count, and no
    /// identifier was delivered twice.
    pub open spec fn valid(self) -> bool {
        &&& self.address.len() == 32
        &&& self.default_ism.len() == 32
        &&& self.dispatched.len() <= u32::MAX
        &&& forall|i: int|
            0 <= i < self.dispatched.len() ==> stamped_by(#[trigger] self.dispatched[i], self.domain.id, i)
        &&& self.delivered.no_duplicates()
    }

    /// Identifiers of the dispatched messages, by nonce.
    pub open spec fn ids(self) -> Seq<Seq<u8>> {
        self.dispatched.map_values(|entry: DispatchView| entry.message.id())
    }

    /// The domain separation tag of this mailbox.
    pub open spec fn domain_hash(self) -> Seq<u8> {
        spec_domain_hash(self.address, self.domain.id)
    }

    /// Number of messages dispatched from this mailbox.
    pub open spec fn count(self) -> ChainResult<u32> {
        if !self.reachable {
            Err(ChainCommunicationError::Unreachable)
        } else {
            Ok(self.dispatched.len() as u32)
        }
    }

    /// Identifier of the message with the given nonce; empty where no such
    /// message has been dispatched.
    pub open spec fn id_by_nonce(self, nonce: int) -> ChainResult<Option<Seq<u8>>> {
        if !self.reachable {
            Err(ChainCommunicationError::Unreachable)
        } else if 0 <= nonce < self.dispatched.len() {
            Ok(Some(self.dispatched[nonce].message.id()))
        } else {
            Ok(None)
        }
    }

    /// Encoding of the earliest dispatched message with the given
    /// identifier; empty where no dispatched message has it.
    pub open spec fn raw_message_by_id(self, id: Seq<u8>) -> ChainResult<Option<Seq<u8>>> {
        if !self.reachable {
            Err(ChainCommunicationError::Unreachable)
        } else {
            match self.ids().index_of_first(id) {
                Some(i) => Ok(Some(self.dispatched[i].message.encoding())),
                None => Ok(None),
            }
        }
    }

    /// The checkpoint `lag` commitments before the latest one. There is
    /// none where nothing was dispatched or the lag reaches back past the
    /// first message.
    pub open spec fn latest_checkpoint(self, maybe_lag: Option<u64>) -> ChainResult<CheckpointView> {
        let lag: int = match maybe_lag {
            Some(lag) => lag as int,
            None => 0,
        };
        if !self.reachable {
            Err(ChainCommunicationError::Unreachable)
        } else if lag >= self.dispatched.len() {
            Err(ChainCommunicationError::NoCheckpoint)
        } else {
            let index = self.dispatched.len() - 1 - lag;
            Ok(
                CheckpointView {
                    mailbox_address: self.address,
                    mailbox_domain: self.domain.id,
                    root: self.dispatched[index].root,
                    index: index as u32,
                    signature: None,
                },
            )
        }
    }

    /// The security module in force where a message names none.
    pub open spec fn default_ism(self) -> ChainResult<Seq<u8>> {
        if !self.reachable {
            Err(ChainCommunicationError::Unreachable)
        } else {
            Ok(self.default_ism)
        }
    }

    /// Whether the message with this identifier has been delivered here.
    pub open spec fn delivered(self, id: Seq<u8>) -> ChainResult<bool> {
        if !self.reachable {
            Err(ChainCommunicationError::Unreachable)
        } else {
            Ok(self.delivered.contains(id))
        }
    }

    /// Whether the security module accepts the metadata.
    pub open spec fn accepts(self, metadata: Seq<u8>) -> bool {
        match self.required_metadata {
            Some(required) => metadata == required,
            None => true,
        }
    }

    /// Why the delivery of the message with identifier `id` would be
    /// refused, if it would: the backend is unreachable, else the message
    /// was delivered before, else the security module rejects the metadata,
    /// else the gas limit is too low.
    pub open spec fn refusal(self, id: Seq<u8>, metadata: Seq<u8>, tx_gas_limit: Option<u64>) -> Option<
        ChainCommunicationError,
    > {
        if !self.reachable {
            Some(ChainCommunicationError::Unreachable)
        } else if self.delivered.contains(id) {
            Some(ChainCommunicationError::AlreadyDelivered)
        } else if !self.accepts(metadata) {
            Some(ChainCommunicationError::MetadataRejected)
        } else if tx_gas_limit matches Some(limit) && limit < self.delivery_gas {
            Some(ChainCommunicationError::InsufficientGas)
        } else {
            None
        }
    }

    /// What the delivery of the message with identifier `id` returns: the
    /// refusal, or a transaction that was carried out, numbered by its
    /// place among the attempts, at the gas and price of a delivery.
    pub open spec fn submit(self, id: Seq<u8>, metadata: Seq<u8>, tx_gas_limit: Option<u64>) -> ChainResult<
        TxOutcome,
    > {
        match self.refusal(id, metadata, tx_gas_limit) {
            Some(error) => Err(error),
            None => Ok(
                TxOutcome {
                    transaction_id: self.submitted.len() as u64,
                    executed: true,
                    gas_used: self.delivery_gas,
                    gas_price: self.gas_price,
                },
            ),
        }
    }

    /// The mailbox after the delivery of the message with identifier `id`
    /// was attempted with `payload`: the payload is on record, and the
    /// identifier counts as delivered exactly where the delivery was not
    /// refused.
    pub open spec fn after_submit(
        self,
        id: Seq<u8>,
        payload: Seq<u8>,
        metadata: Seq<u8>,
        tx_gas_limit: Option<u64>,
    ) -> MailboxState {
        MailboxState {
            submitted: self.submitted.push(payload),
            delivered: if self.refusal(id, metadata, tx_gas_limit) is None {
                self.delivered.push(id)
            } else {
                self.delivered
            },
            ..self
        }
    }

    /// What a dry run of the delivery of the message with identifier `id`
    /// returns: the refusal a delivery without a gas limit would meet, or
    /// what the delivery costs.
    pub open spec fn estimate(self, id: Seq<u8>, metadata: Seq<u8>) -> ChainResult<TxCostEstimate> {
        match self.refusal(id, metadata, None) {
            Some(error) => Err(error),
            None => Ok(
                TxCostEstimate {
                    gas_limit: self.delivery_gas,
                    gas_price: self.gas_price,
                    fee: (self.delivery_gas * self.gas_price) as u128,
                },
            ),
        }
    }

    /// What the delivery of `message` returns.
    pub open spec fn process(
        self,
        message: MessageView,
        metadata: Seq<u8>,
        tx_gas_limit: Option<u64>,
    ) -> ChainResult<TxOutcome> {
        self.submit(message.id(), metadata, tx_gas_limit)
    }

    /// The mailbox after the delivery of `message` was attempted.
    pub open spec fn after_process(
        self,
        message: MessageView,
        metadata: Seq<u8>,
        tx_gas_limit: Option<u64>,
    ) -> MailboxState {
        self.after_submit(message.id(), calldata(message, metadata), metadata, tx_gas_limit)
    }

    /// What a dry run of the delivery of `message` returns.
    pub open spec fn process_estimate_costs(self, message: MessageView, metadata: Seq<u8>) -> ChainResult<
        TxCostEstimate,
    > {
        self.estimate(message.id(), metadata)
    }

    /// Whether the outbound history has room for one more message.
    pub open spec fn can_dispatch(self) -> bool {
        self.dispatched.len() < u32::MAX
    }

    /// The message this mailbox would stamp next.
    pub open spec fn next_message(
        self,
        sender: Seq<u8>,
        destination: u32,
        recipient: Seq<u8>,
        body: Seq<u8>,
    ) -> MessageView {
        MessageView {
            version: MAILBOX_VERSION,
            nonce: self.dispatched.len() as u32,
            origin: self.domain.id,
            sender,
            destination,
            recipient,
            body,
        }
    }

    /// The mailbox after a dispatch: the stamped message and its root end
    /// the outbound history, unless the history is full.
    pub open spec fn after_dispatch(
        self,
        sender: Seq<u8>,
        destination: u32,
        recipient: Seq<u8>,
        body: Seq<u8>,
        root: Seq<u8>,
    ) -> MailboxState {
        if self.can_dispatch() {
            MailboxState {
                dispatched: self.dispatched.push(
                    DispatchView { message: self.next_message(sender, destination, recipient, body), root },
                ),
                ..self
            }
        } else {
            self
        }
    }
}

/// A digest result by its bytes.
pub open spec fn hash_view(result: ChainResult<H256>) -> ChainResult<Seq<u8>> {
    match result {
        Ok(hash) => Ok(hash@),
        Err(error) => Err(error),
    }
}

/// A digest lookup by its bytes.
pub open spec fn hash_lookup_view(result: ChainResult<Option<H256>>) -> ChainResult<Option<Seq<u8>>> {
    match result {
        Ok(Some(hash)) => Ok(Some(hash@)),
        Ok(None) => Ok(None),
        Err(error) => Err(error),
    }
}

/// A raw message lookup by its bytes.
pub open spec fn raw_lookup_view(result: ChainResult<Option<Vec<u8>>>) -> ChainResult<Option<Seq<u8>>> {
    match result {
        Ok(Some(raw)) => Ok(Some(raw@)),
        Ok(None) => Ok(None),
        Err(error) => Err(error),
    }
}

/// A checkpoint result by its values.
pub open spec fn checkpoint_view(result: ChainResult<Checkpoint>) -> ChainResult<CheckpointView> {
    match result {
        Ok(checkpoint) => Ok(checkpoint@),
        Err(error) => Err(error),
    }
}

} // verus!
