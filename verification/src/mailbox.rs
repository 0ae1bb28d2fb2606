//! The in-memory mailbox: one chain's outbound history and inbound
//! deliveries, behind the interface a relayer talks to.

use vstd::prelude::*;
use crate::checkpoint::Checkpoint;
use crate::codec::{append_bytes, append_u64_be, copy_range};
use crate::error::{ChainCommunicationError, ChainResult};
use crate::hashing::domain_hash;
use crate::message::{HyperlaneMessage, RawHyperlaneMessage};
use crate::primitives::{bytes_equal, HyperlaneDomain, H256};
use crate::state::{
    calldata, checkpoint_view, hash_lookup_view, hash_view, raw_lookup_view, DispatchView,
    MailboxState, MAILBOX_VERSION,
};
use crate::transaction::{TxCostEstimate, TxOutcome};

verus! {

/// One entry of the outbound history.
#[derive(Debug)]
struct Dispatched {
    message: HyperlaneMessage,
    id: H256,
    root: H256,
}

spec fn dispatch_views(entries: Seq<Dispatched>) -> Seq<DispatchView> {
    Seq::new(
        entries.len(),
        |i: int| DispatchView { message: entries[i].message@, root: entries[i].root@ },
    )
}

spec fn hash_views(hashes: Seq<H256>) -> Seq<Seq<u8>> {
    Seq::new(hashes.len(), |i: int| hashes[i]@)
}

spec fn payload_views(payloads: Seq<Vec<u8>>) -> Seq<Seq<u8>> {
    Seq::new(payloads.len(), |i: int| payloads[i]@)
}

/// Whether `id` is among `hashes`.
fn contains_hash(hashes: &Vec<H256>, id: &H256) -> (found: bool)
    ensures
        found == hash_views(hashes@).contains(id@),
{
    let mut i: usize = 0;
    while i < hashes.len()
        invariant
            i <= hashes@.len(),
            forall|j: int| 0 <= j < i ==> hash_views(hashes@)[j] != id@,
        decreases hashes@.len() - i,
    {
        if hashes[i].equals(id) {
            assert(hash_views(hashes@)[i as int] == id@);
            return true;
        }
        i += 1;
    }
    false
}

/// An in-memory stand-in for the mailbox contract of one chain. It keeps
/// what the chain would keep, answers as the chain would answer, and can be
/// told to be unreachable, to insist on given metadata, and what a
/// delivery costs.
#[derive(Debug)]
pub struct MockMailboxContract {
    domain: HyperlaneDomain,
    address: H256,
    default_ism: H256,
    required_metadata: Option<Vec<u8>>,
    reachable: bool,
    delivery_gas: u64,
    gas_price: u64,
    dispatched: Vec<Dispatched>,
    delivered: Vec<H256>,
    submitted: Vec<Vec<u8>>,
}

impl View for MockMailboxContract {
    type V = MailboxState;

    closed spec fn view(&self) -> MailboxState {
        MailboxState {
            domain: self.domain@,
            address: self.address@,
            default_ism: self.default_ism@,
            required_metadata: match self.required_metadata {
                Some(required) => Some(required@),
                None => None,
            },
            reachable: self.reachable,
            delivery_gas: self.delivery_gas,
            gas_price: self.gas_price,
            dispatched: dispatch_views(self.dispatched@),
            delivered: hash_views(self.delivered@),
            submitted: payload_views(self.submitted@),
        }
    }
}

impl MockMailboxContract {
    #[verifier::type_invariant]
    spec fn inv(&self) -> bool {
        &&& self@.valid()
        &&& forall|i: int|
            0 <= i < self.dispatched@.len() ==> (#[trigger] self.dispatched@[i]).id@
                == self.dispatched@[i].message@.id()
    }

    /// A reachable mailbox at `address` on `domain` that has dispatched and
    /// delivered nothing, accepts any metadata, and delivers for free.
    pub fn new(domain: HyperlaneDomain, address: H256, default_ism: H256) -> (mailbox: MockMailboxContract)
        ensures
            mailbox@ == MailboxState::initial(domain@, address@, default_ism@),
            mailbox@.valid(),
    {
        let mailbox = MockMailboxContract {
            domain,
            address,
            default_ism,
            required_metadata: None,
            reachable: true,
            delivery_gas: 0,
            gas_price: 0,
            dispatched: Vec::new(),
            delivered: Vec::new(),
            submitted: Vec::new(),
        };
        assert(mailbox@.dispatched =~= Seq::empty());
        assert(mailbox@.delivered =~= Seq::empty());
        assert(mailbox@.submitted =~= Seq::empty());
        mailbox
    }

    /// The chain this mailbox lives on.
    pub fn domain(&self) -> (domain: &HyperlaneDomain)
        ensures
            domain@ == self@.domain,
    {
        &self.domain
    }

    /// The address of this mailbox on its chain.
    pub fn address(&self) -> (address: H256)
        ensures
            address@ == self@.address,
    {
        self.address
    }

    /// The domain separation tag that binds this mailbox's domain and
    /// address.
    pub fn domain_hash(&self) -> (tag: H256)
        ensures
            tag@ == self@.domain_hash(),
    {
        domain_hash(&self.address, self.domain.id())
    }

    /// Number of messages dispatched from this mailbox.
    pub fn count(&self) -> (count: ChainResult<u32>)
        ensures
            count == self@.count(),
            self@.valid(),
    {
        proof {
            use_type_invariant(self);
        }
        if !self.reachable {
            return Err(ChainCommunicationError::Unreachable);
        }
        Ok(self.dispatched.len() as u32)
    }

    /// Identifier of the message with the given nonce; `None`, not an
    /// error, where no such message has been dispatched yet.
    pub fn id_by_nonce(&self, nonce: usize) -> (id: ChainResult<Option<H256>>)
        ensures
            hash_lookup_view(id) == self@.id_by_nonce(nonce as int),
            self@.valid(),
    {
        proof {
            use_type_invariant(self);
        }
        if !self.reachable {
            return Err(ChainCommunicationError::Unreachable);
        }
        if nonce < self.dispatched.len() {
            Ok(Some(self.dispatched[nonce].id))
        } else {
            Ok(None)
        }
    }

    /// Encoding of the dispatched message with the given identifier;
    /// `None`, not an error, where no such message has been dispatched yet.
    pub fn raw_message_by_id(&self, id: H256) -> (raw: ChainResult<Option<RawHyperlaneMessage>>)
        ensures
            raw_lookup_view(raw) == self@.raw_message_by_id(id@),
            self@.valid(),
    {
        proof {
            use_type_invariant(self);
            self@.ids().index_of_first_ensures(id@);
        }
        if !self.reachable {
            return Err(ChainCommunicationError::Unreachable);
        }
        let mut i: usize = 0;
        while i < self.dispatched.len()
            invariant
                self.reachable,
                self@.valid(),
                i <= self.dispatched@.len(),
                self@.ids().len() == self.dispatched@.len(),
                forall|j: int| 0 <= j < i ==> self@.ids()[j] != id@,
                forall|j: int|
                    0 <= j < self.dispatched@.len() ==> (#[trigger] self.dispatched@[j]).id@
                        == self@.ids()[j],
            decreases self.dispatched@.len() - i,
        {
            if self.dispatched[i].id.equals(&id) {
                let raw = self.dispatched[i].message.to_vec();
                proof {
                    let ids = self@.ids();
                    ids.index_of_first_ensures(id@);
                    assert(ids[i as int] == id@);
                }
                return Ok(Some(raw));
            }
            i += 1;
        }
        Ok(None)
    }

    /// The latest checkpoint, or the one `lag` commitments before it. The
    /// call fails where nothing was dispatched yet or the lag reaches back
    /// past the first message: no empty checkpoint is made up.
    pub fn latest_checkpoint(&self, maybe_lag: Option<u64>) -> (checkpoint: ChainResult<Checkpoint>)
        ensures
            checkpoint_view(checkpoint) == self@.latest_checkpoint(maybe_lag),
            self@.valid(),
    {
        proof {
            use_type_invariant(self);
        }
        if !self.reachable {
            return Err(ChainCommunicationError::Unreachable);
        }
        let len = self.dispatched.len();
        let lag: u64 = match maybe_lag {
            Some(lag) => lag,
            None => 0,
        };
        if lag >= len as u64 {
            return Err(ChainCommunicationError::NoCheckpoint);
        }
        let index: usize = len - 1 - (lag as usize);
        Ok(
            Checkpoint {
                mailbox_address: self.address,
                mailbox_domain: self.domain.id(),
                root: self.dispatched[index].root,
                index: index as u32,
                signature: None,
            },
        )
    }

    /// Address of the security module in force where a message names none.
    /// It is read from the mailbox at every call.
    pub fn default_ism(&self) -> (ism: ChainResult<H256>)
        ensures
            hash_view(ism) == self@.default_ism(),
    {
        if !self.reachable {
            return Err(ChainCommunicationError::Unreachable);
        }
        Ok(self.default_ism)
    }

    /// Whether the message with this identifier has been delivered here.
    pub fn delivered(&self, id: H256) -> (delivered: ChainResult<bool>)
        ensures
            delivered == self@.delivered(id@),
    {
        if !self.reachable {
            return Err(ChainCommunicationError::Unreachable);
        }
        Ok(contains_hash(&self.delivered, &id))
    }

    /// The exact payload that `process` submits for this message and
    /// metadata. Nothing is asked of the chain and nothing can fail.
    pub fn process_calldata(&self, message: &HyperlaneMessage, metadata: &[u8]) -> (payload: Vec<u8>)
        ensures
            payload@ == calldata(message@, metadata@),
    {
        let mut payload: Vec<u8> = Vec::new();
        append_u64_be(&mut payload, metadata.len() as u64);
        append_bytes(&mut payload, metadata);
        let raw = message.to_vec();
        append_bytes(&mut payload, raw.as_slice());
        payload
    }

    /// Why the delivery of the message with identifier `id` would be
    /// refused, if it would.
    fn refusal(&self, id: &H256, metadata: &[u8], tx_gas_limit: Option<u64>) -> (refusal: Option<
        ChainCommunicationError,
    >)
        ensures
            refusal == self@.refusal(id@, metadata@, tx_gas_limit),
    {
        if !self.reachable {
            return Some(ChainCommunicationError::Unreachable);
        }
        if contains_hash(&self.delivered, id) {
            return Some(ChainCommunicationError::AlreadyDelivered);
        }
        let accepted = match &self.required_metadata {
            Some(required) => bytes_equal(metadata, required.as_slice()),
            None => true,
        };
        if !accepted {
            return Some(ChainCommunicationError::MetadataRejected);
        }
        match tx_gas_limit {
            Some(limit) => {
                if limit < self.delivery_gas {
                    return Some(ChainCommunicationError::InsufficientGas);
                }
            },
            None => {},
        }
        None
    }

    /// A dry run of the delivery of the message with identifier `id`: what
    /// it would cost, or why it would be refused. The mailbox is left as
    /// it was.
    pub fn estimate_delivery(&self, id: H256, metadata: &[u8]) -> (estimate: ChainResult<TxCostEstimate>)
        ensures
            estimate == self@.estimate(id@, metadata@),
    {
        match self.refusal(&id, metadata, None) {
            Some(error) => Err(error),
            None => {
                let gas: u128 = self.delivery_gas as u128;
                let price: u128 = self.gas_price as u128;
                assert(gas * price <= 0xffff_ffff_ffff_ffff * 0xffff_ffff_ffff_ffff) by (nonlinear_arith)
                    requires
                        0 <= gas <= 0xffff_ffff_ffff_ffff,
                        0 <= price <= 0xffff_ffff_ffff_ffff,
                ;
                Ok(
                    TxCostEstimate {
                        gas_limit: self.delivery_gas,
                        gas_price: self.gas_price,
                        fee: gas * price,
                    },
                )
            },
        }
    }

    /// Attempts the delivery of the message with identifier `id` by
    /// submitting `payload`. The payload goes on record whatever happens.
    /// The delivery is refused, and nothing else changes, where the backend
    /// is unreachable, the identifier was delivered before, the security
    /// module rejects the metadata, or the gas limit is too low. Otherwise
    /// the identifier counts as delivered from now on.
    pub fn submit_delivery(
        &mut self,
        id: H256,
        payload: Vec<u8>,
        metadata: &[u8],
        tx_gas_limit: Option<u64>,
    ) -> (outcome: ChainResult<TxOutcome>)
        ensures
            outcome == old(self)@.submit(id@, metadata@, tx_gas_limit),
            final(self)@ == old(self)@.after_submit(id@, payload@, metadata@, tx_gas_limit),
            final(self)@.valid(),
            outcome is Ok ==> final(self)@.delivered.contains(id@),
            final(self)@.submitted.last() == payload@,
    {
        proof {
            use_type_invariant(&*self);
        }
        let refusal = self.refusal(&id, metadata, tx_gas_limit);
        let transaction_id = self.submitted.len() as u64;
        let gas_used = self.delivery_gas;
        let gas_price = self.gas_price;
        let mut submitted: Vec<Vec<u8>> = Vec::new();
        std::mem::swap(&mut submitted, &mut self.submitted);
        submitted.push(payload);
        self.submitted = submitted;
        assert(payload_views(self.submitted@) =~= payload_views(old(self).submitted@).push(payload@));
        match refusal {
            Some(error) => Err(error),
            None => {
                let mut delivered: Vec<H256> = Vec::new();
                std::mem::swap(&mut delivered, &mut self.delivered);
                delivered.push(id);
                assert(hash_views(delivered@) =~= hash_views(old(self).delivered@).push(id@));
                self.delivered = delivered;
                assert(self@.delivered[old(self)@.delivered.len() as int] == id@);
                Ok(TxOutcome { transaction_id, executed: true, gas_used, gas_price })
            },
        }
    }

    /// A dry run of the delivery of `message`: what it would cost, or why
    /// it would be refused. Nothing is submitted and the mailbox is left as
    /// it was.
    pub fn process_estimate_costs(&self, message: &HyperlaneMessage, metadata: &[u8]) -> (estimate: ChainResult<
        TxCostEstimate,
    >)
        ensures
            estimate == self@.process_estimate_costs(message@, metadata@),
    {
        self.estimate_delivery(message.id(), metadata)
    }

    /// Attempts the delivery of `message`, once: the payload that
    /// `process_calldata` gives is submitted under the identifier of the
    /// message. The delivery is refused, and only the record of attempts
    /// grows, where the backend is unreachable, the message was delivered
    /// before, the security module rejects the metadata, or the gas limit
    /// is too low. Otherwise the message counts as delivered from now on.
    pub fn process(&mut self, message: &HyperlaneMessage, metadata: &[u8], tx_gas_limit: Option<u64>) -> (outcome:
        ChainResult<TxOutcome>)
        ensures
            outcome == old(self)@.process(message@, metadata@, tx_gas_limit),
            final(self)@ == old(self)@.after_process(message@, metadata@, tx_gas_limit),
            final(self)@.valid(),
            outcome is Ok ==> final(self)@.delivered.contains(message@.id()),
            final(self)@.submitted.last() == calldata(message@, metadata@),
    {
        let id = message.id();
        let payload = self.process_calldata(message, metadata);
        self.submit_delivery(id, payload, metadata, tx_gas_limit)
    }

    /// Records that the chain dispatched a message from `sender` to
    /// `recipient` on `destination` and committed `root` for it. The
    /// mailbox stamps the message with its version, the next nonce and its
    /// own domain, and returns it. `None`, and nothing changes, where the
    /// 32-bit count of messages is exhausted.
    pub fn dispatch(
        &mut self,
        sender: H256,
        destination: u32,
        recipient: H256,
        body: Vec<u8>,
        root: H256,
    ) -> (message: Option<HyperlaneMessage>)
        ensures
            final(self)@ == old(self)@.after_dispatch(sender@, destination, recipient@, body@, root@),
            final(self)@.valid(),
            message is Some <==> old(self)@.can_dispatch(),
            message matches Some(m) ==> m@ == old(self)@.next_message(
                sender@,
                destination,
                recipient@,
                body@,
            ),
    {
        proof {
            use_type_invariant(&*self);
        }
        let len = self.dispatched.len();
        if len >= u32::MAX as usize {
            return None;
        }
        let stored = HyperlaneMessage {
            version: MAILBOX_VERSION,
            nonce: len as u32,
            origin: self.domain.id(),
            sender,
            destination,
            recipient,
            body: copy_range(body.as_slice(), 0, body.len()),
        };
        assert(stored.body@ =~= body@);
        let id = stored.id();
        let mut dispatched: Vec<Dispatched> = Vec::new();
        std::mem::swap(&mut dispatched, &mut self.dispatched);
        dispatched.push(Dispatched { message: stored, id, root });
        assert(dispatch_views(dispatched@) =~= dispatch_views(old(self).dispatched@).push(
            DispatchView { message: stored@, root: root@ },
        ));
        self.dispatched = dispatched;
        Some(
            HyperlaneMessage {
                version: MAILBOX_VERSION,
                nonce: len as u32,
                origin: self.domain.id(),
                sender,
                destination,
                recipient,
                body,
            },
        )
    }

    /// Makes the backend reachable or unreachable from now on.
    pub fn set_reachable(&mut self, reachable: bool)
        ensures
            final(self)@ == (MailboxState { reachable, ..old(self)@ }),
            final(self)@.valid(),
    {
        proof {
            use_type_invariant(&*self);
        }
        self.reachable = reachable;
    }

    /// Puts another security module in force as the default.
    pub fn set_default_ism(&mut self, default_ism: H256)
        ensures
            final(self)@ == (MailboxState { default_ism: default_ism@, ..old(self)@ }),
            final(self)@.valid(),
    {
        proof {
            use_type_invariant(&*self);
        }
        self.default_ism = default_ism;
    }

    /// Tells the security module which metadata to insist on; with `None`
    /// it accepts any.
    pub fn set_required_metadata(&mut self, required: Option<Vec<u8>>)
        ensures
            final(self)@ == (MailboxState {
                required_metadata: match required {
                    Some(bytes) => Some(bytes@),
                    None => None,
                },
                ..old(self)@
            }),
            final(self)@.valid(),
    {
        proof {
            use_type_invariant(&*self);
        }
        self.required_metadata = required;
    }

    /// Sets the gas one delivery consumes and the price of one unit of gas.
    pub fn set_delivery_cost(&mut self, delivery_gas: u64, gas_price: u64)
        ensures
            final(self)@ == (MailboxState { delivery_gas, gas_price, ..old(self)@ }),
            final(self)@.valid(),
    {
        proof {
            use_type_invariant(&*self);
        }
        self.delivery_gas = delivery_gas;
        self.gas_price = gas_price;
    }

    /// Number of deliveries attempted so far, refused ones included.
    pub fn process_calls(&self) -> (calls: usize)
        ensures
            calls == self@.submitted.len(),
    {
        self.submitted.len()
    }

    /// Payload of the delivery attempt at `index`, counting from zero;
    /// `None` where fewer attempts were made.
    pub fn submitted_calldata(&self, index: usize) -> (payload: Option<Vec<u8>>)
        ensures
            payload is Some <==> index < self@.submitted.len(),
            payload matches Some(bytes) ==> bytes@ == self@.submitted[index as int],
    {
        if index < self.submitted.len() {
            let stored = &self.submitted[index];
            let copy = copy_range(stored.as_slice(), 0, stored.len());
            assert(copy@ =~= stored@);
            Some(copy)
        } else {
            None
        }
    }
}

} // verus!
