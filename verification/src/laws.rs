//! What holds of every mailbox, whatever was dispatched to it and
//! delivered through it.

use vstd::prelude::*;
use crate::codec::{lemma_u64_be_round_trip, u64_be};
use crate::error::{ChainCommunicationError, FailureKind};
use crate::lifecycle::{spec_delivery_status, DeliveryStatus};
use crate::message::{lemma_content_addressed, MessageView};
use crate::state::{calldata, MailboxState};

verus! {

/// Absence is an answer, not a failure. A reachable mailbox answers a
/// lookup by an identifier that no dispatched message has, and a lookup by
/// a nonce at or past its count, with an empty result.
pub proof fn lemma_undispatched_lookups_are_empty(state: MailboxState, id: Seq<u8>, nonce: int)
    requires
        state.reachable,
    ensures
        !state.ids().contains(id) ==> state.raw_message_by_id(id) matches Ok(None),
        nonce >= state.dispatched.len() ==> state.id_by_nonce(nonce) matches Ok(None),
        state.raw_message_by_id(id) is Ok,
        state.id_by_nonce(nonce) is Ok,
{
    state.ids().index_of_first_ensures(id);
}

/// A lookup finds what was dispatched. A reachable, valid mailbox answers a
/// lookup by a nonce below its count with the identifier of the message
/// that carries this nonce, and a lookup by that identifier with the
/// encoding of a dispatched message that has it.
pub proof fn lemma_dispatched_lookups_are_found(state: MailboxState, nonce: int)
    requires
        state.valid(),
        state.reachable,
        0 <= nonce < state.dispatched.len(),
    ensures
        state.dispatched[nonce].message.nonce == nonce,
        state.id_by_nonce(nonce) matches Ok(Some(id)) && id == state.dispatched[nonce].message.id(),
        state.raw_message_by_id(state.dispatched[nonce].message.id()) matches Ok(Some(raw))
            && exists|i: int|
            0 <= i <= nonce && raw == state.dispatched[i].message.encoding()
                && state.dispatched[i].message.id() == state.dispatched[nonce].message.id(),
{
    let id = state.dispatched[nonce].message.id();
    let ids = state.ids();
    ids.index_of_first_ensures(id);
    assert(ids[nonce] == id);
    let first = ids.index_of_first(id).unwrap();
    assert(0 <= first <= nonce && ids[first] == id);
}

/// At most once. Where a delivery succeeds, the message counts as
/// delivered afterwards, and the next delivery of a message with the same
/// identifier is refused as already delivered, a failure of validation,
/// whatever metadata and gas limit come with it.
pub proof fn lemma_delivery_is_at_most_once(
    state: MailboxState,
    message: MessageView,
    metadata: Seq<u8>,
    tx_gas_limit: Option<u64>,
    again: MessageView,
    other_metadata: Seq<u8>,
    other_gas_limit: Option<u64>,
)
    requires
        state.process(message, metadata, tx_gas_limit) is Ok,
        again.id() == message.id(),
    ensures
        state.after_process(message, metadata, tx_gas_limit).delivered(message.id()) matches Ok(
            true,
        ),
        state.after_process(message, metadata, tx_gas_limit).process(
            again,
            other_metadata,
            other_gas_limit,
        ) matches Err(ChainCommunicationError::AlreadyDelivered),
        ChainCommunicationError::AlreadyDelivered.spec_kind() == FailureKind::Validation,
{
    let after = state.after_process(message, metadata, tx_gas_limit);
    assert(after.delivered =~= state.delivered.push(message.id()));
    assert(after.delivered[state.delivered.len() as int] == message.id());
}

/// What counts as delivered is not delivered again. A reachable mailbox
/// that holds an identifier as delivered says so when asked, and refuses
/// every delivery of a message with that identifier as already delivered, a
/// failure of validation, whatever metadata and gas limit come with it.
pub proof fn lemma_delivered_is_refused(
    state: MailboxState,
    message: MessageView,
    metadata: Seq<u8>,
    tx_gas_limit: Option<u64>,
)
    requires
        state.reachable,
        state.delivered.contains(message.id()),
    ensures
        state.delivered(message.id()) matches Ok(true),
        state.process(message, metadata, tx_gas_limit) matches Err(
            ChainCommunicationError::AlreadyDelivered,
        ),
        ChainCommunicationError::AlreadyDelivered.spec_kind() == FailureKind::Validation,
        state.after_process(message, metadata, tx_gas_limit).delivered == state.delivered,
{
}

/// A refused delivery leaves the chain as it was: only the record of
/// attempts grows. A message that was not delivered before is still
/// pending, and one that was delivered stays delivered.
pub proof fn lemma_refused_delivery_changes_nothing(
    state: MailboxState,
    message: MessageView,
    metadata: Seq<u8>,
    tx_gas_limit: Option<u64>,
)
    requires
        state.process(message, metadata, tx_gas_limit) is Err,
    ensures
        state.after_process(message, metadata, tx_gas_limit) == (MailboxState {
            submitted: state.submitted.push(calldata(message, metadata)),
            ..state
        }),
        forall|id: Seq<u8>|
            state.after_process(message, metadata, tx_gas_limit).delivered(id) == state.delivered(
                id,
            ),
{
}

/// Delivered is final. Whatever is attempted next, an identifier that
/// counts as delivered keeps counting as delivered.
pub proof fn lemma_delivered_stays_delivered(
    state: MailboxState,
    id: Seq<u8>,
    message: MessageView,
    metadata: Seq<u8>,
    tx_gas_limit: Option<u64>,
)
    requires
        state.delivered.contains(id),
    ensures
        state.after_process(message, metadata, tx_gas_limit).delivered.contains(id),
{
    let i = choose|i: int| 0 <= i < state.delivered.len() && state.delivered[i] == id;
    let after = state.after_process(message, metadata, tx_gas_limit);
    assert(after.delivered[i] == id);
}

/// Every attempt keeps a mailbox valid: no identifier is ever on the list
/// of deliveries twice.
pub proof fn lemma_process_keeps_valid(
    state: MailboxState,
    message: MessageView,
    metadata: Seq<u8>,
    tx_gas_limit: Option<u64>,
)
    requires
        state.valid(),
    ensures
        state.after_process(message, metadata, tx_gas_limit).valid(),
{
}

/// The payload on record is the payload announced. Each attempt adds
/// exactly one payload to the record, and it is, byte for byte, what
/// `calldata` gives for the same message and metadata; the gas limit and
/// the outcome of the attempt have no part in it.
pub proof fn lemma_process_submits_calldata(
    state: MailboxState,
    message: MessageView,
    metadata: Seq<u8>,
    tx_gas_limit: Option<u64>,
)
    ensures
        state.after_process(message, metadata, tx_gas_limit).submitted.len() == state.submitted.len()
            + 1,
        state.after_process(message, metadata, tx_gas_limit).submitted.last() == calldata(
            message,
            metadata,
        ),
        state.after_process(message, metadata, tx_gas_limit).submitted.drop_last()
            == state.submitted,
{
    let after = state.after_process(message, metadata, tx_gas_limit);
    assert(after.submitted.drop_last() =~= state.submitted);
}

/// Lag steps back. A checkpoint asked for with a lag lies exactly that
/// many commitments before the latest one, so its index is never above the
/// latest index minus the lag. Where nothing was dispatched there is no
/// checkpoint, with or without a lag, and a lag that reaches back past the
/// first message finds none either.
pub proof fn lemma_lag_steps_back(state: MailboxState, lag: u64)
    requires
        state.valid(),
    ensures
        state.latest_checkpoint(Some(lag)) matches Ok(lagged) ==> state.latest_checkpoint(None)
            matches Ok(latest) && lagged.index + lag == latest.index && lagged.index
            <= latest.index - lag && lagged.root == state.dispatched[lagged.index as int].root,
        state.dispatched.len() == 0 ==> state.latest_checkpoint(Some(lag)) is Err
            && state.latest_checkpoint(None) is Err,
        state.reachable && lag >= state.dispatched.len() ==> state.latest_checkpoint(Some(lag))
            matches Err(ChainCommunicationError::NoCheckpoint),
        state.reachable && lag < state.dispatched.len() ==> state.latest_checkpoint(Some(lag))
            is Ok,
{
}

/// Checkpoints advance with the history. A dispatch that finds room adds
/// one to the count, gives the new message the old count as its nonce, and
/// makes the root committed with it the latest checkpoint, one index above
/// the one before.
pub proof fn lemma_dispatch_advances(
    state: MailboxState,
    sender: Seq<u8>,
    destination: u32,
    recipient: Seq<u8>,
    body: Seq<u8>,
    root: Seq<u8>,
)
    requires
        state.valid(),
        state.reachable,
        state.can_dispatch(),
        sender.len() == 32,
        recipient.len() == 32,
        root.len() == 32,
    ensures
        state.after_dispatch(sender, destination, recipient, body, root).valid(),
        state.count() matches Ok(before) && state.after_dispatch(
            sender,
            destination,
            recipient,
            body,
            root,
        ).count() matches Ok(after) && after == before + 1,
        state.after_dispatch(sender, destination, recipient, body, root).id_by_nonce(
            state.dispatched.len() as int,
        ) matches Ok(Some(id)) && id == state.next_message(sender, destination, recipient, body).id(),
        state.after_dispatch(sender, destination, recipient, body, root).latest_checkpoint(None)
            matches Ok(latest) && latest.root == root && latest.index == state.dispatched.len(),
        state.latest_checkpoint(None) matches Ok(earlier) ==> state.after_dispatch(
            sender,
            destination,
            recipient,
            body,
            root,
        ).latest_checkpoint(None) matches Ok(latest) && latest.index == earlier.index + 1,
        state.after_dispatch(sender, destination, recipient, body, root).delivered
            == state.delivered,
{
}

/// A dry run tells the truth. An estimate comes back exactly where a
/// delivery without a gas limit would succeed, the refusal is the same
/// where it would not, the estimated gas is what the delivery then uses,
/// a delivery limited to the estimated gas succeeds too, and the fee is
/// gas times price.
pub proof fn lemma_estimate_agrees_with_process(state: MailboxState, message: MessageView, metadata: Seq<u8>)
    ensures
        state.process_estimate_costs(message, metadata) is Ok <==> state.process(
            message,
            metadata,
            None,
        ) is Ok,
        state.process_estimate_costs(message, metadata) matches Err(refusal) ==> state.process(
            message,
            metadata,
            None,
        ) matches Err(same) && same == refusal,
        state.process_estimate_costs(message, metadata) matches Ok(estimate) ==> {
            &&& estimate.fee == estimate.gas_limit * estimate.gas_price
            &&& state.process(message, metadata, None) matches Ok(outcome) && outcome.gas_used
                == estimate.gas_limit
            &&& state.process(message, metadata, Some(estimate.gas_limit)) is Ok
        },
{
    let gas = state.delivery_gas;
    let price = state.gas_price;
    assert(0 <= gas * price <= 0xffff_ffff_ffff_ffff * 0xffff_ffff_ffff_ffff) by (nonlinear_arith)
        requires
            0 <= gas <= 0xffff_ffff_ffff_ffff,
            0 <= price <= 0xffff_ffff_ffff_ffff,
    ;
}

/// A payload stands for one delivery only. Two payloads are the same,
/// byte for byte, exactly where the messages and the metadata are.
pub proof fn lemma_calldata_tells_deliveries_apart(
    message: MessageView,
    metadata: Seq<u8>,
    other: MessageView,
    other_metadata: Seq<u8>,
)
    requires
        message.well_formed(),
        other.well_formed(),
        metadata.len() <= u64::MAX,
        other_metadata.len() <= u64::MAX,
    ensures
        calldata(message, metadata) == calldata(other, other_metadata) <==> message == other
            && metadata == other_metadata,
{
    let a = calldata(message, metadata);
    let b = calldata(other, other_metadata);
    if a == b {
        let n = metadata.len() as u64;
        let m = other_metadata.len() as u64;
        lemma_u64_be_round_trip(n);
        lemma_u64_be_round_trip(m);
        assert(a.subrange(0, 8) =~= u64_be(n));
        assert(b.subrange(0, 8) =~= u64_be(m));
        assert(n == m);
        assert(a.subrange(8, 8 + n) =~= metadata);
        assert(b.subrange(8, 8 + m) =~= other_metadata);
        assert(a.subrange(8 + n, a.len() as int) =~= message.encoding());
        assert(b.subrange(8 + m, b.len() as int) =~= other.encoding());
        lemma_content_addressed(message, other);
    }
}

/// A message only moves forward. An attempted delivery at the destination
/// never takes a message back a stage: a refused attempt leaves every
/// message where it was, and a successful one moves the message it
/// delivered to the last stage.
pub proof fn lemma_status_moves_forward_on_process(
    origin: MailboxState,
    destination: MailboxState,
    id: Seq<u8>,
    message: MessageView,
    metadata: Seq<u8>,
    tx_gas_limit: Option<u64>,
)
    requires
        spec_delivery_status(origin, destination, id) is Ok,
    ensures
        spec_delivery_status(origin, destination, id) matches Ok(before) && spec_delivery_status(
            origin,
            destination.after_process(message, metadata, tx_gas_limit),
            id,
        ) matches Ok(after) && {
            &&& before.rank() <= after.rank()
            &&& destination.process(message, metadata, tx_gas_limit) is Err ==> after == before
            &&& destination.process(message, metadata, tx_gas_limit) is Ok && message.id() == id
                ==> after == DeliveryStatus::Delivered
        },
{
    let later = destination.after_process(message, metadata, tx_gas_limit);
    if destination.delivered.contains(id) {
        lemma_delivered_stays_delivered(destination, id, message, metadata, tx_gas_limit);
    }
    if destination.process(message, metadata, tx_gas_limit) is Ok {
        assert(later.delivered =~= destination.delivered.push(message.id()));
        assert(later.delivered[destination.delivered.len() as int] == message.id());
    }
}

/// A message only moves forward. A dispatch at the origin never takes a
/// message back a stage, and moves the message it stamped out of the first
/// stage.
pub proof fn lemma_status_moves_forward_on_dispatch(
    origin: MailboxState,
    destination: MailboxState,
    id: Seq<u8>,
    sender: Seq<u8>,
    recipient_domain: u32,
    recipient: Seq<u8>,
    body: Seq<u8>,
    root: Seq<u8>,
)
    requires
        spec_delivery_status(origin, destination, id) is Ok,
    ensures
        spec_delivery_status(origin, destination, id) matches Ok(before) && spec_delivery_status(
            origin.after_dispatch(sender, recipient_domain, recipient, body, root),
            destination,
            id,
        ) matches Ok(after) && {
            &&& before.rank() <= after.rank()
            &&& origin.can_dispatch() && origin.next_message(
                sender,
                recipient_domain,
                recipient,
                body,
            ).id() == id ==> after != DeliveryStatus::NotDispatched
        },
{
    let later = origin.after_dispatch(sender, recipient_domain, recipient, body, root);
    origin.ids().index_of_first_ensures(id);
    later.ids().index_of_first_ensures(id);
    if origin.can_dispatch() {
        let stamped = origin.next_message(sender, recipient_domain, recipient, body);
        assert(later.ids() =~= origin.ids().push(stamped.id()));
        if origin.ids().contains(id) {
            let i = choose|i: int| 0 <= i < origin.ids().len() && origin.ids()[i] == id;
            assert(later.ids()[i] == id);
        }
        if stamped.id() == id {
            assert(later.ids()[origin.ids().len() as int] == id);
        }
    }
}

} // verus!
