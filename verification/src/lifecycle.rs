//! Where a message stands on its way from one mailbox to another, as far
//! as the two mailboxes show it. Nothing is stored: the answer is read off
//! the origin and the destination at every call.

use vstd::prelude::*;
use crate::error::ChainResult;
use crate::mailbox::MockMailboxContract;
use crate::primitives::H256;
use crate::state::MailboxState;

verus! {

/// The stages of a message. There is no stage for a failed delivery: a
/// message whose delivery was refused is still pending.
#[derive(Clone, Copy, Debug, PartialEq, Eq, Structural)]
pub enum DeliveryStatus {
    /// The origin knows no message with this identifier.
    NotDispatched,
    /// The origin dispatched the message; the destination has not
    /// delivered it.
    PendingDelivery,
    /// The destination delivered the message.
    Delivered,
}

impl DeliveryStatus {
    /// How far along the stage is: 0, 1 or 2.
    pub open spec fn rank(self) -> int {
        match self {
            DeliveryStatus::NotDispatched => 0,
            DeliveryStatus::PendingDelivery => 1,
            DeliveryStatus::Delivered => 2,
        }
    }
}

/// The stage of the message with the given identifier: delivered where the
/// destination says so, else pending where the origin has dispatched it,
/// else not dispatched. A mailbox that had to be asked and is unreachable
/// makes the answer a failure.
pub open spec fn spec_delivery_status(origin: MailboxState, destination: MailboxState, id: Seq<u8>) -> ChainResult<
    DeliveryStatus,
> {
    match destination.delivered(id) {
        Err(error) => Err(error),
        Ok(true) => Ok(DeliveryStatus::Delivered),
        Ok(false) => match origin.raw_message_by_id(id) {
            Err(error) => Err(error),
            Ok(Some(_)) => Ok(DeliveryStatus::PendingDelivery),
            Ok(None) => Ok(DeliveryStatus::NotDispatched),
        },
    }
}

/// The stage of the message with the given identifier between `origin` and
/// `destination`.
pub fn delivery_status(origin: &MockMailboxContract, destination: &MockMailboxContract, id: H256) -> (status:
    ChainResult<DeliveryStatus>)
    ensures
        status == spec_delivery_status(origin@, destination@, id@),
{
    match destination.delivered(id) {
        Err(error) => Err(error),
        Ok(true) => Ok(DeliveryStatus::Delivered),
        Ok(false) => match origin.raw_message_by_id(id) {
            Err(error) => Err(error),
            Ok(Some(_)) => Ok(DeliveryStatus::PendingDelivery),
            Ok(None) => Ok(DeliveryStatus::NotDispatched),
        },
    }
}

} // verus!
