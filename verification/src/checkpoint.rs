//! Checkpoints over the outbound history of a mailbox.

use vstd::prelude::*;
use crate::primitives::H256;

verus! {

/// A checkpoint as mathematical values.
pub struct CheckpointView {
    pub mailbox_address: Seq<u8>,
    pub mailbox_domain: u32,
    pub root: Seq<u8>,
    pub index: u32,
    pub signature: Option<Seq<u8>>,
}

/// A commitment to the outbound history of a mailbox up to one message.
#[derive(Clone, Debug, PartialEq, Eq)]
pub struct Checkpoint {
    /// Address of the mailbox that committed the root.
    pub mailbox_address: H256,
    /// Domain of that mailbox.
    pub mailbox_domain: u32,
    /// Root of the outbound tree once the message at `index` was in it.
    pub root: H256,
    /// Position of the last message the root covers.
    pub index: u32,
    /// Attestation over the checkpoint, where one has been attached.
    pub signature: Option<Vec<u8>>,
}

impl View for Checkpoint {
    type V = CheckpointView;

    open spec fn view(&self) -> CheckpointView {
        CheckpointView {
            mailbox_address: self.mailbox_address@,
            mailbox_domain: self.mailbox_domain,
            root: self.root@,
            index: self.index,
            signature: match self.signature {
                Some(bytes) => Some(bytes@),
                None => None,
            },
        }
    }
}

} // verus!
