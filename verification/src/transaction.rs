//! What a delivery costs and what became of it.

use vstd::prelude::*;

verus! {

/// What became of a delivery transaction.
#[derive(Clone, Copy, Debug, PartialEq, Eq, Structural)]
pub struct TxOutcome {
    /// Position of the transaction among all that were submitted.
    pub transaction_id: u64,
    /// Whether the chain carried the transaction out.
    pub executed: bool,
    /// Gas the transaction consumed.
    pub gas_used: u64,
    /// Price paid for one unit of gas, in the fee token.
    pub gas_price: u64,
}

/// What a delivery is expected to cost.
#[derive(Clone, Copy, Debug, PartialEq, Eq, Structural)]
pub struct TxCostEstimate {
    /// Gas the delivery needs.
    pub gas_limit: u64,
    /// Price of one unit of gas, in the fee token.
    pub gas_price: u64,
    /// Amount of the fee token the delivery costs: gas times price.
    pub fee: u128,
}

} // verus!
