//! The upstream data the pipeline reads: a receipt with its execution
//! outcome, and the context of the transaction it belongs to.

use vstd::prelude::*;

use crate::events::CryptoHash;

verus! {

/// Whether a receipt's own execution completed successfully. The check is
/// local to this receipt: failures of receipts it spawned do not count.
#[derive(Clone, Copy, PartialEq, Eq, Structural, Debug)]
pub enum ExecutionStatus {
    Success,
    Failure,
}

/// One receipt of a block, with the fields the pipeline reads.
pub struct TransactionReceipt {
    pub block_height: u64,
    pub block_timestamp_nanosec: u128,
    pub receipt_id: CryptoHash,
    pub receiver_id: String,
    pub predecessor_id: String,
    pub logs: Vec<String>,
    pub status: ExecutionStatus,
}

/// The immutable context of the transaction a receipt belongs to: the hash
/// of its root transaction.
pub struct IncompleteTransaction {
    pub transaction_hash: CryptoHash,
}

impl TransactionReceipt {
    /// Whether the receipt is eligible: its own execution succeeded.
    pub open spec fn is_successful_spec(&self) -> bool {
        self.status is Success
    }

    /// The receipt filter: eligible exactly when execution succeeded.
    pub fn is_successful(&self) -> (r: bool)
        ensures
            r == self.is_successful_spec(),
    {
        match self.status {
            ExecutionStatus::Success => true,
            ExecutionStatus::Failure => false,
        }
    }
}

} // verus!
