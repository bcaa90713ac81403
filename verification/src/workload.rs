//! The sources of work that a workload runner draws from. The runner asks a
//! source for its next transaction or batch each time it submits one.

use vstd::prelude::*;

verus! {

/// A source of transactions.
pub trait TransactionWorkload: Send {
    /// A transaction together with its decoded header.
    type TransactionPair;

    /// Why no transaction could be made.
    type WorkloadError;

    /// The next transaction to submit.
    fn next_transaction(&mut self) -> Result<Self::TransactionPair, Self::WorkloadError>;
}

/// A source of batches.
pub trait BatchWorkload: Send {
    /// A batch together with its decoded header.
    type BatchPair;

    /// Why no batch could be made.
    type WorkloadError;

    /// The next batch to submit.
    fn next_batch(&mut self) -> Result<Self::BatchPair, Self::WorkloadError>;
}

} // verus!
