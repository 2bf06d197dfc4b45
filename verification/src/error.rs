use vstd::prelude::*;

verus! {

/// The failure taxonomy of the wallet. Every failure is terminal at the point
/// it is raised: no operation retries internally, and no operation commits a
/// partial state change before failing.
#[derive(Clone, Copy, PartialEq, Eq, Structural, Debug)]
pub enum MultiSigError {
    /// An owner set is already installed; the wallet is initialized once.
    AlreadyInitialized,
    /// The proposed owner set or threshold is not acceptable: the set is
    /// empty, holds the null identity or a duplicate, or the threshold is
    /// zero or larger than the set.
    InvalidInput,
    /// The caller is not an installed owner.
    NotOwner,
    /// The transaction index addresses no record.
    TxDoesNotExist,
    /// The record is already marked executed.
    TxAlreadyExecuted,
    /// The caller has already confirmed this record.
    TxAlreadyConfirmed,
    /// Reserved for a confirmation-revoking operation; no current operation
    /// reports it.
    TxNotConfirmed,
    /// The record has fewer confirmations than the threshold.
    NotEnoughConfirmations,
    /// The outward effect was attempted and reported failure; the record
    /// stays marked executed.
    ExecuteFailed,
}

} // verus!
