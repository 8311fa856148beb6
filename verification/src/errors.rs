use vstd::prelude::*;

verus! {

/// The error taxonomy of the engine.
///
/// Every per-transaction failure is local: the caller skips the offending
/// transaction and goes on. `StorageError` is the exception; it reports a
/// failure of the backing store (file or database) and is fatal to a run,
/// since later transactions could no longer trust the persisted state.
#[derive(Clone, Copy, Debug, PartialEq, Eq, Structural)]
pub enum KoalaError {
    /// Malformed input: an unrecognized transaction kind, or a deposit or
    /// withdrawal whose amount is missing or cannot be represented.
    InputError,
    /// A withdrawal asked for more than the available funds.
    BalanceError,
    /// A dispute, resolve or chargeback referenced a transaction identifier
    /// that no accepted deposit or withdrawal carries.
    PartnerError,
    /// The account is frozen after a completed chargeback; nothing may
    /// mutate it any more.
    AccountLockedError,
    /// The backing store failed to read or write account state.
    StorageError,
}

} // verus!
