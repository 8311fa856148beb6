pub mod cs;
pub mod db;
pub mod engine;
pub mod errors;

use vstd::prelude::*;

use crate::engine::{dispatch_post, tx_kind, Engine, Transaction, TxKind};
use crate::errors::KoalaError;

verus! {

/// One step of the outer dispatch loop: hands the transaction to the
/// engine operation its kind names. An unrecognized kind is an input
/// error and touches nothing; every other outcome is the called
/// operation's own.
pub fn dispatch_tx<E: Engine>(processor: &mut E, tx: Transaction) -> (r: Result<(), KoalaError>)
    ensures
        dispatch_post(*old(processor), *final(processor), tx, r),
{
    let kind = tx_kind(&tx.tx_type);
    match kind {
        TxKind::Deposit => processor.deposit_tx(tx),
        TxKind::Withdrawal => processor.withdrawal_tx(tx),
        TxKind::Dispute => processor.dispute_tx(&tx),
        TxKind::Resolve => processor.resolve_tx(&tx),
        TxKind::Chargeback => processor.chargeback_tx(&tx),
        TxKind::Unknown => Err(KoalaError::InputError),
    }
}

} // verus!
