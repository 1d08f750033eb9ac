//! A verified model of a ledger-side workflow engine for three kinds of
//! financial agreement: direct transactions, conditional escrows and
//! invoices.
//!
//! Each agreement is a state machine persisted in a host store (`Env`).
//! Every mutating operation holds a single reentrancy guard for its whole
//! run and releases it on every exit path. The contracts of the operations
//! are stated over `EnvModel`, the mathematical view of the host state.

pub mod env;
pub mod escrow;
pub mod invoice;
pub mod laws;
pub mod storage;
pub mod transaction;
pub mod types;
pub mod validation;

pub use env::{Env, EnvModel};
pub use types::{
    Condition, ConditionType, ContractError, EscrowContract, EscrowResult, EscrowStatus, Invoice,
    InvoiceResult, InvoiceStatus, Party, Transaction, TransactionResult, TransactionStatus,
    TransactionType,
};

use vstd::prelude::*;

verus! {

/// The workflow engine. It holds no state of its own: every operation reads
/// and writes the host state `Env` handed to it.
pub struct StellarDAppContract;

impl StellarDAppContract {
    /// Record the administrator.
    pub fn initialize(env: &mut Env, admin: Party) -> (r: Result<(), ContractError>)
        ensures
            old(env)@.reentrancy ==> r == Err::<(), ContractError>(ContractError::ReentrancyDetected)
                && final(env)@ == old(env)@,
            !old(env)@.reentrancy ==> r is Ok && final(env)@ == (EnvModel { admin: Some(admin), ..old(env)@ }),
    {
        if let Err(e) = validation::check_reentrancy(env) {
            return Err(e);
        }
        storage::set_admin(env, &admin);
        validation::clear_reentrancy(env);
        Ok(())
    }

    /// Get contract version
    pub fn version() -> (v: u32)
        ensures
            v == 1,
    {
        1
    }
}

} // verus!
