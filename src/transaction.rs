//! Transaction workflow: a transaction is stored `Pending` and moved to
//! `Confirmed` within the same operation, so callers only ever see it
//! confirmed.

use vstd::prelude::*;
use crate::StellarDAppContract;
use crate::env::{Env, EnvModel};
use crate::storage::{self, allocate, transaction_history};
use crate::types::{ContractError, Party, Transaction, TransactionResult, TransactionStatus, TransactionType};
use crate::validation::{self, amount_is_valid};

verus! {

/// The token that a basic transaction hands back.
pub open spec fn basic_token() -> Seq<char> {
    "mock_tx_hash"@
}

/// The token that a peer-to-peer transaction hands back.
pub open spec fn p2p_token() -> Seq<char> {
    "p2p_tx_hash"@
}

/// Why a transaction is refused, checked in this order; `None` when it is
/// recorded.
pub open spec fn transaction_error(m: EnvModel, sender: Party, recipient: Party, amount: i128) -> Option<ContractError> {
    if m.reentrancy {
        Some(ContractError::ReentrancyDetected)
    } else if !sender.is_well_formed_spec() || !recipient.is_well_formed_spec() {
        Some(ContractError::InvalidAddress)
    } else if !amount_is_valid(amount) {
        Some(ContractError::InvalidAmount)
    } else if !m.authorizes(sender) {
        Some(ContractError::Unauthorized)
    } else {
        None
    }
}

/// The state after a recorded transaction: the next transaction id is
/// allocated and a `Confirmed` record is stored under it.
pub open spec fn transaction_recorded(
    m: EnvModel,
    kind: TransactionType,
    sender: Party,
    recipient: Party,
    amount: i128,
    metadata: String,
) -> EnvModel {
    let id = allocate(m.transaction_count);
    EnvModel {
        transaction_count: id,
        transactions: m.transactions.insert(
            id,
            Transaction {
                id,
                transaction_type: kind,
                sender,
                recipient,
                amount,
                status: TransactionStatus::Confirmed,
                timestamp: m.timestamp,
                metadata,
            },
        ),
        ..m
    }
}

/// `r` is an error exactly when `error` names one, and that error; on
/// success it reports the confirmed transaction `id` and the token `token`.
pub open spec fn transaction_result_is(
    r: Result<TransactionResult, ContractError>,
    error: Option<ContractError>,
    id: u64,
    token: Seq<char>,
) -> bool {
    match r {
        Ok(res) => {
            &&& error is None
            &&& res.transaction_id == id
            &&& res.status == TransactionStatus::Confirmed
            &&& res.tx_hash@ == token
        },
        Err(e) => error == Some(e),
    }
}

impl StellarDAppContract {
    /// Validate, allocate an id, store the record `Pending`, then store it
    /// `Confirmed`. Runs under the reentrancy guard.
    fn record_transaction(
        env: &mut Env,
        kind: TransactionType,
        sender: Party,
        recipient: Party,
        amount: i128,
        metadata: String,
    ) -> (r: Result<u64, ContractError>)
        requires
            old(env)@.transaction_count < u64::MAX,
            old(env)@.reentrancy,
        ensures
            ({
                let m = EnvModel { reentrancy: false, ..old(env)@ };
                let error = transaction_error(m, sender, recipient, amount);
                &&& r is Ok <==> error is None
                &&& r matches Err(e) ==> error == Some(e)
                &&& r matches Ok(id) ==> id == allocate(old(env)@.transaction_count)
                &&& error is Some ==> final(env)@ == old(env)@
                &&& error is None ==> final(env)@ == (EnvModel {
                    reentrancy: true,
                    ..transaction_recorded(m, kind, sender, recipient, amount, metadata)
                })
            }),
    {
        if let Err(e) = validation::validate_address(env, &sender) {
            return Err(e);
        }
        if let Err(e) = validation::validate_address(env, &recipient) {
            return Err(e);
        }
        if let Err(e) = validation::validate_amount(amount) {
            return Err(e);
        }
        if let Err(e) = validation::validate_balance(env, &sender, amount) {
            return Err(e);
        }
        let tx_id = storage::get_next_transaction_id(env);
        let mut transaction = Transaction {
            id: tx_id,
            transaction_type: kind,
            sender,
            recipient,
            amount,
            status: TransactionStatus::Pending,
            timestamp: env.timestamp,
            metadata,
        };
        storage::set_transaction(env, tx_id, &transaction);
        transaction.status = TransactionStatus::Confirmed;
        storage::set_transaction(env, tx_id, &transaction);
        assert(env@.transactions =~= old(env)@.transactions.insert(tx_id, transaction));
        Ok(tx_id)
    }

    /// Execute a basic transaction
    pub fn execute_transaction(
        env: &mut Env,
        sender: Party,
        recipient: Party,
        amount: i128,
        metadata: String,
    ) -> (r: Result<TransactionResult, ContractError>)
        requires
            old(env)@.transaction_count < u64::MAX,
        ensures
            ({
                let error = transaction_error(old(env)@, sender, recipient, amount);
                &&& transaction_result_is(r, error, allocate(old(env)@.transaction_count), basic_token())
                &&& error is Some ==> final(env)@ == old(env)@
                &&& error is None ==> final(env)@ == transaction_recorded(
                    old(env)@,
                    TransactionType::Basic,
                    sender,
                    recipient,
                    amount,
                    metadata,
                )
            }),
    {
        if let Err(e) = validation::check_reentrancy(env) {
            return Err(e);
        }
        let r = Self::record_transaction(env, TransactionType::Basic, sender, recipient, amount, metadata);
        validation::clear_reentrancy(env);
        match r {
            Ok(tx_id) => Ok(TransactionResult {
                transaction_id: tx_id,
                status: TransactionStatus::Confirmed,
                tx_hash: String::from_str("mock_tx_hash"),
            }),
            Err(e) => Err(e),
        }
    }

    /// Get transaction details
    pub fn get_transaction(env: &Env, transaction_id: u64) -> (r: Result<Transaction, ContractError>)
        ensures
            r == (if env@.transactions.contains_key(transaction_id) {
                Ok(env@.transactions[transaction_id])
            } else {
                Err(ContractError::TransactionNotFound)
            }),
    {
        match storage::get_transaction(env, transaction_id) {
            Some(t) => Ok(t),
            None => Err(ContractError::TransactionNotFound),
        }
    }

    /// Get transaction history for an account: the transactions it sent or
    /// received, in id order.
    pub fn get_transaction_history(env: &Env, account: Party) -> (r: Result<Vec<Transaction>, ContractError>)
        ensures
            !account.is_well_formed_spec() ==> r == Err::<Vec<Transaction>, ContractError>(ContractError::InvalidAddress),
            account.is_well_formed_spec() ==> (r matches Ok(h) && h@ == transaction_history(env@, account)),
    {
        if let Err(e) = validation::validate_address(env, &account) {
            return Err(e);
        }
        Ok(storage::get_transactions_by_account(env, &account))
    }

    /// Execute a P2P (peer-to-peer) transaction
    pub fn execute_p2p_transaction(
        env: &mut Env,
        sender: Party,
        recipient: Party,
        amount: i128,
        memo: String,
    ) -> (r: Result<TransactionResult, ContractError>)
        requires
            old(env)@.transaction_count < u64::MAX,
        ensures
            ({
                let error = transaction_error(old(env)@, sender, recipient, amount);
                &&& transaction_result_is(r, error, allocate(old(env)@.transaction_count), p2p_token())
                &&& error is Some ==> final(env)@ == old(env)@
                &&& error is None ==> final(env)@ == transaction_recorded(
                    old(env)@,
                    TransactionType::P2P,
                    sender,
                    recipient,
                    amount,
                    memo,
                )
            }),
    {
        if let Err(e) = validation::check_reentrancy(env) {
            return Err(e);
        }
        let r = Self::record_transaction(env, TransactionType::P2P, sender, recipient, amount, memo);
        validation::clear_reentrancy(env);
        match r {
            Ok(tx_id) => Ok(TransactionResult {
                transaction_id: tx_id,
                status: TransactionStatus::Confirmed,
                tx_hash: String::from_str("p2p_tx_hash"),
            }),
            Err(e) => Err(e),
        }
    }
}

} // verus!
