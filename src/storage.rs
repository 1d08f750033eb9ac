//! The record store and the identifier allocator.
//!
//! Records of each kind are kept under their numeric id. Each kind has a
//! counter; the allocator returns the counter plus one and stores it, so
//! the ids of a kind are handed out in strictly increasing order, starting
//! at one, and never twice.

use vstd::prelude::*;
use crate::env::{Env, EnvModel};
use crate::types::{EscrowContract, Invoice, Party, Transaction};

verus! {

broadcast use vstd::std_specs::hash::group_hash_axioms;

/// Whether `account` is the sender or the recipient of `t`.
pub open spec fn involves(t: Transaction, account: Party) -> bool {
    t.sender@ == account@ || t.recipient@ == account@
}

/// The transactions with ids `1..=n` that involve `account`, in id order.
pub open spec fn history_upto(txs: Map<u64, Transaction>, account: Party, n: nat) -> Seq<Transaction>
    decreases n,
{
    if n == 0 {
        Seq::empty()
    } else {
        let prev = history_upto(txs, account, (n - 1) as nat);
        let id = n as u64;
        if txs.contains_key(id) && involves(txs[id], account) {
            prev.push(txs[id])
        } else {
            prev
        }
    }
}

/// The transaction history of `account`: every allocated transaction id
/// whose record involves it, in id order.
pub open spec fn transaction_history(m: EnvModel, account: Party) -> Seq<Transaction> {
    history_upto(m.transactions, account, m.transaction_count as nat)
}

/// The id the allocator hands out when the counter of its kind stands at
/// `count`; it also becomes the new value of the counter.
pub open spec fn allocate(count: u64) -> u64 {
    (count + 1) as u64
}

/// Set contract administrator
pub fn set_admin(env: &mut Env, admin: &Party)
    ensures
        final(env)@ == (EnvModel { admin: Some(*admin), ..old(env)@ }),
{
    env.admin = Some(admin.clone());
}

/// Get contract administrator
pub fn get_admin(env: &Env) -> (r: Option<Party>)
    ensures
        r == env@.admin,
{
    match &env.admin {
        Some(a) => Some(a.clone()),
        None => None,
    }
}

/// Get next transaction ID
pub fn get_next_transaction_id(env: &mut Env) -> (id: u64)
    requires
        old(env)@.transaction_count < u64::MAX,
    ensures
        id == allocate(old(env)@.transaction_count),
        final(env)@ == (EnvModel { transaction_count: id, ..old(env)@ }),
{
    let next = env.transaction_count + 1;
    env.transaction_count = next;
    next
}

/// Store transaction
pub fn set_transaction(env: &mut Env, id: u64, transaction: &Transaction)
    ensures
        final(env)@ == (EnvModel {
            transactions: old(env)@.transactions.insert(id, *transaction),
            ..old(env)@
        }),
{
    env.transactions.insert(id, transaction.clone());
}

/// Get transaction
pub fn get_transaction(env: &Env, id: u64) -> (r: Option<Transaction>)
    ensures
        r == (if env@.transactions.contains_key(id) {
            Some(env@.transactions[id])
        } else {
            None
        }),
{
    match env.transactions.get(&id) {
        Some(t) => Some(t.clone()),
        None => None,
    }
}

/// Get the transactions that involve an account, in id order.
pub fn get_transactions_by_account(env: &Env, account: &Party) -> (r: Vec<Transaction>)
    ensures
        r@ == transaction_history(env@, *account),
{
    let count = env.transaction_count;
    let mut r: Vec<Transaction> = Vec::new();
    let mut i: u64 = 0;
    while i < count
        invariant
            count == env@.transaction_count,
            i <= count,
            r@ == history_upto(env@.transactions, *account, i as nat),
        decreases count - i,
    {
        i = i + 1;
        match env.transactions.get(&i) {
            Some(t) => {
                if t.sender == *account || t.recipient == *account {
                    r.push(t.clone());
                }
            },
            None => {},
        }
    }
    r
}

/// Get next escrow ID
pub fn get_next_escrow_id(env: &mut Env) -> (id: u64)
    requires
        old(env)@.escrow_count < u64::MAX,
    ensures
        id == allocate(old(env)@.escrow_count),
        final(env)@ == (EnvModel { escrow_count: id, ..old(env)@ }),
{
    let next = env.escrow_count + 1;
    env.escrow_count = next;
    next
}

/// Store escrow: afterwards the record under `id` holds the same data as
/// `escrow`, and every other record is as it was.
pub fn set_escrow(env: &mut Env, id: u64, escrow: &EscrowContract)
    ensures
        final(env)@.escrows.contains_key(id),
        final(env)@.escrows[id].same_as(escrow),
        final(env)@.escrows.remove(id) == old(env)@.escrows.remove(id),
        final(env)@ == (EnvModel { escrows: final(env)@.escrows, ..old(env)@ }),
{
    env.escrows.insert(id, escrow.clone());
}

/// Get escrow
pub fn get_escrow(env: &Env, id: u64) -> (r: Option<EscrowContract>)
    ensures
        r is Some <==> env@.escrows.contains_key(id),
        r matches Some(e) ==> e.same_as(&env@.escrows[id]),
{
    match env.escrows.get(&id) {
        Some(e) => Some(e.clone()),
        None => None,
    }
}

/// Get next invoice ID
pub fn get_next_invoice_id(env: &mut Env) -> (id: u64)
    requires
        old(env)@.invoice_count < u64::MAX,
    ensures
        id == allocate(old(env)@.invoice_count),
        final(env)@ == (EnvModel { invoice_count: id, ..old(env)@ }),
{
    let next = env.invoice_count + 1;
    env.invoice_count = next;
    next
}

/// Store invoice
pub fn set_invoice(env: &mut Env, id: u64, invoice: &Invoice)
    ensures
        final(env)@ == old(env)@.with_invoice(id, *invoice),
{
    env.invoices.insert(id, invoice.clone());
}

/// Get invoice
pub fn get_invoice(env: &Env, id: u64) -> (r: Option<Invoice>)
    ensures
        r == (if env@.invoices.contains_key(id) {
            Some(env@.invoices[id])
        } else {
            None
        }),
{
    match env.invoices.get(&id) {
        Some(inv) => Some(inv.clone()),
        None => None,
    }
}

} // verus!
