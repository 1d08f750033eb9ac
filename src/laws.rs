//! Properties of the workflow engine that relate several operations or
//! hold of every state, proved over the spec functions that the
//! operations' contracts are written in.

use vstd::prelude::*;
use crate::env::EnvModel;
use crate::escrow::{
    all_conditions_met, conditions_outcome, escrow_creation_error, escrow_is_active, refund_error,
    refund_state, release_error, release_state,
};
use crate::invoice::{
    approve_error, approve_state, execute_error, execute_state, expiration_error, expiration_state,
    invoice_created, invoice_creation_error, invoice_payment_token, invoices_consistent, is_open,
    mark_sent_error, mark_sent_state, reject_error, reject_state,
};
use crate::storage::allocate;
use crate::transaction::transaction_error;
use crate::types::{ContractError, EscrowStatus, InvoiceStatus, Party};
use crate::validation::amount_is_valid;

verus! {

/// The ids that `k` successive calls of an allocator return when its counter
/// starts at `count`: each call returns `allocate` of the counter and leaves
/// that id as the new counter.
pub open spec fn successive_ids(count: u64, k: nat) -> Seq<u64>
    decreases k,
{
    if k == 0 {
        Seq::empty()
    } else {
        seq![allocate(count)] + successive_ids(allocate(count), (k - 1) as nat)
    }
}

/// Successive calls of an allocator return ids that are never zero, each
/// greater than the counter it started from, and strictly increasing, so no
/// id is returned twice.
pub proof fn lemma_ids_strictly_increase(count: u64, k: nat)
    requires
        count + k <= u64::MAX,
    ensures
        successive_ids(count, k).len() == k,
        forall|i: int| 0 <= i < k ==> successive_ids(count, k)[i] == count + i + 1,
        forall|i: int| 0 <= i < k ==> #[trigger] successive_ids(count, k)[i] > count,
        forall|i: int, j: int|
            0 <= i < j < k ==> #[trigger] successive_ids(count, k)[i] < #[trigger] successive_ids(count, k)[j],
    decreases k,
{
    if k > 0 {
        lemma_ids_strictly_increase(allocate(count), (k - 1) as nat);
        let s = successive_ids(count, k);
        let rest = successive_ids(allocate(count), (k - 1) as nat);
        assert(s == seq![allocate(count)] + rest);
        assert forall|i: int| 0 <= i < k implies s[i] == count + i + 1 by {
            if i > 0 {
                assert(s[i] == rest[i - 1]);
            }
        }
    }
}

/// An escrow that has been released or refunded stays as it is: release,
/// refund and process all fail on it and leave the state unchanged, and its
/// conditions are no longer reported as met.
pub proof fn lemma_terminal_escrow(m: EnvModel, id: u64)
    requires
        m.escrows.contains_key(id),
        m.escrows[id].status == EscrowStatus::Released || m.escrows[id].status == EscrowStatus::Refunded,
    ensures
        release_error(m, id) is Some,
        refund_error(m, id) is Some,
        !m.reentrancy ==> release_error(m, id) == Some(ContractError::EscrowNotFound),
        !m.reentrancy ==> refund_error(m, id) == Some(ContractError::EscrowNotFound),
        release_state(m, id) == m,
        refund_state(m, id) == m,
        !escrow_is_active(m, id),
        conditions_outcome(m, id) == Ok::<bool, ContractError>(false),
{
}

/// Refund and release of an active escrow exclude each other by time: up to
/// its expiry a refund fails, after it a release fails; in no state do both
/// succeed.
pub proof fn lemma_refund_release_exclusive(m: EnvModel, id: u64)
    ensures
        escrow_is_active(m, id) && m.timestamp <= m.escrows[id].expires_at ==> refund_error(m, id) is Some
            && refund_state(m, id) == m,
        escrow_is_active(m, id) && m.timestamp > m.escrows[id].expires_at ==> release_error(m, id) is Some
            && release_state(m, id) == m,
        !(release_error(m, id) is None && refund_error(m, id) is None),
{
}

/// An active escrow with no conditions has them met at any time up to its
/// expiry.
pub proof fn lemma_vacuous_conditions(m: EnvModel, id: u64)
    requires
        escrow_is_active(m, id),
        m.escrows[id].conditions@.len() == 0,
        m.timestamp <= m.escrows[id].expires_at,
    ensures
        all_conditions_met(m.escrows[id].conditions@),
        conditions_outcome(m, id) == Ok::<bool, ContractError>(true),
{
}

/// Creating an invoice due in the future, marking it sent as its creator,
/// approving it as its client and executing it all succeed; the invoice
/// ends `Executed`, stamped with its approval time, and the payment token is
/// not empty.
pub proof fn lemma_invoice_approval_then_execution(
    m: EnvModel,
    creator: Party,
    client: Party,
    amount: i128,
    description: String,
    due_date: u64,
)
    requires
        !m.reentrancy,
        creator.is_well_formed_spec(),
        client.is_well_formed_spec(),
        amount_is_valid(amount),
        due_date > m.timestamp,
        m.authorizes(client),
        m.invoice_count < u64::MAX,
    ensures
        ({
            let id = allocate(m.invoice_count);
            let m1 = invoice_created(m, creator, client, amount, description, due_date);
            let m2 = mark_sent_state(m1, id, creator);
            let m3 = approve_state(m2, id, client);
            let m4 = execute_state(m3, id);
            &&& invoice_creation_error(m, creator, client, amount, due_date) is None
            &&& mark_sent_error(m1, id, creator) is None
            &&& approve_error(m2, id, client) is None
            &&& execute_error(m3, id) is None
            &&& m4.invoices[id].status == InvoiceStatus::Executed
            &&& m4.invoices[id].approved_at == Some(m.timestamp)
            &&& m4.invoices[id].amount == amount
        }),
        invoice_payment_token().len() > 0,
{
    reveal_strlit("invoice_payment_tx_hash");
}

/// Past its due date, an invoice that is approved or executed is marked
/// `Expired` and the call reports `InvoiceExpired`, also when it had been
/// approved before.
pub proof fn lemma_invoice_expiry_precedence(m: EnvModel, id: u64, client: Party)
    requires
        !m.reentrancy,
        m.invoices.contains_key(id),
        m.timestamp > m.invoices[id].due_date,
    ensures
        is_open(m.invoices[id].status) && m.authorizes(client) && m.invoices[id].client@ == client@ ==> {
            &&& approve_error(m, id, client) == Some(ContractError::InvoiceExpired)
            &&& approve_state(m, id, client).invoices[id].status == InvoiceStatus::Expired
        },
        m.invoices[id].status == InvoiceStatus::Approved ==> {
            &&& execute_error(m, id) == Some(ContractError::InvoiceExpired)
            &&& execute_state(m, id).invoices[id].status == InvoiceStatus::Expired
        },
{
}

/// While the reentrancy guard is held, every mutating operation fails with
/// `ReentrancyDetected` and leaves the state unchanged.
pub proof fn lemma_guard_held_rejects(
    m: EnvModel,
    id: u64,
    sender: Party,
    recipient: Party,
    amount: i128,
    deadline: u64,
)
    requires
        m.reentrancy,
    ensures
        transaction_error(m, sender, recipient, amount) == Some(ContractError::ReentrancyDetected),
        escrow_creation_error(m, sender, recipient, amount, deadline) == Some(ContractError::ReentrancyDetected),
        release_error(m, id) == Some(ContractError::ReentrancyDetected),
        refund_error(m, id) == Some(ContractError::ReentrancyDetected),
        invoice_creation_error(m, sender, recipient, amount, deadline) == Some(ContractError::ReentrancyDetected),
        mark_sent_error(m, id, sender) == Some(ContractError::ReentrancyDetected),
        approve_error(m, id, recipient) == Some(ContractError::ReentrancyDetected),
        execute_error(m, id) == Some(ContractError::ReentrancyDetected),
        reject_error(m, id, recipient) == Some(ContractError::ReentrancyDetected),
        expiration_error(m, id) == Some(ContractError::ReentrancyDetected),
        release_state(m, id) == m,
        refund_state(m, id) == m,
        mark_sent_state(m, id, sender) == m,
        approve_state(m, id, recipient) == m,
        execute_state(m, id) == m,
        reject_state(m, id, recipient) == m,
        expiration_state(m, id) == m,
{
}

/// Once an operation has run from a state with the guard free, the guard is
/// free again, whether the operation succeeded or failed.
pub proof fn lemma_guard_released(m: EnvModel, id: u64, sender: Party, recipient: Party)
    requires
        !m.reentrancy,
    ensures
        !release_state(m, id).reentrancy,
        !refund_state(m, id).reentrancy,
        !mark_sent_state(m, id, sender).reentrancy,
        !approve_state(m, id, recipient).reentrancy,
        !execute_state(m, id).reentrancy,
        !reject_state(m, id, recipient).reentrancy,
        !expiration_state(m, id).reentrancy,
{
}

/// A zero, negative or over-large amount is refused with `InvalidAmount` by
/// all four ways of creating an agreement: a basic or peer-to-peer
/// transaction, an escrow, and an invoice.
pub proof fn lemma_invalid_amount_rejected(
    m: EnvModel,
    sender: Party,
    recipient: Party,
    amount: i128,
    deadline: u64,
)
    requires
        !m.reentrancy,
        sender.is_well_formed_spec(),
        recipient.is_well_formed_spec(),
        !amount_is_valid(amount),
    ensures
        transaction_error(m, sender, recipient, amount) == Some(ContractError::InvalidAmount),
        escrow_creation_error(m, sender, recipient, amount, deadline) == Some(ContractError::InvalidAmount),
        invoice_creation_error(m, sender, recipient, amount, deadline) == Some(ContractError::InvalidAmount),
{
}

/// Every invoice operation keeps the approval stamps of all stored invoices
/// consistent with their statuses.
pub proof fn lemma_approval_stamps_stay_consistent(
    m: EnvModel,
    id: u64,
    creator: Party,
    client: Party,
    amount: i128,
    description: String,
    due_date: u64,
)
    requires
        invoices_consistent(m),
    ensures
        invoices_consistent(invoice_created(m, creator, client, amount, description, due_date)),
        invoices_consistent(mark_sent_state(m, id, creator)),
        invoices_consistent(approve_state(m, id, client)),
        invoices_consistent(execute_state(m, id)),
        invoices_consistent(reject_state(m, id, client)),
        invoices_consistent(expiration_state(m, id)),
{
}

} // verus!
