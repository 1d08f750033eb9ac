//! Invoice workflow: `Draft -> Sent -> Approved -> Executed`, with
//! `Rejected` reachable from `Draft` and `Sent`, and `Expired` from `Sent`
//! and `Approved` once the due date has passed. `Executed`, `Rejected` and
//! `Expired` are terminal.

use vstd::prelude::*;
use crate::StellarDAppContract;
use crate::env::{Env, EnvModel};
use crate::storage::{self, allocate};
use crate::types::{ContractError, Invoice, InvoiceResult, InvoiceStatus, Party};
use crate::validation::{self, amount_is_valid, balance_check};

verus! {

/// The token that a paid invoice hands back.
pub open spec fn invoice_payment_token() -> Seq<char> {
    "invoice_payment_tx_hash"@
}

/// `r` is an error exactly when `error` names one, and that error; on
/// success it reports `id`, `status` and the token `token`.
pub open spec fn invoice_result_is(
    r: Result<InvoiceResult, ContractError>,
    error: Option<ContractError>,
    id: u64,
    status: InvoiceStatus,
    token: Option<Seq<char>>,
) -> bool {
    match r {
        Ok(res) => {
            &&& error is None
            &&& res.invoice_id == id
            &&& res.status == status
            &&& match (res.tx_hash, token) {
                (Some(h), Some(t)) => h@ == t,
                (None, None) => true,
                _ => false,
            }
        },
        Err(e) => error == Some(e),
    }
}

/// The status is one from which an invoice can still be approved or rejected.
pub open spec fn is_open(s: InvoiceStatus) -> bool {
    s == InvoiceStatus::Draft || s == InvoiceStatus::Sent
}

/// The state with the status of invoice `id` replaced.
pub open spec fn with_invoice_status(m: EnvModel, id: u64, status: InvoiceStatus) -> EnvModel {
    m.with_invoice(id, Invoice { status, ..m.invoices[id] })
}

/// Why `create_invoice` fails, checked in this order; `None` when it succeeds.
pub open spec fn invoice_creation_error(
    m: EnvModel,
    creator: Party,
    client: Party,
    amount: i128,
    due_date: u64,
) -> Option<ContractError> {
    if m.reentrancy {
        Some(ContractError::ReentrancyDetected)
    } else if !creator.is_well_formed_spec() || !client.is_well_formed_spec() {
        Some(ContractError::InvalidAddress)
    } else if !amount_is_valid(amount) {
        Some(ContractError::InvalidAmount)
    } else if due_date <= m.timestamp {
        Some(ContractError::InvalidAmount)
    } else {
        None
    }
}

/// The state after a successful `create_invoice`: the next invoice id is
/// allocated and a `Draft` record is stored under it.
pub open spec fn invoice_created(
    m: EnvModel,
    creator: Party,
    client: Party,
    amount: i128,
    description: String,
    due_date: u64,
) -> EnvModel {
    let id = allocate(m.invoice_count);
    EnvModel {
        invoice_count: id,
        invoices: m.invoices.insert(
            id,
            Invoice {
                id,
                creator,
                client,
                amount,
                description,
                status: InvoiceStatus::Draft,
                created_at: m.timestamp,
                due_date,
                approved_at: None,
            },
        ),
        ..m
    }
}

/// Why `mark_invoice_sent` fails, checked in this order; `None` when it
/// succeeds.
pub open spec fn mark_sent_error(m: EnvModel, id: u64, creator: Party) -> Option<ContractError> {
    if m.reentrancy {
        Some(ContractError::ReentrancyDetected)
    } else if !m.invoices.contains_key(id) {
        Some(ContractError::InvoiceNotFound)
    } else if m.invoices[id].creator@ != creator@ {
        Some(ContractError::Unauthorized)
    } else if m.invoices[id].status != InvoiceStatus::Draft {
        Some(ContractError::Unauthorized)
    } else {
        None
    }
}

/// The state after `mark_invoice_sent`.
pub open spec fn mark_sent_state(m: EnvModel, id: u64, creator: Party) -> EnvModel {
    if mark_sent_error(m, id, creator) is Some {
        m
    } else {
        with_invoice_status(m, id, InvoiceStatus::Sent)
    }
}

/// Why `approve_invoice` fails, checked in this order; `None` when it
/// succeeds.
pub open spec fn approve_error(m: EnvModel, id: u64, client: Party) -> Option<ContractError> {
    if m.reentrancy {
        Some(ContractError::ReentrancyDetected)
    } else if !m.invoices.contains_key(id) {
        Some(ContractError::InvoiceNotFound)
    } else if !m.authorizes(client) {
        Some(ContractError::Unauthorized)
    } else if m.invoices[id].client@ != client@ {
        Some(ContractError::Unauthorized)
    } else if !is_open(m.invoices[id].status) {
        Some(ContractError::InvoiceAlreadyApproved)
    } else if m.timestamp > m.invoices[id].due_date {
        Some(ContractError::InvoiceExpired)
    } else {
        None
    }
}

/// The state after `approve_invoice`: approved and stamped on success,
/// marked `Expired` when the due date has passed, unchanged otherwise.
pub open spec fn approve_state(m: EnvModel, id: u64, client: Party) -> EnvModel {
    match approve_error(m, id, client) {
        None => m.with_invoice(
            id,
            Invoice {
                status: InvoiceStatus::Approved,
                approved_at: Some(m.timestamp),
                ..m.invoices[id]
            },
        ),
        Some(ContractError::InvoiceExpired) => with_invoice_status(m, id, InvoiceStatus::Expired),
        Some(_) => m,
    }
}

/// Why `execute_invoice` fails, checked in this order; `None` when it
/// succeeds.
pub open spec fn execute_error(m: EnvModel, id: u64) -> Option<ContractError> {
    if m.reentrancy {
        Some(ContractError::ReentrancyDetected)
    } else if !m.invoices.contains_key(id) {
        Some(ContractError::InvoiceNotFound)
    } else if m.invoices[id].status != InvoiceStatus::Approved {
        Some(ContractError::Unauthorized)
    } else if m.timestamp > m.invoices[id].due_date {
        Some(ContractError::InvoiceExpired)
    } else if balance_check(m, m.invoices[id].client, m.invoices[id].amount) is Err {
        Some(balance_check(m, m.invoices[id].client, m.invoices[id].amount)->Err_0)
    } else {
        None
    }
}

/// The state after `execute_invoice`: paid on success, marked `Expired`
/// when the due date has passed, unchanged otherwise.
pub open spec fn execute_state(m: EnvModel, id: u64) -> EnvModel {
    match execute_error(m, id) {
        None => with_invoice_status(m, id, InvoiceStatus::Executed),
        Some(ContractError::InvoiceExpired) => with_invoice_status(m, id, InvoiceStatus::Expired),
        Some(_) => m,
    }
}

/// Why `reject_invoice` fails, checked in this order; `None` when it
/// succeeds.
pub open spec fn reject_error(m: EnvModel, id: u64, client: Party) -> Option<ContractError> {
    if m.reentrancy {
        Some(ContractError::ReentrancyDetected)
    } else if !m.invoices.contains_key(id) {
        Some(ContractError::InvoiceNotFound)
    } else if !m.authorizes(client) {
        Some(ContractError::Unauthorized)
    } else if m.invoices[id].client@ != client@ {
        Some(ContractError::Unauthorized)
    } else if !is_open(m.invoices[id].status) {
        Some(ContractError::Unauthorized)
    } else {
        None
    }
}

/// The state after `reject_invoice`.
pub open spec fn reject_state(m: EnvModel, id: u64, client: Party) -> EnvModel {
    if reject_error(m, id, client) is Some {
        m
    } else {
        with_invoice_status(m, id, InvoiceStatus::Rejected)
    }
}

/// Whether `check_invoice_expiration` moves invoice `id` to `Expired`: it is
/// `Sent` or `Approved` and its due date has passed.
pub open spec fn expires_now(m: EnvModel, id: u64) -> bool {
    &&& m.invoices.contains_key(id)
    &&& (m.invoices[id].status == InvoiceStatus::Sent || m.invoices[id].status == InvoiceStatus::Approved)
    &&& m.timestamp > m.invoices[id].due_date
}

/// Why `check_invoice_expiration` fails; `None` when it succeeds.
pub open spec fn expiration_error(m: EnvModel, id: u64) -> Option<ContractError> {
    if m.reentrancy {
        Some(ContractError::ReentrancyDetected)
    } else if !m.invoices.contains_key(id) {
        Some(ContractError::InvoiceNotFound)
    } else {
        None
    }
}

/// The state after `check_invoice_expiration`.
pub open spec fn expiration_state(m: EnvModel, id: u64) -> EnvModel {
    if expiration_error(m, id) is None && expires_now(m, id) {
        with_invoice_status(m, id, InvoiceStatus::Expired)
    } else {
        m
    }
}

/// The approval stamp agrees with the status: absent before approval and on
/// rejection, present once approved or executed. An invoice that expired
/// keeps the stamp it had.
pub open spec fn approval_stamp_consistent(inv: Invoice) -> bool {
    match inv.status {
        InvoiceStatus::Draft | InvoiceStatus::Sent | InvoiceStatus::Rejected => inv.approved_at is None,
        InvoiceStatus::Approved | InvoiceStatus::Executed => inv.approved_at is Some,
        InvoiceStatus::Expired => true,
    }
}

/// Every stored invoice has a consistent approval stamp.
pub open spec fn invoices_consistent(m: EnvModel) -> bool {
    forall|id: u64| #[trigger] m.invoices.contains_key(id) ==> approval_stamp_consistent(m.invoices[id])
}

impl StellarDAppContract {
    /// Create a new invoice
    pub fn create_invoice(
        env: &mut Env,
        creator: Party,
        client: Party,
        amount: i128,
        description: String,
        due_date: u64,
    ) -> (r: Result<InvoiceResult, ContractError>)
        requires
            old(env)@.invoice_count < u64::MAX,
        ensures
            ({
                let error = invoice_creation_error(old(env)@, creator, client, amount, due_date);
                &&& invoice_result_is(r, error, allocate(old(env)@.invoice_count), InvoiceStatus::Draft, None)
                &&& error is Some ==> final(env)@ == old(env)@
                &&& error is None ==> final(env)@ == invoice_created(old(env)@, creator, client, amount, description, due_date)
            }),
    {
        if let Err(e) = validation::check_reentrancy(env) {
            return Err(e);
        }
        let r = Self::open_invoice(env, creator, client, amount, description, due_date);
        validation::clear_reentrancy(env);
        r
    }

    fn open_invoice(
        env: &mut Env,
        creator: Party,
        client: Party,
        amount: i128,
        description: String,
        due_date: u64,
    ) -> (r: Result<InvoiceResult, ContractError>)
        requires
            old(env)@.invoice_count < u64::MAX,
            old(env)@.reentrancy,
        ensures
            ({
                let m = EnvModel { reentrancy: false, ..old(env)@ };
                let error = invoice_creation_error(m, creator, client, amount, due_date);
                &&& invoice_result_is(r, error, allocate(old(env)@.invoice_count), InvoiceStatus::Draft, None)
                &&& error is Some ==> final(env)@ == old(env)@
                &&& error is None ==> final(env)@ == (EnvModel {
                    reentrancy: true,
                    ..invoice_created(m, creator, client, amount, description, due_date)
                })
            }),
    {
        if let Err(e) = validation::validate_address(env, &creator) {
            return Err(e);
        }
        if let Err(e) = validation::validate_address(env, &client) {
            return Err(e);
        }
        if let Err(e) = validation::validate_amount(amount) {
            return Err(e);
        }
        if due_date <= env.timestamp {
            return Err(ContractError::InvalidAmount);
        }
        let invoice_id = storage::get_next_invoice_id(env);
        let invoice = Invoice {
            id: invoice_id,
            creator,
            client,
            amount,
            description,
            status: InvoiceStatus::Draft,
            created_at: env.timestamp,
            due_date,
            approved_at: None,
        };
        env.invoices.insert(invoice_id, invoice);
        Ok(InvoiceResult { invoice_id, status: InvoiceStatus::Draft, tx_hash: None })
    }

    /// Approve an invoice (called by client)
    pub fn approve_invoice(env: &mut Env, invoice_id: u64, client: Party) -> (r: Result<InvoiceResult, ContractError>)
        ensures
            final(env)@ == approve_state(old(env)@, invoice_id, client),
            invoice_result_is(r, approve_error(old(env)@, invoice_id, client), invoice_id, InvoiceStatus::Approved, None),
    {
        if let Err(e) = validation::check_reentrancy(env) {
            return Err(e);
        }
        let r = Self::approve_guarded(env, invoice_id, client);
        validation::clear_reentrancy(env);
        r
    }

    fn approve_guarded(env: &mut Env, invoice_id: u64, client: Party) -> (r: Result<InvoiceResult, ContractError>)
        requires
            old(env)@.reentrancy,
        ensures
            ({
                let m = EnvModel { reentrancy: false, ..old(env)@ };
                &&& final(env)@ == EnvModel { reentrancy: true, ..approve_state(m, invoice_id, client) }
                &&& invoice_result_is(r, approve_error(m, invoice_id, client), invoice_id, InvoiceStatus::Approved, None)
            }),
    {
        let mut invoice = match storage::get_invoice(env, invoice_id) {
            Some(inv) => inv,
            None => return Err(ContractError::InvoiceNotFound),
        };
        let no_bytes: [u8; 0] = [];
        if let Err(e) = validation::validate_signature(env, &client, &no_bytes, &no_bytes) {
            return Err(e);
        }
        if !(invoice.client == client) {
            return Err(ContractError::Unauthorized);
        }
        if invoice.status != InvoiceStatus::Sent && invoice.status != InvoiceStatus::Draft {
            return Err(ContractError::InvoiceAlreadyApproved);
        }
        if env.timestamp > invoice.due_date {
            invoice.status = InvoiceStatus::Expired;
            storage::set_invoice(env, invoice_id, &invoice);
            return Err(ContractError::InvoiceExpired);
        }
        invoice.status = InvoiceStatus::Approved;
        invoice.approved_at = Some(env.timestamp);
        storage::set_invoice(env, invoice_id, &invoice);
        Ok(InvoiceResult { invoice_id, status: InvoiceStatus::Approved, tx_hash: None })
    }

    /// Execute an approved invoice (process payment automatically)
    pub fn execute_invoice(env: &mut Env, invoice_id: u64) -> (r: Result<InvoiceResult, ContractError>)
        ensures
            final(env)@ == execute_state(old(env)@, invoice_id),
            invoice_result_is(r, execute_error(old(env)@, invoice_id), invoice_id, InvoiceStatus::Executed, Some(invoice_payment_token())),
    {
        if let Err(e) = validation::check_reentrancy(env) {
            return Err(e);
        }
        let r = Self::execute_guarded(env, invoice_id);
        validation::clear_reentrancy(env);
        r
    }

    fn execute_guarded(env: &mut Env, invoice_id: u64) -> (r: Result<InvoiceResult, ContractError>)
        requires
            old(env)@.reentrancy,
        ensures
            ({
                let m = EnvModel { reentrancy: false, ..old(env)@ };
                &&& final(env)@ == EnvModel { reentrancy: true, ..execute_state(m, invoice_id) }
                &&& invoice_result_is(r, execute_error(m, invoice_id), invoice_id, InvoiceStatus::Executed, Some(invoice_payment_token()))
            }),
    {
        let mut invoice = match storage::get_invoice(env, invoice_id) {
            Some(inv) => inv,
            None => return Err(ContractError::InvoiceNotFound),
        };
        if invoice.status != InvoiceStatus::Approved {
            return Err(ContractError::Unauthorized);
        }
        if env.timestamp > invoice.due_date {
            invoice.status = InvoiceStatus::Expired;
            storage::set_invoice(env, invoice_id, &invoice);
            return Err(ContractError::InvoiceExpired);
        }
        if let Err(e) = validation::validate_balance(env, &invoice.client, invoice.amount) {
            return Err(e);
        }
        invoice.status = InvoiceStatus::Executed;
        storage::set_invoice(env, invoice_id, &invoice);
        Ok(InvoiceResult {
            invoice_id,
            status: InvoiceStatus::Executed,
            tx_hash: Some(String::from_str("invoice_payment_tx_hash")),
        })
    }

    /// Reject an invoice (called by client). The reason is kept by the host
    /// with the invocation and is not interpreted here.
    pub fn reject_invoice(env: &mut Env, invoice_id: u64, client: Party, _reason: String) -> (r: Result<InvoiceResult, ContractError>)
        ensures
            final(env)@ == reject_state(old(env)@, invoice_id, client),
            invoice_result_is(r, reject_error(old(env)@, invoice_id, client), invoice_id, InvoiceStatus::Rejected, None),
    {
        if let Err(e) = validation::check_reentrancy(env) {
            return Err(e);
        }
        let r = Self::reject_guarded(env, invoice_id, client);
        validation::clear_reentrancy(env);
        r
    }

    fn reject_guarded(env: &mut Env, invoice_id: u64, client: Party) -> (r: Result<InvoiceResult, ContractError>)
        requires
            old(env)@.reentrancy,
        ensures
            ({
                let m = EnvModel { reentrancy: false, ..old(env)@ };
                &&& final(env)@ == EnvModel { reentrancy: true, ..reject_state(m, invoice_id, client) }
                &&& invoice_result_is(r, reject_error(m, invoice_id, client), invoice_id, InvoiceStatus::Rejected, None)
            }),
    {
        let mut invoice = match storage::get_invoice(env, invoice_id) {
            Some(inv) => inv,
            None => return Err(ContractError::InvoiceNotFound),
        };
        let no_bytes: [u8; 0] = [];
        if let Err(e) = validation::validate_signature(env, &client, &no_bytes, &no_bytes) {
            return Err(e);
        }
        if !(invoice.client == client) {
            return Err(ContractError::Unauthorized);
        }
        if invoice.status != InvoiceStatus::Sent && invoice.status != InvoiceStatus::Draft {
            return Err(ContractError::Unauthorized);
        }
        invoice.status = InvoiceStatus::Rejected;
        storage::set_invoice(env, invoice_id, &invoice);
        Ok(InvoiceResult { invoice_id, status: InvoiceStatus::Rejected, tx_hash: None })
    }

    /// Check and handle invoice expiration: a `Sent` or `Approved` invoice
    /// past its due date becomes `Expired`; otherwise nothing changes.
    pub fn check_invoice_expiration(env: &mut Env, invoice_id: u64) -> (r: Result<InvoiceResult, ContractError>)
        ensures
            final(env)@ == expiration_state(old(env)@, invoice_id),
            invoice_result_is(
                r,
                expiration_error(old(env)@, invoice_id),
                invoice_id,
                final(env)@.invoices[invoice_id].status,
                None,
            ),
    {
        if let Err(e) = validation::check_reentrancy(env) {
            return Err(e);
        }
        let r = Self::expire_guarded(env, invoice_id);
        validation::clear_reentrancy(env);
        r
    }

    fn expire_guarded(env: &mut Env, invoice_id: u64) -> (r: Result<InvoiceResult, ContractError>)
        requires
            old(env)@.reentrancy,
        ensures
            ({
                let m = EnvModel { reentrancy: false, ..old(env)@ };
                &&& final(env)@ == EnvModel { reentrancy: true, ..expiration_state(m, invoice_id) }
                &&& invoice_result_is(
                    r,
                    expiration_error(m, invoice_id),
                    invoice_id,
                    final(env)@.invoices[invoice_id].status,
                    None,
                )
            }),
    {
        let mut invoice = match storage::get_invoice(env, invoice_id) {
            Some(inv) => inv,
            None => return Err(ContractError::InvoiceNotFound),
        };
        if invoice.status != InvoiceStatus::Sent && invoice.status != InvoiceStatus::Approved {
            return Ok(InvoiceResult { invoice_id, status: invoice.status, tx_hash: None });
        }
        if env.timestamp > invoice.due_date {
            invoice.status = InvoiceStatus::Expired;
            storage::set_invoice(env, invoice_id, &invoice);
            return Ok(InvoiceResult { invoice_id, status: InvoiceStatus::Expired, tx_hash: None });
        }
        Ok(InvoiceResult { invoice_id, status: invoice.status, tx_hash: None })
    }

    /// Get invoice details
    pub fn get_invoice(env: &Env, invoice_id: u64) -> (r: Result<Invoice, ContractError>)
        ensures
            r == (if env@.invoices.contains_key(invoice_id) {
                Ok(env@.invoices[invoice_id])
            } else {
                Err(ContractError::InvoiceNotFound)
            }),
    {
        match storage::get_invoice(env, invoice_id) {
            Some(inv) => Ok(inv),
            None => Err(ContractError::InvoiceNotFound),
        }
    }

    /// Mark invoice as sent (called by its creator after sending it)
    pub fn mark_invoice_sent(env: &mut Env, invoice_id: u64, creator: Party) -> (r: Result<InvoiceResult, ContractError>)
        ensures
            final(env)@ == mark_sent_state(old(env)@, invoice_id, creator),
            invoice_result_is(r, mark_sent_error(old(env)@, invoice_id, creator), invoice_id, InvoiceStatus::Sent, None),
    {
        if let Err(e) = validation::check_reentrancy(env) {
            return Err(e);
        }
        let r = Self::mark_sent_guarded(env, invoice_id, creator);
        validation::clear_reentrancy(env);
        r
    }

    fn mark_sent_guarded(env: &mut Env, invoice_id: u64, creator: Party) -> (r: Result<InvoiceResult, ContractError>)
        requires
            old(env)@.reentrancy,
        ensures
            ({
                let m = EnvModel { reentrancy: false, ..old(env)@ };
                &&& final(env)@ == EnvModel { reentrancy: true, ..mark_sent_state(m, invoice_id, creator) }
                &&& invoice_result_is(r, mark_sent_error(m, invoice_id, creator), invoice_id, InvoiceStatus::Sent, None)
            }),
    {
        let mut invoice = match storage::get_invoice(env, invoice_id) {
            Some(inv) => inv,
            None => return Err(ContractError::InvoiceNotFound),
        };
        if !(invoice.creator == creator) {
            return Err(ContractError::Unauthorized);
        }
        if invoice.status != InvoiceStatus::Draft {
            return Err(ContractError::Unauthorized);
        }
        invoice.status = InvoiceStatus::Sent;
        storage::set_invoice(env, invoice_id, &invoice);
        Ok(InvoiceResult { invoice_id, status: InvoiceStatus::Sent, tx_hash: None })
    }
}

} // verus!
