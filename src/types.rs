//! Records, statuses and errors of the workflow engine.

use vstd::prelude::*;

verus! {

/// The errors an operation can report.
#[derive(Clone, Copy, Debug, PartialEq, Eq, PartialOrd, Ord, Structural)]
pub enum ContractError {
    /// Insufficient balance for the operation
    InsufficientBalance,
    /// Invalid address provided
    InvalidAddress,
    /// Unauthorized access attempt
    Unauthorized,
    /// Invalid amount (must be positive)
    InvalidAmount,
    /// Transaction not found
    TransactionNotFound,
    /// Escrow not found
    EscrowNotFound,
    /// Escrow conditions not met
    ConditionsNotMet,
    /// Escrow has expired
    EscrowExpired,
    /// Invoice not found
    InvoiceNotFound,
    /// Invoice already approved
    InvoiceAlreadyApproved,
    /// Invoice has expired
    InvoiceExpired,
    /// Invalid signature
    InvalidSignature,
    /// Reentrancy detected
    ReentrancyDetected,
}


/// Transaction status enumeration
#[derive(Clone, Copy, Debug, PartialEq, Eq, Structural)]
pub enum TransactionStatus {
    Pending,
    Confirmed,
    Failed,
    Cancelled,
}

/// Transaction type enumeration
#[derive(Clone, Copy, Debug, PartialEq, Eq, Structural)]
pub enum TransactionType {
    Basic,
    Escrow,
    P2P,
    Invoice,
}

/// Escrow status enumeration
#[derive(Clone, Copy, Debug, PartialEq, Eq, Structural)]
pub enum EscrowStatus {
    Active,
    ConditionsMet,
    Released,
    Refunded,
    Expired,
}

/// Invoice status enumeration
#[derive(Clone, Copy, Debug, PartialEq, Eq, Structural)]
pub enum InvoiceStatus {
    Draft,
    Sent,
    Approved,
    Executed,
    Rejected,
    Expired,
}

/// Condition type for escrow
#[derive(Clone, Copy, Debug, PartialEq, Eq, Structural)]
pub enum ConditionType {
    TimeBased,
    OracleBased,
    ManualApproval,
}

/// A principal: an opaque reference to an account or a contract, held as
/// its textual key. Two parties are the same when their keys are equal.
#[derive(Debug)]
pub struct Party {
    pub key: String,
}

impl View for Party {
    type V = Seq<char>;

    open spec fn view(&self) -> Seq<char> {
        self.key@
    }
}

impl Party {
    pub fn new(key: String) -> (p: Party)
        ensures
            p@ == key@,
    {
        Party { key }
    }

    /// A reference names a principal only when its key is not empty.
    pub open spec fn is_well_formed_spec(&self) -> bool {
        self@.len() > 0
    }

    pub fn is_well_formed(&self) -> (r: bool)
        ensures
            r == self.is_well_formed_spec(),
    {
        !self.key.as_str().is_empty()
    }
}

impl Clone for Party {
    fn clone(&self) -> (r: Party)
        ensures
            r == *self,
    {
        Party { key: self.key.clone() }
    }
}

impl PartialEq for Party {
    fn eq(&self, other: &Party) -> (r: bool)
        ensures
            r == (self@ == other@),
    {
        self.key == other.key
    }
}

impl vstd::std_specs::cmp::PartialEqSpecImpl for Party {
    open spec fn obeys_eq_spec() -> bool {
        true
    }

    open spec fn eq_spec(&self, other: &Party) -> bool {
        self@ == other@
    }
}

impl Eq for Party {
}

/// Basic transaction data
#[derive(Debug)]
pub struct Transaction {
    pub id: u64,
    pub transaction_type: TransactionType,
    pub sender: Party,
    pub recipient: Party,
    pub amount: i128,
    pub status: TransactionStatus,
    pub timestamp: u64,
    pub metadata: String,
}

impl Clone for Transaction {
    fn clone(&self) -> (r: Transaction)
        ensures
            r == *self,
    {
        Transaction {
            id: self.id,
            transaction_type: self.transaction_type,
            sender: self.sender.clone(),
            recipient: self.recipient.clone(),
            amount: self.amount,
            status: self.status,
            timestamp: self.timestamp,
            metadata: self.metadata.clone(),
        }
    }
}

/// Escrow condition definition: its kind, an opaque parameter blob and the
/// party that adjudicates it.
#[derive(Debug)]
pub struct Condition {
    pub condition_type: ConditionType,
    pub parameters: String,
    pub validator: Party,
}

impl Clone for Condition {
    fn clone(&self) -> (r: Condition)
        ensures
            r == *self,
    {
        Condition {
            condition_type: self.condition_type,
            parameters: self.parameters.clone(),
            validator: self.validator.clone(),
        }
    }
}

/// Escrow contract data
#[derive(Debug)]
pub struct EscrowContract {
    pub id: u64,
    pub sender: Party,
    pub recipient: Party,
    pub amount: i128,
    pub conditions: Vec<Condition>,
    pub status: EscrowStatus,
    pub created_at: u64,
    pub expires_at: u64,
}

impl EscrowContract {
    /// Two escrow records hold the same data: the same fields and the same
    /// sequence of conditions.
    pub open spec fn same_as(&self, other: &EscrowContract) -> bool {
        &&& self.id == other.id
        &&& self.sender == other.sender
        &&& self.recipient == other.recipient
        &&& self.amount == other.amount
        &&& self.conditions@ == other.conditions@
        &&& self.status == other.status
        &&& self.created_at == other.created_at
        &&& self.expires_at == other.expires_at
    }
}

impl Clone for EscrowContract {
    fn clone(&self) -> (r: EscrowContract)
        ensures
            r.same_as(self),
    {
        let conditions = self.conditions.clone();
        assert(conditions@ =~= self.conditions@);
        EscrowContract {
            id: self.id,
            sender: self.sender.clone(),
            recipient: self.recipient.clone(),
            amount: self.amount,
            conditions,
            status: self.status,
            created_at: self.created_at,
            expires_at: self.expires_at,
        }
    }
}

/// Invoice data
#[derive(Debug)]
pub struct Invoice {
    pub id: u64,
    pub creator: Party,
    pub client: Party,
    pub amount: i128,
    pub description: String,
    pub status: InvoiceStatus,
    pub created_at: u64,
    pub due_date: u64,
    pub approved_at: Option<u64>,
}

impl Clone for Invoice {
    fn clone(&self) -> (r: Invoice)
        ensures
            r == *self,
    {
        Invoice {
            id: self.id,
            creator: self.creator.clone(),
            client: self.client.clone(),
            amount: self.amount,
            description: self.description.clone(),
            status: self.status,
            created_at: self.created_at,
            due_date: self.due_date,
            approved_at: self.approved_at,
        }
    }
}

/// Transaction result
#[derive(Debug)]
pub struct TransactionResult {
    pub transaction_id: u64,
    pub status: TransactionStatus,
    pub tx_hash: String,
}

/// Escrow result
#[derive(Debug)]
pub struct EscrowResult {
    pub escrow_id: u64,
    pub status: EscrowStatus,
    pub tx_hash: Option<String>,
}

/// Invoice result
#[derive(Debug)]
pub struct InvoiceResult {
    pub invoice_id: u64,
    pub status: InvoiceStatus,
    pub tx_hash: Option<String>,
}

} // verus!
