//! The host environment as the workflow engine sees it: the durable record
//! store with its per-kind counters and the reentrancy flag, the ledger
//! clock, and the parties that authorized the current invocation.

use std::collections::HashMap;
use vstd::prelude::*;
use crate::types::{EscrowContract, Invoice, Party, Transaction};

verus! {

broadcast use vstd::std_specs::hash::group_hash_axioms;

/// The host state. Records are keyed by their numeric id, one map per kind;
/// each kind has its own id counter.
pub struct Env {
    pub admin: Option<Party>,
    pub transaction_count: u64,
    pub escrow_count: u64,
    pub invoice_count: u64,
    pub reentrancy: bool,
    pub transactions: HashMap<u64, Transaction>,
    pub escrows: HashMap<u64, EscrowContract>,
    pub invoices: HashMap<u64, Invoice>,
    pub timestamp: u64,
    pub all_authorized: bool,
    pub signers: Vec<Party>,
}

/// The mathematical view of `Env`.
pub struct EnvModel {
    pub admin: Option<Party>,
    pub transaction_count: u64,
    pub escrow_count: u64,
    pub invoice_count: u64,
    pub reentrancy: bool,
    pub transactions: Map<u64, Transaction>,
    pub escrows: Map<u64, EscrowContract>,
    pub invoices: Map<u64, Invoice>,
    pub timestamp: u64,
    pub all_authorized: bool,
    pub signers: Seq<Party>,
}

impl View for Env {
    type V = EnvModel;

    open spec fn view(&self) -> EnvModel {
        EnvModel {
            admin: self.admin,
            transaction_count: self.transaction_count,
            escrow_count: self.escrow_count,
            invoice_count: self.invoice_count,
            reentrancy: self.reentrancy,
            transactions: self.transactions@,
            escrows: self.escrows@,
            invoices: self.invoices@,
            timestamp: self.timestamp,
            all_authorized: self.all_authorized,
            signers: self.signers@,
        }
    }
}

impl EnvModel {
    /// The host vouches that `p` authorized the current invocation.
    pub open spec fn authorizes(self, p: Party) -> bool {
        self.all_authorized || exists|i: int| 0 <= i < self.signers.len() && (#[trigger] self.signers[i])@ == p@
    }

    pub open spec fn with_escrow(self, id: u64, e: EscrowContract) -> EnvModel {
        EnvModel { escrows: self.escrows.insert(id, e), ..self }
    }

    pub open spec fn with_invoice(self, id: u64, inv: Invoice) -> EnvModel {
        EnvModel { invoices: self.invoices.insert(id, inv), ..self }
    }

    pub open spec fn at_time(self, t: u64) -> EnvModel {
        EnvModel { timestamp: t, ..self }
    }
}

impl Default for Env {
    /// An empty store at time zero, with nobody authorized.
    fn default() -> (env: Env)
        ensures
            env@.admin is None,
            env@.transaction_count == 0,
            env@.escrow_count == 0,
            env@.invoice_count == 0,
            !env@.reentrancy,
            env@.transactions == Map::<u64, Transaction>::empty(),
            env@.escrows == Map::<u64, EscrowContract>::empty(),
            env@.invoices == Map::<u64, Invoice>::empty(),
            env@.timestamp == 0,
            !env@.all_authorized,
            env@.signers == Seq::<Party>::empty(),
    {
        Env {
            admin: None,
            transaction_count: 0,
            escrow_count: 0,
            invoice_count: 0,
            reentrancy: false,
            transactions: HashMap::new(),
            escrows: HashMap::new(),
            invoices: HashMap::new(),
            timestamp: 0,
            all_authorized: false,
            signers: Vec::new(),
        }
    }
}

impl Env {
    /// Treat every party as having authorized every invocation.
    pub fn mock_all_auths(&mut self)
        ensures
            final(self)@ == (EnvModel { all_authorized: true, ..old(self)@ }),
    {
        self.all_authorized = true;
    }

    /// Record that `p` authorized the current invocation.
    pub fn authorize(&mut self, p: Party)
        ensures
            final(self)@ == (EnvModel { signers: old(self)@.signers.push(p), ..old(self)@ }),
    {
        self.signers.push(p);
    }

    /// Move the ledger clock.
    pub fn set_timestamp(&mut self, t: u64)
        ensures
            final(self)@ == old(self)@.at_time(t),
    {
        self.timestamp = t;
    }

    /// The ledger clock.
    pub fn timestamp(&self) -> (t: u64)
        ensures
            t == self@.timestamp,
    {
        self.timestamp
    }

    /// Whether the host vouches that `p` authorized the current invocation.
    pub fn is_authorized(&self, p: &Party) -> (r: bool)
        ensures
            r == self@.authorizes(*p),
    {
        if self.all_authorized {
            return true;
        }
        let n = self.signers.len();
        let mut i: usize = 0;
        while i < n
            invariant
                n == self.signers@.len(),
                i <= n,
                !self.all_authorized,
                forall|j: int| 0 <= j < i ==> (#[trigger] self.signers@[j])@ != p@,
            decreases n - i,
        {
            if self.signers[i] == *p {
                assert(self@.signers[i as int]@ == p@);
                return true;
            }
            i = i + 1;
        }
        false
    }
}

} // verus!
