//! Escrow workflow: `Active -> {Released, Refunded}`, both terminal.
//!
//! An escrow can be released only up to its expiry and only when all of its
//! conditions are met; it can be refunded only after its expiry.

use vstd::prelude::*;
use crate::StellarDAppContract;
use crate::env::{Env, EnvModel};
use crate::storage::{self, allocate};
use crate::types::{Condition, ConditionType, ContractError, EscrowContract, EscrowResult, EscrowStatus, Party};
use crate::validation::{self, amount_is_valid};

verus! {

broadcast use vstd::std_specs::hash::group_hash_axioms;

/// The verdict on one condition, by kind. The adjudication backends (time
/// parameters, oracle answers, manual approvals) are outside this core, and
/// every kind is currently accepted as met.
pub open spec fn condition_met(c: Condition) -> bool {
    match c.condition_type {
        ConditionType::TimeBased => true,
        ConditionType::OracleBased => true,
        ConditionType::ManualApproval => true,
    }
}

/// Every condition of the sequence is met; true of the empty sequence.
pub open spec fn all_conditions_met(cs: Seq<Condition>) -> bool {
    forall|i: int| 0 <= i < cs.len() ==> condition_met(#[trigger] cs[i])
}

/// The escrow `id` exists and is still `Active`.
pub open spec fn escrow_is_active(m: EnvModel, id: u64) -> bool {
    m.escrows.contains_key(id) && m.escrows[id].status == EscrowStatus::Active
}

/// The token that a release hands back.
pub open spec fn release_token() -> Seq<char> {
    "release_tx_hash"@
}

/// The token that a refund hands back.
pub open spec fn refund_token() -> Seq<char> {
    "refund_tx_hash"@
}

/// `r` is an error exactly when `error` names one, and that error; on
/// success it reports `id`, `status` and the token `token`.
pub open spec fn escrow_result_is(
    r: Result<EscrowResult, ContractError>,
    error: Option<ContractError>,
    id: u64,
    status: EscrowStatus,
    token: Option<Seq<char>>,
) -> bool {
    match r {
        Ok(res) => {
            &&& error is None
            &&& res.escrow_id == id
            &&& res.status == status
            &&& match (res.tx_hash, token) {
                (Some(h), Some(t)) => h@ == t,
                (None, None) => true,
                _ => false,
            }
        },
        Err(e) => error == Some(e),
    }
}

/// Why `create_escrow` fails, checked in this order; `None` when it succeeds.
pub open spec fn escrow_creation_error(
    m: EnvModel,
    sender: Party,
    recipient: Party,
    amount: i128,
    expires_at: u64,
) -> Option<ContractError> {
    if m.reentrancy {
        Some(ContractError::ReentrancyDetected)
    } else if !sender.is_well_formed_spec() || !recipient.is_well_formed_spec() {
        Some(ContractError::InvalidAddress)
    } else if !amount_is_valid(amount) {
        Some(ContractError::InvalidAmount)
    } else if !m.authorizes(sender) {
        Some(ContractError::Unauthorized)
    } else if expires_at <= m.timestamp {
        Some(ContractError::InvalidAmount)
    } else {
        None
    }
}

/// The state after a successful `create_escrow`: the next escrow id is
/// allocated and an `Active` record is stored under it.
pub open spec fn escrow_created(
    m: EnvModel,
    sender: Party,
    recipient: Party,
    amount: i128,
    conditions: Vec<Condition>,
    expires_at: u64,
) -> EnvModel {
    let id = allocate(m.escrow_count);
    EnvModel {
        escrow_count: id,
        escrows: m.escrows.insert(
            id,
            EscrowContract {
                id,
                sender,
                recipient,
                amount,
                conditions,
                status: EscrowStatus::Active,
                created_at: m.timestamp,
                expires_at,
            },
        ),
        ..m
    }
}

/// What `check_escrow_conditions` reports: whether an existing escrow is
/// `Active`, not expired, and has all of its conditions met.
pub open spec fn conditions_outcome(m: EnvModel, id: u64) -> Result<bool, ContractError> {
    if !m.escrows.contains_key(id) {
        Err(ContractError::EscrowNotFound)
    } else {
        let e = m.escrows[id];
        Ok(e.status == EscrowStatus::Active && m.timestamp <= e.expires_at && all_conditions_met(
            e.conditions@,
        ))
    }
}

/// The state with the status of escrow `id` replaced.
pub open spec fn settle_escrow(m: EnvModel, id: u64, status: EscrowStatus) -> EnvModel {
    m.with_escrow(id, EscrowContract { status, ..m.escrows[id] })
}

/// Why `release_escrow` fails, checked in this order; `None` when it succeeds.
pub open spec fn release_error(m: EnvModel, id: u64) -> Option<ContractError> {
    if m.reentrancy {
        Some(ContractError::ReentrancyDetected)
    } else if !escrow_is_active(m, id) {
        Some(ContractError::EscrowNotFound)
    } else if m.timestamp > m.escrows[id].expires_at {
        Some(ContractError::EscrowExpired)
    } else if !all_conditions_met(m.escrows[id].conditions@) {
        Some(ContractError::ConditionsNotMet)
    } else {
        None
    }
}

/// The state after `release_escrow`.
pub open spec fn release_state(m: EnvModel, id: u64) -> EnvModel {
    if release_error(m, id) is Some {
        m
    } else {
        settle_escrow(m, id, EscrowStatus::Released)
    }
}

/// Why `refund_escrow` fails, checked in this order; `None` when it succeeds.
pub open spec fn refund_error(m: EnvModel, id: u64) -> Option<ContractError> {
    if m.reentrancy {
        Some(ContractError::ReentrancyDetected)
    } else if !escrow_is_active(m, id) {
        Some(ContractError::EscrowNotFound)
    } else if m.timestamp <= m.escrows[id].expires_at {
        Some(ContractError::ConditionsNotMet)
    } else {
        None
    }
}

/// The state after `refund_escrow`.
pub open spec fn refund_state(m: EnvModel, id: u64) -> EnvModel {
    if refund_error(m, id) is Some {
        m
    } else {
        settle_escrow(m, id, EscrowStatus::Refunded)
    }
}

/// Evaluate every condition in order, stopping at the first one not met.
pub fn evaluate_all(conditions: &Vec<Condition>) -> (r: bool)
    ensures
        r == all_conditions_met(conditions@),
{
    let n = conditions.len();
    let mut i: usize = 0;
    while i < n
        invariant
            n == conditions@.len(),
            i <= n,
            forall|j: int| 0 <= j < i ==> condition_met(#[trigger] conditions@[j]),
        decreases n - i,
    {
        if !StellarDAppContract::check_single_condition(&conditions[i]) {
            return false;
        }
        i = i + 1;
    }
    true
}

impl StellarDAppContract {
    /// Create a new escrow contract
    pub fn create_escrow(
        env: &mut Env,
        sender: Party,
        recipient: Party,
        amount: i128,
        conditions: Vec<Condition>,
        expires_at: u64,
    ) -> (r: Result<EscrowResult, ContractError>)
        requires
            old(env)@.escrow_count < u64::MAX,
        ensures
            ({
                let error = escrow_creation_error(old(env)@, sender, recipient, amount, expires_at);
                &&& escrow_result_is(r, error, allocate(old(env)@.escrow_count), EscrowStatus::Active, None)
                &&& error is Some ==> final(env)@ == old(env)@
                &&& error is None ==> final(env)@ == escrow_created(old(env)@, sender, recipient, amount, conditions, expires_at)
            }),
    {
        if let Err(e) = validation::check_reentrancy(env) {
            return Err(e);
        }
        let r = Self::open_escrow(env, sender, recipient, amount, conditions, expires_at);
        validation::clear_reentrancy(env);
        r
    }

    fn open_escrow(
        env: &mut Env,
        sender: Party,
        recipient: Party,
        amount: i128,
        conditions: Vec<Condition>,
        expires_at: u64,
    ) -> (r: Result<EscrowResult, ContractError>)
        requires
            old(env)@.escrow_count < u64::MAX,
            old(env)@.reentrancy,
        ensures
            ({
                let m = EnvModel { reentrancy: false, ..old(env)@ };
                let error = escrow_creation_error(m, sender, recipient, amount, expires_at);
                &&& escrow_result_is(r, error, allocate(old(env)@.escrow_count), EscrowStatus::Active, None)
                &&& error is Some ==> final(env)@ == old(env)@
                &&& error is None ==> final(env)@ == (EnvModel {
                    reentrancy: true,
                    ..escrow_created(m, sender, recipient, amount, conditions, expires_at)
                })
            }),
    {
        if let Err(e) = validation::validate_address(env, &sender) {
            return Err(e);
        }
        if let Err(e) = validation::validate_address(env, &recipient) {
            return Err(e);
        }
        if let Err(e) = validation::validate_amount(amount) {
            return Err(e);
        }
        if let Err(e) = validation::validate_balance(env, &sender, amount) {
            return Err(e);
        }
        if expires_at <= env.timestamp {
            return Err(ContractError::InvalidAmount);
        }
        let escrow_id = storage::get_next_escrow_id(env);
        let escrow = EscrowContract {
            id: escrow_id,
            sender,
            recipient,
            amount,
            conditions,
            status: EscrowStatus::Active,
            created_at: env.timestamp,
            expires_at,
        };
        env.escrows.insert(escrow_id, escrow);
        Ok(EscrowResult { escrow_id, status: EscrowStatus::Active, tx_hash: None })
    }

    /// Check if escrow conditions are met
    pub fn check_escrow_conditions(env: &Env, escrow_id: u64) -> (r: Result<bool, ContractError>)
        ensures
            r == conditions_outcome(env@, escrow_id),
    {
        match env.escrows.get(&escrow_id) {
            None => Err(ContractError::EscrowNotFound),
            Some(e) => {
                if e.status != EscrowStatus::Active {
                    return Ok(false);
                }
                if env.timestamp > e.expires_at {
                    return Ok(false);
                }
                Ok(evaluate_all(&e.conditions))
            },
        }
    }

    /// Check a single condition
    fn check_single_condition(condition: &Condition) -> (r: bool)
        ensures
            r == condition_met(*condition),
    {
        match condition.condition_type {
            ConditionType::TimeBased => true,
            ConditionType::OracleBased => true,
            ConditionType::ManualApproval => true,
        }
    }

    /// Replace the status of a stored escrow, keeping the rest of its record.
    fn settle(env: &mut Env, escrow_id: u64, status: EscrowStatus)
        requires
            old(env)@.escrows.contains_key(escrow_id),
        ensures
            final(env)@ == settle_escrow(old(env)@, escrow_id, status),
    {
        match env.escrows.remove(&escrow_id) {
            Some(mut e) => {
                e.status = status;
                env.escrows.insert(escrow_id, e);
                assert(env@.escrows =~= settle_escrow(old(env)@, escrow_id, status).escrows);
            },
            None => {},
        }
    }

    /// Release escrow funds to recipient
    pub fn release_escrow(env: &mut Env, escrow_id: u64) -> (r: Result<EscrowResult, ContractError>)
        ensures
            final(env)@ == release_state(old(env)@, escrow_id),
            escrow_result_is(r, release_error(old(env)@, escrow_id), escrow_id, EscrowStatus::Released, Some(release_token())),
    {
        if let Err(e) = validation::check_reentrancy(env) {
            return Err(e);
        }
        let r = Self::release_guarded(env, escrow_id);
        validation::clear_reentrancy(env);
        r
    }

    fn release_guarded(env: &mut Env, escrow_id: u64) -> (r: Result<EscrowResult, ContractError>)
        requires
            old(env)@.reentrancy,
        ensures
            ({
                let m = EnvModel { reentrancy: false, ..old(env)@ };
                &&& final(env)@ == EnvModel { reentrancy: true, ..release_state(m, escrow_id) }
                &&& escrow_result_is(r, release_error(m, escrow_id), escrow_id, EscrowStatus::Released, Some(release_token()))
            }),
    {
        let e = match env.escrows.get(&escrow_id) {
            Some(e) => e,
            None => return Err(ContractError::EscrowNotFound),
        };
        if e.status != EscrowStatus::Active {
            return Err(ContractError::EscrowNotFound);
        }
        if env.timestamp > e.expires_at {
            return Err(ContractError::EscrowExpired);
        }
        if !evaluate_all(&e.conditions) {
            return Err(ContractError::ConditionsNotMet);
        }
        Self::settle(env, escrow_id, EscrowStatus::Released);
        Ok(EscrowResult {
            escrow_id,
            status: EscrowStatus::Released,
            tx_hash: Some(String::from_str("release_tx_hash")),
        })
    }

    /// Refund escrow funds to sender; only once the escrow has expired.
    pub fn refund_escrow(env: &mut Env, escrow_id: u64) -> (r: Result<EscrowResult, ContractError>)
        ensures
            final(env)@ == refund_state(old(env)@, escrow_id),
            escrow_result_is(r, refund_error(old(env)@, escrow_id), escrow_id, EscrowStatus::Refunded, Some(refund_token())),
    {
        if let Err(e) = validation::check_reentrancy(env) {
            return Err(e);
        }
        let r = Self::refund_guarded(env, escrow_id);
        validation::clear_reentrancy(env);
        r
    }

    fn refund_guarded(env: &mut Env, escrow_id: u64) -> (r: Result<EscrowResult, ContractError>)
        requires
            old(env)@.reentrancy,
        ensures
            ({
                let m = EnvModel { reentrancy: false, ..old(env)@ };
                &&& final(env)@ == EnvModel { reentrancy: true, ..refund_state(m, escrow_id) }
                &&& escrow_result_is(r, refund_error(m, escrow_id), escrow_id, EscrowStatus::Refunded, Some(refund_token()))
            }),
    {
        let e = match env.escrows.get(&escrow_id) {
            Some(e) => e,
            None => return Err(ContractError::EscrowNotFound),
        };
        if e.status != EscrowStatus::Active {
            return Err(ContractError::EscrowNotFound);
        }
        if env.timestamp <= e.expires_at {
            return Err(ContractError::ConditionsNotMet);
        }
        Self::settle(env, escrow_id, EscrowStatus::Refunded);
        Ok(EscrowResult {
            escrow_id,
            status: EscrowStatus::Refunded,
            tx_hash: Some(String::from_str("refund_tx_hash")),
        })
    }

    /// Drive an escrow on its own: refund it once expired, release it when
    /// its conditions are met, and otherwise leave it `Active`.
    pub fn process_escrow(env: &mut Env, escrow_id: u64) -> (r: Result<EscrowResult, ContractError>)
        ensures
            !escrow_is_active(old(env)@, escrow_id) ==> {
                &&& escrow_result_is(r, Some(ContractError::EscrowNotFound), escrow_id, EscrowStatus::Active, None)
                &&& final(env)@ == old(env)@
            },
            escrow_is_active(old(env)@, escrow_id) && old(env)@.timestamp > old(env)@.escrows[escrow_id].expires_at ==> {
                &&& escrow_result_is(r, refund_error(old(env)@, escrow_id), escrow_id, EscrowStatus::Refunded, Some(refund_token()))
                &&& final(env)@ == refund_state(old(env)@, escrow_id)
            },
            escrow_is_active(old(env)@, escrow_id) && old(env)@.timestamp <= old(env)@.escrows[escrow_id].expires_at
                && all_conditions_met(old(env)@.escrows[escrow_id].conditions@) ==> {
                &&& escrow_result_is(r, release_error(old(env)@, escrow_id), escrow_id, EscrowStatus::Released, Some(release_token()))
                &&& final(env)@ == release_state(old(env)@, escrow_id)
            },
            escrow_is_active(old(env)@, escrow_id) && old(env)@.timestamp <= old(env)@.escrows[escrow_id].expires_at
                && !all_conditions_met(old(env)@.escrows[escrow_id].conditions@) ==> {
                &&& escrow_result_is(r, None, escrow_id, EscrowStatus::Active, None)
                &&& final(env)@ == old(env)@
            },
    {
        let expired = match env.escrows.get(&escrow_id) {
            None => return Err(ContractError::EscrowNotFound),
            Some(e) => {
                if e.status != EscrowStatus::Active {
                    return Err(ContractError::EscrowNotFound);
                }
                env.timestamp > e.expires_at
            },
        };
        if expired {
            return Self::refund_escrow(env, escrow_id);
        }
        match Self::check_escrow_conditions(env, escrow_id) {
            Ok(true) => Self::release_escrow(env, escrow_id),
            Ok(false) => Ok(EscrowResult { escrow_id, status: EscrowStatus::Active, tx_hash: None }),
            Err(e) => Err(e),
        }
    }

    /// Get escrow details
    pub fn get_escrow_details(env: &Env, escrow_id: u64) -> (r: Result<EscrowContract, ContractError>)
        ensures
            r is Ok <==> env@.escrows.contains_key(escrow_id),
            r matches Ok(e) ==> e.same_as(&env@.escrows[escrow_id]),
            r matches Err(e) ==> e == ContractError::EscrowNotFound,
    {
        match storage::get_escrow(env, escrow_id) {
            Some(e) => Ok(e),
            None => Err(ContractError::EscrowNotFound),
        }
    }
}

} // verus!
