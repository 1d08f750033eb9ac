//! Input validation, authorization checks and the reentrancy guard.

use vstd::prelude::*;
use crate::env::{Env, EnvModel};
use crate::types::{ContractError, Party};

verus! {

/// An amount is acceptable when it is positive and leaves headroom: at most
/// half of the largest `i128`.
pub open spec fn amount_is_valid(amount: i128) -> bool {
    0 < amount && amount <= i128::MAX / 2
}

/// Validate that an amount is positive and within acceptable limits.
pub fn validate_amount(amount: i128) -> (r: Result<(), ContractError>)
    ensures
        r is Ok <==> amount_is_valid(amount),
        r is Err ==> r == Err::<(), ContractError>(ContractError::InvalidAmount),
{
    if amount <= 0 {
        return Err(ContractError::InvalidAmount);
    }
    if amount > i128::MAX / 2 {
        return Err(ContractError::InvalidAmount);
    }
    Ok(())
}


/// Validate that an address names a principal.
pub fn validate_address(_env: &Env, address: &Party) -> (r: Result<(), ContractError>)
    ensures
        r == (if address.is_well_formed_spec() {
            Ok::<(), ContractError>(())
        } else {
            Err(ContractError::InvalidAddress)
        }),
{
    if address.is_well_formed() {
        Ok(())
    } else {
        Err(ContractError::InvalidAddress)
    }
}

/// The outcome of `validate_balance`: the account must have authorized the
/// invocation, and the amount must be positive.
pub open spec fn balance_check(m: EnvModel, account: Party, amount: i128) -> Result<(), ContractError> {
    if !m.authorizes(account) {
        Err(ContractError::Unauthorized)
    } else if amount <= 0 {
        Err(ContractError::InvalidAmount)
    } else {
        Ok(())
    }
}

/// Validate that an account has authorized moving a positive amount. The
/// balance itself is checked by the value-transfer mechanism.
pub fn validate_balance(env: &Env, account: &Party, amount: i128) -> (r: Result<(), ContractError>)
    ensures
        r == balance_check(env@, *account, amount),
{
    if !env.is_authorized(account) {
        return Err(ContractError::Unauthorized);
    }
    if amount <= 0 {
        return Err(ContractError::InvalidAmount);
    }
    Ok(())
}

/// The outcome of `validate_signature`: the signer must have authorized the
/// invocation.
pub open spec fn signature_check(m: EnvModel, signer: Party) -> Result<(), ContractError> {
    if m.authorizes(signer) {
        Ok(())
    } else {
        Err(ContractError::Unauthorized)
    }
}

/// Validate that `signer` authorized the invocation. The host verifies the
/// signature over the invocation; `_data` and `_signature` are not read.
pub fn validate_signature(env: &Env, signer: &Party, _data: &[u8], _signature: &[u8]) -> (r: Result<(), ContractError>)
    ensures
        r == signature_check(env@, *signer),
{
    if env.is_authorized(signer) {
        Ok(())
    } else {
        Err(ContractError::Unauthorized)
    }
}

/// Enter the reentrancy guard: fails when it is already held, and takes it
/// otherwise.
pub fn check_reentrancy(env: &mut Env) -> (r: Result<(), ContractError>)
    ensures
        old(env)@.reentrancy ==> r == Err::<(), ContractError>(ContractError::ReentrancyDetected)
            && final(env)@ == old(env)@,
        !old(env)@.reentrancy ==> r is Ok && final(env)@ == (EnvModel { reentrancy: true, ..old(env)@ }),
{
    if env.reentrancy {
        return Err(ContractError::ReentrancyDetected);
    }
    env.reentrancy = true;
    Ok(())
}

/// Release the reentrancy guard.
pub fn clear_reentrancy(env: &mut Env)
    ensures
        final(env)@ == (EnvModel { reentrancy: false, ..old(env)@ }),
{
    env.reentrancy = false;
}

} // verus!
