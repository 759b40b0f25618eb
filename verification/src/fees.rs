//! Fee arithmetic and fee forwarding.
//!
//! The repayment invariant uses exact integer semantics: a loan of
//! `amount` at fee rate `fee_percent` (parts per thousand) owes at least
//! `floor(amount * (1000 + fee_percent) / 1000)`. The surplus over the
//! principal is the fee; a positive fee is forwarded through one outgoing
//! call, a zero fee is not forwarded at all.

use vstd::arithmetic::div_mod::{lemma_div_is_ordered, lemma_div_multiples_vanish};
use vstd::arithmetic::mul::{lemma_mul_inequality, lemma_mul_upper_bound};
use vstd::prelude::*;

use crate::bytes::clone_bytes;
use crate::errors::FlashMintError;
use crate::invocation::{ScCall, ScCallView};
use crate::settings::{LoanServiceSettings, LoanServiceSettingsView, PERCENT_BASE_PRECISION};

verus! {

/// The smallest acceptable repayment for a loan of `amount` at fee rate
/// `fee_percent`: `floor(amount * (1000 + fee_percent) / 1000)`.
pub open spec fn spec_required_repayment(amount: u64, fee_percent: u64) -> int {
    (amount * (PERCENT_BASE_PRECISION + fee_percent)) / (PERCENT_BASE_PRECISION as int)
}

/// The required repayment never falls below the principal.
pub proof fn lemma_required_repayment_at_least_principal(amount: u64, fee_percent: u64)
    ensures
        spec_required_repayment(amount, fee_percent) >= amount,
{
    let base = PERCENT_BASE_PRECISION as int;
    lemma_mul_inequality(base, base + fee_percent, amount as int);
    lemma_div_is_ordered(base * amount, amount * (base + fee_percent), base);
    lemma_div_multiples_vanish(amount as int, base);
}

/// The required repayment fits comfortably below `u128::MAX` while the
/// fee rate stays below the parts-per-thousand base.
pub proof fn lemma_required_repayment_fits(amount: u64, fee_percent: u64)
    requires
        fee_percent < PERCENT_BASE_PRECISION,
    ensures
        amount * (PERCENT_BASE_PRECISION + fee_percent) <= u128::MAX,
        spec_required_repayment(amount, fee_percent) <= u128::MAX,
{
    let base = PERCENT_BASE_PRECISION as int;
    lemma_mul_upper_bound(amount as int, u64::MAX as int, base + fee_percent, 2 * base);
    assert((18446744073709551615int) * (2000int) <= 340282366920938463463374607431768211455int)
        by (nonlinear_arith);
    assert((u64::MAX as int) * (2 * base) <= u128::MAX);
    lemma_div_is_ordered(0, amount * (base + fee_percent), base);
    lemma_div_is_ordered(amount * (base + fee_percent), u128::MAX as int, base);
}

/// Computes the smallest acceptable repayment for a loan of `amount` at
/// fee rate `fee_percent`.
pub fn required_repayment(amount: u64, fee_percent: u64) -> (r: u128)
    requires
        fee_percent < PERCENT_BASE_PRECISION,
    ensures
        r == spec_required_repayment(amount, fee_percent),
{
    proof {
        lemma_required_repayment_fits(amount, fee_percent);
    }
    let numerator: u128 = (amount as u128) * ((PERCENT_BASE_PRECISION as u128) + (
    fee_percent as u128));
    numerator / (PERCENT_BASE_PRECISION as u128)
}

/// Enforces the repayment invariant: succeeds exactly when
/// `received_amount` covers the required repayment.
pub fn require_paid_back_loan(
    lend_amount: u64,
    received_amount: u128,
    settings: &LoanServiceSettings,
) -> (r: Result<(), FlashMintError>)
    requires
        settings@.fee_percent < PERCENT_BASE_PRECISION,
    ensures
        r == if received_amount >= spec_required_repayment(lend_amount, settings@.fee_percent) {
            Ok::<(), FlashMintError>(())
        } else {
            Err::<(), FlashMintError>(FlashMintError::InsufficientRepayment)
        },
{
    let required = required_repayment(lend_amount, settings.fee_percent());
    if received_amount >= required {
        Ok(())
    } else {
        Err(FlashMintError::InsufficientRepayment)
    }
}

/// The call that forwards a fee of `amount` in `token_id` under the given
/// terms: the configured destination and function, the configured gas
/// budget, no payload arguments.
pub open spec fn spec_fee_call(
    token_id: Seq<u8>,
    amount: u128,
    settings: LoanServiceSettingsView,
) -> ScCallView {
    ScCallView {
        payment_token_id: token_id,
        payment_amount: amount,
        address: settings.fee_destination_addr,
        function: settings.fee_destination_func,
        gas_limit: settings.fee_transfer_gas_limit,
        arguments: Seq::empty(),
    }
}

/// Builds the fee-forwarding call, or nothing when no fee is owed: a fee
/// of zero is never forwarded, a positive fee is forwarded exactly once.
pub fn send_fees(
    token_id: &Vec<u8>,
    amount: u128,
    settings: &LoanServiceSettings,
) -> (r: Option<ScCall>)
    ensures
        r matches Some(c) ==> amount > 0 && c@ == spec_fee_call(token_id@, amount, settings@),
        r is None ==> amount == 0,
{
    if amount > 0 {
        let arguments: Vec<Vec<u8>> = Vec::new();
        proof {
            assert(arguments.deep_view() =~= Seq::<Seq<u8>>::empty());
        }
        let call = ScCall::new(
            clone_bytes(token_id),
            amount,
            clone_bytes(settings.fee_destination_addr()),
            clone_bytes(settings.fee_destination_func()),
            settings.fee_transfer_gas_limit(),
            arguments,
        );
        proof {
            assert(call@ =~= spec_fee_call(token_id@, amount, settings@));
        }
        Some(call)
    } else {
        None
    }
}

} // verus!
