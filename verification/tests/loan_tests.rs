use flash_mint::engine::{
    ExternalActionReport, FlashMintProvider, LocalRoles, PaybackEvent,
};
use flash_mint::errors::{
    FlashMintError, PermissionCause, StateCause, ValidationCause,
};
use flash_mint::fees::required_repayment;

fn owner() -> Vec<u8> {
    b"owner".to_vec()
}

fn loan_token() -> Vec<u8> {
    b"WEGLD-ab12cd".to_vec()
}

fn borrower() -> Vec<u8> {
    b"borrower".to_vec()
}

fn all_roles() -> LocalRoles {
    LocalRoles { can_mint: true, can_burn: true }
}

fn payback(amount: u64) -> PaybackEvent {
    PaybackEvent { token_id: loan_token(), amount, nonce: 0 }
}

fn report(paybacks: Vec<PaybackEvent>) -> ExternalActionReport {
    ExternalActionReport { paybacks, completed: true }
}

/// A provider with terms `{min: 100, max: 1000}` at the given fee rate.
fn provider_with_terms(fee_percent: u64) -> FlashMintProvider {
    let mut p = FlashMintProvider::new(owner());
    p.configure_per_token_loan_service_settings(
        &owner(),
        loan_token(),
        100,
        1000,
        fee_percent,
        500_000,
        b"fee-collector".to_vec(),
        b"depositFees".to_vec(),
    )
    .expect("terms are valid");
    p
}

fn run_loan(
    p: &mut FlashMintProvider,
    amount: u64,
    roles: LocalRoles,
    rep: &ExternalActionReport,
    fee_transfer_ok: bool,
) -> Result<flash_mint::engine::FlashLoanReceipt, FlashMintError> {
    p.flash_loan(
        loan_token(),
        amount,
        borrower(),
        b"callMe".to_vec(),
        600_000,
        vec![b"arg0".to_vec(), b"arg1".to_vec()],
        roles,
        rep,
        fee_transfer_ok,
    )
}

#[test]
fn flash_loan_rejects_zero_amount() {
    let mut p = provider_with_terms(50);
    let r = run_loan(&mut p, 0, all_roles(), &report(vec![]), true);
    assert_eq!(
        r.err(),
        Some(FlashMintError::ValidationError(ValidationCause::ZeroAmount))
    );
}

#[test]
fn flash_loan_rejects_below_minimum() {
    let mut p = provider_with_terms(50);
    let r = run_loan(&mut p, 50, all_roles(), &report(vec![payback(100)]), true);
    assert_eq!(
        r.err(),
        Some(FlashMintError::ValidationError(ValidationCause::BelowMinimum))
    );
}

#[test]
fn flash_loan_rejects_above_maximum() {
    let mut p = provider_with_terms(50);
    let r = run_loan(&mut p, 1500, all_roles(), &report(vec![payback(2000)]), true);
    assert_eq!(
        r.err(),
        Some(FlashMintError::ValidationError(ValidationCause::AboveMaximum))
    );
}

#[test]
fn flash_loan_rejects_unconfigured_token() {
    let mut p = FlashMintProvider::new(owner());
    let r = run_loan(&mut p, 500, all_roles(), &report(vec![payback(600)]), true);
    assert_eq!(
        r.err(),
        Some(FlashMintError::ValidationError(ValidationCause::TokenNotConfigured))
    );
}

#[test]
fn flash_loan_requires_mint_and_burn_roles() {
    let mut p = provider_with_terms(50);
    let no_mint = LocalRoles { can_mint: false, can_burn: true };
    let r = run_loan(&mut p, 500, no_mint, &report(vec![payback(600)]), true);
    assert_eq!(
        r.err(),
        Some(FlashMintError::PermissionError(PermissionCause::MissingLocalMintRole))
    );
    let no_burn = LocalRoles { can_mint: true, can_burn: false };
    let r = run_loan(&mut p, 500, no_burn, &report(vec![payback(600)]), true);
    assert_eq!(
        r.err(),
        Some(FlashMintError::PermissionError(PermissionCause::MissingLocalBurnRole))
    );
}

#[test]
fn flash_loan_rejects_nested_request() {
    let mut p = provider_with_terms(50);
    // Open a session the way a running loan would, then request again,
    // as a reentering external action would.
    p.flash_loan_request(
        loan_token(),
        500,
        borrower(),
        b"callMe".to_vec(),
        600_000,
        Vec::new(),
        all_roles(),
    )
    .expect("first request is valid");
    assert!(p.is_ongoing_flash_loan());
    let nested = p.flash_loan_request(
        loan_token(),
        500,
        borrower(),
        b"callMe".to_vec(),
        600_000,
        Vec::new(),
        all_roles(),
    );
    assert_eq!(
        nested.err(),
        Some(FlashMintError::StateError(StateCause::LoanAlreadyOngoing))
    );
    let nested_whole = run_loan(&mut p, 500, all_roles(), &report(vec![payback(600)]), true);
    assert_eq!(
        nested_whole.err(),
        Some(FlashMintError::StateError(StateCause::LoanAlreadyOngoing))
    );
    assert!(p.is_ongoing_flash_loan());
}

#[test]
fn repayment_boundary_at_required_amount() {
    // amount 1000 at fee rate 50 owes floor(1000 * 1050 / 1000) = 1050.
    let mut p = provider_with_terms(50);
    let r = run_loan(&mut p, 1000, all_roles(), &report(vec![payback(1049)]), true);
    assert_eq!(r.err(), Some(FlashMintError::InsufficientRepayment));
    assert!(!p.is_ongoing_flash_loan());

    let receipt = run_loan(&mut p, 1000, all_roles(), &report(vec![payback(1050)]), true)
        .expect("repayment covers principal plus fee");
    assert_eq!(receipt.repaid_amount, 1050);
    let fee_call = receipt.fee_call.expect("a fee of 50 is owed");
    assert_eq!(fee_call.payment_amount(), 50);
    assert_eq!(fee_call.payment_token_id(), &loan_token());
    assert_eq!(fee_call.address(), &b"fee-collector".to_vec());
    assert_eq!(fee_call.function(), &b"depositFees".to_vec());
    assert_eq!(fee_call.gas_limit(), 500_000);
    assert!(fee_call.arguments().is_empty());
}

#[test]
fn required_repayment_formula() {
    assert_eq!(required_repayment(1000, 50), 1050);
    assert_eq!(required_repayment(1000, 0), 1000);
    assert_eq!(required_repayment(999, 1), 999); // floor(999 * 1001 / 1000)
    assert_eq!(required_repayment(1, 999), 1); // floor(1 * 1999 / 1000)
    assert_eq!(required_repayment(u64::MAX, 999), u64::MAX as u128 * 1999 / 1000);
}

#[test]
fn session_is_idle_after_success_and_after_abort() {
    let mut p = provider_with_terms(0);
    assert!(run_loan(&mut p, 1000, all_roles(), &report(vec![payback(1000)]), true).is_ok());
    assert!(!p.is_ongoing_flash_loan());

    assert!(run_loan(&mut p, 1000, all_roles(), &report(vec![payback(1)]), true).is_err());
    assert!(!p.is_ongoing_flash_loan());

    let failed_action = ExternalActionReport { paybacks: vec![payback(2000)], completed: false };
    let r = run_loan(&mut p, 1000, all_roles(), &failed_action, true);
    assert_eq!(r.err(), Some(FlashMintError::ExternalCallFailure));
    assert!(!p.is_ongoing_flash_loan());
}

#[test]
fn paybacks_accumulate_across_calls() {
    // Two calls of 600 and 450 on a loan of 1000 at fee rate 0 sum to
    // 1050, covering the required 1000.
    let mut p = provider_with_terms(0);
    let receipt = run_loan(
        &mut p,
        1000,
        all_roles(),
        &report(vec![payback(600), payback(450)]),
        true,
    )
    .expect("1050 covers the required 1000");
    assert_eq!(receipt.repaid_amount, 1050);
    assert_eq!(receipt.fee_call.expect("surplus of 50 is owed").payment_amount(), 50);

    // The same accumulation through the repayment endpoint itself.
    let mut p = provider_with_terms(0);
    p.flash_loan_request(
        loan_token(),
        1000,
        borrower(),
        b"callMe".to_vec(),
        600_000,
        Vec::new(),
        all_roles(),
    )
    .expect("request is valid");
    assert!(p.accept_payback(&loan_token(), 600, 0).is_ok());
    assert!(p.accept_payback(&loan_token(), 450, 0).is_ok());
    let terms = p.get_loan_service_settings(&loan_token()).expect("terms are stored");
    let (repaid, fee_call) = p.flash_loan_settle(1000, &terms).expect("1050 covers 1000");
    assert_eq!(repaid, 1050);
    assert_eq!(fee_call.expect("surplus of 50").payment_amount(), 50);
    assert!(!p.is_ongoing_flash_loan());
}

#[test]
fn accept_payback_rejects_without_active_loan() {
    let mut p = provider_with_terms(0);
    let r = p.accept_payback(&loan_token(), 100, 0);
    assert_eq!(
        r,
        Err(FlashMintError::StateError(StateCause::LoanNotOngoing))
    );
}

#[test]
fn accept_payback_rejects_non_fungible_and_foreign_payments() {
    let mut p = provider_with_terms(0);
    p.flash_loan_request(
        loan_token(),
        1000,
        borrower(),
        b"callMe".to_vec(),
        600_000,
        Vec::new(),
        all_roles(),
    )
    .expect("request is valid");
    assert_eq!(
        p.accept_payback(&loan_token(), 100, 7),
        Err(FlashMintError::ValidationError(ValidationCause::NonFungibleInstance))
    );
    assert_eq!(
        p.accept_payback(&b"OTHER-aaaaaa".to_vec(), 100, 0),
        Err(FlashMintError::ValidationError(ValidationCause::PaymentTokenMismatch))
    );
}

#[test]
fn rejected_paybacks_do_not_count() {
    let mut p = provider_with_terms(0);
    let events = vec![
        PaybackEvent { token_id: b"OTHER-aaaaaa".to_vec(), amount: 5000, nonce: 0 },
        PaybackEvent { token_id: loan_token(), amount: 700, nonce: 3 },
        payback(1000),
        payback(0),
    ];
    let receipt = run_loan(&mut p, 1000, all_roles(), &report(events), true)
        .expect("the one valid payback covers the principal");
    assert_eq!(receipt.repaid_amount, 1000);
    assert!(receipt.fee_call.is_none());
}

#[test]
fn fee_forwarding_skipped_exactly_when_fee_is_zero() {
    // No surplus: no fee call, and a failing fee transfer cannot matter.
    let mut p = provider_with_terms(0);
    let receipt = run_loan(&mut p, 1000, all_roles(), &report(vec![payback(1000)]), false)
        .expect("no fee is owed, so no transfer happens");
    assert_eq!(receipt.repaid_amount, 1000);
    assert!(receipt.fee_call.is_none());

    // Surplus: exactly one fee call carrying repaid minus principal.
    let receipt = run_loan(&mut p, 1000, all_roles(), &report(vec![payback(1234)]), true)
        .expect("repayment covers the principal");
    assert_eq!(receipt.repaid_amount, 1234);
    assert_eq!(receipt.fee_call.expect("surplus owed").payment_amount(), 234);
}

#[test]
fn failing_fee_transfer_aborts_the_loan() {
    let mut p = provider_with_terms(50);
    let r = run_loan(&mut p, 1000, all_roles(), &report(vec![payback(1100)]), false);
    assert_eq!(r.err(), Some(FlashMintError::ExternalCallFailure));
    assert!(!p.is_ongoing_flash_loan());
}

#[test]
fn dispatched_call_carries_the_request() {
    let mut p = provider_with_terms(0);
    let receipt = run_loan(&mut p, 1000, all_roles(), &report(vec![payback(1000)]), true)
        .expect("repayment covers the principal");
    let call = &receipt.sc_call;
    assert_eq!(call.payment_token_id(), &loan_token());
    assert_eq!(call.payment_amount(), 1000);
    assert_eq!(call.address(), &borrower());
    assert_eq!(call.function(), &b"callMe".to_vec());
    assert_eq!(call.gas_limit(), 600_000);
    assert_eq!(call.arguments(), &vec![b"arg0".to_vec(), b"arg1".to_vec()]);
}
