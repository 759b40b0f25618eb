//! The loan engine: the contract state and its endpoints.
//!
//! The provider owns the configuration registry and the single
//! loan-session slot. A flash loan runs as one unit of work: the request
//! is validated and the session opened, the host mints the principal and
//! dispatches the external action, repayments arrive through
//! [`FlashMintProvider::accept_payback`] while that action runs, and the
//! engine then enforces the repayment invariant, closes the session and
//! hands the host the fee-forwarding call. The host provides atomicity:
//! on any error it discards every staged effect, and the engine leaves
//! its own state exactly as it was.

use vstd::prelude::*;

use crate::asset::{is_valid_asset_id, spec_valid_asset_id};
use crate::bytes::{bytes_eq, clone_bytes};
use crate::config::ConfigRegistry;
use crate::errors::{FlashMintError, PermissionCause, StateCause, ValidationCause};
use crate::fees::{
    lemma_required_repayment_at_least_principal, require_paid_back_loan, send_fees, spec_fee_call,
    spec_required_repayment,
};
use crate::invocation::{ScCall, ScCallView};
use crate::session::{OngoingLoan, OngoingLoanView};
use crate::settings::{LoanServiceSettings, LoanServiceSettingsView, PERCENT_BASE_PRECISION};

verus! {

/// The local mint and burn capabilities the host has granted the
/// contract for one asset, passed in explicitly instead of read from an
/// ambient environment.
#[derive(Clone, Copy, Debug, PartialEq, Eq, Structural)]
pub struct LocalRoles {
    /// The contract may issue new units of the asset.
    pub can_mint: bool,
    /// The contract may destroy units of the asset it holds.
    pub can_burn: bool,
}

/// One repayment call observed while the external action ran: the asset
/// paid, the amount, and the instance nonce of the payment (zero for the
/// fungible instance).
pub struct PaybackEvent {
    /// The asset the repayment was made in.
    pub token_id: Vec<u8>,
    /// The amount repaid by this call.
    pub amount: u64,
    /// The instance nonce of the payment; only zero is fungible.
    pub nonce: u64,
}

/// What the external action did before returning: whether it completed,
/// and the repayment calls it made, in order.
pub struct ExternalActionReport {
    /// The repayment calls made while the action ran.
    pub paybacks: Vec<PaybackEvent>,
    /// Whether the action itself returned successfully.
    pub completed: bool,
}

/// The outcome of a completed flash loan: the call that was dispatched,
/// the total repayment received, and the fee-forwarding call, if a fee
/// was owed.
pub struct FlashLoanReceipt {
    /// The external action that was dispatched with the principal.
    pub sc_call: ScCall,
    /// The total repayment accumulated while the action ran.
    pub repaid_amount: u128,
    /// The fee-forwarding call; absent exactly when the fee was zero.
    pub fee_call: Option<ScCall>,
}

/// The mathematical value of [`FlashMintProvider`].
#[verifier::ext_equal]
pub ghost struct ProviderView {
    /// The administrator account.
    pub administrator: Seq<u8>,
    /// The configured loan terms, per asset.
    pub settings: Map<Seq<u8>, LoanServiceSettingsView>,
    /// The loan session, absent when idle.
    pub ongoing: Option<OngoingLoanView>,
}

/// The flash-mint provider: administrator identity, per-asset loan terms,
/// and the single loan-session slot.
pub struct FlashMintProvider {
    administrator: Vec<u8>,
    token_loan_service_settings: ConfigRegistry,
    ongoing_flash_loan: Option<OngoingLoan>,
}

impl View for FlashMintProvider {
    type V = ProviderView;

    closed spec fn view(&self) -> ProviderView {
        ProviderView {
            administrator: self.administrator@,
            settings: self.token_loan_service_settings.as_map(),
            ongoing: match self.ongoing_flash_loan {
                Some(loan) => Some(loan@),
                None => None,
            },
        }
    }
}

/// Why a configuration request fails, or nothing if it is accepted; the
/// checks run in this order.
pub open spec fn spec_configure_error(
    state: ProviderView,
    caller: Seq<u8>,
    token_id: Seq<u8>,
    minimum_loan_amount: u64,
    maximum_loan_amount: u64,
    fee_percent: u64,
) -> Option<FlashMintError> {
    if caller != state.administrator {
        Some(FlashMintError::PermissionError(PermissionCause::NotAdministrator))
    } else if !spec_valid_asset_id(token_id) {
        Some(FlashMintError::ValidationError(ValidationCause::InvalidAssetIdentifier))
    } else if fee_percent >= PERCENT_BASE_PRECISION {
        Some(FlashMintError::ValidationError(ValidationCause::FeePercentTooHigh))
    } else if maximum_loan_amount == 0 {
        Some(FlashMintError::ValidationError(ValidationCause::ZeroMaximumAmount))
    } else if minimum_loan_amount > maximum_loan_amount {
        Some(FlashMintError::ValidationError(ValidationCause::MinimumAboveMaximum))
    } else {
        None
    }
}

/// Why a repayment is rejected, or nothing if it is accepted; the checks
/// run in this order.
pub open spec fn spec_accept_payback_error(
    state: ProviderView,
    token_id: Seq<u8>,
    nonce: u64,
) -> Option<FlashMintError> {
    match state.ongoing {
        None => Some(FlashMintError::StateError(StateCause::LoanNotOngoing)),
        Some(loan) => if nonce != 0 {
            Some(FlashMintError::ValidationError(ValidationCause::NonFungibleInstance))
        } else if loan.loan_token_id != token_id {
            Some(FlashMintError::ValidationError(ValidationCause::PaymentTokenMismatch))
        } else {
            None
        },
    }
}

/// The state after an accepted repayment of `amount`: the same state with
/// the repayment added to the session's running total.
pub open spec fn spec_after_payback(state: ProviderView, amount: u64) -> ProviderView {
    match state.ongoing {
        Some(loan) => ProviderView {
            administrator: state.administrator,
            settings: state.settings,
            ongoing: Some(
                OngoingLoanView {
                    loan_token_id: loan.loan_token_id,
                    payback_amount: (loan.payback_amount + amount) as u128,
                },
            ),
        },
        None => state,
    }
}

/// Why a flash-loan request fails before anything is issued, or nothing
/// if the loan may be issued; the checks run in this order.
pub open spec fn spec_flash_loan_request_error(
    state: ProviderView,
    loan_token_id: Seq<u8>,
    loan_amount: u64,
    roles: LocalRoles,
) -> Option<FlashMintError> {
    if loan_amount == 0 {
        Some(FlashMintError::ValidationError(ValidationCause::ZeroAmount))
    } else if !state.settings.contains_key(loan_token_id) {
        Some(FlashMintError::ValidationError(ValidationCause::TokenNotConfigured))
    } else if loan_amount < state.settings[loan_token_id].minimum_loan_amount {
        Some(FlashMintError::ValidationError(ValidationCause::BelowMinimum))
    } else if loan_amount > state.settings[loan_token_id].maximum_loan_amount {
        Some(FlashMintError::ValidationError(ValidationCause::AboveMaximum))
    } else if !roles.can_mint {
        Some(FlashMintError::PermissionError(PermissionCause::MissingLocalMintRole))
    } else if !roles.can_burn {
        Some(FlashMintError::PermissionError(PermissionCause::MissingLocalBurnRole))
    } else if state.ongoing is Some {
        Some(FlashMintError::StateError(StateCause::LoanAlreadyOngoing))
    } else {
        None
    }
}

impl FlashMintProvider {
    /// The registry invariant: unique, well-formed keys and valid terms.
    pub closed spec fn wf(self) -> bool {
        self.token_loan_service_settings.wf()
    }

    /// A fresh provider: the given administrator, no configured terms,
    /// no loan in progress.
    pub fn new(administrator: Vec<u8>) -> (r: Self)
        ensures
            r.wf(),
            r@ == (ProviderView {
                administrator: administrator@,
                settings: Map::<Seq<u8>, LoanServiceSettingsView>::empty(),
                ongoing: None::<OngoingLoanView>,
            }),
    {
        FlashMintProvider {
            administrator,
            token_loan_service_settings: ConfigRegistry::new(),
            ongoing_flash_loan: None,
        }
    }

    /// Succeeds exactly when `caller` is the administrator.
    pub fn require_owner(&self, caller: &Vec<u8>) -> (r: Result<(), FlashMintError>)
        ensures
            r == if caller@ == self@.administrator {
                Ok::<(), FlashMintError>(())
            } else {
                Err::<(), FlashMintError>(
                    FlashMintError::PermissionError(PermissionCause::NotAdministrator),
                )
            },
    {
        if bytes_eq(caller, &self.administrator) {
            Ok(())
        } else {
            Err(FlashMintError::PermissionError(PermissionCause::NotAdministrator))
        }
    }

    /// Succeeds exactly when both the mint and the burn capability are
    /// granted, naming the first missing one otherwise.
    pub fn require_local_burn_and_mint_roles_set(&self, roles: LocalRoles) -> (r: Result<
        (),
        FlashMintError,
    >)
        ensures
            r == if !roles.can_mint {
                Err::<(), FlashMintError>(
                    FlashMintError::PermissionError(PermissionCause::MissingLocalMintRole),
                )
            } else if !roles.can_burn {
                Err::<(), FlashMintError>(
                    FlashMintError::PermissionError(PermissionCause::MissingLocalBurnRole),
                )
            } else {
                Ok::<(), FlashMintError>(())
            },
    {
        if !roles.can_mint {
            Err(FlashMintError::PermissionError(PermissionCause::MissingLocalMintRole))
        } else if !roles.can_burn {
            Err(FlashMintError::PermissionError(PermissionCause::MissingLocalBurnRole))
        } else {
            Ok(())
        }
    }

    /// Stores loan terms for an asset: administrator-only, the identifier
    /// must be well formed and the terms must satisfy their invariant.
    /// Success replaces any previous terms; failure leaves everything
    /// unchanged.
    pub fn configure_per_token_loan_service_settings(
        &mut self,
        caller: &Vec<u8>,
        token_id: Vec<u8>,
        minimum_loan_amount: u64,
        maximum_loan_amount: u64,
        fee_percent: u64,
        fee_transfer_gas_limit: u64,
        fee_destination_addr: Vec<u8>,
        fee_destination_func: Vec<u8>,
    ) -> (r: Result<(), FlashMintError>)
        requires
            old(self).wf(),
        ensures
            final(self).wf(),
            final(self)@.administrator == old(self)@.administrator,
            final(self)@.ongoing == old(self)@.ongoing,
            match spec_configure_error(
                old(self)@,
                caller@,
                token_id@,
                minimum_loan_amount,
                maximum_loan_amount,
                fee_percent,
            ) {
                Some(e) => r == Err::<(), FlashMintError>(e) && final(self)@ == old(self)@,
                None => r == Ok::<(), FlashMintError>(()) && final(self)@.settings
                    == old(self)@.settings.insert(
                    token_id@,
                    LoanServiceSettingsView {
                        minimum_loan_amount,
                        maximum_loan_amount,
                        fee_percent,
                        fee_transfer_gas_limit,
                        fee_destination_addr: fee_destination_addr@,
                        fee_destination_func: fee_destination_func@,
                    },
                ),
            },
    {
        if let Err(e) = self.require_owner(caller) {
            return Err(e);
        }
        if !is_valid_asset_id(&token_id) {
            return Err(FlashMintError::ValidationError(ValidationCause::InvalidAssetIdentifier));
        }
        if fee_percent >= PERCENT_BASE_PRECISION {
            return Err(FlashMintError::ValidationError(ValidationCause::FeePercentTooHigh));
        }
        if maximum_loan_amount == 0 {
            return Err(FlashMintError::ValidationError(ValidationCause::ZeroMaximumAmount));
        }
        if minimum_loan_amount > maximum_loan_amount {
            return Err(FlashMintError::ValidationError(ValidationCause::MinimumAboveMaximum));
        }
        let settings = LoanServiceSettings::new(
            minimum_loan_amount,
            maximum_loan_amount,
            fee_percent,
            fee_transfer_gas_limit,
            fee_destination_addr,
            fee_destination_func,
        );
        self.token_loan_service_settings.upsert(token_id, settings);
        Ok(())
    }

    /// Removes the terms for an asset: administrator-only, and removing
    /// an unconfigured asset succeeds without effect.
    pub fn remove_token_loan_service(&mut self, caller: &Vec<u8>, token_id: &Vec<u8>) -> (r: Result<
        (),
        FlashMintError,
    >)
        requires
            old(self).wf(),
        ensures
            final(self).wf(),
            final(self)@.administrator == old(self)@.administrator,
            final(self)@.ongoing == old(self)@.ongoing,
            caller@ != old(self)@.administrator ==> r == Err::<(), FlashMintError>(
                FlashMintError::PermissionError(PermissionCause::NotAdministrator),
            ) && final(self)@ == old(self)@,
            caller@ == old(self)@.administrator ==> r == Ok::<(), FlashMintError>(())
                && final(self)@.settings == old(self)@.settings.remove(token_id@),
    {
        if let Err(e) = self.require_owner(caller) {
            return Err(e);
        }
        self.token_loan_service_settings.remove_key(token_id);
        Ok(())
    }

    /// Looks the terms for an asset up.
    pub fn get_loan_service_settings(&self, token_id: &Vec<u8>) -> (r: Option<LoanServiceSettings>)
        requires
            self.wf(),
        ensures
            match r {
                Some(s) => self@.settings.contains_key(token_id@) && s@ == self@.settings[token_id@],
                None => !self@.settings.contains_key(token_id@),
            },
    {
        self.token_loan_service_settings.get(token_id)
    }

    /// Every configured asset with its terms; the order carries no
    /// meaning.
    pub fn get_token_loan_service_settings_list(&self) -> (r: Vec<(Vec<u8>, LoanServiceSettings)>)
        requires
            self.wf(),
        ensures
            forall|i: int|
                0 <= i < r@.len() ==> self@.settings.contains_key((#[trigger] r@[i]).0@)
                    && self@.settings[r@[i].0@] == r@[i].1@,
            forall|k: Seq<u8>|
                self@.settings.contains_key(k) ==> exists|i: int|
                    0 <= i < r@.len() && (#[trigger] r@[i]).0@ == k,
            forall|i: int, j: int|
                0 <= i < j < r@.len() ==> (#[trigger] r@[i]).0@ != (#[trigger] r@[j]).0@,
    {
        self.token_loan_service_settings.entries_list()
    }

    /// Whether a loan is in progress.
    pub fn is_ongoing_flash_loan(&self) -> (r: bool)
        ensures
            r == (self@.ongoing is Some),
    {
        self.ongoing_flash_loan.is_some()
    }

    /// Accepts one repayment while a loan is in progress: the payment
    /// must be the fungible instance (nonce zero) of the asset lent out,
    /// and its amount is added to the session's running total. Rejected
    /// repayments leave the state unchanged.
    pub fn accept_payback(&mut self, token_id: &Vec<u8>, amount: u64, nonce: u64) -> (r: Result<
        (),
        FlashMintError,
    >)
        requires
            old(self).wf(),
            match old(self)@.ongoing {
                Some(loan) => (nonce == 0 && loan.loan_token_id == token_id@)
                    ==> loan.payback_amount + amount <= u128::MAX,
                None => true,
            },
        ensures
            final(self).wf(),
            match spec_accept_payback_error(old(self)@, token_id@, nonce) {
                Some(e) => r == Err::<(), FlashMintError>(e) && final(self)@ == old(self)@,
                None => r == Ok::<(), FlashMintError>(()) && final(self)@ == spec_after_payback(
                    old(self)@,
                    amount,
                ),
            },
    {
        if self.ongoing_flash_loan.is_none() {
            return Err(FlashMintError::StateError(StateCause::LoanNotOngoing));
        }
        if nonce != 0 {
            return Err(FlashMintError::ValidationError(ValidationCause::NonFungibleInstance));
        }
        let token_matches = match &self.ongoing_flash_loan {
            Some(loan) => bytes_eq(loan.loan_token_id(), token_id),
            None => false,
        };
        if !token_matches {
            return Err(FlashMintError::ValidationError(ValidationCause::PaymentTokenMismatch));
        }
        if amount > 0 {
            match &mut self.ongoing_flash_loan {
                Some(loan) => loan.add_payback(amount),
                None => (),
            }
        }
        proof {
            assert(self@ =~= spec_after_payback(old(self)@, amount));
        }
        Ok(())
    }

    /// Validates a flash-loan request and opens the session. On success
    /// the returned call carries the principal to the target: the host
    /// mints `loan_amount` of the asset and dispatches the call, within
    /// the same unit of work. On failure nothing changes.
    pub fn flash_loan_request(
        &mut self,
        loan_token_id: Vec<u8>,
        loan_amount: u64,
        address: Vec<u8>,
        function: Vec<u8>,
        gas_limit: u64,
        arguments: Vec<Vec<u8>>,
        roles: LocalRoles,
    ) -> (r: Result<ScCall, FlashMintError>)
        requires
            old(self).wf(),
        ensures
            final(self).wf(),
            match spec_flash_loan_request_error(old(self)@, loan_token_id@, loan_amount, roles) {
                Some(e) => r == Err::<ScCall, FlashMintError>(e) && final(self)@ == old(self)@,
                None => {
                    &&& r matches Ok(c) && c@ == (ScCallView {
                        payment_token_id: loan_token_id@,
                        payment_amount: loan_amount as u128,
                        address: address@,
                        function: function@,
                        gas_limit,
                        arguments: arguments.deep_view(),
                    })
                    &&& final(self)@ == (ProviderView {
                        administrator: old(self)@.administrator,
                        settings: old(self)@.settings,
                        ongoing: Some(
                            OngoingLoanView { loan_token_id: loan_token_id@, payback_amount: 0 },
                        ),
                    })
                },
            },
    {
        if loan_amount == 0 {
            return Err(FlashMintError::ValidationError(ValidationCause::ZeroAmount));
        }
        let settings = match self.token_loan_service_settings.get(&loan_token_id) {
            Some(s) => s,
            None => {
                return Err(FlashMintError::ValidationError(ValidationCause::TokenNotConfigured));
            },
        };
        if loan_amount < settings.minimum_loan_amount() {
            return Err(FlashMintError::ValidationError(ValidationCause::BelowMinimum));
        }
        if loan_amount > settings.maximum_loan_amount() {
            return Err(FlashMintError::ValidationError(ValidationCause::AboveMaximum));
        }
        if let Err(e) = self.require_local_burn_and_mint_roles_set(roles) {
            return Err(e);
        }
        if self.is_ongoing_flash_loan() {
            return Err(FlashMintError::StateError(StateCause::LoanAlreadyOngoing));
        }
        let token_for_call = clone_bytes(&loan_token_id);
        self.ongoing_flash_loan = Some(OngoingLoan::new(loan_token_id));
        let call = ScCall::new(
            token_for_call,
            loan_amount as u128,
            address,
            function,
            gas_limit,
            arguments,
        );
        Ok(call)
    }

    /// Reads the accumulated repayment, enforces the repayment invariant,
    /// closes the session and builds the fee-forwarding call. On failure
    /// the session is left as it was, for the host to discard with the
    /// rest of the unit of work.
    pub fn flash_loan_settle(&mut self, loan_amount: u64, settings: &LoanServiceSettings) -> (r:
        Result<(u128, Option<ScCall>), FlashMintError>)
        requires
            old(self).wf(),
            settings@.fee_percent < PERCENT_BASE_PRECISION,
        ensures
            final(self).wf(),
            match old(self)@.ongoing {
                None => r == Err::<(u128, Option<ScCall>), FlashMintError>(
                    FlashMintError::StateError(StateCause::LoanNotOngoing),
                ) && final(self)@ == old(self)@,
                Some(loan) => if loan.payback_amount < spec_required_repayment(
                    loan_amount,
                    settings@.fee_percent,
                ) {
                    r == Err::<(u128, Option<ScCall>), FlashMintError>(
                        FlashMintError::InsufficientRepayment,
                    ) && final(self)@ == old(self)@
                } else {
                    &&& r matches Ok(out)
                    &&& out.0 == loan.payback_amount
                    &&& final(self)@ == (ProviderView {
                        administrator: old(self)@.administrator,
                        settings: old(self)@.settings,
                        ongoing: None::<OngoingLoanView>,
                    })
                    &&& (out.1 is Some <==> loan.payback_amount > loan_amount)
                    &&& (out.1 matches Some(c) ==> c@ == spec_fee_call(
                        loan.loan_token_id,
                        (loan.payback_amount - loan_amount) as u128,
                        settings@,
                    ))
                },
            },
    {
        let (received, token) = match &self.ongoing_flash_loan {
            None => {
                return Err(FlashMintError::StateError(StateCause::LoanNotOngoing));
            },
            Some(loan) => (loan.payback_amount(), clone_bytes(loan.loan_token_id())),
        };
        if let Err(e) = require_paid_back_loan(loan_amount, received, settings) {
            return Err(e);
        }
        proof {
            lemma_required_repayment_at_least_principal(loan_amount, settings@.fee_percent);
        }
        self.ongoing_flash_loan = None;
        let fee = received - (loan_amount as u128);
        let fee_call = send_fees(&token, fee, settings);
        Ok((received, fee_call))
    }
}

/// The total repayment a sequence of repayment calls contributes to a
/// loan in `loan_token_id`: rejected calls (a non-zero nonce or another
/// asset) contribute nothing.
pub open spec fn spec_paybacks_total(events: Seq<PaybackEvent>, loan_token_id: Seq<u8>) -> int
    decreases events.len(),
{
    if events.len() == 0 {
        0
    } else {
        spec_paybacks_total(events.drop_last(), loan_token_id) + (
        if events.last().nonce == 0 && events.last().token_id@ == loan_token_id {
            events.last().amount as int
        } else {
            0
        })
    }
}

/// The total repayment is nonnegative and at most one `u64` per call.
pub proof fn lemma_paybacks_total_bounds(events: Seq<PaybackEvent>, loan_token_id: Seq<u8>)
    ensures
        0 <= spec_paybacks_total(events, loan_token_id) <= events.len() * (u64::MAX as int),
    decreases events.len(),
{
    if events.len() == 0 {
    } else {
        lemma_paybacks_total_bounds(events.drop_last(), loan_token_id);
        assert((events.len() - 1) * (u64::MAX as int) + (u64::MAX as int) == events.len() * (
        u64::MAX as int)) by (nonlinear_arith);
    }
}

/// Why a whole flash loan fails, or nothing if it completes; the stages
/// run in this order: request validation, the external action, the
/// repayment invariant, the fee transfer.
pub open spec fn spec_flash_loan_error(
    state: ProviderView,
    loan_token_id: Seq<u8>,
    loan_amount: u64,
    roles: LocalRoles,
    report_paybacks: Seq<PaybackEvent>,
    report_completed: bool,
    fee_transfer_ok: bool,
) -> Option<FlashMintError> {
    match spec_flash_loan_request_error(state, loan_token_id, loan_amount, roles) {
        Some(e) => Some(e),
        None => if !report_completed {
            Some(FlashMintError::ExternalCallFailure)
        } else {
            let repaid = spec_paybacks_total(report_paybacks, loan_token_id);
            if repaid < spec_required_repayment(
                loan_amount,
                state.settings[loan_token_id].fee_percent,
            ) {
                Some(FlashMintError::InsufficientRepayment)
            } else if repaid > loan_amount && !fee_transfer_ok {
                Some(FlashMintError::ExternalCallFailure)
            } else {
                None
            }
        },
    }
}

impl FlashMintProvider {
    /// Runs one whole flash loan as a unit of work. The host's side is
    /// handed in as plain data: whether the dispatched action completed,
    /// the repayment calls it made while running, and whether the fee
    /// transfer would go through. The engine's state is never changed by
    /// a flash loan, completed or aborted: the session it opens is closed
    /// or discarded before the call returns, so the idle state always
    /// comes back (and a nested request fails fast while one is open).
    pub fn flash_loan(
        &mut self,
        loan_token_id: Vec<u8>,
        loan_amount: u64,
        address: Vec<u8>,
        function: Vec<u8>,
        gas_limit: u64,
        arguments: Vec<Vec<u8>>,
        roles: LocalRoles,
        report: &ExternalActionReport,
        fee_transfer_ok: bool,
    ) -> (r: Result<FlashLoanReceipt, FlashMintError>)
        requires
            old(self).wf(),
        ensures
            final(self).wf(),
            final(self)@ == old(self)@,
            match spec_flash_loan_error(
                old(self)@,
                loan_token_id@,
                loan_amount,
                roles,
                report.paybacks@,
                report.completed,
                fee_transfer_ok,
            ) {
                Some(e) => r == Err::<FlashLoanReceipt, FlashMintError>(e),
                None => {
                    &&& r matches Ok(receipt)
                    &&& receipt.sc_call@ == (ScCallView {
                        payment_token_id: loan_token_id@,
                        payment_amount: loan_amount as u128,
                        address: address@,
                        function: function@,
                        gas_limit,
                        arguments: arguments.deep_view(),
                    })
                    &&& receipt.repaid_amount == spec_paybacks_total(
                        report.paybacks@,
                        loan_token_id@,
                    )
                    &&& (receipt.fee_call is Some <==> receipt.repaid_amount > loan_amount)
                    &&& (receipt.fee_call matches Some(c) ==> c@ == spec_fee_call(
                        loan_token_id@,
                        (receipt.repaid_amount - loan_amount) as u128,
                        old(self)@.settings[loan_token_id@],
                    ))
                },
            },
    {
        let ghost pre = old(self)@;
        let ghost token_view = loan_token_id@;
        let token = clone_bytes(&loan_token_id);
        let maybe_settings = self.get_loan_service_settings(&token);
        let sc_call = match self.flash_loan_request(
            loan_token_id,
            loan_amount,
            address,
            function,
            gas_limit,
            arguments,
            roles,
        ) {
            Ok(c) => c,
            Err(e) => {
                return Err(e);
            },
        };
        proof {
            crate::config::lemma_stored_settings_valid(
                old(self).token_loan_service_settings,
                token_view,
            );
        }
        let settings = maybe_settings.unwrap();
        let mut i: usize = 0;
        while i < report.paybacks.len()
            invariant
                self.wf(),
                i <= report.paybacks@.len(),
                self@.administrator == pre.administrator,
                self@.settings == pre.settings,
                self@.ongoing == Some(
                    OngoingLoanView {
                        loan_token_id: token_view,
                        payback_amount: spec_paybacks_total(
                            report.paybacks@.take(i as int),
                            token_view,
                        ) as u128,
                    },
                ),
            decreases report.paybacks@.len() - i,
        {
            let ev = &report.paybacks[i];
            proof {
                let ghost taken = report.paybacks@.take(i as int);
                lemma_paybacks_total_bounds(taken, token_view);
                assert(taken.len() == i as int);
                assert((i as int) * (u64::MAX as int) + (u64::MAX as int) == ((i + 1) as int) * (
                u64::MAX as int)) by (nonlinear_arith);
                assert(((i + 1) as int) * (u64::MAX as int) <= u128::MAX as int)
                    by (nonlinear_arith)
                    requires
                        0 <= i + 1 <= 18446744073709551616int,
                ;
                assert(spec_paybacks_total(taken, token_view) + ev.amount <= u128::MAX as int);
            }
            let _ = self.accept_payback(&ev.token_id, ev.amount, ev.nonce);
            proof {
                assert(report.paybacks@.take(i + 1).drop_last() =~= report.paybacks@.take(
                    i as int,
                ));
                assert(report.paybacks@.take(i + 1).last() == report.paybacks@[i as int]);
            }
            i = i + 1;
        }
        proof {
            assert(report.paybacks@.take(report.paybacks@.len() as int) =~= report.paybacks@);
            lemma_paybacks_total_bounds(report.paybacks@, token_view);
            assert((report.paybacks@.len() as int) * (u64::MAX as int) <= u128::MAX as int)
                by (nonlinear_arith)
                requires
                    0 <= report.paybacks@.len() <= 18446744073709551616int,
            ;
        }
        if !report.completed {
            self.ongoing_flash_loan = None;
            proof {
                assert(self@ =~= pre);
            }
            return Err(FlashMintError::ExternalCallFailure);
        }
        match self.flash_loan_settle(loan_amount, &settings) {
            Err(e) => {
                self.ongoing_flash_loan = None;
                proof {
                    assert(self@ =~= pre);
                }
                Err(e)
            },
            Ok((repaid, fee_call)) => {
                proof {
                    assert(self@ =~= pre);
                }
                if fee_call.is_some() && !fee_transfer_ok {
                    return Err(FlashMintError::ExternalCallFailure);
                }
                Ok(FlashLoanReceipt { sc_call, repaid_amount: repaid, fee_call })
            },
        }
    }
}

/// Law: terms stored by a successful configuration call are found
/// unchanged by a lookup of the same asset, and the asset counts as
/// configured.
pub proof fn lemma_configure_then_get(
    settings: Map<Seq<u8>, LoanServiceSettingsView>,
    token_id: Seq<u8>,
    terms: LoanServiceSettingsView,
)
    ensures
        settings.insert(token_id, terms).contains_key(token_id),
        settings.insert(token_id, terms)[token_id] == terms,
{
}

/// Law: after a removal, a lookup of the same asset finds nothing.
pub proof fn lemma_remove_then_get(
    settings: Map<Seq<u8>, LoanServiceSettingsView>,
    token_id: Seq<u8>,
)
    ensures
        !settings.remove(token_id).contains_key(token_id),
{
}

/// Law: repayments accumulate across calls. Two repayments of the loan's
/// asset with nonce zero are both accepted, and together they raise the
/// session's running total by exactly their sum.
pub proof fn lemma_payback_accumulates(
    state: ProviderView,
    token_id: Seq<u8>,
    first: u64,
    second: u64,
)
    requires
        state.ongoing matches Some(loan) && loan.loan_token_id == token_id
            && loan.payback_amount + first + second <= u128::MAX,
    ensures
        spec_accept_payback_error(state, token_id, 0) is None,
        spec_accept_payback_error(spec_after_payback(state, first), token_id, 0) is None,
        state.ongoing matches Some(loan) ==> spec_after_payback(
            spec_after_payback(state, first),
            second,
        ).ongoing == Some(
            OngoingLoanView {
                loan_token_id: loan.loan_token_id,
                payback_amount: (loan.payback_amount + first + second) as u128,
            },
        ),
{
}

} // verus!
