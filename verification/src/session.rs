//! The single loan-session slot.
//!
//! At most one [`OngoingLoan`] exists at a time; its existence is the
//! "loan in progress" flag, and its absence means idle. It is created
//! when a flash loan is issued, accumulated by repayment callbacks while
//! the external action runs, read once afterwards, and destroyed before
//! the request completes.

use vstd::prelude::*;

verus! {

/// The record of one loan in progress: the asset lent out and how much
/// has been repaid so far.
pub struct OngoingLoan {
    loan_token_id: Vec<u8>,
    payback_amount: u128,
}

/// The mathematical value of [`OngoingLoan`].
#[verifier::ext_equal]
pub ghost struct OngoingLoanView {
    pub loan_token_id: Seq<u8>,
    pub payback_amount: u128,
}

impl View for OngoingLoan {
    type V = OngoingLoanView;

    closed spec fn view(&self) -> OngoingLoanView {
        OngoingLoanView {
            loan_token_id: self.loan_token_id@,
            payback_amount: self.payback_amount,
        }
    }
}

impl OngoingLoan {
    /// Opens a session for `loan_token_id` with nothing repaid yet.
    pub fn new(loan_token_id: Vec<u8>) -> (r: Self)
        ensures
            r@ == (OngoingLoanView { loan_token_id: loan_token_id@, payback_amount: 0 }),
    {
        OngoingLoan { loan_token_id, payback_amount: 0 }
    }

    /// The asset the loan was issued in.
    pub fn loan_token_id(&self) -> (r: &Vec<u8>)
        ensures
            r@ == self@.loan_token_id,
    {
        &self.loan_token_id
    }

    /// The repayment accumulated so far.
    pub fn payback_amount(&self) -> (r: u128)
        ensures
            r == self@.payback_amount,
    {
        self.payback_amount
    }

    /// Adds one repayment to the running total.
    pub fn add_payback(&mut self, amount: u64)
        requires
            old(self)@.payback_amount + amount <= u128::MAX,
        ensures
            final(self)@ == (OngoingLoanView {
                loan_token_id: old(self)@.loan_token_id,
                payback_amount: (old(self)@.payback_amount + amount) as u128,
            }),
    {
        self.payback_amount = self.payback_amount + amount as u128;
    }
}

} // verus!
