//! Per-asset loan terms.
//!
//! Terms are created and updated only through the configuration endpoint,
//! which enforces their invariant: the minimum does not exceed the
//! maximum, the maximum is positive, and the fee rate stays below the
//! parts-per-thousand base.

use vstd::prelude::*;

use crate::bytes::clone_bytes;

verus! {

/// The fixed base of the fee rate: fees are expressed in parts per
/// thousand of the principal.
pub const PERCENT_BASE_PRECISION: u64 = 1000;

/// The loan terms configured for one asset.
pub struct LoanServiceSettings {
    minimum_loan_amount: u64,
    maximum_loan_amount: u64,
    fee_percent: u64,
    fee_transfer_gas_limit: u64,
    fee_destination_addr: Vec<u8>,
    fee_destination_func: Vec<u8>,
}

/// The mathematical value of [`LoanServiceSettings`].
#[verifier::ext_equal]
pub ghost struct LoanServiceSettingsView {
    pub minimum_loan_amount: u64,
    pub maximum_loan_amount: u64,
    pub fee_percent: u64,
    pub fee_transfer_gas_limit: u64,
    pub fee_destination_addr: Seq<u8>,
    pub fee_destination_func: Seq<u8>,
}

impl View for LoanServiceSettings {
    type V = LoanServiceSettingsView;

    closed spec fn view(&self) -> LoanServiceSettingsView {
        LoanServiceSettingsView {
            minimum_loan_amount: self.minimum_loan_amount,
            maximum_loan_amount: self.maximum_loan_amount,
            fee_percent: self.fee_percent,
            fee_transfer_gas_limit: self.fee_transfer_gas_limit,
            fee_destination_addr: self.fee_destination_addr@,
            fee_destination_func: self.fee_destination_func@,
        }
    }
}

/// The invariant every stored set of terms satisfies.
pub open spec fn spec_valid_settings(s: LoanServiceSettingsView) -> bool {
    &&& s.minimum_loan_amount <= s.maximum_loan_amount
    &&& s.maximum_loan_amount > 0
    &&& s.fee_percent < PERCENT_BASE_PRECISION
}

impl LoanServiceSettings {
    /// Builds a record of loan terms from its parts.
    pub fn new(
        minimum_loan_amount: u64,
        maximum_loan_amount: u64,
        fee_percent: u64,
        fee_transfer_gas_limit: u64,
        fee_destination_addr: Vec<u8>,
        fee_destination_func: Vec<u8>,
    ) -> (r: Self)
        ensures
            r@ == (LoanServiceSettingsView {
                minimum_loan_amount,
                maximum_loan_amount,
                fee_percent,
                fee_transfer_gas_limit,
                fee_destination_addr: fee_destination_addr@,
                fee_destination_func: fee_destination_func@,
            }),
    {
        LoanServiceSettings {
            minimum_loan_amount,
            maximum_loan_amount,
            fee_percent,
            fee_transfer_gas_limit,
            fee_destination_addr,
            fee_destination_func,
        }
    }

    /// The smallest amount that may be borrowed.
    pub fn minimum_loan_amount(&self) -> (r: u64)
        ensures
            r == self@.minimum_loan_amount,
    {
        self.minimum_loan_amount
    }

    /// The largest amount that may be borrowed.
    pub fn maximum_loan_amount(&self) -> (r: u64)
        ensures
            r == self@.maximum_loan_amount,
    {
        self.maximum_loan_amount
    }

    /// The fee rate in parts per thousand of the principal.
    pub fn fee_percent(&self) -> (r: u64)
        ensures
            r == self@.fee_percent,
    {
        self.fee_percent
    }

    /// The gas budget attached to the fee transfer.
    pub fn fee_transfer_gas_limit(&self) -> (r: u64)
        ensures
            r == self@.fee_transfer_gas_limit,
    {
        self.fee_transfer_gas_limit
    }

    /// The account the fee is forwarded to.
    pub fn fee_destination_addr(&self) -> (r: &Vec<u8>)
        ensures
            r@ == self@.fee_destination_addr,
    {
        &self.fee_destination_addr
    }

    /// The function invoked on the fee destination.
    pub fn fee_destination_func(&self) -> (r: &Vec<u8>)
        ensures
            r@ == self@.fee_destination_func,
    {
        &self.fee_destination_func
    }
}

impl Clone for LoanServiceSettings {
    /// Clones the terms; the copy has the same mathematical value.
    fn clone(&self) -> (r: Self)
        ensures
            r@ == self@,
    {
        let r = LoanServiceSettings {
            minimum_loan_amount: self.minimum_loan_amount,
            maximum_loan_amount: self.maximum_loan_amount,
            fee_percent: self.fee_percent,
            fee_transfer_gas_limit: self.fee_transfer_gas_limit,
            fee_destination_addr: clone_bytes(&self.fee_destination_addr),
            fee_destination_func: clone_bytes(&self.fee_destination_func),
        };
        proof {
            assert(r@ =~= self@);
        }
        r
    }
}

impl PartialEq for LoanServiceSettings {
    fn eq(&self, other: &Self) -> (r: bool) {
        let r = self.minimum_loan_amount == other.minimum_loan_amount
            && self.maximum_loan_amount == other.maximum_loan_amount
            && self.fee_percent == other.fee_percent
            && self.fee_transfer_gas_limit == other.fee_transfer_gas_limit
            && self.fee_destination_addr == other.fee_destination_addr
            && self.fee_destination_func == other.fee_destination_func;
        proof {
            if r {
                assert(self.fee_destination_addr@ =~= other.fee_destination_addr@);
                assert(self.fee_destination_func@ =~= other.fee_destination_func@);
                assert(self@ =~= other@);
            } else {
                assert(self@ != other@);
            }
        }
        r
    }
}

impl vstd::std_specs::cmp::PartialEqSpecImpl for LoanServiceSettings {
    open spec fn obeys_eq_spec() -> bool {
        true
    }

    open spec fn eq_spec(&self, other: &Self) -> bool {
        self@ == other@
    }
}

} // verus!
