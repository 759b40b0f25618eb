//! The transient description of one outgoing contract call.
//!
//! The engine never dispatches anything itself: it hands the host a
//! [`ScCall`] naming the target account and function, the attached asset
//! and amount, the gas budget and the ordered arguments, and the host
//! performs it within the same unit of work.

use vstd::prelude::*;

verus! {

/// One outgoing contract call, constructed per request and never stored.
pub struct ScCall {
    payment_token_id: Vec<u8>,
    payment_amount: u128,
    address: Vec<u8>,
    function: Vec<u8>,
    gas_limit: u64,
    arguments: Vec<Vec<u8>>,
}

/// The mathematical value of [`ScCall`].
#[verifier::ext_equal]
pub ghost struct ScCallView {
    pub payment_token_id: Seq<u8>,
    pub payment_amount: u128,
    pub address: Seq<u8>,
    pub function: Seq<u8>,
    pub gas_limit: u64,
    pub arguments: Seq<Seq<u8>>,
}

impl View for ScCall {
    type V = ScCallView;

    closed spec fn view(&self) -> ScCallView {
        ScCallView {
            payment_token_id: self.payment_token_id@,
            payment_amount: self.payment_amount,
            address: self.address@,
            function: self.function@,
            gas_limit: self.gas_limit,
            arguments: self.arguments.deep_view(),
        }
    }
}

impl ScCall {
    /// Builds a call description from its parts.
    pub fn new(
        payment_token_id: Vec<u8>,
        payment_amount: u128,
        address: Vec<u8>,
        function: Vec<u8>,
        gas_limit: u64,
        arguments: Vec<Vec<u8>>,
    ) -> (r: Self)
        ensures
            r@ == (ScCallView {
                payment_token_id: payment_token_id@,
                payment_amount,
                address: address@,
                function: function@,
                gas_limit,
                arguments: arguments.deep_view(),
            }),
    {
        ScCall { payment_token_id, payment_amount, address, function, gas_limit, arguments }
    }

    /// The asset attached to the call.
    pub fn payment_token_id(&self) -> (r: &Vec<u8>)
        ensures
            r@ == self@.payment_token_id,
    {
        &self.payment_token_id
    }

    /// The amount of the attached asset.
    pub fn payment_amount(&self) -> (r: u128)
        ensures
            r == self@.payment_amount,
    {
        self.payment_amount
    }

    /// The account the call targets.
    pub fn address(&self) -> (r: &Vec<u8>)
        ensures
            r@ == self@.address,
    {
        &self.address
    }

    /// The function invoked on the target account.
    pub fn function(&self) -> (r: &Vec<u8>)
        ensures
            r@ == self@.function,
    {
        &self.function
    }

    /// The gas budget of the call.
    pub fn gas_limit(&self) -> (r: u64)
        ensures
            r == self@.gas_limit,
    {
        self.gas_limit
    }

    /// The ordered byte-string arguments of the call.
    pub fn arguments(&self) -> (r: &Vec<Vec<u8>>)
        ensures
            r.deep_view() == self@.arguments,
    {
        &self.arguments
    }
}

} // verus!
