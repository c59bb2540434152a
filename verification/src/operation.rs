//! The operation that checks a payment after it was authorised.

use vstd::prelude::*;

verus! {

/// The fraud check that runs after a payment was authorised.
#[derive(Clone, Copy, Debug)]
pub struct FraudCheckPost;

/// The errors with which the check answers its caller.
#[derive(Clone, Copy, Debug, PartialEq, Eq, Structural)]
pub enum ApiErrorResponse {
    PaymentNotFound,
}

impl FraudCheckPost {
    /// The part that finds or makes the record of a check: the operation itself.
    pub fn to_get_tracker(&self) -> (tracker: Result<&FraudCheckPost, ApiErrorResponse>)
        ensures
            tracker == Ok::<&FraudCheckPost, ApiErrorResponse>(self),
    {
        Ok(self)
    }

    /// The part that talks to the fraud service and to the payment core: the operation itself.
    pub fn to_domain(&self) -> (domain: Result<&FraudCheckPost, ApiErrorResponse>)
        ensures
            domain == Ok::<&FraudCheckPost, ApiErrorResponse>(self),
    {
        Ok(self)
    }

    /// The part that stores the outcome of a check: the operation itself.
    pub fn to_update_tracker(&self) -> (tracker: Result<&FraudCheckPost, ApiErrorResponse>)
        ensures
            tracker == Ok::<&FraudCheckPost, ApiErrorResponse>(self),
    {
        Ok(self)
    }
}

} // verus!
