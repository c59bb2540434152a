//! The payment under check, and what the payment core and the store are asked to do with it.

use std::sync::Arc;
use vstd::prelude::*;
use crate::outside::share;
use crate::records::AttemptStatus;
use crate::records::IntentStatus;
use crate::records::MerchantStorageScheme;
use crate::records::PaymentAttempt;
use crate::records::PaymentIntent;
use crate::records::Records;

verus! {

/// The payment as the running payment flow sees it.
pub struct PaymentData<R: Records> {
    pub payment_intent: PaymentIntent<R>,
    pub payment_attempt: PaymentAttempt<R>,
    pub record: Arc<R::Payment>,
}

impl<R: Records> PaymentData<R> {
    /// The same payment with another intent status.
    pub open spec fn with_intent_status(self, status: IntentStatus) -> PaymentData<R> {
        PaymentData { payment_intent: PaymentIntent { status, ..self.payment_intent }, ..self }
    }

    /// Replaces the attempt.
    pub fn set_payment_attempt(&mut self, payment_attempt: PaymentAttempt<R>)
        ensures
            *final(self) == (PaymentData { payment_attempt, ..*old(self) }),
    {
        self.payment_attempt = payment_attempt;
    }

    /// Replaces the intent.
    pub fn set_payment_intent(&mut self, payment_intent: PaymentIntent<R>)
        ensures
            *final(self) == (PaymentData { payment_intent, ..*old(self) }),
    {
        self.payment_intent = payment_intent;
    }

    /// Replaces the status of the intent.
    pub fn set_payment_intent_status(&mut self, status: IntentStatus)
        ensures
            *final(self) == old(self).with_intent_status(status),
    {
        self.payment_intent.status = status;
    }
}

impl<R: Records> Clone for PaymentData<R> {
    fn clone(&self) -> (copy: Self)
        ensures
            copy == *self,
    {
        PaymentData {
            payment_intent: self.payment_intent.clone(),
            payment_attempt: self.payment_attempt.clone(),
            record: share(&self.record),
        }
    }
}

/// Asks for a payment to be cancelled.
pub struct PaymentsCancelRequest<R: Records> {
    pub payment_id: String,
    pub cancellation_reason: Option<String>,
    pub merchant_connector_details: Option<R::MerchantConnectorDetails>,
}

/// Asks for the money of a payment to be captured.
pub struct PaymentsCaptureRequest<R: Records> {
    pub payment_id: String,
    pub merchant_id: Option<String>,
    pub amount_to_capture: Option<i64>,
    pub refund_uncaptured_amount: Option<bool>,
    pub statement_descriptor_suffix: Option<String>,
    pub statement_descriptor_prefix: Option<String>,
    pub merchant_connector_details: Option<R::MerchantConnectorDetails>,
}

/// The operations that the check asks of the payment core.
#[derive(Clone, Copy, Debug, PartialEq, Eq, Structural)]
pub enum PaymentOperation {
    PaymentCancel,
    PaymentCapture,
}

/// In whose name the payment core works.
#[derive(Clone, Copy, Debug, PartialEq, Eq, Structural)]
pub enum AuthFlow {
    Client,
    Merchant,
}

/// Whether the payment core calls the connector.
#[derive(Clone, Copy, Debug, PartialEq, Eq, Structural)]
pub enum CallConnectorAction {
    Trigger,
    Avoid,
}

/// The headers that accompany a call to the payment core.
#[derive(Clone, Copy, Debug, PartialEq, Eq, Structural)]
pub enum HeaderPayload {
    Default,
}

/// A call to the payment core.
pub struct PaymentsCoreCall<Q> {
    pub profile_id: Option<String>,
    pub operation: PaymentOperation,
    pub request: Q,
    pub auth_flow: AuthFlow,
    pub call_connector_action: CallConnectorAction,
    pub eligible_connectors: Option<Vec<String>>,
    pub header_payload: HeaderPayload,
}

/// A payment as the payment core reports it.
pub struct PaymentsResponse {
    pub status: IntentStatus,
}

/// What the payment core answers.
pub enum ApplicationResponse {
    JsonWithHeaders(PaymentsResponse),
    Other,
}

/// A change to a payment attempt that the store is asked to make.
pub enum PaymentAttemptUpdate {
    RejectUpdate {
        status: AttemptStatus,
        error_code: Option<Option<String>>,
        error_message: Option<Option<String>>,
        updated_by: String,
    },
}

/// A change to a payment intent that the store is asked to make.
pub enum PaymentIntentUpdate {
    RejectUpdate {
        status: IntentStatus,
        merchant_decision: Option<String>,
        updated_by: String,
    },
}

/// Asks the store to change a payment attempt.
pub struct AttemptCall<R: Records> {
    pub this: PaymentAttempt<R>,
    pub payment_attempt: PaymentAttemptUpdate,
    pub storage_scheme: MerchantStorageScheme,
}

/// Asks the store to change a payment intent.
pub struct IntentCall<R: Records> {
    pub this: PaymentIntent<R>,
    pub payment_intent: PaymentIntentUpdate,
    pub storage_scheme: MerchantStorageScheme,
}

} // verus!
