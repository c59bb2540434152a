//! The values of the payment platform that the check reads or carries.

use std::sync::Arc;
use vstd::prelude::*;
use crate::outside::share;

verus! {

/// The types of the platform whose values the check carries without reading them.
pub trait Records {
    /// What a payment intent holds besides its id and status.
    type Intent;

    /// What a payment attempt holds besides its id and capture method.
    type Attempt;

    /// What a merchant account holds besides its id and storage scheme.
    type Merchant;

    /// What a running payment flow holds besides the intent and the attempt.
    type Payment;

    /// Addresses of a payment.
    type Address;

    /// Details of the connector that processed the payment.
    type ConnectorDetails;

    /// The ordered goods, where the payment names them.
    type OrderDetails;

    /// Metadata that the merchant gave for the fraud check.
    type FrmMetadata;

    /// A refund.
    type Refund;

    /// A currency, where the payment has one.
    type Currency;

    /// An e-mail address, where the payment has one.
    type Email;

    /// A request to the fraud service other than a sale.
    type OtherRequest;

    /// What an error of the fraud service holds besides its message.
    type ErrorDetails;

    /// Credentials of a connector account.
    type MerchantConnectorDetails;

    /// A point in time.
    type Timestamp: Copy;

    /// Why a value could not be encoded as JSON.
    type EncodeError;

    /// Why the store refused.
    type StorageError;

    /// Why the payment core or the fraud service refused.
    type Error;
}

/// How the money of a payment is captured.
#[derive(Clone, Copy, Debug, PartialEq, Eq, Structural)]
pub enum CaptureMethod {
    Automatic,
    Manual,
    ManualMultiple,
    Scheduled,
    SequentialAutomatic,
}

/// Where a merchant's records are kept.
#[derive(Clone, Copy, Debug, PartialEq, Eq, Structural)]
pub enum MerchantStorageScheme {
    PostgresOnly,
    RedisKv,
}

/// The state of a payment intent. Those that the check never sets are told apart by their label.
#[derive(Debug, PartialEq, Eq)]
pub enum IntentStatus {
    Failed,
    RequiresMerchantAction,
    RequiresCapture,
    Other(String),
}

/// The states that the check gives to a payment attempt.
#[derive(Clone, Copy, Debug, PartialEq, Eq, Structural)]
pub enum AttemptStatus {
    Failure,
    Unresolved,
    Authorized,
}

/// A payment intent.
pub struct PaymentIntent<R: Records> {
    pub payment_id: String,
    pub status: IntentStatus,
    pub record: Arc<R::Intent>,
}

/// One attempt at a payment.
pub struct PaymentAttempt<R: Records> {
    pub attempt_id: String,
    pub capture_method: Option<CaptureMethod>,
    pub record: Arc<R::Attempt>,
}

/// The account of a merchant.
pub struct MerchantAccount<R: Records> {
    pub merchant_id: String,
    pub storage_scheme: MerchantStorageScheme,
    pub record: Arc<R::Merchant>,
}

impl Clone for IntentStatus {
    fn clone(&self) -> (copy: Self)
        ensures
            copy == *self,
    {
        match self {
            IntentStatus::Failed => IntentStatus::Failed,
            IntentStatus::RequiresMerchantAction => IntentStatus::RequiresMerchantAction,
            IntentStatus::RequiresCapture => IntentStatus::RequiresCapture,
            IntentStatus::Other(label) => IntentStatus::Other(label.clone()),
        }
    }
}

impl<R: Records> Clone for PaymentIntent<R> {
    fn clone(&self) -> (copy: Self)
        ensures
            copy == *self,
    {
        PaymentIntent {
            payment_id: self.payment_id.clone(),
            status: self.status.clone(),
            record: share(&self.record),
        }
    }
}

impl<R: Records> Clone for PaymentAttempt<R> {
    fn clone(&self) -> (copy: Self)
        ensures
            copy == *self,
    {
        PaymentAttempt {
            attempt_id: self.attempt_id.clone(),
            capture_method: self.capture_method,
            record: share(&self.record),
        }
    }
}

impl<R: Records> Clone for MerchantAccount<R> {
    fn clone(&self) -> (copy: Self)
        ensures
            copy == *self,
    {
        MerchantAccount {
            merchant_id: self.merchant_id.clone(),
            storage_scheme: self.storage_scheme,
            record: share(&self.record),
        }
    }
}

} // verus!
