//! The record of a fraud check and the changes that the store makes to it.

use vstd::prelude::*;
use crate::records::CaptureMethod;
use crate::records::Records;

verus! {

/// What is known of a payment under check.
#[derive(Clone, Copy, Debug, PartialEq, Eq, Structural)]
pub enum FraudCheckStatus {
    Fraud,
    ManualReview,
    Pending,
    Legit,
    TransactionFailure,
}

/// The last call to the fraud service that a check completed.
#[derive(Clone, Copy, Debug, PartialEq, Eq, Structural)]
pub enum FraudCheckLastStep {
    Processing,
    CheckoutOrSale,
    TransactionOrRecordRefund,
    Fulfillment,
}

/// Whether a check runs before or after the payment is authorised.
#[derive(Clone, Copy, Debug, PartialEq, Eq, Structural)]
pub enum FraudCheckType {
    PreFrm,
    PostFrm,
}

/// What the check asks the payment flow to do.
#[derive(Clone, Copy, Debug, PartialEq, Eq, Structural)]
pub enum FrmSuggestion {
    FrmCancelTransaction,
    FrmManualReview,
    FrmAuthorizeTransaction,
}

/// A fraud check as the store keeps it.
pub struct FraudCheck<R: Records> {
    pub frm_id: String,
    pub payment_id: String,
    pub merchant_id: String,
    pub attempt_id: String,
    pub created_at: R::Timestamp,
    pub frm_name: String,
    pub frm_transaction_id: Option<String>,
    pub frm_transaction_type: FraudCheckType,
    pub frm_status: FraudCheckStatus,
    pub frm_score: Option<i32>,
    pub frm_reason: Option<serde_json::Value>,
    pub frm_error: Option<String>,
    pub payment_details: Option<serde_json::Value>,
    pub metadata: Option<serde_json::Value>,
    pub modified_at: R::Timestamp,
    pub last_step: FraudCheckLastStep,
    pub payment_capture_method: Option<CaptureMethod>,
}

/// A fraud check that the store is asked to keep.
pub struct FraudCheckNew<R: Records> {
    pub frm_id: String,
    pub payment_id: String,
    pub merchant_id: String,
    pub attempt_id: String,
    pub created_at: R::Timestamp,
    pub frm_name: String,
    pub frm_transaction_id: Option<String>,
    pub frm_transaction_type: FraudCheckType,
    pub frm_status: FraudCheckStatus,
    pub frm_score: Option<i32>,
    pub frm_reason: Option<serde_json::Value>,
    pub frm_error: Option<String>,
    pub payment_details: Option<serde_json::Value>,
    pub metadata: Option<serde_json::Value>,
    pub modified_at: R::Timestamp,
    pub last_step: FraudCheckLastStep,
    pub payment_capture_method: Option<CaptureMethod>,
}

/// A change to a fraud check that the store is asked to make.
pub enum FraudCheckUpdate<R: Records> {
    ResponseUpdate {
        frm_status: FraudCheckStatus,
        frm_transaction_id: Option<String>,
        frm_reason: Option<serde_json::Value>,
        frm_score: Option<i32>,
        metadata: Option<serde_json::Value>,
        modified_at: R::Timestamp,
        last_step: FraudCheckLastStep,
        payment_capture_method: Option<CaptureMethod>,
    },
    ErrorUpdate { status: FraudCheckStatus, error_message: Option<Option<String>> },
}

/// A [`FraudCheckUpdate`] with its texts as sequences of characters.
pub ghost enum FraudCheckUpdateView<R: Records> {
    ResponseUpdate {
        frm_status: FraudCheckStatus,
        frm_transaction_id: Option<Seq<char>>,
        frm_reason: Option<serde_json::Value>,
        frm_score: Option<i32>,
        metadata: Option<serde_json::Value>,
        modified_at: R::Timestamp,
        last_step: FraudCheckLastStep,
        payment_capture_method: Option<CaptureMethod>,
    },
    ErrorUpdate { status: FraudCheckStatus, error_message: Option<Option<Seq<char>>> },
}

/// The characters of a text that may be absent.
pub open spec fn text_view(text: Option<String>) -> Option<Seq<char>> {
    match text {
        Some(text) => Some(text@),
        None => None,
    }
}

impl<R: Records> View for FraudCheckUpdate<R> {
    type V = FraudCheckUpdateView<R>;

    open spec fn view(&self) -> FraudCheckUpdateView<R> {
        match *self {
            FraudCheckUpdate::ResponseUpdate {
                frm_status,
                frm_transaction_id,
                frm_reason,
                frm_score,
                metadata,
                modified_at,
                last_step,
                payment_capture_method,
            } => FraudCheckUpdateView::ResponseUpdate {
                frm_status,
                frm_transaction_id: text_view(frm_transaction_id),
                frm_reason,
                frm_score,
                metadata,
                modified_at,
                last_step,
                payment_capture_method,
            },
            FraudCheckUpdate::ErrorUpdate { status, error_message } =>
                FraudCheckUpdateView::ErrorUpdate {
                status,
                error_message: match error_message {
                    Some(message) => Some(text_view(message)),
                    None => None,
                },
            },
        }
    }
}

impl<R: Records> Clone for FraudCheck<R> {
    fn clone(&self) -> (copy: Self)
        ensures
            copy == *self,
    {
        FraudCheck {
            frm_id: self.frm_id.clone(),
            payment_id: self.payment_id.clone(),
            merchant_id: self.merchant_id.clone(),
            attempt_id: self.attempt_id.clone(),
            created_at: self.created_at,
            frm_name: self.frm_name.clone(),
            frm_transaction_id: self.frm_transaction_id.clone(),
            frm_transaction_type: self.frm_transaction_type,
            frm_status: self.frm_status,
            frm_score: self.frm_score,
            frm_reason: self.frm_reason.clone(),
            frm_error: self.frm_error.clone(),
            payment_details: self.payment_details.clone(),
            metadata: self.metadata.clone(),
            modified_at: self.modified_at,
            last_step: self.last_step,
            payment_capture_method: self.payment_capture_method,
        }
    }
}

} // verus!
