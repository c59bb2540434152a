//! What passes between the payment flow, the check and the fraud service.

use std::sync::Arc;
use vstd::prelude::*;
use crate::fraud_check::FraudCheck;
use crate::fraud_check::FraudCheckLastStep;
use crate::fraud_check::FraudCheckStatus;
use crate::outside::share;
use crate::payments::PaymentData;
use crate::records::MerchantAccount;
use crate::records::PaymentAttempt;
use crate::records::PaymentIntent;
use crate::records::Records;

verus! {

/// The payment that is to be checked.
pub struct PaymentToFrmData<R: Records> {
    pub payment_intent: PaymentIntent<R>,
    pub payment_attempt: PaymentAttempt<R>,
    pub merchant_account: MerchantAccount<R>,
    pub address: Arc<R::Address>,
    pub connector_details: Arc<R::ConnectorDetails>,
    pub order_details: Arc<R::OrderDetails>,
    pub frm_metadata: Arc<R::FrmMetadata>,
}

/// The fraud service that a merchant has configured.
pub struct ConnectorDetailsCore {
    pub connector_name: String,
}

/// A payment together with its fraud check.
pub struct FrmData<R: Records> {
    pub payment_intent: PaymentIntent<R>,
    pub payment_attempt: PaymentAttempt<R>,
    pub merchant_account: MerchantAccount<R>,
    pub address: Arc<R::Address>,
    pub fraud_check: FraudCheck<R>,
    pub connector_details: Arc<R::ConnectorDetails>,
    pub order_details: Arc<R::OrderDetails>,
    pub refund: Option<Arc<R::Refund>>,
    pub frm_metadata: Arc<R::FrmMetadata>,
}

impl<R: Records> FrmData<R> {
    /// The same data with another fraud check.
    pub open spec fn with_fraud_check(self, fraud_check: FraudCheck<R>) -> FrmData<R> {
        FrmData { fraud_check, ..self }
    }

    /// The same data after another call to the fraud service.
    pub open spec fn with_last_step(self, last_step: FraudCheckLastStep) -> FrmData<R> {
        self.with_fraud_check(FraudCheck { last_step, ..self.fraud_check })
    }
}

impl<R: Records> Clone for FrmData<R> {
    fn clone(&self) -> (copy: Self)
        ensures
            copy == *self,
    {
        FrmData {
            payment_intent: self.payment_intent.clone(),
            payment_attempt: self.payment_attempt.clone(),
            merchant_account: self.merchant_account.clone(),
            address: share(&self.address),
            fraud_check: self.fraud_check.clone(),
            connector_details: share(&self.connector_details),
            order_details: share(&self.order_details),
            refund: match &self.refund {
                Some(refund) => Some(share(refund)),
                None => None,
            },
            frm_metadata: share(&self.frm_metadata),
        }
    }
}

/// How the fraud service refers to the transaction it was told of.
pub enum ResponseId {
    NoResponseId,
    ConnectorTransactionId(String),
    EncodedData(String),
}

/// An answer of the fraud service.
pub enum FraudCheckResponseData {
    TransactionResponse {
        resource_id: ResponseId,
        connector_metadata: Option<serde_json::Value>,
        status: FraudCheckStatus,
        reason: Option<serde_json::Value>,
        score: Option<i32>,
    },
    RecordReturnResponse {
        resource_id: ResponseId,
        connector_metadata: Option<serde_json::Value>,
        return_id: Option<String>,
    },
    FulfillmentResponse { order_id: String, shipment_ids: Vec<String> },
}

/// An error that the fraud service answered.
pub struct ErrorResponse<R: Records> {
    pub message: String,
    pub details: R::ErrorDetails,
}

/// An answer of the fraud service, by the flow that asked for it.
pub enum FrmResponse<R: Records> {
    Sale(Result<FraudCheckResponseData, ErrorResponse<R>>),
    Checkout(Result<FraudCheckResponseData, ErrorResponse<R>>),
    Transaction(Result<FraudCheckResponseData, ErrorResponse<R>>),
    Fulfillment(Result<FraudCheckResponseData, ErrorResponse<R>>),
    RecordReturn(Result<FraudCheckResponseData, ErrorResponse<R>>),
}

/// What the fraud service is told of a sale.
pub struct FraudCheckSaleData<R: Records> {
    pub amount: i64,
    pub order_details: R::OrderDetails,
    pub currency: R::Currency,
    pub email: R::Email,
}

/// A request to the fraud service.
pub enum FrmRequest<R: Records> {
    Sale(FraudCheckSaleData<R>),
    Other(R::OtherRequest),
}

/// A sale as the fraud service hands it back, with its answer.
pub struct SaleRouterData<R: Records> {
    pub merchant_id: String,
    pub connector: String,
    pub payment_id: String,
    pub attempt_id: String,
    pub request: FraudCheckSaleData<R>,
    pub response: Result<FraudCheckResponseData, ErrorResponse<R>>,
}

/// A request to the fraud service with its answer.
pub struct FrmRouterData<R: Records> {
    pub merchant_id: String,
    pub connector: String,
    pub payment_id: String,
    pub attempt_id: String,
    pub request: FrmRequest<R>,
    pub response: FrmResponse<R>,
}

/// The flows in which the check calls the fraud service.
#[derive(Clone, Copy, Debug, PartialEq, Eq, Structural)]
pub enum FrmFlow {
    Sale,
    RecordReturn,
}

/// A call to the fraud service. The service works on a copy of the data under check.
pub struct ServiceCall<R: Records> {
    pub flow: FrmFlow,
    pub payment_data: PaymentData<R>,
    pub frm_data: FrmData<R>,
}

} // verus!
