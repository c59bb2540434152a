//! Finding or making the record of a check.

use vstd::prelude::*;
use crate::fraud_check::FraudCheck;
use crate::fraud_check::FraudCheckLastStep;
use crate::fraud_check::FraudCheckNew;
use crate::fraud_check::FraudCheckStatus;
use crate::fraud_check::FraudCheckType;
use crate::frm::ConnectorDetailsCore;
use crate::frm::FrmData;
use crate::frm::PaymentToFrmData;
use crate::operation::FraudCheckPost;
use crate::records::Records;

verus! {

/// Asks the store for the check of a payment.
pub struct LookupCall {
    pub payment_id: String,
    pub merchant_id: String,
}

/// Waits for the check that the store may hold.
pub struct LookupPending<R: Records> {
    pub payment_data: PaymentToFrmData<R>,
    pub connector_name: String,
    pub payment_details: Option<serde_json::Value>,
}

/// There is no check yet: one is to be made, under a fresh id and at the present time.
pub struct Absent<R: Records> {
    pub payment_data: PaymentToFrmData<R>,
    pub connector_name: String,
    pub payment_details: Option<serde_json::Value>,
}

/// Waits for the check that the store makes.
pub struct InsertPending<R: Records> {
    pub payment_data: PaymentToFrmData<R>,
}

/// What follows the search for a check.
pub enum TrackerStep<R: Records> {
    Absent(Absent<R>),
    Done(Option<FrmData<R>>),
}

/// A payment together with its check; nothing has been refunded.
pub open spec fn payment_with_check<R: Records>(
    payment_data: PaymentToFrmData<R>,
    fraud_check: FraudCheck<R>,
) -> FrmData<R> {
    FrmData {
        payment_intent: payment_data.payment_intent,
        payment_attempt: payment_data.payment_attempt,
        merchant_account: payment_data.merchant_account,
        address: payment_data.address,
        fraud_check,
        connector_details: payment_data.connector_details,
        order_details: payment_data.order_details,
        refund: None,
        frm_metadata: payment_data.frm_metadata,
    }
}

/// A check of which nothing is known but the payment.
pub open spec fn new_fraud_check<R: Records>(
    absent: Absent<R>,
    frm_id: String,
    created_at: R::Timestamp,
    modified_at: R::Timestamp,
) -> FraudCheckNew<R> {
    FraudCheckNew {
        frm_id,
        payment_id: absent.payment_data.payment_intent.payment_id,
        merchant_id: absent.payment_data.merchant_account.merchant_id,
        attempt_id: absent.payment_data.payment_attempt.attempt_id,
        created_at,
        frm_name: absent.connector_name,
        frm_transaction_id: None,
        frm_transaction_type: FraudCheckType::PostFrm,
        frm_status: FraudCheckStatus::Pending,
        frm_score: None,
        frm_reason: None,
        frm_error: None,
        payment_details: absent.payment_details,
        metadata: None,
        modified_at,
        last_step: FraudCheckLastStep::Processing,
        payment_capture_method: absent.payment_data.payment_attempt.capture_method,
    }
}

fn join<R: Records>(
    payment_data: PaymentToFrmData<R>,
    fraud_check: FraudCheck<R>,
) -> (frm_data: FrmData<R>)
    ensures
        frm_data == payment_with_check(payment_data, fraud_check),
{
    FrmData {
        payment_intent: payment_data.payment_intent,
        payment_attempt: payment_data.payment_attempt,
        merchant_account: payment_data.merchant_account,
        address: payment_data.address,
        fraud_check,
        connector_details: payment_data.connector_details,
        order_details: payment_data.order_details,
        refund: None,
        frm_metadata: payment_data.frm_metadata,
    }
}

impl FraudCheckPost {
    /// Begins to find or make the check of a payment. Where the details of the payment could not
    /// be encoded, the check is made without them.
    pub fn get_trackers<R: Records>(
        &self,
        payment_data: PaymentToFrmData<R>,
        frm_connector_details: ConnectorDetailsCore,
        encoded_details: Result<serde_json::Value, R::EncodeError>,
    ) -> (next: (LookupPending<R>, LookupCall))
        ensures
            next.0 == (LookupPending {
                payment_data,
                connector_name: frm_connector_details.connector_name,
                payment_details: match encoded_details {
                    Ok(details) => Some(details),
                    Err(_) => None,
                },
            }),
            next.1 == (LookupCall {
                payment_id: payment_data.payment_intent.payment_id,
                merchant_id: payment_data.merchant_account.merchant_id,
            }),
    {
        let payment_details = match encoded_details {
            Ok(details) => Some(details),
            Err(_) => None,
        };
        let call = LookupCall {
            payment_id: payment_data.payment_intent.payment_id.clone(),
            merchant_id: payment_data.merchant_account.merchant_id.clone(),
        };
        let connector_name = frm_connector_details.connector_name;
        (LookupPending { payment_data, connector_name, payment_details }, call)
    }
}

impl<R: Records> LookupPending<R> {
    /// The next step once the store has answered. A search that failed is one that found nothing.
    pub open spec fn resumed(
        self,
        found: Result<Option<FraudCheck<R>>, R::StorageError>,
    ) -> TrackerStep<R> {
        match found {
            Ok(Some(fraud_check)) => TrackerStep::Done(
                Some(payment_with_check(self.payment_data, fraud_check)),
            ),
            _ => TrackerStep::Absent(
                Absent {
                    payment_data: self.payment_data,
                    connector_name: self.connector_name,
                    payment_details: self.payment_details,
                },
            ),
        }
    }

    /// Takes the check that the store holds, if any.
    pub fn resume(self, found: Result<Option<FraudCheck<R>>, R::StorageError>) -> (next:
        TrackerStep<R>)
        ensures
            next == self.resumed(found),
    {
        match found {
            Ok(Some(fraud_check)) => TrackerStep::Done(
                Some(join(self.payment_data, fraud_check)),
            ),
            _ => TrackerStep::Absent(
                Absent {
                    payment_data: self.payment_data,
                    connector_name: self.connector_name,
                    payment_details: self.payment_details,
                },
            ),
        }
    }
}

impl<R: Records> Absent<R> {
    /// With what the fresh id of a check begins.
    pub fn id_prefix(&self) -> (prefix: &'static str)
        ensures
            prefix@ == "frm"@,
    {
        "frm"
    }

    /// Begins to make the check.
    pub fn insert(
        self,
        frm_id: String,
        created_at: R::Timestamp,
        modified_at: R::Timestamp,
    ) -> (next: (InsertPending<R>, FraudCheckNew<R>))
        ensures
            next.0 == (InsertPending { payment_data: self.payment_data }),
            next.1 == new_fraud_check(self, frm_id, created_at, modified_at),
    {
        let new = FraudCheckNew {
            frm_id,
            payment_id: self.payment_data.payment_intent.payment_id.clone(),
            merchant_id: self.payment_data.merchant_account.merchant_id.clone(),
            attempt_id: self.payment_data.payment_attempt.attempt_id.clone(),
            created_at,
            frm_name: self.connector_name,
            frm_transaction_id: None,
            frm_transaction_type: FraudCheckType::PostFrm,
            frm_status: FraudCheckStatus::Pending,
            frm_score: None,
            frm_reason: None,
            frm_error: None,
            payment_details: self.payment_details,
            metadata: None,
            modified_at,
            last_step: FraudCheckLastStep::Processing,
            payment_capture_method: self.payment_data.payment_attempt.capture_method,
        };
        (InsertPending { payment_data: self.payment_data }, new)
    }
}

impl<R: Records> InsertPending<R> {
    /// The result once the store has answered. Without a record the payment goes on unchecked.
    pub open spec fn resumed(self, inserted: Result<FraudCheck<R>, R::StorageError>) -> Option<
        FrmData<R>,
    > {
        match inserted {
            Ok(fraud_check) => Some(payment_with_check(self.payment_data, fraud_check)),
            Err(_) => None,
        }
    }

    /// Takes the check that the store made, and ends.
    pub fn resume(self, inserted: Result<FraudCheck<R>, R::StorageError>) -> (done: Option<
        FrmData<R>,
    >)
        ensures
            done == self.resumed(inserted),
    {
        match inserted {
            Ok(fraud_check) => Some(join(self.payment_data, fraud_check)),
            Err(_) => None,
        }
    }
}

} // verus!
