//! Storing the outcome of a check.

use vstd::prelude::*;
use crate::fraud_check::FraudCheck;
use crate::fraud_check::FraudCheckStatus;
use crate::fraud_check::FraudCheckUpdate;
use crate::fraud_check::FraudCheckUpdateView;
use crate::fraud_check::FrmSuggestion;
use crate::frm::ErrorResponse;
use crate::frm::FraudCheckResponseData;
use crate::frm::FrmData;
use crate::frm::FrmResponse;
use crate::frm::FrmRouterData;
use crate::frm::ResponseId;
use crate::labels::Labels;
use crate::operation::ApiErrorResponse;
use crate::operation::FraudCheckPost;
use crate::payments::AttemptCall;
use crate::payments::IntentCall;
use crate::payments::PaymentAttemptUpdate;
use crate::payments::PaymentData;
use crate::payments::PaymentIntentUpdate;
use crate::records::AttemptStatus;
use crate::records::IntentStatus;
use crate::records::PaymentAttempt;
use crate::records::PaymentIntent;
use crate::records::Records;

verus! {

/// The id that an answer gives to the transaction, if it gives one.
pub open spec fn transaction_id(resource_id: ResponseId) -> Option<String> {
    match resource_id {
        ResponseId::NoResponseId => None,
        ResponseId::ConnectorTransactionId(id) => Some(id),
        ResponseId::EncodedData(id) => Some(id),
    }
}

/// The change that marks a check as failed, with the reason.
pub open spec fn failure_update<R: Records>(message: Seq<char>) -> FraudCheckUpdateView<R> {
    FraudCheckUpdateView::ErrorUpdate {
        status: FraudCheckStatus::TransactionFailure,
        error_message: Some(Some(message)),
    }
}

/// The change that writes a verdict of the fraud service into the check.
pub open spec fn verdict_update<R: Records>(
    fraud_check: FraudCheck<R>,
    resource_id: ResponseId,
    connector_metadata: Option<serde_json::Value>,
    status: FraudCheckStatus,
    reason: Option<serde_json::Value>,
    score: Option<i32>,
    now: R::Timestamp,
) -> FraudCheckUpdateView<R> {
    FraudCheckUpdateView::ResponseUpdate {
        frm_status: status,
        frm_transaction_id: crate::fraud_check::text_view(transaction_id(resource_id)),
        frm_reason: reason,
        frm_score: score,
        metadata: connector_metadata,
        modified_at: now,
        last_step: fraud_check.last_step,
        payment_capture_method: fraud_check.payment_capture_method,
    }
}

/// The flows whose answers belong to a check after the authorisation.
pub ghost enum PostFlow {
    Sale,
    Fulfillment,
    RecordReturn,
}

/// The answer and its flow, unless the flow belongs to a check before the authorisation.
pub open spec fn post_answer<R: Records>(response: FrmResponse<R>) -> Option<
    (PostFlow, Result<FraudCheckResponseData, ErrorResponse<R>>),
> {
    match response {
        FrmResponse::Sale(answer) => Some((PostFlow::Sale, answer)),
        FrmResponse::Fulfillment(answer) => Some((PostFlow::Fulfillment, answer)),
        FrmResponse::RecordReturn(answer) => Some((PostFlow::RecordReturn, answer)),
        FrmResponse::Checkout(_) => None,
        FrmResponse::Transaction(_) => None,
    }
}

/// The change that an answer of the fraud service brings to a check, if any.
pub open spec fn planned_update<R: Records>(
    response: FrmResponse<R>,
    fraud_check: FraudCheck<R>,
    now: R::Timestamp,
) -> Option<FraudCheckUpdateView<R>> {
    match post_answer(response) {
        None => Some(failure_update("Error: Got Pre(Sale) flow response in current post flow"@)),
        Some((_, Err(error))) => Some(failure_update(error.message@)),
        Some((_, Ok(FraudCheckResponseData::FulfillmentResponse { .. }))) => None,
        Some(
            (
                flow,
                Ok(
                    FraudCheckResponseData::TransactionResponse {
                        resource_id,
                        connector_metadata,
                        status,
                        reason,
                        score,
                    },
                ),
            ),
        ) => if flow is RecordReturn {
            Some(
                failure_update(
                    "Error: Got Transaction Response response in current Record Return flow"@,
                ),
            )
        } else {
            Some(
                verdict_update(
                    fraud_check,
                    resource_id,
                    connector_metadata,
                    status,
                    reason,
                    score,
                    now,
                ),
            )
        },
        Some(
            (
                flow,
                Ok(
                    FraudCheckResponseData::RecordReturnResponse {
                        resource_id,
                        connector_metadata,
                        return_id: _,
                    },
                ),
            ),
        ) => match flow {
            PostFlow::Sale => Some(
                failure_update("Error: Got Record Return Response response in current Sale flow"@),
            ),
            PostFlow::Fulfillment => None,
            PostFlow::RecordReturn => Some(
                verdict_update(
                    fraud_check,
                    resource_id,
                    connector_metadata,
                    fraud_check.frm_status,
                    fraud_check.frm_reason,
                    fraud_check.frm_score,
                    now,
                ),
            ),
        },
    }
}

/// The view of a change that may be absent.
pub open spec fn update_view<R: Records>(update: Option<FraudCheckUpdate<R>>) -> Option<
    FraudCheckUpdateView<R>,
> {
    match update {
        Some(update) => Some(update@),
        None => None,
    }
}

/// The id that an answer gives to the transaction, if it gives one.
pub fn connector_transaction_id(resource_id: ResponseId) -> (id: Option<String>)
    ensures
        id == transaction_id(resource_id),
{
    match resource_id {
        ResponseId::NoResponseId => None,
        ResponseId::ConnectorTransactionId(id) => Some(id),
        ResponseId::EncodedData(id) => Some(id),
    }
}

fn failed<R: Records>(message: String) -> (update: Option<FraudCheckUpdate<R>>)
    ensures
        update_view(update) == Some(failure_update::<R>(message@)),
{
    Some(
        FraudCheckUpdate::ErrorUpdate {
            status: FraudCheckStatus::TransactionFailure,
            error_message: Some(Some(message)),
        },
    )
}

/// The change that an answer of the fraud service, read at the time `now`, brings to a check.
pub fn fraud_check_update<R: Records>(
    response: FrmResponse<R>,
    fraud_check: &FraudCheck<R>,
    now: R::Timestamp,
) -> (update: Option<FraudCheckUpdate<R>>)
    ensures
        update_view(update) == planned_update(response, *fraud_check, now),
{
    match response {
        FrmResponse::Sale(response) => match response {
            Err(error) => failed(error.message),
            Ok(answer) => match answer {
                FraudCheckResponseData::TransactionResponse {
                    resource_id,
                    connector_metadata,
                    status,
                    reason,
                    score,
                } => Some(
                    FraudCheckUpdate::ResponseUpdate {
                        frm_status: status,
                        frm_transaction_id: connector_transaction_id(resource_id),
                        frm_reason: reason,
                        frm_score: score,
                        metadata: connector_metadata,
                        modified_at: now,
                        last_step: fraud_check.last_step,
                        payment_capture_method: fraud_check.payment_capture_method,
                    },
                ),
                FraudCheckResponseData::RecordReturnResponse {
                    resource_id: _,
                    connector_metadata: _,
                    return_id: _,
                } => failed(
                    "Error: Got Record Return Response response in current Sale flow".to_string(),
                ),
                FraudCheckResponseData::FulfillmentResponse { order_id: _, shipment_ids: _ } => None,
            },
        },
        FrmResponse::Fulfillment(response) => match response {
            Err(error) => failed(error.message),
            Ok(answer) => match answer {
                FraudCheckResponseData::TransactionResponse {
                    resource_id,
                    connector_metadata,
                    status,
                    reason,
                    score,
                } => Some(
                    FraudCheckUpdate::ResponseUpdate {
                        frm_status: status,
                        frm_transaction_id: connector_transaction_id(resource_id),
                        frm_reason: reason,
                        frm_score: score,
                        metadata: connector_metadata,
                        modified_at: now,
                        last_step: fraud_check.last_step,
                        payment_capture_method: fraud_check.payment_capture_method,
                    },
                ),
                FraudCheckResponseData::FulfillmentResponse { order_id: _, shipment_ids: _ } => None,
                FraudCheckResponseData::RecordReturnResponse {
                    resource_id: _,
                    connector_metadata: _,
                    return_id: _,
                } => None,
            },
        },
        FrmResponse::RecordReturn(response) => match response {
            Err(error) => failed(error.message),
            Ok(answer) => match answer {
                FraudCheckResponseData::TransactionResponse {
                    resource_id: _,
                    connector_metadata: _,
                    status: _,
                    reason: _,
                    score: _,
                } => failed(
                    "Error: Got Transaction Response response in current Record Return flow".to_string(),
                ),
                FraudCheckResponseData::FulfillmentResponse { order_id: _, shipment_ids: _ } => None,
                FraudCheckResponseData::RecordReturnResponse {
                    resource_id,
                    connector_metadata,
                    return_id: _,
                } => Some(
                    FraudCheckUpdate::ResponseUpdate {
                        frm_status: fraud_check.frm_status,
                        frm_transaction_id: connector_transaction_id(resource_id),
                        frm_reason: fraud_check.frm_reason.clone(),
                        frm_score: fraud_check.frm_score,
                        metadata: connector_metadata,
                        modified_at: now,
                        last_step: fraud_check.last_step,
                        payment_capture_method: fraud_check.payment_capture_method,
                    },
                ),
            },
        },
        FrmResponse::Checkout(_) | FrmResponse::Transaction(_) => failed(
            "Error: Got Pre(Sale) flow response in current post flow".to_string(),
        ),
    }
}

/// What a suggestion means for the records of a payment.
pub struct Rejection {
    pub attempt_status: AttemptStatus,
    pub intent_status: IntentStatus,
    pub merchant_decision: Option<String>,
    pub error_message: Option<Option<String>>,
}

/// What a suggestion means for the records of a payment.
pub open spec fn rejection_of(suggestion: FrmSuggestion, labels: Labels) -> Rejection {
    match suggestion {
        FrmSuggestion::FrmCancelTransaction => Rejection {
            attempt_status: AttemptStatus::Failure,
            intent_status: IntentStatus::Failed,
            merchant_decision: Some(labels.rejected),
            error_message: Some(Some(labels.cancel_initiated)),
        },
        FrmSuggestion::FrmManualReview => Rejection {
            attempt_status: AttemptStatus::Unresolved,
            intent_status: IntentStatus::RequiresMerchantAction,
            merchant_decision: None,
            error_message: None,
        },
        FrmSuggestion::FrmAuthorizeTransaction => Rejection {
            attempt_status: AttemptStatus::Authorized,
            intent_status: IntentStatus::RequiresCapture,
            merchant_decision: None,
            error_message: None,
        },
    }
}

/// What a suggestion means for the records of a payment.
pub fn reject(suggestion: FrmSuggestion, labels: &Labels) -> (rejection: Rejection)
    ensures
        rejection == rejection_of(suggestion, *labels),
{
    match suggestion {
        FrmSuggestion::FrmCancelTransaction => Rejection {
            attempt_status: AttemptStatus::Failure,
            intent_status: IntentStatus::Failed,
            merchant_decision: Some(labels.rejected.clone()),
            error_message: Some(Some(labels.cancel_initiated.clone())),
        },
        FrmSuggestion::FrmManualReview => Rejection {
            attempt_status: AttemptStatus::Unresolved,
            intent_status: IntentStatus::RequiresMerchantAction,
            merchant_decision: None,
            error_message: None,
        },
        FrmSuggestion::FrmAuthorizeTransaction => Rejection {
            attempt_status: AttemptStatus::Authorized,
            intent_status: IntentStatus::RequiresCapture,
            merchant_decision: None,
            error_message: None,
        },
    }
}

/// Why an outcome could not be stored, and how the caller is told.
pub enum Failure<R: Records> {
    /// The store's error is turned into an answer; where it means that the record is missing,
    /// `response` is that answer.
    NotFoundResponse { error: R::StorageError, response: ApiErrorResponse },
    /// The answer is `response`, whatever the store's error means.
    ChangedContext { error: R::StorageError, response: ApiErrorResponse },
}

/// Asks the store to change a fraud check.
pub struct FraudCheckCall<R: Records> {
    pub this: FraudCheck<R>,
    pub fraud_check: FraudCheckUpdate<R>,
}

/// Waits for the changed attempt.
pub struct AttemptPending<R: Records> {
    pub frm_data: FrmData<R>,
    pub fraud_check: Option<FraudCheckUpdate<R>>,
    pub payment_intent: PaymentIntentUpdate,
}

/// Waits for the changed intent.
pub struct IntentPending<R: Records> {
    pub frm_data: FrmData<R>,
    pub fraud_check: Option<FraudCheckUpdate<R>>,
}

/// Waits for the changed fraud check.
pub struct FraudCheckPending<R: Records> {
    pub frm_data: FrmData<R>,
}

/// What is left once the records of the payment are settled.
pub enum FraudCheckStep<R: Records> {
    Update(FraudCheckPending<R>, FraudCheckCall<R>),
    Done(FrmData<R>),
}

/// How storing an outcome begins.
pub enum UpdateStep<R: Records> {
    Attempt(AttemptPending<R>, AttemptCall<R>),
    FraudCheck(FraudCheckStep<R>),
}

/// The change to the attempt that a suggestion calls for.
pub open spec fn attempt_update<R: Records>(
    frm_data: FrmData<R>,
    suggestion: FrmSuggestion,
    labels: Labels,
) -> PaymentAttemptUpdate {
    let rejection = rejection_of(suggestion, labels);
    PaymentAttemptUpdate::RejectUpdate {
        status: rejection.attempt_status,
        error_code: Some(Some(labels.of_status(frm_data.fraud_check.frm_status))),
        error_message: rejection.error_message,
        updated_by: labels.of_storage_scheme(frm_data.merchant_account.storage_scheme),
    }
}

/// The change to the intent that a suggestion calls for.
pub open spec fn intent_update<R: Records>(
    frm_data: FrmData<R>,
    suggestion: FrmSuggestion,
    labels: Labels,
) -> PaymentIntentUpdate {
    let rejection = rejection_of(suggestion, labels);
    PaymentIntentUpdate::RejectUpdate {
        status: rejection.intent_status,
        merchant_decision: rejection.merchant_decision,
        updated_by: labels.of_storage_scheme(frm_data.merchant_account.storage_scheme),
    }
}

impl<R: Records> FraudCheckStep<R> {
    /// This step asks for the change `plan` to the check of `frm_data`, or ends with `frm_data`
    /// where there is none.
    pub open spec fn carries_out(
        self,
        frm_data: FrmData<R>,
        plan: Option<FraudCheckUpdateView<R>>,
    ) -> bool {
        match plan {
            Some(update) => {
                &&& self matches FraudCheckStep::Update(pending, call)
                &&& pending == FraudCheckPending { frm_data }
                &&& call.this == frm_data.fraud_check
                &&& call.fraud_check@ == update
            },
            None => self == FraudCheckStep::Done(frm_data),
        }
    }
}

impl<R: Records> UpdateStep<R> {
    /// This step begins to store the outcome `plan` of a check: with the records of the payment
    /// where there is a suggestion, with the check itself where there is none.
    pub open spec fn begins(
        self,
        frm_data: FrmData<R>,
        payment_data: PaymentData<R>,
        suggestion: Option<FrmSuggestion>,
        labels: Labels,
        plan: Option<FraudCheckUpdateView<R>>,
    ) -> bool {
        match suggestion {
            Some(suggestion) => {
                &&& self matches UpdateStep::Attempt(pending, call)
                &&& pending.frm_data == frm_data
                &&& pending.payment_intent == intent_update(frm_data, suggestion, labels)
                &&& update_view(pending.fraud_check) == plan
                &&& call == AttemptCall {
                    this: payment_data.payment_attempt,
                    payment_attempt: attempt_update(frm_data, suggestion, labels),
                    storage_scheme: frm_data.merchant_account.storage_scheme,
                }
            },
            None => {
                &&& self matches UpdateStep::FraudCheck(step)
                &&& step.carries_out(frm_data, plan)
            },
        }
    }
}

/// The step that asks for a change to the check of `frm_data`, or the end where there is none.
pub open spec fn settled<R: Records>(
    frm_data: FrmData<R>,
    fraud_check: Option<FraudCheckUpdate<R>>,
) -> FraudCheckStep<R> {
    match fraud_check {
        Some(fraud_check) => FraudCheckStep::Update(
            FraudCheckPending { frm_data },
            FraudCheckCall { this: frm_data.fraud_check, fraud_check },
        ),
        None => FraudCheckStep::Done(frm_data),
    }
}

fn settle<R: Records>(
    frm_data: FrmData<R>,
    fraud_check: Option<FraudCheckUpdate<R>>,
) -> (step: FraudCheckStep<R>)
    ensures
        step == settled(frm_data, fraud_check),
{
    match fraud_check {
        Some(fraud_check) => {
            let call = FraudCheckCall { this: frm_data.fraud_check.clone(), fraud_check };
            FraudCheckStep::Update(FraudCheckPending { frm_data }, call)
        },
        None => FraudCheckStep::Done(frm_data),
    }
}

impl FraudCheckPost {
    /// Begins to store the outcome of a check: the answer of the fraud service, read at the time
    /// `now`, and the suggestion to the payment flow.
    pub fn update_tracker<R: Records>(
        &self,
        frm_data: FrmData<R>,
        payment_data: &PaymentData<R>,
        frm_suggestion: Option<FrmSuggestion>,
        frm_router_data: FrmRouterData<R>,
        labels: &Labels,
        now: R::Timestamp,
    ) -> (step: UpdateStep<R>)
        ensures
            step.begins(
                frm_data,
                *payment_data,
                frm_suggestion,
                *labels,
                planned_update(frm_router_data.response, frm_data.fraud_check, now),
            ),
    {
        let fraud_check = fraud_check_update(frm_router_data.response, &frm_data.fraud_check, now);
        match frm_suggestion {
            Some(suggestion) => {
                let rejection = reject(suggestion, labels);
                let storage_scheme = frm_data.merchant_account.storage_scheme;
                let payment_attempt = PaymentAttemptUpdate::RejectUpdate {
                    status: rejection.attempt_status,
                    error_code: Some(Some(labels.status(frm_data.fraud_check.frm_status))),
                    error_message: rejection.error_message,
                    updated_by: labels.storage_scheme(storage_scheme),
                };
                let payment_intent = PaymentIntentUpdate::RejectUpdate {
                    status: rejection.intent_status,
                    merchant_decision: rejection.merchant_decision,
                    updated_by: labels.storage_scheme(storage_scheme),
                };
                let call = AttemptCall {
                    this: payment_data.payment_attempt.clone(),
                    payment_attempt,
                    storage_scheme,
                };
                UpdateStep::Attempt(AttemptPending { frm_data, fraud_check, payment_intent }, call)
            },
            None => UpdateStep::FraudCheck(settle(frm_data, fraud_check)),
        }
    }
}

impl<R: Records> AttemptPending<R> {
    /// The payment and the next step once the store has answered.
    pub open spec fn resumed(
        self,
        payment_data: PaymentData<R>,
        stored: Result<PaymentAttempt<R>, R::StorageError>,
    ) -> (PaymentData<R>, Result<(IntentPending<R>, IntentCall<R>), Failure<R>>) {
        match stored {
            Ok(payment_attempt) => (
                PaymentData { payment_attempt, ..payment_data },
                Ok(
                    (
                        IntentPending { frm_data: self.frm_data, fraud_check: self.fraud_check },
                        IntentCall {
                            this: payment_data.payment_intent,
                            payment_intent: self.payment_intent,
                            storage_scheme: self.frm_data.merchant_account.storage_scheme,
                        },
                    ),
                ),
            ),
            Err(error) => (
                payment_data,
                Err(
                    Failure::NotFoundResponse {
                        error,
                        response: ApiErrorResponse::PaymentNotFound,
                    },
                ),
            ),
        }
    }

    /// Takes the changed attempt and goes on to the intent.
    pub fn resume(
        self,
        payment_data: &mut PaymentData<R>,
        stored: Result<PaymentAttempt<R>, R::StorageError>,
    ) -> (next: Result<(IntentPending<R>, IntentCall<R>), Failure<R>>)
        ensures
            (*final(payment_data), next) == self.resumed(*old(payment_data), stored),
    {
        match stored {
            Ok(payment_attempt) => {
                payment_data.set_payment_attempt(payment_attempt);
                let call = IntentCall {
                    this: payment_data.payment_intent.clone(),
                    payment_intent: self.payment_intent,
                    storage_scheme: self.frm_data.merchant_account.storage_scheme,
                };
                Ok(
                    (
                        IntentPending { frm_data: self.frm_data, fraud_check: self.fraud_check },
                        call,
                    ),
                )
            },
            Err(error) => Err(
                Failure::NotFoundResponse { error, response: ApiErrorResponse::PaymentNotFound },
            ),
        }
    }
}

impl<R: Records> IntentPending<R> {
    /// The payment and the next step once the store has answered.
    pub open spec fn resumed(
        self,
        payment_data: PaymentData<R>,
        stored: Result<PaymentIntent<R>, R::StorageError>,
    ) -> (PaymentData<R>, Result<FraudCheckStep<R>, Failure<R>>) {
        match stored {
            Ok(payment_intent) => (
                PaymentData { payment_intent, ..payment_data },
                Ok(settled(self.frm_data, self.fraud_check)),
            ),
            Err(error) => (
                payment_data,
                Err(
                    Failure::NotFoundResponse {
                        error,
                        response: ApiErrorResponse::PaymentNotFound,
                    },
                ),
            ),
        }
    }

    /// Takes the changed intent and goes on to the fraud check.
    pub fn resume(
        self,
        payment_data: &mut PaymentData<R>,
        stored: Result<PaymentIntent<R>, R::StorageError>,
    ) -> (next: Result<FraudCheckStep<R>, Failure<R>>)
        ensures
            (*final(payment_data), next) == self.resumed(*old(payment_data), stored),
    {
        match stored {
            Ok(payment_intent) => {
                payment_data.set_payment_intent(payment_intent);
                Ok(settle(self.frm_data, self.fraud_check))
            },
            Err(error) => Err(
                Failure::NotFoundResponse { error, response: ApiErrorResponse::PaymentNotFound },
            ),
        }
    }
}

impl<R: Records> FraudCheckPending<R> {
    /// The end, once the store has answered.
    pub open spec fn resumed(self, stored: Result<FraudCheck<R>, R::StorageError>) -> Result<
        FrmData<R>,
        Failure<R>,
    > {
        match stored {
            Ok(fraud_check) => Ok(self.frm_data.with_fraud_check(fraud_check)),
            Err(error) => Err(
                Failure::ChangedContext { error, response: ApiErrorResponse::PaymentNotFound },
            ),
        }
    }

    /// Takes the changed fraud check, and ends.
    pub fn resume(self, stored: Result<FraudCheck<R>, R::StorageError>) -> (done: Result<
        FrmData<R>,
        Failure<R>,
    >)
        ensures
            done == self.resumed(stored),
    {
        match stored {
            Ok(fraud_check) => {
                let mut frm_data = self.frm_data;
                frm_data.fraud_check = fraud_check;
                Ok(frm_data)
            },
            Err(error) => Err(
                Failure::ChangedContext { error, response: ApiErrorResponse::PaymentNotFound },
            ),
        }
    }
}

} // verus!
