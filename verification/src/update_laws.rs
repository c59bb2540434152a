//! What holds of every outcome that is stored, over the results of the calls.

use vstd::prelude::*;
use crate::fraud_check::FraudCheck;
use crate::fraud_check::FraudCheckStatus;
use crate::fraud_check::FraudCheckUpdate;
use crate::fraud_check::FrmSuggestion;
use crate::frm::ErrorResponse;
use crate::frm::FraudCheckResponseData;
use crate::frm::FrmData;
use crate::frm::FrmResponse;
use crate::frm::FrmRouterData;
use crate::frm::ResponseId;
use crate::labels::Labels;
use crate::operation::ApiErrorResponse;
use crate::operation::FraudCheckPost;
use crate::payments::IntentCall;
use crate::payments::PaymentAttemptUpdate;
use crate::payments::PaymentData;
use crate::payments::PaymentIntentUpdate;
use crate::records::AttemptStatus;
use crate::records::IntentStatus;
use crate::records::MerchantStorageScheme;
use crate::records::PaymentAttempt;
use crate::records::PaymentIntent;
use crate::records::Records;
use crate::update_tracker::connector_transaction_id;
use crate::update_tracker::fraud_check_update;
use crate::update_tracker::reject;
use crate::update_tracker::AttemptPending;
use crate::update_tracker::Failure;
use crate::update_tracker::FraudCheckPending;
use crate::update_tracker::FraudCheckStep;
use crate::update_tracker::IntentPending;
use crate::update_tracker::Rejection;
use crate::update_tracker::UpdateStep;

verus! {

/// The id that is stored is the one that the answer carries, in either form.
pub proof fn law_carried_id_is_stored(resource_id: ResponseId, id: Option<String>)
    requires
        call_ensures(connector_transaction_id, (resource_id,), id),
    ensures
        resource_id is NoResponseId ==> id is None,
        resource_id matches ResponseId::ConnectorTransactionId(carried) ==> id == Some(carried),
        resource_id matches ResponseId::EncodedData(carried) ==> id == Some(carried),
{
}

/// The change to the check that a step of storing an outcome holds or asks for.
pub open spec fn change_of<R: Records>(step: UpdateStep<R>) -> Option<FraudCheckUpdate<R>> {
    match step {
        UpdateStep::Attempt(pending, _) => pending.fraud_check,
        UpdateStep::FraudCheck(FraudCheckStep::Update(_, call)) => Some(call.fraud_check),
        UpdateStep::FraudCheck(FraudCheckStep::Done(_)) => None,
    }
}

/// A verdict, whatever it says, brings a change that holds what the service answered: its status,
/// reason, score, metadata and transaction id. The check keeps its progress and its capture method,
/// and the change bears the time of the answer.
pub proof fn law_verdict_is_kept_whole<R: Records>(
    response: FrmResponse<R>,
    fraud_check: &FraudCheck<R>,
    now: R::Timestamp,
    change: Option<FraudCheckUpdate<R>>,
    resource_id: ResponseId,
    connector_metadata: Option<serde_json::Value>,
    status: FraudCheckStatus,
    reason: Option<serde_json::Value>,
    score: Option<i32>,
)
    requires
        call_ensures(fraud_check_update::<R>, (response, fraud_check, now), change),
        ({
            let answer = FraudCheckResponseData::TransactionResponse {
                resource_id,
                connector_metadata,
                status,
                reason,
                score,
            };
            ||| response == FrmResponse::<R>::Sale(Ok(answer))
            ||| response == FrmResponse::<R>::Fulfillment(Ok(answer))
        }),
    ensures
        change matches Some(
            FraudCheckUpdate::ResponseUpdate {
                frm_status,
                frm_transaction_id,
                frm_reason,
                frm_score,
                metadata,
                modified_at,
                last_step,
                payment_capture_method,
            },
        ) && {
            &&& frm_status == status
            &&& frm_reason == reason
            &&& frm_score == score
            &&& metadata == connector_metadata
            &&& match resource_id {
                ResponseId::NoResponseId => frm_transaction_id is None,
                ResponseId::ConnectorTransactionId(id) => frm_transaction_id matches Some(stored)
                    && stored@ == id@,
                ResponseId::EncodedData(id) => frm_transaction_id matches Some(stored) && stored@
                    == id@,
            }
            &&& modified_at == now
            &&& last_step == fraud_check.last_step
            &&& payment_capture_method == fraud_check.payment_capture_method
        },
{
}

/// The store is asked to keep what the service answered with a verdict, whatever it says: its
/// status, reason, score, metadata and transaction id, with the progress and the capture method that
/// the check had and the time of the answer.
pub proof fn law_verdict_is_kept_whole_in_the_store<R: Records>(
    operation: &FraudCheckPost,
    frm_data: FrmData<R>,
    payment_data: &PaymentData<R>,
    frm_suggestion: Option<FrmSuggestion>,
    frm_router_data: FrmRouterData<R>,
    labels: &Labels,
    now: R::Timestamp,
    step: UpdateStep<R>,
    resource_id: ResponseId,
    connector_metadata: Option<serde_json::Value>,
    status: FraudCheckStatus,
    reason: Option<serde_json::Value>,
    score: Option<i32>,
)
    requires
        call_ensures(
            FraudCheckPost::update_tracker::<R>,
            (operation, frm_data, payment_data, frm_suggestion, frm_router_data, labels, now),
            step,
        ),
        ({
            let answer = FraudCheckResponseData::TransactionResponse {
                resource_id,
                connector_metadata,
                status,
                reason,
                score,
            };
            ||| frm_router_data.response == FrmResponse::<R>::Sale(Ok(answer))
            ||| frm_router_data.response == FrmResponse::<R>::Fulfillment(Ok(answer))
        }),
    ensures
        ({
            let change = change_of(step);
            change matches Some(
                FraudCheckUpdate::ResponseUpdate {
                    frm_status,
                    frm_transaction_id,
                    frm_reason,
                    frm_score,
                    metadata,
                    modified_at,
                    last_step,
                    payment_capture_method,
                },
            ) && {
                &&& frm_status == status
                &&& frm_reason == reason
                &&& frm_score == score
                &&& metadata == connector_metadata
                &&& match resource_id {
                    ResponseId::NoResponseId => frm_transaction_id is None,
                    ResponseId::ConnectorTransactionId(id) => frm_transaction_id matches Some(stored)
                        && stored@ == id@,
                    ResponseId::EncodedData(id) => frm_transaction_id matches Some(stored) && stored@
                        == id@,
                }
                &&& modified_at == now
                &&& last_step == frm_data.fraud_check.last_step
                &&& payment_capture_method == frm_data.fraud_check.payment_capture_method
            }
        }),
{
}

/// A return brings a change that keeps what the check knows, and adds the transaction id and the
/// metadata that the service answered and the time of the answer.
pub proof fn law_return_keeps_what_is_known<R: Records>(
    response: FrmResponse<R>,
    fraud_check: &FraudCheck<R>,
    now: R::Timestamp,
    change: Option<FraudCheckUpdate<R>>,
    resource_id: ResponseId,
    connector_metadata: Option<serde_json::Value>,
    return_id: Option<String>,
)
    requires
        call_ensures(fraud_check_update::<R>, (response, fraud_check, now), change),
        response == FrmResponse::<R>::RecordReturn(
            Ok(
                FraudCheckResponseData::RecordReturnResponse {
                    resource_id,
                    connector_metadata,
                    return_id,
                },
            ),
        ),
    ensures
        change matches Some(
            FraudCheckUpdate::ResponseUpdate {
                frm_status,
                frm_transaction_id,
                frm_reason,
                frm_score,
                metadata,
                modified_at,
                last_step,
                payment_capture_method,
            },
        ) && {
            &&& frm_status == fraud_check.frm_status
            &&& frm_reason == fraud_check.frm_reason
            &&& frm_score == fraud_check.frm_score
            &&& metadata == connector_metadata
            &&& match resource_id {
                ResponseId::NoResponseId => frm_transaction_id is None,
                ResponseId::ConnectorTransactionId(id) => frm_transaction_id matches Some(stored)
                    && stored@ == id@,
                ResponseId::EncodedData(id) => frm_transaction_id matches Some(stored) && stored@
                    == id@,
            }
            &&& modified_at == now
            &&& last_step == fraud_check.last_step
            &&& payment_capture_method == fraud_check.payment_capture_method
        },
{
}

/// After a return the store is asked to keep what the check knows, with the transaction id and the
/// metadata that the service answered and the time of the answer.
pub proof fn law_return_keeps_what_is_known_in_the_store<R: Records>(
    operation: &FraudCheckPost,
    frm_data: FrmData<R>,
    payment_data: &PaymentData<R>,
    frm_suggestion: Option<FrmSuggestion>,
    frm_router_data: FrmRouterData<R>,
    labels: &Labels,
    now: R::Timestamp,
    step: UpdateStep<R>,
    resource_id: ResponseId,
    connector_metadata: Option<serde_json::Value>,
    return_id: Option<String>,
)
    requires
        call_ensures(
            FraudCheckPost::update_tracker::<R>,
            (operation, frm_data, payment_data, frm_suggestion, frm_router_data, labels, now),
            step,
        ),
        frm_router_data.response == FrmResponse::<R>::RecordReturn(
            Ok(
                FraudCheckResponseData::RecordReturnResponse {
                    resource_id,
                    connector_metadata,
                    return_id,
                },
            ),
        ),
    ensures
        ({
            let change = change_of(step);
            change matches Some(
                FraudCheckUpdate::ResponseUpdate {
                    frm_status,
                    frm_transaction_id,
                    frm_reason,
                    frm_score,
                    metadata,
                    modified_at,
                    last_step,
                    payment_capture_method,
                },
            ) && {
                &&& frm_status == frm_data.fraud_check.frm_status
                &&& frm_reason == frm_data.fraud_check.frm_reason
                &&& frm_score == frm_data.fraud_check.frm_score
                &&& metadata == connector_metadata
                &&& match resource_id {
                    ResponseId::NoResponseId => frm_transaction_id is None,
                    ResponseId::ConnectorTransactionId(id) => frm_transaction_id matches Some(stored)
                        && stored@ == id@,
                    ResponseId::EncodedData(id) => frm_transaction_id matches Some(stored) && stored@
                        == id@,
                }
                &&& modified_at == now
                &&& last_step == frm_data.fraud_check.last_step
                &&& payment_capture_method == frm_data.fraud_check.payment_capture_method
            }
        }),
{
}

/// An error of the service marks the check as failed, in the words of the service.
pub proof fn law_error_fails_in_its_own_words<R: Records>(
    response: FrmResponse<R>,
    fraud_check: &FraudCheck<R>,
    now: R::Timestamp,
    change: Option<FraudCheckUpdate<R>>,
    error: ErrorResponse<R>,
)
    requires
        call_ensures(fraud_check_update::<R>, (response, fraud_check, now), change),
        ({
            ||| response == FrmResponse::Sale(Err(error))
            ||| response == FrmResponse::Fulfillment(Err(error))
            ||| response == FrmResponse::RecordReturn(Err(error))
        }),
    ensures
        change matches Some(
            FraudCheckUpdate::ErrorUpdate { status, error_message: Some(Some(message)) },
        ) && status == FraudCheckStatus::TransactionFailure && message@ == error.message@,
{
}

/// After an error of the service the store is asked to mark the check as failed, in the words of the
/// service.
pub proof fn law_error_fails_in_its_own_words_in_the_store<R: Records>(
    operation: &FraudCheckPost,
    frm_data: FrmData<R>,
    payment_data: &PaymentData<R>,
    frm_suggestion: Option<FrmSuggestion>,
    frm_router_data: FrmRouterData<R>,
    labels: &Labels,
    now: R::Timestamp,
    step: UpdateStep<R>,
    error: ErrorResponse<R>,
)
    requires
        call_ensures(
            FraudCheckPost::update_tracker::<R>,
            (operation, frm_data, payment_data, frm_suggestion, frm_router_data, labels, now),
            step,
        ),
        ({
            ||| frm_router_data.response == FrmResponse::Sale(Err(error))
            ||| frm_router_data.response == FrmResponse::Fulfillment(Err(error))
            ||| frm_router_data.response == FrmResponse::RecordReturn(Err(error))
        }),
    ensures
        ({
            let change = change_of(step);
            change matches Some(
                FraudCheckUpdate::ErrorUpdate { status, error_message: Some(Some(message)) },
            ) && status == FraudCheckStatus::TransactionFailure && message@ == error.message@
        }),
{
}

/// An answer that does not belong to its flow, or to any flow after the authorisation, marks the
/// check as failed and says which it was.
pub proof fn law_misplaced_answer_fails<R: Records>(
    response: FrmResponse<R>,
    fraud_check: &FraudCheck<R>,
    now: R::Timestamp,
    change: Option<FraudCheckUpdate<R>>,
)
    requires
        call_ensures(fraud_check_update::<R>, (response, fraud_check, now), change),
    ensures
        response is Checkout || response is Transaction ==> {
            &&& change matches Some(
                FraudCheckUpdate::ErrorUpdate { status, error_message: Some(Some(message)) },
            )
            &&& status == FraudCheckStatus::TransactionFailure
            &&& message@ == "Error: Got Pre(Sale) flow response in current post flow"@
        },
        (response matches FrmResponse::Sale(Ok(answer)) && answer is RecordReturnResponse) ==> {
            &&& change matches Some(
                FraudCheckUpdate::ErrorUpdate { status, error_message: Some(Some(message)) },
            )
            &&& status == FraudCheckStatus::TransactionFailure
            &&& message@ == "Error: Got Record Return Response response in current Sale flow"@
        },
        (response matches FrmResponse::RecordReturn(Ok(answer)) && answer is TransactionResponse)
            ==> {
            &&& change matches Some(
                FraudCheckUpdate::ErrorUpdate { status, error_message: Some(Some(message)) },
            )
            &&& status == FraudCheckStatus::TransactionFailure
            &&& message@ == "Error: Got Transaction Response response in current Record Return flow"@
        },
{
}

/// After an answer that does not belong to its flow, or to any flow after the authorisation, the
/// store is asked to mark the check as failed and to say which it was.
pub proof fn law_misplaced_answer_fails_in_the_store<R: Records>(
    operation: &FraudCheckPost,
    frm_data: FrmData<R>,
    payment_data: &PaymentData<R>,
    frm_suggestion: Option<FrmSuggestion>,
    frm_router_data: FrmRouterData<R>,
    labels: &Labels,
    now: R::Timestamp,
    step: UpdateStep<R>,
)
    requires
        call_ensures(
            FraudCheckPost::update_tracker::<R>,
            (operation, frm_data, payment_data, frm_suggestion, frm_router_data, labels, now),
            step,
        ),
    ensures
        ({
            let change = change_of(step);
            &&& frm_router_data.response is Checkout || frm_router_data.response is Transaction ==> {
                &&& change matches Some(
                    FraudCheckUpdate::ErrorUpdate { status, error_message: Some(Some(message)) },
                )
                &&& status == FraudCheckStatus::TransactionFailure
                &&& message@ == "Error: Got Pre(Sale) flow response in current post flow"@
            }
            &&& (frm_router_data.response matches FrmResponse::Sale(Ok(answer))
                && answer is RecordReturnResponse) ==> {
                &&& change matches Some(
                    FraudCheckUpdate::ErrorUpdate { status, error_message: Some(Some(message)) },
                )
                &&& status == FraudCheckStatus::TransactionFailure
                &&& message@ == "Error: Got Record Return Response response in current Sale flow"@
            }
            &&& (frm_router_data.response matches FrmResponse::RecordReturn(Ok(answer))
                && answer is TransactionResponse) ==> {
                &&& change matches Some(
                    FraudCheckUpdate::ErrorUpdate { status, error_message: Some(Some(message)) },
                )
                &&& status == FraudCheckStatus::TransactionFailure
                &&& message@ == "Error: Got Transaction Response response in current Record Return flow"@
            }
        }),
{
}

/// A check is left as it is exactly where the answer speaks of a fulfilment, or where a fulfilment is
/// answered with a return.
pub proof fn law_fulfilment_brings_no_change<R: Records>(
    response: FrmResponse<R>,
    fraud_check: &FraudCheck<R>,
    now: R::Timestamp,
    change: Option<FraudCheckUpdate<R>>,
)
    requires
        call_ensures(fraud_check_update::<R>, (response, fraud_check, now), change),
    ensures
        change is None <==> {
            ||| response matches FrmResponse::Sale(Ok(answer))
                && answer is FulfillmentResponse
            ||| response matches FrmResponse::RecordReturn(Ok(answer))
                && answer is FulfillmentResponse
            ||| response matches FrmResponse::Fulfillment(Ok(answer))
                && !(answer is TransactionResponse)
        },
{
}

/// The store is not asked to change the check exactly where the answer speaks of a fulfilment, or
/// where a fulfilment is answered with a return.
pub proof fn law_fulfilment_brings_no_change_in_the_store<R: Records>(
    operation: &FraudCheckPost,
    frm_data: FrmData<R>,
    payment_data: &PaymentData<R>,
    frm_suggestion: Option<FrmSuggestion>,
    frm_router_data: FrmRouterData<R>,
    labels: &Labels,
    now: R::Timestamp,
    step: UpdateStep<R>,
)
    requires
        call_ensures(
            FraudCheckPost::update_tracker::<R>,
            (operation, frm_data, payment_data, frm_suggestion, frm_router_data, labels, now),
            step,
        ),
    ensures
        ({
            let change = change_of(step);
            change is None <==> {
                ||| frm_router_data.response matches FrmResponse::Sale(Ok(answer))
                    && answer is FulfillmentResponse
                ||| frm_router_data.response matches FrmResponse::RecordReturn(Ok(answer))
                    && answer is FulfillmentResponse
                ||| frm_router_data.response matches FrmResponse::Fulfillment(Ok(answer))
                    && !(answer is TransactionResponse)
            }
        }),
{
}

/// What a suggestion means: a cancelled payment has failed and is rejected, with the message of a
/// cancellation; one that the merchant is to look at is unresolved and waits for the merchant; one
/// that is to be authorised is, and waits for its capture. Only the first bears a decision or a
/// message.
pub proof fn law_suggestion_meanings(
    suggestion: FrmSuggestion,
    labels: &Labels,
    rejection: Rejection,
)
    requires
        call_ensures(reject, (suggestion, labels), rejection),
    ensures
        suggestion == FrmSuggestion::FrmCancelTransaction ==> {
            &&& rejection.attempt_status == AttemptStatus::Failure
            &&& rejection.intent_status == IntentStatus::Failed
            &&& rejection.merchant_decision == Some(labels.rejected)
            &&& rejection.error_message == Some(Some(labels.cancel_initiated))
        },
        suggestion == FrmSuggestion::FrmManualReview ==> {
            &&& rejection.attempt_status == AttemptStatus::Unresolved
            &&& rejection.intent_status == IntentStatus::RequiresMerchantAction
        },
        suggestion == FrmSuggestion::FrmAuthorizeTransaction ==> {
            &&& rejection.attempt_status == AttemptStatus::Authorized
            &&& rejection.intent_status == IntentStatus::RequiresCapture
        },
        suggestion != FrmSuggestion::FrmCancelTransaction ==> {
            &&& rejection.merchant_decision is None
            &&& rejection.error_message is None
        },
{
}

/// A suggestion has the attempt and the intent of the running payment written down, each in its
/// meaning, under the status that the check has and in the name of the merchant's storage scheme.
/// The attempt comes first; the intent and the check wait for it.
pub proof fn law_suggestion_is_written_down<R: Records>(
    operation: &FraudCheckPost,
    frm_data: FrmData<R>,
    payment_data: &PaymentData<R>,
    suggestion: FrmSuggestion,
    frm_router_data: FrmRouterData<R>,
    labels: &Labels,
    now: R::Timestamp,
    step: UpdateStep<R>,
    rejection: Rejection,
)
    requires
        call_ensures(
            FraudCheckPost::update_tracker::<R>,
            (operation, frm_data, payment_data, Some(suggestion), frm_router_data, labels, now),
            step,
        ),
        call_ensures(reject, (suggestion, labels), rejection),
    ensures
        ({
            let status_text = match frm_data.fraud_check.frm_status {
                FraudCheckStatus::Fraud => labels.fraud,
                FraudCheckStatus::ManualReview => labels.manual_review,
                FraudCheckStatus::Pending => labels.pending,
                FraudCheckStatus::Legit => labels.legit,
                FraudCheckStatus::TransactionFailure => labels.transaction_failure,
            };
            let scheme_text = match frm_data.merchant_account.storage_scheme {
                MerchantStorageScheme::PostgresOnly => labels.postgres_only,
                MerchantStorageScheme::RedisKv => labels.redis_kv,
            };
            &&& step matches UpdateStep::Attempt(pending, call)
            &&& call.this == payment_data.payment_attempt
            &&& call.storage_scheme == frm_data.merchant_account.storage_scheme
            &&& call.payment_attempt == (PaymentAttemptUpdate::RejectUpdate {
                status: rejection.attempt_status,
                error_code: Some(Some(status_text)),
                error_message: rejection.error_message,
                updated_by: scheme_text,
            })
            &&& pending.payment_intent == (PaymentIntentUpdate::RejectUpdate {
                status: rejection.intent_status,
                merchant_decision: rejection.merchant_decision,
                updated_by: scheme_text,
            })
            &&& pending.frm_data == frm_data
        }),
{
}

/// Without a suggestion neither the attempt nor the intent is written: what is left is the change
/// to the check that the data holds, or the data as it is.
pub proof fn law_no_suggestion_spares_payment<R: Records>(
    operation: &FraudCheckPost,
    frm_data: FrmData<R>,
    payment_data: &PaymentData<R>,
    frm_router_data: FrmRouterData<R>,
    labels: &Labels,
    now: R::Timestamp,
    step: UpdateStep<R>,
)
    requires
        call_ensures(
            FraudCheckPost::update_tracker::<R>,
            (operation, frm_data, payment_data, None, frm_router_data, labels, now),
            step,
        ),
    ensures
        step matches UpdateStep::FraudCheck(last) && match last {
            FraudCheckStep::Update(pending, call) => {
                &&& pending.frm_data == frm_data
                &&& call.this == frm_data.fraud_check
            },
            FraudCheckStep::Done(done) => done == frm_data,
        },
{
}

/// Once the attempt is stored, the payment holds the stored one and the store is asked to write the
/// intent that the payment holds, as was prepared. A refusal ends it as a missing payment and
/// changes nothing.
pub proof fn law_stored_attempt_is_taken<R: Records>(
    pending: AttemptPending<R>,
    payment_data: &mut PaymentData<R>,
    stored: Result<PaymentAttempt<R>, R::StorageError>,
    next: Result<(IntentPending<R>, IntentCall<R>), Failure<R>>,
)
    requires
        call_ensures(AttemptPending::<R>::resume, (pending, payment_data, stored), next),
    ensures
        stored matches Ok(payment_attempt) ==> {
            &&& final(payment_data).payment_attempt == payment_attempt
            &&& final(payment_data).payment_intent == old(payment_data).payment_intent
            &&& final(payment_data).record == old(payment_data).record
            &&& next matches Ok((waiting, call))
            &&& call.this == old(payment_data).payment_intent
            &&& call.payment_intent == pending.payment_intent
            &&& call.storage_scheme == pending.frm_data.merchant_account.storage_scheme
            &&& waiting.frm_data == pending.frm_data
            &&& waiting.fraud_check == pending.fraud_check
        },
        stored matches Err(refusal) ==> {
            &&& *final(payment_data) == *old(payment_data)
            &&& next matches Err(Failure::NotFoundResponse { error, response })
            &&& error == refusal
            &&& response == ApiErrorResponse::PaymentNotFound
        },
{
}

/// Once the intent is stored, the payment holds the stored one, and the store is asked for the
/// change to the check that waited, or the data is handed back where none did. A refusal ends it
/// as a missing payment and changes nothing, not even the attempt that was taken before.
pub proof fn law_stored_intent_is_taken<R: Records>(
    pending: IntentPending<R>,
    payment_data: &mut PaymentData<R>,
    stored: Result<PaymentIntent<R>, R::StorageError>,
    next: Result<FraudCheckStep<R>, Failure<R>>,
)
    requires
        call_ensures(IntentPending::<R>::resume, (pending, payment_data, stored), next),
    ensures
        stored matches Ok(payment_intent) ==> {
            &&& final(payment_data).payment_intent == payment_intent
            &&& final(payment_data).payment_attempt == old(payment_data).payment_attempt
            &&& final(payment_data).record == old(payment_data).record
            &&& next matches Ok(last)
            &&& pending.fraud_check is None ==> last == FraudCheckStep::Done(pending.frm_data)
            &&& pending.fraud_check matches Some(change) ==> {
                &&& last matches FraudCheckStep::Update(waiting, call)
                &&& call.fraud_check == change
                &&& call.this == pending.frm_data.fraud_check
                &&& waiting.frm_data == pending.frm_data
            }
        },
        stored matches Err(refusal) ==> {
            &&& *final(payment_data) == *old(payment_data)
            &&& next matches Err(Failure::NotFoundResponse { error, response })
            &&& error == refusal
            &&& response == ApiErrorResponse::PaymentNotFound
        },
{
}

/// Once the check is stored, the result is the data under check with the stored check, and nothing
/// else of it changed. A refusal is told as a missing payment, whatever it was.
pub proof fn law_stored_check_is_taken<R: Records>(
    pending: FraudCheckPending<R>,
    stored: Result<FraudCheck<R>, R::StorageError>,
    done: Result<FrmData<R>, Failure<R>>,
)
    requires
        call_ensures(FraudCheckPending::<R>::resume, (pending, stored), done),
    ensures
        stored matches Ok(fraud_check) ==> done == Ok::<FrmData<R>, Failure<R>>(
            FrmData { fraud_check, ..pending.frm_data },
        ),
        stored matches Err(refusal) ==> {
            &&& done matches Err(Failure::ChangedContext { error, response })
            &&& error == refusal
            &&& response == ApiErrorResponse::PaymentNotFound
        },
{
}

/// Each status and each storage scheme is written down under its own text.
pub proof fn law_texts_are_their_own(
    labels: &Labels,
    status: FraudCheckStatus,
    status_text: String,
    scheme: MerchantStorageScheme,
    scheme_text: String,
)
    requires
        call_ensures(Labels::status, (labels, status), status_text),
        call_ensures(Labels::storage_scheme, (labels, scheme), scheme_text),
    ensures
        status_text == match status {
            FraudCheckStatus::Fraud => labels.fraud,
            FraudCheckStatus::ManualReview => labels.manual_review,
            FraudCheckStatus::Pending => labels.pending,
            FraudCheckStatus::Legit => labels.legit,
            FraudCheckStatus::TransactionFailure => labels.transaction_failure,
        },
        scheme_text == match scheme {
            MerchantStorageScheme::PostgresOnly => labels.postgres_only,
            MerchantStorageScheme::RedisKv => labels.redis_kv,
        },
{
}

/// Replacing one part of a payment leaves the other parts as they are.
pub proof fn law_parts_are_replaced_alone<R: Records>(
    first: &mut PaymentData<R>,
    payment_attempt: PaymentAttempt<R>,
    second: &mut PaymentData<R>,
    payment_intent: PaymentIntent<R>,
    third: &mut PaymentData<R>,
    status: IntentStatus,
)
    requires
        call_ensures(PaymentData::<R>::set_payment_attempt, (first, payment_attempt), ()),
        call_ensures(PaymentData::<R>::set_payment_intent, (second, payment_intent), ()),
        call_ensures(PaymentData::<R>::set_payment_intent_status, (third, status), ()),
    ensures
        final(first).payment_attempt == payment_attempt,
        final(first).payment_intent == old(first).payment_intent,
        final(first).record == old(first).record,
        final(second).payment_intent == payment_intent,
        final(second).payment_attempt == old(second).payment_attempt,
        final(second).record == old(second).record,
        final(third).payment_intent.status == status,
        final(third).payment_intent.payment_id == old(third).payment_intent.payment_id,
        final(third).payment_intent.record == old(third).payment_intent.record,
        final(third).payment_attempt == old(third).payment_attempt,
        final(third).record == old(third).record,
{
}

} // verus!
