//! What holds of the check as a whole, over several of its steps.

use vstd::prelude::*;
use crate::fraud_check::FraudCheck;
use crate::fraud_check::FraudCheckLastStep;
use crate::fraud_check::FraudCheckStatus;
use crate::fraud_check::FraudCheckUpdateView;
use crate::fraud_check::FrmSuggestion;
use crate::frm::FraudCheckResponseData;
use crate::frm::FrmData;
use crate::frm::FrmResponse;
use crate::frm::SaleRouterData;
use crate::get_trackers::Absent;
use crate::get_trackers::InsertPending;
use crate::get_trackers::LookupPending;
use crate::get_trackers::TrackerStep;
use crate::labels::Labels;
use crate::operation::ApiErrorResponse;
use crate::payments::ApplicationResponse;
use crate::payments::IntentCall;
use crate::payments::PaymentAttemptUpdate;
use crate::payments::PaymentData;
use crate::payments::PaymentIntentUpdate;
use crate::post_tasks::PostTask;
use crate::post_tasks::Remedy;
use crate::records::AttemptStatus;
use crate::records::IntentStatus;
use crate::records::PaymentAttempt;
use crate::records::PaymentIntent;
use crate::records::Records;
use crate::sale::PostSalePending;
use crate::update_tracker::Failure;
use crate::update_tracker::FraudCheckStep;
use crate::update_tracker::PostFlow;
use crate::update_tracker::UpdateStep;

verus! {

/// The end of the search for a check, given what the store answers: the data under check, if any,
/// and whether a check was made.
pub open spec fn tracker_run<R: Records>(
    pending: LookupPending<R>,
    found: Result<Option<FraudCheck<R>>, R::StorageError>,
    inserted: Result<FraudCheck<R>, R::StorageError>,
) -> (Option<FrmData<R>>, bool) {
    match pending.resumed(found) {
        TrackerStep::Done(frm_data) => (frm_data, false),
        TrackerStep::Absent(absent) => (
            InsertPending { payment_data: absent.payment_data }.resumed(inserted),
            true,
        ),
    }
}

/// A check is made exactly where the store does not hand one out, be it that there is none or
/// that the search failed. The payment is checked unless making the check fails too.
pub proof fn law_check_made_only_where_none_is_found<R: Records>(
    pending: LookupPending<R>,
    found: Result<Option<FraudCheck<R>>, R::StorageError>,
    inserted: Result<FraudCheck<R>, R::StorageError>,
)
    ensures
        tracker_run(pending, found, inserted).1 <==> !(found matches Ok(Some(_))),
        tracker_run(pending, found, inserted).0 is None <==> !(found matches Ok(Some(_)))
            && inserted is Err,
{
}

/// A search that fails leads to the same step as one that finds nothing.
pub proof fn law_failed_search_is_absence<R: Records>(
    pending: LookupPending<R>,
    error: R::StorageError,
)
    ensures
        pending.resumed(Err(error)) == pending.resumed(Ok(None)),
{
}

/// The data under check holds the very check that the store handed out, and the payment as it came.
pub proof fn law_check_is_the_stored_one<R: Records>(
    pending: LookupPending<R>,
    found: Result<Option<FraudCheck<R>>, R::StorageError>,
    inserted: Result<FraudCheck<R>, R::StorageError>,
)
    ensures
        tracker_run(pending, found, inserted).0 matches Some(frm_data) ==> {
            &&& frm_data.fraud_check == match found {
                Ok(Some(fraud_check)) => fraud_check,
                _ => inserted->Ok_0,
            }
            &&& frm_data.payment_intent == pending.payment_data.payment_intent
            &&& frm_data.payment_attempt == pending.payment_data.payment_attempt
            &&& frm_data.merchant_account == pending.payment_data.merchant_account
            &&& frm_data.address == pending.payment_data.address
            &&& frm_data.connector_details == pending.payment_data.connector_details
            &&& frm_data.order_details == pending.payment_data.order_details
            &&& frm_data.frm_metadata == pending.payment_data.frm_metadata
            &&& frm_data.refund is None
        },
{
}

/// A check that stands as it was made is one of which the fraud service has yet to hear, and
/// calls for nothing before.
pub proof fn law_new_check_awaits_sale<R: Records>(
    absent: Absent<R>,
    frm_id: String,
    created_at: R::Timestamp,
    modified_at: R::Timestamp,
    fraud_check: FraudCheck<R>,
)
    requires
        ({
            let new = crate::get_trackers::new_fraud_check(
                absent,
                frm_id,
                created_at,
                modified_at,
            );
            fraud_check.frm_status == new.frm_status && fraud_check.last_step == new.last_step
        }),
    ensures
        crate::sale::sale_due(fraud_check),
        crate::post_tasks::remedy_of(fraud_check) == Remedy::Nothing,
{
}

/// The fraud service is told of a sale until it answers, and not again after that. Nothing else of
/// the data under check changes, whatever the service did to its copy.
pub proof fn law_sale_told_until_answered<R: Records>(
    frm_data: FrmData<R>,
    answer: Result<SaleRouterData<R>, R::Error>,
)
    requires
        crate::sale::sale_due(frm_data.fraud_check),
    ensures
        crate::sale::sale_due(PostSalePending.resumed(frm_data, answer).0.fraud_check)
            <==> answer is Err,
        answer is Err ==> PostSalePending.resumed(frm_data, answer).0 == frm_data,
        answer is Ok ==> PostSalePending.resumed(frm_data, answer).0 == (FrmData {
            fraud_check: FraudCheck {
                last_step: FraudCheckLastStep::CheckoutOrSale,
                ..frm_data.fraud_check
            },
            ..frm_data
        }),
{
}

/// Acting on a verdict from beginning to end, given what the payment core and the fraud service
/// answer: the data under check and the payment afterwards, and the result.
pub open spec fn post_tasks_run<R: Records>(
    frm_data: FrmData<R>,
    payment_data: PaymentData<R>,
    core: Result<ApplicationResponse, R::Error>,
    service: Result<(), R::Error>,
) -> (FrmData<R>, PaymentData<R>, Result<Option<FrmData<R>>, R::Error>) {
    match crate::post_tasks::first_task(frm_data) {
        PostTask::Done(done) => (frm_data, payment_data, Ok(done)),
        PostTask::Capture(pending, _) => {
            let (payment_data, done) = pending.resumed(frm_data, payment_data, core);
            (frm_data, payment_data, done)
        },
        PostTask::Cancel(pending, _) => match pending.resumed(frm_data, payment_data, core) {
            (payment_data, Err(error)) => (frm_data, payment_data, Err(error)),
            (payment_data, Ok((pending, _))) => {
                let (frm_data, done) = pending.resumed(frm_data, service);
                (frm_data, payment_data, done)
            },
        },
    }
}

/// A fraudulent payment is cancelled until the cancellation and the return are both through, and
/// not again after that: until then the data under check stays as it was.
pub proof fn law_fraud_cancelled_until_through<R: Records>(
    frm_data: FrmData<R>,
    payment_data: PaymentData<R>,
    core: Result<ApplicationResponse, R::Error>,
    service: Result<(), R::Error>,
)
    requires
        crate::post_tasks::remedy_of(frm_data.fraud_check) == Remedy::Cancel,
    ensures
        ({
            let (after, _, done) = post_tasks_run(frm_data, payment_data, core, service);
            &&& done is Ok <==> core is Ok && service is Ok
            &&& done is Ok ==> crate::post_tasks::remedy_of(after.fraud_check) == Remedy::Nothing
            &&& done is Ok ==> after == (FrmData {
                fraud_check: FraudCheck {
                    last_step: FraudCheckLastStep::TransactionOrRecordRefund,
                    ..frm_data.fraud_check
                },
                ..frm_data
            })
            &&& done is Err ==> after == frm_data
        }),
{
}

/// Acting on a verdict that does not call for a cancellation leaves the data under check as it is.
pub proof fn law_data_kept_unless_cancelled<R: Records>(
    frm_data: FrmData<R>,
    payment_data: PaymentData<R>,
    core: Result<ApplicationResponse, R::Error>,
    service: Result<(), R::Error>,
)
    requires
        crate::post_tasks::remedy_of(frm_data.fraud_check) != Remedy::Cancel,
    ensures
        post_tasks_run(frm_data, payment_data, core, service).0 == frm_data,
{
}

/// Where acting on a verdict succeeds, its result is the data under check as it then stands.
pub proof fn law_result_is_data_under_check<R: Records>(
    frm_data: FrmData<R>,
    payment_data: PaymentData<R>,
    core: Result<ApplicationResponse, R::Error>,
    service: Result<(), R::Error>,
)
    ensures
        ({
            let (after, _, done) = post_tasks_run(frm_data, payment_data, core, service);
            done matches Ok(result) ==> result == Some(after)
        }),
{
}

/// Acting on a verdict changes nothing of the payment but the status of its intent, and that only
/// to the one that the payment core reports, where it was called.
pub proof fn law_payment_takes_reported_status_only<R: Records>(
    frm_data: FrmData<R>,
    payment_data: PaymentData<R>,
    core: Result<ApplicationResponse, R::Error>,
    service: Result<(), R::Error>,
)
    ensures
        ({
            let (_, after, _) = post_tasks_run(frm_data, payment_data, core, service);
            let remedy = crate::post_tasks::remedy_of(frm_data.fraud_check);
            if (remedy == Remedy::Cancel || remedy == Remedy::Capture) && core is Ok
                && core->Ok_0 is JsonWithHeaders {
                after == (PaymentData {
                    payment_intent: PaymentIntent {
                        status: core->Ok_0->JsonWithHeaders_0.status,
                        ..payment_data.payment_intent
                    },
                    ..payment_data
                })
            } else {
                after == payment_data
            }
        }),
{
}

/// A payment is cancelled only for a fraud that the fraud service reported after the sale, and
/// captured only where it was found legitimate: never both.
pub proof fn law_cancelled_only_for_fraud<R: Records>(frm_data: FrmData<R>)
    ensures
        crate::post_tasks::first_task(frm_data) is Cancel <==> frm_data.fraud_check.frm_status
            is Fraud && frm_data.fraud_check.last_step is CheckoutOrSale,
        crate::post_tasks::first_task(frm_data) is Capture <==> frm_data.fraud_check.frm_status
            is Legit && crate::post_tasks::captures_by_itself(
            frm_data.fraud_check.payment_capture_method,
        ),
{
}

/// The check never comes to suggest that a payment be authorised, and takes no suggestion back.
pub proof fn law_suggestions_cancel_or_review(remedy: Remedy, before: Option<FrmSuggestion>)
    ensures
        ({
            let after = crate::post_tasks::suggestion_after(remedy, before);
            &&& after == before || after == Some(FrmSuggestion::FrmCancelTransaction) || after
                == Some(FrmSuggestion::FrmManualReview)
            &&& before is Some ==> after is Some
        }),
{
}

/// The fraud service's verdict on a sale decides what is done with the payment: a check that takes
/// over the change which the verdict brings calls for a cancellation where it says fraud, for a
/// review where it says so, and for a capture where it says legitimate and the money is captured
/// without being asked for.
pub proof fn law_verdict_on_sale_decides<R: Records>(
    frm_data: FrmData<R>,
    router_data: SaleRouterData<R>,
    now: R::Timestamp,
    stored: FraudCheck<R>,
)
    requires
        router_data.response matches Ok(answer) && answer is TransactionResponse,
        ({
            let (after, outcome) = PostSalePending.resumed(frm_data, Ok(router_data));
            let response = outcome->Ok_0->0.response;
            crate::update_tracker::planned_update(response, after.fraud_check, now) matches Some(
                FraudCheckUpdateView::ResponseUpdate {
                    frm_status,
                    last_step,
                    payment_capture_method,
                    ..
                },
            ) ==> {
                &&& stored.frm_status == frm_status
                &&& stored.last_step == last_step
                &&& stored.payment_capture_method == payment_capture_method
            }
        }),
    ensures
        ({
            let status = router_data.response->Ok_0->TransactionResponse_status;
            crate::post_tasks::remedy_of(stored) == match status {
                FraudCheckStatus::Fraud => Remedy::Cancel,
                FraudCheckStatus::ManualReview => Remedy::Review,
                FraudCheckStatus::Legit => if crate::post_tasks::captures_by_itself(
                    frm_data.fraud_check.payment_capture_method,
                ) {
                    Remedy::Capture
                } else {
                    Remedy::Nothing
                },
                FraudCheckStatus::Pending => Remedy::Nothing,
                FraudCheckStatus::TransactionFailure => Remedy::Nothing,
            }
        }),
{
}

/// Whatever the fraud service answers, a change to a check either marks it as failed with a
/// message or keeps its progress and its capture method and bears the time of the answer.
pub proof fn law_change_fails_or_keeps_progress<R: Records>(
    response: FrmResponse<R>,
    fraud_check: FraudCheck<R>,
    now: R::Timestamp,
)
    ensures
        match crate::update_tracker::planned_update(response, fraud_check, now) {
            None => true,
            Some(FraudCheckUpdateView::ErrorUpdate { status, error_message }) => {
                &&& status is TransactionFailure
                &&& error_message matches Some(Some(_))
            },
            Some(
                FraudCheckUpdateView::ResponseUpdate {
                    modified_at,
                    last_step,
                    payment_capture_method,
                    ..
                },
            ) => {
                &&& modified_at == now
                &&& last_step == fraud_check.last_step
                &&& payment_capture_method == fraud_check.payment_capture_method
            },
        },
{
}

/// An error of the fraud service marks the check as failed, in its own words.
pub proof fn law_error_marks_check_failed<R: Records>(
    response: FrmResponse<R>,
    fraud_check: FraudCheck<R>,
    now: R::Timestamp,
)
    requires
        crate::update_tracker::post_answer(response) matches Some((_, Err(_))),
    ensures
        crate::update_tracker::planned_update(response, fraud_check, now) == Some(
            crate::update_tracker::failure_update::<R>(
                (crate::update_tracker::post_answer(response)->0).1->Err_0.message@,
            ),
        ),
{
}

/// An answer leaves the check as it is exactly where it speaks of a fulfilment, or where a
/// fulfilment is answered with a return.
pub proof fn law_fulfilment_changes_nothing<R: Records>(
    response: FrmResponse<R>,
    fraud_check: FraudCheck<R>,
    now: R::Timestamp,
)
    ensures
        crate::update_tracker::planned_update(response, fraud_check, now) is None <==> {
            &&& crate::update_tracker::post_answer(response) matches Some((flow, Ok(answer)))
            &&& answer is FulfillmentResponse || flow == PostFlow::Fulfillment
                && answer is RecordReturnResponse
        },
{
}

/// The answer to a return keeps the verdict that the check holds.
pub proof fn law_return_keeps_verdict<R: Records>(
    answer: FraudCheckResponseData,
    fraud_check: FraudCheck<R>,
    now: R::Timestamp,
)
    requires
        answer is RecordReturnResponse,
    ensures
        crate::update_tracker::planned_update(
            FrmResponse::RecordReturn(Ok(answer)),
            fraud_check,
            now,
        ) matches Some(
            FraudCheckUpdateView::ResponseUpdate { frm_status, frm_reason, frm_score, .. },
        ) && frm_status == fraud_check.frm_status && frm_reason == fraud_check.frm_reason
            && frm_score == fraud_check.frm_score,
{
}

/// A payment that is cancelled for fraud is written down as failed and rejected.
pub proof fn law_fraud_is_rejected<R: Records>(
    frm_data: FrmData<R>,
    before: Option<FrmSuggestion>,
    labels: Labels,
)
    requires
        crate::post_tasks::first_task(frm_data) is Cancel,
    ensures
        ({
            let remedy = crate::post_tasks::remedy_of(frm_data.fraud_check);
            let suggestion = crate::post_tasks::suggestion_after(remedy, before);
            let updated_by = labels.of_storage_scheme(frm_data.merchant_account.storage_scheme);
            &&& suggestion is Some
            &&& crate::update_tracker::attempt_update(frm_data, suggestion->0, labels)
                == (PaymentAttemptUpdate::RejectUpdate {
                status: AttemptStatus::Failure,
                error_code: Some(Some(labels.fraud)),
                error_message: Some(Some(labels.cancel_initiated)),
                updated_by,
            })
            &&& crate::update_tracker::intent_update(frm_data, suggestion->0, labels)
                == (PaymentIntentUpdate::RejectUpdate {
                status: IntentStatus::Failed,
                merchant_decision: Some(labels.rejected),
                updated_by,
            })
        }),
{
}

/// A payment that awaits a review is written down as unresolved, with no decision of the merchant.
pub proof fn law_review_is_unresolved<R: Records>(
    frm_data: FrmData<R>,
    before: Option<FrmSuggestion>,
    labels: Labels,
)
    requires
        crate::post_tasks::remedy_of(frm_data.fraud_check) == Remedy::Review,
    ensures
        ({
            let suggestion = crate::post_tasks::suggestion_after(Remedy::Review, before);
            let updated_by = labels.of_storage_scheme(frm_data.merchant_account.storage_scheme);
            &&& suggestion is Some
            &&& crate::update_tracker::attempt_update(frm_data, suggestion->0, labels)
                == (PaymentAttemptUpdate::RejectUpdate {
                status: AttemptStatus::Unresolved,
                error_code: Some(Some(labels.manual_review)),
                error_message: None,
                updated_by,
            })
            &&& crate::update_tracker::intent_update(frm_data, suggestion->0, labels)
                == (PaymentIntentUpdate::RejectUpdate {
                status: IntentStatus::RequiresMerchantAction,
                merchant_decision: None,
                updated_by,
            })
        }),
{
}

/// What the store answers while an outcome is stored.
pub ghost struct StoreAnswers<R: Records> {
    pub attempt: Result<PaymentAttempt<R>, R::StorageError>,
    pub intent: Result<PaymentIntent<R>, R::StorageError>,
    pub fraud_check: Result<FraudCheck<R>, R::StorageError>,
}

/// The end of storing an outcome once the records of the payment are settled.
pub open spec fn fraud_check_run<R: Records>(
    step: FraudCheckStep<R>,
    stored: Result<FraudCheck<R>, R::StorageError>,
) -> Result<FrmData<R>, Failure<R>> {
    match step {
        FraudCheckStep::Done(frm_data) => Ok(frm_data),
        FraudCheckStep::Update(pending, _) => pending.resumed(stored),
    }
}

/// Storing an outcome from its first step to its end: the payment afterwards, and the result.
pub open spec fn update_run<R: Records>(
    step: UpdateStep<R>,
    payment_data: PaymentData<R>,
    answers: StoreAnswers<R>,
) -> (PaymentData<R>, Result<FrmData<R>, Failure<R>>) {
    match step {
        UpdateStep::FraudCheck(step) => (payment_data, fraud_check_run(step, answers.fraud_check)),
        UpdateStep::Attempt(pending, _) => match pending.resumed(payment_data, answers.attempt) {
            (payment_data, Err(failure)) => (payment_data, Err(failure)),
            (payment_data, Ok((pending, _))) => match pending.resumed(
                payment_data,
                answers.intent,
            ) {
                (payment_data, Err(failure)) => (payment_data, Err(failure)),
                (payment_data, Ok(step)) => (
                    payment_data,
                    fraud_check_run(step, answers.fraud_check),
                ),
            },
        },
    }
}

/// Without a suggestion the payment is left as it is; with one, it holds the attempt and the
/// intent that the store handed out, each unless the store refused it or what came before it.
pub proof fn law_payment_takes_stored_records<R: Records>(
    step: UpdateStep<R>,
    frm_data: FrmData<R>,
    payment_data: PaymentData<R>,
    suggestion: Option<FrmSuggestion>,
    labels: Labels,
    plan: Option<FraudCheckUpdateView<R>>,
    answers: StoreAnswers<R>,
)
    requires
        step.begins(frm_data, payment_data, suggestion, labels, plan),
    ensures
        update_run(step, payment_data, answers).0 == match (
            suggestion,
            answers.attempt,
            answers.intent,
        ) {
            (Some(_), Ok(payment_attempt), Ok(payment_intent)) => PaymentData {
                payment_attempt,
                payment_intent,
                ..payment_data
            },
            (Some(_), Ok(payment_attempt), Err(_)) => PaymentData {
                payment_attempt,
                ..payment_data
            },
            _ => payment_data,
        },
{
}

/// Once the store has changed the attempt, it is asked for the change to the intent that the
/// suggestion calls for; once it has changed the intent, for the planned change to the check.
pub proof fn law_later_calls_follow_the_plan<R: Records>(
    step: UpdateStep<R>,
    frm_data: FrmData<R>,
    payment_data: PaymentData<R>,
    suggestion: FrmSuggestion,
    labels: Labels,
    plan: Option<FraudCheckUpdateView<R>>,
    payment_attempt: PaymentAttempt<R>,
    payment_intent: PaymentIntent<R>,
)
    requires
        step.begins(frm_data, payment_data, Some(suggestion), labels, plan),
    ensures
        ({
            let (after_attempt, next) = step->Attempt_0.resumed(payment_data, Ok(payment_attempt));
            &&& step is Attempt
            &&& next matches Ok((pending, call))
            &&& call == (IntentCall {
                this: payment_data.payment_intent,
                payment_intent: crate::update_tracker::intent_update(frm_data, suggestion, labels),
                storage_scheme: frm_data.merchant_account.storage_scheme,
            })
            &&& pending.resumed(after_attempt, Ok(payment_intent)).1 matches Ok(last)
            &&& last.carries_out(frm_data, plan)
        }),
{
}

/// The first refusal of the store, in the order attempt, intent, fraud check and among the records
/// that are written at all, is the one that the caller is told of. Without one, the result is the
/// data under check, with the check that the store handed out where the check was changed.
pub proof fn law_first_refusal_is_told<R: Records>(
    step: UpdateStep<R>,
    frm_data: FrmData<R>,
    payment_data: PaymentData<R>,
    suggestion: Option<FrmSuggestion>,
    labels: Labels,
    plan: Option<FraudCheckUpdateView<R>>,
    answers: StoreAnswers<R>,
)
    requires
        step.begins(frm_data, payment_data, suggestion, labels, plan),
    ensures
        ({
            let done = update_run(step, payment_data, answers).1;
            let response = ApiErrorResponse::PaymentNotFound;
            if suggestion is Some && answers.attempt is Err {
                done == Err::<FrmData<R>, Failure<R>>(
                    Failure::NotFoundResponse { error: answers.attempt->Err_0, response },
                )
            } else if suggestion is Some && answers.intent is Err {
                done == Err::<FrmData<R>, Failure<R>>(
                    Failure::NotFoundResponse { error: answers.intent->Err_0, response },
                )
            } else if plan is None {
                done == Ok::<FrmData<R>, Failure<R>>(frm_data)
            } else if answers.fraud_check is Err {
                done == Err::<FrmData<R>, Failure<R>>(
                    Failure::ChangedContext { error: answers.fraud_check->Err_0, response },
                )
            } else {
                done == Ok::<FrmData<R>, Failure<R>>(
                    FrmData { fraud_check: answers.fraud_check->Ok_0, ..frm_data },
                )
            }
        }),
{
}

} // verus!
