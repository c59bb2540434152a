//! What holds of every verdict that is acted upon, over the results of the calls.

use vstd::prelude::*;
use crate::fraud_check::FraudCheck;
use crate::fraud_check::FraudCheckLastStep;
use crate::fraud_check::FraudCheckStatus;
use crate::fraud_check::FrmSuggestion;
use crate::frm::FrmData;
use crate::frm::FrmFlow;
use crate::frm::ServiceCall;
use crate::operation::FraudCheckPost;
use crate::payments::ApplicationResponse;
use crate::payments::AuthFlow;
use crate::payments::CallConnectorAction;
use crate::payments::HeaderPayload;
use crate::payments::PaymentData;
use crate::payments::PaymentOperation;
use crate::post_tasks::CancelPending;
use crate::post_tasks::CapturePending;
use crate::post_tasks::PostTask;
use crate::post_tasks::ReturnPending;
use crate::records::CaptureMethod;
use crate::records::PaymentIntent;
use crate::records::Records;

verus! {

/// A payment is cancelled exactly where it is a fraud of which the last the service heard was the
/// sale, captured exactly where it is legitimate and its money is captured automatically, and
/// otherwise left as it is, with the data under check for a result.
pub proof fn law_verdict_decides_task<R: Records>(
    operation: &FraudCheckPost,
    frm_data: &FrmData<R>,
    frm_suggestion: &mut Option<FrmSuggestion>,
    task: PostTask<R>,
)
    requires
        call_ensures(
            FraudCheckPost::execute_post_tasks::<R>,
            (operation, frm_data, frm_suggestion),
            task,
        ),
    ensures
        task is Cancel <==> {
            &&& frm_data.fraud_check.frm_status == FraudCheckStatus::Fraud
            &&& frm_data.fraud_check.last_step == FraudCheckLastStep::CheckoutOrSale
        },
        task is Capture <==> {
            &&& frm_data.fraud_check.frm_status == FraudCheckStatus::Legit
            &&& {
                ||| frm_data.fraud_check.payment_capture_method == Some(CaptureMethod::Automatic)
                ||| frm_data.fraud_check.payment_capture_method == Some(
                    CaptureMethod::SequentialAutomatic,
                )
            }
        },
        task matches PostTask::Done(done) ==> done == Some(*frm_data),
{
}

/// A cancellation is suggested exactly where the payment is being cancelled, and a look by the
/// merchant exactly where the service asked for one; otherwise the suggestion stays as it was.
pub proof fn law_verdict_decides_suggestion<R: Records>(
    operation: &FraudCheckPost,
    frm_data: &FrmData<R>,
    frm_suggestion: &mut Option<FrmSuggestion>,
    task: PostTask<R>,
)
    requires
        call_ensures(
            FraudCheckPost::execute_post_tasks::<R>,
            (operation, frm_data, frm_suggestion),
            task,
        ),
    ensures
        task is Cancel ==> *final(frm_suggestion) == Some(FrmSuggestion::FrmCancelTransaction),
        frm_data.fraud_check.frm_status == FraudCheckStatus::ManualReview ==> *final(frm_suggestion)
            == Some(FrmSuggestion::FrmManualReview),
        !(task is Cancel) && frm_data.fraud_check.frm_status != FraudCheckStatus::ManualReview
            ==> *final(frm_suggestion) == *old(frm_suggestion),
{
}

/// Every call to the payment core, be it to cancel or to capture, names the payment under check,
/// has the connector called, is made in the merchant's name and chooses nothing else. What is
/// cancelled is cancelled for the reason that the check holds, and what is captured is captured
/// without an amount being named.
pub proof fn law_core_calls_reach_the_connector<R: Records>(
    operation: &FraudCheckPost,
    frm_data: &FrmData<R>,
    frm_suggestion: &mut Option<FrmSuggestion>,
    task: PostTask<R>,
)
    requires
        call_ensures(
            FraudCheckPost::execute_post_tasks::<R>,
            (operation, frm_data, frm_suggestion),
            task,
        ),
    ensures
        task matches PostTask::Cancel(_, call) ==> {
            &&& call.operation == PaymentOperation::PaymentCancel
            &&& call.call_connector_action == CallConnectorAction::Trigger
            &&& call.auth_flow == AuthFlow::Merchant
            &&& call.profile_id is None
            &&& call.eligible_connectors is None
            &&& call.header_payload == HeaderPayload::Default
            &&& call.request.payment_id == frm_data.payment_intent.payment_id
            &&& call.request.cancellation_reason == frm_data.fraud_check.frm_error
            &&& call.request.merchant_connector_details is None
        },
        task matches PostTask::Capture(_, call) ==> {
            &&& call.operation == PaymentOperation::PaymentCapture
            &&& call.call_connector_action == CallConnectorAction::Trigger
            &&& call.auth_flow == AuthFlow::Merchant
            &&& call.profile_id is None
            &&& call.eligible_connectors is None
            &&& call.header_payload == HeaderPayload::Default
            &&& call.request.payment_id == frm_data.payment_intent.payment_id
            &&& call.request.merchant_id is None
            &&& call.request.amount_to_capture is None
            &&& call.request.refund_uncaptured_amount is None
            &&& call.request.statement_descriptor_suffix is None
            &&& call.request.statement_descriptor_prefix is None
            &&& call.request.merchant_connector_details is None
        },
{
}

/// Once the payment core has cancelled, the payment bears the status that the core reports, if it
/// reports one, and nothing else of it changes; then the fraud service is told of the return, of
/// the payment as it now stands and of the data under check. A refusal ends it and changes nothing.
pub proof fn law_cancelled_payment_is_returned<R: Records>(
    frm_data: &FrmData<R>,
    payment_data: &mut PaymentData<R>,
    answer: Result<ApplicationResponse, R::Error>,
    next: Result<(ReturnPending, ServiceCall<R>), R::Error>,
)
    requires
        call_ensures(
            CancelPending::resume::<R>,
            (CancelPending, frm_data, payment_data, answer),
            next,
        ),
    ensures
        answer matches Ok(response) ==> {
            &&& next matches Ok((_, call))
            &&& call.flow == FrmFlow::RecordReturn
            &&& call.payment_data == *final(payment_data)
            &&& call.frm_data == *frm_data
        },
        answer matches Ok(ApplicationResponse::JsonWithHeaders(response)) ==> *final(payment_data)
            == (PaymentData {
            payment_intent: PaymentIntent {
                status: response.status,
                ..old(payment_data).payment_intent
            },
            ..*old(payment_data)
        }),
        answer matches Ok(ApplicationResponse::Other) ==> *final(payment_data) == *old(
            payment_data,
        ),
        answer matches Err(error) ==> {
            &&& next == Err::<(ReturnPending, ServiceCall<R>), R::Error>(error)
            &&& *final(payment_data) == *old(payment_data)
        },
{
}

/// Once the fraud service has taken the return, the check is at its return and nothing else of the
/// data changes, and that data is the result. A refusal ends it and changes nothing.
pub proof fn law_return_moves_last_step_only<R: Records>(
    frm_data: &mut FrmData<R>,
    answer: Result<(), R::Error>,
    done: Result<Option<FrmData<R>>, R::Error>,
)
    requires
        call_ensures(ReturnPending::resume::<R>, (ReturnPending, frm_data, answer), done),
    ensures
        answer is Ok ==> {
            &&& *final(frm_data) == (FrmData {
                fraud_check: FraudCheck {
                    last_step: FraudCheckLastStep::TransactionOrRecordRefund,
                    ..old(frm_data).fraud_check
                },
                ..*old(frm_data)
            })
            &&& done == Ok::<Option<FrmData<R>>, R::Error>(Some(*final(frm_data)))
        },
        answer matches Err(error) ==> {
            &&& *final(frm_data) == *old(frm_data)
            &&& done == Err::<Option<FrmData<R>>, R::Error>(error)
        },
{
}

/// Once the payment core has captured, the payment bears the status that the core reports, if it
/// reports one, and nothing else of it changes; the data under check is the result. A refusal
/// ends it and changes nothing.
pub proof fn law_captured_payment_takes_status<R: Records>(
    frm_data: &FrmData<R>,
    payment_data: &mut PaymentData<R>,
    answer: Result<ApplicationResponse, R::Error>,
    done: Result<Option<FrmData<R>>, R::Error>,
)
    requires
        call_ensures(
            CapturePending::resume::<R>,
            (CapturePending, frm_data, payment_data, answer),
            done,
        ),
    ensures
        answer is Ok ==> done == Ok::<Option<FrmData<R>>, R::Error>(Some(*frm_data)),
        answer matches Ok(ApplicationResponse::JsonWithHeaders(response)) ==> *final(payment_data)
            == (PaymentData {
            payment_intent: PaymentIntent {
                status: response.status,
                ..old(payment_data).payment_intent
            },
            ..*old(payment_data)
        }),
        answer matches Ok(ApplicationResponse::Other) ==> *final(payment_data) == *old(
            payment_data,
        ),
        answer matches Err(error) ==> {
            &&& done == Err::<Option<FrmData<R>>, R::Error>(error)
            &&& *final(payment_data) == *old(payment_data)
        },
{
}

/// A fraud whose return the service has taken is not cancelled again, and one whose return it
/// refused is.
pub proof fn law_fraud_cancelled_once<R: Records>(
    operation: &FraudCheckPost,
    frm_data: &mut FrmData<R>,
    answer: Result<(), R::Error>,
    done: Result<Option<FrmData<R>>, R::Error>,
    frm_suggestion: &mut Option<FrmSuggestion>,
    again: PostTask<R>,
)
    requires
        old(frm_data).fraud_check.frm_status == FraudCheckStatus::Fraud,
        old(frm_data).fraud_check.last_step == FraudCheckLastStep::CheckoutOrSale,
        call_ensures(ReturnPending::resume::<R>, (ReturnPending, frm_data, answer), done),
        call_ensures(
            FraudCheckPost::execute_post_tasks::<R>,
            (operation, &*final(frm_data), frm_suggestion),
            again,
        ),
    ensures
        again is Cancel <==> answer is Err,
        answer is Ok ==> *final(frm_suggestion) == *old(frm_suggestion),
{
}

} // verus!
