//! What holds of every sale of which the fraud service is told, over the results of the calls.

use vstd::prelude::*;
use crate::fraud_check::FraudCheck;
use crate::fraud_check::FraudCheckLastStep;
use crate::fraud_check::FraudCheckStatus;
use crate::fraud_check::FraudCheckUpdate;
use crate::fraud_check::FrmSuggestion;
use crate::frm::FraudCheckResponseData;
use crate::frm::FrmData;
use crate::frm::FrmFlow;
use crate::frm::FrmRequest;
use crate::frm::FrmResponse;
use crate::frm::FrmRouterData;
use crate::frm::ResponseId;
use crate::frm::SaleRouterData;
use crate::frm::ServiceCall;
use crate::operation::FraudCheckPost;
use crate::payments::PaymentData;
use crate::post_tasks::PostTask;
use crate::records::CaptureMethod;
use crate::records::Records;
use crate::sale::PostSalePending;
use crate::sale::PreSalePending;
use crate::update_tracker::fraud_check_update;

verus! {

/// After the authorisation the fraud service is told of the sale exactly where it has heard of
/// nothing yet, and it is told of this payment and of this data.
pub proof fn law_sale_told_while_processing<R: Records>(
    operation: &FraudCheckPost,
    payment_data: &PaymentData<R>,
    frm_data: &FrmData<R>,
    next: Option<(PostSalePending, ServiceCall<R>)>,
)
    requires
        call_ensures(
            FraudCheckPost::post_payment_frm::<R>,
            (operation, payment_data, frm_data),
            next,
        ),
    ensures
        next is Some <==> frm_data.fraud_check.last_step == FraudCheckLastStep::Processing,
        next matches Some((_, call)) ==> {
            &&& call.flow == FrmFlow::Sale
            &&& call.payment_data == *payment_data
            &&& call.frm_data == *frm_data
        },
{
}

/// Before the authorisation the fraud service is always told of the sale, of this payment and of
/// this data.
pub proof fn law_sale_before_authorisation_is_told<R: Records>(
    operation: &FraudCheckPost,
    payment_data: &PaymentData<R>,
    frm_data: &FrmData<R>,
    next: (PreSalePending, ServiceCall<R>),
)
    requires
        call_ensures(
            FraudCheckPost::pre_payment_frm::<R>,
            (operation, payment_data, frm_data),
            next,
        ),
    ensures
        next.1.flow == FrmFlow::Sale,
        next.1.payment_data == *payment_data,
        next.1.frm_data == *frm_data,
{
}

/// After the authorisation the answer of the fraud service is handed on whole and unchanged, as
/// that of a sale, with the ids and the request that came with it. Of the data under check only
/// the last step changes, and only where there is an answer; a refusal is handed on as it came.
pub proof fn law_answer_after_authorisation_handed_on_whole<R: Records>(
    frm_data: &mut FrmData<R>,
    answer: Result<SaleRouterData<R>, R::Error>,
    outcome: Result<Option<FrmRouterData<R>>, R::Error>,
)
    requires
        call_ensures(PostSalePending::resume::<R>, (PostSalePending, frm_data, answer), outcome),
    ensures
        answer matches Ok(router_data) ==> {
            &&& outcome matches Ok(Some(handed_on))
            &&& handed_on.response == FrmResponse::Sale(router_data.response)
            &&& handed_on.request == FrmRequest::Sale(router_data.request)
            &&& handed_on.merchant_id == router_data.merchant_id
            &&& handed_on.connector == router_data.connector
            &&& handed_on.payment_id == router_data.payment_id
            &&& handed_on.attempt_id == router_data.attempt_id
            &&& *final(frm_data) == (FrmData {
                fraud_check: FraudCheck {
                    last_step: FraudCheckLastStep::CheckoutOrSale,
                    ..old(frm_data).fraud_check
                },
                ..*old(frm_data)
            })
        },
        answer matches Err(error) ==> {
            &&& outcome == Err::<Option<FrmRouterData<R>>, R::Error>(error)
            &&& *final(frm_data) == *old(frm_data)
        },
{
}

/// Before the authorisation the answer of the fraud service is handed on whole and unchanged, as
/// that of a sale, with the ids and the request that came with it; a refusal is handed on as it
/// came.
pub proof fn law_answer_before_authorisation_handed_on_whole<R: Records>(
    answer: Result<SaleRouterData<R>, R::Error>,
    outcome: Result<FrmRouterData<R>, R::Error>,
)
    requires
        call_ensures(PreSalePending::resume::<R>, (PreSalePending, answer), outcome),
    ensures
        answer matches Ok(router_data) ==> {
            &&& outcome matches Ok(handed_on)
            &&& handed_on.response == FrmResponse::Sale(router_data.response)
            &&& handed_on.request == FrmRequest::Sale(router_data.request)
            &&& handed_on.merchant_id == router_data.merchant_id
            &&& handed_on.connector == router_data.connector
            &&& handed_on.payment_id == router_data.payment_id
            &&& handed_on.attempt_id == router_data.attempt_id
        },
        answer matches Err(error) ==> outcome == Err::<FrmRouterData<R>, R::Error>(error),
{
}

/// Two different answers are never handed on as the same one, before or after the authorisation.
pub proof fn law_answers_stay_apart<R: Records>(
    frm_data: &mut FrmData<R>,
    after: SaleRouterData<R>,
    handed_on_after: FrmRouterData<R>,
    before: SaleRouterData<R>,
    handed_on_before: FrmRouterData<R>,
)
    requires
        call_ensures(
            PostSalePending::resume::<R>,
            (PostSalePending, frm_data, Ok(after)),
            Ok(Some(handed_on_after)),
        ),
        call_ensures(
            PreSalePending::resume::<R>,
            (PreSalePending, Ok(before)),
            Ok(handed_on_before),
        ),
    ensures
        handed_on_after == handed_on_before <==> after == before,
{
}

/// An answered sale is not told again, and one that was refused is.
pub proof fn law_sale_told_once<R: Records>(
    operation: &FraudCheckPost,
    payment_data: &PaymentData<R>,
    frm_data: &mut FrmData<R>,
    answer: Result<SaleRouterData<R>, R::Error>,
    outcome: Result<Option<FrmRouterData<R>>, R::Error>,
    again: Option<(PostSalePending, ServiceCall<R>)>,
)
    requires
        old(frm_data).fraud_check.last_step == FraudCheckLastStep::Processing,
        call_ensures(PostSalePending::resume::<R>, (PostSalePending, frm_data, answer), outcome),
        call_ensures(
            FraudCheckPost::post_payment_frm::<R>,
            (operation, payment_data, &*final(frm_data)),
            again,
        ),
    ensures
        again is Some <==> answer is Err,
{
}

/// The verdict that the fraud service gives on a sale is the one that is stored and acted upon.
/// What is handed on of the answer brings a change that holds what the service said, and a check
/// that takes that change over has the payment cancelled where the service said fraud, put before
/// the merchant where it said so, and captured where it said legitimate and the money is captured
/// automatically; otherwise nothing is done.
pub proof fn law_verdict_handed_on_decides<R: Records>(
    operation: &FraudCheckPost,
    frm_data: &mut FrmData<R>,
    router_data: SaleRouterData<R>,
    outcome: Result<Option<FrmRouterData<R>>, R::Error>,
    now: R::Timestamp,
    change: Option<FraudCheckUpdate<R>>,
    later: &FrmData<R>,
    frm_suggestion: &mut Option<FrmSuggestion>,
    task: PostTask<R>,
)
    requires
        router_data.response matches Ok(answer) && answer is TransactionResponse,
        call_ensures(
            PostSalePending::resume::<R>,
            (PostSalePending, frm_data, Ok(router_data)),
            outcome,
        ),
        call_ensures(
            fraud_check_update::<R>,
            (outcome->Ok_0->0.response, &final(frm_data).fraud_check, now),
            change,
        ),
        change matches Some(
            FraudCheckUpdate::ResponseUpdate { frm_status, last_step, payment_capture_method, .. },
        ) ==> {
            &&& later.fraud_check.frm_status == frm_status
            &&& later.fraud_check.last_step == last_step
            &&& later.fraud_check.payment_capture_method == payment_capture_method
        },
        call_ensures(
            FraudCheckPost::execute_post_tasks::<R>,
            (operation, later, frm_suggestion),
            task,
        ),
    ensures
        router_data.response matches Ok(
            FraudCheckResponseData::TransactionResponse {
                resource_id,
                connector_metadata,
                status,
                reason,
                score,
            },
        ) && {
            &&& change matches Some(
                FraudCheckUpdate::ResponseUpdate {
                    frm_status,
                    frm_transaction_id,
                    frm_reason,
                    frm_score,
                    metadata,
                    ..
                },
            )
            &&& frm_status == status
            &&& match resource_id {
                ResponseId::NoResponseId => frm_transaction_id is None,
                ResponseId::ConnectorTransactionId(id) => frm_transaction_id matches Some(stored)
                    && stored@ == id@,
                ResponseId::EncodedData(id) => frm_transaction_id matches Some(stored) && stored@
                    == id@,
            }
            &&& frm_reason == reason
            &&& frm_score == score
            &&& metadata == connector_metadata
            &&& task is Cancel <==> status == FraudCheckStatus::Fraud
            &&& task is Capture <==> status == FraudCheckStatus::Legit && {
                ||| old(frm_data).fraud_check.payment_capture_method == Some(
                    CaptureMethod::Automatic,
                )
                ||| old(frm_data).fraud_check.payment_capture_method == Some(
                    CaptureMethod::SequentialAutomatic,
                )
            }
            &&& *final(frm_suggestion) == match status {
                FraudCheckStatus::Fraud => Some(FrmSuggestion::FrmCancelTransaction),
                FraudCheckStatus::ManualReview => Some(FrmSuggestion::FrmManualReview),
                _ => *old(frm_suggestion),
            }
        },
{
}

} // verus!
