//! Acting on the verdict of the fraud service.

use vstd::prelude::*;
use crate::fraud_check::FraudCheck;
use crate::fraud_check::FraudCheckLastStep;
use crate::fraud_check::FraudCheckStatus;
use crate::fraud_check::FrmSuggestion;
use crate::frm::FrmData;
use crate::frm::FrmFlow;
use crate::frm::ServiceCall;
use crate::operation::FraudCheckPost;
use crate::payments::ApplicationResponse;
use crate::payments::AuthFlow;
use crate::payments::CallConnectorAction;
use crate::payments::HeaderPayload;
use crate::payments::PaymentData;
use crate::payments::PaymentOperation;
use crate::payments::PaymentsCancelRequest;
use crate::payments::PaymentsCaptureRequest;
use crate::payments::PaymentsCoreCall;
use crate::records::CaptureMethod;
use crate::records::Records;

verus! {

/// What the verdict on a payment calls for.
pub ghost enum Remedy {
    Cancel,
    Review,
    Capture,
    Nothing,
}

/// The money of a payment is to be captured without being asked for.
pub open spec fn captures_by_itself(method: Option<CaptureMethod>) -> bool {
    method == Some(CaptureMethod::Automatic) || method == Some(CaptureMethod::SequentialAutomatic)
}

/// What the verdict on a payment calls for.
pub open spec fn remedy_of<R: Records>(fraud_check: FraudCheck<R>) -> Remedy {
    match fraud_check.frm_status {
        FraudCheckStatus::Fraud if fraud_check.last_step is CheckoutOrSale => Remedy::Cancel,
        FraudCheckStatus::ManualReview => Remedy::Review,
        FraudCheckStatus::Legit if captures_by_itself(
            fraud_check.payment_capture_method,
        ) => Remedy::Capture,
        _ => Remedy::Nothing,
    }
}

/// The suggestion to the payment flow, given the one that was made before.
pub open spec fn suggestion_after(
    remedy: Remedy,
    before: Option<FrmSuggestion>,
) -> Option<FrmSuggestion> {
    match remedy {
        Remedy::Cancel => Some(FrmSuggestion::FrmCancelTransaction),
        Remedy::Review => Some(FrmSuggestion::FrmManualReview),
        Remedy::Capture => before,
        Remedy::Nothing => before,
    }
}

/// A call to the payment core on behalf of the merchant, with nothing chosen for it.
pub open spec fn core_call<Q>(operation: PaymentOperation, request: Q) -> PaymentsCoreCall<Q> {
    PaymentsCoreCall {
        profile_id: None,
        operation,
        request,
        auth_flow: AuthFlow::Merchant,
        call_connector_action: CallConnectorAction::Trigger,
        eligible_connectors: None,
        header_payload: HeaderPayload::Default,
    }
}

/// The call that cancels the payment, for the reason that the check gives.
pub open spec fn cancel_call<R: Records>(frm_data: FrmData<R>) -> PaymentsCoreCall<
    PaymentsCancelRequest<R>,
> {
    core_call(
        PaymentOperation::PaymentCancel,
        PaymentsCancelRequest {
            payment_id: frm_data.payment_intent.payment_id,
            cancellation_reason: frm_data.fraud_check.frm_error,
            merchant_connector_details: None,
        },
    )
}

/// The call that captures the payment, with no amount named.
pub open spec fn capture_call<R: Records>(frm_data: FrmData<R>) -> PaymentsCoreCall<
    PaymentsCaptureRequest<R>,
> {
    core_call(
        PaymentOperation::PaymentCapture,
        PaymentsCaptureRequest {
            payment_id: frm_data.payment_intent.payment_id,
            merchant_id: None,
            amount_to_capture: None,
            refund_uncaptured_amount: None,
            statement_descriptor_suffix: None,
            statement_descriptor_prefix: None,
            merchant_connector_details: None,
        },
    )
}

/// Waits for the answer of the payment core to a cancellation.
pub struct CancelPending;

/// Waits for the answer of the fraud service to the return of the money.
pub struct ReturnPending;

/// Waits for the answer of the payment core to a capture.
pub struct CapturePending;

/// The first thing to do with a verdict.
pub enum PostTask<R: Records> {
    Cancel(CancelPending, PaymentsCoreCall<PaymentsCancelRequest<R>>),
    Capture(CapturePending, PaymentsCoreCall<PaymentsCaptureRequest<R>>),
    Done(Option<FrmData<R>>),
}

/// The first thing to do with the verdict on a payment.
pub open spec fn first_task<R: Records>(frm_data: FrmData<R>) -> PostTask<R> {
    match remedy_of(frm_data.fraud_check) {
        Remedy::Cancel => PostTask::Cancel(CancelPending, cancel_call(frm_data)),
        Remedy::Capture => PostTask::Capture(CapturePending, capture_call(frm_data)),
        Remedy::Review => PostTask::Done(Some(frm_data)),
        Remedy::Nothing => PostTask::Done(Some(frm_data)),
    }
}

/// The payment after the payment core has answered: only a response with headers tells its status.
pub open spec fn payment_after<R: Records>(
    payment_data: PaymentData<R>,
    response: ApplicationResponse,
) -> PaymentData<R> {
    match response {
        ApplicationResponse::JsonWithHeaders(response) => payment_data.with_intent_status(
            response.status,
        ),
        ApplicationResponse::Other => payment_data,
    }
}

fn note_status<R: Records>(payment_data: &mut PaymentData<R>, response: ApplicationResponse)
    ensures
        *final(payment_data) == payment_after(*old(payment_data), response),
{
    if let ApplicationResponse::JsonWithHeaders(payments_response) = response {
        payment_data.set_payment_intent_status(payments_response.status);
    }
}

impl FraudCheckPost {
    /// Decides what the verdict on a payment calls for, and makes the suggestion.
    pub fn execute_post_tasks<R: Records>(
        &self,
        frm_data: &FrmData<R>,
        frm_suggestion: &mut Option<FrmSuggestion>,
    ) -> (task: PostTask<R>)
        ensures
            task == first_task(*frm_data),
            *final(frm_suggestion) == suggestion_after(
                remedy_of(frm_data.fraud_check),
                *old(frm_suggestion),
            ),
    {
        if matches!(frm_data.fraud_check.frm_status, FraudCheckStatus::Fraud) && matches!(
            frm_data.fraud_check.last_step,
            FraudCheckLastStep::CheckoutOrSale
        ) {
            *frm_suggestion = Some(FrmSuggestion::FrmCancelTransaction);
            let request = PaymentsCancelRequest {
                payment_id: frm_data.payment_intent.payment_id.clone(),
                cancellation_reason: frm_data.fraud_check.frm_error.clone(),
                merchant_connector_details: None,
            };
            PostTask::Cancel(
                CancelPending,
                PaymentsCoreCall {
                    profile_id: None,
                    operation: PaymentOperation::PaymentCancel,
                    request,
                    auth_flow: AuthFlow::Merchant,
                    call_connector_action: CallConnectorAction::Trigger,
                    eligible_connectors: None,
                    header_payload: HeaderPayload::Default,
                },
            )
        } else if matches!(frm_data.fraud_check.frm_status, FraudCheckStatus::ManualReview) {
            *frm_suggestion = Some(FrmSuggestion::FrmManualReview);
            PostTask::Done(Some(frm_data.clone()))
        } else if matches!(frm_data.fraud_check.frm_status, FraudCheckStatus::Legit) && matches!(
            frm_data.fraud_check.payment_capture_method,
            Some(CaptureMethod::Automatic) | Some(CaptureMethod::SequentialAutomatic)
        ) {
            let request = PaymentsCaptureRequest {
                payment_id: frm_data.payment_intent.payment_id.clone(),
                merchant_id: None,
                amount_to_capture: None,
                refund_uncaptured_amount: None,
                statement_descriptor_suffix: None,
                statement_descriptor_prefix: None,
                merchant_connector_details: None,
            };
            PostTask::Capture(
                CapturePending,
                PaymentsCoreCall {
                    profile_id: None,
                    operation: PaymentOperation::PaymentCapture,
                    request,
                    auth_flow: AuthFlow::Merchant,
                    call_connector_action: CallConnectorAction::Trigger,
                    eligible_connectors: None,
                    header_payload: HeaderPayload::Default,
                },
            )
        } else {
            PostTask::Done(Some(frm_data.clone()))
        }
    }
}

impl CancelPending {
    /// The payment and the next call, once the payment core has answered.
    pub open spec fn resumed<R: Records>(
        self,
        frm_data: FrmData<R>,
        payment_data: PaymentData<R>,
        answer: Result<ApplicationResponse, R::Error>,
    ) -> (PaymentData<R>, Result<(ReturnPending, ServiceCall<R>), R::Error>) {
        match answer {
            Ok(response) => {
                let payment_data = payment_after(payment_data, response);
                let call = ServiceCall { flow: FrmFlow::RecordReturn, payment_data, frm_data };
                (payment_data, Ok((ReturnPending, call)))
            },
            Err(error) => (payment_data, Err(error)),
        }
    }

    /// Takes the answer of the payment core, and goes on to tell the fraud service that the money
    /// goes back.
    pub fn resume<R: Records>(
        self,
        frm_data: &FrmData<R>,
        payment_data: &mut PaymentData<R>,
        answer: Result<ApplicationResponse, R::Error>,
    ) -> (next: Result<(ReturnPending, ServiceCall<R>), R::Error>)
        ensures
            (*final(payment_data), next) == self.resumed(*frm_data, *old(payment_data), answer),
    {
        match answer {
            Ok(response) => {
                note_status(payment_data, response);
                let call = ServiceCall {
                    flow: FrmFlow::RecordReturn,
                    payment_data: payment_data.clone(),
                    frm_data: frm_data.clone(),
                };
                Ok((ReturnPending, call))
            },
            Err(error) => Err(error),
        }
    }
}

impl ReturnPending {
    /// The data under check and the result, once the fraud service has answered.
    pub open spec fn resumed<R: Records>(
        self,
        frm_data: FrmData<R>,
        answer: Result<(), R::Error>,
    ) -> (FrmData<R>, Result<Option<FrmData<R>>, R::Error>) {
        match answer {
            Ok(_) => {
                let returned = frm_data.with_last_step(
                    FraudCheckLastStep::TransactionOrRecordRefund,
                );
                (returned, Ok(Some(returned)))
            },
            Err(error) => (frm_data, Err(error)),
        }
    }

    /// Takes the answer of the fraud service, and ends.
    pub fn resume<R: Records>(
        self,
        frm_data: &mut FrmData<R>,
        answer: Result<(), R::Error>,
    ) -> (done: Result<Option<FrmData<R>>, R::Error>)
        ensures
            (*final(frm_data), done) == self.resumed(*old(frm_data), answer),
    {
        match answer {
            Ok(_) => {
                frm_data.fraud_check.last_step = FraudCheckLastStep::TransactionOrRecordRefund;
                Ok(Some(frm_data.clone()))
            },
            Err(error) => Err(error),
        }
    }
}

impl CapturePending {
    /// The payment and the result, once the payment core has answered.
    pub open spec fn resumed<R: Records>(
        self,
        frm_data: FrmData<R>,
        payment_data: PaymentData<R>,
        answer: Result<ApplicationResponse, R::Error>,
    ) -> (PaymentData<R>, Result<Option<FrmData<R>>, R::Error>) {
        match answer {
            Ok(response) => (payment_after(payment_data, response), Ok(Some(frm_data))),
            Err(error) => (payment_data, Err(error)),
        }
    }

    /// Takes the answer of the payment core, and ends.
    pub fn resume<R: Records>(
        self,
        frm_data: &FrmData<R>,
        payment_data: &mut PaymentData<R>,
        answer: Result<ApplicationResponse, R::Error>,
    ) -> (done: Result<Option<FrmData<R>>, R::Error>)
        ensures
            (*final(payment_data), done) == self.resumed(*frm_data, *old(payment_data), answer),
    {
        match answer {
            Ok(response) => {
                note_status(payment_data, response);
                Ok(Some(frm_data.clone()))
            },
            Err(error) => Err(error),
        }
    }
}

} // verus!
