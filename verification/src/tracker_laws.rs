//! What holds of every search for the check of a payment, over the results of its calls.

use vstd::prelude::*;
use crate::fraud_check::FraudCheck;
use crate::fraud_check::FraudCheckLastStep;
use crate::fraud_check::FraudCheckNew;
use crate::fraud_check::FraudCheckStatus;
use crate::fraud_check::FraudCheckType;
use crate::fraud_check::FrmSuggestion;
use crate::frm::ConnectorDetailsCore;
use crate::frm::FrmData;
use crate::frm::PaymentToFrmData;
use crate::frm::ServiceCall;
use crate::get_trackers::Absent;
use crate::get_trackers::InsertPending;
use crate::get_trackers::LookupCall;
use crate::get_trackers::LookupPending;
use crate::get_trackers::TrackerStep;
use crate::operation::FraudCheckPost;
use crate::payments::PaymentData;
use crate::post_tasks::PostTask;
use crate::records::CaptureMethod;
use crate::records::Records;
use crate::sale::PostSalePending;

verus! {

/// The store is asked for the check of this payment and this merchant, and of what was given
/// nothing is lost but why the details could not be encoded.
pub proof fn law_search_is_for_this_payment<R: Records>(
    operation: &FraudCheckPost,
    payment_data: PaymentToFrmData<R>,
    frm_connector_details: ConnectorDetailsCore,
    encoded_details: Result<serde_json::Value, R::EncodeError>,
    next: (LookupPending<R>, LookupCall),
)
    requires
        call_ensures(
            FraudCheckPost::get_trackers::<R>,
            (operation, payment_data, frm_connector_details, encoded_details),
            next,
        ),
    ensures
        next.1.payment_id == payment_data.payment_intent.payment_id,
        next.1.merchant_id == payment_data.merchant_account.merchant_id,
        next.0.payment_data == payment_data,
        next.0.connector_name == frm_connector_details.connector_name,
        encoded_details matches Ok(details) ==> next.0.payment_details == Some(details),
        encoded_details is Err ==> next.0.payment_details is None,
{
}

/// A check that the store holds ends the search: it is joined, as it is, with the payment as it is.
pub proof fn law_found_check_joins_payment<R: Records>(
    pending: LookupPending<R>,
    fraud_check: FraudCheck<R>,
    next: TrackerStep<R>,
)
    requires
        call_ensures(LookupPending::<R>::resume, (pending, Ok(Some(fraud_check))), next),
    ensures
        next matches TrackerStep::Done(Some(frm_data)) && {
            &&& frm_data.fraud_check == fraud_check
            &&& frm_data.payment_intent == pending.payment_data.payment_intent
            &&& frm_data.payment_attempt == pending.payment_data.payment_attempt
            &&& frm_data.merchant_account == pending.payment_data.merchant_account
            &&& frm_data.address == pending.payment_data.address
            &&& frm_data.connector_details == pending.payment_data.connector_details
            &&& frm_data.order_details == pending.payment_data.order_details
            &&& frm_data.frm_metadata == pending.payment_data.frm_metadata
            &&& frm_data.refund is None
        },
{
}

/// Where the store hands out no check, for whatever reason, one is to be made of all that was known.
pub proof fn law_absent_check_is_to_be_made<R: Records>(
    pending: LookupPending<R>,
    found: Result<Option<FraudCheck<R>>, R::StorageError>,
    next: TrackerStep<R>,
)
    requires
        call_ensures(LookupPending::<R>::resume, (pending, found), next),
        !(found matches Ok(Some(_))),
    ensures
        next matches TrackerStep::Absent(absent) && {
            &&& absent.payment_data == pending.payment_data
            &&& absent.connector_name == pending.connector_name
            &&& absent.payment_details == pending.payment_details
        },
{
}

/// The id of a check begins with the letters f, r and m.
pub proof fn law_ids_begin_with_frm<R: Records>(absent: &Absent<R>, prefix: &'static str)
    requires
        call_ensures(Absent::<R>::id_prefix, (absent,), prefix),
    ensures
        prefix@ == seq!['f', 'r', 'm'],
{
    reveal_strlit("frm");
}

/// The check that is made belongs to the payment it is made for: it bears that payment's ids and
/// details, the name of the service, the capture method of that payment's attempt, and the id and
/// times that were given.
pub proof fn law_made_check_belongs_to_payment<R: Records>(
    absent: Absent<R>,
    frm_id: String,
    created_at: R::Timestamp,
    modified_at: R::Timestamp,
    next: (InsertPending<R>, FraudCheckNew<R>),
)
    requires
        call_ensures(Absent::<R>::insert, (absent, frm_id, created_at, modified_at), next),
    ensures
        next.1.payment_id == absent.payment_data.payment_intent.payment_id,
        next.1.merchant_id == absent.payment_data.merchant_account.merchant_id,
        next.1.attempt_id == absent.payment_data.payment_attempt.attempt_id,
        next.1.payment_capture_method == absent.payment_data.payment_attempt.capture_method,
        next.1.payment_details == absent.payment_details,
        next.1.frm_name == absent.connector_name,
        next.1.frm_id == frm_id,
        next.1.created_at == created_at,
        next.1.modified_at == modified_at,
        next.0.payment_data == absent.payment_data,
{
}

/// The check that is made knows nothing yet: it is pending, its service has heard of nothing, and
/// it holds no finding.
pub proof fn law_made_check_is_blank<R: Records>(
    absent: Absent<R>,
    frm_id: String,
    created_at: R::Timestamp,
    modified_at: R::Timestamp,
    next: (InsertPending<R>, FraudCheckNew<R>),
)
    requires
        call_ensures(Absent::<R>::insert, (absent, frm_id, created_at, modified_at), next),
    ensures
        next.1.frm_transaction_type == FraudCheckType::PostFrm,
        next.1.frm_status == FraudCheckStatus::Pending,
        next.1.last_step == FraudCheckLastStep::Processing,
        next.1.frm_transaction_id is None,
        next.1.frm_score is None,
        next.1.frm_reason is None,
        next.1.frm_error is None,
        next.1.metadata is None,
{
}

/// Once a check that was made is found legitimate, the money is captured exactly where the attempt
/// for which it was made captures automatically: nobody's money is taken unasked.
pub proof fn law_made_check_captures_as_attempt_says<R: Records>(
    absent: Absent<R>,
    frm_id: String,
    created_at: R::Timestamp,
    modified_at: R::Timestamp,
    next: (InsertPending<R>, FraudCheckNew<R>),
    operation: &FraudCheckPost,
    frm_data: &FrmData<R>,
    frm_suggestion: &mut Option<FrmSuggestion>,
    task: PostTask<R>,
)
    requires
        call_ensures(Absent::<R>::insert, (absent, frm_id, created_at, modified_at), next),
        frm_data.fraud_check.payment_capture_method == next.1.payment_capture_method,
        frm_data.fraud_check.frm_status == FraudCheckStatus::Legit,
        call_ensures(
            FraudCheckPost::execute_post_tasks::<R>,
            (operation, frm_data, frm_suggestion),
            task,
        ),
    ensures
        task is Capture <==> {
            ||| absent.payment_data.payment_attempt.capture_method == Some(CaptureMethod::Automatic)
            ||| absent.payment_data.payment_attempt.capture_method == Some(
                CaptureMethod::SequentialAutomatic,
            )
        },
{
}

/// The fraud service is told of the sale of a check that stands as it was made, and nothing else
/// is done about it.
pub proof fn law_made_check_has_its_sale_told<R: Records>(
    absent: Absent<R>,
    frm_id: String,
    created_at: R::Timestamp,
    modified_at: R::Timestamp,
    next: (InsertPending<R>, FraudCheckNew<R>),
    operation: &FraudCheckPost,
    payment_data: &PaymentData<R>,
    frm_data: &FrmData<R>,
    told: Option<(PostSalePending, ServiceCall<R>)>,
    frm_suggestion: &mut Option<FrmSuggestion>,
    task: PostTask<R>,
)
    requires
        call_ensures(Absent::<R>::insert, (absent, frm_id, created_at, modified_at), next),
        frm_data.fraud_check.frm_status == next.1.frm_status,
        frm_data.fraud_check.last_step == next.1.last_step,
        call_ensures(
            FraudCheckPost::post_payment_frm::<R>,
            (operation, payment_data, frm_data),
            told,
        ),
        call_ensures(
            FraudCheckPost::execute_post_tasks::<R>,
            (operation, frm_data, frm_suggestion),
            task,
        ),
    ensures
        told is Some,
        task is Done,
        *final(frm_suggestion) == *old(frm_suggestion),
{
}

/// The check that the store made ends the search: it is joined, as it is, with the payment as it
/// is. Where the store made none, there is nothing to check.
pub proof fn law_made_check_joins_payment<R: Records>(
    pending: InsertPending<R>,
    inserted: Result<FraudCheck<R>, R::StorageError>,
    done: Option<FrmData<R>>,
)
    requires
        call_ensures(InsertPending::<R>::resume, (pending, inserted), done),
    ensures
        done is Some <==> inserted is Ok,
        done matches Some(frm_data) ==> {
            &&& frm_data.fraud_check == inserted->Ok_0
            &&& frm_data.payment_intent == pending.payment_data.payment_intent
            &&& frm_data.payment_attempt == pending.payment_data.payment_attempt
            &&& frm_data.merchant_account == pending.payment_data.merchant_account
            &&& frm_data.address == pending.payment_data.address
            &&& frm_data.connector_details == pending.payment_data.connector_details
            &&& frm_data.order_details == pending.payment_data.order_details
            &&& frm_data.frm_metadata == pending.payment_data.frm_metadata
            &&& frm_data.refund is None
        },
{
}

/// From the first call to the last, the payment that was given is the one that is joined with its
/// check, and the check is the one that the store made.
pub proof fn law_search_keeps_payment<R: Records>(
    operation: &FraudCheckPost,
    payment_data: PaymentToFrmData<R>,
    frm_connector_details: ConnectorDetailsCore,
    encoded_details: Result<serde_json::Value, R::EncodeError>,
    first: (LookupPending<R>, LookupCall),
    found: Result<Option<FraudCheck<R>>, R::StorageError>,
    step: TrackerStep<R>,
    frm_id: String,
    created_at: R::Timestamp,
    modified_at: R::Timestamp,
    last: (InsertPending<R>, FraudCheckNew<R>),
    inserted: FraudCheck<R>,
    done: Option<FrmData<R>>,
)
    requires
        call_ensures(
            FraudCheckPost::get_trackers::<R>,
            (operation, payment_data, frm_connector_details, encoded_details),
            first,
        ),
        call_ensures(LookupPending::<R>::resume, (first.0, found), step),
        !(found matches Ok(Some(_))),
        call_ensures(
            Absent::<R>::insert,
            (step->Absent_0, frm_id, created_at, modified_at),
            last,
        ),
        call_ensures(InsertPending::<R>::resume, (last.0, Ok(inserted)), done),
    ensures
        last.1.frm_name == frm_connector_details.connector_name,
        last.1.payment_id == payment_data.payment_intent.payment_id,
        last.1.merchant_id == payment_data.merchant_account.merchant_id,
        last.1.attempt_id == payment_data.payment_attempt.attempt_id,
        last.1.payment_capture_method == payment_data.payment_attempt.capture_method,
        encoded_details matches Ok(details) ==> last.1.payment_details == Some(details),
        encoded_details is Err ==> last.1.payment_details is None,
        done matches Some(frm_data) && {
            &&& frm_data.fraud_check == inserted
            &&& frm_data.payment_intent == payment_data.payment_intent
            &&& frm_data.payment_attempt == payment_data.payment_attempt
            &&& frm_data.merchant_account == payment_data.merchant_account
            &&& frm_data.address == payment_data.address
            &&& frm_data.connector_details == payment_data.connector_details
            &&& frm_data.order_details == payment_data.order_details
            &&& frm_data.frm_metadata == payment_data.frm_metadata
            &&& frm_data.refund is None
        },
{
}

} // verus!
