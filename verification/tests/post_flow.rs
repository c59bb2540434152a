use fraud_check_post::fraud_check::{
    FraudCheck, FraudCheckLastStep, FraudCheckStatus, FraudCheckType, FraudCheckUpdate,
    FrmSuggestion,
};
use fraud_check_post::frm::{
    ConnectorDetailsCore, ErrorResponse, FraudCheckResponseData, FraudCheckSaleData, FrmData,
    FrmFlow, FrmRequest, FrmResponse, FrmRouterData, PaymentToFrmData, ResponseId, SaleRouterData,
};
use fraud_check_post::get_trackers::{Absent, TrackerStep};
use fraud_check_post::labels::Labels;
use fraud_check_post::operation::{ApiErrorResponse, FraudCheckPost};
use fraud_check_post::payments::{
    ApplicationResponse, AuthFlow, CallConnectorAction, HeaderPayload, PaymentAttemptUpdate,
    PaymentData, PaymentIntentUpdate, PaymentOperation, PaymentsResponse,
};
use fraud_check_post::post_tasks::PostTask;
use fraud_check_post::records::{
    AttemptStatus, CaptureMethod, IntentStatus, MerchantAccount, MerchantStorageScheme,
    PaymentAttempt, PaymentIntent, Records,
};
use fraud_check_post::update_tracker::{
    connector_transaction_id, fraud_check_update, reject, AttemptPending, Failure, FraudCheckStep,
    UpdateStep,
};
use serde_json::Value;
use std::sync::Arc;

struct Kinds;

impl Records for Kinds {
    type Intent = u32;
    type Attempt = u32;
    type Merchant = u32;
    type Payment = u32;
    type Address = &'static str;
    type ConnectorDetails = &'static str;
    type OrderDetails = Option<Vec<&'static str>>;
    type FrmMetadata = Option<&'static str>;
    type Refund = u32;
    type Currency = Option<&'static str>;
    type Email = Option<&'static str>;
    type OtherRequest = ();
    type ErrorDetails = u16;
    type MerchantConnectorDetails = ();
    type Timestamp = u64;
    type EncodeError = ();
    type StorageError = &'static str;
    type Error = &'static str;
}

fn text(s: &str) -> Option<Value> {
    Some(Value::String(s.to_string()))
}

fn intent(id: &str, status: IntentStatus, record: u32) -> PaymentIntent<Kinds> {
    PaymentIntent { payment_id: id.to_string(), status, record: Arc::new(record) }
}

fn attempt(id: &str, record: u32) -> PaymentAttempt<Kinds> {
    PaymentAttempt {
        attempt_id: id.to_string(),
        capture_method: Some(CaptureMethod::Automatic),
        record: Arc::new(record),
    }
}

fn merchant() -> MerchantAccount<Kinds> {
    MerchantAccount {
        merchant_id: "mer_1".to_string(),
        storage_scheme: MerchantStorageScheme::RedisKv,
        record: Arc::new(3),
    }
}

fn processing() -> IntentStatus {
    IntentStatus::Other("processing".to_string())
}

fn to_check() -> PaymentToFrmData<Kinds> {
    PaymentToFrmData {
        payment_intent: intent("pay_1", processing(), 1),
        payment_attempt: attempt("att_1", 2),
        merchant_account: merchant(),
        address: Arc::new("street"),
        connector_details: Arc::new("stripe"),
        order_details: Arc::new(Some(vec!["book"])),
        frm_metadata: Arc::new(Some("meta")),
    }
}

fn check(status: FraudCheckStatus, last_step: FraudCheckLastStep) -> FraudCheck<Kinds> {
    FraudCheck {
        frm_id: "frm_1".to_string(),
        payment_id: "pay_1".to_string(),
        merchant_id: "mer_1".to_string(),
        attempt_id: "att_1".to_string(),
        created_at: 10,
        frm_name: "signifyd".to_string(),
        frm_transaction_id: None,
        frm_transaction_type: FraudCheckType::PostFrm,
        frm_status: status,
        frm_score: Some(7),
        frm_reason: text("looks odd"),
        frm_error: Some("stolen card".to_string()),
        payment_details: text("details"),
        metadata: None,
        modified_at: 11,
        last_step,
        payment_capture_method: Some(CaptureMethod::Automatic),
    }
}

fn data(status: FraudCheckStatus, last_step: FraudCheckLastStep) -> FrmData<Kinds> {
    FrmData {
        payment_intent: intent("pay_1", processing(), 1),
        payment_attempt: attempt("att_1", 2),
        merchant_account: merchant(),
        address: Arc::new("street"),
        fraud_check: check(status, last_step),
        connector_details: Arc::new("stripe"),
        order_details: Arc::new(Some(vec!["book"])),
        refund: Some(Arc::new(9)),
        frm_metadata: Arc::new(Some("meta")),
    }
}

fn payment() -> PaymentData<Kinds> {
    PaymentData {
        payment_intent: intent("pay_1", processing(), 21),
        payment_attempt: attempt("att_1", 22),
        record: Arc::new(23),
    }
}

fn labels() -> Labels {
    Labels {
        fraud: "fraud".to_string(),
        manual_review: "manual_review".to_string(),
        pending: "pending".to_string(),
        legit: "legit".to_string(),
        transaction_failure: "transaction_failure".to_string(),
        postgres_only: "postgres_only".to_string(),
        redis_kv: "redis_kv".to_string(),
        rejected: "rejected".to_string(),
        cancel_initiated: "Cancel Initiated with the processor".to_string(),
    }
}

fn same_check(a: &FraudCheck<Kinds>, b: &FraudCheck<Kinds>) -> bool {
    a.frm_id == b.frm_id
        && a.payment_id == b.payment_id
        && a.merchant_id == b.merchant_id
        && a.attempt_id == b.attempt_id
        && a.created_at == b.created_at
        && a.frm_name == b.frm_name
        && a.frm_transaction_id == b.frm_transaction_id
        && a.frm_transaction_type == b.frm_transaction_type
        && a.frm_status == b.frm_status
        && a.frm_score == b.frm_score
        && a.frm_reason == b.frm_reason
        && a.frm_error == b.frm_error
        && a.payment_details == b.payment_details
        && a.metadata == b.metadata
        && a.modified_at == b.modified_at
        && a.last_step == b.last_step
        && a.payment_capture_method == b.payment_capture_method
}

fn same_intent(a: &PaymentIntent<Kinds>, b: &PaymentIntent<Kinds>) -> bool {
    a.payment_id == b.payment_id && a.status == b.status && a.record == b.record
}

fn same_attempt(a: &PaymentAttempt<Kinds>, b: &PaymentAttempt<Kinds>) -> bool {
    a.attempt_id == b.attempt_id && a.capture_method == b.capture_method && a.record == b.record
}

fn same_payment(a: &PaymentData<Kinds>, b: &PaymentData<Kinds>) -> bool {
    same_intent(&a.payment_intent, &b.payment_intent)
        && same_attempt(&a.payment_attempt, &b.payment_attempt)
        && a.record == b.record
}

fn same_data(a: &FrmData<Kinds>, b: &FrmData<Kinds>) -> bool {
    same_intent(&a.payment_intent, &b.payment_intent)
        && same_attempt(&a.payment_attempt, &b.payment_attempt)
        && a.merchant_account.merchant_id == b.merchant_account.merchant_id
        && a.merchant_account.storage_scheme == b.merchant_account.storage_scheme
        && a.merchant_account.record == b.merchant_account.record
        && a.address == b.address
        && same_check(&a.fraud_check, &b.fraud_check)
        && a.connector_details == b.connector_details
        && a.order_details == b.order_details
        && a.refund == b.refund
        && a.frm_metadata == b.frm_metadata
}

fn error(message: &str) -> ErrorResponse<Kinds> {
    ErrorResponse { message: message.to_string(), details: 500 }
}

fn verdict(status: FraudCheckStatus) -> FraudCheckResponseData {
    FraudCheckResponseData::TransactionResponse {
        resource_id: ResponseId::ConnectorTransactionId("txn_1".to_string()),
        connector_metadata: text("connector"),
        status,
        reason: text("reason"),
        score: Some(42),
    }
}

fn returned() -> FraudCheckResponseData {
    FraudCheckResponseData::RecordReturnResponse {
        resource_id: ResponseId::EncodedData("ret_1".to_string()),
        connector_metadata: text("connector"),
        return_id: Some("r".to_string()),
    }
}

fn fulfilled() -> FraudCheckResponseData {
    FraudCheckResponseData::FulfillmentResponse {
        order_id: "o".to_string(),
        shipment_ids: vec!["s".to_string()],
    }
}

fn sale(response: Result<FraudCheckResponseData, ErrorResponse<Kinds>>) -> SaleRouterData<Kinds> {
    SaleRouterData {
        merchant_id: "mer_1".to_string(),
        connector: "signifyd".to_string(),
        payment_id: "pay_1".to_string(),
        attempt_id: "att_1".to_string(),
        request: FraudCheckSaleData {
            amount: 6540,
            order_details: Some(vec!["book"]),
            currency: Some("EUR"),
            email: Some("a@b.c"),
        },
        response,
    }
}

fn router(response: FrmResponse<Kinds>) -> FrmRouterData<Kinds> {
    FrmRouterData {
        merchant_id: "mer_1".to_string(),
        connector: "signifyd".to_string(),
        payment_id: "pay_1".to_string(),
        attempt_id: "att_1".to_string(),
        request: FrmRequest::Other(()),
        response,
    }
}

fn absent(step: TrackerStep<Kinds>) -> Absent<Kinds> {
    match step {
        TrackerStep::Absent(absent) => absent,
        TrackerStep::Done(_) => panic!("a check was found"),
    }
}

fn connector() -> ConnectorDetailsCore {
    ConnectorDetailsCore { connector_name: "signifyd".to_string() }
}

fn error_message(update: Option<FraudCheckUpdate<Kinds>>) -> String {
    match update {
        Some(FraudCheckUpdate::ErrorUpdate { status, error_message: Some(Some(message)) }) => {
            assert_eq!(status, FraudCheckStatus::TransactionFailure);
            message
        }
        _ => panic!("not a failure with a message"),
    }
}

#[test]
fn operation_is_each_of_its_parts() {
    assert!(FraudCheckPost.to_get_tracker().is_ok());
    assert!(FraudCheckPost.to_domain().is_ok());
    assert!((&FraudCheckPost).to_update_tracker().is_ok());
}

#[test]
fn found_check_is_used() {
    let (pending, call) = FraudCheckPost.get_trackers(to_check(), connector(), Err(()));
    assert_eq!(call.payment_id, "pay_1");
    assert_eq!(call.merchant_id, "mer_1");
    let stored = check(FraudCheckStatus::Legit, FraudCheckLastStep::Fulfillment);
    match pending.resume(Ok(Some(stored.clone()))) {
        TrackerStep::Done(Some(found)) => {
            let mut expected = data(FraudCheckStatus::Legit, FraudCheckLastStep::Fulfillment);
            expected.refund = None;
            assert!(same_check(&found.fraud_check, &stored));
            assert!(same_data(&found, &expected));
        }
        _ => panic!("the stored check was not used"),
    }
}

#[test]
fn missing_check_is_made() {
    let details = Value::String("details".to_string());
    let (pending, _) = FraudCheckPost.get_trackers(to_check(), connector(), Ok(details));
    let absent = absent(pending.resume(Ok(None)));
    assert_eq!(absent.id_prefix(), "frm");
    let (pending, new) = absent.insert("frm_new".to_string(), 5, 6);
    assert_eq!(new.frm_id, "frm_new");
    assert_eq!(new.payment_id, "pay_1");
    assert_eq!(new.merchant_id, "mer_1");
    assert_eq!(new.attempt_id, "att_1");
    assert_eq!((new.created_at, new.modified_at), (5, 6));
    assert_eq!(new.frm_name, "signifyd");
    assert_eq!(new.frm_transaction_id, None);
    assert_eq!(new.frm_transaction_type, FraudCheckType::PostFrm);
    assert_eq!(new.frm_status, FraudCheckStatus::Pending);
    assert_eq!(new.frm_score, None);
    assert_eq!(new.frm_reason, None);
    assert_eq!(new.frm_error, None);
    assert_eq!(new.payment_details, text("details"));
    assert_eq!(new.metadata, None);
    assert_eq!(new.last_step, FraudCheckLastStep::Processing);
    assert_eq!(new.payment_capture_method, Some(CaptureMethod::Automatic));
    let stored = check(FraudCheckStatus::Pending, FraudCheckLastStep::Processing);
    let made = pending.resume(Ok(stored)).unwrap();
    let mut expected = data(FraudCheckStatus::Pending, FraudCheckLastStep::Processing);
    expected.refund = None;
    assert!(same_data(&made, &expected));
}

#[test]
fn failed_search_makes_a_check_without_details() {
    let (pending, _) = FraudCheckPost.get_trackers(to_check(), connector(), Err(()));
    let (_, new) = absent(pending.resume(Err("down"))).insert("frm_new".to_string(), 5, 5);
    assert_eq!(new.payment_details, None);
}

#[test]
fn payment_goes_unchecked_where_no_check_can_be_made() {
    let (pending, _) = FraudCheckPost.get_trackers(to_check(), connector(), Err(()));
    let (pending, _) = absent(pending.resume(Ok(None))).insert("frm_new".to_string(), 5, 5);
    assert!(pending.resume(Err("down")).is_none());
}

#[test]
fn sale_is_told_until_answered() {
    let mut frm = data(FraudCheckStatus::Pending, FraudCheckLastStep::Processing);
    let (pending, call) = FraudCheckPost.post_payment_frm(&payment(), &frm).unwrap();
    assert_eq!(call.flow, FrmFlow::Sale);
    assert!(same_payment(&call.payment_data, &payment()));
    assert!(same_data(&call.frm_data, &frm));

    let before = frm.clone();
    assert_eq!(pending.resume(&mut frm, Err("down")).err(), Some("down"));
    assert!(same_data(&frm, &before));

    let (pending, _) = FraudCheckPost.post_payment_frm(&payment(), &frm).unwrap();
    let answer = sale(Ok(verdict(FraudCheckStatus::Fraud)));
    let outcome = pending.resume(&mut frm, Ok(answer)).unwrap().unwrap();
    let expected = data(FraudCheckStatus::Pending, FraudCheckLastStep::CheckoutOrSale);
    assert!(same_data(&frm, &expected));
    assert_eq!(outcome.merchant_id, "mer_1");
    assert_eq!(outcome.connector, "signifyd");
    assert_eq!(outcome.payment_id, "pay_1");
    assert_eq!(outcome.attempt_id, "att_1");
    match outcome.request {
        FrmRequest::Sale(request) => {
            assert_eq!(request.amount, 6540);
            assert_eq!(request.order_details, Some(vec!["book"]));
            assert_eq!(request.currency, Some("EUR"));
            assert_eq!(request.email, Some("a@b.c"));
        }
        FrmRequest::Other(_) => panic!("not a sale"),
    }
    assert!(matches!(outcome.response, FrmResponse::Sale(Ok(_))));
    assert!(FraudCheckPost.post_payment_frm(&payment(), &frm).is_none());
}

#[test]
fn service_works_on_a_copy() {
    let frm = data(FraudCheckStatus::Pending, FraudCheckLastStep::Processing);
    let (_, mut call) = FraudCheckPost.post_payment_frm(&payment(), &frm).unwrap();
    call.frm_data.fraud_check.frm_status = FraudCheckStatus::Legit;
    assert_eq!(frm.fraud_check.frm_status, FraudCheckStatus::Pending);
}

#[test]
fn sale_before_authorisation_is_always_told() {
    let frm = data(FraudCheckStatus::Pending, FraudCheckLastStep::Fulfillment);
    let (pending, call) = FraudCheckPost.pre_payment_frm(&payment(), &frm);
    assert_eq!(call.flow, FrmFlow::Sale);
    assert!(same_data(&call.frm_data, &frm));
    let outcome = pending.resume(Ok(sale(Err(error("no"))))).unwrap();
    match outcome.response {
        FrmResponse::Sale(Err(error)) => {
            assert_eq!(error.message, "no");
            assert_eq!(error.details, 500);
        }
        _ => panic!("not the error of the sale"),
    }
    let (pending, _) = FraudCheckPost.pre_payment_frm(&payment(), &frm);
    assert_eq!(pending.resume::<Kinds>(Err("down")).err(), Some("down"));
}

#[test]
fn fraud_is_cancelled_and_returned() {
    let mut frm = data(FraudCheckStatus::Fraud, FraudCheckLastStep::CheckoutOrSale);
    let before = frm.clone();
    let mut pay = payment();
    let mut suggestion = None;
    let (pending, call) = match FraudCheckPost.execute_post_tasks(&frm, &mut suggestion) {
        PostTask::Cancel(pending, call) => (pending, call),
        _ => panic!("not cancelled"),
    };
    assert_eq!(suggestion, Some(FrmSuggestion::FrmCancelTransaction));
    assert_eq!(call.operation, PaymentOperation::PaymentCancel);
    assert_eq!(call.request.payment_id, "pay_1");
    assert_eq!(call.request.cancellation_reason, Some("stolen card".to_string()));
    assert!(call.request.merchant_connector_details.is_none());
    assert_eq!(call.auth_flow, AuthFlow::Merchant);
    assert_eq!(call.call_connector_action, CallConnectorAction::Trigger);
    assert_eq!(call.profile_id, None);
    assert_eq!(call.eligible_connectors, None);
    assert_eq!(call.header_payload, HeaderPayload::Default);

    let cancelled = IntentStatus::Other("cancelled".to_string());
    let response = PaymentsResponse { status: cancelled.clone() };
    let (pending, call) = pending
        .resume(&frm, &mut pay, Ok(ApplicationResponse::JsonWithHeaders(response)))
        .unwrap();
    let mut expected = payment();
    expected.set_payment_intent_status(cancelled);
    assert!(same_payment(&pay, &expected));
    assert_eq!(call.flow, FrmFlow::RecordReturn);
    assert!(same_payment(&call.payment_data, &expected));
    assert!(same_data(&call.frm_data, &before));

    let done = pending.resume(&mut frm, Ok(())).unwrap().unwrap();
    let expected = data(FraudCheckStatus::Fraud, FraudCheckLastStep::TransactionOrRecordRefund);
    assert!(same_data(&frm, &expected));
    assert!(same_data(&done, &expected));
    let mut again = None;
    assert!(matches!(
        FraudCheckPost.execute_post_tasks(&frm, &mut again),
        PostTask::Done(Some(_))
    ));
    assert_eq!(again, None);
}

#[test]
fn refused_cancellation_leaves_everything_but_the_suggestion() {
    let frm = data(FraudCheckStatus::Fraud, FraudCheckLastStep::CheckoutOrSale);
    let mut pay = payment();
    let mut suggestion = None;
    match FraudCheckPost.execute_post_tasks(&frm, &mut suggestion) {
        PostTask::Cancel(pending, _) => {
            assert_eq!(pending.resume(&frm, &mut pay, Err("down")).err(), Some("down"));
        }
        _ => panic!("not cancelled"),
    }
    assert!(same_payment(&pay, &payment()));
    assert_eq!(suggestion, Some(FrmSuggestion::FrmCancelTransaction));
}

#[test]
fn refused_return_is_tried_again() {
    let mut frm = data(FraudCheckStatus::Fraud, FraudCheckLastStep::CheckoutOrSale);
    let mut pay = payment();
    let mut suggestion = None;
    match FraudCheckPost.execute_post_tasks(&frm, &mut suggestion) {
        PostTask::Cancel(pending, _) => {
            let (pending, _) =
                pending.resume(&frm, &mut pay, Ok(ApplicationResponse::Other)).unwrap();
            assert!(same_payment(&pay, &payment()));
            assert_eq!(pending.resume(&mut frm, Err("down")).err(), Some("down"));
        }
        _ => panic!("not cancelled"),
    }
    let expected = data(FraudCheckStatus::Fraud, FraudCheckLastStep::CheckoutOrSale);
    assert!(same_data(&frm, &expected));
    assert!(matches!(
        FraudCheckPost.execute_post_tasks(&frm, &mut suggestion),
        PostTask::Cancel(_, _)
    ));
}

#[test]
fn fraud_found_at_another_step_is_not_cancelled() {
    for step in [
        FraudCheckLastStep::Processing,
        FraudCheckLastStep::TransactionOrRecordRefund,
        FraudCheckLastStep::Fulfillment,
    ] {
        let frm = data(FraudCheckStatus::Fraud, step);
        let mut suggestion = Some(FrmSuggestion::FrmAuthorizeTransaction);
        match FraudCheckPost.execute_post_tasks(&frm, &mut suggestion) {
            PostTask::Done(Some(done)) => assert!(same_data(&done, &frm)),
            _ => panic!("something was done"),
        }
        assert_eq!(suggestion, Some(FrmSuggestion::FrmAuthorizeTransaction));
    }
}

#[test]
fn review_is_suggested() {
    let frm = data(FraudCheckStatus::ManualReview, FraudCheckLastStep::CheckoutOrSale);
    let mut suggestion = None;
    match FraudCheckPost.execute_post_tasks(&frm, &mut suggestion) {
        PostTask::Done(Some(done)) => assert!(same_data(&done, &frm)),
        _ => panic!("something was done"),
    }
    assert_eq!(suggestion, Some(FrmSuggestion::FrmManualReview));
}

#[test]
fn legitimate_payment_is_captured() {
    for method in [CaptureMethod::Automatic, CaptureMethod::SequentialAutomatic] {
        let mut frm = data(FraudCheckStatus::Legit, FraudCheckLastStep::CheckoutOrSale);
        frm.fraud_check.payment_capture_method = Some(method);
        let mut pay = payment();
        let mut suggestion = None;
        let (pending, call) = match FraudCheckPost.execute_post_tasks(&frm, &mut suggestion) {
            PostTask::Capture(pending, call) => (pending, call),
            _ => panic!("not captured"),
        };
        assert_eq!(suggestion, None);
        assert_eq!(call.operation, PaymentOperation::PaymentCapture);
        assert_eq!(call.request.payment_id, "pay_1");
        assert_eq!(call.request.merchant_id, None);
        assert_eq!(call.request.amount_to_capture, None);
        assert_eq!(call.request.refund_uncaptured_amount, None);
        assert_eq!(call.request.statement_descriptor_suffix, None);
        assert_eq!(call.request.statement_descriptor_prefix, None);
        assert!(call.request.merchant_connector_details.is_none());
        assert_eq!(call.auth_flow, AuthFlow::Merchant);
        let succeeded = IntentStatus::Other("succeeded".to_string());
        let response =
            ApplicationResponse::JsonWithHeaders(PaymentsResponse { status: succeeded.clone() });
        let done = pending.resume(&frm, &mut pay, Ok(response)).unwrap().unwrap();
        assert!(same_data(&done, &frm));
        assert_eq!(pay.payment_intent.status, succeeded);
    }
}

#[test]
fn refused_capture_is_told() {
    let frm = data(FraudCheckStatus::Legit, FraudCheckLastStep::CheckoutOrSale);
    let mut pay = payment();
    let mut suggestion = None;
    match FraudCheckPost.execute_post_tasks(&frm, &mut suggestion) {
        PostTask::Capture(pending, _) => {
            assert_eq!(pending.resume(&frm, &mut pay, Err("down")).err(), Some("down"));
        }
        _ => panic!("not captured"),
    }
    assert!(same_payment(&pay, &payment()));
}

#[test]
fn legitimate_payment_waits_where_capture_is_asked_for() {
    for method in [
        None,
        Some(CaptureMethod::Manual),
        Some(CaptureMethod::ManualMultiple),
        Some(CaptureMethod::Scheduled),
    ] {
        let mut frm = data(FraudCheckStatus::Legit, FraudCheckLastStep::CheckoutOrSale);
        frm.fraud_check.payment_capture_method = method;
        let mut suggestion = None;
        assert!(matches!(
            FraudCheckPost.execute_post_tasks(&frm, &mut suggestion),
            PostTask::Done(Some(_))
        ));
        assert_eq!(suggestion, None);
    }
}

#[test]
fn ids_of_transactions() {
    assert_eq!(connector_transaction_id(ResponseId::NoResponseId), None);
    assert_eq!(
        connector_transaction_id(ResponseId::ConnectorTransactionId("a".to_string())),
        Some("a".to_string())
    );
    assert_eq!(
        connector_transaction_id(ResponseId::EncodedData("b".to_string())),
        Some("b".to_string())
    );
}

#[test]
fn verdict_is_written_down() {
    let stored = check(FraudCheckStatus::Pending, FraudCheckLastStep::CheckoutOrSale);
    for response in [
        FrmResponse::<Kinds>::Sale(Ok(verdict(FraudCheckStatus::Legit))),
        FrmResponse::<Kinds>::Fulfillment(Ok(verdict(FraudCheckStatus::Legit))),
    ] {
        match fraud_check_update(response, &stored, 99) {
            Some(FraudCheckUpdate::ResponseUpdate {
                frm_status,
                frm_transaction_id,
                frm_reason,
                frm_score,
                metadata,
                modified_at,
                last_step,
                payment_capture_method,
            }) => {
                assert_eq!(frm_status, FraudCheckStatus::Legit);
                assert_eq!(frm_transaction_id, Some("txn_1".to_string()));
                assert_eq!(frm_reason, text("reason"));
                assert_eq!(frm_score, Some(42));
                assert_eq!(metadata, text("connector"));
                assert_eq!(modified_at, 99);
                assert_eq!(last_step, FraudCheckLastStep::CheckoutOrSale);
                assert_eq!(payment_capture_method, Some(CaptureMethod::Automatic));
            }
            _ => panic!("no verdict"),
        }
    }
}

#[test]
fn return_keeps_the_verdict() {
    let stored = check(FraudCheckStatus::Fraud, FraudCheckLastStep::TransactionOrRecordRefund);
    match fraud_check_update(FrmResponse::RecordReturn(Ok(returned())), &stored, 99) {
        Some(FraudCheckUpdate::ResponseUpdate {
            frm_status,
            frm_transaction_id,
            frm_reason,
            frm_score,
            metadata,
            modified_at,
            last_step,
            payment_capture_method,
        }) => {
            assert_eq!(frm_status, FraudCheckStatus::Fraud);
            assert_eq!(frm_transaction_id, Some("ret_1".to_string()));
            assert_eq!(frm_reason, text("looks odd"));
            assert_eq!(frm_score, Some(7));
            assert_eq!(metadata, text("connector"));
            assert_eq!(modified_at, 99);
            assert_eq!(last_step, FraudCheckLastStep::TransactionOrRecordRefund);
            assert_eq!(payment_capture_method, Some(CaptureMethod::Automatic));
        }
        _ => panic!("no verdict"),
    }
}

#[test]
fn errors_mark_the_check_failed() {
    let stored = check(FraudCheckStatus::Pending, FraudCheckLastStep::CheckoutOrSale);
    for response in [
        FrmResponse::Sale(Err(error("no"))),
        FrmResponse::Fulfillment(Err(error("no"))),
        FrmResponse::RecordReturn(Err(error("no"))),
    ] {
        assert_eq!(error_message(fraud_check_update(response, &stored, 99)), "no");
    }
}

#[test]
fn answers_of_another_flow_mark_the_check_failed() {
    let stored = check(FraudCheckStatus::Pending, FraudCheckLastStep::CheckoutOrSale);
    assert_eq!(
        error_message(fraud_check_update(FrmResponse::Sale(Ok(returned())), &stored, 99)),
        "Error: Got Record Return Response response in current Sale flow"
    );
    let answer = FrmResponse::RecordReturn(Ok(verdict(FraudCheckStatus::Legit)));
    assert_eq!(
        error_message(fraud_check_update(answer, &stored, 99)),
        "Error: Got Transaction Response response in current Record Return flow"
    );
    for response in [
        FrmResponse::Checkout(Ok(verdict(FraudCheckStatus::Legit))),
        FrmResponse::Checkout(Err(error("no"))),
        FrmResponse::Transaction(Ok(fulfilled())),
        FrmResponse::Transaction(Err(error("no"))),
    ] {
        assert_eq!(
            error_message(fraud_check_update(response, &stored, 99)),
            "Error: Got Pre(Sale) flow response in current post flow"
        );
    }
}

#[test]
fn fulfilment_changes_nothing() {
    let stored = check(FraudCheckStatus::Pending, FraudCheckLastStep::CheckoutOrSale);
    for response in [
        FrmResponse::Sale(Ok(fulfilled())),
        FrmResponse::Fulfillment(Ok(fulfilled())),
        FrmResponse::RecordReturn(Ok(fulfilled())),
        FrmResponse::Fulfillment(Ok(returned())),
    ] {
        assert!(fraud_check_update(response, &stored, 99).is_none());
    }
}

#[test]
fn suggestions_and_what_they_mean() {
    let cancel = reject(FrmSuggestion::FrmCancelTransaction, &labels());
    assert_eq!(cancel.attempt_status, AttemptStatus::Failure);
    assert_eq!(cancel.intent_status, IntentStatus::Failed);
    assert_eq!(cancel.merchant_decision, Some("rejected".to_string()));
    assert_eq!(
        cancel.error_message,
        Some(Some("Cancel Initiated with the processor".to_string()))
    );
    let review = reject(FrmSuggestion::FrmManualReview, &labels());
    assert_eq!(review.attempt_status, AttemptStatus::Unresolved);
    assert_eq!(review.intent_status, IntentStatus::RequiresMerchantAction);
    assert_eq!(review.merchant_decision, None);
    assert_eq!(review.error_message, None);
    let authorize = reject(FrmSuggestion::FrmAuthorizeTransaction, &labels());
    assert_eq!(authorize.attempt_status, AttemptStatus::Authorized);
    assert_eq!(authorize.intent_status, IntentStatus::RequiresCapture);
    assert_eq!(authorize.merchant_decision, None);
    assert_eq!(authorize.error_message, None);
}

#[test]
fn texts_of_values() {
    let labels = labels();
    assert_eq!(labels.status(FraudCheckStatus::Fraud), "fraud");
    assert_eq!(labels.status(FraudCheckStatus::ManualReview), "manual_review");
    assert_eq!(labels.status(FraudCheckStatus::Pending), "pending");
    assert_eq!(labels.status(FraudCheckStatus::Legit), "legit");
    assert_eq!(labels.status(FraudCheckStatus::TransactionFailure), "transaction_failure");
    assert_eq!(labels.storage_scheme(MerchantStorageScheme::PostgresOnly), "postgres_only");
    assert_eq!(labels.storage_scheme(MerchantStorageScheme::RedisKv), "redis_kv");
}

fn begin_rejection(payment_data: &PaymentData<Kinds>) -> AttemptPending<Kinds> {
    let frm = data(FraudCheckStatus::Fraud, FraudCheckLastStep::TransactionOrRecordRefund);
    let answer = router(FrmResponse::Sale(Ok(verdict(FraudCheckStatus::Fraud))));
    let suggestion = Some(FrmSuggestion::FrmCancelTransaction);
    match FraudCheckPost.update_tracker(frm, payment_data, suggestion, answer, &labels(), 99) {
        UpdateStep::Attempt(pending, call) => {
            assert!(same_attempt(&call.this, &payment_data.payment_attempt));
            assert_eq!(call.storage_scheme, MerchantStorageScheme::RedisKv);
            match call.payment_attempt {
                PaymentAttemptUpdate::RejectUpdate {
                    status,
                    error_code,
                    error_message,
                    updated_by,
                } => {
                    assert_eq!(status, AttemptStatus::Failure);
                    assert_eq!(error_code, Some(Some("fraud".to_string())));
                    assert_eq!(
                        error_message,
                        Some(Some("Cancel Initiated with the processor".to_string()))
                    );
                    assert_eq!(updated_by, "redis_kv");
                }
            }
            pending
        }
        UpdateStep::FraudCheck(_) => panic!("the attempt was passed over"),
    }
}

#[test]
fn outcome_is_stored_record_by_record() {
    let mut pay = payment();
    let pending = begin_rejection(&pay);

    let stored_attempt = attempt("att_1", 32);
    let (pending, call) = pending.resume(&mut pay, Ok(stored_attempt.clone())).ok().unwrap();
    assert!(same_attempt(&pay.payment_attempt, &stored_attempt));
    assert!(same_intent(&call.this, &payment().payment_intent));
    assert_eq!(call.storage_scheme, MerchantStorageScheme::RedisKv);
    match call.payment_intent {
        PaymentIntentUpdate::RejectUpdate { status, merchant_decision, updated_by } => {
            assert_eq!(status, IntentStatus::Failed);
            assert_eq!(merchant_decision, Some("rejected".to_string()));
            assert_eq!(updated_by, "redis_kv");
        }
    }

    let stored_intent = intent("pay_1", IntentStatus::Failed, 31);
    let step = pending.resume(&mut pay, Ok(stored_intent.clone())).ok().unwrap();
    assert!(same_intent(&pay.payment_intent, &stored_intent));
    assert!(same_attempt(&pay.payment_attempt, &stored_attempt));

    let (pending, call) = match step {
        FraudCheckStep::Update(pending, call) => (pending, call),
        FraudCheckStep::Done(_) => panic!("the verdict was lost"),
    };
    let before = check(FraudCheckStatus::Fraud, FraudCheckLastStep::TransactionOrRecordRefund);
    assert!(same_check(&call.this, &before));
    assert!(matches!(
        call.fraud_check,
        FraudCheckUpdate::ResponseUpdate { frm_status: FraudCheckStatus::Fraud, .. }
    ));

    let mut stored = before;
    stored.modified_at = 99;
    let done = pending.resume(Ok(stored.clone())).ok().unwrap();
    let mut expected = data(FraudCheckStatus::Fraud, FraudCheckLastStep::TransactionOrRecordRefund);
    expected.fraud_check = stored;
    assert!(same_data(&done, &expected));
}

#[test]
fn refused_attempt_ends_it() {
    let mut pay = payment();
    let pending = begin_rejection(&pay);
    match pending.resume(&mut pay, Err("gone")) {
        Err(Failure::NotFoundResponse { error, response }) => {
            assert_eq!(error, "gone");
            assert_eq!(response, ApiErrorResponse::PaymentNotFound);
        }
        _ => panic!("not told"),
    }
    assert!(same_payment(&pay, &payment()));
}

#[test]
fn refused_intent_keeps_the_stored_attempt() {
    let mut pay = payment();
    let pending = begin_rejection(&pay);
    let (pending, _) = pending.resume(&mut pay, Ok(attempt("att_1", 32))).ok().unwrap();
    match pending.resume(&mut pay, Err("gone")) {
        Err(Failure::NotFoundResponse { error, response }) => {
            assert_eq!(error, "gone");
            assert_eq!(response, ApiErrorResponse::PaymentNotFound);
        }
        _ => panic!("not told"),
    }
    assert!(same_attempt(&pay.payment_attempt, &attempt("att_1", 32)));
    assert!(same_intent(&pay.payment_intent, &payment().payment_intent));
}

#[test]
fn refused_check_is_told_as_a_missing_payment() {
    let frm = data(FraudCheckStatus::Pending, FraudCheckLastStep::CheckoutOrSale);
    let answer = router(FrmResponse::Checkout(Err(error("no"))));
    match FraudCheckPost.update_tracker(frm, &payment(), None, answer, &labels(), 99) {
        UpdateStep::FraudCheck(FraudCheckStep::Update(pending, _)) => {
            match pending.resume(Err("gone")) {
                Err(Failure::ChangedContext { error, response }) => {
                    assert_eq!(error, "gone");
                    assert_eq!(response, ApiErrorResponse::PaymentNotFound);
                }
                _ => panic!("not told"),
            }
        }
        _ => panic!("the check was passed over"),
    }
}

#[test]
fn nothing_to_store() {
    let frm = data(FraudCheckStatus::Pending, FraudCheckLastStep::Fulfillment);
    let expected = frm.clone();
    let answer = router(FrmResponse::Fulfillment(Ok(fulfilled())));
    match FraudCheckPost.update_tracker(frm, &payment(), None, answer, &labels(), 99) {
        UpdateStep::FraudCheck(FraudCheckStep::Done(done)) => {
            assert!(same_data(&done, &expected));
        }
        _ => panic!("something was stored"),
    }
}

#[test]
fn suggestion_without_a_change_to_the_check() {
    let frm = data(FraudCheckStatus::ManualReview, FraudCheckLastStep::Fulfillment);
    let expected = frm.clone();
    let mut pay = payment();
    let answer = router(FrmResponse::Fulfillment(Ok(fulfilled())));
    let suggestion = Some(FrmSuggestion::FrmManualReview);
    let pending = match FraudCheckPost.update_tracker(
        frm,
        &pay,
        suggestion,
        answer,
        &labels(),
        99,
    ) {
        UpdateStep::Attempt(pending, _) => pending,
        UpdateStep::FraudCheck(_) => panic!("the attempt was passed over"),
    };
    let (pending, _) = pending.resume(&mut pay, Ok(attempt("att_1", 32))).ok().unwrap();
    let stored = intent("pay_1", IntentStatus::RequiresMerchantAction, 31);
    match pending.resume(&mut pay, Ok(stored)) {
        Ok(FraudCheckStep::Done(done)) => assert!(same_data(&done, &expected)),
        _ => panic!("the check was changed"),
    }
}
