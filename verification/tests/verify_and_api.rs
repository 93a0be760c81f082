use payflow::errors::{ApiError, ValidationIssue};
use payflow::pipeline::MerchantAccount;
use payflow::refund_api::{
    currency_code, make_refund_response, refund_matches, AmountFilter, RefundListRequest,
    RefundStatus, RefundType, TimeRange,
};
use payflow::status;
use payflow::status::{Currency, IntentStatus, StorageScheme};
use payflow::storage::Storage;
use payflow::verify_flow::{PaymentMethodValidate, VerifyRequest};

fn merchant(scheme: StorageScheme) -> MerchantAccount {
    MerchantAccount { merchant_id: "M1".to_string(), storage_scheme: scheme }
}

fn verify_request() -> VerifyRequest {
    VerifyRequest {
        merchant_id: Some("M1".to_string()),
        customer_id: Some("cus_7".to_string()),
        name: Some("Seven of Hearts".to_string()),
        email: Some("seven@example.test".to_string()),
        phone: None,
        phone_country_code: None,
        payment_method: None,
        payment_method_data: Some("card-data".to_string()),
        payment_token: None,
        mandate_data: None,
        mandate_id: None,
        off_session: None,
    }
}

#[test]
fn verify_flow_creates_trackers_and_ends_processing() {
    for scheme in [StorageScheme::Strict, StorageScheme::Cached] {
        let mut storage = Storage::new(4);
        let m = merchant(scheme);
        let op = PaymentMethodValidate;
        let resp = op.run(&mut storage, &m, &verify_request(), &"stripe".to_string(), 500)
            .unwrap();
        assert_eq!(resp.status, IntentStatus::Processing);
        assert_eq!(resp.amount, 0);
        assert!(resp.payment_id.starts_with("val_"));
        let (intents, attempts, crs) = match scheme {
            StorageScheme::Strict => (
                &storage.rel.intents,
                &storage.rel.attempts,
                &storage.rel.connector_responses,
            ),
            StorageScheme::Cached => (
                &storage.kv.cache.intents,
                &storage.kv.cache.attempts,
                &storage.kv.cache.connector_responses,
            ),
        };
        assert_eq!(intents.len(), 1);
        assert_eq!(attempts.len(), 1);
        assert_eq!(crs.len(), 1);
        assert_eq!(intents[0].amount, 0);
        assert_eq!(intents[0].status, IntentStatus::Processing);
        assert_eq!(attempts[0].connector.as_deref(), Some("stripe"));
        assert_eq!(crs[0].payment_id, intents[0].payment_id);
        // the customer row is created idempotently on the strict path,
        // filled from the request's customer details
        assert_eq!(storage.rel.customers.len(), 1);
        assert_eq!(storage.rel.customers[0].customer_id, "cus_7");
        assert_eq!(storage.rel.customers[0].name.as_deref(), Some("Seven of Hearts"));
        assert_eq!(storage.rel.customers[0].email.as_deref(), Some("seven@example.test"));
    }
}

#[test]
fn verify_flow_rejects_foreign_merchant() {
    let mut storage = Storage::new(4);
    let m = merchant(StorageScheme::Strict);
    let mut req = verify_request();
    req.merchant_id = Some("M9".to_string());
    let op = PaymentMethodValidate;
    let err = op.run(&mut storage, &m, &req, &"stripe".to_string(), 500).unwrap_err();
    assert_eq!(err, ApiError::Validation(ValidationIssue::MerchantIdMismatch));
    assert!(storage.rel.intents.is_empty());
    assert!(storage.kv.cache.intents.is_empty());
}

#[test]
fn refund_status_maps_onto_api_statuses() {
    assert_eq!(RefundStatus::from(status::RefundStatus::Failure), RefundStatus::Failed);
    assert_eq!(RefundStatus::from(status::RefundStatus::TransactionFailure), RefundStatus::Failed);
    assert_eq!(RefundStatus::from(status::RefundStatus::ManualReview), RefundStatus::Review);
    assert_eq!(RefundStatus::from(status::RefundStatus::Pending), RefundStatus::Pending);
    assert_eq!(RefundStatus::from(status::RefundStatus::Success), RefundStatus::Succeeded);
}

#[test]
fn api_defaults() {
    assert_eq!(RefundType::default(), RefundType::Scheduled);
    assert_eq!(RefundStatus::default(), RefundStatus::Pending);
}

#[test]
fn currency_codes() {
    assert_eq!(currency_code(Currency::USD), "USD");
    assert_eq!(currency_code(Currency::EUR), "EUR");
    assert_eq!(currency_code(Currency::JPY), "JPY");
}

fn sample_refund() -> payflow::entities::Refund {
    payflow::entities::Refund {
        refund_id: "R1".to_string(),
        payment_id: "P1".to_string(),
        merchant_id: "M1".to_string(),
        connector: Some("stripe".to_string()),
        amount: 250,
        currency: Currency::USD,
        status: status::RefundStatus::Success,
        reason: Some("requested_by_customer".to_string()),
        metadata: None,
        error_code: None,
        error_message: None,
        created_at: 100,
        modified_at: 200,
    }
}

#[test]
fn refund_response_reports_the_row() {
    let resp = make_refund_response(&sample_refund());
    assert_eq!(resp.refund_id, "R1");
    assert_eq!(resp.payment_id, "P1");
    assert_eq!(resp.amount, 250);
    assert_eq!(resp.currency, "USD");
    assert_eq!(resp.status, RefundStatus::Succeeded);
    assert_eq!(resp.reason.as_deref(), Some("requested_by_customer"));
    assert_eq!(resp.created_at, Some(100));
    assert_eq!(resp.updated_at, Some(200));
    assert_eq!(resp.connector, "stripe");
}

fn empty_list_request() -> RefundListRequest {
    RefundListRequest {
        payment_id: None,
        refund_id: None,
        limit: None,
        offset: None,
        time_range: None,
        amount_filter: None,
        connector: None,
        currency: None,
        refund_status: None,
    }
}

#[test]
fn refund_list_constraints_match_per_field() {
    let row = sample_refund();
    assert!(refund_matches(&row, &empty_list_request()));

    let mut by_payment = empty_list_request();
    by_payment.payment_id = Some("P1".to_string());
    assert!(refund_matches(&row, &by_payment));
    by_payment.payment_id = Some("P2".to_string());
    assert!(!refund_matches(&row, &by_payment));

    let mut by_time = empty_list_request();
    by_time.time_range = Some(TimeRange { start_time: 50, end_time: Some(150) });
    assert!(refund_matches(&row, &by_time));
    by_time.time_range = Some(TimeRange { start_time: 150, end_time: None });
    assert!(!refund_matches(&row, &by_time));

    let mut by_amount = empty_list_request();
    by_amount.amount_filter = Some(AmountFilter { start_amount: Some(200), end_amount: Some(300) });
    assert!(refund_matches(&row, &by_amount));
    by_amount.amount_filter = Some(AmountFilter { start_amount: None, end_amount: Some(100) });
    assert!(!refund_matches(&row, &by_amount));

    let mut by_currency = empty_list_request();
    by_currency.currency = Some(vec![Currency::EUR, Currency::USD]);
    assert!(refund_matches(&row, &by_currency));
    by_currency.currency = Some(vec![Currency::EUR]);
    assert!(!refund_matches(&row, &by_currency));

    let mut by_status = empty_list_request();
    by_status.refund_status = Some(vec![status::RefundStatus::Success]);
    assert!(refund_matches(&row, &by_status));
    by_status.refund_status = Some(vec![status::RefundStatus::Pending]);
    assert!(!refund_matches(&row, &by_status));
}

#[test]
fn listing_refunds_is_a_documented_gap_under_the_cached_scheme() {
    let mut storage = Storage::new(2);
    let m = merchant(StorageScheme::Strict);
    payflow::pipeline::create_payment(
        &mut storage,
        &m,
        &payflow::pipeline::CreateRequest {
            payment_id: Some("P1".to_string()),
            merchant_id: None,
            amount: 500,
            currency: Currency::USD,
            confirm: false,
            customer_id: None,
            name: None,
            email: None,
            phone: None,
            phone_country_code: None,
            payment_method: None,
            payment_method_data: None,
            return_url: None,
            metadata: None,
        },
        7,
    )
    .unwrap();
    payflow::pipeline::run_refund(
        &mut storage,
        &m,
        &payflow::refund_api::RefundRequest {
            payment_id: "P1".to_string(),
            refund_id: Some("R1".to_string()),
            merchant_id: None,
            amount: Some(100),
            reason: None,
            refund_type: None,
            metadata: None,
        },
        8,
    )
    .unwrap();
    let rows = storage
        .filter_refunds_by_payment(StorageScheme::Strict, "P1", "M1")
        .unwrap();
    assert_eq!(rows.len(), 1);
    assert_eq!(rows[0].refund_id, "R1");
    let gap = storage.filter_refunds_by_payment(StorageScheme::Cached, "P1", "M1");
    assert_eq!(gap.unwrap_err(), payflow::errors::StorageError::NotSupported);
}

#[test]
fn tracker_creation_order_and_no_rollback() {
    let mut storage = Storage::new(2);
    let m = merchant(StorageScheme::Strict);
    let op = PaymentMethodValidate;
    let req = verify_request();
    let pid = "val_fixed".to_string();
    let att = "att_fixed".to_string();
    let connector = "stripe".to_string();
    let secret = "val_fixed_secret_tok".to_string();
    op.get_trackers(&mut storage, &m, &req, &pid, &att, &connector, &secret, 1)
        .unwrap();
    // replaying the same identifiers fails on the first insert, the intent
    let err = op
        .get_trackers(&mut storage, &m, &req, &pid, &att, &connector, &secret, 2)
        .unwrap_err();
    assert_eq!(
        err,
        ApiError::VerificationFailed(payflow::errors::StorageError::DuplicateRecord)
    );
    // a later insert failing after an earlier one succeeded is surfaced and
    // the earlier insert stays: the attempt identity is taken beforehand,
    // so the intent goes in and the attempt insert fails
    let pid2 = "val_other".to_string();
    let att2 = "att_taken".to_string();
    let secret2 = "val_other_secret_tok".to_string();
    storage
        .insert_payment_attempt(
            StorageScheme::Strict,
            payflow::entities::PaymentAttemptNew {
                payment_id: pid2.clone(),
                merchant_id: "M1".to_string(),
                attempt_id: att2.clone(),
                status: payflow::status::AttemptStatus::Started,
                amount: 0,
                currency: Currency::USD,
                connector: None,
                payment_method: None,
                confirm: false,
                created_at: None,
                modified_at: None,
            },
            2,
        )
        .unwrap();
    let err2 = op
        .get_trackers(&mut storage, &m, &req, &pid2, &att2, &connector, &secret2, 3)
        .unwrap_err();
    assert_eq!(
        err2,
        ApiError::VerificationFailed(payflow::errors::StorageError::DuplicateRecord)
    );
    // the intent inserted before the failing attempt insert is still there
    assert_eq!(storage.rel.intents.len(), 2);
    assert_eq!(storage.rel.attempts.len(), 2);
    assert_eq!(storage.rel.connector_responses.len(), 1);
}

#[test]
fn update_trackers_wraps_a_missing_intent_in_the_flow_response() {
    let mut storage = Storage::new(2);
    let m = merchant(StorageScheme::Strict);
    let op = PaymentMethodValidate;
    let err = op.update_trackers(&mut storage, &m, "val_absent", 9).unwrap_err();
    assert_eq!(
        err,
        ApiError::VerificationFailed(payflow::errors::StorageError::NotFound)
    );
    assert!(storage.rel.intents.is_empty());
}

#[test]
fn ambiguous_mandate_details_are_rejected_before_storage() {
    let mut storage = Storage::new(2);
    let m = merchant(StorageScheme::Strict);
    let op = PaymentMethodValidate;
    let mut req = verify_request();
    req.mandate_data = Some("monthly".to_string());
    req.mandate_id = Some("man_1".to_string());
    let err = op.run(&mut storage, &m, &req, &"stripe".to_string(), 500).unwrap_err();
    assert_eq!(err, ApiError::Validation(ValidationIssue::AmbiguousMandate));
    assert!(storage.rel.intents.is_empty());
    assert!(storage.rel.customers.is_empty());
}

#[test]
fn consistent_mandate_details_pass_validation() {
    let mut storage = Storage::new(2);
    let m = merchant(StorageScheme::Strict);
    let op = PaymentMethodValidate;
    let mut req = verify_request();
    req.mandate_data = Some("monthly".to_string());
    assert!(op.run(&mut storage, &m, &req, &"stripe".to_string(), 500).is_ok());
    let mut req2 = verify_request();
    req2.mandate_id = Some("man_1".to_string());
    assert!(op.run(&mut storage, &m, &req2, &"stripe".to_string(), 501).is_ok());
}
