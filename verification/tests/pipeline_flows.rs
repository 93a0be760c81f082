use payflow::errors::{ApiError, ValidationIssue};
use payflow::ids::PAYMENT_ID_LENGTH;
use payflow::pipeline::{
    apply_attempt_outcome, apply_refund_outcome, create_payment, run_refund, run_status_flow,
    CreateRequest, Flow, MerchantAccount,
};
use payflow::status::AttemptStatus as As;
use payflow::status::RefundStatus as Rs;
use payflow::refund_api::RefundRequest;
use payflow::status::{Currency, IntentStatus, RefundStatus, StorageScheme};
use payflow::storage::Storage;

fn merchant(scheme: StorageScheme) -> MerchantAccount {
    MerchantAccount { merchant_id: "M1".to_string(), storage_scheme: scheme }
}

fn create_request(payment_id: Option<&str>, amount: i64, confirm: bool) -> CreateRequest {
    CreateRequest {
        payment_id: payment_id.map(|p| p.to_string()),
        merchant_id: Some("M1".to_string()),
        amount,
        currency: Currency::USD,
        confirm,
        customer_id: None,
        name: None,
        email: None,
        phone: None,
        phone_country_code: None,
        payment_method: None,
        payment_method_data: None,
        return_url: None,
        metadata: None,
    }
}

fn refund_request(payment_id: &str, refund_id: Option<&str>, amount: Option<i64>) -> RefundRequest {
    RefundRequest {
        payment_id: payment_id.to_string(),
        refund_id: refund_id.map(|r| r.to_string()),
        merchant_id: Some("M1".to_string()),
        amount,
        reason: None,
        refund_type: None,
        metadata: None,
    }
}

#[test]
fn create_without_payment_id_generates_one_of_fixed_length() {
    for scheme in [StorageScheme::Strict, StorageScheme::Cached] {
        let mut storage = Storage::new(4);
        let m = merchant(scheme);
        let resp = create_payment(&mut storage, &m, &create_request(None, 6540, false), 1000)
            .unwrap();
        assert_eq!(resp.payment_id.len(), PAYMENT_ID_LENGTH);
        assert_eq!(resp.status, IntentStatus::RequiresPaymentMethod);
        assert_eq!(resp.amount, 6540);
        assert_eq!(resp.currency, Currency::USD);
        assert!(resp.client_secret.is_some());
    }
}

#[test]
fn create_with_confirm_enters_a_confirmed_status() {
    let mut storage = Storage::new(4);
    let m = merchant(StorageScheme::Strict);
    // confirmed without inline data: awaits confirmation of a method
    let resp = create_payment(&mut storage, &m, &create_request(None, 6540, true), 1000).unwrap();
    assert!(
        resp.status == IntentStatus::RequiresConfirmation || resp.status == IntentStatus::Processing
    );
    assert_eq!(resp.status, IntentStatus::RequiresConfirmation);
    // confirmed with inline data: goes straight to processing
    let mut req = create_request(None, 100, true);
    req.payment_method_data = Some("card-data".to_string());
    let resp2 = create_payment(&mut storage, &m, &req, 1000).unwrap();
    assert_eq!(resp2.status, IntentStatus::Processing);
}

#[test]
fn create_persists_exactly_one_intent_and_one_attempt() {
    for scheme in [StorageScheme::Strict, StorageScheme::Cached] {
        let mut storage = Storage::new(4);
        let m = merchant(scheme);
        create_payment(&mut storage, &m, &create_request(Some("P1"), 6540, false), 1000).unwrap();
        let (intents, attempts) = match scheme {
            StorageScheme::Strict => (&storage.rel.intents, &storage.rel.attempts),
            StorageScheme::Cached => (&storage.kv.cache.intents, &storage.kv.cache.attempts),
        };
        assert_eq!(intents.len(), 1);
        assert_eq!(attempts.len(), 1);
        assert_eq!(intents[0].active_attempt_id.as_deref(), Some(attempts[0].attempt_id.as_str()));
        assert_eq!(attempts[0].payment_id, "P1");
        assert_eq!(attempts[0].merchant_id, "M1");
    }
}

#[test]
fn second_create_with_same_payment_id_is_duplicate() {
    for scheme in [StorageScheme::Strict, StorageScheme::Cached] {
        let mut storage = Storage::new(4);
        let m = merchant(scheme);
        let first = create_payment(&mut storage, &m, &create_request(Some("P1"), 6540, false), 1000);
        let second = create_payment(&mut storage, &m, &create_request(Some("P1"), 6540, false), 1001);
        assert!(first.is_ok());
        assert_eq!(second.unwrap_err(), ApiError::DuplicateRecord);
        let intents = match scheme {
            StorageScheme::Strict => &storage.rel.intents,
            StorageScheme::Cached => &storage.kv.cache.intents,
        };
        assert_eq!(intents.len(), 1);
    }
}

#[test]
fn create_rejects_foreign_merchant_id() {
    let mut storage = Storage::new(4);
    let m = merchant(StorageScheme::Strict);
    let mut req = create_request(Some("P1"), 100, false);
    req.merchant_id = Some("M2".to_string());
    let err = create_payment(&mut storage, &m, &req, 1000).unwrap_err();
    assert_eq!(err, ApiError::Validation(ValidationIssue::MerchantIdMismatch));
    assert!(storage.rel.intents.is_empty());
}

#[test]
fn create_rejects_negative_amount() {
    let mut storage = Storage::new(4);
    let m = merchant(StorageScheme::Strict);
    let err = create_payment(&mut storage, &m, &create_request(Some("P1"), -5, false), 1000)
        .unwrap_err();
    assert_eq!(err, ApiError::Validation(ValidationIssue::NegativeAmount));
    assert!(storage.rel.intents.is_empty());
}

#[test]
fn create_under_unhealthy_stream_surfaces_consistency_error() {
    let mut storage = Storage::new(4);
    storage.kv.set_stream_health(false);
    let m = merchant(StorageScheme::Cached);
    let err = create_payment(&mut storage, &m, &create_request(Some("P1"), 100, false), 1000)
        .unwrap_err();
    assert_eq!(err, ApiError::Consistency);
    // cache-resident but unreplicated
    assert_eq!(storage.kv.cache.intents.len(), 1);
    assert!(storage.kv.shards.iter().all(|s| s.is_empty()));
}

#[test]
fn repeat_customer_id_inserts_no_duplicate_row() {
    let mut storage = Storage::new(4);
    let m = merchant(StorageScheme::Strict);
    let mut req = create_request(Some("P1"), 100, false);
    req.customer_id = Some("cus_1".to_string());
    create_payment(&mut storage, &m, &req, 1000).unwrap();
    let mut req2 = create_request(Some("P2"), 100, false);
    req2.customer_id = Some("cus_1".to_string());
    create_payment(&mut storage, &m, &req2, 1001).unwrap();
    assert_eq!(storage.rel.customers.len(), 1);
    assert_eq!(storage.rel.customers[0].customer_id, "cus_1");
}

#[test]
fn confirm_then_capture_moves_the_intent_forward() {
    let mut storage = Storage::new(4);
    let m = merchant(StorageScheme::Strict);
    create_payment(&mut storage, &m, &create_request(Some("P1"), 100, false), 1000).unwrap();
    let confirmed = run_status_flow(&mut storage, &m, Flow::Confirm, "P1", 1001).unwrap();
    assert_eq!(confirmed.status, IntentStatus::Processing);
    let captured = run_status_flow(&mut storage, &m, Flow::Capture, "P1", 1002).unwrap();
    assert_eq!(captured.status, IntentStatus::Succeeded);
}

#[test]
fn no_flow_leaves_a_terminal_status() {
    let mut storage = Storage::new(4);
    let m = merchant(StorageScheme::Strict);
    create_payment(&mut storage, &m, &create_request(Some("P1"), 100, false), 1000).unwrap();
    run_status_flow(&mut storage, &m, Flow::Cancel, "P1", 1001).unwrap();
    for flow in [Flow::Confirm, Flow::Capture, Flow::Cancel] {
        let err = run_status_flow(&mut storage, &m, flow, "P1", 1002).unwrap_err();
        assert_eq!(err, ApiError::Validation(ValidationIssue::IllegalStatusTransition));
    }
    let sync = run_status_flow(&mut storage, &m, Flow::Sync, "P1", 1003).unwrap();
    assert_eq!(sync.status, IntentStatus::Cancelled);
}

#[test]
fn sync_reports_without_mutating() {
    let mut storage = Storage::new(4);
    let m = merchant(StorageScheme::Cached);
    create_payment(&mut storage, &m, &create_request(Some("P1"), 100, false), 1000).unwrap();
    let entries_before: usize = storage.kv.shards.iter().map(|s| s.len()).sum();
    let resp = run_status_flow(&mut storage, &m, Flow::Sync, "P1", 1001).unwrap();
    assert_eq!(resp.status, IntentStatus::RequiresPaymentMethod);
    let entries_after: usize = storage.kv.shards.iter().map(|s| s.len()).sum();
    assert_eq!(entries_before, entries_after);
}

#[test]
fn status_flow_on_unknown_payment_is_not_found() {
    let mut storage = Storage::new(4);
    let m = merchant(StorageScheme::Strict);
    let err = run_status_flow(&mut storage, &m, Flow::Confirm, "nope", 1).unwrap_err();
    assert_eq!(err, ApiError::NotFound);
}

#[test]
fn refund_happy_path_and_default_amount() {
    for scheme in [StorageScheme::Strict, StorageScheme::Cached] {
        let mut storage = Storage::new(4);
        let m = merchant(scheme);
        create_payment(&mut storage, &m, &create_request(Some("P1"), 1000, false), 10).unwrap();
        let partial = run_refund(&mut storage, &m, &refund_request("P1", Some("R1"), Some(300)), 11)
            .unwrap();
        assert_eq!(partial.amount, 300);
        assert_eq!(partial.status, RefundStatus::Pending);
        // absent amount defaults to the full remaining refundable amount
        let rest = run_refund(&mut storage, &m, &refund_request("P1", Some("R2"), None), 12)
            .unwrap();
        assert_eq!(rest.amount, 700);
    }
}

#[test]
fn refund_exceeding_remaining_is_rejected_with_no_row() {
    for scheme in [StorageScheme::Strict, StorageScheme::Cached] {
        let mut storage = Storage::new(4);
        let m = merchant(scheme);
        create_payment(&mut storage, &m, &create_request(Some("P1"), 1000, false), 10).unwrap();
        run_refund(&mut storage, &m, &refund_request("P1", Some("R1"), Some(800)), 11).unwrap();
        let err = run_refund(&mut storage, &m, &refund_request("P1", Some("R2"), Some(300)), 12)
            .unwrap_err();
        assert_eq!(err, ApiError::Validation(ValidationIssue::RefundExceedsRemaining));
        let refunds = match scheme {
            StorageScheme::Strict => &storage.rel.refunds,
            StorageScheme::Cached => &storage.kv.cache.refunds,
        };
        assert_eq!(refunds.len(), 1);
    }
}

#[test]
fn refund_of_unknown_payment_is_not_found() {
    let mut storage = Storage::new(4);
    let m = merchant(StorageScheme::Strict);
    let err = run_refund(&mut storage, &m, &refund_request("P1", Some("R1"), Some(1)), 1)
        .unwrap_err();
    assert_eq!(err, ApiError::NotFound);
}

#[test]
fn refund_with_duplicate_id_is_refused() {
    let mut storage = Storage::new(4);
    let m = merchant(StorageScheme::Strict);
    create_payment(&mut storage, &m, &create_request(Some("P1"), 1000, false), 10).unwrap();
    run_refund(&mut storage, &m, &refund_request("P1", Some("R1"), Some(100)), 11).unwrap();
    let err = run_refund(&mut storage, &m, &refund_request("P1", Some("R1"), Some(100)), 12)
        .unwrap_err();
    assert_eq!(err, ApiError::DuplicateRecord);
}

#[test]
fn refund_generates_idempotency_key_when_absent() {
    let mut storage = Storage::new(4);
    let m = merchant(StorageScheme::Strict);
    create_payment(&mut storage, &m, &create_request(Some("P1"), 1000, false), 10).unwrap();
    let row = run_refund(&mut storage, &m, &refund_request("P1", None, Some(10)), 11).unwrap();
    assert_eq!(row.refund_id.len(), payflow::ids::REFUND_ID_LENGTH);
    assert!(row.refund_id.starts_with("ref_"));
}

#[test]
fn refund_flow_rejects_negative_amount() {
    let mut storage = Storage::new(4);
    let m = merchant(StorageScheme::Strict);
    create_payment(&mut storage, &m, &create_request(Some("P1"), 1000, false), 10).unwrap();
    let err = run_refund(&mut storage, &m, &refund_request("P1", Some("R1"), Some(-5)), 11)
        .unwrap_err();
    assert_eq!(err, ApiError::Validation(ValidationIssue::NegativeAmount));
    assert!(storage.rel.refunds.is_empty());
}

#[test]
fn refund_outcomes_respect_the_refund_state_machine() {
    let mut storage = Storage::new(4);
    let m = merchant(StorageScheme::Strict);
    create_payment(&mut storage, &m, &create_request(Some("P1"), 1000, false), 10).unwrap();
    run_refund(&mut storage, &m, &refund_request("P1", Some("R1"), Some(100)), 11).unwrap();

    // pending -> manual review -> success
    let reviewed =
        apply_refund_outcome(&mut storage, &m, "R1", Rs::ManualReview, None, None, 12).unwrap();
    assert_eq!(reviewed.status, Rs::ManualReview);
    let settled =
        apply_refund_outcome(&mut storage, &m, "R1", Rs::Success, None, None, 13).unwrap();
    assert_eq!(settled.status, Rs::Success);
    // a terminal refund admits no further outcome
    for target in [Rs::Pending, Rs::ManualReview, Rs::Failure, Rs::Success] {
        let err = apply_refund_outcome(&mut storage, &m, "R1", target, None, None, 14).unwrap_err();
        assert_eq!(err, ApiError::Validation(ValidationIssue::IllegalStatusTransition));
    }
}

#[test]
fn failed_refund_outcome_records_its_error_data() {
    let mut storage = Storage::new(4);
    let m = merchant(StorageScheme::Cached);
    create_payment(&mut storage, &m, &create_request(Some("P1"), 1000, false), 10).unwrap();
    run_refund(&mut storage, &m, &refund_request("P1", Some("R1"), Some(100)), 11).unwrap();
    let failed = apply_refund_outcome(
        &mut storage,
        &m,
        "R1",
        Rs::Failure,
        Some("card_declined".to_string()),
        Some("the issuer declined the reversal".to_string()),
        12,
    )
    .unwrap();
    assert_eq!(failed.status, Rs::Failure);
    assert_eq!(failed.error_code.as_deref(), Some("card_declined"));
    assert_eq!(failed.error_message.as_deref(), Some("the issuer declined the reversal"));
    assert_eq!(failed.modified_at, 12);
    // a failed refund frees the amount it had reserved
    let again = run_refund(&mut storage, &m, &refund_request("P1", Some("R2"), Some(1000)), 13);
    assert!(again.is_ok());
}

#[test]
fn attempt_outcomes_respect_the_attempt_state_machine() {
    let mut storage = Storage::new(4);
    let m = merchant(StorageScheme::Strict);
    // confirm=true creates the attempt already pending
    create_payment(&mut storage, &m, &create_request(Some("P1"), 1000, true), 10).unwrap();
    let attempt_id = storage.rel.attempts[0].attempt_id.clone();
    let charged =
        apply_attempt_outcome(&mut storage, &m, "P1", &attempt_id, As::Charged, 11).unwrap();
    assert_eq!(charged.status, As::Charged);
    // terminal: no further outcome applies
    let err = apply_attempt_outcome(&mut storage, &m, "P1", &attempt_id, As::Pending, 12)
        .unwrap_err();
    assert_eq!(err, ApiError::Validation(ValidationIssue::IllegalStatusTransition));
    // an unknown attempt is not found
    let missing = apply_attempt_outcome(&mut storage, &m, "P1", "att_none", As::Pending, 13)
        .unwrap_err();
    assert_eq!(missing, ApiError::NotFound);
}
