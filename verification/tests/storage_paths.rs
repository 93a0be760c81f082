use payflow::entities::{PaymentIntentNew, PaymentIntentUpdate, RefundNew};
use payflow::errors::StorageError;
use payflow::relational::RelationalStore;
use payflow::status::{Currency, IntentStatus, RefundStatus};

fn intent_new(payment_id: &str, merchant_id: &str, amount: i64) -> PaymentIntentNew {
    PaymentIntentNew {
        payment_id: payment_id.to_string(),
        merchant_id: merchant_id.to_string(),
        status: IntentStatus::RequiresPaymentMethod,
        amount,
        currency: Currency::USD,
        customer_id: None,
        connector_id: None,
        client_secret: None,
        active_attempt_id: None,
        return_url: None,
        metadata: None,
        created_at: None,
        modified_at: None,
    }
}

fn refund_new(refund_id: &str, payment_id: &str, merchant_id: &str, amount: i64) -> RefundNew {
    RefundNew {
        refund_id: refund_id.to_string(),
        payment_id: payment_id.to_string(),
        merchant_id: merchant_id.to_string(),
        connector: None,
        amount,
        currency: Currency::USD,
        status: RefundStatus::Pending,
        reason: None,
        metadata: None,
        created_at: None,
        modified_at: None,
    }
}

#[test]
fn insert_then_find_returns_the_row() {
    let mut store = RelationalStore::new();
    let row = store.insert_payment_intent(intent_new("p1", "m1", 500), 1000).unwrap();
    assert_eq!(row.payment_id, "p1");
    assert_eq!(row.merchant_id, "m1");
    assert_eq!(row.amount, 500);
    assert_eq!(row.created_at, 1000);
    assert_eq!(row.modified_at, 1000);
    let found = store.find_payment_intent("p1", "m1").unwrap();
    assert_eq!(found.payment_id, "p1");
    assert_eq!(found.amount, 500);
}

#[test]
fn insert_existing_identity_is_duplicate() {
    let mut store = RelationalStore::new();
    store.insert_payment_intent(intent_new("p1", "m1", 500), 1000).unwrap();
    let err = store.insert_payment_intent(intent_new("p1", "m1", 999), 2000).unwrap_err();
    assert_eq!(err, StorageError::DuplicateRecord);
    // same payment id under another merchant is a different identity
    assert!(store.insert_payment_intent(intent_new("p1", "m2", 7), 1000).is_ok());
}

#[test]
fn find_missing_is_not_found() {
    let store = RelationalStore::new();
    assert_eq!(store.find_payment_intent("p1", "m1").unwrap_err(), StorageError::NotFound);
}

#[test]
fn update_applies_exactly_the_named_changeset() {
    let mut store = RelationalStore::new();
    store.insert_payment_intent(intent_new("p1", "m1", 500), 1000).unwrap();
    let upd = PaymentIntentUpdate::StatusUpdate {
        status: IntentStatus::Processing,
        modified_at: 1111,
    };
    let row = store.update_payment_intent("p1", "m1", &upd).unwrap();
    assert_eq!(row.status, IntentStatus::Processing);
    assert_eq!(row.modified_at, 1111);
    assert_eq!(row.created_at, 1000);
    assert_eq!(row.amount, 500);
    let found = store.find_payment_intent("p1", "m1").unwrap();
    assert_eq!(found.status, IntentStatus::Processing);
}

#[test]
fn update_missing_is_not_found() {
    let mut store = RelationalStore::new();
    let upd = PaymentIntentUpdate::StatusUpdate {
        status: IntentStatus::Processing,
        modified_at: 1,
    };
    assert_eq!(store.update_payment_intent("p1", "m1", &upd).unwrap_err(), StorageError::NotFound);
}

#[test]
fn refunded_amount_sums_only_unfailed_refunds_of_the_payment() {
    let mut store = RelationalStore::new();
    store.insert_refund(refund_new("r1", "p1", "m1", 100), 1).unwrap();
    store.insert_refund(refund_new("r2", "p1", "m1", 250), 2).unwrap();
    let mut failed = refund_new("r3", "p1", "m1", 999);
    failed.status = RefundStatus::Failure;
    store.insert_refund(failed, 3).unwrap();
    store.insert_refund(refund_new("r4", "other", "m1", 42), 4).unwrap();
    assert_eq!(store.refunded_amount("p1", "m1"), 350);
    assert_eq!(store.refunded_amount("other", "m1"), 42);
    assert_eq!(store.refunded_amount("p1", "m2"), 0);
}

#[test]
fn duplicate_refund_id_is_refused() {
    let mut store = RelationalStore::new();
    store.insert_refund(refund_new("r1", "p1", "m1", 100), 1).unwrap();
    let err = store.insert_refund(refund_new("r1", "p2", "m1", 5), 2).unwrap_err();
    assert_eq!(err, StorageError::DuplicateRecord);
}
