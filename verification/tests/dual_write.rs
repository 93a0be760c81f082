use payflow::entities::{PaymentIntentNew, PaymentIntentUpdate};
use payflow::errors::StorageError;
use payflow::kv::{shard_for, KvStore};
use payflow::relational::RelationalStore;
use payflow::status::{Currency, IntentStatus};
use payflow::stream::{apply_stream_entry, drain_shard, StreamMutation};

fn intent_new(payment_id: &str, merchant_id: &str, amount: i64) -> PaymentIntentNew {
    PaymentIntentNew {
        payment_id: payment_id.to_string(),
        merchant_id: merchant_id.to_string(),
        status: IntentStatus::RequiresPaymentMethod,
        amount,
        currency: Currency::USD,
        customer_id: None,
        connector_id: None,
        client_secret: None,
        active_attempt_id: None,
        return_url: None,
        metadata: None,
        created_at: None,
        modified_at: None,
    }
}

fn rows_equal(a: &payflow::entities::PaymentIntent, b: &payflow::entities::PaymentIntent) -> bool {
    a.payment_id == b.payment_id && a.merchant_id == b.merchant_id && a.status == b.status
        && a.amount == b.amount && a.currency == b.currency && a.customer_id == b.customer_id
        && a.connector_id == b.connector_id && a.client_secret == b.client_secret
        && a.active_attempt_id == b.active_attempt_id && a.return_url == b.return_url
        && a.metadata == b.metadata && a.created_at == b.created_at
        && a.modified_at == b.modified_at
}

#[test]
fn cached_insert_writes_cache_and_appends_one_entry() {
    let mut kv = KvStore::new(4);
    let row = kv.insert_payment_intent(intent_new("p1", "m1", 500), 1000).unwrap();
    assert_eq!(kv.cache.find_payment_intent("p1", "m1").unwrap().amount, 500);
    let s = shard_for("m1", "p1", 4);
    assert_eq!(kv.shards[s].len(), 1);
    assert_eq!(kv.shards[s][0].entry_id, 0);
    match &kv.shards[s][0].mutation {
        StreamMutation::UpsertIntent(carried) => assert!(rows_equal(carried, &row)),
        _ => panic!("expected an intent upsert in the stream"),
    }
}

#[test]
fn cached_insert_is_set_if_absent() {
    let mut kv = KvStore::new(4);
    kv.insert_payment_intent(intent_new("p1", "m1", 500), 1000).unwrap();
    let err = kv.insert_payment_intent(intent_new("p1", "m1", 999), 2000).unwrap_err();
    assert_eq!(err, StorageError::DuplicateRecord);
    let s = shard_for("m1", "p1", 4);
    assert_eq!(kv.shards[s].len(), 1);
}

#[test]
fn unhealthy_stream_fails_the_write_after_the_cache() {
    let mut kv = KvStore::new(2);
    kv.set_stream_health(false);
    let err = kv.insert_payment_intent(intent_new("p1", "m1", 500), 1000).unwrap_err();
    assert_eq!(err, StorageError::StreamAppendFailed);
    // the row is cache-resident but unreplicated
    assert!(kv.cache.find_payment_intent("p1", "m1").is_ok());
    assert!(kv.shards.iter().all(|s| s.is_empty()));
}

#[test]
fn cached_find_reads_cache_only() {
    let kv = KvStore::new(2);
    assert_eq!(kv.find_payment_intent("p1", "m1").unwrap_err(), StorageError::NotFound);
}

#[test]
fn replaying_one_entry_twice_equals_once() {
    let mut kv = KvStore::new(1);
    kv.insert_payment_intent(intent_new("p1", "m1", 500), 1000).unwrap();
    let entry = kv.shards[0][0].clone();

    let mut rel = RelationalStore::new();
    apply_stream_entry(&mut rel, &entry);
    let once = rel.find_payment_intent("p1", "m1").unwrap();
    assert_eq!(rel.intents.len(), 1);

    apply_stream_entry(&mut rel, &entry);
    let twice = rel.find_payment_intent("p1", "m1").unwrap();
    assert_eq!(rel.intents.len(), 1);
    assert!(rows_equal(&once, &twice));
}

#[test]
fn round_trip_cache_row_equals_relational_row() {
    let mut kv = KvStore::new(1);
    kv.insert_payment_intent(intent_new("p1", "m1", 500), 1000).unwrap();
    let cached = kv.cache.find_payment_intent("p1", "m1").unwrap();

    let mut rel = RelationalStore::new();
    drain_shard(&mut rel, &kv.shards[0]);
    let relational = rel.find_payment_intent("p1", "m1").unwrap();
    assert!(rows_equal(&cached, &relational));

    // the strict path constructs the very same row for the same draft
    let mut strict = RelationalStore::new();
    let strict_row = strict.insert_payment_intent(intent_new("p1", "m1", 500), 1000).unwrap();
    assert!(rows_equal(&strict_row, &relational));
}

#[test]
fn drained_shard_reflects_the_last_write_per_business_id() {
    let mut kv = KvStore::new(1);
    kv.insert_payment_intent(intent_new("p1", "m1", 500), 1000).unwrap();
    let u1 = PaymentIntentUpdate::StatusUpdate {
        status: IntentStatus::RequiresConfirmation,
        modified_at: 1001,
    };
    kv.update_payment_intent("p1", "m1", &u1).unwrap();
    let u2 = PaymentIntentUpdate::StatusUpdate {
        status: IntentStatus::Processing,
        modified_at: 1002,
    };
    kv.update_payment_intent("p1", "m1", &u2).unwrap();
    assert_eq!(kv.shards[0].len(), 3);
    assert_eq!(kv.shards[0][2].entry_id, 2);

    let mut rel = RelationalStore::new();
    drain_shard(&mut rel, &kv.shards[0]);
    let row = rel.find_payment_intent("p1", "m1").unwrap();
    assert_eq!(row.status, IntentStatus::Processing);
    assert_eq!(row.modified_at, 1002);
    assert_eq!(rel.intents.len(), 1);
}

#[test]
fn drained_store_matches_cache_after_updates() {
    let mut kv = KvStore::new(3);
    kv.insert_payment_intent(intent_new("p1", "m1", 500), 1000).unwrap();
    kv.insert_payment_intent(intent_new("p2", "m1", 700), 1000).unwrap();
    let upd = PaymentIntentUpdate::StatusUpdate {
        status: IntentStatus::Processing,
        modified_at: 1003,
    };
    kv.update_payment_intent("p2", "m1", &upd).unwrap();

    let mut rel = RelationalStore::new();
    for shard in kv.shards.iter() {
        drain_shard(&mut rel, shard);
    }
    for pid in ["p1", "p2"] {
        let cached = kv.cache.find_payment_intent(pid, "m1").unwrap();
        let relational = rel.find_payment_intent(pid, "m1").unwrap();
        assert!(rows_equal(&cached, &relational));
    }
}

#[test]
fn unhealthy_stream_fails_an_update_after_the_cache_write() {
    let mut kv = KvStore::new(2);
    kv.insert_payment_intent(intent_new("p1", "m1", 500), 1000).unwrap();
    kv.set_stream_health(false);
    let upd = PaymentIntentUpdate::StatusUpdate {
        status: IntentStatus::Processing,
        modified_at: 1001,
    };
    let err = kv.update_payment_intent("p1", "m1", &upd).unwrap_err();
    assert_eq!(err, StorageError::StreamAppendFailed);
    // the cache took the write, the stream did not
    assert_eq!(kv.cache.find_payment_intent("p1", "m1").unwrap().status, IntentStatus::Processing);
    let entries: usize = kv.shards.iter().map(|s| s.len()).sum();
    assert_eq!(entries, 1);
}

#[test]
fn all_mutations_of_one_business_id_share_a_shard() {
    let mut kv = KvStore::new(8);
    kv.insert_payment_intent(intent_new("p1", "m1", 500), 1000).unwrap();
    let upd = PaymentIntentUpdate::StatusUpdate {
        status: IntentStatus::Processing,
        modified_at: 1001,
    };
    kv.update_payment_intent("p1", "m1", &upd).unwrap();
    let non_empty: Vec<usize> = (0..kv.shards.len()).filter(|i| !kv.shards[*i].is_empty()).collect();
    assert_eq!(non_empty.len(), 1);
    assert_eq!(kv.shards[non_empty[0]].len(), 2);
    assert_eq!(non_empty[0], shard_for("m1", "p1", 8));
}
