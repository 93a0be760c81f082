//! Key-based reasoning over record tables.
//!
//! Every table is a sequence of records, each with a business key; a
//! well-formed table holds at most one record per key. These helpers state
//! membership, the index a key lives at, and how inserts and in-place
//! updates preserve key uniqueness, for any record type and key projection.

use vstd::prelude::*;

use crate::entities::{Customer, ConnectorResponse, PaymentAttempt, PaymentIntent, Refund};

verus! {

/// String equality by content.
pub fn str_eq(a: &str, b: &str) -> (r: bool)
    ensures
        r == (a@ == b@),
{
    let sa = a.to_owned();
    let sb = b.to_owned();
    sa == sb
}

/// Business key of an intent: (merchant_id, payment_id).
pub open spec fn intent_key() -> spec_fn(PaymentIntent) -> (Seq<char>, Seq<char>) {
    |r: PaymentIntent| (r.merchant_id@, r.payment_id@)
}

/// Business key of an attempt: (merchant_id, payment_id, attempt_id).
pub open spec fn attempt_key() -> spec_fn(PaymentAttempt) -> (Seq<char>, Seq<char>, Seq<char>) {
    |r: PaymentAttempt| (r.merchant_id@, r.payment_id@, r.attempt_id@)
}

/// Business key of a refund: (merchant_id, refund_id).
pub open spec fn refund_key() -> spec_fn(Refund) -> (Seq<char>, Seq<char>) {
    |r: Refund| (r.merchant_id@, r.refund_id@)
}

/// Business key of a customer: (merchant_id, customer_id).
pub open spec fn customer_key() -> spec_fn(Customer) -> (Seq<char>, Seq<char>) {
    |r: Customer| (r.merchant_id@, r.customer_id@)
}

/// Business key of a connector-response placeholder:
/// (merchant_id, payment_id, attempt_id).
pub open spec fn connector_response_key() -> spec_fn(ConnectorResponse) -> (
    Seq<char>,
    Seq<char>,
    Seq<char>,
) {
    |r: ConnectorResponse| (r.merchant_id@, r.payment_id@, r.attempt_id@)
}

/// No two records of `s` share a key.
pub open spec fn unique_keys<T, K>(s: Seq<T>, key: spec_fn(T) -> K) -> bool {
    forall|i: int, j: int| 0 <= i < j < s.len() ==> key(s[i]) != key(s[j])
}

/// Some record of `s` has key `k`.
pub open spec fn has_key<T, K>(s: Seq<T>, key: spec_fn(T) -> K, k: K) -> bool {
    exists|i: int| 0 <= i < s.len() && key(s[i]) == k
}

/// The index of the record with key `k` (meaningful when `has_key` holds).
pub open spec fn index_of_key<T, K>(s: Seq<T>, key: spec_fn(T) -> K, k: K) -> int {
    choose|i: int| 0 <= i < s.len() && key(s[i]) == k
}

/// The record with key `k` (meaningful when `has_key` holds).
pub open spec fn record_at_key<T, K>(s: Seq<T>, key: spec_fn(T) -> K, k: K) -> T {
    s[index_of_key(s, key, k)]
}

/// In a table of unique keys, any position holding key `k` is the position
/// `index_of_key` names.
pub proof fn lemma_index_of_key_unique<T, K>(s: Seq<T>, key: spec_fn(T) -> K, k: K, i: int)
    requires
        unique_keys(s, key),
        0 <= i < s.len(),
        key(s[i]) == k,
    ensures
        index_of_key(s, key, k) == i,
{
    assert(has_key(s, key, k));
    let j = index_of_key(s, key, k);
    assert(0 <= j < s.len() && key(s[j]) == k);
    if i != j {
        if i < j {
            assert(key(s[i]) != key(s[j]));
        } else {
            assert(key(s[j]) != key(s[i]));
        }
    }
}

/// Appending a record whose key is fresh keeps keys unique; the new table
/// has exactly the old keys and the new one.
pub proof fn lemma_push_preserves_unique<T, K>(s: Seq<T>, key: spec_fn(T) -> K, x: T)
    requires
        unique_keys(s, key),
        !has_key(s, key, key(x)),
    ensures
        unique_keys(s.push(x), key),
{
    let s1 = s.push(x);
    assert forall|i: int, j: int| 0 <= i < j < s1.len() implies key(s1[i]) != key(s1[j]) by {
        if j < s.len() {
            assert(key(s[i]) != key(s[j]));
        } else {
            assert(s1[j] == x);
            assert(s1[i] == s[i]);
            if key(s[i]) == key(x) {
                assert(has_key(s, key, key(x)));
            }
        }
    }
}

/// Replacing the record at a position with one of the same key keeps keys
/// unique.
pub proof fn lemma_update_preserves_unique<T, K>(s: Seq<T>, key: spec_fn(T) -> K, i: int, x: T)
    requires
        unique_keys(s, key),
        0 <= i < s.len(),
        key(x) == key(s[i]),
    ensures
        unique_keys(s.update(i, x), key),
{
    let s1 = s.update(i, x);
    assert forall|p: int, q: int| 0 <= p < q < s1.len() implies key(s1[p]) != key(s1[q]) by {
        assert(key(s1[p]) == key(s[p]));
        assert(key(s1[q]) == key(s[q]));
        assert(key(s[p]) != key(s[q]));
    }
}

/// A key present in a table stays present when another record is appended,
/// and the record it names does not move.
pub proof fn lemma_push_preserves_lookup<T, K>(s: Seq<T>, key: spec_fn(T) -> K, x: T, k: K)
    requires
        unique_keys(s, key),
        has_key(s, key, k),
        !has_key(s, key, key(x)),
    ensures
        has_key(s.push(x), key, k),
        index_of_key(s.push(x), key, k) == index_of_key(s, key, k),
        record_at_key(s.push(x), key, k) == record_at_key(s, key, k),
{
    let i = index_of_key(s, key, k);
    assert(0 <= i < s.len() && key(s[i]) == k);
    let s1 = s.push(x);
    assert(s1[i] == s[i]);
    assert(has_key(s1, key, k));
    lemma_push_preserves_unique(s, key, x);
    lemma_index_of_key_unique(s1, key, k, i);
}

/// Replacing a record whose key differs from `k` leaves the record with key
/// `k` where it was.
pub proof fn lemma_update_preserves_lookup<T, K>(s: Seq<T>, key: spec_fn(T) -> K, i: int, x: T, k: K)
    requires
        unique_keys(s, key),
        0 <= i < s.len(),
        key(x) == key(s[i]),
        key(x) != k,
        has_key(s, key, k),
    ensures
        has_key(s.update(i, x), key, k),
        index_of_key(s.update(i, x), key, k) == index_of_key(s, key, k),
        record_at_key(s.update(i, x), key, k) == record_at_key(s, key, k),
{
    let j = index_of_key(s, key, k);
    assert(0 <= j < s.len() && key(s[j]) == k);
    let s1 = s.update(i, x);
    assert(j != i);
    assert(s1[j] == s[j]);
    assert(has_key(s1, key, k));
    lemma_update_preserves_unique(s, key, i, x);
    lemma_index_of_key_unique(s1, key, k, j);
}

} // verus!
