//! The cached storage path: a low-latency cache plus the sharded change
//! stream that replicates every cache write to the relational store.
//!
//! The cache holds rows in exactly the shape the relational path persists,
//! keyed by the same business identities (the serialized cache key for a row
//! is `{business_id}_{merchant_id}`, see `crate::ids::cache_key`). Inserts
//! are an atomic set-if-absent; updates write through unconditionally
//! (last-writer-wins at the cache); finds read the cache only — a miss is
//! `NotFound`, with no relational fallback, a deliberate latency tradeoff.
//!
//! Every mutation appends the equivalent relational statement to the shard
//! selected by a deterministic hash of (merchant_id, business_id). When the
//! append cannot be made (the stream transport is unhealthy), the write is
//! cache-resident but unreplicated: the call fails with
//! `StreamAppendFailed`, never reporting success for a write that will not
//! reach the relational store.

use vstd::prelude::*;


use crate::entities::{
    ConnectorResponse, PaymentAttempt, PaymentAttemptNew, PaymentAttemptUpdate, PaymentIntent,
    PaymentIntentNew, PaymentIntentUpdate, Refund, RefundNew, RefundUpdate,
};
use crate::entities::spec_apply_attempt_update;
use crate::entities::spec_apply_refund_update;
use crate::entities::spec_apply_intent_update;
use crate::entities::spec_build_attempt;
use crate::entities::spec_build_intent;
use crate::entities::spec_build_refund;
use crate::errors::StorageError;
use crate::keys::{attempt_key, connector_response_key, has_key, index_of_key, intent_key,
    lemma_push_preserves_unique, record_at_key, refund_key, unique_keys};
use crate::relational::{only_attempts_changed, only_connector_responses_changed,
    only_intents_changed, only_refunds_changed, RelationalStore, spec_refund_sum};
use crate::stream::{StreamEntry, StreamMutation};

verus! {

/// Offset basis of the 64-bit FNV-1a hash.
pub const FNV_OFFSET: u64 = 0xcbf2_9ce4_8422_2325;

/// Prime of the 64-bit FNV-1a hash.
pub const FNV_PRIME: u64 = 0x0000_0100_0000_01b3;

/// 64-bit FNV-1a over a character sequence, one step per character.
pub open spec fn spec_fnv1a(chars: Seq<char>) -> u64
    decreases chars.len(),
{
    if chars.len() == 0 {
        FNV_OFFSET
    } else {
        vstd::wrapping::u64_specs::wrapping_mul(
            spec_fnv1a(chars.drop_last()) ^ (chars.last() as u64),
            FNV_PRIME,
        )
    }
}

/// The characters hashed to pick a shard: merchant id, an underscore,
/// business id.
pub open spec fn spec_shard_key_chars(merchant_id: Seq<char>, business_id: Seq<char>) -> Seq<
    char,
> {
    merchant_id + seq!['_'] + business_id
}

/// The shard owning a business id: a deterministic hash of
/// (merchant_id, business_id) modulo the partition count.
pub open spec fn spec_shard(merchant_id: Seq<char>, business_id: Seq<char>, partitions: int) -> int {
    spec_fnv1a(spec_shard_key_chars(merchant_id, business_id)) as int % partitions
}

fn fnv1a_step(h: u64, c: char) -> (r: u64)
    ensures
        r == vstd::wrapping::u64_specs::wrapping_mul(h ^ (c as u64), FNV_PRIME),
{
    (h ^ (c as u64)).wrapping_mul(FNV_PRIME)
}

/// Picks the shard owning (merchant_id, business_id) among `partitions`.
pub fn shard_for(merchant_id: &str, business_id: &str, partitions: usize) -> (r: usize)
    requires
        partitions > 0,
    ensures
        r < partitions,
        r as int == spec_shard(merchant_id@, business_id@, partitions as int),
{
    let ghost all = spec_shard_key_chars(merchant_id@, business_id@);
    let mlen = merchant_id.unicode_len();
    let blen = business_id.unicode_len();
    let mut h: u64 = FNV_OFFSET;
    proof {
        assert(all.take(0) =~= Seq::<char>::empty());
    }
    let mut i: usize = 0;
    while i < mlen
        invariant
            i <= mlen,
            mlen as nat == merchant_id@.len(),
            blen as nat == business_id@.len(),
            all == spec_shard_key_chars(merchant_id@, business_id@),
            h == spec_fnv1a(all.take(i as int)),
        decreases mlen - i,
    {
        proof {
            assert(all.take(i + 1).drop_last() =~= all.take(i as int));
            assert(all.take(i + 1).last() == all[i as int]);
            assert(all[i as int] == merchant_id@[i as int]);
        }
        h = fnv1a_step(h, merchant_id.get_char(i));
        i += 1;
    }
    proof {
        assert(all.take(mlen + 1).drop_last() =~= all.take(mlen as int));
        assert(all.take(mlen + 1).last() == all[mlen as int]);
        assert(all[mlen as int] == '_');
    }
    h = fnv1a_step(h, '_');
    let mut j: usize = 0;
    while j < blen
        invariant
            j <= blen,
            mlen as nat == merchant_id@.len(),
            blen as nat == business_id@.len(),
            all == spec_shard_key_chars(merchant_id@, business_id@),
            h == spec_fnv1a(all.take(mlen + 1 + j)),
        decreases blen - j,
    {
        proof {
            assert(all.take(mlen + 1 + j + 1).drop_last() =~= all.take(mlen + 1 + j));
            assert(all.take(mlen + 1 + j + 1).last() == all[mlen + 1 + j]);
            assert(all[mlen + 1 + j] == business_id@[j as int]);
        }
        h = fnv1a_step(h, business_id.get_char(j));
        j += 1;
    }
    proof {
        assert(all.take(mlen + 1 + j) =~= all);
    }
    let m: u64 = h % (partitions as u64);
    m as usize
}

/// Entry ids within each shard are the monotonically increasing append
/// positions.
pub open spec fn shard_ids_ok(shards: Seq<Vec<StreamEntry>>) -> bool {
    forall|t: int, i: int|
        0 <= t < shards.len() && 0 <= i < shards[t]@.len() ==> (#[trigger] shards[t]@[i]).entry_id
            == i as u64
}

/// Appends a mutation to one shard, with the next entry id of that shard.
fn append_to_shard(shards: &mut Vec<Vec<StreamEntry>>, s: usize, mu: StreamMutation)
    requires
        s < old(shards)@.len(),
        shard_ids_ok(old(shards)@),
    ensures
        shard_ids_ok(final(shards)@),
        final(shards)@.len() == old(shards)@.len(),
        final(shards)@[s as int]@ == old(shards)@[s as int]@.push(
            StreamEntry {
                entry_id: old(shards)@[s as int]@.len() as u64,
                mutation: mu,
            },
        ),
        forall|t: int|
            0 <= t < old(shards)@.len() && t != s ==> final(shards)@[t] == old(shards)@[t],
{
    let id: u64 = shards[s].len() as u64;
    let entry = StreamEntry { entry_id: id, mutation: mu };
    let mut tmp: Vec<StreamEntry> = Vec::new();
    shards.set_and_swap(s, &mut tmp);
    tmp.push(entry);
    shards.set_and_swap(s, &mut tmp);
    proof {
        assert(shards@[s as int]@ == old(shards)@[s as int]@.push(entry));
        assert forall|t: int, i: int|
            0 <= t < shards@.len() && 0 <= i < shards@[t]@.len() implies (
        #[trigger] shards@[t]@[i]).entry_id == i as u64 by {
            if t == s {
                if i < old(shards)@[s as int]@.len() {
                    assert(shards@[t]@[i] == old(shards)@[s as int]@[i]);
                } else {
                    assert(shards@[t]@[i] == entry);
                }
            } else {
                assert(shards@[t] == old(shards)@[t]);
            }
        }
    }
}

/// The change stream after one mutation: the shard owning
/// (merchant_id, business_id) has the mutation appended under the next entry
/// id, and every other shard is untouched.
pub open spec fn shard_appended(
    pre: KvStore,
    post: KvStore,
    merchant_id: Seq<char>,
    business_id: Seq<char>,
    mu: StreamMutation,
) -> bool {
    let s = spec_shard(merchant_id, business_id, pre.spec_partitions());
    &&& post.shards@.len() == pre.shards@.len()
    &&& post.shards@[s]@ == pre.shards@[s]@.push(
        (StreamEntry { entry_id: pre.shards@[s]@.len() as u64, mutation: mu }),
    )
    &&& (forall|t: int|
        0 <= t < pre.shards@.len() && t != s ==> post.shards@[t] == pre.shards@[t])
}


/// The mathematical meaning of the cached set-if-absent insert over the
/// intent table: an existing identity is refused and nothing changes;
/// otherwise the built row becomes cache-resident, and the call succeeds
/// exactly when the stream transport accepts the replication append —
/// with it down the row is resident but the call reports the append
/// failure.
pub open spec fn spec_cached_insert_intent(
    intents: Seq<PaymentIntent>,
    new: PaymentIntentNew,
    now: i64,
    stream_ok: bool,
) -> (Result<PaymentIntent, StorageError>, Seq<PaymentIntent>) {
    let row = spec_build_intent(new, now);
    if has_key(intents, intent_key(), (new.merchant_id@, new.payment_id@)) {
        (Err(StorageError::DuplicateRecord), intents)
    } else if !stream_ok {
        (Err(StorageError::StreamAppendFailed), intents.push(row))
    } else {
        (Ok(row), intents.push(row))
    }
}

/// Exactly one of two creates racing on one business id wins: the cache's
/// atomic set-if-absent serializes them in some order — `first` names
/// whichever the cache serves first, so both interleavings are covered —
/// and the first succeeds while the other observes `DuplicateRecord`, with
/// exactly one cache-resident row for that identity afterwards. The
/// statement takes a healthy stream: with it down, the winner's write is
/// cache-resident but reported as the append failure instead of success.
pub proof fn lemma_set_if_absent_single_winner(
    intents: Seq<PaymentIntent>,
    first: PaymentIntentNew,
    second: PaymentIntentNew,
    now_first: i64,
    now_second: i64,
)
    requires
        unique_keys(intents, intent_key()),
        first.merchant_id@ == second.merchant_id@,
        first.payment_id@ == second.payment_id@,
        !has_key(intents, intent_key(), (first.merchant_id@, first.payment_id@)),
    ensures
        ({
            let won = spec_cached_insert_intent(intents, first, now_first, true);
            let lost = spec_cached_insert_intent(won.1, second, now_second, true);
            &&& won.0 == Ok::<PaymentIntent, StorageError>(spec_build_intent(first, now_first))
            &&& lost.0 == Err::<PaymentIntent, StorageError>(StorageError::DuplicateRecord)
            &&& lost.1 == won.1
            &&& won.1.len() == intents.len() + 1
            &&& unique_keys(won.1, intent_key())
            &&& has_key(won.1, intent_key(), (first.merchant_id@, first.payment_id@))
        }),
{
    let row = spec_build_intent(first, now_first);
    assert(intent_key()(row) == (first.merchant_id@, first.payment_id@));
    lemma_push_preserves_unique(intents, intent_key(), row);
    assert(intents.push(row)[intents.len() as int] == row);
    assert(has_key(intents.push(row), intent_key(), (second.merchant_id@, second.payment_id@)));
}

/// The cached storage backend: the cache, the sharded change stream, and the
/// stream transport's health flag as the background monitor publishes it.
pub struct KvStore {
    pub cache: RelationalStore,
    pub shards: Vec<Vec<StreamEntry>>,
    pub stream_healthy: bool,
}

impl KvStore {
    /// The cache tables are well-formed, at least one shard exists, and
    /// entry ids are append positions.
    pub open spec fn wf(self) -> bool {
        &&& self.cache.wf()
        &&& self.shards@.len() >= 1
        &&& shard_ids_ok(self.shards@)
    }

    /// Number of stream partitions.
    pub open spec fn spec_partitions(self) -> int {
        self.shards@.len() as int
    }

    /// The shard owning an intent's business id.
    pub open spec fn intent_shard(self, merchant_id: Seq<char>, payment_id: Seq<char>) -> int {
        spec_shard(merchant_id, payment_id, self.spec_partitions())
    }

    /// An empty cached backend with `partitions` stream shards.
    pub fn new(partitions: usize) -> (r: Self)
        requires
            partitions >= 1,
        ensures
            r.wf(),
            r.cache@.intents =~= Seq::<PaymentIntent>::empty(),
            r.cache@.attempts =~= Seq::<PaymentAttempt>::empty(),
            r.cache@.refunds =~= Seq::<Refund>::empty(),
            r.cache@.connector_responses =~= Seq::<ConnectorResponse>::empty(),
            r.shards@.len() == partitions,
            forall|t: int| 0 <= t < partitions ==> r.shards@[t]@ =~= Seq::<StreamEntry>::empty(),
            r.stream_healthy,
    {
        let mut shards: Vec<Vec<StreamEntry>> = Vec::new();
        let mut i: usize = 0;
        while i < partitions
            invariant
                i <= partitions,
                shards@.len() == i,
                forall|t: int| 0 <= t < i ==> shards@[t]@ =~= Seq::<StreamEntry>::empty(),
            decreases partitions - i,
        {
            shards.push(Vec::new());
            i += 1;
        }
        KvStore { cache: RelationalStore::new(), shards, stream_healthy: true }
    }

    /// Publishes the stream transport's health, as the background monitor
    /// observes it.
    pub fn set_stream_health(&mut self, healthy: bool)
        ensures
            *final(self) == (KvStore { stream_healthy: healthy, ..*old(self) }),
    {
        self.stream_healthy = healthy;
    }

    /// Cached insert of an intent: set-if-absent at the cache, then one
    /// change-stream append to the shard owning the business id.
    pub fn insert_payment_intent(&mut self, new: PaymentIntentNew, now: i64) -> (r: Result<
        PaymentIntent,
        StorageError,
    >)
        requires
            old(self).wf(),
        ensures
            final(self).wf(),
            final(self).stream_healthy == old(self).stream_healthy,
            final(self).shards@.len() == old(self).shards@.len(),
            r == spec_cached_insert_intent(
                old(self).cache@.intents,
                new,
                now,
                old(self).stream_healthy,
            ).0,
            final(self).cache@.intents == spec_cached_insert_intent(
                old(self).cache@.intents,
                new,
                now,
                old(self).stream_healthy,
            ).1,
            match r {
                Ok(row) => ({
                    let s = spec_shard(
                        new.merchant_id@,
                        new.payment_id@,
                        old(self).spec_partitions(),
                    );
                    &&& old(self).stream_healthy
                    &&& !has_key(
                        old(self).cache@.intents,
                        intent_key(),
                        (new.merchant_id@, new.payment_id@),
                    )
                    &&& row == spec_build_intent(new, now)
                    &&& final(self).cache@.intents == old(self).cache@.intents.push(row)
                    &&& only_intents_changed(old(self).cache, final(self).cache)
                    &&& final(self).shards@[s]@ == old(self).shards@[s]@.push(
                        (StreamEntry {
                            entry_id: old(self).shards@[s]@.len() as u64,
                            mutation: StreamMutation::UpsertIntent(row),
                        }),
                    )
                    &&& (forall|t: int|
                        0 <= t < old(self).shards@.len() && t != s ==> final(self).shards@[t]
                            == old(self).shards@[t])
                }),
                Err(e) => match e {
                    StorageError::DuplicateRecord => has_key(
                        old(self).cache@.intents,
                        intent_key(),
                        (new.merchant_id@, new.payment_id@),
                    ) && *final(self) == *old(self),
                    StorageError::StreamAppendFailed => !old(self).stream_healthy && !has_key(
                        old(self).cache@.intents,
                        intent_key(),
                        (new.merchant_id@, new.payment_id@),
                    ) && final(self).cache@.intents == old(self).cache@.intents.push(
                        spec_build_intent(new, now),
                    ) && only_intents_changed(old(self).cache, final(self).cache) && final(self).shards@ == old(self).shards@,
                    _ => false,
                },
            },
    {
        let parts = self.shards.len();
        let s = shard_for(new.merchant_id.as_str(), new.payment_id.as_str(), parts);
        let row = match self.cache.insert_payment_intent(new, now) {
            Ok(row) => row,
            Err(e) => {
                return Err(e);
            },
        };
        if !self.stream_healthy {
            return Err(StorageError::StreamAppendFailed);
        }
        let mu = StreamMutation::UpsertIntent(row.clone());
        append_to_shard(&mut self.shards, s, mu);
        Ok(row)
    }

    /// Cached update of an intent: write-through of the changed row at the
    /// cache (last-writer-wins), then one change-stream append.
    pub fn update_payment_intent(
        &mut self,
        payment_id: &str,
        merchant_id: &str,
        update: &PaymentIntentUpdate,
    ) -> (r: Result<PaymentIntent, StorageError>)
        requires
            old(self).wf(),
        ensures
            final(self).wf(),
            final(self).stream_healthy == old(self).stream_healthy,
            final(self).shards@.len() == old(self).shards@.len(),
            match r {
                Ok(row) => ({
                    let k = (merchant_id@, payment_id@);
                    let s = spec_shard(merchant_id@, payment_id@, old(self).spec_partitions());
                    &&& old(self).stream_healthy
                    &&& has_key(old(self).cache@.intents, intent_key(), k)
                    &&& row == spec_apply_intent_update(
                        record_at_key(old(self).cache@.intents, intent_key(), k),
                        *update,
                    )
                    &&& final(self).cache@.intents == old(self).cache@.intents.update(
                        index_of_key(old(self).cache@.intents, intent_key(), k),
                        row,
                    )
                    &&& only_intents_changed(old(self).cache, final(self).cache)
                    &&& final(self).shards@[s]@ == old(self).shards@[s]@.push(
                        (StreamEntry {
                            entry_id: old(self).shards@[s]@.len() as u64,
                            mutation: StreamMutation::UpsertIntent(row),
                        }),
                    )
                    &&& (forall|t: int|
                        0 <= t < old(self).shards@.len() && t != s ==> final(self).shards@[t]
                            == old(self).shards@[t])
                }),
                Err(e) => match e {
                    StorageError::NotFound => !has_key(
                        old(self).cache@.intents,
                        intent_key(),
                        (merchant_id@, payment_id@),
                    ) && *final(self) == *old(self),
                    StorageError::StreamAppendFailed => ({
                        let k = (merchant_id@, payment_id@);
                        &&& !old(self).stream_healthy
                        &&& has_key(old(self).cache@.intents, intent_key(), k)
                        &&& final(self).cache@.intents == old(self).cache@.intents.update(
                            index_of_key(old(self).cache@.intents, intent_key(), k),
                            spec_apply_intent_update(
                                record_at_key(old(self).cache@.intents, intent_key(), k),
                                *update,
                            ),
                        )
                        &&& only_intents_changed(old(self).cache, final(self).cache)
                        &&& final(self).shards@ == old(self).shards@
                    }),
                    _ => false,
                },
            },
    {
        let parts = self.shards.len();
        let s = shard_for(merchant_id, payment_id, parts);
        let row = match self.cache.update_payment_intent(payment_id, merchant_id, update) {
            Ok(row) => row,
            Err(e) => {
                return Err(e);
            },
        };
        if !self.stream_healthy {
            return Err(StorageError::StreamAppendFailed);
        }
        let mu = StreamMutation::UpsertIntent(row.clone());
        append_to_shard(&mut self.shards, s, mu);
        Ok(row)
    }

    /// Cached read of an intent: the cache only; a miss is `NotFound`, with
    /// no relational fallback.
    pub fn find_payment_intent(&self, payment_id: &str, merchant_id: &str) -> (r: Result<
        PaymentIntent,
        StorageError,
    >)
        requires
            self.wf(),
        ensures
            match r {
                Ok(row) => has_key(self.cache@.intents, intent_key(), (merchant_id@, payment_id@))
                    && row == record_at_key(
                    self.cache@.intents,
                    intent_key(),
                    (merchant_id@, payment_id@),
                ),
                Err(e) => e == StorageError::NotFound && !has_key(
                    self.cache@.intents,
                    intent_key(),
                    (merchant_id@, payment_id@),
                ),
            },
    {
        self.cache.find_payment_intent(payment_id, merchant_id)
    }

    /// Cached insert of an attempt; the shard is owned by the attempt's
    /// payment id.
    pub fn insert_payment_attempt(&mut self, new: PaymentAttemptNew, now: i64) -> (r: Result<
        PaymentAttempt,
        StorageError,
    >)
        requires
            old(self).wf(),
        ensures
            final(self).wf(),
            final(self).stream_healthy == old(self).stream_healthy,
            final(self).shards@.len() == old(self).shards@.len(),
            match r {
                Ok(row) => ({
                    let s = spec_shard(
                        new.merchant_id@,
                        new.payment_id@,
                        old(self).spec_partitions(),
                    );
                    &&& old(self).stream_healthy
                    &&& !has_key(
                        old(self).cache@.attempts,
                        attempt_key(),
                        (new.merchant_id@, new.payment_id@, new.attempt_id@),
                    )
                    &&& row == spec_build_attempt(new, now)
                    &&& final(self).cache@.attempts == old(self).cache@.attempts.push(row)
                    &&& only_attempts_changed(old(self).cache, final(self).cache)
                    &&& final(self).shards@[s]@ == old(self).shards@[s]@.push(
                        (StreamEntry {
                            entry_id: old(self).shards@[s]@.len() as u64,
                            mutation: StreamMutation::UpsertAttempt(row),
                        }),
                    )
                    &&& (forall|t: int|
                        0 <= t < old(self).shards@.len() && t != s ==> final(self).shards@[t]
                            == old(self).shards@[t])
                }),
                Err(e) => match e {
                    StorageError::DuplicateRecord => has_key(
                        old(self).cache@.attempts,
                        attempt_key(),
                        (new.merchant_id@, new.payment_id@, new.attempt_id@),
                    ) && *final(self) == *old(self),
                    StorageError::StreamAppendFailed => !old(self).stream_healthy && !has_key(
                        old(self).cache@.attempts,
                        attempt_key(),
                        (new.merchant_id@, new.payment_id@, new.attempt_id@),
                    ) && final(self).cache@.attempts == old(self).cache@.attempts.push(
                        spec_build_attempt(new, now),
                    ) && only_attempts_changed(old(self).cache, final(self).cache) && final(self).shards@ == old(self).shards@,
                    _ => false,
                },
            },
    {
        let parts = self.shards.len();
        let s = shard_for(new.merchant_id.as_str(), new.payment_id.as_str(), parts);
        let row = match self.cache.insert_payment_attempt(new, now) {
            Ok(row) => row,
            Err(e) => {
                return Err(e);
            },
        };
        if !self.stream_healthy {
            return Err(StorageError::StreamAppendFailed);
        }
        let mu = StreamMutation::UpsertAttempt(row.clone());
        append_to_shard(&mut self.shards, s, mu);
        Ok(row)
    }

    /// Cached read of an attempt: the cache only.
    pub fn find_payment_attempt(
        &self,
        payment_id: &str,
        merchant_id: &str,
        attempt_id: &str,
    ) -> (r: Result<PaymentAttempt, StorageError>)
        requires
            self.wf(),
        ensures
            match r {
                Ok(row) => has_key(
                    self.cache@.attempts,
                    attempt_key(),
                    (merchant_id@, payment_id@, attempt_id@),
                ) && row == record_at_key(
                    self.cache@.attempts,
                    attempt_key(),
                    (merchant_id@, payment_id@, attempt_id@),
                ),
                Err(e) => e == StorageError::NotFound && !has_key(
                    self.cache@.attempts,
                    attempt_key(),
                    (merchant_id@, payment_id@, attempt_id@),
                ),
            },
    {
        self.cache.find_payment_attempt(payment_id, merchant_id, attempt_id)
    }

    /// Cached insert of a refund; the shard is owned by the refunded
    /// payment's id, so refunds replay in order with their payment.
    pub fn insert_refund(&mut self, new: RefundNew, now: i64) -> (r: Result<Refund, StorageError>)
        requires
            old(self).wf(),
        ensures
            final(self).wf(),
            final(self).stream_healthy == old(self).stream_healthy,
            final(self).shards@.len() == old(self).shards@.len(),
            match r {
                Ok(row) => ({
                    let s = spec_shard(
                        new.merchant_id@,
                        new.payment_id@,
                        old(self).spec_partitions(),
                    );
                    &&& old(self).stream_healthy
                    &&& !has_key(
                        old(self).cache@.refunds,
                        refund_key(),
                        (new.merchant_id@, new.refund_id@),
                    )
                    &&& row == spec_build_refund(new, now)
                    &&& final(self).cache@.refunds == old(self).cache@.refunds.push(row)
                    &&& only_refunds_changed(old(self).cache, final(self).cache)
                    &&& final(self).shards@[s]@ == old(self).shards@[s]@.push(
                        (StreamEntry {
                            entry_id: old(self).shards@[s]@.len() as u64,
                            mutation: StreamMutation::UpsertRefund(row),
                        }),
                    )
                    &&& (forall|t: int|
                        0 <= t < old(self).shards@.len() && t != s ==> final(self).shards@[t]
                            == old(self).shards@[t])
                }),
                Err(e) => match e {
                    StorageError::DuplicateRecord => has_key(
                        old(self).cache@.refunds,
                        refund_key(),
                        (new.merchant_id@, new.refund_id@),
                    ) && *final(self) == *old(self),
                    StorageError::StreamAppendFailed => !old(self).stream_healthy && !has_key(
                        old(self).cache@.refunds,
                        refund_key(),
                        (new.merchant_id@, new.refund_id@),
                    ) && final(self).cache@.refunds == old(self).cache@.refunds.push(
                        spec_build_refund(new, now),
                    ) && only_refunds_changed(old(self).cache, final(self).cache) && final(self).shards@ == old(self).shards@,
                    _ => false,
                },
            },
    {
        let parts = self.shards.len();
        let s = shard_for(new.merchant_id.as_str(), new.payment_id.as_str(), parts);
        let row = match self.cache.insert_refund(new, now) {
            Ok(row) => row,
            Err(e) => {
                return Err(e);
            },
        };
        if !self.stream_healthy {
            return Err(StorageError::StreamAppendFailed);
        }
        let mu = StreamMutation::UpsertRefund(row.clone());
        append_to_shard(&mut self.shards, s, mu);
        Ok(row)
    }

    /// Cached update of a refund: write-through at the cache, then one
    /// change-stream append to the shard owning the refunded payment.
    pub fn update_refund(
        &mut self,
        refund_id: &str,
        merchant_id: &str,
        update: &RefundUpdate,
    ) -> (r: Result<Refund, StorageError>)
        requires
            old(self).wf(),
        ensures
            final(self).wf(),
            final(self).stream_healthy == old(self).stream_healthy,
            final(self).shards@.len() == old(self).shards@.len(),
            match r {
                Ok(row) => ({
                    let k = (merchant_id@, refund_id@);
                    let prior = record_at_key(old(self).cache@.refunds, refund_key(), k);
                    let s = spec_shard(
                        merchant_id@,
                        prior.payment_id@,
                        old(self).spec_partitions(),
                    );
                    &&& old(self).stream_healthy
                    &&& has_key(old(self).cache@.refunds, refund_key(), k)
                    &&& row == spec_apply_refund_update(prior, *update)
                    &&& final(self).cache@.refunds == old(self).cache@.refunds.update(
                        index_of_key(old(self).cache@.refunds, refund_key(), k),
                        row,
                    )
                    &&& only_refunds_changed(old(self).cache, final(self).cache)
                    &&& final(self).shards@[s]@ == old(self).shards@[s]@.push(
                        (StreamEntry {
                            entry_id: old(self).shards@[s]@.len() as u64,
                            mutation: StreamMutation::UpsertRefund(row),
                        }),
                    )
                    &&& (forall|t: int|
                        0 <= t < old(self).shards@.len() && t != s ==> final(self).shards@[t]
                            == old(self).shards@[t])
                }),
                Err(e) => match e {
                    StorageError::NotFound => !has_key(
                        old(self).cache@.refunds,
                        refund_key(),
                        (merchant_id@, refund_id@),
                    ) && *final(self) == *old(self),
                    StorageError::StreamAppendFailed => ({
                        let k = (merchant_id@, refund_id@);
                        &&& !old(self).stream_healthy
                        &&& has_key(old(self).cache@.refunds, refund_key(), k)
                        &&& final(self).cache@.refunds == old(self).cache@.refunds.update(
                            index_of_key(old(self).cache@.refunds, refund_key(), k),
                            spec_apply_refund_update(
                                record_at_key(old(self).cache@.refunds, refund_key(), k),
                                *update,
                            ),
                        )
                        &&& only_refunds_changed(old(self).cache, final(self).cache)
                        &&& final(self).shards@ == old(self).shards@
                    }),
                    _ => false,
                },
            },
    {
        let parts = self.shards.len();
        let row = match self.cache.update_refund(refund_id, merchant_id, update) {
            Ok(row) => row,
            Err(e) => {
                return Err(e);
            },
        };
        if !self.stream_healthy {
            return Err(StorageError::StreamAppendFailed);
        }
        let s = shard_for(merchant_id, row.payment_id.as_str(), parts);
        let mu = StreamMutation::UpsertRefund(row.clone());
        append_to_shard(&mut self.shards, s, mu);
        Ok(row)
    }

    /// Cached update of an attempt: write-through at the cache, then one
    /// change-stream append to the shard owning the attempt's payment.
    pub fn update_payment_attempt(
        &mut self,
        payment_id: &str,
        merchant_id: &str,
        attempt_id: &str,
        update: &PaymentAttemptUpdate,
    ) -> (r: Result<PaymentAttempt, StorageError>)
        requires
            old(self).wf(),
        ensures
            final(self).wf(),
            final(self).stream_healthy == old(self).stream_healthy,
            final(self).shards@.len() == old(self).shards@.len(),
            match r {
                Ok(row) => ({
                    let k = (merchant_id@, payment_id@, attempt_id@);
                    let s = spec_shard(merchant_id@, payment_id@, old(self).spec_partitions());
                    &&& old(self).stream_healthy
                    &&& has_key(old(self).cache@.attempts, attempt_key(), k)
                    &&& row == spec_apply_attempt_update(
                        record_at_key(old(self).cache@.attempts, attempt_key(), k),
                        *update,
                    )
                    &&& final(self).cache@.attempts == old(self).cache@.attempts.update(
                        index_of_key(old(self).cache@.attempts, attempt_key(), k),
                        row,
                    )
                    &&& only_attempts_changed(old(self).cache, final(self).cache)
                    &&& final(self).shards@[s]@ == old(self).shards@[s]@.push(
                        (StreamEntry {
                            entry_id: old(self).shards@[s]@.len() as u64,
                            mutation: StreamMutation::UpsertAttempt(row),
                        }),
                    )
                    &&& (forall|t: int|
                        0 <= t < old(self).shards@.len() && t != s ==> final(self).shards@[t]
                            == old(self).shards@[t])
                }),
                Err(e) => match e {
                    StorageError::NotFound => !has_key(
                        old(self).cache@.attempts,
                        attempt_key(),
                        (merchant_id@, payment_id@, attempt_id@),
                    ) && *final(self) == *old(self),
                    StorageError::StreamAppendFailed => ({
                        let k = (merchant_id@, payment_id@, attempt_id@);
                        &&& !old(self).stream_healthy
                        &&& has_key(old(self).cache@.attempts, attempt_key(), k)
                        &&& final(self).cache@.attempts == old(self).cache@.attempts.update(
                            index_of_key(old(self).cache@.attempts, attempt_key(), k),
                            spec_apply_attempt_update(
                                record_at_key(old(self).cache@.attempts, attempt_key(), k),
                                *update,
                            ),
                        )
                        &&& only_attempts_changed(old(self).cache, final(self).cache)
                        &&& final(self).shards@ == old(self).shards@
                    }),
                    _ => false,
                },
            },
    {
        let parts = self.shards.len();
        let s = shard_for(merchant_id, payment_id, parts);
        let row = match self.cache.update_payment_attempt(
            payment_id,
            merchant_id,
            attempt_id,
            update,
        ) {
            Ok(row) => row,
            Err(e) => {
                return Err(e);
            },
        };
        if !self.stream_healthy {
            return Err(StorageError::StreamAppendFailed);
        }
        let mu = StreamMutation::UpsertAttempt(row.clone());
        append_to_shard(&mut self.shards, s, mu);
        Ok(row)
    }

    /// Cached read of a refund: the cache only.
    pub fn find_refund(&self, refund_id: &str, merchant_id: &str) -> (r: Result<
        Refund,
        StorageError,
    >)
        requires
            self.wf(),
        ensures
            match r {
                Ok(row) => has_key(self.cache@.refunds, refund_key(), (merchant_id@, refund_id@))
                    && row == record_at_key(
                    self.cache@.refunds,
                    refund_key(),
                    (merchant_id@, refund_id@),
                ),
                Err(e) => e == StorageError::NotFound && !has_key(
                    self.cache@.refunds,
                    refund_key(),
                    (merchant_id@, refund_id@),
                ),
            },
    {
        self.cache.find_refund(refund_id, merchant_id)
    }

    /// Total amount the cache-resident refunds of one payment have consumed.
    pub fn refunded_amount(&self, payment_id: &str, merchant_id: &str) -> (r: i128)
        ensures
            r == spec_refund_sum(self.cache@.refunds, merchant_id@, payment_id@),
            -0xffff_ffff_ffff_ffff * 0x8000_0000_0000_0000 <= r <= 0xffff_ffff_ffff_ffff
                * 0x7fff_ffff_ffff_ffff,
    {
        self.cache.refunded_amount(payment_id, merchant_id)
    }

    /// Cached insert of a connector-response placeholder.
    pub fn insert_connector_response(&mut self, new: ConnectorResponse) -> (r: Result<
        ConnectorResponse,
        StorageError,
    >)
        requires
            old(self).wf(),
        ensures
            final(self).wf(),
            final(self).stream_healthy == old(self).stream_healthy,
            final(self).shards@.len() == old(self).shards@.len(),
            match r {
                Ok(row) => ({
                    let s = spec_shard(
                        new.merchant_id@,
                        new.payment_id@,
                        old(self).spec_partitions(),
                    );
                    &&& old(self).stream_healthy
                    &&& !has_key(
                        old(self).cache@.connector_responses,
                        connector_response_key(),
                        (new.merchant_id@, new.payment_id@, new.attempt_id@),
                    )
                    &&& row == new
                    &&& final(self).cache@.connector_responses == old(self).cache@.connector_responses.push(new)
                    &&& only_connector_responses_changed(old(self).cache, final(self).cache)
                    &&& final(self).shards@[s]@ == old(self).shards@[s]@.push(
                        (StreamEntry {
                            entry_id: old(self).shards@[s]@.len() as u64,
                            mutation: StreamMutation::UpsertConnectorResponse(new),
                        }),
                    )
                    &&& (forall|t: int|
                        0 <= t < old(self).shards@.len() && t != s ==> final(self).shards@[t]
                            == old(self).shards@[t])
                }),
                Err(e) => match e {
                    StorageError::DuplicateRecord => has_key(
                        old(self).cache@.connector_responses,
                        connector_response_key(),
                        (new.merchant_id@, new.payment_id@, new.attempt_id@),
                    ) && *final(self) == *old(self),
                    StorageError::StreamAppendFailed => !old(self).stream_healthy && !has_key(
                        old(self).cache@.connector_responses,
                        connector_response_key(),
                        (new.merchant_id@, new.payment_id@, new.attempt_id@),
                    ) && final(self).cache@.connector_responses == old(self).cache@.connector_responses.push(new) && only_connector_responses_changed(
                        old(self).cache,
                        final(self).cache,
                    ) && final(self).shards@ == old(self).shards@,
                    _ => false,
                },
            },
    {
        let parts = self.shards.len();
        let s = shard_for(new.merchant_id.as_str(), new.payment_id.as_str(), parts);
        let row = match self.cache.insert_connector_response(new) {
            Ok(row) => row,
            Err(e) => {
                return Err(e);
            },
        };
        if !self.stream_healthy {
            return Err(StorageError::StreamAppendFailed);
        }
        let mu = StreamMutation::UpsertConnectorResponse(row.clone());
        append_to_shard(&mut self.shards, s, mu);
        Ok(row)
    }
}

} // verus!
