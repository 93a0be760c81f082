//! The storage interface the pipeline consumes: insert, update, find and
//! list per entity, each call taking the storage-scheme selector resolved
//! for the merchant.
//!
//! `Strict` routes to the relational store; `Cached` routes to the cache
//! with change-stream replication. Customer rows always take the strict
//! path. Listing refunds is offered under the strict scheme only; under the
//! cached scheme it answers `NotSupported` — a documented gap rather than a
//! silently wrong answer.

use vstd::prelude::*;

use crate::entities::{
    ConnectorResponse, Customer, PaymentAttempt, PaymentAttemptNew, PaymentAttemptUpdate,
    PaymentIntent, PaymentIntentNew, PaymentIntentUpdate, Refund, RefundNew, RefundUpdate,
};
use crate::entities::spec_apply_attempt_update;
use crate::entities::spec_apply_refund_update;
use crate::entities::spec_apply_intent_update;
use crate::entities::spec_build_attempt;
use crate::entities::spec_build_intent;
use crate::entities::spec_build_refund;
use crate::errors::StorageError;
use crate::keys::{
    attempt_key, connector_response_key, customer_key, has_key, index_of_key, intent_key,
    record_at_key, refund_key, str_eq,
};
use crate::kv::{shard_appended, KvStore};
use crate::relational::{
    only_connector_responses_changed, only_intents_changed, only_refunds_changed,
    spec_refund_sum, RelationalStore,
};
use crate::relational::only_attempts_changed;
use crate::relational::only_customers_changed;
use crate::status::StorageScheme;
use crate::stream::StreamMutation;

verus! {

/// Both storage backends behind one interface.
pub struct Storage {
    pub rel: RelationalStore,
    pub kv: KvStore,
}

/// The refunds of one payment.
pub open spec fn refund_of_payment(merchant_id: Seq<char>, payment_id: Seq<char>) -> spec_fn(
    Refund,
) -> bool {
    |r: Refund| r.merchant_id@ == merchant_id && r.payment_id@ == payment_id
}

impl Storage {
    /// Both backends are well-formed.
    pub open spec fn wf(self) -> bool {
        self.rel.wf() && self.kv.wf()
    }

    /// The intent table a scheme reads and writes.
    pub open spec fn spec_intents(self, scheme: StorageScheme) -> Seq<PaymentIntent> {
        if scheme == StorageScheme::Strict {
            self.rel@.intents
        } else {
            self.kv.cache@.intents
        }
    }

    /// The attempt table a scheme reads and writes.
    pub open spec fn spec_attempts(self, scheme: StorageScheme) -> Seq<PaymentAttempt> {
        if scheme == StorageScheme::Strict {
            self.rel@.attempts
        } else {
            self.kv.cache@.attempts
        }
    }

    /// The refund table a scheme reads and writes.
    pub open spec fn spec_refunds(self, scheme: StorageScheme) -> Seq<Refund> {
        if scheme == StorageScheme::Strict {
            self.rel@.refunds
        } else {
            self.kv.cache@.refunds
        }
    }

    /// The connector-response table a scheme reads and writes.
    pub open spec fn spec_connector_responses(self, scheme: StorageScheme) -> Seq<
        ConnectorResponse,
    > {
        if scheme == StorageScheme::Strict {
            self.rel@.connector_responses
        } else {
            self.kv.cache@.connector_responses
        }
    }

    /// Whether a write under the scheme can replicate: the strict path
    /// always can; the cached path only while the stream transport is
    /// healthy.
    pub open spec fn spec_stream_ok(self, scheme: StorageScheme) -> bool {
        scheme == StorageScheme::Strict || self.kv.stream_healthy
    }

    /// An empty storage pair with `partitions` change-stream shards.
    pub fn new(partitions: usize) -> (r: Self)
        requires
            partitions >= 1,
        ensures
            r.wf(),
            r.rel@.intents =~= Seq::<PaymentIntent>::empty(),
            r.rel@.attempts =~= Seq::<PaymentAttempt>::empty(),
            r.rel@.refunds =~= Seq::<Refund>::empty(),
            r.rel@.customers =~= Seq::<Customer>::empty(),
            r.kv.cache@.intents =~= Seq::<PaymentIntent>::empty(),
            r.kv.cache@.attempts =~= Seq::<PaymentAttempt>::empty(),
            r.kv.cache@.refunds =~= Seq::<Refund>::empty(),
            r.kv.stream_healthy,
            r.kv.shards@.len() == partitions,
            forall|t: int| 0 <= t < partitions ==> r.kv.shards@[t]@ =~= Seq::<
                crate::stream::StreamEntry,
            >::empty(),
    {
        Storage { rel: RelationalStore::new(), kv: KvStore::new(partitions) }
    }

    /// Inserts a new intent under the scheme: `DuplicateRecord` when the
    /// identity exists; under the cached scheme a successful cache write
    /// also appends one change-stream entry, and fails with
    /// `StreamAppendFailed` when it cannot.
    pub fn insert_payment_intent(
        &mut self,
        scheme: StorageScheme,
        new: PaymentIntentNew,
        now: i64,
    ) -> (r: Result<PaymentIntent, StorageError>)
        requires
            old(self).wf(),
        ensures
            final(self).wf(),
            scheme == StorageScheme::Strict ==> final(self).kv == old(self).kv
                && only_intents_changed(old(self).rel, final(self).rel),
            scheme == StorageScheme::Cached ==> final(self).rel == old(self).rel
                && only_intents_changed(old(self).kv.cache, final(self).kv.cache) && final(self).kv.stream_healthy == old(self).kv.stream_healthy,
            match r {
                Ok(row) => {
                    &&& old(self).spec_stream_ok(scheme)
                    &&& !has_key(
                        old(self).spec_intents(scheme),
                        intent_key(),
                        (new.merchant_id@, new.payment_id@),
                    )
                    &&& row == spec_build_intent(new, now)
                    &&& final(self).spec_intents(scheme) == old(self).spec_intents(scheme).push(
                        row,
                    )
                    &&& (scheme == StorageScheme::Cached ==> shard_appended(
                        old(self).kv,
                        final(self).kv,
                        new.merchant_id@,
                        new.payment_id@,
                        StreamMutation::UpsertIntent(row),
                    ))
                },
                Err(e) => match e {
                    StorageError::DuplicateRecord => has_key(
                        old(self).spec_intents(scheme),
                        intent_key(),
                        (new.merchant_id@, new.payment_id@),
                    ) && *final(self) == *old(self),
                    StorageError::StreamAppendFailed => scheme == StorageScheme::Cached && !old(self).kv.stream_healthy && !has_key(
                        old(self).spec_intents(scheme),
                        intent_key(),
                        (new.merchant_id@, new.payment_id@),
                    ) && final(self).spec_intents(scheme) == old(self).spec_intents(scheme).push(
                        spec_build_intent(new, now),
                    ) && final(self).kv.shards@ == old(self).kv.shards@,
                    _ => false,
                },
            },
    {
        match scheme {
            StorageScheme::Strict => self.rel.insert_payment_intent(new, now),
            StorageScheme::Cached => self.kv.insert_payment_intent(new, now),
        }
    }

    /// Applies one named changeset to an intent under the scheme.
    pub fn update_payment_intent(
        &mut self,
        scheme: StorageScheme,
        payment_id: &str,
        merchant_id: &str,
        update: &PaymentIntentUpdate,
    ) -> (r: Result<PaymentIntent, StorageError>)
        requires
            old(self).wf(),
        ensures
            final(self).wf(),
            scheme == StorageScheme::Strict ==> final(self).kv == old(self).kv
                && only_intents_changed(old(self).rel, final(self).rel),
            scheme == StorageScheme::Cached ==> final(self).rel == old(self).rel
                && only_intents_changed(old(self).kv.cache, final(self).kv.cache) && final(self).kv.stream_healthy == old(self).kv.stream_healthy,
            match r {
                Ok(row) => {
                    let k = (merchant_id@, payment_id@);
                    &&& old(self).spec_stream_ok(scheme)
                    &&& has_key(old(self).spec_intents(scheme), intent_key(), k)
                    &&& row == spec_apply_intent_update(
                        record_at_key(old(self).spec_intents(scheme), intent_key(), k),
                        *update,
                    )
                    &&& final(self).spec_intents(scheme) == old(self).spec_intents(scheme).update(
                        index_of_key(old(self).spec_intents(scheme), intent_key(), k),
                        row,
                    )
                    &&& (scheme == StorageScheme::Cached ==> shard_appended(
                        old(self).kv,
                        final(self).kv,
                        merchant_id@,
                        payment_id@,
                        StreamMutation::UpsertIntent(row),
                    ))
                },
                Err(e) => match e {
                    StorageError::NotFound => !has_key(
                        old(self).spec_intents(scheme),
                        intent_key(),
                        (merchant_id@, payment_id@),
                    ) && *final(self) == *old(self),
                    StorageError::StreamAppendFailed => ({
                        let k = (merchant_id@, payment_id@);
                        &&& scheme == StorageScheme::Cached
                        &&& !old(self).kv.stream_healthy
                        &&& has_key(old(self).spec_intents(scheme), intent_key(), k)
                        &&& final(self).spec_intents(scheme) == old(self).spec_intents(
                            scheme,
                        ).update(
                            index_of_key(old(self).spec_intents(scheme), intent_key(), k),
                            spec_apply_intent_update(
                                record_at_key(old(self).spec_intents(scheme), intent_key(), k),
                                *update,
                            ),
                        )
                        &&& final(self).kv.shards@ == old(self).kv.shards@
                    }),
                    _ => false,
                },
            },
    {
        match scheme {
            StorageScheme::Strict => self.rel.update_payment_intent(payment_id, merchant_id, update),
            StorageScheme::Cached => self.kv.update_payment_intent(payment_id, merchant_id, update),
        }
    }

    /// Finds an intent under the scheme; under the cached scheme a cache
    /// miss is `NotFound`, with no relational fallback.
    pub fn find_payment_intent(
        &self,
        scheme: StorageScheme,
        payment_id: &str,
        merchant_id: &str,
    ) -> (r: Result<PaymentIntent, StorageError>)
        requires
            self.wf(),
        ensures
            match r {
                Ok(row) => has_key(
                    self.spec_intents(scheme),
                    intent_key(),
                    (merchant_id@, payment_id@),
                ) && row == record_at_key(
                    self.spec_intents(scheme),
                    intent_key(),
                    (merchant_id@, payment_id@),
                ),
                Err(e) => e == StorageError::NotFound && !has_key(
                    self.spec_intents(scheme),
                    intent_key(),
                    (merchant_id@, payment_id@),
                ),
            },
    {
        match scheme {
            StorageScheme::Strict => self.rel.find_payment_intent(payment_id, merchant_id),
            StorageScheme::Cached => self.kv.find_payment_intent(payment_id, merchant_id),
        }
    }

    /// Inserts a new attempt under the scheme.
    pub fn insert_payment_attempt(
        &mut self,
        scheme: StorageScheme,
        new: PaymentAttemptNew,
        now: i64,
    ) -> (r: Result<PaymentAttempt, StorageError>)
        requires
            old(self).wf(),
        ensures
            final(self).wf(),
            scheme == StorageScheme::Strict ==> final(self).kv == old(self).kv
                && only_attempts_changed(old(self).rel, final(self).rel),
            scheme == StorageScheme::Cached ==> final(self).rel == old(self).rel
                && only_attempts_changed(old(self).kv.cache, final(self).kv.cache) && final(self).kv.stream_healthy == old(self).kv.stream_healthy,
            match r {
                Ok(row) => {
                    &&& old(self).spec_stream_ok(scheme)
                    &&& !has_key(
                        old(self).spec_attempts(scheme),
                        attempt_key(),
                        (new.merchant_id@, new.payment_id@, new.attempt_id@),
                    )
                    &&& row == spec_build_attempt(new, now)
                    &&& final(self).spec_attempts(scheme) == old(self).spec_attempts(scheme).push(
                        row,
                    )
                    &&& (scheme == StorageScheme::Cached ==> shard_appended(
                        old(self).kv,
                        final(self).kv,
                        new.merchant_id@,
                        new.payment_id@,
                        StreamMutation::UpsertAttempt(row),
                    ))
                },
                Err(e) => match e {
                    StorageError::DuplicateRecord => has_key(
                        old(self).spec_attempts(scheme),
                        attempt_key(),
                        (new.merchant_id@, new.payment_id@, new.attempt_id@),
                    ) && *final(self) == *old(self),
                    StorageError::StreamAppendFailed => scheme == StorageScheme::Cached && !old(self).kv.stream_healthy && !has_key(
                        old(self).spec_attempts(scheme),
                        attempt_key(),
                        (new.merchant_id@, new.payment_id@, new.attempt_id@),
                    ) && final(self).spec_attempts(scheme) == old(self).spec_attempts(scheme).push(
                        spec_build_attempt(new, now),
                    ) && final(self).kv.shards@ == old(self).kv.shards@,
                    _ => false,
                },
            },
    {
        match scheme {
            StorageScheme::Strict => self.rel.insert_payment_attempt(new, now),
            StorageScheme::Cached => self.kv.insert_payment_attempt(new, now),
        }
    }

    /// Finds an attempt under the scheme.
    pub fn find_payment_attempt(
        &self,
        scheme: StorageScheme,
        payment_id: &str,
        merchant_id: &str,
        attempt_id: &str,
    ) -> (r: Result<PaymentAttempt, StorageError>)
        requires
            self.wf(),
        ensures
            match r {
                Ok(row) => has_key(
                    self.spec_attempts(scheme),
                    attempt_key(),
                    (merchant_id@, payment_id@, attempt_id@),
                ) && row == record_at_key(
                    self.spec_attempts(scheme),
                    attempt_key(),
                    (merchant_id@, payment_id@, attempt_id@),
                ),
                Err(e) => e == StorageError::NotFound && !has_key(
                    self.spec_attempts(scheme),
                    attempt_key(),
                    (merchant_id@, payment_id@, attempt_id@),
                ),
            },
    {
        match scheme {
            StorageScheme::Strict => self.rel.find_payment_attempt(
                payment_id,
                merchant_id,
                attempt_id,
            ),
            StorageScheme::Cached => self.kv.find_payment_attempt(
                payment_id,
                merchant_id,
                attempt_id,
            ),
        }
    }

    /// Inserts a new refund under the scheme.
    pub fn insert_refund(&mut self, scheme: StorageScheme, new: RefundNew, now: i64) -> (r: Result<
        Refund,
        StorageError,
    >)
        requires
            old(self).wf(),
        ensures
            final(self).wf(),
            scheme == StorageScheme::Strict ==> final(self).kv == old(self).kv
                && only_refunds_changed(old(self).rel, final(self).rel),
            scheme == StorageScheme::Cached ==> final(self).rel == old(self).rel
                && only_refunds_changed(old(self).kv.cache, final(self).kv.cache) && final(self).kv.stream_healthy == old(self).kv.stream_healthy,
            match r {
                Ok(row) => {
                    &&& old(self).spec_stream_ok(scheme)
                    &&& !has_key(
                        old(self).spec_refunds(scheme),
                        refund_key(),
                        (new.merchant_id@, new.refund_id@),
                    )
                    &&& row == spec_build_refund(new, now)
                    &&& final(self).spec_refunds(scheme) == old(self).spec_refunds(scheme).push(
                        row,
                    )
                    &&& (scheme == StorageScheme::Cached ==> shard_appended(
                        old(self).kv,
                        final(self).kv,
                        new.merchant_id@,
                        new.payment_id@,
                        StreamMutation::UpsertRefund(row),
                    ))
                },
                Err(e) => match e {
                    StorageError::DuplicateRecord => has_key(
                        old(self).spec_refunds(scheme),
                        refund_key(),
                        (new.merchant_id@, new.refund_id@),
                    ) && *final(self) == *old(self),
                    StorageError::StreamAppendFailed => scheme == StorageScheme::Cached && !old(self).kv.stream_healthy && !has_key(
                        old(self).spec_refunds(scheme),
                        refund_key(),
                        (new.merchant_id@, new.refund_id@),
                    ) && final(self).spec_refunds(scheme) == old(self).spec_refunds(scheme).push(
                        spec_build_refund(new, now),
                    ) && final(self).kv.shards@ == old(self).kv.shards@,
                    _ => false,
                },
            },
    {
        match scheme {
            StorageScheme::Strict => self.rel.insert_refund(new, now),
            StorageScheme::Cached => self.kv.insert_refund(new, now),
        }
    }

    /// Finds a refund under the scheme.
    pub fn find_refund(&self, scheme: StorageScheme, refund_id: &str, merchant_id: &str) -> (r:
        Result<Refund, StorageError>)
        requires
            self.wf(),
        ensures
            match r {
                Ok(row) => has_key(
                    self.spec_refunds(scheme),
                    refund_key(),
                    (merchant_id@, refund_id@),
                ) && row == record_at_key(
                    self.spec_refunds(scheme),
                    refund_key(),
                    (merchant_id@, refund_id@),
                ),
                Err(e) => e == StorageError::NotFound && !has_key(
                    self.spec_refunds(scheme),
                    refund_key(),
                    (merchant_id@, refund_id@),
                ),
            },
    {
        match scheme {
            StorageScheme::Strict => self.rel.find_refund(refund_id, merchant_id),
            StorageScheme::Cached => self.kv.find_refund(refund_id, merchant_id),
        }
    }

    /// Applies one named changeset to a refund under the scheme.
    pub fn update_refund(
        &mut self,
        scheme: StorageScheme,
        refund_id: &str,
        merchant_id: &str,
        update: &RefundUpdate,
    ) -> (r: Result<Refund, StorageError>)
        requires
            old(self).wf(),
        ensures
            final(self).wf(),
            scheme == StorageScheme::Strict ==> final(self).kv == old(self).kv
                && only_refunds_changed(old(self).rel, final(self).rel),
            scheme == StorageScheme::Cached ==> final(self).rel == old(self).rel
                && only_refunds_changed(old(self).kv.cache, final(self).kv.cache) && final(self).kv.stream_healthy == old(self).kv.stream_healthy,
            match r {
                Ok(row) => {
                    let k = (merchant_id@, refund_id@);
                    let prior = record_at_key(old(self).spec_refunds(scheme), refund_key(), k);
                    &&& old(self).spec_stream_ok(scheme)
                    &&& has_key(old(self).spec_refunds(scheme), refund_key(), k)
                    &&& row == spec_apply_refund_update(prior, *update)
                    &&& final(self).spec_refunds(scheme) == old(self).spec_refunds(scheme).update(
                        index_of_key(old(self).spec_refunds(scheme), refund_key(), k),
                        row,
                    )
                    &&& (scheme == StorageScheme::Cached ==> shard_appended(
                        old(self).kv,
                        final(self).kv,
                        merchant_id@,
                        prior.payment_id@,
                        StreamMutation::UpsertRefund(row),
                    ))
                },
                Err(e) => match e {
                    StorageError::NotFound => !has_key(
                        old(self).spec_refunds(scheme),
                        refund_key(),
                        (merchant_id@, refund_id@),
                    ) && *final(self) == *old(self),
                    StorageError::StreamAppendFailed => ({
                        let k = (merchant_id@, refund_id@);
                        &&& scheme == StorageScheme::Cached
                        &&& !old(self).kv.stream_healthy
                        &&& has_key(old(self).spec_refunds(scheme), refund_key(), k)
                        &&& final(self).spec_refunds(scheme) == old(self).spec_refunds(
                            scheme,
                        ).update(
                            index_of_key(old(self).spec_refunds(scheme), refund_key(), k),
                            spec_apply_refund_update(
                                record_at_key(old(self).spec_refunds(scheme), refund_key(), k),
                                *update,
                            ),
                        )
                        &&& final(self).kv.shards@ == old(self).kv.shards@
                    }),
                    _ => false,
                },
            },
    {
        match scheme {
            StorageScheme::Strict => self.rel.update_refund(refund_id, merchant_id, update),
            StorageScheme::Cached => self.kv.update_refund(refund_id, merchant_id, update),
        }
    }

    /// Applies one named changeset to an attempt under the scheme.
    pub fn update_payment_attempt(
        &mut self,
        scheme: StorageScheme,
        payment_id: &str,
        merchant_id: &str,
        attempt_id: &str,
        update: &PaymentAttemptUpdate,
    ) -> (r: Result<PaymentAttempt, StorageError>)
        requires
            old(self).wf(),
        ensures
            final(self).wf(),
            scheme == StorageScheme::Strict ==> final(self).kv == old(self).kv
                && only_attempts_changed(old(self).rel, final(self).rel),
            scheme == StorageScheme::Cached ==> final(self).rel == old(self).rel
                && only_attempts_changed(old(self).kv.cache, final(self).kv.cache) && final(self).kv.stream_healthy == old(self).kv.stream_healthy,
            match r {
                Ok(row) => {
                    let k = (merchant_id@, payment_id@, attempt_id@);
                    &&& old(self).spec_stream_ok(scheme)
                    &&& has_key(old(self).spec_attempts(scheme), attempt_key(), k)
                    &&& row == spec_apply_attempt_update(
                        record_at_key(old(self).spec_attempts(scheme), attempt_key(), k),
                        *update,
                    )
                    &&& final(self).spec_attempts(scheme) == old(self).spec_attempts(scheme).update(
                        index_of_key(old(self).spec_attempts(scheme), attempt_key(), k),
                        row,
                    )
                    &&& (scheme == StorageScheme::Cached ==> shard_appended(
                        old(self).kv,
                        final(self).kv,
                        merchant_id@,
                        payment_id@,
                        StreamMutation::UpsertAttempt(row),
                    ))
                },
                Err(e) => match e {
                    StorageError::NotFound => !has_key(
                        old(self).spec_attempts(scheme),
                        attempt_key(),
                        (merchant_id@, payment_id@, attempt_id@),
                    ) && *final(self) == *old(self),
                    StorageError::StreamAppendFailed => ({
                        let k = (merchant_id@, payment_id@, attempt_id@);
                        &&& scheme == StorageScheme::Cached
                        &&& !old(self).kv.stream_healthy
                        &&& has_key(old(self).spec_attempts(scheme), attempt_key(), k)
                        &&& final(self).spec_attempts(scheme) == old(self).spec_attempts(
                            scheme,
                        ).update(
                            index_of_key(old(self).spec_attempts(scheme), attempt_key(), k),
                            spec_apply_attempt_update(
                                record_at_key(old(self).spec_attempts(scheme), attempt_key(), k),
                                *update,
                            ),
                        )
                        &&& final(self).kv.shards@ == old(self).kv.shards@
                    }),
                    _ => false,
                },
            },
    {
        match scheme {
            StorageScheme::Strict => self.rel.update_payment_attempt(
                payment_id,
                merchant_id,
                attempt_id,
                update,
            ),
            StorageScheme::Cached => self.kv.update_payment_attempt(
                payment_id,
                merchant_id,
                attempt_id,
                update,
            ),
        }
    }

    /// Total amount the refunds of one payment have consumed, as the scheme
    /// sees them.
    pub fn refunded_amount(
        &self,
        scheme: StorageScheme,
        payment_id: &str,
        merchant_id: &str,
    ) -> (r: i128)
        ensures
            r == spec_refund_sum(self.spec_refunds(scheme), merchant_id@, payment_id@),
            -0xffff_ffff_ffff_ffff * 0x8000_0000_0000_0000 <= r <= 0xffff_ffff_ffff_ffff
                * 0x7fff_ffff_ffff_ffff,
    {
        match scheme {
            StorageScheme::Strict => self.rel.refunded_amount(payment_id, merchant_id),
            StorageScheme::Cached => self.kv.refunded_amount(payment_id, merchant_id),
        }
    }

    /// Inserts a connector-response placeholder under the scheme.
    pub fn insert_connector_response(
        &mut self,
        scheme: StorageScheme,
        new: ConnectorResponse,
    ) -> (r: Result<ConnectorResponse, StorageError>)
        requires
            old(self).wf(),
        ensures
            final(self).wf(),
            scheme == StorageScheme::Strict ==> final(self).kv == old(self).kv
                && only_connector_responses_changed(old(self).rel, final(self).rel),
            scheme == StorageScheme::Cached ==> final(self).rel == old(self).rel
                && only_connector_responses_changed(old(self).kv.cache, final(self).kv.cache)
                && final(self).kv.stream_healthy == old(self).kv.stream_healthy,
            match r {
                Ok(row) => {
                    &&& old(self).spec_stream_ok(scheme)
                    &&& !has_key(
                        old(self).spec_connector_responses(scheme),
                        connector_response_key(),
                        (new.merchant_id@, new.payment_id@, new.attempt_id@),
                    )
                    &&& row == new
                    &&& final(self).spec_connector_responses(scheme) == old(self).spec_connector_responses(scheme).push(new)
                    &&& (scheme == StorageScheme::Cached ==> shard_appended(
                        old(self).kv,
                        final(self).kv,
                        new.merchant_id@,
                        new.payment_id@,
                        StreamMutation::UpsertConnectorResponse(new),
                    ))
                },
                Err(e) => match e {
                    StorageError::DuplicateRecord => has_key(
                        old(self).spec_connector_responses(scheme),
                        connector_response_key(),
                        (new.merchant_id@, new.payment_id@, new.attempt_id@),
                    ) && *final(self) == *old(self),
                    StorageError::StreamAppendFailed => scheme == StorageScheme::Cached && !old(self).kv.stream_healthy && !has_key(
                        old(self).spec_connector_responses(scheme),
                        connector_response_key(),
                        (new.merchant_id@, new.payment_id@, new.attempt_id@),
                    ) && final(self).spec_connector_responses(scheme) == old(self).spec_connector_responses(scheme).push(new) && final(self).kv.shards@ == old(self).kv.shards@,
                    _ => false,
                },
            },
    {
        match scheme {
            StorageScheme::Strict => self.rel.insert_connector_response(new),
            StorageScheme::Cached => self.kv.insert_connector_response(new),
        }
    }

    /// Inserts a customer row; customer rows always take the strict path.
    pub fn insert_customer(&mut self, new: Customer) -> (r: Result<Customer, StorageError>)
        requires
            old(self).wf(),
        ensures
            final(self).wf(),
            final(self).kv == old(self).kv,
            only_customers_changed(old(self).rel, final(self).rel),
            match r {
                Ok(row) => !has_key(
                    old(self).rel@.customers,
                    customer_key(),
                    (new.merchant_id@, new.customer_id@),
                ) && row == new && final(self).rel@.customers == old(self).rel@.customers.push(
                    new,
                ),
                Err(e) => e == StorageError::DuplicateRecord && has_key(
                    old(self).rel@.customers,
                    customer_key(),
                    (new.merchant_id@, new.customer_id@),
                ) && *final(self) == *old(self),
            },
    {
        self.rel.insert_customer(new)
    }

    /// Finds a customer row; customer rows always take the strict path.
    pub fn find_customer(&self, customer_id: &str, merchant_id: &str) -> (r: Result<
        Customer,
        StorageError,
    >)
        requires
            self.wf(),
        ensures
            match r {
                Ok(row) => has_key(
                    self.rel@.customers,
                    customer_key(),
                    (merchant_id@, customer_id@),
                ) && row == record_at_key(
                    self.rel@.customers,
                    customer_key(),
                    (merchant_id@, customer_id@),
                ),
                Err(e) => e == StorageError::NotFound && !has_key(
                    self.rel@.customers,
                    customer_key(),
                    (merchant_id@, customer_id@),
                ),
            },
    {
        self.rel.find_customer(customer_id, merchant_id)
    }

    /// Lists the refunds of one payment. Offered under the strict scheme
    /// only: the cached scheme answers `NotSupported`, a documented gap.
    pub fn filter_refunds_by_payment(
        &self,
        scheme: StorageScheme,
        payment_id: &str,
        merchant_id: &str,
    ) -> (r: Result<Vec<Refund>, StorageError>)
        requires
            self.wf(),
        ensures
            match r {
                Ok(rows) => scheme == StorageScheme::Strict && rows@ == self.rel@.refunds.filter(
                    refund_of_payment(merchant_id@, payment_id@),
                ),
                Err(e) => e == StorageError::NotSupported && scheme == StorageScheme::Cached,
            },
    {
        match scheme {
            StorageScheme::Cached => Err(StorageError::NotSupported),
            StorageScheme::Strict => {
                let table = &self.rel.refunds;
                let mut out: Vec<Refund> = Vec::new();
                let ghost pred = refund_of_payment(merchant_id@, payment_id@);
                proof {
                    assert(table@.take(0) =~= Seq::<Refund>::empty());
                    assert(table@.take(0).filter(pred) =~= Seq::<Refund>::empty());
                }
                let mut i: usize = 0;
                while i < table.len()
                    invariant
                        i <= table@.len(),
                        pred == refund_of_payment(merchant_id@, payment_id@),
                        out@ == table@.take(i as int).filter(pred),
                    decreases table@.len() - i,
                {
                    proof {
                        assert(table@.take(i + 1).drop_last() =~= table@.take(i as int));
                        assert(table@.take(i + 1).last() == table@[i as int]);
                        reveal_with_fuel(Seq::filter, 2);
                    }
                    if str_eq(table[i].merchant_id.as_str(), merchant_id) && str_eq(
                        table[i].payment_id.as_str(),
                        payment_id,
                    ) {
                        out.push(table[i].clone());
                    }
                    i += 1;
                }
                proof {
                    assert(table@.take(table@.len() as int) =~= table@);
                }
                Ok(out)
            },
        }
    }
}

} // verus!
