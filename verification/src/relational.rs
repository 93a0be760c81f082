//! The strict storage path: an in-memory model of the relational store.
//!
//! Every call commits directly against the authoritative tables. Each table
//! holds at most one record per business key; `insert` refuses an existing
//! identity with `DuplicateRecord`, `find` answers `NotFound` for an absent
//! one, and `update` applies exactly one named changeset to the addressed
//! row.

use vstd::prelude::*;

use crate::entities::{
    apply_attempt_update, apply_intent_update, apply_refund_update, build_attempt, build_intent,
    build_refund, ConnectorResponse, Customer, PaymentAttempt, PaymentAttemptNew,
    PaymentAttemptUpdate, PaymentIntent, PaymentIntentNew, PaymentIntentUpdate, Refund, RefundNew,
    RefundUpdate,
};
use crate::entities::spec_apply_attempt_update;
use crate::entities::spec_apply_intent_update;
use crate::entities::spec_apply_refund_update;
use crate::entities::spec_build_attempt;
use crate::entities::spec_build_intent;
use crate::entities::spec_build_refund;
use crate::errors::StorageError;
use crate::keys::{
    attempt_key, connector_response_key, customer_key, has_key, index_of_key, intent_key,
    lemma_index_of_key_unique, lemma_push_preserves_unique, lemma_update_preserves_unique,
    record_at_key, refund_key, str_eq, unique_keys,
};

verus! {

/// The relational store: one table per entity.
pub struct RelationalStore {
    pub intents: Vec<PaymentIntent>,
    pub attempts: Vec<PaymentAttempt>,
    pub refunds: Vec<Refund>,
    pub customers: Vec<Customer>,
    pub connector_responses: Vec<ConnectorResponse>,
}

/// Mathematical view of the relational store: one sequence per table.
pub struct RelModel {
    pub intents: Seq<PaymentIntent>,
    pub attempts: Seq<PaymentAttempt>,
    pub refunds: Seq<Refund>,
    pub customers: Seq<Customer>,
    pub connector_responses: Seq<ConnectorResponse>,
}

impl RelModel {
    /// Every table holds at most one record per business key.
    pub open spec fn wf(self) -> bool {
        &&& unique_keys(self.intents, intent_key())
        &&& unique_keys(self.attempts, attempt_key())
        &&& unique_keys(self.refunds, refund_key())
        &&& unique_keys(self.customers, customer_key())
        &&& unique_keys(self.connector_responses, connector_response_key())
    }
}

impl View for RelationalStore {
    type V = RelModel;

    open spec fn view(&self) -> RelModel {
        RelModel {
            intents: self.intents@,
            attempts: self.attempts@,
            refunds: self.refunds@,
            customers: self.customers@,
            connector_responses: self.connector_responses@,
        }
    }
}

/// The tables other than `intents` are untouched.
pub open spec fn only_intents_changed(pre: RelationalStore, post: RelationalStore) -> bool {
    &&& post.attempts@ == pre.attempts@
    &&& post.refunds@ == pre.refunds@
    &&& post.customers@ == pre.customers@
    &&& post.connector_responses@ == pre.connector_responses@
}

/// The tables other than `attempts` are untouched.
pub open spec fn only_attempts_changed(pre: RelationalStore, post: RelationalStore) -> bool {
    &&& post.intents@ == pre.intents@
    &&& post.refunds@ == pre.refunds@
    &&& post.customers@ == pre.customers@
    &&& post.connector_responses@ == pre.connector_responses@
}

/// The tables other than `refunds` are untouched.
pub open spec fn only_refunds_changed(pre: RelationalStore, post: RelationalStore) -> bool {
    &&& post.intents@ == pre.intents@
    &&& post.attempts@ == pre.attempts@
    &&& post.customers@ == pre.customers@
    &&& post.connector_responses@ == pre.connector_responses@
}

/// The tables other than `customers` are untouched.
pub open spec fn only_customers_changed(pre: RelationalStore, post: RelationalStore) -> bool {
    &&& post.intents@ == pre.intents@
    &&& post.attempts@ == pre.attempts@
    &&& post.refunds@ == pre.refunds@
    &&& post.connector_responses@ == pre.connector_responses@
}

/// The tables other than `connector_responses` are untouched.
pub open spec fn only_connector_responses_changed(
    pre: RelationalStore,
    post: RelationalStore,
) -> bool {
    &&& post.intents@ == pre.intents@
    &&& post.attempts@ == pre.attempts@
    &&& post.refunds@ == pre.refunds@
    &&& post.customers@ == pre.customers@
}

/// Whether a refund consumes refundable amount: every refund that has not
/// failed does.
pub open spec fn refund_counts(r: Refund, merchant_id: Seq<char>, payment_id: Seq<char>) -> bool {
    &&& r.merchant_id@ == merchant_id
    &&& r.payment_id@ == payment_id
    &&& r.status != crate::status::RefundStatus::Failure
    &&& r.status != crate::status::RefundStatus::TransactionFailure
}

/// Total amount the refunds of one payment have consumed.
pub open spec fn spec_refund_sum(s: Seq<Refund>, merchant_id: Seq<char>, payment_id: Seq<char>) -> int
    decreases s.len(),
{
    if s.len() == 0 {
        0
    } else {
        spec_refund_sum(s.drop_last(), merchant_id, payment_id) + if refund_counts(
            s.last(),
            merchant_id,
            payment_id,
        ) {
            s.last().amount as int
        } else {
            0
        }
    }
}

/// Position of the intent with the given identity, if any.
fn find_intent_idx(table: &Vec<PaymentIntent>, merchant_id: &str, payment_id: &str) -> (r: Option<
    usize,
>)
    ensures
        match r {
            Some(i) => i < table@.len() && intent_key()(table@[i as int]) == (
                merchant_id@,
                payment_id@,
            ),
            None => !has_key(table@, intent_key(), (merchant_id@, payment_id@)),
        },
{
    let mut i: usize = 0;
    while i < table.len()
        invariant
            i <= table@.len(),
            forall|j: int|
                0 <= j < i ==> intent_key()(table@[j]) != (merchant_id@, payment_id@),
        decreases table@.len() - i,
    {
        if str_eq(table[i].merchant_id.as_str(), merchant_id) && str_eq(
            table[i].payment_id.as_str(),
            payment_id,
        ) {
            return Some(i);
        }
        i += 1;
    }
    None
}

/// Position of the attempt with the given identity, if any.
fn find_attempt_idx(
    table: &Vec<PaymentAttempt>,
    merchant_id: &str,
    payment_id: &str,
    attempt_id: &str,
) -> (r: Option<usize>)
    ensures
        match r {
            Some(i) => i < table@.len() && attempt_key()(table@[i as int]) == (
                merchant_id@,
                payment_id@,
                attempt_id@,
            ),
            None => !has_key(table@, attempt_key(), (merchant_id@, payment_id@, attempt_id@)),
        },
{
    let mut i: usize = 0;
    while i < table.len()
        invariant
            i <= table@.len(),
            forall|j: int|
                0 <= j < i ==> attempt_key()(table@[j]) != (merchant_id@, payment_id@, attempt_id@),
        decreases table@.len() - i,
    {
        if str_eq(table[i].merchant_id.as_str(), merchant_id) && str_eq(
            table[i].payment_id.as_str(),
            payment_id,
        ) && str_eq(table[i].attempt_id.as_str(), attempt_id) {
            return Some(i);
        }
        i += 1;
    }
    None
}

/// Position of the refund with the given identity, if any.
fn find_refund_idx(table: &Vec<Refund>, merchant_id: &str, refund_id: &str) -> (r: Option<usize>)
    ensures
        match r {
            Some(i) => i < table@.len() && refund_key()(table@[i as int]) == (
                merchant_id@,
                refund_id@,
            ),
            None => !has_key(table@, refund_key(), (merchant_id@, refund_id@)),
        },
{
    let mut i: usize = 0;
    while i < table.len()
        invariant
            i <= table@.len(),
            forall|j: int| 0 <= j < i ==> refund_key()(table@[j]) != (merchant_id@, refund_id@),
        decreases table@.len() - i,
    {
        if str_eq(table[i].merchant_id.as_str(), merchant_id) && str_eq(
            table[i].refund_id.as_str(),
            refund_id,
        ) {
            return Some(i);
        }
        i += 1;
    }
    None
}

/// Position of the customer with the given identity, if any.
fn find_customer_idx(table: &Vec<Customer>, merchant_id: &str, customer_id: &str) -> (r: Option<
    usize,
>)
    ensures
        match r {
            Some(i) => i < table@.len() && customer_key()(table@[i as int]) == (
                merchant_id@,
                customer_id@,
            ),
            None => !has_key(table@, customer_key(), (merchant_id@, customer_id@)),
        },
{
    let mut i: usize = 0;
    while i < table.len()
        invariant
            i <= table@.len(),
            forall|j: int| 0 <= j < i ==> customer_key()(table@[j]) != (merchant_id@, customer_id@),
        decreases table@.len() - i,
    {
        if str_eq(table[i].merchant_id.as_str(), merchant_id) && str_eq(
            table[i].customer_id.as_str(),
            customer_id,
        ) {
            return Some(i);
        }
        i += 1;
    }
    None
}

/// Position of the connector-response placeholder with the given identity.
fn find_connector_response_idx(
    table: &Vec<ConnectorResponse>,
    merchant_id: &str,
    payment_id: &str,
    attempt_id: &str,
) -> (r: Option<usize>)
    ensures
        match r {
            Some(i) => i < table@.len() && connector_response_key()(table@[i as int]) == (
                merchant_id@,
                payment_id@,
                attempt_id@,
            ),
            None => !has_key(
                table@,
                connector_response_key(),
                (merchant_id@, payment_id@, attempt_id@),
            ),
        },
{
    let mut i: usize = 0;
    while i < table.len()
        invariant
            i <= table@.len(),
            forall|j: int|
                0 <= j < i ==> connector_response_key()(table@[j]) != (
                    merchant_id@,
                    payment_id@,
                    attempt_id@,
                ),
        decreases table@.len() - i,
    {
        if str_eq(table[i].merchant_id.as_str(), merchant_id) && str_eq(
            table[i].payment_id.as_str(),
            payment_id,
        ) && str_eq(table[i].attempt_id.as_str(), attempt_id) {
            return Some(i);
        }
        i += 1;
    }
    None
}

impl RelationalStore {
    /// Every table holds at most one record per business key.
    pub open spec fn wf(self) -> bool {
        self@.wf()
    }

    /// An empty store.
    pub fn new() -> (r: Self)
        ensures
            r.wf(),
            r.intents@ =~= Seq::<PaymentIntent>::empty(),
            r.attempts@ =~= Seq::<PaymentAttempt>::empty(),
            r.refunds@ =~= Seq::<Refund>::empty(),
            r.customers@ =~= Seq::<Customer>::empty(),
            r.connector_responses@ =~= Seq::<ConnectorResponse>::empty(),
    {
        RelationalStore {
            intents: Vec::new(),
            attempts: Vec::new(),
            refunds: Vec::new(),
            customers: Vec::new(),
            connector_responses: Vec::new(),
        }
    }

    /// Inserts a new intent; refuses an existing identity.
    pub fn insert_payment_intent(&mut self, new: PaymentIntentNew, now: i64) -> (r: Result<
        PaymentIntent,
        StorageError,
    >)
        requires
            old(self).wf(),
        ensures
            final(self).wf(),
            only_intents_changed(*old(self), *final(self)),
            match r {
                Ok(row) => !has_key(
                    old(self).intents@,
                    intent_key(),
                    (new.merchant_id@, new.payment_id@),
                ) && row == spec_build_intent(new, now) && final(self).intents@ == old(
                    self,
                ).intents@.push(row),
                Err(e) => e == StorageError::DuplicateRecord && has_key(
                    old(self).intents@,
                    intent_key(),
                    (new.merchant_id@, new.payment_id@),
                ) && *final(self) == *old(self),
            },
    {
        if find_intent_idx(&self.intents, new.merchant_id.as_str(), new.payment_id.as_str())
            .is_some() {
            return Err(StorageError::DuplicateRecord);
        }
        let row = build_intent(new, now);
        let out = row.clone();
        proof {
            lemma_push_preserves_unique(self.intents@, intent_key(), row);
        }
        self.intents.push(row);
        Ok(out)
    }

    /// Finds the intent with the given identity.
    pub fn find_payment_intent(&self, payment_id: &str, merchant_id: &str) -> (r: Result<
        PaymentIntent,
        StorageError,
    >)
        requires
            self.wf(),
        ensures
            match r {
                Ok(row) => has_key(self.intents@, intent_key(), (merchant_id@, payment_id@))
                    && row == record_at_key(
                    self.intents@,
                    intent_key(),
                    (merchant_id@, payment_id@),
                ),
                Err(e) => e == StorageError::NotFound && !has_key(
                    self.intents@,
                    intent_key(),
                    (merchant_id@, payment_id@),
                ),
            },
    {
        match find_intent_idx(&self.intents, merchant_id, payment_id) {
            Some(i) => {
                proof {
                    lemma_index_of_key_unique(
                        self.intents@,
                        intent_key(),
                        (merchant_id@, payment_id@),
                        i as int,
                    );
                }
                Ok(self.intents[i].clone())
            },
            None => Err(StorageError::NotFound),
        }
    }

    /// Applies one named changeset to the intent with the given identity.
    pub fn update_payment_intent(
        &mut self,
        payment_id: &str,
        merchant_id: &str,
        update: &PaymentIntentUpdate,
    ) -> (r: Result<PaymentIntent, StorageError>)
        requires
            old(self).wf(),
        ensures
            final(self).wf(),
            only_intents_changed(*old(self), *final(self)),
            match r {
                Ok(row) => {
                    let k = (merchant_id@, payment_id@);
                    &&& has_key(old(self).intents@, intent_key(), k)
                    &&& row == spec_apply_intent_update(
                        record_at_key(old(self).intents@, intent_key(), k),
                        *update,
                    )
                    &&& final(self).intents@ == old(self).intents@.update(
                        index_of_key(old(self).intents@, intent_key(), k),
                        row,
                    )
                },
                Err(e) => e == StorageError::NotFound && !has_key(
                    old(self).intents@,
                    intent_key(),
                    (merchant_id@, payment_id@),
                ) && *final(self) == *old(self),
            },
    {
        match find_intent_idx(&self.intents, merchant_id, payment_id) {
            Some(i) => {
                proof {
                    lemma_index_of_key_unique(
                        self.intents@,
                        intent_key(),
                        (merchant_id@, payment_id@),
                        i as int,
                    );
                }
                let row = apply_intent_update(&self.intents[i], update);
                let out = row.clone();
                proof {
                    lemma_update_preserves_unique(self.intents@, intent_key(), i as int, row);
                }
                self.intents.set(i, row);
                Ok(out)
            },
            None => Err(StorageError::NotFound),
        }
    }

    /// Inserts a new attempt; refuses an existing identity.
    pub fn insert_payment_attempt(&mut self, new: PaymentAttemptNew, now: i64) -> (r: Result<
        PaymentAttempt,
        StorageError,
    >)
        requires
            old(self).wf(),
        ensures
            final(self).wf(),
            only_attempts_changed(*old(self), *final(self)),
            match r {
                Ok(row) => !has_key(
                    old(self).attempts@,
                    attempt_key(),
                    (new.merchant_id@, new.payment_id@, new.attempt_id@),
                ) && row == spec_build_attempt(new, now) && final(self).attempts@ == old(
                    self,
                ).attempts@.push(row),
                Err(e) => e == StorageError::DuplicateRecord && has_key(
                    old(self).attempts@,
                    attempt_key(),
                    (new.merchant_id@, new.payment_id@, new.attempt_id@),
                ) && *final(self) == *old(self),
            },
    {
        if find_attempt_idx(
            &self.attempts,
            new.merchant_id.as_str(),
            new.payment_id.as_str(),
            new.attempt_id.as_str(),
        ).is_some() {
            return Err(StorageError::DuplicateRecord);
        }
        let row = build_attempt(new, now);
        let out = row.clone();
        proof {
            lemma_push_preserves_unique(self.attempts@, attempt_key(), row);
        }
        self.attempts.push(row);
        Ok(out)
    }

    /// Finds the attempt with the given identity.
    pub fn find_payment_attempt(
        &self,
        payment_id: &str,
        merchant_id: &str,
        attempt_id: &str,
    ) -> (r: Result<PaymentAttempt, StorageError>)
        requires
            self.wf(),
        ensures
            match r {
                Ok(row) => has_key(
                    self.attempts@,
                    attempt_key(),
                    (merchant_id@, payment_id@, attempt_id@),
                ) && row == record_at_key(
                    self.attempts@,
                    attempt_key(),
                    (merchant_id@, payment_id@, attempt_id@),
                ),
                Err(e) => e == StorageError::NotFound && !has_key(
                    self.attempts@,
                    attempt_key(),
                    (merchant_id@, payment_id@, attempt_id@),
                ),
            },
    {
        match find_attempt_idx(&self.attempts, merchant_id, payment_id, attempt_id) {
            Some(i) => {
                proof {
                    lemma_index_of_key_unique(
                        self.attempts@,
                        attempt_key(),
                        (merchant_id@, payment_id@, attempt_id@),
                        i as int,
                    );
                }
                Ok(self.attempts[i].clone())
            },
            None => Err(StorageError::NotFound),
        }
    }

    /// Applies one named changeset to the attempt with the given identity.
    pub fn update_payment_attempt(
        &mut self,
        payment_id: &str,
        merchant_id: &str,
        attempt_id: &str,
        update: &PaymentAttemptUpdate,
    ) -> (r: Result<PaymentAttempt, StorageError>)
        requires
            old(self).wf(),
        ensures
            final(self).wf(),
            only_attempts_changed(*old(self), *final(self)),
            match r {
                Ok(row) => {
                    let k = (merchant_id@, payment_id@, attempt_id@);
                    &&& has_key(old(self).attempts@, attempt_key(), k)
                    &&& row == spec_apply_attempt_update(
                        record_at_key(old(self).attempts@, attempt_key(), k),
                        *update,
                    )
                    &&& final(self).attempts@ == old(self).attempts@.update(
                        index_of_key(old(self).attempts@, attempt_key(), k),
                        row,
                    )
                },
                Err(e) => e == StorageError::NotFound && !has_key(
                    old(self).attempts@,
                    attempt_key(),
                    (merchant_id@, payment_id@, attempt_id@),
                ) && *final(self) == *old(self),
            },
    {
        match find_attempt_idx(&self.attempts, merchant_id, payment_id, attempt_id) {
            Some(i) => {
                proof {
                    lemma_index_of_key_unique(
                        self.attempts@,
                        attempt_key(),
                        (merchant_id@, payment_id@, attempt_id@),
                        i as int,
                    );
                }
                let row = apply_attempt_update(&self.attempts[i], update);
                let out = row.clone();
                proof {
                    lemma_update_preserves_unique(self.attempts@, attempt_key(), i as int, row);
                }
                self.attempts.set(i, row);
                Ok(out)
            },
            None => Err(StorageError::NotFound),
        }
    }

    /// Inserts a new refund; refuses an existing identity.
    pub fn insert_refund(&mut self, new: RefundNew, now: i64) -> (r: Result<Refund, StorageError>)
        requires
            old(self).wf(),
        ensures
            final(self).wf(),
            only_refunds_changed(*old(self), *final(self)),
            match r {
                Ok(row) => !has_key(
                    old(self).refunds@,
                    refund_key(),
                    (new.merchant_id@, new.refund_id@),
                ) && row == spec_build_refund(new, now) && final(self).refunds@ == old(
                    self,
                ).refunds@.push(row),
                Err(e) => e == StorageError::DuplicateRecord && has_key(
                    old(self).refunds@,
                    refund_key(),
                    (new.merchant_id@, new.refund_id@),
                ) && *final(self) == *old(self),
            },
    {
        if find_refund_idx(&self.refunds, new.merchant_id.as_str(), new.refund_id.as_str())
            .is_some() {
            return Err(StorageError::DuplicateRecord);
        }
        let row = build_refund(new, now);
        let out = row.clone();
        proof {
            lemma_push_preserves_unique(self.refunds@, refund_key(), row);
        }
        self.refunds.push(row);
        Ok(out)
    }

    /// Finds the refund with the given identity.
    pub fn find_refund(&self, refund_id: &str, merchant_id: &str) -> (r: Result<
        Refund,
        StorageError,
    >)
        requires
            self.wf(),
        ensures
            match r {
                Ok(row) => has_key(self.refunds@, refund_key(), (merchant_id@, refund_id@)) && row
                    == record_at_key(self.refunds@, refund_key(), (merchant_id@, refund_id@)),
                Err(e) => e == StorageError::NotFound && !has_key(
                    self.refunds@,
                    refund_key(),
                    (merchant_id@, refund_id@),
                ),
            },
    {
        match find_refund_idx(&self.refunds, merchant_id, refund_id) {
            Some(i) => {
                proof {
                    lemma_index_of_key_unique(
                        self.refunds@,
                        refund_key(),
                        (merchant_id@, refund_id@),
                        i as int,
                    );
                }
                Ok(self.refunds[i].clone())
            },
            None => Err(StorageError::NotFound),
        }
    }

    /// Applies one named changeset to the refund with the given identity.
    pub fn update_refund(
        &mut self,
        refund_id: &str,
        merchant_id: &str,
        update: &RefundUpdate,
    ) -> (r: Result<Refund, StorageError>)
        requires
            old(self).wf(),
        ensures
            final(self).wf(),
            only_refunds_changed(*old(self), *final(self)),
            match r {
                Ok(row) => {
                    let k = (merchant_id@, refund_id@);
                    &&& has_key(old(self).refunds@, refund_key(), k)
                    &&& row == spec_apply_refund_update(
                        record_at_key(old(self).refunds@, refund_key(), k),
                        *update,
                    )
                    &&& final(self).refunds@ == old(self).refunds@.update(
                        index_of_key(old(self).refunds@, refund_key(), k),
                        row,
                    )
                },
                Err(e) => e == StorageError::NotFound && !has_key(
                    old(self).refunds@,
                    refund_key(),
                    (merchant_id@, refund_id@),
                ) && *final(self) == *old(self),
            },
    {
        match find_refund_idx(&self.refunds, merchant_id, refund_id) {
            Some(i) => {
                proof {
                    lemma_index_of_key_unique(
                        self.refunds@,
                        refund_key(),
                        (merchant_id@, refund_id@),
                        i as int,
                    );
                }
                let row = apply_refund_update(&self.refunds[i], update);
                let out = row.clone();
                proof {
                    lemma_update_preserves_unique(self.refunds@, refund_key(), i as int, row);
                }
                self.refunds.set(i, row);
                Ok(out)
            },
            None => Err(StorageError::NotFound),
        }
    }

    /// Total amount the refunds of one payment have already consumed.
    pub fn refunded_amount(&self, payment_id: &str, merchant_id: &str) -> (r: i128)
        ensures
            r == spec_refund_sum(self.refunds@, merchant_id@, payment_id@),
            -0xffff_ffff_ffff_ffff * 0x8000_0000_0000_0000 <= r <= 0xffff_ffff_ffff_ffff
                * 0x7fff_ffff_ffff_ffff,
    {
        let table = &self.refunds;
        let mut acc: i128 = 0;
        let mut i: usize = 0;
        while i < table.len()
            invariant
                i <= table@.len(),
                acc == spec_refund_sum(table@.take(i as int), merchant_id@, payment_id@),
                -(i as int) * 0x8000_0000_0000_0000 <= acc <= (i as int) * 0x7fff_ffff_ffff_ffff,
            decreases table@.len() - i,
        {
            let counted = str_eq(table[i].merchant_id.as_str(), merchant_id) && str_eq(
                table[i].payment_id.as_str(),
                payment_id,
            ) && !matches!(
                table[i].status,
                crate::status::RefundStatus::Failure | crate::status::RefundStatus::TransactionFailure
            );
            proof {
                assert(table@.take(i + 1).drop_last() =~= table@.take(i as int));
                assert(table@.take(i + 1).last() == table@[i as int]);
            }
            if counted {
                acc = acc + table[i].amount as i128;
            }
            i += 1;
        }
        proof {
            assert(table@.take(table@.len() as int) =~= table@);
            assert(i <= 0xffff_ffff_ffff_ffff);
        }
        acc
    }

    /// Inserts a new customer; refuses an existing identity.
    pub fn insert_customer(&mut self, new: Customer) -> (r: Result<Customer, StorageError>)
        requires
            old(self).wf(),
        ensures
            final(self).wf(),
            only_customers_changed(*old(self), *final(self)),
            match r {
                Ok(row) => !has_key(
                    old(self).customers@,
                    customer_key(),
                    (new.merchant_id@, new.customer_id@),
                ) && row == new && final(self).customers@ == old(self).customers@.push(new),
                Err(e) => e == StorageError::DuplicateRecord && has_key(
                    old(self).customers@,
                    customer_key(),
                    (new.merchant_id@, new.customer_id@),
                ) && *final(self) == *old(self),
            },
    {
        if find_customer_idx(&self.customers, new.merchant_id.as_str(), new.customer_id.as_str())
            .is_some() {
            return Err(StorageError::DuplicateRecord);
        }
        let out = new.clone();
        proof {
            lemma_push_preserves_unique(self.customers@, customer_key(), new);
        }
        self.customers.push(new);
        Ok(out)
    }

    /// Finds the customer with the given identity.
    pub fn find_customer(&self, customer_id: &str, merchant_id: &str) -> (r: Result<
        Customer,
        StorageError,
    >)
        requires
            self.wf(),
        ensures
            match r {
                Ok(row) => has_key(self.customers@, customer_key(), (merchant_id@, customer_id@))
                    && row == record_at_key(
                    self.customers@,
                    customer_key(),
                    (merchant_id@, customer_id@),
                ),
                Err(e) => e == StorageError::NotFound && !has_key(
                    self.customers@,
                    customer_key(),
                    (merchant_id@, customer_id@),
                ),
            },
    {
        match find_customer_idx(&self.customers, merchant_id, customer_id) {
            Some(i) => {
                proof {
                    lemma_index_of_key_unique(
                        self.customers@,
                        customer_key(),
                        (merchant_id@, customer_id@),
                        i as int,
                    );
                }
                Ok(self.customers[i].clone())
            },
            None => Err(StorageError::NotFound),
        }
    }

    /// Inserts a connector-response placeholder; refuses an existing identity.
    pub fn insert_connector_response(&mut self, new: ConnectorResponse) -> (r: Result<
        ConnectorResponse,
        StorageError,
    >)
        requires
            old(self).wf(),
        ensures
            final(self).wf(),
            only_connector_responses_changed(*old(self), *final(self)),
            match r {
                Ok(row) => !has_key(
                    old(self).connector_responses@,
                    connector_response_key(),
                    (new.merchant_id@, new.payment_id@, new.attempt_id@),
                ) && row == new && final(self).connector_responses@ == old(
                    self,
                ).connector_responses@.push(new),
                Err(e) => e == StorageError::DuplicateRecord && has_key(
                    old(self).connector_responses@,
                    connector_response_key(),
                    (new.merchant_id@, new.payment_id@, new.attempt_id@),
                ) && *final(self) == *old(self),
            },
    {
        if find_connector_response_idx(
            &self.connector_responses,
            new.merchant_id.as_str(),
            new.payment_id.as_str(),
            new.attempt_id.as_str(),
        ).is_some() {
            return Err(StorageError::DuplicateRecord);
        }
        let out = new.clone();
        proof {
            lemma_push_preserves_unique(
                self.connector_responses@,
                connector_response_key(),
                new,
            );
        }
        self.connector_responses.push(new);
        Ok(out)
    }
}

} // verus!
