//! The replication change stream and its drainer.
//!
//! Every cache-path mutation appends one entry to the shard owning the
//! record's business id. An entry carries the full resulting row, so it can
//! be replayed against the relational store without consulting other state:
//! the equivalent relational statement is an upsert of that row. Replaying
//! an entry is idempotent, and replaying a shard in order makes the
//! relational store reflect the last write per business id.

use vstd::prelude::*;

use crate::entities::{ConnectorResponse, PaymentAttempt, PaymentIntent, PaymentIntentNew, Refund};
use crate::entities::spec_build_intent;
use crate::keys::{
    attempt_key, connector_response_key, has_key, index_of_key, intent_key,
    lemma_index_of_key_unique, lemma_push_preserves_lookup, lemma_push_preserves_unique,
    lemma_update_preserves_lookup, lemma_update_preserves_unique, record_at_key, refund_key,
    str_eq, unique_keys,
};
use crate::relational::{RelationalStore, RelModel};

verus! {

/// One pending relational mutation, carrying the full row it produces.
pub enum StreamMutation {
    UpsertIntent(PaymentIntent),
    UpsertAttempt(PaymentAttempt),
    UpsertRefund(Refund),
    UpsertConnectorResponse(ConnectorResponse),
}

impl Clone for StreamMutation {
    fn clone(&self) -> (r: Self)
        ensures
            r == *self,
    {
        match self {
            StreamMutation::UpsertIntent(row) => StreamMutation::UpsertIntent(row.clone()),
            StreamMutation::UpsertAttempt(row) => StreamMutation::UpsertAttempt(row.clone()),
            StreamMutation::UpsertRefund(row) => StreamMutation::UpsertRefund(row.clone()),
            StreamMutation::UpsertConnectorResponse(row) => StreamMutation::UpsertConnectorResponse(
                row.clone(),
            ),
        }
    }
}

/// One change-stream entry: a per-shard id and the mutation it replays.
pub struct StreamEntry {
    pub entry_id: u64,
    pub mutation: StreamMutation,
}

impl Clone for StreamEntry {
    fn clone(&self) -> (r: Self)
        ensures
            r == *self,
    {
        StreamEntry { entry_id: self.entry_id, mutation: self.mutation.clone() }
    }
}

/// Upsert of a full intent row: replace the row with the same identity, or
/// append the row if the identity is new.
pub open spec fn spec_upsert_intent(s: Seq<PaymentIntent>, row: PaymentIntent) -> Seq<
    PaymentIntent,
> {
    let k = intent_key()(row);
    if has_key(s, intent_key(), k) {
        s.update(index_of_key(s, intent_key(), k), row)
    } else {
        s.push(row)
    }
}

/// Upsert of a full attempt row.
pub open spec fn spec_upsert_attempt(s: Seq<PaymentAttempt>, row: PaymentAttempt) -> Seq<
    PaymentAttempt,
> {
    let k = attempt_key()(row);
    if has_key(s, attempt_key(), k) {
        s.update(index_of_key(s, attempt_key(), k), row)
    } else {
        s.push(row)
    }
}

/// Upsert of a full refund row.
pub open spec fn spec_upsert_refund(s: Seq<Refund>, row: Refund) -> Seq<Refund> {
    let k = refund_key()(row);
    if has_key(s, refund_key(), k) {
        s.update(index_of_key(s, refund_key(), k), row)
    } else {
        s.push(row)
    }
}

/// Upsert of a full connector-response row.
pub open spec fn spec_upsert_connector_response(
    s: Seq<ConnectorResponse>,
    row: ConnectorResponse,
) -> Seq<ConnectorResponse> {
    let k = connector_response_key()(row);
    if has_key(s, connector_response_key(), k) {
        s.update(index_of_key(s, connector_response_key(), k), row)
    } else {
        s.push(row)
    }
}

/// The relational state one mutation produces.
pub open spec fn spec_apply_mutation(m: RelModel, mu: StreamMutation) -> RelModel {
    match mu {
        StreamMutation::UpsertIntent(row) => RelModel {
            intents: spec_upsert_intent(m.intents, row),
            ..m
        },
        StreamMutation::UpsertAttempt(row) => RelModel {
            attempts: spec_upsert_attempt(m.attempts, row),
            ..m
        },
        StreamMutation::UpsertRefund(row) => RelModel {
            refunds: spec_upsert_refund(m.refunds, row),
            ..m
        },
        StreamMutation::UpsertConnectorResponse(row) => RelModel {
            connector_responses: spec_upsert_connector_response(m.connector_responses, row),
            ..m
        },
    }
}

/// The relational state a whole sequence of mutations produces, applied in
/// order.
pub open spec fn spec_drain(m: RelModel, entries: Seq<StreamMutation>) -> RelModel
    decreases entries.len(),
{
    if entries.len() == 0 {
        m
    } else {
        spec_drain(spec_apply_mutation(m, entries.first()), entries.drop_first())
    }
}

/// Upserting a row keeps keys unique and leaves the row at its key.
proof fn lemma_upsert_intent(s: Seq<PaymentIntent>, row: PaymentIntent)
    requires
        unique_keys(s, intent_key()),
    ensures
        unique_keys(spec_upsert_intent(s, row), intent_key()),
        has_key(spec_upsert_intent(s, row), intent_key(), intent_key()(row)),
        record_at_key(spec_upsert_intent(s, row), intent_key(), intent_key()(row)) == row,
{
    let k = intent_key()(row);
    let s1 = spec_upsert_intent(s, row);
    if has_key(s, intent_key(), k) {
        let i = index_of_key(s, intent_key(), k);
        assert(0 <= i < s.len() && intent_key()(s[i]) == k);
        lemma_update_preserves_unique(s, intent_key(), i, row);
        assert(s1[i] == row);
        assert(has_key(s1, intent_key(), k));
        lemma_index_of_key_unique(s1, intent_key(), k, i);
    } else {
        lemma_push_preserves_unique(s, intent_key(), row);
        assert(s1[s.len() as int] == row);
        assert(has_key(s1, intent_key(), k));
        lemma_index_of_key_unique(s1, intent_key(), k, s.len() as int);
    }
}

/// Applying one mutation keeps the relational model well-formed.
pub proof fn lemma_apply_mutation_wf(m: RelModel, mu: StreamMutation)
    requires
        m.wf(),
    ensures
        spec_apply_mutation(m, mu).wf(),
{
    match mu {
        StreamMutation::UpsertIntent(row) => {
            lemma_upsert_intent(m.intents, row);
        },
        StreamMutation::UpsertAttempt(row) => {
            let k = attempt_key()(row);
            if has_key(m.attempts, attempt_key(), k) {
                let i = index_of_key(m.attempts, attempt_key(), k);
                lemma_update_preserves_unique(m.attempts, attempt_key(), i, row);
            } else {
                lemma_push_preserves_unique(m.attempts, attempt_key(), row);
            }
        },
        StreamMutation::UpsertRefund(row) => {
            let k = refund_key()(row);
            if has_key(m.refunds, refund_key(), k) {
                let i = index_of_key(m.refunds, refund_key(), k);
                lemma_update_preserves_unique(m.refunds, refund_key(), i, row);
            } else {
                lemma_push_preserves_unique(m.refunds, refund_key(), row);
            }
        },
        StreamMutation::UpsertConnectorResponse(row) => {
            let k = connector_response_key()(row);
            if has_key(m.connector_responses, connector_response_key(), k) {
                let i = index_of_key(m.connector_responses, connector_response_key(), k);
                lemma_update_preserves_unique(m.connector_responses, connector_response_key(), i, row);
            } else {
                lemma_push_preserves_unique(m.connector_responses, connector_response_key(), row);
            }
        },
    }
}

/// Replaying one change-stream entry twice produces the same relational
/// state as applying it once.
pub proof fn lemma_replay_idempotent(m: RelModel, mu: StreamMutation)
    requires
        m.wf(),
    ensures
        spec_apply_mutation(spec_apply_mutation(m, mu), mu) == spec_apply_mutation(m, mu),
{
    lemma_apply_mutation_wf(m, mu);
    let m1 = spec_apply_mutation(m, mu);
    match mu {
        StreamMutation::UpsertIntent(row) => {
            let k = intent_key()(row);
            lemma_upsert_intent(m.intents, row);
            let i = index_of_key(m1.intents, intent_key(), k);
            assert(m1.intents[i] == row);
            assert(spec_upsert_intent(m1.intents, row) =~= m1.intents.update(i, row));
            assert(m1.intents.update(i, row) =~= m1.intents);
        },
        StreamMutation::UpsertAttempt(row) => {
            let k = attempt_key()(row);
            if has_key(m.attempts, attempt_key(), k) {
                let i = index_of_key(m.attempts, attempt_key(), k);
                lemma_update_preserves_unique(m.attempts, attempt_key(), i, row);
                assert(m1.attempts[i] == row);
                assert(has_key(m1.attempts, attempt_key(), k));
                lemma_index_of_key_unique(m1.attempts, attempt_key(), k, i);
                assert(m1.attempts.update(i, row) =~= m1.attempts);
            } else {
                lemma_push_preserves_unique(m.attempts, attempt_key(), row);
                let i = m.attempts.len() as int;
                assert(m1.attempts[i] == row);
                assert(has_key(m1.attempts, attempt_key(), k));
                lemma_index_of_key_unique(m1.attempts, attempt_key(), k, i);
                assert(m1.attempts.update(i, row) =~= m1.attempts);
            }
        },
        StreamMutation::UpsertRefund(row) => {
            let k = refund_key()(row);
            if has_key(m.refunds, refund_key(), k) {
                let i = index_of_key(m.refunds, refund_key(), k);
                lemma_update_preserves_unique(m.refunds, refund_key(), i, row);
                assert(m1.refunds[i] == row);
                assert(has_key(m1.refunds, refund_key(), k));
                lemma_index_of_key_unique(m1.refunds, refund_key(), k, i);
                assert(m1.refunds.update(i, row) =~= m1.refunds);
            } else {
                lemma_push_preserves_unique(m.refunds, refund_key(), row);
                let i = m.refunds.len() as int;
                assert(m1.refunds[i] == row);
                assert(has_key(m1.refunds, refund_key(), k));
                lemma_index_of_key_unique(m1.refunds, refund_key(), k, i);
                assert(m1.refunds.update(i, row) =~= m1.refunds);
            }
        },
        StreamMutation::UpsertConnectorResponse(row) => {
            let k = connector_response_key()(row);
            if has_key(m.connector_responses, connector_response_key(), k) {
                let i = index_of_key(m.connector_responses, connector_response_key(), k);
                lemma_update_preserves_unique(m.connector_responses, connector_response_key(), i, row);
                assert(m1.connector_responses[i] == row);
                assert(has_key(m1.connector_responses, connector_response_key(), k));
                lemma_index_of_key_unique(m1.connector_responses, connector_response_key(), k, i);
                assert(m1.connector_responses.update(i, row) =~= m1.connector_responses);
            } else {
                lemma_push_preserves_unique(m.connector_responses, connector_response_key(), row);
                let i = m.connector_responses.len() as int;
                assert(m1.connector_responses[i] == row);
                assert(has_key(m1.connector_responses, connector_response_key(), k));
                lemma_index_of_key_unique(m1.connector_responses, connector_response_key(), k, i);
                assert(m1.connector_responses.update(i, row) =~= m1.connector_responses);
            }
        },
    }
}

/// Round trip of one logical write: the row the cached path makes resident
/// in the cache is `spec_build_intent(new, now)`, exactly the row the strict
/// path would persist for the same draft; and replaying the change-stream
/// entry the cached path appended leaves the relational store holding that
/// same row, field for field, under the write's identity.
pub proof fn lemma_cache_relational_round_trip(m: RelModel, new: PaymentIntentNew, now: i64)
    requires
        m.wf(),
    ensures
        ({
            let row = spec_build_intent(new, now);
            let m1 = spec_apply_mutation(m, StreamMutation::UpsertIntent(row));
            &&& m1.wf()
            &&& has_key(m1.intents, intent_key(), intent_key()(row))
            &&& record_at_key(m1.intents, intent_key(), intent_key()(row)) == row
        }),
{
    lemma_upsert_intent(m.intents, spec_build_intent(new, now));
}

/// Whether a mutation writes the intent with identity `k`.
pub open spec fn touches_intent(mu: StreamMutation, k: (Seq<char>, Seq<char>)) -> bool {
    mu matches StreamMutation::UpsertIntent(row) && intent_key()(row) == k
}

/// A mutation that does not write intent `k` leaves that intent's relational
/// row exactly as it was.
proof fn lemma_apply_preserves_other_intent(m: RelModel, mu: StreamMutation, k: (Seq<char>, Seq<char>))
    requires
        m.wf(),
        !touches_intent(mu, k),
        has_key(m.intents, intent_key(), k),
    ensures
        has_key(spec_apply_mutation(m, mu).intents, intent_key(), k),
        record_at_key(spec_apply_mutation(m, mu).intents, intent_key(), k) == record_at_key(
            m.intents,
            intent_key(),
            k,
        ),
{
    match mu {
        StreamMutation::UpsertIntent(row) => {
            let rk = intent_key()(row);
            if has_key(m.intents, intent_key(), rk) {
                let i = index_of_key(m.intents, intent_key(), rk);
                lemma_update_preserves_lookup(m.intents, intent_key(), i, row, k);
            } else {
                lemma_push_preserves_lookup(m.intents, intent_key(), row, k);
            }
        },
        _ => {},
    }
}

/// After draining entries none of which writes intent `k`, that intent's
/// relational row is exactly what it was before.
pub proof fn lemma_drain_preserves_untouched_intent(
    m: RelModel,
    entries: Seq<StreamMutation>,
    k: (Seq<char>, Seq<char>),
)
    requires
        m.wf(),
        has_key(m.intents, intent_key(), k),
        forall|i: int| 0 <= i < entries.len() ==> !touches_intent(#[trigger] entries[i], k),
    ensures
        spec_drain(m, entries).wf(),
        has_key(spec_drain(m, entries).intents, intent_key(), k),
        record_at_key(spec_drain(m, entries).intents, intent_key(), k) == record_at_key(
            m.intents,
            intent_key(),
            k,
        ),
    decreases entries.len(),
{
    if entries.len() > 0 {
        let mu = entries.first();
        assert(!touches_intent(mu, k));
        lemma_apply_mutation_wf(m, mu);
        lemma_apply_preserves_other_intent(m, mu, k);
        lemma_drain_preserves_untouched_intent(spec_apply_mutation(m, mu), entries.drop_first(), k);
        assert(forall|i: int|
            0 <= i < entries.drop_first().len() ==> !touches_intent(
                #[trigger] entries.drop_first()[i],
                k,
            ));
    }
}

/// Shard ordering gives last-write-wins per business id: when position `p`
/// holds the last write of intent `k` in a shard, the relational store
/// reflects exactly that row after the whole shard is drained in order.
pub proof fn lemma_drain_last_write_wins(
    m: RelModel,
    entries: Seq<StreamMutation>,
    p: int,
    row: PaymentIntent,
)
    requires
        m.wf(),
        0 <= p < entries.len(),
        entries[p] == StreamMutation::UpsertIntent(row),
        forall|j: int|
            p < j < entries.len() ==> !touches_intent(#[trigger] entries[j], intent_key()(row)),
    ensures
        spec_drain(m, entries).wf(),
        has_key(spec_drain(m, entries).intents, intent_key(), intent_key()(row)),
        record_at_key(spec_drain(m, entries).intents, intent_key(), intent_key()(row)) == row,
    decreases entries.len(),
{
    let mu = entries.first();
    lemma_apply_mutation_wf(m, mu);
    let m1 = spec_apply_mutation(m, mu);
    if p == 0 {
        lemma_upsert_intent(m.intents, row);
        lemma_drain_preserves_untouched_intent(m1, entries.drop_first(), intent_key()(row));
        assert(forall|i: int|
            0 <= i < entries.drop_first().len() ==> !touches_intent(
                #[trigger] entries.drop_first()[i],
                intent_key()(row),
            ));
    } else {
        lemma_drain_last_write_wins(m1, entries.drop_first(), p - 1, row);
        assert(entries.drop_first()[p - 1] == entries[p]);
        assert(forall|j: int|
            p - 1 < j < entries.drop_first().len() ==> !touches_intent(
                #[trigger] entries.drop_first()[j],
                intent_key()(row),
            ));
    }
}

/// Applies one change-stream entry to the relational store: the equivalent
/// relational statement, an upsert of the carried row.
pub fn apply_stream_entry(rel: &mut RelationalStore, e: &StreamEntry)
    requires
        old(rel).wf(),
    ensures
        final(rel).wf(),
        final(rel)@ == spec_apply_mutation(old(rel)@, e.mutation),
{
    proof {
        lemma_apply_mutation_wf(rel@, e.mutation);
    }
    match &e.mutation {
        StreamMutation::UpsertIntent(row) => {
            upsert_intent_row(&mut rel.intents, row);
        },
        StreamMutation::UpsertAttempt(row) => {
            upsert_attempt_row(&mut rel.attempts, row);
        },
        StreamMutation::UpsertRefund(row) => {
            upsert_refund_row(&mut rel.refunds, row);
        },
        StreamMutation::UpsertConnectorResponse(row) => {
            upsert_connector_response_row(&mut rel.connector_responses, row);
        },
    }
}

/// Replays one shard of the change stream against the relational store, in
/// order.
pub fn drain_shard(rel: &mut RelationalStore, shard: &Vec<StreamEntry>)
    requires
        old(rel).wf(),
    ensures
        final(rel).wf(),
        final(rel)@ == spec_drain(old(rel)@, shard@.map_values(|e: StreamEntry| e.mutation)),
{
    let ghost ms = shard@.map_values(|e: StreamEntry| e.mutation);
    proof {
        assert(ms.skip(0) =~= ms);
    }
    let mut i: usize = 0;
    while i < shard.len()
        invariant
            i <= shard@.len(),
            ms == shard@.map_values(|e: StreamEntry| e.mutation),
            rel.wf(),
            spec_drain(rel@, ms.skip(i as int)) == spec_drain(old(rel)@, ms),
        decreases shard@.len() - i,
    {
        proof {
            assert(ms.skip(i as int).first() == shard@[i as int].mutation);
            assert(ms.skip(i as int).drop_first() =~= ms.skip(i + 1));
        }
        apply_stream_entry(rel, &shard[i]);
        i += 1;
    }
    proof {
        assert(ms.skip(i as int) =~= Seq::<StreamMutation>::empty());
    }
}

fn upsert_intent_row(table: &mut Vec<PaymentIntent>, row: &PaymentIntent)
    requires
        unique_keys(old(table)@, intent_key()),
    ensures
        final(table)@ == spec_upsert_intent(old(table)@, *row),
{
    let mut i: usize = 0;
    while i < table.len()
        invariant
            i <= table@.len(),
            table@ == old(table)@,
            unique_keys(table@, intent_key()),
            forall|j: int| 0 <= j < i ==> intent_key()(table@[j]) != intent_key()(*row),
        decreases table@.len() - i,
    {
        if str_eq(table[i].merchant_id.as_str(), row.merchant_id.as_str()) && str_eq(
            table[i].payment_id.as_str(),
            row.payment_id.as_str(),
        ) {
            proof {
                lemma_index_of_key_unique(table@, intent_key(), intent_key()(*row), i as int);
            }
            table.set(i, row.clone());
            return ;
        }
        i += 1;
    }
    table.push(row.clone());
}

fn upsert_attempt_row(table: &mut Vec<PaymentAttempt>, row: &PaymentAttempt)
    requires
        unique_keys(old(table)@, attempt_key()),
    ensures
        final(table)@ == spec_upsert_attempt(old(table)@, *row),
{
    let mut i: usize = 0;
    while i < table.len()
        invariant
            i <= table@.len(),
            table@ == old(table)@,
            unique_keys(table@, attempt_key()),
            forall|j: int| 0 <= j < i ==> attempt_key()(table@[j]) != attempt_key()(*row),
        decreases table@.len() - i,
    {
        if str_eq(table[i].merchant_id.as_str(), row.merchant_id.as_str()) && str_eq(
            table[i].payment_id.as_str(),
            row.payment_id.as_str(),
        ) && str_eq(table[i].attempt_id.as_str(), row.attempt_id.as_str()) {
            proof {
                lemma_index_of_key_unique(table@, attempt_key(), attempt_key()(*row), i as int);
            }
            table.set(i, row.clone());
            return ;
        }
        i += 1;
    }
    table.push(row.clone());
}

fn upsert_refund_row(table: &mut Vec<Refund>, row: &Refund)
    requires
        unique_keys(old(table)@, refund_key()),
    ensures
        final(table)@ == spec_upsert_refund(old(table)@, *row),
{
    let mut i: usize = 0;
    while i < table.len()
        invariant
            i <= table@.len(),
            table@ == old(table)@,
            unique_keys(table@, refund_key()),
            forall|j: int| 0 <= j < i ==> refund_key()(table@[j]) != refund_key()(*row),
        decreases table@.len() - i,
    {
        if str_eq(table[i].merchant_id.as_str(), row.merchant_id.as_str()) && str_eq(
            table[i].refund_id.as_str(),
            row.refund_id.as_str(),
        ) {
            proof {
                lemma_index_of_key_unique(table@, refund_key(), refund_key()(*row), i as int);
            }
            table.set(i, row.clone());
            return ;
        }
        i += 1;
    }
    table.push(row.clone());
}

fn upsert_connector_response_row(table: &mut Vec<ConnectorResponse>, row: &ConnectorResponse)
    requires
        unique_keys(old(table)@, connector_response_key()),
    ensures
        final(table)@ == spec_upsert_connector_response(old(table)@, *row),
{
    let mut i: usize = 0;
    while i < table.len()
        invariant
            i <= table@.len(),
            table@ == old(table)@,
            unique_keys(table@, connector_response_key()),
            forall|j: int|
                0 <= j < i ==> connector_response_key()(table@[j]) != connector_response_key()(
                    *row,
                ),
        decreases table@.len() - i,
    {
        if str_eq(table[i].merchant_id.as_str(), row.merchant_id.as_str()) && str_eq(
            table[i].payment_id.as_str(),
            row.payment_id.as_str(),
        ) && str_eq(table[i].attempt_id.as_str(), row.attempt_id.as_str()) {
            proof {
                lemma_index_of_key_unique(
                    table@,
                    connector_response_key(),
                    connector_response_key()(*row),
                    i as int,
                );
            }
            table.set(i, row.clone());
            return ;
        }
        i += 1;
    }
    table.push(row.clone());
}

} // verus!
