//! Entity status enums and their finite state machines.
//!
//! Each entity (payment intent, payment attempt, refund) carries a status
//! drawn from a closed set. A status either admits further transitions or is
//! terminal; no legal transition leaves a terminal status.

use vstd::prelude::*;

verus! {

/// Lifecycle status of a payment intent.
#[derive(Clone, Copy, Debug, PartialEq, Eq, Structural)]
pub enum IntentStatus {
    RequiresPaymentMethod,
    RequiresConfirmation,
    RequiresCapture,
    Processing,
    Succeeded,
    Failed,
    Cancelled,
}

/// Lifecycle status of a payment attempt.
#[derive(Clone, Copy, Debug, PartialEq, Eq, Structural)]
pub enum AttemptStatus {
    Started,
    Pending,
    AuthenticationFailed,
    Failed,
    Charged,
}

/// Lifecycle status of a refund as the storage layer records it.
#[derive(Clone, Copy, Debug, PartialEq, Eq, Structural)]
pub enum RefundStatus {
    Pending,
    ManualReview,
    Success,
    Failure,
    TransactionFailure,
}

/// Storage-scheme selector, resolved per merchant before every storage call.
#[derive(Clone, Copy, Debug, PartialEq, Eq, Structural)]
pub enum StorageScheme {
    /// Every call goes directly to the relational store.
    Strict,
    /// Writes go to the cache and are replicated through the change stream.
    Cached,
}

/// ISO currency of an amount, in its lowest denomination.
#[derive(Clone, Copy, Debug, PartialEq, Eq, Structural)]
pub enum Currency {
    USD,
    EUR,
    GBP,
    INR,
    JPY,
}

impl Default for Currency {
    fn default() -> (r: Self)
        ensures
            r == Currency::USD,
    {
        Currency::USD
    }
}

/// A terminal intent status admits no further transition.
pub open spec fn intent_is_terminal(s: IntentStatus) -> bool {
    s == IntentStatus::Succeeded || s == IntentStatus::Failed || s == IntentStatus::Cancelled
}

/// Position of an intent status in the forward-only lifecycle.
pub open spec fn intent_rank(s: IntentStatus) -> int {
    match s {
        IntentStatus::RequiresPaymentMethod => 0,
        IntentStatus::RequiresConfirmation => 1,
        IntentStatus::RequiresCapture => 2,
        IntentStatus::Processing => 3,
        IntentStatus::Succeeded => 4,
        IntentStatus::Failed => 4,
        IntentStatus::Cancelled => 4,
    }
}

/// Legal intent transition: the status only moves forward, and never out of
/// a terminal status.
pub open spec fn intent_edge(from: IntentStatus, to: IntentStatus) -> bool {
    !intent_is_terminal(from) && intent_rank(from) < intent_rank(to)
}

/// Runtime check for `intent_is_terminal`.
pub fn is_intent_terminal(s: IntentStatus) -> (r: bool)
    ensures
        r == intent_is_terminal(s),
{
    matches!(s, IntentStatus::Succeeded | IntentStatus::Failed | IntentStatus::Cancelled)
}

/// Runtime check for `intent_edge`.
pub fn intent_transition_allowed(from: IntentStatus, to: IntentStatus) -> (r: bool)
    ensures
        r == intent_edge(from, to),
{
    let from_rank: u8 = intent_rank_exec(from);
    let to_rank: u8 = intent_rank_exec(to);
    !is_intent_terminal(from) && from_rank < to_rank
}

fn intent_rank_exec(s: IntentStatus) -> (r: u8)
    ensures
        r as int == intent_rank(s),
{
    match s {
        IntentStatus::RequiresPaymentMethod => 0,
        IntentStatus::RequiresConfirmation => 1,
        IntentStatus::RequiresCapture => 2,
        IntentStatus::Processing => 3,
        IntentStatus::Succeeded => 4,
        IntentStatus::Failed => 4,
        IntentStatus::Cancelled => 4,
    }
}

/// A terminal attempt status admits no further transition.
pub open spec fn attempt_is_terminal(s: AttemptStatus) -> bool {
    s == AttemptStatus::AuthenticationFailed || s == AttemptStatus::Failed || s
        == AttemptStatus::Charged
}

/// Legal attempt transition: started attempts become pending, pending
/// attempts settle into exactly one terminal outcome.
pub open spec fn attempt_edge(from: AttemptStatus, to: AttemptStatus) -> bool {
    ||| (from == AttemptStatus::Started && to == AttemptStatus::Pending)
    ||| (from == AttemptStatus::Pending && attempt_is_terminal(to))
}

/// Runtime check for `attempt_is_terminal`.
pub fn is_attempt_terminal(s: AttemptStatus) -> (r: bool)
    ensures
        r == attempt_is_terminal(s),
{
    matches!(
        s,
        AttemptStatus::AuthenticationFailed | AttemptStatus::Failed | AttemptStatus::Charged
    )
}

/// Runtime check for `attempt_edge`.
pub fn attempt_transition_allowed(from: AttemptStatus, to: AttemptStatus) -> (r: bool)
    ensures
        r == attempt_edge(from, to),
{
    match (from, to) {
        (AttemptStatus::Started, AttemptStatus::Pending) => true,
        (AttemptStatus::Pending, t) => is_attempt_terminal(t),
        _ => false,
    }
}

/// A terminal refund status admits no further transition.
pub open spec fn refund_is_terminal(s: RefundStatus) -> bool {
    s == RefundStatus::Success || s == RefundStatus::Failure || s
        == RefundStatus::TransactionFailure
}

/// Legal refund transition: a pending refund settles or goes to manual
/// review; manual review only reachable from pending, and resolves into a
/// terminal outcome.
pub open spec fn refund_edge(from: RefundStatus, to: RefundStatus) -> bool {
    ||| (from == RefundStatus::Pending && (refund_is_terminal(to) || to
        == RefundStatus::ManualReview))
    ||| (from == RefundStatus::ManualReview && refund_is_terminal(to))
}

/// Runtime check for `refund_is_terminal`.
pub fn is_refund_terminal(s: RefundStatus) -> (r: bool)
    ensures
        r == refund_is_terminal(s),
{
    matches!(
        s,
        RefundStatus::Success | RefundStatus::Failure | RefundStatus::TransactionFailure
    )
}

/// Runtime check for `refund_edge`.
pub fn refund_transition_allowed(from: RefundStatus, to: RefundStatus) -> (r: bool)
    ensures
        r == refund_edge(from, to),
{
    match from {
        RefundStatus::Pending => is_refund_terminal(to) || matches!(
            to,
            RefundStatus::ManualReview
        ),
        RefundStatus::ManualReview => is_refund_terminal(to),
        _ => false,
    }
}

/// Status an intent holds after one update request: the requested status
/// when the transition is legal, the prior status otherwise (the update is
/// rejected and changes nothing).
pub open spec fn intent_step(s: IntentStatus, requested: IntentStatus) -> IntentStatus {
    if intent_edge(s, requested) {
        requested
    } else {
        s
    }
}

/// Status an intent holds after a whole sequence of update requests,
/// applied in order.
pub open spec fn intent_run(s: IntentStatus, requests: Seq<IntentStatus>) -> IntentStatus
    decreases requests.len(),
{
    if requests.len() == 0 {
        s
    } else {
        intent_run(intent_step(s, requests.first()), requests.drop_first())
    }
}

/// Analogue of `intent_step` for attempts.
pub open spec fn attempt_step(s: AttemptStatus, requested: AttemptStatus) -> AttemptStatus {
    if attempt_edge(s, requested) {
        requested
    } else {
        s
    }
}

/// Analogue of `intent_run` for attempts.
pub open spec fn attempt_run(s: AttemptStatus, requests: Seq<AttemptStatus>) -> AttemptStatus
    decreases requests.len(),
{
    if requests.len() == 0 {
        s
    } else {
        attempt_run(attempt_step(s, requests.first()), requests.drop_first())
    }
}

/// Analogue of `intent_step` for refunds.
pub open spec fn refund_step(s: RefundStatus, requested: RefundStatus) -> RefundStatus {
    if refund_edge(s, requested) {
        requested
    } else {
        s
    }
}

/// Analogue of `intent_run` for refunds.
pub open spec fn refund_run(s: RefundStatus, requests: Seq<RefundStatus>) -> RefundStatus
    decreases requests.len(),
{
    if requests.len() == 0 {
        s
    } else {
        refund_run(refund_step(s, requests.first()), requests.drop_first())
    }
}

/// Once an intent reaches a terminal status, no sequence of further update
/// requests moves it away from that status.
pub proof fn lemma_intent_terminal_is_final(s: IntentStatus, requests: Seq<IntentStatus>)
    requires
        intent_is_terminal(s),
    ensures
        intent_run(s, requests) == s,
    decreases requests.len(),
{
    if requests.len() > 0 {
        lemma_intent_terminal_is_final(s, requests.drop_first());
    }
}

/// Once an attempt reaches a terminal status, no sequence of further update
/// requests moves it away from that status.
pub proof fn lemma_attempt_terminal_is_final(s: AttemptStatus, requests: Seq<AttemptStatus>)
    requires
        attempt_is_terminal(s),
    ensures
        attempt_run(s, requests) == s,
    decreases requests.len(),
{
    if requests.len() > 0 {
        lemma_attempt_terminal_is_final(s, requests.drop_first());
    }
}

/// Once a refund reaches a terminal status, no sequence of further update
/// requests moves it away from that status.
pub proof fn lemma_refund_terminal_is_final(s: RefundStatus, requests: Seq<RefundStatus>)
    requires
        refund_is_terminal(s),
    ensures
        refund_run(s, requests) == s,
    decreases requests.len(),
{
    if requests.len() > 0 {
        lemma_refund_terminal_is_final(s, requests.drop_first());
    }
}

} // verus!
