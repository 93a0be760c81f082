//! Entity records, their draft (new-row) forms, and the closed set of named
//! changesets through which a persisted row may be mutated.
//!
//! A mutation's effect is fully determined by its changeset variant and
//! payload: each variant has one pure apply function, reused identically by
//! the relational write path and the cache write path.

use vstd::prelude::*;

use crate::status::{AttemptStatus, Currency, IntentStatus, RefundStatus};

verus! {

/// Payment-method kind named by a request.
#[derive(Clone, Copy, Debug, PartialEq, Eq, Structural)]
pub enum PaymentMethodType {
    Card,
    BankTransfer,
    Wallet,
    PayLater,
}

/// Clones an optional owned string, preserving its value.
pub fn clone_opt_string(s: &Option<String>) -> (r: Option<String>)
    ensures
        r == *s,
{
    match s {
        Some(x) => Some(x.clone()),
        None => None,
    }
}

/// Top-level record for one logical payment lifecycle.
/// Identity: (merchant_id, payment_id).
#[derive(Debug)]
pub struct PaymentIntent {
    pub payment_id: String,
    pub merchant_id: String,
    pub status: IntentStatus,
    pub amount: i64,
    pub currency: Currency,
    pub customer_id: Option<String>,
    pub connector_id: Option<String>,
    pub client_secret: Option<String>,
    pub active_attempt_id: Option<String>,
    pub return_url: Option<String>,
    pub metadata: Option<String>,
    pub created_at: i64,
    pub modified_at: i64,
}

impl Clone for PaymentIntent {
    fn clone(&self) -> (r: Self)
        ensures
            r == *self,
    {
        PaymentIntent {
            payment_id: self.payment_id.clone(),
            merchant_id: self.merchant_id.clone(),
            status: self.status,
            amount: self.amount,
            currency: self.currency,
            customer_id: clone_opt_string(&self.customer_id),
            connector_id: clone_opt_string(&self.connector_id),
            client_secret: clone_opt_string(&self.client_secret),
            active_attempt_id: clone_opt_string(&self.active_attempt_id),
            return_url: clone_opt_string(&self.return_url),
            metadata: clone_opt_string(&self.metadata),
            created_at: self.created_at,
            modified_at: self.modified_at,
        }
    }
}

/// Draft of a payment intent, before the store assigns timestamps.
#[derive(Debug)]
pub struct PaymentIntentNew {
    pub payment_id: String,
    pub merchant_id: String,
    pub status: IntentStatus,
    pub amount: i64,
    pub currency: Currency,
    pub customer_id: Option<String>,
    pub connector_id: Option<String>,
    pub client_secret: Option<String>,
    pub active_attempt_id: Option<String>,
    pub return_url: Option<String>,
    pub metadata: Option<String>,
    pub created_at: Option<i64>,
    pub modified_at: Option<i64>,
}

/// The row a draft intent becomes, identically under every storage backend:
/// the draft's fields, with missing timestamps defaulted to `now`.
pub open spec fn spec_build_intent(new: PaymentIntentNew, now: i64) -> PaymentIntent {
    PaymentIntent {
        payment_id: new.payment_id,
        merchant_id: new.merchant_id,
        status: new.status,
        amount: new.amount,
        currency: new.currency,
        customer_id: new.customer_id,
        connector_id: new.connector_id,
        client_secret: new.client_secret,
        active_attempt_id: new.active_attempt_id,
        return_url: new.return_url,
        metadata: new.metadata,
        created_at: if new.created_at is Some {
            new.created_at->0
        } else {
            now
        },
        modified_at: if new.modified_at is Some {
            new.modified_at->0
        } else {
            now
        },
    }
}

/// Materializes a draft intent into the row every backend persists.
pub fn build_intent(new: PaymentIntentNew, now: i64) -> (r: PaymentIntent)
    ensures
        r == spec_build_intent(new, now),
{
    let created_at: i64 = match new.created_at {
        Some(t) => t,
        None => now,
    };
    let modified_at: i64 = match new.modified_at {
        Some(t) => t,
        None => now,
    };
    PaymentIntent {
        payment_id: new.payment_id,
        merchant_id: new.merchant_id,
        status: new.status,
        amount: new.amount,
        currency: new.currency,
        customer_id: new.customer_id,
        connector_id: new.connector_id,
        client_secret: new.client_secret,
        active_attempt_id: new.active_attempt_id,
        return_url: new.return_url,
        metadata: new.metadata,
        created_at,
        modified_at,
    }
}

/// One connector-directed try to fulfil an intent.
/// Identity: (merchant_id, payment_id, attempt_id).
#[derive(Debug)]
pub struct PaymentAttempt {
    pub payment_id: String,
    pub merchant_id: String,
    pub attempt_id: String,
    pub status: AttemptStatus,
    pub amount: i64,
    pub currency: Currency,
    pub connector: Option<String>,
    pub payment_method: Option<PaymentMethodType>,
    pub confirm: bool,
    pub created_at: i64,
    pub modified_at: i64,
}

impl Clone for PaymentAttempt {
    fn clone(&self) -> (r: Self)
        ensures
            r == *self,
    {
        PaymentAttempt {
            payment_id: self.payment_id.clone(),
            merchant_id: self.merchant_id.clone(),
            attempt_id: self.attempt_id.clone(),
            status: self.status,
            amount: self.amount,
            currency: self.currency,
            connector: clone_opt_string(&self.connector),
            payment_method: self.payment_method,
            confirm: self.confirm,
            created_at: self.created_at,
            modified_at: self.modified_at,
        }
    }
}

/// Draft of a payment attempt.
#[derive(Debug)]
pub struct PaymentAttemptNew {
    pub payment_id: String,
    pub merchant_id: String,
    pub attempt_id: String,
    pub status: AttemptStatus,
    pub amount: i64,
    pub currency: Currency,
    pub connector: Option<String>,
    pub payment_method: Option<PaymentMethodType>,
    pub confirm: bool,
    pub created_at: Option<i64>,
    pub modified_at: Option<i64>,
}

/// The row a draft attempt becomes, identically under every storage backend.
pub open spec fn spec_build_attempt(new: PaymentAttemptNew, now: i64) -> PaymentAttempt {
    PaymentAttempt {
        payment_id: new.payment_id,
        merchant_id: new.merchant_id,
        attempt_id: new.attempt_id,
        status: new.status,
        amount: new.amount,
        currency: new.currency,
        connector: new.connector,
        payment_method: new.payment_method,
        confirm: new.confirm,
        created_at: if new.created_at is Some {
            new.created_at->0
        } else {
            now
        },
        modified_at: if new.modified_at is Some {
            new.modified_at->0
        } else {
            now
        },
    }
}

/// Materializes a draft attempt into the row every backend persists.
pub fn build_attempt(new: PaymentAttemptNew, now: i64) -> (r: PaymentAttempt)
    ensures
        r == spec_build_attempt(new, now),
{
    let created_at: i64 = match new.created_at {
        Some(t) => t,
        None => now,
    };
    let modified_at: i64 = match new.modified_at {
        Some(t) => t,
        None => now,
    };
    PaymentAttempt {
        payment_id: new.payment_id,
        merchant_id: new.merchant_id,
        attempt_id: new.attempt_id,
        status: new.status,
        amount: new.amount,
        currency: new.currency,
        connector: new.connector,
        payment_method: new.payment_method,
        confirm: new.confirm,
        created_at,
        modified_at,
    }
}

/// A reversal request against a payment.
/// Identity: (merchant_id, refund_id).
#[derive(Debug)]
pub struct Refund {
    pub refund_id: String,
    pub payment_id: String,
    pub merchant_id: String,
    pub connector: Option<String>,
    pub amount: i64,
    pub currency: Currency,
    pub status: RefundStatus,
    pub reason: Option<String>,
    pub metadata: Option<String>,
    pub error_code: Option<String>,
    pub error_message: Option<String>,
    pub created_at: i64,
    pub modified_at: i64,
}

impl Clone for Refund {
    fn clone(&self) -> (r: Self)
        ensures
            r == *self,
    {
        Refund {
            refund_id: self.refund_id.clone(),
            payment_id: self.payment_id.clone(),
            merchant_id: self.merchant_id.clone(),
            connector: clone_opt_string(&self.connector),
            amount: self.amount,
            currency: self.currency,
            status: self.status,
            reason: clone_opt_string(&self.reason),
            metadata: clone_opt_string(&self.metadata),
            error_code: clone_opt_string(&self.error_code),
            error_message: clone_opt_string(&self.error_message),
            created_at: self.created_at,
            modified_at: self.modified_at,
        }
    }
}

/// Draft of a refund.
#[derive(Debug)]
pub struct RefundNew {
    pub refund_id: String,
    pub payment_id: String,
    pub merchant_id: String,
    pub connector: Option<String>,
    pub amount: i64,
    pub currency: Currency,
    pub status: RefundStatus,
    pub reason: Option<String>,
    pub metadata: Option<String>,
    pub created_at: Option<i64>,
    pub modified_at: Option<i64>,
}

/// The row a draft refund becomes, identically under every storage backend.
pub open spec fn spec_build_refund(new: RefundNew, now: i64) -> Refund {
    Refund {
        refund_id: new.refund_id,
        payment_id: new.payment_id,
        merchant_id: new.merchant_id,
        connector: new.connector,
        amount: new.amount,
        currency: new.currency,
        status: new.status,
        reason: new.reason,
        metadata: new.metadata,
        error_code: None,
        error_message: None,
        created_at: if new.created_at is Some {
            new.created_at->0
        } else {
            now
        },
        modified_at: if new.modified_at is Some {
            new.modified_at->0
        } else {
            now
        },
    }
}

/// Materializes a draft refund into the row every backend persists.
pub fn build_refund(new: RefundNew, now: i64) -> (r: Refund)
    ensures
        r == spec_build_refund(new, now),
{
    let created_at: i64 = match new.created_at {
        Some(t) => t,
        None => now,
    };
    let modified_at: i64 = match new.modified_at {
        Some(t) => t,
        None => now,
    };
    Refund {
        refund_id: new.refund_id,
        payment_id: new.payment_id,
        merchant_id: new.merchant_id,
        connector: new.connector,
        amount: new.amount,
        currency: new.currency,
        status: new.status,
        reason: new.reason,
        metadata: new.metadata,
        error_code: None,
        error_message: None,
        created_at,
        modified_at,
    }
}

/// A customer row tied to a merchant.
/// Identity: (merchant_id, customer_id).
#[derive(Debug)]
pub struct Customer {
    pub customer_id: String,
    pub merchant_id: String,
    pub name: Option<String>,
    pub email: Option<String>,
    pub phone: Option<String>,
    pub phone_country_code: Option<String>,
    pub created_at: i64,
}

impl Clone for Customer {
    fn clone(&self) -> (r: Self)
        ensures
            r == *self,
    {
        Customer {
            customer_id: self.customer_id.clone(),
            merchant_id: self.merchant_id.clone(),
            name: clone_opt_string(&self.name),
            email: clone_opt_string(&self.email),
            phone: clone_opt_string(&self.phone),
            phone_country_code: clone_opt_string(&self.phone_country_code),
            created_at: self.created_at,
        }
    }
}

/// Placeholder row recording that a connector interaction is expected for an
/// attempt. Identity: (merchant_id, payment_id, attempt_id).
#[derive(Debug)]
pub struct ConnectorResponse {
    pub payment_id: String,
    pub merchant_id: String,
    pub attempt_id: String,
    pub connector: String,
    pub created_at: i64,
    pub modified_at: i64,
}

impl Clone for ConnectorResponse {
    fn clone(&self) -> (r: Self)
        ensures
            r == *self,
    {
        ConnectorResponse {
            payment_id: self.payment_id.clone(),
            merchant_id: self.merchant_id.clone(),
            attempt_id: self.attempt_id.clone(),
            connector: self.connector.clone(),
            created_at: self.created_at,
            modified_at: self.modified_at,
        }
    }
}

/// Named changesets of a payment intent: the closed set of mutations the
/// storage interface accepts for this entity.
#[allow(inconsistent_fields)]
pub enum PaymentIntentUpdate {
    /// Move the intent to a new lifecycle status.
    StatusUpdate { status: IntentStatus, modified_at: i64 },
    /// Update the return URL and related enrichment fields; a flow may also
    /// move the status in the same mutation.
    ReturnUrlUpdate {
        return_url: Option<String>,
        status: Option<IntentStatus>,
        customer_id: Option<String>,
        modified_at: i64,
    },
    /// Point the intent at the attempt currently driving it.
    ActiveAttemptUpdate { active_attempt_id: String, modified_at: i64 },
}

impl Clone for PaymentIntentUpdate {
    fn clone(&self) -> (r: Self)
        ensures
            r == *self,
    {
        match self {
            PaymentIntentUpdate::StatusUpdate { status, modified_at } => {
                PaymentIntentUpdate::StatusUpdate { status: *status, modified_at: *modified_at }
            },
            PaymentIntentUpdate::ReturnUrlUpdate { return_url, status, customer_id, modified_at } => {
                PaymentIntentUpdate::ReturnUrlUpdate {
                    return_url: clone_opt_string(return_url),
                    status: *status,
                    customer_id: clone_opt_string(customer_id),
                    modified_at: *modified_at,
                }
            },
            PaymentIntentUpdate::ActiveAttemptUpdate { active_attempt_id, modified_at } => {
                PaymentIntentUpdate::ActiveAttemptUpdate {
                    active_attempt_id: active_attempt_id.clone(),
                    modified_at: *modified_at,
                }
            },
        }
    }
}

/// The row an intent changeset produces from a prior row: a pure function of
/// the variant tag and its payload.
pub open spec fn spec_apply_intent_update(prior: PaymentIntent, u: PaymentIntentUpdate) -> PaymentIntent {
    match u {
        PaymentIntentUpdate::StatusUpdate { status, modified_at } => {
            PaymentIntent { status, modified_at, ..prior }
        },
        PaymentIntentUpdate::ReturnUrlUpdate { return_url, status, customer_id, modified_at } => {
            PaymentIntent {
                return_url,
                status: if status is Some {
                    status->0
                } else {
                    prior.status
                },
                customer_id,
                modified_at,
                ..prior
            }
        },
        PaymentIntentUpdate::ActiveAttemptUpdate { active_attempt_id, modified_at } => {
            PaymentIntent { active_attempt_id: Some(active_attempt_id), modified_at, ..prior }
        },
    }
}

/// Applies an intent changeset to a prior row.
pub fn apply_intent_update(prior: &PaymentIntent, u: &PaymentIntentUpdate) -> (r: PaymentIntent)
    ensures
        r == spec_apply_intent_update(*prior, *u),
{
    let mut row = prior.clone();
    match u {
        PaymentIntentUpdate::StatusUpdate { status, modified_at } => {
            row.status = *status;
            row.modified_at = *modified_at;
        },
        PaymentIntentUpdate::ReturnUrlUpdate { return_url, status, customer_id, modified_at } => {
            row.return_url = clone_opt_string(return_url);
            if let Some(s) = status {
                row.status = *s;
            }
            row.customer_id = clone_opt_string(customer_id);
            row.modified_at = *modified_at;
        },
        PaymentIntentUpdate::ActiveAttemptUpdate { active_attempt_id, modified_at } => {
            row.active_attempt_id = Some(active_attempt_id.clone());
            row.modified_at = *modified_at;
        },
    }
    row
}

/// Named changesets of a payment attempt.
pub enum PaymentAttemptUpdate {
    /// Move the attempt to a new lifecycle status.
    StatusUpdate { status: AttemptStatus, modified_at: i64 },
}

impl Clone for PaymentAttemptUpdate {
    fn clone(&self) -> (r: Self)
        ensures
            r == *self,
    {
        match self {
            PaymentAttemptUpdate::StatusUpdate { status, modified_at } => {
                PaymentAttemptUpdate::StatusUpdate { status: *status, modified_at: *modified_at }
            },
        }
    }
}

/// The row an attempt changeset produces from a prior row.
pub open spec fn spec_apply_attempt_update(prior: PaymentAttempt, u: PaymentAttemptUpdate) -> PaymentAttempt {
    match u {
        PaymentAttemptUpdate::StatusUpdate { status, modified_at } => {
            PaymentAttempt { status, modified_at, ..prior }
        },
    }
}

/// Applies an attempt changeset to a prior row.
pub fn apply_attempt_update(prior: &PaymentAttempt, u: &PaymentAttemptUpdate) -> (r: PaymentAttempt)
    ensures
        r == spec_apply_attempt_update(*prior, *u),
{
    let mut row = prior.clone();
    match u {
        PaymentAttemptUpdate::StatusUpdate { status, modified_at } => {
            row.status = *status;
            row.modified_at = *modified_at;
        },
    }
    row
}

/// Named changesets of a refund.
pub enum RefundUpdate {
    /// Move the refund to a new lifecycle status.
    StatusUpdate { status: RefundStatus, modified_at: i64 },
    /// Record a connector-side failure outcome together with its error data.
    ErrorUpdate {
        status: RefundStatus,
        error_code: Option<String>,
        error_message: Option<String>,
        modified_at: i64,
    },
}

impl Clone for RefundUpdate {
    fn clone(&self) -> (r: Self)
        ensures
            r == *self,
    {
        match self {
            RefundUpdate::StatusUpdate { status, modified_at } => {
                RefundUpdate::StatusUpdate { status: *status, modified_at: *modified_at }
            },
            RefundUpdate::ErrorUpdate { status, error_code, error_message, modified_at } => {
                RefundUpdate::ErrorUpdate {
                    status: *status,
                    error_code: clone_opt_string(error_code),
                    error_message: clone_opt_string(error_message),
                    modified_at: *modified_at,
                }
            },
        }
    }
}

/// The row a refund changeset produces from a prior row.
pub open spec fn spec_apply_refund_update(prior: Refund, u: RefundUpdate) -> Refund {
    match u {
        RefundUpdate::StatusUpdate { status, modified_at } => {
            Refund { status, modified_at, ..prior }
        },
        RefundUpdate::ErrorUpdate { status, error_code, error_message, modified_at } => {
            Refund { status, error_code, error_message, modified_at, ..prior }
        },
    }
}

/// Applies a refund changeset to a prior row.
pub fn apply_refund_update(prior: &Refund, u: &RefundUpdate) -> (r: Refund)
    ensures
        r == spec_apply_refund_update(*prior, *u),
{
    let mut row = prior.clone();
    match u {
        RefundUpdate::StatusUpdate { status, modified_at } => {
            row.status = *status;
            row.modified_at = *modified_at;
        },
        RefundUpdate::ErrorUpdate { status, error_code, error_message, modified_at } => {
            row.status = *status;
            row.error_code = clone_opt_string(error_code);
            row.error_message = clone_opt_string(error_message);
            row.modified_at = *modified_at;
        },
    }
    row
}

} // verus!
