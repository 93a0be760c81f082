//! The standalone verification flow: it originates its own tracking state
//! under a generated validation id, so its tracker stage creates a new
//! intent, then a new attempt referencing it, then the per-attempt
//! connector-response placeholder, in that strict order. A failure on a
//! later insert after an earlier one succeeded is surfaced as this flow's
//! own flow-fatal error, wrapping the storage error kind; the design
//! provides no automatic rollback.

use vstd::prelude::*;

use crate::entities::{
    clone_opt_string, ConnectorResponse, Customer, PaymentAttempt, PaymentAttemptNew,
    PaymentIntent, PaymentIntentNew, PaymentIntentUpdate, PaymentMethodType,
};
use crate::entities::spec_apply_intent_update;
use crate::entities::spec_build_attempt;
use crate::entities::spec_build_intent;
use crate::errors::{ApiError, StorageError, ValidationIssue};
use crate::keys::{attempt_key, connector_response_key, has_key, intent_key,
    lemma_index_of_key_unique, record_at_key};
use crate::pipeline::{
    get_or_create_customer, intent_status_fsm, make_payment_response, resolve_payment_method,
    spec_customer_effect, spec_intent_response, spec_intent_status_fsm, spec_merchant_matches,
    validate_merchant_id, CustomerDetails, MandateTxnType, MerchantAccount, PaymentResponse,
};
use crate::status::{AttemptStatus, Currency, IntentStatus, StorageScheme};
use crate::storage::Storage;

verus! {

/// A request to validate a payment method without a full payment.
pub struct VerifyRequest {
    pub merchant_id: Option<String>,
    pub customer_id: Option<String>,
    pub name: Option<String>,
    pub email: Option<String>,
    pub phone: Option<String>,
    pub phone_country_code: Option<String>,
    pub payment_method: Option<PaymentMethodType>,
    pub payment_method_data: Option<String>,
    pub payment_token: Option<String>,
    pub mandate_data: Option<String>,
    pub mandate_id: Option<String>,
    pub off_session: Option<bool>,
}

impl Clone for VerifyRequest {
    fn clone(&self) -> (r: Self)
        ensures
            r == *self,
    {
        VerifyRequest {
            merchant_id: clone_opt_string(&self.merchant_id),
            customer_id: clone_opt_string(&self.customer_id),
            name: clone_opt_string(&self.name),
            email: clone_opt_string(&self.email),
            phone: clone_opt_string(&self.phone),
            phone_country_code: clone_opt_string(&self.phone_country_code),
            payment_method: self.payment_method,
            payment_method_data: clone_opt_string(&self.payment_method_data),
            payment_token: clone_opt_string(&self.payment_token),
            mandate_data: clone_opt_string(&self.mandate_data),
            mandate_id: clone_opt_string(&self.mandate_id),
            off_session: self.off_session,
        }
    }
}

/// The operation driving the verification flow.
#[derive(Debug, Clone, Copy)]
pub struct PaymentMethodValidate;

/// A request that supplies both new-mandate data and an existing mandate
/// id is ambiguous about its mandate type.
pub open spec fn spec_mandate_conflict(req: VerifyRequest) -> bool {
    req.mandate_data is Some && req.mandate_id is Some
}

/// The mandate type a consistent request implies: new-mandate data sets up
/// a new mandate, a mandate id charges a recorded one, neither means no
/// mandate is involved.
pub open spec fn spec_mandate_type(req: VerifyRequest) -> Option<MandateTxnType> {
    if req.mandate_data is Some {
        Some(MandateTxnType::NewMandateTxn)
    } else if req.mandate_id is Some {
        Some(MandateTxnType::RecurringMandateTxn)
    } else {
        None
    }
}

/// The customer draft a verification request carries.
pub open spec fn spec_verify_customer_details(req: VerifyRequest) -> CustomerDetails {
    CustomerDetails {
        customer_id: req.customer_id,
        name: req.name,
        email: req.email,
        phone: req.phone,
        phone_country_code: req.phone_country_code,
    }
}

/// The draft intent a verification run originates: zero amount, confirmed
/// by construction, carrying the run's client secret and connector.
pub open spec fn spec_verify_intent_new(
    req: VerifyRequest,
    merchant: MerchantAccount,
    payment_id: String,
    connector: String,
    client_secret: String,
) -> PaymentIntentNew {
    PaymentIntentNew {
        payment_id,
        merchant_id: merchant.merchant_id,
        status: spec_intent_status_fsm(req.payment_method_data is Some, true),
        amount: 0,
        currency: Currency::USD,
        customer_id: req.customer_id,
        connector_id: Some(connector),
        client_secret: Some(client_secret),
        active_attempt_id: None,
        return_url: None,
        metadata: None,
        created_at: None,
        modified_at: None,
    }
}

/// The draft attempt a verification run originates: pending, confirmed,
/// zero amount.
pub open spec fn spec_verify_attempt_new(
    req: VerifyRequest,
    merchant: MerchantAccount,
    payment_id: String,
    attempt_id: String,
    connector: String,
) -> PaymentAttemptNew {
    PaymentAttemptNew {
        payment_id,
        merchant_id: merchant.merchant_id,
        attempt_id,
        status: AttemptStatus::Pending,
        amount: 0,
        currency: Currency::USD,
        connector: Some(connector),
        payment_method: req.payment_method,
        confirm: true,
        created_at: None,
        modified_at: None,
    }
}

/// The connector-response placeholder a verification run originates.
pub open spec fn spec_verify_connector_response(
    merchant: MerchantAccount,
    payment_id: String,
    attempt_id: String,
    connector: String,
    now: i64,
) -> ConnectorResponse {
    ConnectorResponse {
        payment_id,
        merchant_id: merchant.merchant_id,
        attempt_id,
        connector,
        created_at: now,
        modified_at: now,
    }
}

/// Everything one verification run decides and persists, as a function of
/// the tables its scheme sees, whether the change stream accepts appends,
/// and the identifiers the run uses. The stages in order: validate the
/// merchant; insert the intent, then the attempt, then the placeholder,
/// each duplicate or replication failure surfaced as the flow's own error
/// wrapping the storage kind, with no rollback of earlier inserts; resolve
/// the customer; move the intent to `Processing` through one named
/// changeset.
pub struct VerifyEffect {
    pub result: Result<PaymentResponse, ApiError>,
    pub intents: Seq<PaymentIntent>,
    pub attempts: Seq<PaymentAttempt>,
    pub connector_responses: Seq<ConnectorResponse>,
    pub customers: Seq<Customer>,
}

/// The verification flow, stage by stage, over the tables it can see.
pub open spec fn spec_verify_effect(
    intents: Seq<PaymentIntent>,
    attempts: Seq<PaymentAttempt>,
    crs: Seq<ConnectorResponse>,
    customers: Seq<Customer>,
    stream_ok: bool,
    merchant: MerchantAccount,
    req: VerifyRequest,
    validation_id: String,
    attempt_id: String,
    client_secret: String,
    connector: String,
    now: i64,
) -> VerifyEffect {
    if !spec_merchant_matches(req.merchant_id, merchant.merchant_id@) {
        VerifyEffect {
            result: Err(ApiError::Validation(ValidationIssue::MerchantIdMismatch)),
            intents,
            attempts,
            connector_responses: crs,
            customers,
        }
    } else if spec_mandate_conflict(req) {
        VerifyEffect {
            result: Err(ApiError::Validation(ValidationIssue::AmbiguousMandate)),
            intents,
            attempts,
            connector_responses: crs,
            customers,
        }
    } else {
        let irow0 = spec_build_intent(
            spec_verify_intent_new(req, merchant, validation_id, connector, client_secret),
            now,
        );
        let ikey = (merchant.merchant_id@, validation_id@);
        let akey = (merchant.merchant_id@, validation_id@, attempt_id@);
        if has_key(intents, intent_key(), ikey) {
            VerifyEffect {
                result: Err(ApiError::VerificationFailed(StorageError::DuplicateRecord)),
                intents,
                attempts,
                connector_responses: crs,
                customers,
            }
        } else if !stream_ok {
            VerifyEffect {
                result: Err(ApiError::VerificationFailed(StorageError::StreamAppendFailed)),
                intents: intents.push(irow0),
                attempts,
                connector_responses: crs,
                customers,
            }
        } else {
            let intents1 = intents.push(irow0);
            let arow = spec_build_attempt(
                spec_verify_attempt_new(req, merchant, validation_id, attempt_id, connector),
                now,
            );
            if has_key(attempts, attempt_key(), akey) {
                VerifyEffect {
                    result: Err(ApiError::VerificationFailed(StorageError::DuplicateRecord)),
                    intents: intents1,
                    attempts,
                    connector_responses: crs,
                    customers,
                }
            } else {
                let attempts1 = attempts.push(arow);
                let crow = spec_verify_connector_response(
                    merchant,
                    validation_id,
                    attempt_id,
                    connector,
                    now,
                );
                if has_key(crs, connector_response_key(), akey) {
                    VerifyEffect {
                        result: Err(ApiError::VerificationFailed(StorageError::DuplicateRecord)),
                        intents: intents1,
                        attempts: attempts1,
                        connector_responses: crs,
                        customers,
                    }
                } else {
                    let irow1 = spec_apply_intent_update(
                        irow0,
                        (PaymentIntentUpdate::ReturnUrlUpdate {
                            return_url: None,
                            status: Some(IntentStatus::Processing),
                            customer_id: irow0.customer_id,
                            modified_at: now,
                        }),
                    );
                    VerifyEffect {
                        result: Ok(spec_intent_response(irow1)),
                        intents: intents1.update(intents.len() as int, irow1),
                        attempts: attempts1,
                        connector_responses: crs.push(crow),
                        customers: spec_customer_effect(
                            customers,
                            spec_verify_customer_details(req),
                            merchant,
                            now,
                        ),
                    }
                }
            }
        }
    }
}

/// How one verification run relates the storage before it to the storage
/// after it: the tables the merchant's scheme sees move exactly as
/// `spec_verify_effect` says, nothing else of either backend moves, and
/// under the cached scheme the shard owning the validation id receives
/// exactly the run's change-stream entries, case by case.
pub open spec fn spec_verify_transition(
    pre: Storage,
    post: Storage,
    r: Result<PaymentResponse, ApiError>,
    merchant: MerchantAccount,
    req: VerifyRequest,
    validation_id: String,
    attempt_id: String,
    client_secret: String,
    connector: String,
    now: i64,
) -> bool {
    let scheme = merchant.storage_scheme;
    let intents = pre.spec_intents(scheme);
    let attempts = pre.spec_attempts(scheme);
    let crs = pre.spec_connector_responses(scheme);
    let stream_ok = pre.spec_stream_ok(scheme);
    let eff = spec_verify_effect(
        intents,
        attempts,
        crs,
        pre.rel@.customers,
        stream_ok,
        merchant,
        req,
        validation_id,
        attempt_id,
        client_secret,
        connector,
        now,
    );
    let valid = spec_merchant_matches(req.merchant_id, merchant.merchant_id@)
        && !spec_mandate_conflict(req);
    let irow0 = spec_build_intent(
        spec_verify_intent_new(req, merchant, validation_id, connector, client_secret),
        now,
    );
    let arow = spec_build_attempt(
        spec_verify_attempt_new(req, merchant, validation_id, attempt_id, connector),
        now,
    );
    let crow = spec_verify_connector_response(merchant, validation_id, attempt_id, connector, now);
    let irow1 = spec_apply_intent_update(
        irow0,
        (PaymentIntentUpdate::ReturnUrlUpdate {
            return_url: None,
            status: Some(IntentStatus::Processing),
            customer_id: irow0.customer_id,
            modified_at: now,
        }),
    );
    let ikey = (merchant.merchant_id@, validation_id@);
    let akey = (merchant.merchant_id@, validation_id@, attempt_id@);
    let intent_dup = valid && has_key(intents, intent_key(), ikey);
    let stream_fail = valid && !has_key(intents, intent_key(), ikey) && !stream_ok;
    let attempt_dup = valid && !has_key(intents, intent_key(), ikey) && stream_ok && has_key(
        attempts,
        attempt_key(),
        akey,
    );
    let cr_dup = valid && !has_key(intents, intent_key(), ikey) && stream_ok && !has_key(
        attempts,
        attempt_key(),
        akey,
    ) && has_key(crs, connector_response_key(), akey);
    let s = crate::kv::spec_shard(merchant.merchant_id@, validation_id@, pre.kv.spec_partitions());
    let n0 = pre.kv.shards@[s]@.len();
    let e0 = (crate::stream::StreamEntry {
        entry_id: n0 as u64,
        mutation: crate::stream::StreamMutation::UpsertIntent(irow0),
    });
    let e1 = (crate::stream::StreamEntry {
        entry_id: (n0 + 1) as u64,
        mutation: crate::stream::StreamMutation::UpsertAttempt(arow),
    });
    let e2 = (crate::stream::StreamEntry {
        entry_id: (n0 + 2) as u64,
        mutation: crate::stream::StreamMutation::UpsertConnectorResponse(crow),
    });
    let e3 = (crate::stream::StreamEntry {
        entry_id: (n0 + 3) as u64,
        mutation: crate::stream::StreamMutation::UpsertIntent(irow1),
    });
    &&& r == eff.result
    &&& post.spec_intents(scheme) == eff.intents
    &&& post.spec_attempts(scheme) == eff.attempts
    &&& post.spec_connector_responses(scheme) == eff.connector_responses
    &&& post.rel@.customers == eff.customers
    &&& post.spec_refunds(scheme) == pre.spec_refunds(scheme)
    &&& (!valid ==> post == pre)
    &&& (intent_dup ==> post == pre)
    &&& (scheme == StorageScheme::Strict ==> post.kv == pre.kv)
    &&& (scheme == StorageScheme::Cached ==> {
        &&& post.rel@.intents == pre.rel@.intents
        &&& post.rel@.attempts == pre.rel@.attempts
        &&& post.rel@.refunds == pre.rel@.refunds
        &&& post.rel@.connector_responses == pre.rel@.connector_responses
        &&& post.kv.stream_healthy == pre.kv.stream_healthy
        &&& post.kv.shards@.len() == pre.kv.shards@.len()
        &&& (forall|t: int|
            0 <= t < pre.kv.shards@.len() && t != s ==> post.kv.shards@[t] == pre.kv.shards@[t])
        &&& (r is Ok ==> post.kv.shards@[s]@ == pre.kv.shards@[s]@.push(e0).push(e1).push(
            e2,
        ).push(e3))
        &&& (stream_fail ==> post.kv.shards@ == pre.kv.shards@)
        &&& (attempt_dup ==> post.kv.shards@[s]@ == pre.kv.shards@[s]@.push(e0))
        &&& (cr_dup ==> post.kv.shards@[s]@ == pre.kv.shards@[s]@.push(e0).push(e1))
    })
}

impl PaymentMethodValidate {
    /// Stage one: the request's merchant id must name the authenticated
    /// merchant and its mandate details must be consistent; a fresh
    /// validation id of the fixed configured length is generated as this
    /// run's business id, alongside the request's mandate type.
    pub fn validate_request(&self, req: &VerifyRequest, merchant: &MerchantAccount) -> (r: Result<
        (String, Option<MandateTxnType>),
        ApiError,
    >)
        ensures
            match r {
                Ok(v) => spec_merchant_matches(req.merchant_id, merchant.merchant_id@)
                    && !spec_mandate_conflict(*req) && v.0@.len()
                    == crate::ids::VALIDATION_ID_LENGTH && v.1 == spec_mandate_type(*req),
                Err(e) => {
                    ||| (e == ApiError::Validation(ValidationIssue::MerchantIdMismatch)
                        && !spec_merchant_matches(req.merchant_id, merchant.merchant_id@))
                    ||| (e == ApiError::Validation(ValidationIssue::AmbiguousMandate)
                        && spec_merchant_matches(req.merchant_id, merchant.merchant_id@)
                        && spec_mandate_conflict(*req))
                },
            },
    {
        if !validate_merchant_id(&req.merchant_id, merchant.merchant_id.as_str()) {
            return Err(ApiError::Validation(ValidationIssue::MerchantIdMismatch));
        }
        if req.mandate_data.is_some() && req.mandate_id.is_some() {
            return Err(ApiError::Validation(ValidationIssue::AmbiguousMandate));
        }
        let mandate_type = if req.mandate_data.is_some() {
            Some(MandateTxnType::NewMandateTxn)
        } else if req.mandate_id.is_some() {
            Some(MandateTxnType::RecurringMandateTxn)
        } else {
            None
        };
        Ok((crate::ids::generate_validation_id(), mandate_type))
    }

    /// Builds the draft attempt of a verification run.
    pub fn make_payment_attempt(
        &self,
        req: &VerifyRequest,
        merchant: &MerchantAccount,
        payment_id: &String,
        attempt_id: &String,
        connector: &String,
    ) -> (r: PaymentAttemptNew)
        ensures
            r == spec_verify_attempt_new(*req, *merchant, *payment_id, *attempt_id, *connector),
    {
        PaymentAttemptNew {
            payment_id: payment_id.clone(),
            merchant_id: merchant.merchant_id.clone(),
            attempt_id: attempt_id.clone(),
            status: AttemptStatus::Pending,
            amount: 0,
            currency: Currency::USD,
            connector: Some(connector.clone()),
            payment_method: req.payment_method,
            confirm: true,
            created_at: None,
            modified_at: None,
        }
    }

    /// Builds the draft intent of a verification run.
    pub fn make_payment_intent(
        &self,
        req: &VerifyRequest,
        merchant: &MerchantAccount,
        payment_id: &String,
        connector: &String,
        client_secret: &String,
    ) -> (r: PaymentIntentNew)
        ensures
            r == spec_verify_intent_new(*req, *merchant, *payment_id, *connector, *client_secret),
    {
        PaymentIntentNew {
            payment_id: payment_id.clone(),
            merchant_id: merchant.merchant_id.clone(),
            status: intent_status_fsm(&req.payment_method_data, true),
            amount: 0,
            currency: Currency::USD,
            customer_id: clone_opt_string(&req.customer_id),
            connector_id: Some(connector.clone()),
            client_secret: Some(client_secret.clone()),
            active_attempt_id: None,
            return_url: None,
            metadata: None,
            created_at: None,
            modified_at: None,
        }
    }

    /// Stage two: originates the run's tracking state — the intent, then
    /// the attempt referencing it, then the connector-response placeholder,
    /// in that strict order. Any storage failure is surfaced as this flow's
    /// own flow-fatal error wrapping the storage kind; earlier inserts are
    /// not rolled back.
    pub fn get_trackers(
        &self,
        storage: &mut Storage,
        merchant: &MerchantAccount,
        req: &VerifyRequest,
        payment_id: &String,
        attempt_id: &String,
        connector: &String,
        client_secret: &String,
        now: i64,
    ) -> (r: Result<(PaymentIntent, PaymentAttempt, ConnectorResponse), ApiError>)
        requires
            old(storage).wf(),
        ensures
            final(storage).wf(),
            ({
                let scheme = merchant.storage_scheme;
                let irow0 = spec_build_intent(
                    spec_verify_intent_new(*req, *merchant, *payment_id, *connector, *client_secret),
                    now,
                );
                let arow = spec_build_attempt(
                    spec_verify_attempt_new(*req, *merchant, *payment_id, *attempt_id, *connector),
                    now,
                );
                let crow = spec_verify_connector_response(
                    *merchant,
                    *payment_id,
                    *attempt_id,
                    *connector,
                    now,
                );
                let ikey = (merchant.merchant_id@, payment_id@);
                let akey = (merchant.merchant_id@, payment_id@, attempt_id@);
                let intents = old(storage).spec_intents(scheme);
                let attempts = old(storage).spec_attempts(scheme);
                let crs = old(storage).spec_connector_responses(scheme);
                let stream_ok = old(storage).spec_stream_ok(scheme);
                let intent_dup = has_key(intents, intent_key(), ikey);
                let stream_fail = !intent_dup && !stream_ok;
                let attempt_dup = !intent_dup && stream_ok && has_key(attempts, attempt_key(), akey);
                let cr_dup = !intent_dup && stream_ok && !has_key(attempts, attempt_key(), akey)
                    && has_key(crs, connector_response_key(), akey);
                let s = crate::kv::spec_shard(
                    merchant.merchant_id@,
                    payment_id@,
                    old(storage).kv.spec_partitions(),
                );
                let n0 = old(storage).kv.shards@[s]@.len();
                let e0 = (crate::stream::StreamEntry {
                    entry_id: n0 as u64,
                    mutation: crate::stream::StreamMutation::UpsertIntent(irow0),
                });
                let e1 = (crate::stream::StreamEntry {
                    entry_id: (n0 + 1) as u64,
                    mutation: crate::stream::StreamMutation::UpsertAttempt(arow),
                });
                let e2 = (crate::stream::StreamEntry {
                    entry_id: (n0 + 2) as u64,
                    mutation: crate::stream::StreamMutation::UpsertConnectorResponse(crow),
                });
                &&& final(storage).spec_refunds(scheme) == old(storage).spec_refunds(scheme)
                &&& final(storage).rel@.customers == old(storage).rel@.customers
                &&& final(storage).kv.stream_healthy == old(storage).kv.stream_healthy
                &&& (scheme == StorageScheme::Strict ==> final(storage).kv == old(storage).kv)
                &&& (scheme == StorageScheme::Cached ==> final(storage).rel == old(storage).rel
                    && final(storage).kv.shards@.len() == old(storage).kv.shards@.len() && (forall|
                    t: int,
                |
                    0 <= t < old(storage).kv.shards@.len() && t != s ==> final(storage).kv.shards@[t]
                        == old(storage).kv.shards@[t]))
                &&& (!intent_dup && !stream_fail && !attempt_dup && !cr_dup ==> r is Ok)
                &&& match r {
                    Ok(rows) => {
                        &&& rows == (irow0, arow, crow)
                        &&& !intent_dup && !stream_fail && !attempt_dup && !cr_dup
                        &&& final(storage).spec_intents(scheme) == intents.push(irow0)
                        &&& final(storage).spec_attempts(scheme) == attempts.push(arow)
                        &&& final(storage).spec_connector_responses(scheme) == crs.push(crow)
                        &&& (scheme == StorageScheme::Cached ==> final(storage).kv.shards@[s]@
                            == old(storage).kv.shards@[s]@.push(e0).push(e1).push(e2))
                    },
                    Err(e) => {
                        &&& (intent_dup ==> e == ApiError::VerificationFailed(
                            StorageError::DuplicateRecord,
                        ) && *final(storage) == *old(storage))
                        &&& (stream_fail ==> e == ApiError::VerificationFailed(
                            StorageError::StreamAppendFailed,
                        ) && scheme == StorageScheme::Cached && final(storage).spec_intents(scheme)
                            == intents.push(irow0) && final(storage).spec_attempts(scheme)
                            == attempts && final(storage).spec_connector_responses(scheme) == crs
                            && final(storage).kv.shards@ == old(storage).kv.shards@)
                        &&& (attempt_dup ==> e == ApiError::VerificationFailed(
                            StorageError::DuplicateRecord,
                        ) && final(storage).spec_intents(scheme) == intents.push(irow0) && final(storage).spec_attempts(scheme) == attempts && final(storage).spec_connector_responses(scheme) == crs && (scheme
                            == StorageScheme::Cached ==> final(storage).kv.shards@[s]@ == old(storage).kv.shards@[s]@.push(e0)))
                        &&& (cr_dup ==> e == ApiError::VerificationFailed(
                            StorageError::DuplicateRecord,
                        ) && final(storage).spec_intents(scheme) == intents.push(irow0) && final(storage).spec_attempts(scheme) == attempts.push(arow) && final(storage).spec_connector_responses(scheme) == crs && (scheme
                            == StorageScheme::Cached ==> final(storage).kv.shards@[s]@ == old(storage).kv.shards@[s]@.push(e0).push(e1)))
                    },
                }
            }),
    {
        let scheme = merchant.storage_scheme;
        let inew = self.make_payment_intent(req, merchant, payment_id, connector, client_secret);
        let irow = match storage.insert_payment_intent(scheme, inew, now) {
            Ok(row) => row,
            Err(e) => {
                return Err(ApiError::VerificationFailed(e));
            },
        };
        let anew = self.make_payment_attempt(req, merchant, payment_id, attempt_id, connector);
        let arow = match storage.insert_payment_attempt(scheme, anew, now) {
            Ok(row) => row,
            Err(e) => {
                return Err(ApiError::VerificationFailed(e));
            },
        };
        let crnew = ConnectorResponse {
            payment_id: payment_id.clone(),
            merchant_id: merchant.merchant_id.clone(),
            attempt_id: attempt_id.clone(),
            connector: connector.clone(),
            created_at: now,
            modified_at: now,
        };
        let crow = match storage.insert_connector_response(scheme, crnew) {
            Ok(row) => row,
            Err(e) => {
                return Err(ApiError::VerificationFailed(e));
            },
        };
        Ok((irow, arow, crow))
    }

    /// Stage three, customer half: resolves or creates the customer row for
    /// the request's customer id, idempotently.
    pub fn get_or_create_customer_details(
        &self,
        storage: &mut Storage,
        req: &VerifyRequest,
        merchant: &MerchantAccount,
        now: i64,
    ) -> (r: Option<Customer>)
        requires
            old(storage).wf(),
        ensures
            final(storage).wf(),
            final(storage).kv == old(storage).kv,
            crate::relational::only_customers_changed(old(storage).rel, final(storage).rel),
            final(storage).rel@.customers == spec_customer_effect(
                old(storage).rel@.customers,
                spec_verify_customer_details(*req),
                *merchant,
                now,
            ),
    {
        let details = CustomerDetails {
            customer_id: clone_opt_string(&req.customer_id),
            name: clone_opt_string(&req.name),
            email: clone_opt_string(&req.email),
            phone: clone_opt_string(&req.phone),
            phone_country_code: clone_opt_string(&req.phone_country_code),
        };
        get_or_create_customer(storage, &details, merchant, now)
    }

    /// Stage three, payment-method half: inline data is echoed; a bare
    /// token is the vault's concern.
    pub fn make_pm_data(&self, req: &VerifyRequest) -> (r: Option<String>)
        ensures
            r == req.payment_method_data,
    {
        resolve_payment_method(&req.payment_method_data, &req.payment_token)
    }

    /// Stage four: moves the run's intent to `Processing` through one named
    /// changeset. A transition out of a terminal status is rejected here,
    /// and a missing intent is surfaced as this flow's own error wrapping
    /// the not-found storage kind, with exactly the one failed lookup made
    /// and nothing persisted.
    pub fn update_trackers(
        &self,
        storage: &mut Storage,
        merchant: &MerchantAccount,
        payment_id: &str,
        now: i64,
    ) -> (r: Result<PaymentResponse, ApiError>)
        requires
            old(storage).wf(),
        ensures
            final(storage).wf(),
            ({
                let scheme = merchant.storage_scheme;
                let k = (merchant.merchant_id@, payment_id@);
                let intents = old(storage).spec_intents(scheme);
                let prior = record_at_key(intents, intent_key(), k);
                let row = spec_apply_intent_update(
                    prior,
                    (PaymentIntentUpdate::ReturnUrlUpdate {
                        return_url: None,
                        status: Some(IntentStatus::Processing),
                        customer_id: prior.customer_id,
                        modified_at: now,
                    }),
                );
                match r {
                    Ok(resp) => {
                        &&& has_key(intents, intent_key(), k)
                        &&& !crate::status::intent_is_terminal(prior.status)
                        &&& old(storage).spec_stream_ok(scheme)
                        &&& resp == spec_intent_response(row)
                        &&& resp.status == IntentStatus::Processing
                        &&& final(storage).spec_intents(scheme) == intents.update(
                            crate::keys::index_of_key(intents, intent_key(), k),
                            row,
                        )
                        &&& final(storage).spec_attempts(scheme) == old(storage).spec_attempts(
                            scheme,
                        )
                        &&& final(storage).spec_refunds(scheme) == old(storage).spec_refunds(
                            scheme,
                        )
                        &&& final(storage).spec_connector_responses(scheme) == old(storage).spec_connector_responses(scheme)
                        &&& final(storage).rel@.customers == old(storage).rel@.customers
                        &&& (scheme == StorageScheme::Strict ==> final(storage).kv == old(storage).kv)
                        &&& (scheme == StorageScheme::Cached ==> final(storage).rel == old(storage).rel && final(storage).kv.stream_healthy == old(storage).kv.stream_healthy
                            && crate::kv::shard_appended(
                            old(storage).kv,
                            final(storage).kv,
                            merchant.merchant_id@,
                            payment_id@,
                            crate::stream::StreamMutation::UpsertIntent(row),
                        ))
                    },
                    Err(e) => match e {
                        ApiError::VerificationFailed(se) => se == StorageError::NotFound
                            && !has_key(intents, intent_key(), k) && *final(storage) == *old(storage),
                        ApiError::Validation(vi) => vi == ValidationIssue::IllegalStatusTransition
                            && has_key(intents, intent_key(), k)
                            && crate::status::intent_is_terminal(prior.status) && *final(storage)
                            == *old(storage),
                        ApiError::Consistency => {
                            &&& scheme == StorageScheme::Cached
                            &&& !old(storage).kv.stream_healthy
                            &&& has_key(intents, intent_key(), k)
                            &&& !crate::status::intent_is_terminal(prior.status)
                            &&& final(storage).spec_intents(scheme) == intents.update(
                                crate::keys::index_of_key(intents, intent_key(), k),
                                row,
                            )
                            &&& final(storage).kv.shards@ == old(storage).kv.shards@
                            &&& final(storage).rel == old(storage).rel
                        },
                        _ => false,
                    },
                }
            }),
    {
        let scheme = merchant.storage_scheme;
        let prior = match storage.find_payment_intent(
            scheme,
            payment_id,
            merchant.merchant_id.as_str(),
        ) {
            Ok(row) => row,
            Err(e) => {
                return Err(ApiError::VerificationFailed(e));
            },
        };
        if crate::status::is_intent_terminal(prior.status) {
            return Err(ApiError::Validation(ValidationIssue::IllegalStatusTransition));
        }
        let upd = PaymentIntentUpdate::ReturnUrlUpdate {
            return_url: None,
            status: Some(IntentStatus::Processing),
            customer_id: clone_opt_string(&prior.customer_id),
            modified_at: now,
        };
        match storage.update_payment_intent(scheme, payment_id, merchant.merchant_id.as_str(), &upd) {
            Ok(row) => Ok(make_payment_response(&row)),
            Err(e) => {
                proof {
                    assert(e == StorageError::StreamAppendFailed);
                }
                Err(ApiError::Consistency)
            },
        }
    }

    /// Drives the verification flow through its four stages in fixed order,
    /// short-circuiting on the first failure: a failure while originating
    /// or enriching state never reaches the persist stage. For some choice
    /// of the generated identifiers — the validation id and attempt id of
    /// their fixed configured lengths — the run's result and the whole
    /// storage transition are exactly `spec_verify_transition`; in
    /// particular a duplicate error can only come from a genuine key
    /// collision with a generated id, and a replication error only from an
    /// unhealthy stream.
    pub fn run(
        &self,
        storage: &mut Storage,
        merchant: &MerchantAccount,
        req: &VerifyRequest,
        connector: &String,
        now: i64,
    ) -> (r: Result<PaymentResponse, ApiError>)
        requires
            old(storage).wf(),
        ensures
            final(storage).wf(),
            !spec_merchant_matches(req.merchant_id, merchant.merchant_id@) ==> r
                == Err::<PaymentResponse, ApiError>(
                ApiError::Validation(ValidationIssue::MerchantIdMismatch),
            ) && *final(storage) == *old(storage),
            spec_merchant_matches(req.merchant_id, merchant.merchant_id@)
                && spec_mandate_conflict(*req) ==> r == Err::<PaymentResponse, ApiError>(
                ApiError::Validation(ValidationIssue::AmbiguousMandate),
            ) && *final(storage) == *old(storage),
            spec_merchant_matches(req.merchant_id, merchant.merchant_id@) && !spec_mandate_conflict(
                *req,
            ) ==> exists|validation_id: String, attempt_id: String, client_secret: String|
                {
                    &&& validation_id@.len() == crate::ids::VALIDATION_ID_LENGTH
                    &&& attempt_id@.len() == crate::ids::ATTEMPT_ID_LENGTH
                    &&& #[trigger] spec_verify_transition(
                        *old(storage),
                        *final(storage),
                        r,
                        *merchant,
                        *req,
                        validation_id,
                        attempt_id,
                        client_secret,
                        *connector,
                        now,
                    )
                },
            match r {
                Ok(resp) => resp.status == IntentStatus::Processing && resp.amount == 0
                    && resp.payment_id@.len() == crate::ids::VALIDATION_ID_LENGTH,
                Err(e) => {
                    ||| (e == ApiError::Validation(ValidationIssue::MerchantIdMismatch)
                        && !spec_merchant_matches(req.merchant_id, merchant.merchant_id@))
                    ||| (e == ApiError::Validation(ValidationIssue::AmbiguousMandate)
                        && spec_mandate_conflict(*req))
                    ||| (e matches ApiError::VerificationFailed(se) && (se
                        == StorageError::DuplicateRecord || (se == StorageError::StreamAppendFailed
                        && merchant.storage_scheme == StorageScheme::Cached && !old(storage).kv.stream_healthy)))
                },
            },
    {
        let scheme = merchant.storage_scheme;
        let (validation_id, _mandate_type) = match self.validate_request(req, merchant) {
            Ok(v) => v,
            Err(e) => {
                return Err(e);
            },
        };
        let attempt_id = crate::ids::generate_attempt_id();
        let secret_token = crate::ids::generate_token();
        let client_secret = crate::ids::make_client_secret(validation_id.as_str(), &secret_token);
        let trackers = match self.get_trackers(
            storage,
            merchant,
            req,
            &validation_id,
            &attempt_id,
            connector,
            &client_secret,
            now,
        ) {
            Ok(t) => t,
            Err(e) => {
                proof {
                    assert(spec_verify_transition(
                        *old(storage),
                        *storage,
                        Err(e),
                        *merchant,
                        *req,
                        validation_id,
                        attempt_id,
                        client_secret,
                        *connector,
                        now,
                    ));
                }
                return Err(e);
            },
        };
        self.get_or_create_customer_details(storage, req, merchant, now);
        // the resolved payment-method representation feeds connector
        // dispatch, an external collaborator of this flow
        self.make_pm_data(req);
        proof {
            let intents = storage.spec_intents(scheme);
            let k = (merchant.merchant_id@, validation_id@);
            assert(intent_key()(trackers.0) == k);
            assert(intents[intents.len() - 1] == trackers.0);
            assert(has_key(intents, intent_key(), k));
            lemma_index_of_key_unique(intents, intent_key(), k, intents.len() - 1);
        }
        let resp = match self.update_trackers(storage, merchant, validation_id.as_str(), now) {
            Ok(resp) => resp,
            Err(e) => {
                proof {
                    assert(false);
                }
                return Err(e);
            },
        };
        proof {
            let fin = storage.spec_intents(scheme);
            let k = (merchant.merchant_id@, validation_id@);
            assert(intent_key()(fin[fin.len() - 1]) == k);
            assert(has_key(fin, intent_key(), k));
            lemma_index_of_key_unique(fin, intent_key(), k, fin.len() - 1);
            assert(spec_verify_transition(
                *old(storage),
                *storage,
                Ok(resp),
                *merchant,
                *req,
                validation_id,
                attempt_id,
                client_secret,
                *connector,
                now,
            ));
        }
        Ok(resp)
    }
}

} // verus!
