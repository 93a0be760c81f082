//! The operation pipeline engine: a fixed four-stage driver — validate,
//! acquire tracking state, domain enrichment, persist — instantiated per
//! flow variant. The driver never reorders or skips stages, short-circuits
//! on the first failure, and a failure in stage two or three never invokes
//! stage four.

use vstd::prelude::*;

use crate::entities::{
    clone_opt_string, Customer, PaymentAttempt, PaymentAttemptNew, PaymentIntent,
    PaymentIntentNew, PaymentIntentUpdate, PaymentMethodType,
};
use crate::entities::spec_apply_intent_update;
use crate::entities::spec_build_attempt;
use crate::entities::spec_build_intent;
use crate::errors::{ApiError, StorageError, ValidationIssue};
use crate::errors::storage_to_api_error;
use crate::keys::{customer_key, has_key, intent_key, lemma_index_of_key_unique, record_at_key,
    str_eq};
use crate::status::{Currency, IntentStatus, StorageScheme, AttemptStatus};
use crate::storage::Storage;

verus! {

/// Flow variants the pipeline drives; each supplies its own stage bodies
/// behind the shared driver.
#[derive(Clone, Copy, Debug, PartialEq, Eq, Structural)]
pub enum Flow {
    Create,
    Confirm,
    Capture,
    Cancel,
    Verify,
    Sync,
}

/// The authenticated merchant a pipeline run acts for, with the storage
/// scheme resolved from the merchant's configuration.
pub struct MerchantAccount {
    pub merchant_id: String,
    pub storage_scheme: StorageScheme,
}

impl Clone for MerchantAccount {
    fn clone(&self) -> (r: Self)
        ensures
            r == *self,
    {
        MerchantAccount {
            merchant_id: self.merchant_id.clone(),
            storage_scheme: self.storage_scheme,
        }
    }
}

/// A request to create one logical payment.
pub struct CreateRequest {
    pub payment_id: Option<String>,
    pub merchant_id: Option<String>,
    pub amount: i64,
    pub currency: Currency,
    pub confirm: bool,
    pub customer_id: Option<String>,
    pub name: Option<String>,
    pub email: Option<String>,
    pub phone: Option<String>,
    pub phone_country_code: Option<String>,
    pub payment_method: Option<PaymentMethodType>,
    pub payment_method_data: Option<String>,
    pub return_url: Option<String>,
    pub metadata: Option<String>,
}

impl Clone for CreateRequest {
    fn clone(&self) -> (r: Self)
        ensures
            r == *self,
    {
        CreateRequest {
            payment_id: clone_opt_string(&self.payment_id),
            merchant_id: clone_opt_string(&self.merchant_id),
            amount: self.amount,
            currency: self.currency,
            confirm: self.confirm,
            customer_id: clone_opt_string(&self.customer_id),
            name: clone_opt_string(&self.name),
            email: clone_opt_string(&self.email),
            phone: clone_opt_string(&self.phone),
            phone_country_code: clone_opt_string(&self.phone_country_code),
            payment_method: self.payment_method,
            payment_method_data: clone_opt_string(&self.payment_method_data),
            return_url: clone_opt_string(&self.return_url),
            metadata: clone_opt_string(&self.metadata),
        }
    }
}

/// The customer draft a request carries: the identity and the detail
/// fields a fresh customer row is filled from.
pub struct CustomerDetails {
    pub customer_id: Option<String>,
    pub name: Option<String>,
    pub email: Option<String>,
    pub phone: Option<String>,
    pub phone_country_code: Option<String>,
}

impl Clone for CustomerDetails {
    fn clone(&self) -> (r: Self)
        ensures
            r == *self,
    {
        CustomerDetails {
            customer_id: clone_opt_string(&self.customer_id),
            name: clone_opt_string(&self.name),
            email: clone_opt_string(&self.email),
            phone: clone_opt_string(&self.phone),
            phone_country_code: clone_opt_string(&self.phone_country_code),
        }
    }
}

/// How a transaction relates to a mandate: it either records a new one
/// from supplied mandate data, or charges one recorded earlier by its id.
#[derive(Clone, Copy, Debug, PartialEq, Eq, Structural)]
pub enum MandateTxnType {
    NewMandateTxn,
    RecurringMandateTxn,
}

/// What a payment flow answers its caller.
#[derive(Debug)]
pub struct PaymentResponse {
    pub payment_id: String,
    pub status: IntentStatus,
    pub amount: i64,
    pub currency: Currency,
    pub client_secret: Option<String>,
}

/// The request's merchant id, when present, names the authenticated
/// merchant.
pub open spec fn spec_merchant_matches(req_merchant: Option<String>, merchant_id: Seq<char>) -> bool {
    req_merchant matches Some(m) ==> m@ == merchant_id
}

/// Checks that an optional request merchant id names the authenticated
/// merchant.
pub fn validate_merchant_id(req_merchant: &Option<String>, merchant_id: &str) -> (r: bool)
    ensures
        r == spec_merchant_matches(*req_merchant, merchant_id@),
{
    match req_merchant {
        None => true,
        Some(m) => str_eq(m.as_str(), merchant_id),
    }
}

/// Why a create request is rejected before any persistence, if it is.
pub open spec fn spec_validate_create(req: CreateRequest, merchant: MerchantAccount) -> Option<
    ValidationIssue,
> {
    if !spec_merchant_matches(req.merchant_id, merchant.merchant_id@) {
        Some(ValidationIssue::MerchantIdMismatch)
    } else if req.amount < 0 {
        Some(ValidationIssue::NegativeAmount)
    } else {
        None
    }
}

/// Stage one of the create flow: cross-field validation, touching no
/// storage.
pub fn validate_create_request(req: &CreateRequest, merchant: &MerchantAccount) -> (r: Option<
    ValidationIssue,
>)
    ensures
        r == spec_validate_create(*req, *merchant),
{
    if !validate_merchant_id(&req.merchant_id, merchant.merchant_id.as_str()) {
        Some(ValidationIssue::MerchantIdMismatch)
    } else if req.amount < 0 {
        Some(ValidationIssue::NegativeAmount)
    } else {
        None
    }
}

/// The status a fresh intent enters, from the confirm flag and whether
/// payment-method data came inline: an unconfirmed payment still requires a
/// payment method; a confirmed one with inline data goes straight to
/// processing, without data it awaits confirmation of a method.
pub open spec fn spec_intent_status_fsm(pm_data_present: bool, confirm: bool) -> IntentStatus {
    if !confirm {
        IntentStatus::RequiresPaymentMethod
    } else if pm_data_present {
        IntentStatus::Processing
    } else {
        IntentStatus::RequiresConfirmation
    }
}

/// Computes the entry status of a fresh intent.
pub fn intent_status_fsm(pm_data: &Option<String>, confirm: bool) -> (r: IntentStatus)
    ensures
        r == spec_intent_status_fsm(pm_data is Some, confirm),
{
    if !confirm {
        IntentStatus::RequiresPaymentMethod
    } else if pm_data.is_some() {
        IntentStatus::Processing
    } else {
        IntentStatus::RequiresConfirmation
    }
}

/// The draft intent a create request becomes.
pub open spec fn spec_create_intent_new(
    req: CreateRequest,
    merchant: MerchantAccount,
    payment_id: String,
    client_secret: String,
) -> PaymentIntentNew {
    PaymentIntentNew {
        payment_id,
        merchant_id: merchant.merchant_id,
        status: spec_intent_status_fsm(req.payment_method_data is Some, req.confirm),
        amount: req.amount,
        currency: req.currency,
        customer_id: req.customer_id,
        connector_id: None,
        client_secret: Some(client_secret),
        active_attempt_id: None,
        return_url: req.return_url,
        metadata: req.metadata,
        created_at: None,
        modified_at: None,
    }
}

/// Builds the draft intent of a create request.
pub fn make_create_intent(
    req: &CreateRequest,
    merchant: &MerchantAccount,
    payment_id: &String,
    client_secret: &String,
) -> (r: PaymentIntentNew)
    ensures
        r == spec_create_intent_new(*req, *merchant, *payment_id, *client_secret),
{
    PaymentIntentNew {
        payment_id: payment_id.clone(),
        merchant_id: merchant.merchant_id.clone(),
        status: intent_status_fsm(&req.payment_method_data, req.confirm),
        amount: req.amount,
        currency: req.currency,
        customer_id: clone_opt_string(&req.customer_id),
        connector_id: None,
        client_secret: Some(client_secret.clone()),
        active_attempt_id: None,
        return_url: clone_opt_string(&req.return_url),
        metadata: clone_opt_string(&req.metadata),
        created_at: None,
        modified_at: None,
    }
}

/// The draft attempt a create request becomes: started, or already pending
/// when the request confirms.
pub open spec fn spec_create_attempt_new(
    req: CreateRequest,
    merchant: MerchantAccount,
    payment_id: String,
    attempt_id: String,
) -> PaymentAttemptNew {
    PaymentAttemptNew {
        payment_id,
        merchant_id: merchant.merchant_id,
        attempt_id,
        status: if req.confirm {
            AttemptStatus::Pending
        } else {
            AttemptStatus::Started
        },
        amount: req.amount,
        currency: req.currency,
        connector: None,
        payment_method: req.payment_method,
        confirm: req.confirm,
        created_at: None,
        modified_at: None,
    }
}

/// Builds the draft attempt of a create request.
pub fn make_create_attempt(
    req: &CreateRequest,
    merchant: &MerchantAccount,
    payment_id: &String,
    attempt_id: &String,
) -> (r: PaymentAttemptNew)
    ensures
        r == spec_create_attempt_new(*req, *merchant, *payment_id, *attempt_id),
{
    PaymentAttemptNew {
        payment_id: payment_id.clone(),
        merchant_id: merchant.merchant_id.clone(),
        attempt_id: attempt_id.clone(),
        status: if req.confirm {
            AttemptStatus::Pending
        } else {
            AttemptStatus::Started
        },
        amount: req.amount,
        currency: req.currency,
        connector: None,
        payment_method: req.payment_method,
        confirm: req.confirm,
        created_at: None,
        modified_at: None,
    }
}

/// The customer table after resolving a request's customer draft:
/// unchanged when the draft names no customer or an existing one; extended
/// by exactly one fresh row, filled from the draft's detail fields,
/// otherwise.
pub open spec fn spec_customer_effect(
    customers: Seq<Customer>,
    details: CustomerDetails,
    merchant: MerchantAccount,
    now: i64,
) -> Seq<Customer> {
    match details.customer_id {
        None => customers,
        Some(cid) => {
            if has_key(customers, customer_key(), (merchant.merchant_id@, cid@)) {
                customers
            } else {
                customers.push(
                    Customer {
                        customer_id: cid,
                        merchant_id: merchant.merchant_id,
                        name: details.name,
                        email: details.email,
                        phone: details.phone,
                        phone_country_code: details.phone_country_code,
                        created_at: now,
                    },
                )
            }
        },
    }
}

/// Stage three of a payment flow: resolves the request's customer draft,
/// inserting at most one new row and never a duplicate for a repeat
/// customer id. Customer rows always take the strict path.
pub fn get_or_create_customer(
    storage: &mut Storage,
    details: &CustomerDetails,
    merchant: &MerchantAccount,
    now: i64,
) -> (r: Option<Customer>)
    requires
        old(storage).wf(),
    ensures
        final(storage).wf(),
        final(storage).kv == old(storage).kv,
        crate::relational::only_customers_changed(old(storage).rel, final(storage).rel),
        final(storage).rel@.customers == spec_customer_effect(
            old(storage).rel@.customers,
            *details,
            *merchant,
            now,
        ),
        match r {
            Some(c) => details.customer_id matches Some(cid) && has_key(
                final(storage).rel@.customers,
                customer_key(),
                (merchant.merchant_id@, cid@),
            ) && c == record_at_key(
                final(storage).rel@.customers,
                customer_key(),
                (merchant.merchant_id@, cid@),
            ),
            None => details.customer_id is None,
        },
{
    match &details.customer_id {
        None => None,
        Some(cid) => {
            match storage.find_customer(cid.as_str(), merchant.merchant_id.as_str()) {
                Ok(c) => Some(c),
                Err(_) => {
                    let row = Customer {
                        customer_id: cid.clone(),
                        merchant_id: merchant.merchant_id.clone(),
                        name: clone_opt_string(&details.name),
                        email: clone_opt_string(&details.email),
                        phone: clone_opt_string(&details.phone),
                        phone_country_code: clone_opt_string(&details.phone_country_code),
                        created_at: now,
                    };
                    match storage.insert_customer(row) {
                        Ok(c) => {
                            proof {
                                lemma_index_of_key_unique(
                                    storage.rel@.customers,
                                    customer_key(),
                                    (merchant.merchant_id@, cid@),
                                    storage.rel@.customers.len() - 1,
                                );
                            }
                            Some(c)
                        },
                        Err(_) => {
                            proof {
                                assert(false);
                            }
                            None
                        },
                    }
                },
            }
        },
    }
}

/// The customer draft a create request carries.
pub open spec fn spec_create_customer_details(req: CreateRequest) -> CustomerDetails {
    CustomerDetails {
        customer_id: req.customer_id,
        name: req.name,
        email: req.email,
        phone: req.phone,
        phone_country_code: req.phone_country_code,
    }
}

/// Builds the customer draft of a create request.
pub fn make_create_customer_details(req: &CreateRequest) -> (r: CustomerDetails)
    ensures
        r == spec_create_customer_details(*req),
{
    CustomerDetails {
        customer_id: clone_opt_string(&req.customer_id),
        name: clone_opt_string(&req.name),
        email: clone_opt_string(&req.email),
        phone: clone_opt_string(&req.phone),
        phone_country_code: clone_opt_string(&req.phone_country_code),
    }
}

/// Resolves the payment-method representation of a request: inline data is
/// echoed as given; token redemption is the vault's concern, an external
/// collaborator, so a bare token resolves to nothing here.
pub fn resolve_payment_method(
    payment_method_data: &Option<String>,
    _payment_token: &Option<String>,
) -> (r: Option<String>)
    ensures
        r == *payment_method_data,
{
    clone_opt_string(payment_method_data)
}

/// Everything one create run decides and persists, as a function of the
/// tables it can see, whether the change stream accepts appends, and the
/// identifiers the run uses.
pub struct CreateEffect {
    pub result: Result<PaymentResponse, ApiError>,
    pub intents: Seq<PaymentIntent>,
    pub attempts: Seq<PaymentAttempt>,
    pub customers: Seq<Customer>,
}

/// The create flow, stage by stage: validate; insert the intent, then the
/// attempt, surfacing a later-insert failure as a distinct flow-fatal error
/// with no rollback of the earlier insert; resolve the customer; and point
/// the intent at its active attempt. A duplicate business id fails with
/// `DuplicateRecord`; a write the stream cannot replicate fails with
/// `Consistency` after the cache write, never reported as success.
pub open spec fn spec_create_effect(
    intents: Seq<PaymentIntent>,
    attempts: Seq<PaymentAttempt>,
    customers: Seq<Customer>,
    stream_ok: bool,
    merchant: MerchantAccount,
    req: CreateRequest,
    payment_id: String,
    attempt_id: String,
    client_secret: String,
    now: i64,
) -> CreateEffect {
    let issue = spec_validate_create(req, merchant);
    if issue is Some {
        CreateEffect {
            result: Err(ApiError::Validation(issue->0)),
            intents,
            attempts,
            customers,
        }
    } else {
        let irow0 = spec_build_intent(
            spec_create_intent_new(req, merchant, payment_id, client_secret),
            now,
        );
        if has_key(intents, intent_key(), (merchant.merchant_id@, payment_id@)) {
            CreateEffect { result: Err(ApiError::DuplicateRecord), intents, attempts, customers }
        } else if !stream_ok {
            CreateEffect {
                result: Err(ApiError::Consistency),
                intents: intents.push(irow0),
                attempts,
                customers,
            }
        } else {
            let intents1 = intents.push(irow0);
            let arow = spec_build_attempt(
                spec_create_attempt_new(req, merchant, payment_id, attempt_id),
                now,
            );
            if has_key(
                attempts,
                crate::keys::attempt_key(),
                (merchant.merchant_id@, payment_id@, attempt_id@),
            ) {
                CreateEffect { result: Err(ApiError::Internal), intents: intents1, attempts, customers }
            } else {
                let irow1 = spec_apply_intent_update(
                    irow0,
                    PaymentIntentUpdate::ActiveAttemptUpdate { active_attempt_id: attempt_id, modified_at: now },
                );
                CreateEffect {
                    result: Ok(
                        PaymentResponse {
                            payment_id,
                            status: irow1.status,
                            amount: req.amount,
                            currency: req.currency,
                            client_secret: Some(client_secret),
                        },
                    ),
                    intents: intents1.update(intents.len() as int, irow1),
                    attempts: attempts.push(arow),
                    customers: spec_customer_effect(
                        customers,
                        spec_create_customer_details(req),
                        merchant,
                        now,
                    ),
                }
            }
        }
    }
}

/// How one create run relates the storage before it to the storage after
/// it: the tables the merchant's scheme sees move exactly as
/// `spec_create_effect` says, nothing else of either backend moves, and
/// under the cached scheme the shard owning the business id receives
/// exactly the run's change-stream entries.
pub open spec fn spec_create_transition(
    pre: Storage,
    post: Storage,
    r: Result<PaymentResponse, ApiError>,
    merchant: MerchantAccount,
    req: CreateRequest,
    payment_id: String,
    attempt_id: String,
    client_secret: String,
    now: i64,
) -> bool {
    let scheme = merchant.storage_scheme;
    let eff = spec_create_effect(
        pre.spec_intents(scheme),
        pre.spec_attempts(scheme),
        pre.rel@.customers,
        pre.spec_stream_ok(scheme),
        merchant,
        req,
        payment_id,
        attempt_id,
        client_secret,
        now,
    );
    let irow0 = spec_build_intent(
        spec_create_intent_new(req, merchant, payment_id, client_secret),
        now,
    );
    let arow = spec_build_attempt(
        spec_create_attempt_new(req, merchant, payment_id, attempt_id),
        now,
    );
    let irow1 = spec_apply_intent_update(
        irow0,
        PaymentIntentUpdate::ActiveAttemptUpdate { active_attempt_id: attempt_id, modified_at: now },
    );
    let s = crate::kv::spec_shard(merchant.merchant_id@, payment_id@, pre.kv.spec_partitions());
    let n0 = pre.kv.shards@[s]@.len();
    &&& r == eff.result
    &&& post.spec_intents(scheme) == eff.intents
    &&& post.spec_attempts(scheme) == eff.attempts
    &&& post.rel@.customers == eff.customers
    &&& post.spec_refunds(scheme) == pre.spec_refunds(scheme)
    &&& post.spec_connector_responses(scheme) == pre.spec_connector_responses(scheme)
    &&& (scheme == StorageScheme::Strict ==> post.kv == pre.kv)
    &&& (scheme == StorageScheme::Cached ==> {
        &&& post.rel@.intents == pre.rel@.intents
        &&& post.rel@.attempts == pre.rel@.attempts
        &&& post.rel@.refunds == pre.rel@.refunds
        &&& post.rel@.connector_responses == pre.rel@.connector_responses
        &&& post.kv.stream_healthy == pre.kv.stream_healthy
        &&& post.kv.shards@.len() == pre.kv.shards@.len()
        &&& (forall|t: int|
            0 <= t < pre.kv.shards@.len() && t != s ==> post.kv.shards@[t] == pre.kv.shards@[t])
        &&& (r matches Ok(_) ==> post.kv.shards@[s]@ == pre.kv.shards@[s]@.push(
            (crate::stream::StreamEntry {
                entry_id: n0 as u64,
                mutation: crate::stream::StreamMutation::UpsertIntent(irow0),
            }),
        ).push(
            (crate::stream::StreamEntry {
                entry_id: (n0 + 1) as u64,
                mutation: crate::stream::StreamMutation::UpsertAttempt(arow),
            }),
        ).push(
            (crate::stream::StreamEntry {
                entry_id: (n0 + 2) as u64,
                mutation: crate::stream::StreamMutation::UpsertIntent(irow1),
            }),
        ))
        &&& (r == Err::<PaymentResponse, ApiError>(ApiError::Internal) ==> post.kv.shards@[s]@
            == pre.kv.shards@[s]@.push(
            (crate::stream::StreamEntry {
                entry_id: n0 as u64,
                mutation: crate::stream::StreamMutation::UpsertIntent(irow0),
            }),
        ))
        &&& ((r == Err::<PaymentResponse, ApiError>(ApiError::Consistency) || r == Err::<
            PaymentResponse,
            ApiError,
        >(ApiError::DuplicateRecord) || r matches Err(ApiError::Validation(_)))
            ==> post.kv.shards@ == pre.kv.shards@)
    })
}

/// The four-stage driver of the create flow, deterministic in the
/// identifiers its caller hands it.
pub fn create_payment_with_ids(
    storage: &mut Storage,
    merchant: &MerchantAccount,
    req: &CreateRequest,
    payment_id: String,
    attempt_id: String,
    client_secret: String,
    now: i64,
) -> (r: Result<PaymentResponse, ApiError>)
    requires
        old(storage).wf(),
    ensures
        final(storage).wf(),
        spec_create_transition(
            *old(storage),
            *final(storage),
            r,
            *merchant,
            *req,
            payment_id,
            attempt_id,
            client_secret,
            now,
        ),
{
    let scheme = merchant.storage_scheme;
    if let Some(issue) = validate_create_request(req, merchant) {
        return Err(ApiError::Validation(issue));
    }
    let inew = make_create_intent(req, merchant, &payment_id, &client_secret);
    let irow0 = match storage.insert_payment_intent(scheme, inew, now) {
        Ok(row) => row,
        Err(e) => {
            return Err(storage_to_api_error(e));
        },
    };
    let anew = make_create_attempt(req, merchant, &payment_id, &attempt_id);
    match storage.insert_payment_attempt(scheme, anew, now) {
        Ok(_) => {},
        Err(_) => {
            return Err(ApiError::Internal);
        },
    };
    let details = make_create_customer_details(req);
    get_or_create_customer(storage, &details, merchant, now);
    let ghost intents1 = storage.spec_intents(scheme);
    proof {
        assert(intent_key()(irow0) == (merchant.merchant_id@, payment_id@));
        assert(intents1[intents1.len() - 1] == irow0);
        assert(has_key(intents1, intent_key(), (merchant.merchant_id@, payment_id@)));
        lemma_index_of_key_unique(
            intents1,
            intent_key(),
            (merchant.merchant_id@, payment_id@),
            intents1.len() - 1,
        );
    }
    let upd = PaymentIntentUpdate::ActiveAttemptUpdate {
        active_attempt_id: attempt_id.clone(),
        modified_at: now,
    };
    let irow1 = match storage.update_payment_intent(
        scheme,
        payment_id.as_str(),
        merchant.merchant_id.as_str(),
        &upd,
    ) {
        Ok(row) => row,
        Err(_) => {
            proof {
                assert(false);
            }
            return Err(ApiError::Internal);
        },
    };
    Ok(
        PaymentResponse {
            payment_id,
            status: irow1.status,
            amount: req.amount,
            currency: req.currency,
            client_secret: Some(client_secret),
        },
    )
}

/// Runs the create flow, generating the fallback payment id (of the fixed
/// configured length) when the request carries none, a fresh attempt id,
/// and the client secret.
pub fn create_payment(
    storage: &mut Storage,
    merchant: &MerchantAccount,
    req: &CreateRequest,
    now: i64,
) -> (r: Result<PaymentResponse, ApiError>)
    requires
        old(storage).wf(),
    ensures
        final(storage).wf(),
        exists|payment_id: String, attempt_id: String, client_secret: String|
            {
                &&& (req.payment_id matches Some(p) ==> payment_id == p)
                &&& (req.payment_id is None ==> payment_id@.len()
                    == crate::ids::PAYMENT_ID_LENGTH)
                &&& #[trigger] spec_create_transition(
                    *old(storage),
                    *final(storage),
                    r,
                    *merchant,
                    *req,
                    payment_id,
                    attempt_id,
                    client_secret,
                    now,
                )
            },
{
    let payment_id = match &req.payment_id {
        Some(p) => p.clone(),
        None => crate::ids::generate_payment_id(),
    };
    let attempt_id = crate::ids::generate_attempt_id();
    let secret_token = crate::ids::generate_token();
    let client_secret = crate::ids::make_client_secret(payment_id.as_str(), &secret_token);
    let r = create_payment_with_ids(
        storage,
        merchant,
        req,
        payment_id,
        attempt_id,
        client_secret,
        now,
    );
    r
}

/// One valid create against a fresh business id persists exactly one intent
/// and one attempt; a second create with the same business id fails with
/// `DuplicateRecord` and changes nothing.
pub proof fn lemma_create_once_then_duplicate(
    intents: Seq<PaymentIntent>,
    attempts: Seq<PaymentAttempt>,
    customers: Seq<Customer>,
    merchant: MerchantAccount,
    req: CreateRequest,
    req2: CreateRequest,
    payment_id: String,
    attempt_id: String,
    attempt_id2: String,
    client_secret: String,
    client_secret2: String,
    now: i64,
    now2: i64,
)
    requires
        spec_validate_create(req, merchant) is None,
        spec_validate_create(req2, merchant) is None,
        !has_key(intents, intent_key(), (merchant.merchant_id@, payment_id@)),
        !has_key(
            attempts,
            crate::keys::attempt_key(),
            (merchant.merchant_id@, payment_id@, attempt_id@),
        ),
    ensures
        ({
            let e1 = spec_create_effect(
                intents,
                attempts,
                customers,
                true,
                merchant,
                req,
                payment_id,
                attempt_id,
                client_secret,
                now,
            );
            let e2 = spec_create_effect(
                e1.intents,
                e1.attempts,
                e1.customers,
                true,
                merchant,
                req2,
                payment_id,
                attempt_id2,
                client_secret2,
                now2,
            );
            &&& e1.result is Ok
            &&& e1.intents.len() == intents.len() + 1
            &&& e1.attempts.len() == attempts.len() + 1
            &&& e2.result == Err::<PaymentResponse, ApiError>(ApiError::DuplicateRecord)
            &&& e2.intents == e1.intents
            &&& e2.attempts == e1.attempts
            &&& e2.customers == e1.customers
        }),
{
    let e1 = spec_create_effect(
        intents,
        attempts,
        customers,
        true,
        merchant,
        req,
        payment_id,
        attempt_id,
        client_secret,
        now,
    );
    let irow0 = spec_build_intent(
        spec_create_intent_new(req, merchant, payment_id, client_secret),
        now,
    );
    let irow1 = spec_apply_intent_update(
        irow0,
        PaymentIntentUpdate::ActiveAttemptUpdate { active_attempt_id: attempt_id, modified_at: now },
    );
    assert(e1.intents[intents.len() as int] == irow1);
    assert(intent_key()(irow1) == (merchant.merchant_id@, payment_id@));
    assert(has_key(e1.intents, intent_key(), (merchant.merchant_id@, payment_id@)));
}

/// After a successful create under the cached scheme, draining the shard
/// owning the business id into any well-formed relational state leaves the
/// relational store holding, for that payment, exactly the intent row the
/// cache holds: submission-order replication closes the dual-write loop.
pub proof fn lemma_cached_create_catch_up(
    pre: Storage,
    post: Storage,
    r: Result<PaymentResponse, ApiError>,
    merchant: MerchantAccount,
    req: CreateRequest,
    payment_id: String,
    attempt_id: String,
    client_secret: String,
    now: i64,
    m: crate::relational::RelModel,
)
    requires
        pre.wf(),
        m.wf(),
        merchant.storage_scheme == StorageScheme::Cached,
        spec_create_transition(
            pre,
            post,
            r,
            merchant,
            req,
            payment_id,
            attempt_id,
            client_secret,
            now,
        ),
        r is Ok,
    ensures
        ({
            let k = (merchant.merchant_id@, payment_id@);
            let s = crate::kv::spec_shard(
                merchant.merchant_id@,
                payment_id@,
                pre.kv.spec_partitions(),
            );
            let ms = post.kv.shards@[s]@.map_values(|e: crate::stream::StreamEntry| e.mutation);
            let drained = crate::stream::spec_drain(m, ms);
            &&& drained.wf()
            &&& has_key(post.kv.cache@.intents, intent_key(), k)
            &&& has_key(drained.intents, intent_key(), k)
            &&& record_at_key(drained.intents, intent_key(), k) == record_at_key(
                post.kv.cache@.intents,
                intent_key(),
                k,
            )
        }),
{
    let k = (merchant.merchant_id@, payment_id@);
    let s = crate::kv::spec_shard(merchant.merchant_id@, payment_id@, pre.kv.spec_partitions());
    let irow0 = spec_build_intent(
        spec_create_intent_new(req, merchant, payment_id, client_secret),
        now,
    );
    let irow1 = spec_apply_intent_update(
        irow0,
        PaymentIntentUpdate::ActiveAttemptUpdate { active_attempt_id: attempt_id, modified_at: now },
    );
    let intents = pre.spec_intents(StorageScheme::Cached);

    // the cache holds irow1 at the payment's identity
    assert(intent_key()(irow0) == k);
    assert(intent_key()(irow1) == k);
    crate::keys::lemma_push_preserves_unique(intents, intent_key(), irow0);
    crate::keys::lemma_update_preserves_unique(
        intents.push(irow0),
        intent_key(),
        intents.len() as int,
        irow1,
    );
    assert(post.kv.cache@.intents[intents.len() as int] == irow1);
    assert(has_key(post.kv.cache@.intents, intent_key(), k));
    crate::keys::lemma_index_of_key_unique(
        post.kv.cache@.intents,
        intent_key(),
        k,
        intents.len() as int,
    );

    // the shard's last entry carries that same row, and nothing later
    // touches the identity; draining in order therefore lands it
    let ms = post.kv.shards@[s]@.map_values(|e: crate::stream::StreamEntry| e.mutation);
    let n0 = pre.kv.shards@[s]@.len() as int;
    assert(post.kv.shards@[s]@.len() == n0 + 3);
    assert(ms.len() == n0 + 3);
    assert(post.kv.shards@[s]@[n0 + 2].mutation == crate::stream::StreamMutation::UpsertIntent(
        irow1,
    ));
    assert(ms[n0 + 2] == crate::stream::StreamMutation::UpsertIntent(irow1));
    crate::stream::lemma_drain_last_write_wins(m, ms, n0 + 2, irow1);
}

/// The status a transition flow drives its intent towards; `None` for the
/// read-only synchronisation flow.
pub open spec fn spec_flow_target(flow: Flow) -> Option<IntentStatus> {
    match flow {
        Flow::Confirm => Some(IntentStatus::Processing),
        Flow::Capture => Some(IntentStatus::Succeeded),
        Flow::Cancel => Some(IntentStatus::Cancelled),
        Flow::Sync => None,
        Flow::Create => None,
        Flow::Verify => None,
    }
}

/// The target status of a transition flow.
pub fn flow_target(flow: Flow) -> (r: Option<IntentStatus>)
    ensures
        r == spec_flow_target(flow),
{
    match flow {
        Flow::Confirm => Some(IntentStatus::Processing),
        Flow::Capture => Some(IntentStatus::Succeeded),
        Flow::Cancel => Some(IntentStatus::Cancelled),
        Flow::Sync => None,
        Flow::Create => None,
        Flow::Verify => None,
    }
}

/// What a flow answers about an intent row.
pub open spec fn spec_intent_response(row: PaymentIntent) -> PaymentResponse {
    PaymentResponse {
        payment_id: row.payment_id,
        status: row.status,
        amount: row.amount,
        currency: row.currency,
        client_secret: row.client_secret,
    }
}

/// Builds the response reporting one intent row.
pub fn make_payment_response(row: &PaymentIntent) -> (r: PaymentResponse)
    ensures
        r == spec_intent_response(*row),
{
    PaymentResponse {
        payment_id: row.payment_id.clone(),
        status: row.status,
        amount: row.amount,
        currency: row.currency,
        client_secret: clone_opt_string(&row.client_secret),
    }
}

/// Drives one of the status-transition flows (confirm, capture, cancel) or
/// the read-only synchronisation flow over an existing intent. The next
/// status comes from the flow's tag; the transition is checked against the
/// intent state machine, so in particular no run moves an intent out of a
/// terminal status; exactly one update call, carrying one named changeset,
/// persists it.
pub fn run_status_flow(
    storage: &mut Storage,
    merchant: &MerchantAccount,
    flow: Flow,
    payment_id: &str,
    now: i64,
) -> (r: Result<PaymentResponse, ApiError>)
    requires
        old(storage).wf(),
        flow == Flow::Confirm || flow == Flow::Capture || flow == Flow::Cancel || flow
            == Flow::Sync,
    ensures
        final(storage).wf(),
        ({
            let scheme = merchant.storage_scheme;
            let k = (merchant.merchant_id@, payment_id@);
            let intents = old(storage).spec_intents(scheme);
            let prior = record_at_key(intents, intent_key(), k);
            match r {
                Ok(resp) => {
                    &&& has_key(intents, intent_key(), k)
                    &&& match spec_flow_target(flow) {
                        None => resp == spec_intent_response(prior) && *final(storage) == *old(
                            storage,
                        ),
                        Some(target) => {
                            let row = spec_apply_intent_update(
                                prior,
                                PaymentIntentUpdate::StatusUpdate { status: target, modified_at: now },
                            );
                            &&& crate::status::intent_edge(prior.status, target)
                            &&& old(storage).spec_stream_ok(scheme)
                            &&& resp == spec_intent_response(row)
                            &&& final(storage).spec_intents(scheme) == intents.update(
                                crate::keys::index_of_key(intents, intent_key(), k),
                                row,
                            )
                            &&& final(storage).spec_attempts(scheme) == old(storage).spec_attempts(
                                scheme,
                            )
                            &&& final(storage).spec_refunds(scheme) == old(storage).spec_refunds(
                                scheme,
                            )
                            &&& final(storage).rel@.customers == old(storage).rel@.customers
                            &&& (scheme == StorageScheme::Strict ==> final(storage).kv == old(
                                storage,
                            ).kv)
                            &&& (scheme == StorageScheme::Cached ==> final(storage).rel == old(
                                storage,
                            ).rel && crate::kv::shard_appended(
                                old(storage).kv,
                                final(storage).kv,
                                merchant.merchant_id@,
                                payment_id@,
                                crate::stream::StreamMutation::UpsertIntent(row),
                            ) && final(storage).kv.stream_healthy == old(storage).kv.stream_healthy)
                        },
                    }
                },
                Err(e) => match e {
                    ApiError::NotFound => !has_key(intents, intent_key(), k) && *final(storage)
                        == *old(storage),
                    ApiError::Validation(vi) => {
                        &&& vi == ValidationIssue::IllegalStatusTransition
                        &&& has_key(intents, intent_key(), k)
                        &&& (spec_flow_target(flow) matches Some(target)
                            && !crate::status::intent_edge(prior.status, target))
                        &&& *final(storage) == *old(storage)
                    },
                    ApiError::Consistency => {
                        let target = spec_flow_target(flow)->0;
                        let row = spec_apply_intent_update(
                            prior,
                            PaymentIntentUpdate::StatusUpdate { status: target, modified_at: now },
                        );
                        &&& scheme == StorageScheme::Cached
                        &&& !old(storage).kv.stream_healthy
                        &&& has_key(intents, intent_key(), k)
                        &&& spec_flow_target(flow) is Some
                        &&& crate::status::intent_edge(prior.status, target)
                        &&& final(storage).spec_intents(scheme) == intents.update(
                            crate::keys::index_of_key(intents, intent_key(), k),
                            row,
                        )
                        &&& final(storage).kv.shards@ == old(storage).kv.shards@
                        &&& final(storage).rel == old(storage).rel
                    },
                    _ => false,
                },
            }
        }),
{
    let scheme = merchant.storage_scheme;
    let prior = match storage.find_payment_intent(scheme, payment_id, merchant.merchant_id.as_str()) {
        Ok(row) => row,
        Err(_) => {
            return Err(ApiError::NotFound);
        },
    };
    match flow_target(flow) {
        None => Ok(make_payment_response(&prior)),
        Some(target) => {
            if !crate::status::intent_transition_allowed(prior.status, target) {
                return Err(ApiError::Validation(ValidationIssue::IllegalStatusTransition));
            }
            let upd = PaymentIntentUpdate::StatusUpdate { status: target, modified_at: now };
            match storage.update_payment_intent(
                scheme,
                payment_id,
                merchant.merchant_id.as_str(),
                &upd,
            ) {
                Ok(row) => Ok(make_payment_response(&row)),
                Err(e) => {
                    proof {
                        assert(e == StorageError::StreamAppendFailed);
                    }
                    Err(ApiError::Consistency)
                },
            }
        },
    }
}

/// The draft refund a validated refund request becomes: pending, against
/// the intent's currency and connector.
pub open spec fn spec_refund_new(
    req: crate::refund_api::RefundRequest,
    merchant: MerchantAccount,
    refund_id: String,
    intent: PaymentIntent,
    amount: i64,
) -> crate::entities::RefundNew {
    crate::entities::RefundNew {
        refund_id,
        payment_id: req.payment_id,
        merchant_id: merchant.merchant_id,
        connector: intent.connector_id,
        amount,
        currency: intent.currency,
        status: crate::status::RefundStatus::Pending,
        reason: req.reason,
        metadata: req.metadata,
        created_at: None,
        modified_at: None,
    }
}

/// Builds the draft refund of a validated request.
pub fn make_refund_new(
    req: &crate::refund_api::RefundRequest,
    merchant: &MerchantAccount,
    refund_id: &String,
    intent: &PaymentIntent,
    amount: i64,
) -> (r: crate::entities::RefundNew)
    ensures
        r == spec_refund_new(*req, *merchant, *refund_id, *intent, amount),
{
    crate::entities::RefundNew {
        refund_id: refund_id.clone(),
        payment_id: req.payment_id.clone(),
        merchant_id: merchant.merchant_id.clone(),
        connector: clone_opt_string(&intent.connector_id),
        amount,
        currency: intent.currency,
        status: crate::status::RefundStatus::Pending,
        reason: clone_opt_string(&req.reason),
        metadata: clone_opt_string(&req.metadata),
        created_at: None,
        modified_at: None,
    }
}

/// Everything one refund run decides and persists.
pub struct RefundEffect {
    pub result: Result<crate::entities::Refund, ApiError>,
    pub refunds: Seq<crate::entities::Refund>,
}

/// The refund flow: reject a merchant mismatch or a negative amount before
/// touching storage; answer `NotFound` for an unknown payment; reject an
/// amount exceeding the intent's remaining refundable amount (the intent's
/// amount less what earlier refunds consumed) with a `ValidationError` and
/// no refund row persisted; otherwise insert exactly one pending refund,
/// defaulting an absent amount to the full remaining refundable amount.
pub open spec fn spec_refund_effect(
    intents: Seq<PaymentIntent>,
    refunds: Seq<crate::entities::Refund>,
    stream_ok: bool,
    merchant: MerchantAccount,
    req: crate::refund_api::RefundRequest,
    refund_id: String,
    now: i64,
) -> RefundEffect {
    let k = (merchant.merchant_id@, req.payment_id@);
    if !spec_merchant_matches(req.merchant_id, merchant.merchant_id@) {
        RefundEffect {
            result: Err(ApiError::Validation(ValidationIssue::MerchantIdMismatch)),
            refunds,
        }
    } else if !has_key(intents, intent_key(), k) {
        RefundEffect { result: Err(ApiError::NotFound), refunds }
    } else {
        let intent = record_at_key(intents, intent_key(), k);
        let refunded = crate::relational::spec_refund_sum(
            refunds,
            merchant.merchant_id@,
            req.payment_id@,
        );
        let remaining = intent.amount - refunded;
        if req.amount matches Some(a) && a < 0 {
            RefundEffect {
                result: Err(ApiError::Validation(ValidationIssue::NegativeAmount)),
                refunds,
            }
        } else {
            let requested: int = if req.amount is Some {
                req.amount->0 as int
            } else {
                remaining
            };
            if requested < 0 || requested > remaining || requested > 0x7fff_ffff_ffff_ffff {
                RefundEffect {
                    result: Err(ApiError::Validation(ValidationIssue::RefundExceedsRemaining)),
                    refunds,
                }
            } else {
                let row = crate::entities::spec_build_refund(
                    spec_refund_new(req, merchant, refund_id, intent, requested as i64),
                    now,
                );
                if has_key(refunds, crate::keys::refund_key(), (merchant.merchant_id@, refund_id@)) {
                    RefundEffect { result: Err(ApiError::DuplicateRecord), refunds }
                } else if !stream_ok {
                    RefundEffect { result: Err(ApiError::Consistency), refunds: refunds.push(row) }
                } else {
                    RefundEffect { result: Ok(row), refunds: refunds.push(row) }
                }
            }
        }
    }
}

/// A refund asking for more than the intent's remaining refundable amount
/// — the intent's amount less what earlier refunds consumed — is rejected
/// with a `ValidationError` and no refund row is persisted. Together with
/// `spec_refund_transition`, which pins that on any validation error the
/// whole storage is unchanged, this holds under either storage scheme.
pub proof fn lemma_refund_over_ask_rejected(
    intents: Seq<PaymentIntent>,
    refunds: Seq<crate::entities::Refund>,
    stream_ok: bool,
    merchant: MerchantAccount,
    req: crate::refund_api::RefundRequest,
    refund_id: String,
    now: i64,
)
    requires
        spec_merchant_matches(req.merchant_id, merchant.merchant_id@),
        has_key(intents, intent_key(), (merchant.merchant_id@, req.payment_id@)),
        req.amount matches Some(a) && a >= 0,
        req.amount->0 as int > record_at_key(
            intents,
            intent_key(),
            (merchant.merchant_id@, req.payment_id@),
        ).amount - crate::relational::spec_refund_sum(
            refunds,
            merchant.merchant_id@,
            req.payment_id@,
        ),
    ensures
        ({
            let eff = spec_refund_effect(intents, refunds, stream_ok, merchant, req, refund_id, now);
            &&& eff.result == Err::<crate::entities::Refund, ApiError>(
                ApiError::Validation(ValidationIssue::RefundExceedsRemaining),
            )
            &&& eff.refunds == refunds
        }),
{
}

/// How one refund run relates the storage before it to the storage after
/// it.
pub open spec fn spec_refund_transition(
    pre: Storage,
    post: Storage,
    r: Result<crate::entities::Refund, ApiError>,
    merchant: MerchantAccount,
    req: crate::refund_api::RefundRequest,
    refund_id: String,
    now: i64,
) -> bool {
    let scheme = merchant.storage_scheme;
    let eff = spec_refund_effect(
        pre.spec_intents(scheme),
        pre.spec_refunds(scheme),
        pre.spec_stream_ok(scheme),
        merchant,
        req,
        refund_id,
        now,
    );
    let s = crate::kv::spec_shard(merchant.merchant_id@, req.payment_id@, pre.kv.spec_partitions());
    &&& r == eff.result
    &&& post.spec_refunds(scheme) == eff.refunds
    &&& post.spec_intents(scheme) == pre.spec_intents(scheme)
    &&& post.spec_attempts(scheme) == pre.spec_attempts(scheme)
    &&& post.rel@.customers == pre.rel@.customers
    &&& (r matches Err(ApiError::Validation(_)) ==> post == pre)
    &&& (r == Err::<crate::entities::Refund, ApiError>(ApiError::NotFound) ==> post == pre)
    &&& (r == Err::<crate::entities::Refund, ApiError>(ApiError::DuplicateRecord) ==> post
        == pre)
    &&& (scheme == StorageScheme::Strict ==> post.kv == pre.kv)
    &&& (scheme == StorageScheme::Cached ==> {
        &&& post.rel == pre.rel
        &&& post.kv.stream_healthy == pre.kv.stream_healthy
        &&& (r matches Ok(row) ==> crate::kv::shard_appended(
            pre.kv,
            post.kv,
            merchant.merchant_id@,
            req.payment_id@,
            crate::stream::StreamMutation::UpsertRefund(row),
        ))
        &&& (r is Err ==> post.kv.shards@ == pre.kv.shards@)
    })
}

/// Runs the refund flow, deterministic in the refund id its caller hands
/// it.
pub fn run_refund_with_id(
    storage: &mut Storage,
    merchant: &MerchantAccount,
    req: &crate::refund_api::RefundRequest,
    refund_id: String,
    now: i64,
) -> (r: Result<crate::entities::Refund, ApiError>)
    requires
        old(storage).wf(),
    ensures
        final(storage).wf(),
        spec_refund_transition(
            *old(storage),
            *final(storage),
            r,
            *merchant,
            *req,
            refund_id,
            now,
        ),
{
    let scheme = merchant.storage_scheme;
    if !validate_merchant_id(&req.merchant_id, merchant.merchant_id.as_str()) {
        return Err(ApiError::Validation(ValidationIssue::MerchantIdMismatch));
    }
    let intent = match storage.find_payment_intent(
        scheme,
        req.payment_id.as_str(),
        merchant.merchant_id.as_str(),
    ) {
        Ok(row) => row,
        Err(_) => {
            return Err(ApiError::NotFound);
        },
    };
    let refunded: i128 = storage.refunded_amount(
        scheme,
        req.payment_id.as_str(),
        merchant.merchant_id.as_str(),
    );
    let remaining: i128 = intent.amount as i128 - refunded;
    let requested: i128 = match req.amount {
        Some(a) => {
            if a < 0 {
                return Err(ApiError::Validation(ValidationIssue::NegativeAmount));
            }
            a as i128
        },
        None => remaining,
    };
    if requested < 0 || requested > remaining || requested > 0x7fff_ffff_ffff_ffff {
        return Err(ApiError::Validation(ValidationIssue::RefundExceedsRemaining));
    }
    let rnew = make_refund_new(req, merchant, &refund_id, &intent, requested as i64);
    match storage.insert_refund(scheme, rnew, now) {
        Ok(row) => Ok(row),
        Err(e) => match e {
            StorageError::DuplicateRecord => Err(ApiError::DuplicateRecord),
            StorageError::StreamAppendFailed => Err(ApiError::Consistency),
            _ => {
                proof {
                    assert(false);
                }
                Err(ApiError::Internal)
            },
        },
    }
}

/// The changeset a normalized connector outcome of a refund becomes: a
/// failed outcome carries its error data, any other outcome is a bare
/// status move.
pub open spec fn spec_refund_outcome_update(
    outcome: crate::status::RefundStatus,
    error_code: Option<String>,
    error_message: Option<String>,
    now: i64,
) -> crate::entities::RefundUpdate {
    if outcome == crate::status::RefundStatus::Failure || outcome
        == crate::status::RefundStatus::TransactionFailure {
        crate::entities::RefundUpdate::ErrorUpdate {
            status: outcome,
            error_code,
            error_message,
            modified_at: now,
        }
    } else {
        crate::entities::RefundUpdate::StatusUpdate { status: outcome, modified_at: now }
    }
}

/// Persists the normalized outcome the refund connector reported, through
/// exactly one named changeset. The refund state machine is enforced here:
/// an outcome that is no legal transition — in particular any move out of a
/// terminal status — is rejected and nothing changes.
pub fn apply_refund_outcome(
    storage: &mut Storage,
    merchant: &MerchantAccount,
    refund_id: &str,
    outcome: crate::status::RefundStatus,
    error_code: Option<String>,
    error_message: Option<String>,
    now: i64,
) -> (r: Result<crate::entities::Refund, ApiError>)
    requires
        old(storage).wf(),
    ensures
        final(storage).wf(),
        ({
            let scheme = merchant.storage_scheme;
            let k = (merchant.merchant_id@, refund_id@);
            let refunds = old(storage).spec_refunds(scheme);
            let prior = record_at_key(refunds, crate::keys::refund_key(), k);
            let row = crate::entities::spec_apply_refund_update(
                prior,
                spec_refund_outcome_update(outcome, error_code, error_message, now),
            );
            match r {
                Ok(res) => {
                    &&& has_key(refunds, crate::keys::refund_key(), k)
                    &&& crate::status::refund_edge(prior.status, outcome)
                    &&& old(storage).spec_stream_ok(scheme)
                    &&& res == row
                    &&& res.status == outcome
                    &&& final(storage).spec_refunds(scheme) == refunds.update(
                        crate::keys::index_of_key(refunds, crate::keys::refund_key(), k),
                        row,
                    )
                    &&& final(storage).spec_intents(scheme) == old(storage).spec_intents(scheme)
                    &&& final(storage).spec_attempts(scheme) == old(storage).spec_attempts(scheme)
                    &&& (scheme == StorageScheme::Strict ==> final(storage).kv == old(storage).kv)
                    &&& (scheme == StorageScheme::Cached ==> final(storage).rel == old(storage).rel
                        && crate::kv::shard_appended(
                        old(storage).kv,
                        final(storage).kv,
                        merchant.merchant_id@,
                        prior.payment_id@,
                        crate::stream::StreamMutation::UpsertRefund(row),
                    ))
                },
                Err(e) => match e {
                    ApiError::NotFound => !has_key(refunds, crate::keys::refund_key(), k) && *final(storage) == *old(storage),
                    ApiError::Validation(vi) => {
                        &&& vi == ValidationIssue::IllegalStatusTransition
                        &&& has_key(refunds, crate::keys::refund_key(), k)
                        &&& !crate::status::refund_edge(prior.status, outcome)
                        &&& *final(storage) == *old(storage)
                    },
                    ApiError::Consistency => {
                        &&& scheme == StorageScheme::Cached
                        &&& !old(storage).kv.stream_healthy
                        &&& has_key(refunds, crate::keys::refund_key(), k)
                        &&& crate::status::refund_edge(prior.status, outcome)
                        &&& final(storage).spec_refunds(scheme) == refunds.update(
                            crate::keys::index_of_key(refunds, crate::keys::refund_key(), k),
                            row,
                        )
                        &&& final(storage).kv.shards@ == old(storage).kv.shards@
                    },
                    _ => false,
                },
            }
        }),
{
    let scheme = merchant.storage_scheme;
    let prior = match storage.find_refund(scheme, refund_id, merchant.merchant_id.as_str()) {
        Ok(row) => row,
        Err(_) => {
            return Err(ApiError::NotFound);
        },
    };
    if !crate::status::refund_transition_allowed(prior.status, outcome) {
        return Err(ApiError::Validation(ValidationIssue::IllegalStatusTransition));
    }
    let failed = matches!(
        outcome,
        crate::status::RefundStatus::Failure | crate::status::RefundStatus::TransactionFailure
    );
    let upd = if failed {
        crate::entities::RefundUpdate::ErrorUpdate {
            status: outcome,
            error_code,
            error_message,
            modified_at: now,
        }
    } else {
        crate::entities::RefundUpdate::StatusUpdate { status: outcome, modified_at: now }
    };
    match storage.update_refund(scheme, refund_id, merchant.merchant_id.as_str(), &upd) {
        Ok(row) => Ok(row),
        Err(e) => {
            proof {
                assert(e == StorageError::StreamAppendFailed);
            }
            Err(ApiError::Consistency)
        },
    }
}

/// Persists the normalized outcome the payment connector reported for one
/// attempt, through exactly one named changeset. The attempt state machine
/// is enforced here: no outcome moves an attempt out of a terminal status.
pub fn apply_attempt_outcome(
    storage: &mut Storage,
    merchant: &MerchantAccount,
    payment_id: &str,
    attempt_id: &str,
    outcome: AttemptStatus,
    now: i64,
) -> (r: Result<PaymentAttempt, ApiError>)
    requires
        old(storage).wf(),
    ensures
        final(storage).wf(),
        ({
            let scheme = merchant.storage_scheme;
            let k = (merchant.merchant_id@, payment_id@, attempt_id@);
            let attempts = old(storage).spec_attempts(scheme);
            let prior = record_at_key(attempts, crate::keys::attempt_key(), k);
            let row = crate::entities::spec_apply_attempt_update(
                prior,
                crate::entities::PaymentAttemptUpdate::StatusUpdate {
                    status: outcome,
                    modified_at: now,
                },
            );
            match r {
                Ok(res) => {
                    &&& has_key(attempts, crate::keys::attempt_key(), k)
                    &&& crate::status::attempt_edge(prior.status, outcome)
                    &&& old(storage).spec_stream_ok(scheme)
                    &&& res == row
                    &&& res.status == outcome
                    &&& final(storage).spec_attempts(scheme) == attempts.update(
                        crate::keys::index_of_key(attempts, crate::keys::attempt_key(), k),
                        row,
                    )
                    &&& final(storage).spec_intents(scheme) == old(storage).spec_intents(scheme)
                    &&& final(storage).spec_refunds(scheme) == old(storage).spec_refunds(scheme)
                    &&& (scheme == StorageScheme::Strict ==> final(storage).kv == old(storage).kv)
                    &&& (scheme == StorageScheme::Cached ==> final(storage).rel == old(storage).rel
                        && crate::kv::shard_appended(
                        old(storage).kv,
                        final(storage).kv,
                        merchant.merchant_id@,
                        payment_id@,
                        crate::stream::StreamMutation::UpsertAttempt(row),
                    ))
                },
                Err(e) => match e {
                    ApiError::NotFound => !has_key(attempts, crate::keys::attempt_key(), k)
                        && *final(storage) == *old(storage),
                    ApiError::Validation(vi) => {
                        &&& vi == ValidationIssue::IllegalStatusTransition
                        &&& has_key(attempts, crate::keys::attempt_key(), k)
                        &&& !crate::status::attempt_edge(prior.status, outcome)
                        &&& *final(storage) == *old(storage)
                    },
                    ApiError::Consistency => {
                        &&& scheme == StorageScheme::Cached
                        &&& !old(storage).kv.stream_healthy
                        &&& has_key(attempts, crate::keys::attempt_key(), k)
                        &&& crate::status::attempt_edge(prior.status, outcome)
                        &&& final(storage).spec_attempts(scheme) == attempts.update(
                            crate::keys::index_of_key(attempts, crate::keys::attempt_key(), k),
                            row,
                        )
                        &&& final(storage).kv.shards@ == old(storage).kv.shards@
                    },
                    _ => false,
                },
            }
        }),
{
    let scheme = merchant.storage_scheme;
    let prior = match storage.find_payment_attempt(
        scheme,
        payment_id,
        merchant.merchant_id.as_str(),
        attempt_id,
    ) {
        Ok(row) => row,
        Err(_) => {
            return Err(ApiError::NotFound);
        },
    };
    if !crate::status::attempt_transition_allowed(prior.status, outcome) {
        return Err(ApiError::Validation(ValidationIssue::IllegalStatusTransition));
    }
    let upd = crate::entities::PaymentAttemptUpdate::StatusUpdate {
        status: outcome,
        modified_at: now,
    };
    match storage.update_payment_attempt(
        scheme,
        payment_id,
        merchant.merchant_id.as_str(),
        attempt_id,
        &upd,
    ) {
        Ok(row) => Ok(row),
        Err(e) => {
            proof {
                assert(e == StorageError::StreamAppendFailed);
            }
            Err(ApiError::Consistency)
        },
    }
}

/// Runs the refund flow, generating the refund's idempotency key when the
/// request carries none.
pub fn run_refund(
    storage: &mut Storage,
    merchant: &MerchantAccount,
    req: &crate::refund_api::RefundRequest,
    now: i64,
) -> (r: Result<crate::entities::Refund, ApiError>)
    requires
        old(storage).wf(),
    ensures
        final(storage).wf(),
        exists|refund_id: String|
            {
                &&& (req.refund_id matches Some(given) ==> refund_id == given)
                &&& (req.refund_id is None ==> refund_id@.len() == crate::ids::REFUND_ID_LENGTH)
                &&& #[trigger] spec_refund_transition(
                    *old(storage),
                    *final(storage),
                    r,
                    *merchant,
                    *req,
                    refund_id,
                    now,
                )
            },
{
    let refund_id = match &req.refund_id {
        Some(given) => given.clone(),
        None => crate::ids::generate_refund_id(),
    };
    run_refund_with_id(storage, merchant, req, refund_id, now)
}

} // verus!
