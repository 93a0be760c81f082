//! Refund API types: requests, responses, list constraints, and the mapping
//! from storage-level refund statuses to the API-level ones.

use std::collections::HashMap;

use vstd::prelude::*;

use crate::entities::clone_opt_string;
use crate::status;
use crate::status::Currency;

verus! {

/// Whether a refund is to be executed at once or scheduled.
#[derive(Clone, Copy, Debug, PartialEq, Eq, Structural)]
pub enum RefundType {
    Scheduled,
    Instant,
}

impl Default for RefundType {
    fn default() -> (r: Self)
        ensures
            r == RefundType::Scheduled,
    {
        RefundType::Scheduled
    }
}

/// The status of a refund as the API reports it.
#[derive(Clone, Copy, Debug, PartialEq, Eq, Structural)]
pub enum RefundStatus {
    Succeeded,
    Failed,
    Pending,
    Review,
}

impl Default for RefundStatus {
    fn default() -> (r: Self)
        ensures
            r == RefundStatus::Pending,
    {
        RefundStatus::Pending
    }
}

/// The API status a storage status is reported as: both failure kinds fold
/// into `Failed`, manual review is `Review`.
pub open spec fn spec_refund_status_from(s: status::RefundStatus) -> RefundStatus {
    match s {
        status::RefundStatus::Failure => RefundStatus::Failed,
        status::RefundStatus::TransactionFailure => RefundStatus::Failed,
        status::RefundStatus::ManualReview => RefundStatus::Review,
        status::RefundStatus::Pending => RefundStatus::Pending,
        status::RefundStatus::Success => RefundStatus::Succeeded,
    }
}

impl From<status::RefundStatus> for RefundStatus {
    fn from(s: status::RefundStatus) -> (r: Self)
        ensures
            r == spec_refund_status_from(s),
    {
        match s {
            status::RefundStatus::Failure | status::RefundStatus::TransactionFailure => {
                RefundStatus::Failed
            },
            status::RefundStatus::ManualReview => RefundStatus::Review,
            status::RefundStatus::Pending => RefundStatus::Pending,
            status::RefundStatus::Success => RefundStatus::Succeeded,
        }
    }
}

impl vstd::std_specs::convert::FromSpecImpl<status::RefundStatus> for RefundStatus {
    open spec fn obeys_from_spec() -> bool {
        true
    }

    open spec fn from_spec(s: status::RefundStatus) -> Self {
        spec_refund_status_from(s)
    }
}

/// A request to initiate a refund against a payment.
pub struct RefundRequest {
    /// The payment the refund is initiated against.
    pub payment_id: String,
    /// Idempotency key of the refund; generated when absent.
    pub refund_id: Option<String>,
    /// The requesting merchant, which must match the authenticated one.
    pub merchant_id: Option<String>,
    /// Amount to refund, in the lowest denomination; the full remaining
    /// refundable amount when absent.
    pub amount: Option<i64>,
    /// Free-form reason.
    pub reason: Option<String>,
    /// Whether the refund is instant or scheduled.
    pub refund_type: Option<RefundType>,
    /// Free-form metadata.
    pub metadata: Option<String>,
}

impl Clone for RefundRequest {
    fn clone(&self) -> (r: Self)
        ensures
            r == *self,
    {
        RefundRequest {
            payment_id: self.payment_id.clone(),
            refund_id: clone_opt_string(&self.refund_id),
            merchant_id: clone_opt_string(&self.merchant_id),
            amount: self.amount,
            reason: clone_opt_string(&self.reason),
            refund_type: self.refund_type,
            metadata: clone_opt_string(&self.metadata),
        }
    }
}

/// Body of a refund-retrieve call.
#[derive(Debug)]
pub struct RefundsRetrieveBody {
    pub force_sync: Option<bool>,
}

/// A request to retrieve one refund.
pub struct RefundsRetrieveRequest {
    /// Idempotency key of the refund to retrieve.
    pub refund_id: String,
    /// Whether to synchronise with the connector first.
    pub force_sync: Option<bool>,
}

/// A request to update a refund's free-form fields.
pub struct RefundUpdateRequest {
    pub refund_id: String,
    pub reason: Option<String>,
    pub metadata: Option<String>,
}

/// A refund as the API reports it.
#[derive(Debug)]
pub struct RefundResponse {
    pub refund_id: String,
    pub payment_id: String,
    pub amount: i64,
    pub currency: String,
    pub status: RefundStatus,
    pub reason: Option<String>,
    pub metadata: Option<String>,
    pub error_message: Option<String>,
    pub error_code: Option<String>,
    pub created_at: Option<i64>,
    pub updated_at: Option<i64>,
    pub connector: String,
}

/// The ISO code of a currency.
pub fn currency_code(c: Currency) -> (r: &'static str)
    ensures
        c == Currency::USD ==> r@ == "USD"@,
        c == Currency::EUR ==> r@ == "EUR"@,
        c == Currency::GBP ==> r@ == "GBP"@,
        c == Currency::INR ==> r@ == "INR"@,
        c == Currency::JPY ==> r@ == "JPY"@,
{
    match c {
        Currency::USD => "USD",
        Currency::EUR => "EUR",
        Currency::GBP => "GBP",
        Currency::INR => "INR",
        Currency::JPY => "JPY",
    }
}

/// Builds the API response reporting one refund row.
pub fn make_refund_response(row: &crate::entities::Refund) -> (r: RefundResponse)
    ensures
        r.refund_id == row.refund_id,
        r.payment_id == row.payment_id,
        r.amount == row.amount,
        r.status == spec_refund_status_from(row.status),
        r.reason == row.reason,
        r.metadata == row.metadata,
        r.error_message == row.error_message,
        r.error_code == row.error_code,
        r.created_at == Some(row.created_at),
        r.updated_at == Some(row.modified_at),
        row.connector matches Some(c) ==> r.connector == c,
        row.connector is None ==> r.connector@ == Seq::<char>::empty(),
{
    RefundResponse {
        refund_id: row.refund_id.clone(),
        payment_id: row.payment_id.clone(),
        amount: row.amount,
        currency: String::from_str(currency_code(row.currency)),
        status: RefundStatus::from(row.status),
        reason: clone_opt_string(&row.reason),
        metadata: clone_opt_string(&row.metadata),
        error_message: clone_opt_string(&row.error_message),
        error_code: clone_opt_string(&row.error_code),
        created_at: Some(row.created_at),
        updated_at: Some(row.modified_at),
        connector: match &row.connector {
            Some(c) => c.clone(),
            None => String::new(),
        },
    }
}

/// A half-open time window over record creation times.
#[derive(Clone, Copy, Debug)]
pub struct TimeRange {
    pub start_time: i64,
    pub end_time: Option<i64>,
}

/// Bounds on refund amounts for list filtering.
#[derive(Clone, Copy, Debug)]
pub struct AmountFilter {
    pub start_amount: Option<i64>,
    pub end_amount: Option<i64>,
}

/// Constraints of a refund-list call; absent fields do not constrain.
pub struct RefundListRequest {
    pub payment_id: Option<String>,
    pub refund_id: Option<String>,
    pub limit: Option<i64>,
    pub offset: Option<i64>,
    pub time_range: Option<TimeRange>,
    pub amount_filter: Option<AmountFilter>,
    pub connector: Option<Vec<String>>,
    pub currency: Option<Vec<Currency>>,
    pub refund_status: Option<Vec<status::RefundStatus>>,
}

/// A page of refunds.
pub struct RefundListResponse {
    /// The number of refunds in this page.
    pub count: usize,
    /// The total number of refunds matching the constraints.
    pub total_count: i64,
    /// The refunds of this page.
    pub data: Vec<RefundResponse>,
}

/// The filter values available over a merchant's refunds.
pub struct RefundListMetaData {
    pub connector: Vec<String>,
    pub currency: Vec<Currency>,
    pub refund_status: Vec<status::RefundStatus>,
}

/// Connector exposed by a merchant, for list filters.
pub struct MerchantConnectorInfo {
    pub connector_label: String,
    pub merchant_connector_id: String,
}

/// The filter values available over a merchant's refunds, with connector
/// details grouped by connector name.
pub struct RefundListFilters {
    pub connector: HashMap<String, Vec<MerchantConnectorInfo>>,
    pub currency: Vec<Currency>,
    pub refund_status: Vec<status::RefundStatus>,
}

/// Whether a list of currencies names one.
pub fn currency_list_contains(list: &Vec<Currency>, c: Currency) -> (r: bool)
    ensures
        r == list@.contains(c),
{
    let mut i: usize = 0;
    while i < list.len()
        invariant
            i <= list@.len(),
            forall|j: int| 0 <= j < i ==> list@[j] != c,
        decreases list@.len() - i,
    {
        if list[i] == c {
            return true;
        }
        i += 1;
    }
    false
}

/// Whether a list of storage refund statuses names one.
pub fn status_list_contains(list: &Vec<status::RefundStatus>, s: status::RefundStatus) -> (r: bool)
    ensures
        r == list@.contains(s),
{
    let mut i: usize = 0;
    while i < list.len()
        invariant
            i <= list@.len(),
            forall|j: int| 0 <= j < i ==> list@[j] != s,
        decreases list@.len() - i,
    {
        if list[i] == s {
            return true;
        }
        i += 1;
    }
    false
}

/// Whether a refund row satisfies every present constraint of a list
/// request (paging aside).
pub open spec fn spec_refund_matches(row: crate::entities::Refund, req: RefundListRequest) -> bool {
    &&& (req.payment_id matches Some(p) ==> row.payment_id@ == p@)
    &&& (req.refund_id matches Some(rid) ==> row.refund_id@ == rid@)
    &&& (req.time_range matches Some(tr) ==> tr.start_time <= row.created_at && (tr.end_time
        matches Some(e) ==> row.created_at <= e))
    &&& (req.amount_filter matches Some(af) ==> (af.start_amount matches Some(a) ==> row.amount
        >= a) && (af.end_amount matches Some(b) ==> row.amount <= b))
    &&& (req.currency matches Some(cs) ==> cs@.contains(row.currency))
    &&& (req.refund_status matches Some(ss) ==> ss@.contains(row.status))
}

/// Checks a refund row against the present constraints of a list request.
pub fn refund_matches(row: &crate::entities::Refund, req: &RefundListRequest) -> (r: bool)
    ensures
        r == spec_refund_matches(*row, *req),
{
    let payment_ok = match &req.payment_id {
        Some(p) => crate::keys::str_eq(row.payment_id.as_str(), p.as_str()),
        None => true,
    };
    let refund_ok = match &req.refund_id {
        Some(rid) => crate::keys::str_eq(row.refund_id.as_str(), rid.as_str()),
        None => true,
    };
    let time_ok = match &req.time_range {
        Some(tr) => tr.start_time <= row.created_at && match tr.end_time {
            Some(e) => row.created_at <= e,
            None => true,
        },
        None => true,
    };
    let amount_ok = match &req.amount_filter {
        Some(af) => (match af.start_amount {
            Some(a) => row.amount >= a,
            None => true,
        }) && (match af.end_amount {
            Some(b) => row.amount <= b,
            None => true,
        }),
        None => true,
    };
    let currency_ok = match &req.currency {
        Some(cs) => currency_list_contains(cs, row.currency),
        None => true,
    };
    let status_ok = match &req.refund_status {
        Some(ss) => status_list_contains(ss, row.status),
        None => true,
    };
    payment_ok && refund_ok && time_ok && amount_ok && currency_ok && status_ok
}

/// Marker of the refund-execution flow at the connector boundary.
#[derive(Debug, Clone)]
pub struct Execute;

/// Marker of the refund-synchronisation flow at the connector boundary.
#[derive(Debug, Clone)]
pub struct RSync;

/// A connector that can execute refunds. Wire-level integration is an
/// external collaborator; this marks the capability.
pub trait RefundExecute {
}

/// A connector that can report refund state.
pub trait RefundSync {
}

/// A connector offering the full refund surface.
pub trait Refund: RefundExecute + RefundSync {
}

} // verus!
