#![allow(non_camel_case_types)]
use vstd::prelude::*;
use std::collections::HashMap;

verus! {

/// Represent a base64 encoded string.
pub type Base64String = String;

/// Represent the possible states of an invoice; the numbers that stand for
/// them are those of `get_state_indicator`.
#[derive(Debug, Clone, PartialEq, Eq, Structural)]
pub enum InvoiceState {
    /// The invoice is open and awaiting payment.
    OPEN,
    /// The invoice has been settled and the payment has been confirmed.
    SETTLED,
    /// The invoice has been canceled and is no longer valid.
    CANCELED,
    /// The invoice has been accepted but not yet settled.
    ACCEPTED,
    /// The invoice has been expired but not yet settled.
    EXPIRED,
}

/// Represent the possible statuses of a payment; the numbers that stand for
/// them are those of `get_payment_status`.
#[derive(Debug, Clone, PartialEq, Eq, Structural)]
pub enum PaymentStatus {
    /// The payment status is unknown.
    UNKNOWN,
    /// The payment is currently in flight.
    IN_FLIGHT,
    /// The payment completed successfully.
    SUCCEEDED,
    /// The payment failed.
    FAILED,
}

/// Represent the possible failure reasons of a payment; the numbers that
/// stand for them are those of `get_payment_failure_status`.
#[derive(Debug, Clone, PartialEq, Eq, Structural)]
pub enum PaymentFailureReason {
    /// Payment isn't failed (yet).
    FAILURE_REASON_NONE,
    /// There are more routes to try, but the payment timeout was exceeded.
    FAILURE_REASON_TIMEOUT,
    /// All possible routes were tried and failed permanently. Or were no routes to the destination at all.
    FAILURE_REASON_NO_ROUTE,
    /// A non-recoverable error has occured.
    FAILURE_REASON_ERROR,
    /// Payment details incorrect (unknown hash, invalid amt or invalid final cltv delta).
    FAILURE_REASON_INCORRECT_PAYMENT_DETAILS,
    /// Insufficient local balance.
    FAILURE_REASON_INSUFFICIENT_BALANCE,
}

/// Represent the possible statuses of an HTLCAttempt (LND numbers them from
/// zero in this order).
#[derive(Debug, Clone, PartialEq, Eq, Structural)]
pub enum HTLCStatus {
    /// The HTLC is currently in flight.
    IN_FLIGHT,
    /// The HTLC completed successfully.
    SUCCEEDED,
    /// The HTLC failed.
    FAILED,
}

/// Represent the possible failure reasons of an HTLCAttempt, in LND's order
/// (the last three are LND's codes 997, 998 and 999; the others count from
/// zero).
#[derive(Debug, Clone, PartialEq, Eq, Structural)]
pub enum FailureCode {
    /// Reserved failure reason.
    RESERVED,
    /// Incorrect or unknown payment details.
    INCORRECT_OR_UNKNOWN_PAYMENT_DETAILS,
    /// Incorrect payment amount.
    INCORRECT_PAYMENT_AMOUNT,
    /// Final incorrect CLTV expiry.
    FINAL_INCORRECT_CLTV_EXPIRY,
    /// Final incorrect HTLC amount.
    FINAL_INCORRECT_HTLC_AMOUNT,
    /// Final expiry too soon.
    FINAL_EXPIRY_TOO_SOON,
    /// Invalid realm.
    INVALID_REALM,
    /// Expiry too soon.
    EXPIRY_TOO_SOON,
    /// Invalid onion version.
    INVALID_ONION_VERSION,
    /// Invalid onion HMAC.
    INVALID_ONION_HMAC,
    /// Invalid onion key.
    INVALID_ONION_KEY,
    /// Amount below minimum.
    AMOUNT_BELOW_MINIMUM,
    /// Fee insufficient.
    FEE_INSUFFICIENT,
    /// Incorrect CLTV expiry.
    INCORRECT_CLTV_EXPIRY,
    /// Channel disabled.
    CHANNEL_DISABLED,
    /// Temporary channel failure.
    TEMPORARY_CHANNEL_FAILURE,
    /// Required node feature missing.
    REQUIRED_NODE_FEATURE_MISSING,
    /// Required channel feature missing.
    REQUIRED_CHANNEL_FEATURE_MISSING,
    /// Unknown next peer.
    UNKNOWN_NEXT_PEER,
    /// Temporary node failure.
    TEMPORARY_NODE_FAILURE,
    /// Permanent node failure.
    PERMANENT_NODE_FAILURE,
    /// Permanent channel failure.
    PERMANENT_CHANNEL_FAILURE,
    /// Expiry too far.
    EXPIRY_TOO_FAR,
    /// MPP timeout.
    MPP_TIMEOUT,
    /// Invalid onion payload.
    INVALID_ONION_PAYLOAD,
    /// Internal failure.
    INTERNAL_FAILURE,
    /// Unknown failure.
    UNKNOWN_FAILURE,
    /// An unreadable failure result is returned if the received failure message cannot be decrypted.
    UNREADABLE_FAILURE,
}

/// The feature bits of LND's router API; each is named after its bit, and the
/// bit of an optional feature is one above that of the required one.
#[derive(Debug, Clone, PartialEq, Eq, Structural)]
pub enum FeatureBit {
    /// Request for dataloss protection.
    DATALOSS_PROTECT_REQ,
    /// Optional dataloss protection.
    DATALOSS_PROTECT_OPT,
    /// Initial routing sync request.
    INITIAL_ROUING_SYNC,
    /// Request for an upfront shutdown script.
    UPFRONT_SHUTDOWN_SCRIPT_REQ,
    /// Optional upfront shutdown script.
    UPFRONT_SHUTDOWN_SCRIPT_OPT,
    /// Request for gossip queries.
    GOSSIP_QUERIES_REQ,
    /// Optional gossip queries.
    GOSSIP_QUERIES_OPT,
    /// Request for TLV onion.
    TLV_ONION_REQ,
    /// Optional TLV onion.
    TLV_ONION_OPT,
    /// Request for extended gossip queries.
    EXT_GOSSIP_QUERIES_REQ,
    /// Optional extended gossip queries.
    EXT_GOSSIP_QUERIES_OPT,
    /// Request for static remote key.
    STATIC_REMOTE_KEY_REQ,
    /// Optional static remote key.
    STATIC_REMOTE_KEY_OPT,
    /// Request for payment address.
    PAYMENT_ADDR_REQ,
    /// Optional payment address.
    PAYMENT_ADDR_OPT,
    /// Request for multi-path payments.
    MPP_REQ,
    /// Optional multi-path payments.
    MPP_OPT,
    /// Request for wumbo channels.
    WUMBO_CHANNELS_REQ,
    /// Optional wumbo channels.
    WUMBO_CHANNELS_OPT,
    /// Request for anchor commitments.
    ANCHORS_REQ,
    /// Optional anchor commitments.
    ANCHORS_OPT,
    /// Request for anchor commitments with zero fee HTLC support.
    ANCHORS_ZERO_FEE_HTLC_REQ,
    /// Optional anchor commitments with zero fee HTLC support.
    ANCHORS_ZERO_FEE_HTLC_OPT,
    /// Request for AMP (Atomic Multi-Path) payments.
    AMP_REQ,
    /// Optional AMP (Atomic Multi-Path) payments.
    AMP_OPT,
}

/// See LND's API documentation for `lnrpc.Invoice` (add invoice).
#[derive(Debug, Default, Clone)]
pub struct AddInvoiceRequest {
    pub memo: Option<String>,
    pub r_preimage: Option<String>,
    pub value: u64,
    pub description_hash: Option<String>,
    pub expiry: i32,
    pub fallback_addr: Option<String>,
    pub cltv_expiry: Option<i32>,
}

/// See LND's API documentation for `lnrpc.AddInvoiceResponse`.
#[derive(Debug, Eq, PartialEq, Clone)]
pub struct AddInvoiceResponse {
    pub r_hash: Base64String,
    pub payment_request: String,
    pub add_index: String,
    pub payment_addr: Base64String,
}

/// See LND's API documentation for `lnrpc.Invoice` (lookup invoice); LND
/// writes its 64-bit numbers as decimal text.
#[derive(Debug, Eq, PartialEq, Clone)]
pub struct LookupInvoiceResponse {
    pub memo: String,
    pub r_preimage: Base64String,
    pub r_hash: Base64String,
    pub value: String,
    pub value_msat: String,
    pub settled: bool,
    pub settle_date: String,
    pub creation_date: String,
    pub payment_request: String,
    pub expiry: String,
    pub cltv_expiry: String,
    pub private: bool,
    pub add_index: String,
    pub settle_index: String,
    pub amt_paid: String,
    pub amt_paid_sat: String,
    pub amt_paid_msat: String,
    pub state: InvoiceState,
    pub status: Option<u32>,
}

/// See LND's API documentation for `lnrpc.FeeLimit`.
#[derive(Debug, Eq, PartialEq, Clone)]
pub struct FeeLimit {
    pub fixed: String,
    pub fixed_msat: String,
    pub percent: String,
}

/// See LND's API documentation for `lnrpc.RouteHint`.
#[derive(Debug, Eq, PartialEq, Clone)]
pub struct RouteHint {
    pub hop_hints: Vec<String>,
}

/// See LND's API documentation for `lnrpc.SendRequest.DestCustomRecordsEntry`.
#[derive(Debug, Eq, PartialEq, Clone)]
pub struct DestCustomRecordsEntry {
    pub key: u64,
    pub value: Vec<u8>,
}

/// See LND's API documentation for `lnrpc.MPPRecord`.
#[derive(Debug, Eq, PartialEq, Clone)]
pub struct MppRecord {
    pub payment_addr: Base64String,
    pub total_amt_msat: String,
}

/// See LND's API documentation for `lnrpc.AMPRecord`.
#[derive(Debug, Eq, PartialEq, Clone)]
pub struct AmpRecord {
    pub root_share: Base64String,
    pub set_id: Base64String,
    pub child_index: i64,
}

/// See LND's API documentation for `lnrpc.Hop`.
#[derive(Debug, Eq, PartialEq, Clone)]
pub struct Hop {
    pub chan_id: String,
    pub chan_capacity: String,
    pub amt_to_forward: String,
    pub fee: String,
    pub expiry: i64,
    pub amt_to_forward_msat: String,
    pub fee_msat: String,
    pub pub_key: Option<String>,
    pub tlv_payload: bool,
    pub mpp_record: Option<MppRecord>,
    pub amp_record: Option<AmpRecord>,
    pub custom_records: HashMap<String, String>,
    pub metadata: Base64String,
}

/// See LND's API documentation for `lnrpc.Route`.
#[derive(Debug, Eq, PartialEq, Clone)]
pub struct Route {
    pub total_time_lock: i64,
    pub total_amt: String,
    pub total_amt_msat: String,
    pub total_fees: String,
    pub total_fees_msat: String,
    pub hops: Vec<Hop>,
}

/// See LND's API documentation for `lnrpc.Payment` (router send payment v2).
#[derive(Debug, Eq, PartialEq, Clone)]
pub struct SendPaymentV2Response {
    pub payment_hash: String,
    pub value: String,
    pub creation_date: String,
    pub fee: String,
    pub payment_preimage: String,
    pub value_sat: String,
    pub value_msat: String,
    pub payment_request: String,
    pub status: PaymentStatus,
    pub fee_sat: String,
    pub fee_msat: String,
    pub creation_time_ns: String,
    pub htlcs: Vec<HTLCAttempt>,
    pub payment_index: String,
    pub failure_reason: PaymentFailureReason,
}

/// A shorter account of a payment, with its status codes.
#[derive(Debug, Eq, PartialEq, Clone)]
pub struct CustomSendPaymentV2Response {
    pub payment_hash: String,
    pub payment_preimage: String,
    pub payment_index: String,
    pub value_sat: String,
    pub fee: String,
    pub creation_date: String,
    pub status: PaymentStatus,
    pub num_hops: Option<u32>,
    pub code_payment_status: Option<u32>,
    pub code_failure_status: Option<u32>,
    pub status_message: Option<String>,
}

/// See LND's API documentation for `lnrpc.ListPaymentsRequest`.
#[derive(Debug, Default, Clone)]
pub struct ListPaymentsRequest {
    pub include_incomplete: bool,
    pub index_offset: u64,
    pub max_payments: u64,
    pub reversed: bool,
    pub count_total_payments: bool,
    pub creation_date_start: u64,
    pub creation_date_end: u64,
}

/// See LND's API documentation for `lnrpc.ChannelUpdate`.
#[derive(Debug, Eq, PartialEq, Clone)]
pub struct ChannelUpdate {
    pub signature: String,
    pub chain_hash: String,
    pub chan_id: String,
    pub timestamp: u32,
    pub message_flags: u32,
    pub channel_flags: u32,
    pub time_lock_delta: u32,
    pub htlc_minimum_msat: String,
    pub base_fee: u32,
    pub fee_rate: u32,
    pub htlc_maximum_msat: String,
    pub extra_opaque_data: String,
}

/// See LND's API documentation for `lnrpc.Failure`.
#[derive(Debug, Eq, PartialEq, Clone)]
pub struct Failure {
    pub code: FailureCode,
    pub channel_update: Option<ChannelUpdate>,
    pub htlc_msat: String,
    pub onion_sha_256: String,
    pub cltv_expiry: u32,
    pub flags: u32,
    pub failure_source_index: u32,
    pub height: u32,
}

/// See LND's API documentation for `lnrpc.HTLCAttempt`.
#[derive(Debug, Eq, PartialEq, Clone)]
pub struct HTLCAttempt {
    pub attempt_id: String,
    pub status: HTLCStatus,
    pub route: Route,
    pub attempt_time_ns: String,
    pub resolve_time_ns: String,
    pub failure: Option<Failure>,
    pub preimage: String,
}

/// See LND's API documentation for `lnrpc.Payment` (list payments).
#[derive(Debug, Eq, PartialEq, Clone)]
pub struct Payment {
    pub payment_hash: Base64String,
    pub payment_preimage: Base64String,
    pub payment_request: String,
    pub status: PaymentStatus,
    pub fee_sat: String,
    pub fee_msat: String,
    pub value_sat: String,
    pub value_msat: String,
    pub creation_time_ns: String,
    pub htlcs: Vec<HTLCAttempt>,
    pub payment_index: String,
    pub failure_reason: PaymentFailureReason,
}

/// See LND's API documentation for `lnrpc.ListPaymentsResponse`.
#[derive(Debug, Eq, PartialEq, Clone)]
pub struct ListPaymentsResponse {
    pub payments: Vec<Payment>,
    pub first_index_offset: String,
    pub last_index_offset: String,
    pub total_num_payments: String,
}

/// The amount and payment hash of a BOLT 11 invoice.
#[derive(Debug, Default, Eq, PartialEq, Clone)]
pub struct DecodeInvoice {
    pub amount: u64,
    pub payment_hash: String,
}

/// The number that stands for an invoice state in the database.
pub open spec fn state_code(state: InvoiceState) -> int {
    match state {
        InvoiceState::OPEN => 0,
        InvoiceState::SETTLED => 1,
        InvoiceState::CANCELED => 2,
        InvoiceState::ACCEPTED => 3,
        InvoiceState::EXPIRED => 4,
    }
}

/// The number that stands for a payment status in the database.
pub open spec fn payment_status_code(state: PaymentStatus) -> int {
    match state {
        PaymentStatus::UNKNOWN => 0,
        PaymentStatus::IN_FLIGHT => 1,
        PaymentStatus::SUCCEEDED => 2,
        PaymentStatus::FAILED => 3,
    }
}

/// The number that stands for a payment failure reason.
pub open spec fn failure_reason_code(state: PaymentFailureReason) -> int {
    match state {
        PaymentFailureReason::FAILURE_REASON_NONE => 0,
        PaymentFailureReason::FAILURE_REASON_TIMEOUT => 1,
        PaymentFailureReason::FAILURE_REASON_NO_ROUTE => 2,
        PaymentFailureReason::FAILURE_REASON_ERROR => 3,
        PaymentFailureReason::FAILURE_REASON_INCORRECT_PAYMENT_DETAILS => 4,
        PaymentFailureReason::FAILURE_REASON_INSUFFICIENT_BALANCE => 5,
    }
}

/// The number that stands for an invoice state.
pub fn get_state_indicator(state: &InvoiceState) -> (res: i32)
    ensures
        res == state_code(*state),
{
    match state {
        InvoiceState::OPEN => 0,
        InvoiceState::SETTLED => 1,
        InvoiceState::CANCELED => 2,
        InvoiceState::ACCEPTED => 3,
        InvoiceState::EXPIRED => 4,
    }
}

/// The number that stands for a payment status.
pub fn get_payment_status(state: &PaymentStatus) -> (res: i32)
    ensures
        res == payment_status_code(*state),
{
    match state {
        PaymentStatus::UNKNOWN => 0,
        PaymentStatus::IN_FLIGHT => 1,
        PaymentStatus::SUCCEEDED => 2,
        PaymentStatus::FAILED => 3,
    }
}

/// The number that stands for a payment failure reason.
pub fn get_payment_failure_status(state: &PaymentFailureReason) -> (res: i32)
    ensures
        res == failure_reason_code(*state),
{
    match state {
        PaymentFailureReason::FAILURE_REASON_NONE => 0,
        PaymentFailureReason::FAILURE_REASON_TIMEOUT => 1,
        PaymentFailureReason::FAILURE_REASON_NO_ROUTE => 2,
        PaymentFailureReason::FAILURE_REASON_ERROR => 3,
        PaymentFailureReason::FAILURE_REASON_INCORRECT_PAYMENT_DETAILS => 4,
        PaymentFailureReason::FAILURE_REASON_INSUFFICIENT_BALANCE => 5,
    }
}

/// Distinct invoice states have distinct numbers, and every number lies in
/// `0..=4`: a stored number names exactly one state.
pub proof fn lemma_state_code_injective(a: InvoiceState, b: InvoiceState)
    ensures
        0 <= state_code(a) <= 4,
        state_code(a) == state_code(b) ==> a == b,
{
}

/// Distinct payment statuses have distinct numbers, all in `0..=3`.
pub proof fn lemma_payment_status_code_injective(a: PaymentStatus, b: PaymentStatus)
    ensures
        0 <= payment_status_code(a) <= 3,
        payment_status_code(a) == payment_status_code(b) ==> a == b,
{
}

/// Distinct failure reasons have distinct numbers, all in `0..=5`.
pub proof fn lemma_failure_reason_code_injective(a: PaymentFailureReason, b: PaymentFailureReason)
    ensures
        0 <= failure_reason_code(a) <= 5,
        failure_reason_code(a) == failure_reason_code(b) ==> a == b,
{
}

} // verus!
