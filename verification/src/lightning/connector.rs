//! What the LND REST connector computes around its calls: the requests it
//! sends and what it makes of the replies.
use vstd::prelude::*;
use vstd::utf8::{decode_utf8, valid_utf8};
use crate::error::CustomError;
use crate::functions::{base64_decoding, try_base64_to_hex};
use crate::lightning::types::{
    AddInvoiceRequest, AddInvoiceResponse, InvoiceState, LookupInvoiceResponse as NodeInvoice,
    get_state_indicator, state_code,
};
use crate::modelsext::{InvoiceData, InvoiceResponse, LookupInvoiceResponse};
use crate::text::{
    decimal_text, hex_lower, i64_text, i64_to_decimal, parse_i64, parse_u64, signed_decimal_text,
    u64_text, u64_to_decimal,
};

verus! {

/// The invoice that `create_invoice` asks the node for: the order's
/// description as memo, its amount in satoshis, the configured CLTV delta
/// and expiry, nothing else.
pub fn add_invoice_request(invoice: &InvoiceData, cltv_expiry: i32, expiry: i32) -> (res:
    AddInvoiceRequest)
    ensures
        res.memo matches Some(m) && m@ == invoice.description@,
        res.value == invoice.amount_sat,
        res.cltv_expiry == Some(cltv_expiry),
        res.expiry == expiry,
        res.r_preimage is None && res.description_hash is None && res.fallback_addr is None,
{
    AddInvoiceRequest {
        memo: Some(invoice.description.clone()),
        r_preimage: None,
        value: invoice.amount_sat,
        description_hash: None,
        expiry,
        fallback_addr: None,
        cltv_expiry: Some(cltv_expiry),
    }
}

/// What `create_invoice` answers for the node's reply: the payment request,
/// the payment hash in hexadecimal, unpaid and open; every other field empty
/// or zero. `None` exactly where the reply's hash is not base64, where the
/// connector would panic.
pub fn invoice_response_from_added(added: &AddInvoiceResponse) -> (res: Option<InvoiceResponse>)
    ensures
        res is Some <==> base64_decoding(added.r_hash@) is Some,
        res matches Some(r) ==> {
            &&& r.invoice_request@ == added.payment_request@
            &&& r.hash matches Some(h) && h@ == hex_lower(base64_decoding(added.r_hash@)->0)
            &&& !r.paid && r.status == state_code(InvoiceState::OPEN)
            &&& r.business_id == 0 && r.woocomerce_id == 0 && r.tpay_preorder_id == 0
            &&& r.preimage is None && r.result@.len() == 0 && r.code == 0
            &&& r.message@.len() == 0
        },
{
    match try_base64_to_hex(added.r_hash.clone()) {
        None => None,
        Some(hash) => Some(
            InvoiceResponse {
                business_id: 0,
                woocomerce_id: 0,
                tpay_preorder_id: 0,
                invoice_request: added.payment_request.clone(),
                preimage: None,
                hash: Some(hash),
                paid: false,
                status: get_state_indicator(&InvoiceState::OPEN),
                result: String::new(),
                code: 0,
                message: String::new(),
            },
        ),
    }
}

/// The numbers of a node's invoice all read as their types.
pub open spec fn node_invoice_numbers_parse(n: NodeInvoice) -> bool {
    &&& i64_text(n.value@) is Some
    &&& i64_text(n.value_msat@) is Some
    &&& i64_text(n.settle_date@) is Some
    &&& i64_text(n.creation_date@) is Some
    &&& i64_text(n.expiry@) is Some
    &&& u64_text(n.cltv_expiry@) is Some
    &&& u64_text(n.add_index@) is Some
    &&& u64_text(n.settle_index@) is Some
    &&& i64_text(n.amt_paid@) is Some
    &&& i64_text(n.amt_paid_sat@) is Some
    &&& i64_text(n.amt_paid_msat@) is Some
}

/// What `get_invoice` answers for the node's invoice: its memo, preimage,
/// hash, request and flags as they are; its numbers read from their decimal
/// text; paid exactly when settled; its state as a number; every field the
/// node does not give empty or zero (the amount `0`). `None` exactly where a
/// number does not read, where the connector would panic.
pub fn lookup_invoice_response(invoice: &NodeInvoice) -> (res: Option<LookupInvoiceResponse>)
    ensures
        res is Some <==> node_invoice_numbers_parse(*invoice),
        res matches Some(r) ==> {
            &&& r.memo@ == invoice.memo@ && r.r_preimage@ == invoice.r_preimage@
            &&& r.r_hash@ == invoice.r_hash@ && r.payment_request@ == invoice.payment_request@
            &&& r.settled == invoice.settled && r.private == invoice.private
            &&& r.value as int == i64_text(invoice.value@)->0
            &&& r.value_msat as int == i64_text(invoice.value_msat@)->0
            &&& r.settle_date as int == i64_text(invoice.settle_date@)->0
            &&& r.creation_date as int == i64_text(invoice.creation_date@)->0
            &&& r.expiry as int == i64_text(invoice.expiry@)->0
            &&& r.cltv_expiry as int == u64_text(invoice.cltv_expiry@)->0
            &&& r.add_index as int == u64_text(invoice.add_index@)->0
            &&& r.settle_index as int == u64_text(invoice.settle_index@)->0
            &&& r.amt_paid as int == i64_text(invoice.amt_paid@)->0
            &&& r.amt_paid_sat as int == i64_text(invoice.amt_paid_sat@)->0
            &&& r.amt_paid_msat as int == i64_text(invoice.amt_paid_msat@)->0
            &&& r.paid == (invoice.state == InvoiceState::SETTLED)
            &&& r.state == state_code(invoice.state)
            &&& r.business_id == 0 && r.woocomerce_id == 0 && r.tpay_preorder_id == 0
            &&& r.hash is None && r.currency@.len() == 0 && r.totalAmount@ == "0"@
            &&& r.result@.len() == 0 && r.code == 0 && r.message@.len() == 0
        },
{
    let value = match parse_i64(invoice.value.as_str()) { Some(v) => v, None => return None };
    let value_msat = match parse_i64(invoice.value_msat.as_str()) { Some(v) => v, None => return None };
    let settle_date = match parse_i64(invoice.settle_date.as_str()) { Some(v) => v, None => return None };
    let creation_date = match parse_i64(invoice.creation_date.as_str()) { Some(v) => v, None => return None };
    let expiry = match parse_i64(invoice.expiry.as_str()) { Some(v) => v, None => return None };
    let cltv_expiry = match parse_u64(invoice.cltv_expiry.as_str()) { Some(v) => v, None => return None };
    let add_index = match parse_u64(invoice.add_index.as_str()) { Some(v) => v, None => return None };
    let settle_index = match parse_u64(invoice.settle_index.as_str()) { Some(v) => v, None => return None };
    let amt_paid = match parse_i64(invoice.amt_paid.as_str()) { Some(v) => v, None => return None };
    let amt_paid_sat = match parse_i64(invoice.amt_paid_sat.as_str()) { Some(v) => v, None => return None };
    let amt_paid_msat = match parse_i64(invoice.amt_paid_msat.as_str()) { Some(v) => v, None => return None };
    let paid = invoice.state == InvoiceState::SETTLED;
    Some(
        LookupInvoiceResponse {
            business_id: 0,
            woocomerce_id: 0,
            tpay_preorder_id: 0,
            hash: None,
            currency: String::new(),
            totalAmount: String::from_str("0"),
            memo: invoice.memo.clone(),
            r_preimage: invoice.r_preimage.clone(),
            r_hash: invoice.r_hash.clone(),
            value,
            value_msat,
            settled: invoice.settled,
            settle_date,
            creation_date,
            payment_request: invoice.payment_request.clone(),
            expiry,
            cltv_expiry,
            private: invoice.private,
            add_index,
            settle_index,
            amt_paid,
            amt_paid_sat,
            amt_paid_msat,
            state: get_state_indicator(&invoice.state),
            paid,
            result: String::new(),
            code: 0,
            message: String::new(),
        },
    )
}

/// The fee limit of a payment: the proposed limit, raised to the minimum
/// fee where it is below it, then lowered to the amount where it is above.
pub open spec fn clamped_fee(raw_fee: int, min_fee: int, amount: int) -> int {
    let raised = if raw_fee < min_fee {
        min_fee
    } else {
        raw_fee
    };
    if raised > amount {
        amount
    } else {
        raised
    }
}

/// The most `send_payment` lets routing cost: `raw_fee` (the amount times
/// the configured fee rate) raised to `min_fee`, then capped at the amount.
pub fn fee_limit(raw_fee: i64, min_fee: i64, amount: i64) -> (res: i64)
    ensures
        res as int == clamped_fee(raw_fee as int, min_fee as int, amount as int),
{
    let mut max_fee = raw_fee;
    if max_fee < min_fee {
        max_fee = min_fee;
    }
    if max_fee > amount {
        max_fee = amount;
    }
    max_fee
}

/// The fee limit as `send_payment` writes it in its request.
pub fn fee_limit_sat(raw_fee: i64, min_fee: i64, amount: i64) -> (res: String)
    ensures
        res@ == signed_decimal_text(clamped_fee(raw_fee as int, min_fee as int, amount as int)),
{
    i64_to_decimal(fee_limit(raw_fee, min_fee, amount))
}

/// The channels a payment may leave by: only the configured one, written in
/// decimal.
pub fn get_channels(out: u64) -> (res: Vec<String>)
    ensures
        res@.len() == 1,
        res@[0]@ == decimal_text(out as nat),
{
    let mut channels: Vec<String> = Vec::new();
    channels.push(u64_to_decimal(out));
    channels
}

/// Where the minimum fee does not exceed the amount, the fee limit lies
/// between them, and a proposed limit already between them is kept.
pub proof fn lemma_fee_limit_bounds(raw_fee: int, min_fee: int, amount: int)
    requires
        min_fee <= amount,
    ensures
        min_fee <= clamped_fee(raw_fee, min_fee, amount) <= amount,
        min_fee <= raw_fee <= amount ==> clamped_fee(raw_fee, min_fee, amount) == raw_fee,
{
}

/// The text of the field `status` of the object `result` of a JSON text, as
/// `serde_json` reads it; `None` where the text is not JSON or has no such
/// string.
pub uninterp spec fn json_result_status(text: Seq<char>) -> Option<Seq<char>>;

/// Calls `std::str::from_utf8`, which succeeds exactly on valid UTF-8 and
/// then gives the text the bytes encode (its documentation says so).
#[verifier::external_body]
fn utf8_text(bytes: &[u8]) -> (res: Option<String>)
    ensures
        res is Some <==> valid_utf8(bytes@),
        res matches Some(s) ==> s@ == decode_utf8(bytes@),
{
    match std::str::from_utf8(bytes) {
        Ok(s) => Some(s.to_string()),
        Err(_) => None,
    }
}

/// Parses the text with `serde_json::from_str` as a `serde_json::Value` and
/// reads `result`, then `status`, then its string (`Value::get`,
/// `Value::as_str`). The result is named `json_result_status` of the text.
#[verifier::external_body]
fn result_status(text: &str) -> (res: Option<String>)
    ensures
        res is Some <==> json_result_status(text@) is Some,
        res matches Some(s) ==> s@ == json_result_status(text@)->0,
{
    match serde_json::from_str::<serde_json::Value>(text) {
        Ok(value) => match value.get("result") {
            Some(result) => match result.get("status") {
                Some(status) => match status.as_str() {
                    Some(s) => Some(s.to_string()),
                    None => None,
                },
                None => None,
            },
            None => None,
        },
        Err(_) => None,
    }
}

/// What `send_payment` does with one item of the node's payment stream.
pub enum StreamStep {
    /// Stop with this error.
    Fail(CustomError),
    /// The payment has settled either way; this text holds its account.
    Done(String),
    /// Read the next item.
    Continue,
}

/// A payment status after which the node sends no more updates.
pub open spec fn final_payment_status(status: Seq<char>) -> bool {
    status == "SUCCEEDED"@ || status == "FAILED"@
}

/// The step that follows one item of the payment stream (`Err(())` for an
/// item the stream could not deliver).
pub open spec fn stream_step_is(res: StreamStep, item: Result<Seq<u8>, ()>) -> bool {
    match item {
        Err(_) => res matches StreamStep::Fail(e) && e.error_status_code == 500
            && e.error_message@ == "Internal server error"@,
        Ok(bytes) => if !valid_utf8(bytes) {
            res matches StreamStep::Fail(e) && e.error_status_code == 400 && e.error_message@
                == "Failed to parse JSON as UTF-8"@
        } else if json_result_status(decode_utf8(bytes)) matches Some(st) && final_payment_status(
            st,
        ) {
            res matches StreamStep::Done(t) && t@ == decode_utf8(bytes)
        } else {
            res is Continue
        },
    }
}

/// Decides on one item of the node's payment stream: an undelivered item is
/// a 500 error; bytes that are not UTF-8 are a 400 error; a JSON text whose
/// `result.status` is `SUCCEEDED` or `FAILED` ends the stream; anything else
/// is skipped.
pub fn payment_stream_step(item: Result<&[u8], ()>) -> (res: StreamStep)
    ensures
        stream_step_is(
            res,
            match item {
                Ok(b) => Ok(b@),
                Err(u) => Err(u),
            },
        ),
{
    match item {
        Err(_) => StreamStep::Fail(CustomError::new(500, String::from_str("Internal server error"))),
        Ok(bytes) => match utf8_text(bytes) {
            None => StreamStep::Fail(
                CustomError::new(400, String::from_str("Failed to parse JSON as UTF-8")),
            ),
            Some(text) => match result_status(text.as_str()) {
                Some(status) => {
                    if crate::text::str_equals(status.as_str(), "SUCCEEDED")
                        || crate::text::str_equals(status.as_str(), "FAILED") {
                        StreamStep::Done(text)
                    } else {
                        StreamStep::Continue
                    }
                },
                None => StreamStep::Continue,
            },
        },
    }
}

/// An upper-case hexadecimal digit as ASCII: `0-9` or `A-F`.
pub open spec fn is_upper_hex_byte(b: u8) -> bool {
    (48 <= b <= 57) || (65 <= b <= 70)
}

/// The macaroon header value from the output of `xxd -ps -u`: its bytes that
/// are upper-case hexadecimal digits, in order (line breaks and anything
/// else dropped).
pub fn macaroon_header_bytes(output: &[u8]) -> (res: Vec<u8>)
    ensures
        res@ == output@.filter(|b: u8| is_upper_hex_byte(b)),
{
    let mut kept: Vec<u8> = Vec::new();
    let mut i: usize = 0;
    while i < output.len()
        invariant
            i <= output@.len(),
            kept@ == output@.subrange(0, i as int).filter(|b: u8| is_upper_hex_byte(b)),
        decreases output@.len() - i,
    {
        let b: u8 = output[i];
        proof {
            let prefix = output@.subrange(0, i + 1);
            assert(prefix.drop_last() == output@.subrange(0, i as int));
            reveal(Seq::filter);
        }
        if (48 <= b && b <= 57) || (65 <= b && b <= 70) {
            kept.push(b);
        }
        i = i + 1;
    }
    proof {
        assert(output@.subrange(0, output@.len() as int) == output@);
    }
    kept
}

/// The address of the node's REST interface: `https://`, the host, `:` and
/// the port in decimal.
pub fn node_base_url(host: &str, port: u32) -> (res: String)
    ensures
        res@ == "https://"@ + host@ + ":"@ + decimal_text(port as nat),
{
    let mut url = String::from_str("https://");
    url.append(host);
    url.append(":");
    crate::text::push_u64_decimal(&mut url, port as u64);
    url
}

} // verus!
