use api_lightning::error::CustomError;
use api_lightning::invoice_handler::{create_invoice_answer, lookup_invoice_answer, order_answer, CreateOutcome};
use api_lightning::invoice::create::{create_payment_split, new_invoice_record};
use api_lightning::invoice::update::{status_update, touch_invoice};
use api_lightning::invoice_handler::{
    created_invoice_data, failed_invoice_data, get_data_invoice, get_data_order, mark_order_paid,
};
use api_lightning::lightning::invoice::{
    check_decoded_invoice, check_invoice_expiry, checked_is_expired_invoice,
    checked_is_valid_invoice, decode_invoice, is_expired_invoice, is_valid_invoice, Bolt11Invoice,
};
use api_lightning::models::Invoice;
use api_lightning::modelsext::{
    InvoiceCheck, InvoiceData, InvoiceResponse, LookupInvoiceResponse, PreorderSplit,
};

/// A signed BOLT 11 invoice: 250 000 000 msat, created at 1496314658, payable
/// for 60 seconds.
const COFFEE: &str = "lnbc2500u1pvjluezsp5zyg3zyg3zyg3zyg3zyg3zyg3zyg3zyg3zyg3zyg3zyg3zyg3zygspp5qqqsyqcyq5rqwzqfqqqsyqcyq5rqwzqfqqqsyqcyq5rqwzqfqypqdq5xysxxatsyp3k7enxv4jsxqzpu9qrsgquk0rl77nj30yxdy8j9vdx85fkpmdla2087ne0xh8nhedh8w27kyke0lp53ut353s06fv3qfegext0eh0ymjpf39tuven09sam30g4vgpfna3rh";

fn check(amount: Option<u64>, fee: Option<u64>) -> InvoiceCheck {
    InvoiceCheck { payment_request: COFFEE.to_string(), amount, fee }
}

fn decoded(amount_msat: Option<u64>, timestamp: u64, expiry_secs: u64) -> Bolt11Invoice {
    Bolt11Invoice { text: "lnbc1x".to_string(), amount_msat, timestamp, expiry_secs }
}

#[test]
fn decode_invoice_reads_fields() {
    let inv = decode_invoice(COFFEE).unwrap();
    assert_eq!(inv.text, COFFEE);
    assert_eq!(inv.amount_msat, Some(250_000_000));
    assert_eq!(inv.timestamp, 1496314658);
    assert_eq!(inv.expiry_secs, 60);
}

#[test]
fn decode_invoice_refuses_garbage() {
    let err = decode_invoice("lnbc1notaninvoice").unwrap_err();
    assert_eq!(err.error_status_code, 400);
    assert_eq!(err.error_message, "Failed decode invoice");
}

#[test]
fn is_valid_invoice_wrong_amount() {
    let err = is_valid_invoice(check(Some(1000), None), 3600).unwrap_err();
    assert_eq!(err.error_status_code, 400);
    assert_eq!(err.error_message, "The amount on this invoice is wrong");
}

#[test]
fn is_valid_invoice_expired() {
    let err = is_valid_invoice(check(Some(250_010), Some(10)), 3600).unwrap_err();
    assert_eq!(err.error_message, "Invoice has expired");
    let err = is_valid_invoice(check(None, None), 3600).unwrap_err();
    assert_eq!(err.error_message, "Invoice has expired");
}

#[test]
fn is_valid_invoice_undecodable() {
    let mut c = check(None, None);
    c.payment_request = "nonsense".to_string();
    let err = is_valid_invoice(c, 3600).unwrap_err();
    assert_eq!(err.error_message, "Failed decode invoice");
}

#[test]
fn checked_is_valid_invoice_fee_above_amount() {
    assert!(checked_is_valid_invoice(check(Some(5), Some(10)), 3600).is_none());
    let r = checked_is_valid_invoice(check(Some(250_000), None), 3600).unwrap();
    assert_eq!(r.unwrap_err().error_message, "Invoice has expired");
}

#[test]
fn check_decoded_invoice_decisions() {
    let c = InvoiceCheck { payment_request: "lnbc1x".to_string(), amount: Some(1000), fee: Some(10) };
    // amount matches (990 sat), not expired, far enough in the future
    let ok = check_decoded_invoice(&c, Some(decoded(Some(990_000), 1000, 7200)), Some(1000), 2000, 0, 3600);
    assert_eq!(ok.unwrap().timestamp, 1000);
    // wrong amount
    let e = check_decoded_invoice(&c, Some(decoded(Some(5_000), 1000, 7200)), Some(1000), 2000, 0, 3600);
    assert_eq!(e.unwrap_err().error_message, "The amount on this invoice is wrong");
    // no amount on the invoice: accepted whatever is expected
    let ok = check_decoded_invoice(&c, Some(decoded(None, 1000, 7200)), Some(1000), 2000, 0, 3600);
    assert!(ok.is_ok());
    // expired: exactly at the end with nanoseconds past it
    let e = check_decoded_invoice(&c, Some(decoded(None, 1000, 100)), Some(1000), 1100, 1, 0);
    assert_eq!(e.unwrap_err().error_message, "Invoice has expired");
    // at the end with no nanoseconds: not expired, but below the window
    let e = check_decoded_invoice(&c, Some(decoded(None, 1000, 100)), Some(1000), 1100, 0, 1);
    assert_eq!(e.unwrap_err().error_message, "Minimal expiration time on invoice");
    // raw form does not parse
    let e = check_decoded_invoice(&c, Some(decoded(None, 1000, 7200)), None, 2000, 0, 3600);
    assert_eq!(e.unwrap_err().error_message, "Failed parse invoice");
    // nothing decoded
    let e = check_decoded_invoice(&c, None, None, 2000, 0, 3600);
    assert_eq!(e.unwrap_err().error_message, "Failed decode invoice");
    // the window exactly reaches the expiry: accepted
    let ok = check_decoded_invoice(&c, Some(decoded(None, 1000, 7200)), Some(1000), 4600, 0, 3600);
    assert!(ok.is_ok());
}

#[test]
fn is_expired_invoice_on_old_invoice() {
    assert_eq!(is_expired_invoice(COFFEE).unwrap(), true);
    let err = is_expired_invoice("nonsense").unwrap_err();
    assert_eq!(err.error_status_code, 400);
    assert_eq!(err.error_message, "Failed decode invoice");
    assert_eq!(checked_is_expired_invoice(COFFEE).unwrap().unwrap(), true);
}

#[test]
fn check_invoice_expiry_decisions() {
    assert_eq!(check_invoice_expiry(Some(decoded(None, 0, 60)), Some(1000), 1059).unwrap(), false);
    assert_eq!(check_invoice_expiry(Some(decoded(None, 0, 60)), Some(1000), 1060).unwrap(), true);
    assert_eq!(
        check_invoice_expiry(Some(decoded(None, 0, 60)), None, 1060).unwrap_err().error_message,
        "Failed parse invoice"
    );
    assert_eq!(
        check_invoice_expiry(None, None, 1060).unwrap_err().error_message,
        "Failed decode invoice"
    );
}

#[test]
fn accepted_invoice_is_not_expired_within_window() {
    let c = InvoiceCheck { payment_request: "lnbc1x".to_string(), amount: None, fee: None };
    let inv = decoded(None, 1000, 7200);
    assert!(check_decoded_invoice(&c, Some(inv.clone()), Some(1000), 2000, 0, 3600).is_ok());
    for later in [2000i64, 4000, 5599] {
        assert_eq!(check_invoice_expiry(Some(inv.clone()), Some(1000), later).unwrap(), false);
    }
}

fn split(address: &str, amount: i32) -> PreorderSplit {
    PreorderSplit {
        invoiceUid: 7,
        tipoAsociado: "seller".to_string(),
        ldAddress: address.to_string(),
        amountSat: amount,
        status: 5,
        invoiceAddress: "x".to_string(),
        attempts: 9,
    }
}

#[test]
fn create_payment_split_one_row_per_share() {
    let rows = create_payment_split(42, vec![split("a@b.c", 10), split("d@e.f", 20)]).unwrap();
    assert_eq!(rows.len(), 2);
    assert_eq!(rows[0].invoice_id, 42);
    assert_eq!(rows[0].lnaddress, "a@b.c");
    assert_eq!(rows[0].amount_sat, 10);
    assert_eq!(rows[0].tipo_asociado, "seller");
    assert_eq!(rows[1].lnaddress, "d@e.f");
    assert_eq!(rows[1].amount_sat, 20);
    assert_eq!(rows[1].status, 0);
    assert_eq!(rows[1].attempts, 0);
    assert!(!rows[1].reported);
    assert!(rows[1].bolt11.is_none());
    assert!(create_payment_split(1, vec![]).unwrap().is_empty());
}

fn invoice_data(amount_sat: u64) -> InvoiceData {
    InvoiceData {
        business_id: 3,
        presell_id: 0xabc,
        order_id: 77,
        invoice_date: 1_700_000_000_000_000,
        description: "order 77".to_string(),
        customer_name: "Ana".to_string(),
        customer_email: "ana@example.com".to_string(),
        currency: "USD".to_string(),
        sub_total: "10.00".to_string(),
        taxes: "1.00".to_string(),
        shipping: "0".to_string(),
        total_amount: "11.00".to_string(),
        amount_sat,
        apply_split: true,
        paymentSplit: vec![],
    }
}

fn node_invoice() -> InvoiceResponse {
    InvoiceResponse {
        invoice_request: "lnbc1req".to_string(),
        hash: Some("00ff".to_string()),
        preimage: None,
        status: 0,
        ..Default::default()
    }
}

#[test]
fn new_invoice_record_fields() {
    let rec = new_invoice_record(invoice_data(1234), node_invoice(), 5, 6);
    assert_eq!(rec.business_id, 3);
    assert_eq!(rec.order_id, 77);
    assert_eq!(rec.presell_id, 0xabc);
    assert_eq!(rec.bolt11, "lnbc1req");
    assert_eq!(rec.payment_hash, Some("00ff".to_string()));
    assert_eq!(rec.payment_secret, None);
    assert_eq!(rec.amount_sat, 1234);
    assert_eq!(rec.created_at, 5);
    assert_eq!(rec.updated_at, Some(6));
    assert!(!rec.distributed);
    assert!(rec.apply_split);
    assert_eq!(rec.total_amount, "11.00");
    // the amount keeps its low 32 bits
    let rec = new_invoice_record(invoice_data(0x1_0000_0005), node_invoice(), 5, 6);
    assert_eq!(rec.amount_sat, 5);
}

#[test]
fn touch_invoice_sets_update_time() {
    let mut inv = Invoice::default();
    inv.id = 9;
    inv.status = 1;
    let touched = touch_invoice(inv, 123);
    assert_eq!(touched.updated_at, Some(123));
    assert_eq!(touched.id, 9);
    assert_eq!(touched.status, 1);
    assert_eq!(touched.total_amount, "0");
}

#[test]
fn status_update_paid_and_unpaid() {
    let mut re = LookupInvoiceResponse::default();
    re.r_hash = "3q2+7w==".to_string();
    re.r_preimage = "secret".to_string();
    re.state = 1;
    re.paid = true;
    let u = status_update(&re).unwrap();
    assert_eq!(u.payment_hash, "deadbeef");
    assert_eq!(u.payment_secret, Some("secret".to_string()));
    assert_eq!(u.status, 1);
    assert!(u.paid);
    re.paid = false;
    re.state = 0;
    let u = status_update(&re).unwrap();
    assert_eq!(u.payment_secret, None);
    assert_eq!(u.status, 0);
    re.r_hash = "*".to_string();
    assert!(status_update(&re).is_none());
}

#[test]
fn get_data_invoice_found_and_failed() {
    let mut node = LookupInvoiceResponse::default();
    node.memo = "m".to_string();
    node.value = 21;
    node.paid = true;
    node.state = 1;
    let mut stored = Invoice::default();
    stored.business_id = 4;
    stored.order_id = 8;
    stored.presell_id = 15;
    stored.currency = "EUR".to_string();
    stored.total_amount = "2.50".to_string();
    let d = get_data_invoice(node.clone(), stored.clone(), false).data;
    assert_eq!(d.business_id, 4);
    assert_eq!(d.woocomerce_id, 8);
    assert_eq!(d.tpay_preorder_id, 15);
    assert_eq!(d.currency, "EUR");
    assert_eq!(d.totalAmount, "2.50");
    assert_eq!(d.memo, "m");
    assert_eq!(d.value, 21);
    assert!(d.paid);
    assert_eq!(d.result, "success");
    assert_eq!(d.code, 200);
    assert_eq!(d.message, "Invoice consulted");
    let d = get_data_invoice(node, stored, true).data;
    assert_eq!(d.result, "failed");
    assert_eq!(d.code, 400);
    assert_eq!(d.message, "Unable to locate invoice");
}

#[test]
fn get_data_order_and_mark_paid() {
    let mut stored = Invoice::default();
    stored.id = 2;
    stored.amount_sat = -3;
    stored.status = 0;
    stored.payment_hash = Some("h".to_string());
    let order = get_data_order(stored.clone(), false);
    assert_eq!(order.id, 2);
    assert_eq!(order.amount_sat, -3i64);
    assert_eq!(order.result, "success");
    assert_eq!(order.code, 200);
    assert_eq!(order.message, "Order consulted");
    let paid = mark_order_paid(order.clone(), true);
    assert_eq!(paid.status, 1);
    assert_eq!(paid.payment_hash, Some("h".to_string()));
    let unpaid = mark_order_paid(order, false);
    assert_eq!(unpaid.status, 0);
    let missing = get_data_order(Invoice::default(), true);
    assert_eq!(missing.result, "failed");
    assert_eq!(missing.code, 400);
    assert_eq!(missing.message, "Unable to locate order");
}

#[test]
fn created_and_failed_invoice_bodies() {
    let mut stored = Invoice::default();
    stored.business_id = 1;
    stored.order_id = 2;
    stored.presell_id = 3;
    let d = created_invoice_data(&stored, node_invoice()).data;
    assert_eq!(d.business_id, 1);
    assert_eq!(d.woocomerce_id, 2);
    assert_eq!(d.tpay_preorder_id, 3);
    assert_eq!(d.invoice_request, "lnbc1req");
    assert_eq!(d.preimage, Some(String::new()));
    assert_eq!(d.hash, Some("00ff".to_string()));
    assert!(!d.paid);
    assert_eq!(d.result, "success");
    assert_eq!(d.code, 200);
    assert_eq!(d.message, "Invoice created");
    let f = failed_invoice_data(99).data;
    assert_eq!(f.tpay_preorder_id, 99);
    assert_eq!(f.invoice_request, "");
    assert_eq!(f.hash, Some(String::new()));
    assert_eq!(f.result, "failed");
    assert_eq!(f.code, 400);
    assert_eq!(f.message, "Unable to create invoice");
}

#[test]
fn create_invoice_answers() {
    let d = create_invoice_answer(CreateOutcome::NodeFailed { preorder_id: 5 }).unwrap().data;
    assert_eq!(d.tpay_preorder_id, 5);
    assert_eq!(d.code, 400);
    assert_eq!(d.message, "Unable to create invoice");
    let e = create_invoice_answer(CreateOutcome::StoreFailed(CustomError::new(500, "db down".to_string())))
        .unwrap_err();
    assert_eq!(e.error_status_code, 994);
    assert_eq!(e.error_message, "db down");
    let mut stored = Invoice::default();
    stored.business_id = 8;
    let d = create_invoice_answer(CreateOutcome::Stored { stored, node: node_invoice() }).unwrap().data;
    assert_eq!(d.business_id, 8);
    assert_eq!(d.invoice_request, "lnbc1req");
    assert_eq!(d.code, 200);
}

#[test]
fn lookup_invoice_answers() {
    let d = lookup_invoice_answer(None, Some(Invoice::default())).data;
    assert_eq!(d.result, "failed");
    assert_eq!(d.code, 400);
    assert_eq!(d.totalAmount, "0");
    assert_eq!(d.memo, "");
    let mut node = LookupInvoiceResponse::default();
    node.memo = "m".to_string();
    let mut stored = Invoice::default();
    stored.business_id = 3;
    let d = lookup_invoice_answer(Some(node.clone()), Some(stored)).data;
    assert_eq!((d.business_id, d.memo.as_str(), d.code), (3, "m", 200));
    let d = lookup_invoice_answer(Some(node), None).data;
    assert_eq!((d.business_id, d.memo.as_str(), d.code), (0, "m", 200));
    assert_eq!(d.message, "Invoice consulted");
}

#[test]
fn order_answers() {
    let o = order_answer(None, None);
    assert_eq!((o.code, o.status), (400, 0));
    assert_eq!(o.message, "Unable to locate order");
    let mut stored = Invoice::default();
    stored.id = 4;
    stored.status = 3;
    assert_eq!(order_answer(Some(stored.clone()), Some(true)).status, 1);
    assert_eq!(order_answer(Some(stored.clone()), Some(false)).status, 3);
    let o = order_answer(Some(stored), None);
    assert_eq!((o.id, o.status, o.code), (4, 3, 200));
}
