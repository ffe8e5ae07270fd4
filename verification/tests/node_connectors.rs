use api_lightning::lightning::connector::{
    add_invoice_request, fee_limit, fee_limit_sat, get_channels, invoice_response_from_added,
    lookup_invoice_response, macaroon_header_bytes, node_base_url, payment_stream_step, StreamStep,
};
use api_lightning::lightning::types::{
    get_payment_failure_status, get_payment_status, get_state_indicator, AddInvoiceResponse,
    InvoiceState, LookupInvoiceResponse, PaymentFailureReason, PaymentStatus,
};
use api_lightning::lightning_c::{
    bytes_hex, cln_created_invoice_response, cln_info_response, cln_lookup_response, ClnCreatedInvoice,
    ClnListedInvoice,
};
use api_lightning::lightning_lnd::{
    lnd_hold_invoice_response, lnd_info_response, lnd_lookup_response, payment_hash_bytes, LndInvoice,
};
use api_lightning::modelsext::InvoiceData;

#[test]
fn state_numbers() {
    assert_eq!(get_state_indicator(&InvoiceState::OPEN), 0);
    assert_eq!(get_state_indicator(&InvoiceState::SETTLED), 1);
    assert_eq!(get_state_indicator(&InvoiceState::CANCELED), 2);
    assert_eq!(get_state_indicator(&InvoiceState::ACCEPTED), 3);
    assert_eq!(get_state_indicator(&InvoiceState::EXPIRED), 4);
    assert_eq!(get_payment_status(&PaymentStatus::UNKNOWN), 0);
    assert_eq!(get_payment_status(&PaymentStatus::IN_FLIGHT), 1);
    assert_eq!(get_payment_status(&PaymentStatus::SUCCEEDED), 2);
    assert_eq!(get_payment_status(&PaymentStatus::FAILED), 3);
    assert_eq!(get_payment_failure_status(&PaymentFailureReason::FAILURE_REASON_NONE), 0);
    assert_eq!(get_payment_failure_status(&PaymentFailureReason::FAILURE_REASON_TIMEOUT), 1);
    assert_eq!(get_payment_failure_status(&PaymentFailureReason::FAILURE_REASON_NO_ROUTE), 2);
    assert_eq!(get_payment_failure_status(&PaymentFailureReason::FAILURE_REASON_ERROR), 3);
    assert_eq!(
        get_payment_failure_status(&PaymentFailureReason::FAILURE_REASON_INCORRECT_PAYMENT_DETAILS),
        4
    );
    assert_eq!(
        get_payment_failure_status(&PaymentFailureReason::FAILURE_REASON_INSUFFICIENT_BALANCE),
        5
    );
}

#[test]
fn invoice_request_to_node() {
    let data = InvoiceData {
        business_id: 1,
        presell_id: 2,
        order_id: 3,
        invoice_date: 0,
        description: "two coffees".to_string(),
        customer_name: String::new(),
        customer_email: String::new(),
        currency: String::new(),
        sub_total: String::new(),
        taxes: String::new(),
        shipping: String::new(),
        total_amount: String::new(),
        amount_sat: 5000,
        apply_split: false,
        paymentSplit: vec![],
    };
    let req = add_invoice_request(&data, 144, 3600);
    assert_eq!(req.memo, Some("two coffees".to_string()));
    assert_eq!(req.value, 5000);
    assert_eq!(req.cltv_expiry, Some(144));
    assert_eq!(req.expiry, 3600);
    assert!(req.r_preimage.is_none());
}

#[test]
fn added_invoice_reply() {
    let added = AddInvoiceResponse {
        r_hash: "3q2+7w==".to_string(),
        payment_request: "lnbc1added".to_string(),
        add_index: "1".to_string(),
        payment_addr: "AA==".to_string(),
    };
    let r = invoice_response_from_added(&added).unwrap();
    assert_eq!(r.invoice_request, "lnbc1added");
    assert_eq!(r.hash, Some("deadbeef".to_string()));
    assert!(!r.paid);
    assert_eq!(r.status, 0);
    let mut bad = added.clone();
    bad.r_hash = "not base64!".to_string();
    assert!(invoice_response_from_added(&bad).is_none());
}

fn node_lookup(state: InvoiceState, value: &str) -> LookupInvoiceResponse {
    LookupInvoiceResponse {
        memo: "memo".to_string(),
        r_preimage: "cHJl".to_string(),
        r_hash: "aGFzaA==".to_string(),
        value: value.to_string(),
        value_msat: "21000".to_string(),
        settled: true,
        settle_date: "1700000000".to_string(),
        creation_date: "1699999000".to_string(),
        payment_request: "lnbc1look".to_string(),
        expiry: "3600".to_string(),
        cltv_expiry: "144".to_string(),
        private: false,
        add_index: "5".to_string(),
        settle_index: "6".to_string(),
        amt_paid: "21000".to_string(),
        amt_paid_sat: "21".to_string(),
        amt_paid_msat: "21000".to_string(),
        state,
        status: None,
    }
}

#[test]
fn looked_up_invoice_reply() {
    let r = lookup_invoice_response(&node_lookup(InvoiceState::SETTLED, "21")).unwrap();
    assert_eq!(r.memo, "memo");
    assert_eq!(r.value, 21);
    assert_eq!(r.value_msat, 21000);
    assert_eq!(r.settle_date, 1700000000);
    assert_eq!(r.cltv_expiry, 144);
    assert_eq!(r.add_index, 5);
    assert_eq!(r.amt_paid_sat, 21);
    assert!(r.paid);
    assert_eq!(r.state, 1);
    assert_eq!(r.totalAmount, "0");
    assert_eq!(r.payment_request, "lnbc1look");
    let r = lookup_invoice_response(&node_lookup(InvoiceState::OPEN, "21")).unwrap();
    assert!(!r.paid);
    assert_eq!(r.state, 0);
    assert!(lookup_invoice_response(&node_lookup(InvoiceState::OPEN, "x")).is_none());
}

#[test]
fn fee_limits() {
    assert_eq!(fee_limit(5, 10, 1000), 10);
    assert_eq!(fee_limit(50, 10, 1000), 50);
    assert_eq!(fee_limit(5000, 10, 1000), 1000);
    assert_eq!(fee_limit(5, 10, 8), 8);
    assert_eq!(fee_limit_sat(50, 10, 1000), "50");
    assert_eq!(fee_limit_sat(-5, -10, -1), "-5");
    assert_eq!(get_channels(123456789), vec!["123456789".to_string()]);
}

#[test]
fn payment_stream_items() {
    let done = br#"{"result":{"status":"SUCCEEDED","payment_hash":"h"}}"#;
    match payment_stream_step(Ok(&done[..])) {
        StreamStep::Done(text) => assert_eq!(text.as_bytes(), &done[..]),
        _ => panic!("expected the end of the stream"),
    }
    let failed = br#"{"result":{"status":"FAILED"}}"#;
    assert!(matches!(payment_stream_step(Ok(&failed[..])), StreamStep::Done(_)));
    let flight = br#"{"result":{"status":"IN_FLIGHT"}}"#;
    assert!(matches!(payment_stream_step(Ok(&flight[..])), StreamStep::Continue));
    assert!(matches!(payment_stream_step(Ok(&b"not json"[..])), StreamStep::Continue));
    match payment_stream_step(Ok(&[0xffu8, 0xfe][..])) {
        StreamStep::Fail(e) => {
            assert_eq!(e.error_status_code, 400);
            assert_eq!(e.error_message, "Failed to parse JSON as UTF-8");
        },
        _ => panic!("expected a failure"),
    }
    match payment_stream_step(Err(())) {
        StreamStep::Fail(e) => {
            assert_eq!(e.error_status_code, 500);
            assert_eq!(e.error_message, "Internal server error");
        },
        _ => panic!("expected a failure"),
    }
}

fn created(expires_at: u64) -> ClnCreatedInvoice {
    ClnCreatedInvoice {
        bolt11: "lnbc1cln".to_string(),
        payment_hash: "ab".to_string(),
        payment_secret: vec![0x01, 0xff],
        expires_at,
        warning_capacity: Some("low capacity".to_string()),
        warning_offline: None,
        warning_deadends: Some("dead ends".to_string()),
        warning_private_unused: None,
        warning_mpp: None,
    }
}

#[test]
fn cln_created_invoice() {
    let r = cln_created_invoice_response(created(1700000000)).unwrap();
    assert_eq!(r.payment_request, Some("lnbc1cln".to_string()));
    assert_eq!(r.preimage, Some("01ff".to_string()));
    assert_eq!(r.hash, Some("ab".to_string()));
    assert!(!r.paid);
    assert_eq!(r.expires_at, Some(1700000000));
    assert_eq!(r.warnings, Some(" / low capacity / dead ends".to_string()));
    assert!(cln_created_invoice_response(created(u64::MAX)).is_none());
}

#[test]
fn cln_listed_invoice() {
    let r = cln_lookup_response(None).unwrap();
    assert_eq!(r.warnings, Some("Invoice not found".to_string()));
    assert!(r.payment_request.is_none() && r.hash.is_none() && !r.paid);
    let paid = ClnListedInvoice {
        bolt11: Some("lnbc1x".to_string()),
        paid: true,
        payment_preimage: Some(vec![0xaa, 0x0b]),
        payment_hash: "hh".to_string(),
        expires_at: 99,
    };
    let r = cln_lookup_response(Some(paid.clone())).unwrap();
    assert!(r.paid);
    assert_eq!(r.preimage, Some("aa0b".to_string()));
    assert_eq!(r.hash, Some("hh".to_string()));
    assert_eq!(r.expires_at, Some(99));
    assert_eq!(r.warnings, Some(String::new()));
    let mut unpaid = paid.clone();
    unpaid.paid = false;
    let r = cln_lookup_response(Some(unpaid)).unwrap();
    assert!(!r.paid);
    assert_eq!(r.preimage, Some(String::new()));
    assert_eq!(r.expires_at, Some(0));
    let mut no_preimage = paid;
    no_preimage.payment_preimage = None;
    assert!(cln_lookup_response(Some(no_preimage)).is_none());
}

#[test]
fn lnd_grpc_invoices() {
    let r = lnd_hold_invoice_response("lnbc1hold".to_string(), &[0x10, 0x20], &[0xff]);
    assert_eq!(r.payment_request, Some("lnbc1hold".to_string()));
    assert_eq!(r.preimage, Some("1020".to_string()));
    assert_eq!(r.hash, Some("ff".to_string()));
    assert!(!r.paid);
    assert_eq!(r.expires_at, None);
    let settled = LndInvoice {
        payment_request: "lnbc1s".to_string(),
        state: 1,
        r_preimage: vec![1],
        r_hash: vec![2],
        settle_date: 1234,
    };
    let r = lnd_lookup_response(settled.clone());
    assert!(r.paid);
    assert_eq!(r.preimage, Some("01".to_string()));
    assert_eq!(r.hash, Some("02".to_string()));
    assert_eq!(r.expires_at, Some(1234));
    let mut open = settled;
    open.state = 0;
    let r = lnd_lookup_response(open);
    assert!(!r.paid);
    assert_eq!(r.hash, Some(String::new()));
    assert_eq!(r.expires_at, Some(0));
}

#[test]
fn payment_hash_from_hex() {
    assert_eq!(payment_hash_bytes("00ffAb"), Some(vec![0x00, 0xff, 0xab]));
    assert_eq!(payment_hash_bytes("abc"), None);
    assert_eq!(payment_hash_bytes("zz"), None);
    assert_eq!(payment_hash_bytes(""), Some(vec![]));
    assert_eq!(bytes_hex(&[0, 1, 254]), "0001fe");
}

#[test]
fn macaroon_and_node_address() {
    assert_eq!(macaroon_header_bytes(b"0201AB\nCD0f x"), b"0201ABCD0".to_vec());
    assert_eq!(macaroon_header_bytes(b""), Vec::<u8>::new());
    assert_eq!(node_base_url("localhost", 8080), "https://localhost:8080");
    assert_eq!(node_base_url("10.0.0.1", 0), "https://10.0.0.1:0");
}

#[test]
fn node_info() {
    let info = cln_info_response("02ab".to_string(), Some("node".to_string()), 840000);
    assert_eq!(info.identity_pubkey, "02ab");
    assert_eq!(info.alias, Some("node".to_string()));
    assert_eq!(info.block_height, "840000");
    let info = lnd_info_response("03cd".to_string(), "lnd".to_string(), 0);
    assert_eq!(info.alias, Some("lnd".to_string()));
    assert_eq!(info.block_height, "0");
}

#[test]
fn hex_written_reads_back() {
    for bytes in [vec![], vec![0u8], vec![0xde, 0xad, 0xbe, 0xef], (0u8..=255).collect::<Vec<u8>>()] {
        assert_eq!(payment_hash_bytes(&bytes_hex(&bytes)), Some(bytes.clone()));
    }
    assert_ne!(bytes_hex(&[0x01, 0x23]), bytes_hex(&[0x12, 0x03]));
}
