use api_lightning::scheduler::{job2_apply, job3_apply};
use api_lightning::error::CustomError;
use api_lightning::lightning::types::{PaymentFailureReason, PaymentStatus, SendPaymentV2Response};
use api_lightning::models::{Invoice, PaymentSplit};
use api_lightning::modelsext::ProcessResult;
use api_lightning::scheduler::{
    distribution_complete, job1_row_plan, job1_selects, job2_selects, job2_selects_split,
    job3_selects, job3_selects_split, job_intervals, report_accepted, split_error_total,
    split_needs_new_invoice, split_pay_next, split_payment_update, stored_invoice_expired,
    SplitPayAction, SplitPayEvent, SplitPayState,
};

const COFFEE: &str = "lnbc2500u1pvjluezsp5zyg3zyg3zyg3zyg3zyg3zyg3zyg3zyg3zyg3zyg3zyg3zyg3zygspp5qqqsyqcyq5rqwzqfqqqsyqcyq5rqwzqfqqqsyqcyq5rqwzqfqypqdq5xysxxatsyp3k7enxv4jsxqzpu9qrsgquk0rl77nj30yxdy8j9vdx85fkpmdla2087ne0xh8nhedh8w27kyke0lp53ut353s06fv3qfegext0eh0ymjpf39tuven09sam30g4vgpfna3rh";

fn invoice(id: i32, status: i32, distributed: bool, apply_split: bool) -> Invoice {
    let mut inv = Invoice::default();
    inv.id = id;
    inv.status = status;
    inv.distributed = distributed;
    inv.apply_split = apply_split;
    inv
}

fn share(invoice_id: i32, status: i32, reported: bool) -> PaymentSplit {
    PaymentSplit {
        id: 1,
        invoice_id,
        tipo_asociado: "seller".to_string(),
        lnaddress: "a@b.c".to_string(),
        amount_sat: 100,
        fee_sat: 0,
        status,
        bolt11: None,
        payment_hash: None,
        payment_secret: None,
        attempts: 0,
        reported,
    }
}

fn payment(status: PaymentStatus, fee_sat: &str) -> SendPaymentV2Response {
    SendPaymentV2Response {
        payment_hash: "hash".to_string(),
        value: "100".to_string(),
        creation_date: "0".to_string(),
        fee: "1".to_string(),
        payment_preimage: "pre".to_string(),
        value_sat: "100".to_string(),
        value_msat: "100000".to_string(),
        payment_request: "lnbc1pay".to_string(),
        status,
        fee_sat: fee_sat.to_string(),
        fee_msat: "1000".to_string(),
        creation_time_ns: "0".to_string(),
        htlcs: vec![],
        payment_index: "1".to_string(),
        failure_reason: PaymentFailureReason::FAILURE_REASON_NONE,
    }
}

#[test]
fn job_filters() {
    assert!(job1_selects(&invoice(1, 0, false, false)));
    assert!(job1_selects(&invoice(1, 3, false, false)));
    assert!(!job1_selects(&invoice(1, 1, false, false)));
    assert!(!job1_selects(&invoice(1, 4, false, false)));
    assert!(job2_selects(&invoice(1, 1, false, false)));
    assert!(!job2_selects(&invoice(1, 1, true, false)));
    assert!(!job2_selects(&invoice(1, 0, false, false)));
    assert!(job3_selects(&invoice(1, 1, true, true)));
    assert!(!job3_selects(&invoice(1, 1, true, false)));
    assert!(!job3_selects(&invoice(1, 2, true, true)));
}

#[test]
fn job2_share_filter_takes_own_open_shares() {
    let inv = invoice(5, 1, false, false);
    assert!(job2_selects_split(&share(5, 0, false), &inv));
    assert!(!job2_selects_split(&share(6, 0, false), &inv));
    // only this invoice's failed shares are taken
    assert!(!job2_selects_split(&share(6, 3, false), &inv));
    assert!(job2_selects_split(&share(5, 3, false), &inv));
    assert!(!job2_selects_split(&share(5, 1, false), &inv));
    assert!(!job2_selects_split(&share(5, 2, false), &inv));
}

#[test]
fn job3_share_filter() {
    let inv = invoice(5, 1, false, true);
    assert!(job3_selects_split(&share(5, 2, false), &inv));
    assert!(!job3_selects_split(&share(5, 2, true), &inv));
    assert!(!job3_selects_split(&share(6, 2, false), &inv));
    assert!(!job3_selects_split(&share(5, 3, false), &inv));
}

#[test]
fn stored_invoice_expiry() {
    assert_eq!(stored_invoice_expired(COFFEE), Some(true));
    assert_eq!(stored_invoice_expired("unreadable"), Some(true));
    assert_eq!(split_needs_new_invoice(&None), Some(true));
    assert_eq!(split_needs_new_invoice(&Some(COFFEE.to_string())), Some(true));
}

#[test]
fn job1_plan_for_rows() {
    let mut row = invoice(1, 0, false, false);
    row.bolt11 = COFFEE.to_string();
    row.payment_hash = Some("abcd".to_string());
    let plan = job1_row_plan(&row).unwrap();
    assert_eq!(plan.filter.hash, "abcd");
    assert!(plan.mark_expired);
    row.payment_hash = None;
    assert!(job1_row_plan(&row).is_none());
}

#[test]
fn split_pay_with_fresh_invoice() {
    let (s, a) = split_pay_next(
        SplitPayState::Start,
        SplitPayEvent::Checked { generate: false, stored: Some("lnbc1stored".to_string()) },
    );
    assert_eq!(s, SplitPayState::Paying);
    match a {
        SplitPayAction::Pay(inv) => assert_eq!(inv, "lnbc1stored"),
        other => panic!("unexpected {:?}", other),
    }
    let (s, a) = split_pay_next(s, SplitPayEvent::PaymentSent(payment(PaymentStatus::SUCCEEDED, "3")));
    assert_eq!(s, SplitPayState::Done(0));
    match a {
        SplitPayAction::RecordPayment(u) => {
            assert_eq!(u.bolt11, "lnbc1pay");
            assert_eq!(u.fee_sat, 3);
            assert_eq!(u.status, 2);
            assert_eq!(u.payment_hash, "hash");
            assert_eq!(u.payment_secret, "pre");
        },
        other => panic!("unexpected {:?}", other),
    }
}

#[test]
fn split_pay_resolving_new_invoice() {
    let (s, a) = split_pay_next(
        SplitPayState::Start,
        SplitPayEvent::Checked { generate: true, stored: None },
    );
    assert_eq!(s, SplitPayState::Resolving);
    assert!(matches!(a, SplitPayAction::ResolveAddress));
    let (s2, a2) = split_pay_next(s, SplitPayEvent::Resolved(Some("lnbc1new".to_string())));
    assert_eq!(s2, SplitPayState::Paying);
    assert!(matches!(a2, SplitPayAction::Pay(ref t) if t == "lnbc1new"));
    let (s3, a3) = split_pay_next(s, SplitPayEvent::Resolved(Some(String::new())));
    assert_eq!(s3, SplitPayState::Done(1));
    assert!(matches!(a3, SplitPayAction::Finish));
    let (s4, _) = split_pay_next(s, SplitPayEvent::Resolved(None));
    assert_eq!(s4, SplitPayState::Done(1));
}

#[test]
fn split_pay_failures() {
    let (s, a) = split_pay_next(SplitPayState::Paying, SplitPayEvent::PaymentRefused);
    assert_eq!(s, SplitPayState::Done(1));
    assert!(matches!(a, SplitPayAction::RecordAttempt));
    let (s, a) = split_pay_next(SplitPayState::Paying, SplitPayEvent::NodeUnavailable);
    assert_eq!(s, SplitPayState::NoNode);
    assert!(matches!(a, SplitPayAction::Finish));
    let (s, a) = split_pay_next(
        SplitPayState::Paying,
        SplitPayEvent::PaymentSent(payment(PaymentStatus::FAILED, "0")),
    );
    assert_eq!(s, SplitPayState::Done(1));
    assert!(matches!(a, SplitPayAction::RecordPayment(ref u) if u.status == 3));
    // an event that does not belong to the state changes nothing
    let (s, a) = split_pay_next(SplitPayState::Done(0), SplitPayEvent::PaymentRefused);
    assert_eq!(s, SplitPayState::Done(0));
    assert!(matches!(a, SplitPayAction::Finish));
}

#[test]
fn split_payment_update_needs_a_fee() {
    assert!(split_payment_update(&payment(PaymentStatus::SUCCEEDED, "12")).is_some());
    assert!(split_payment_update(&payment(PaymentStatus::SUCCEEDED, "1.5")).is_none());
    assert!(split_payment_update(&payment(PaymentStatus::SUCCEEDED, "")).is_none());
}

#[test]
fn distribution_totals() {
    assert_eq!(split_error_total(&vec![]), 0);
    assert!(distribution_complete(&vec![]));
    assert!(distribution_complete(&vec![Some(0), Some(0)]));
    assert!(!distribution_complete(&vec![Some(0), None]));
    assert!(!distribution_complete(&vec![Some(1), Some(0)]));
    assert_eq!(split_error_total(&vec![Some(1), None, Some(0), Some(1)]), 3);
    assert_eq!(split_error_total(&vec![Some(i32::MAX), Some(i32::MAX)]), 2 * (i32::MAX as i128));
}

#[test]
fn report_answers() {
    let ok = ProcessResult { success: true, message: "done".to_string(), data: None };
    let refused = ProcessResult { success: false, message: "no".to_string(), data: None };
    assert!(report_accepted(&Ok(ok)));
    assert!(!report_accepted(&Ok(refused)));
    assert!(!report_accepted(&Err(CustomError::new(400, "bad".to_string()))));
}

#[test]
fn intervals_of_the_jobs() {
    assert_eq!(job_intervals(30), (30, 60, 30));
    assert_eq!(job_intervals(0), (0, 0, 0));
}

#[test]
fn jobs_hand_rows_on() {
    // a new, open invoice is the first job's
    assert!(job1_selects(&invoice(1, 0, false, false)));
    // once the node reports it settled, the first job lets go and the second takes it
    let settled = invoice(1, 1, false, true);
    assert!(!job1_selects(&settled));
    assert!(job2_selects(&settled));
    // marked expired: the first job lets go
    assert!(!job1_selects(&invoice(1, 4, false, false)));
    // marked distributed: the second job lets go
    assert!(!job2_selects(&invoice(1, 1, true, true)));
    // a reported share: the third job lets go
    assert!(!job3_selects_split(&share(1, 2, true), &settled));
}

#[test]
fn job2_marks_distributed() {
    let mut inv = invoice(1, 1, false, false);
    job2_apply(&mut inv, &None);
    assert!(!inv.distributed);
    job2_apply(&mut inv, &Some(vec![Some(0), Some(1)]));
    assert!(!inv.distributed);
    job2_apply(&mut inv, &Some(vec![Some(0), Some(0)]));
    assert!(inv.distributed);
    assert_eq!((inv.id, inv.status), (1, 1));
    // never set back
    job2_apply(&mut inv, &Some(vec![None]));
    assert!(inv.distributed);
}

#[test]
fn job3_marks_reported() {
    let mut s = share(5, 2, false);
    job3_apply(&mut s, &Ok(ProcessResult { success: false, message: "no".to_string(), data: None }));
    assert!(!s.reported);
    job3_apply(&mut s, &Err(CustomError::new(400, "x".to_string())));
    assert!(!s.reported);
    job3_apply(&mut s, &Ok(ProcessResult { success: true, message: "ok".to_string(), data: None }));
    assert!(s.reported);
    assert_eq!((s.invoice_id, s.status, s.lnaddress.as_str()), (5, 2, "a@b.c"));
    job3_apply(&mut s, &Err(CustomError::new(400, "x".to_string())));
    assert!(s.reported);
}
