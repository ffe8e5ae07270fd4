//! The decisions of the three background jobs: which rows each job takes,
//! what it does with an invoice whose time may have run out, how it pays a
//! collaborator's share, and when an invoice counts as distributed. The
//! jobs' loops, their database queries and their calls to the node and the
//! business API run around these functions.
use vstd::prelude::*;
use crate::error::CustomError;
use crate::lightning::invoice::{
    bolt11_decoding,
    bolt11_raw_timestamp,
    checked_is_expired_invoice,
    expired_outcome,
    expired_result_is,
    expiry_fits,
};
use crate::lightning::types::{
    get_payment_status,
    payment_status_code,
    state_code,
    InvoiceState,
    PaymentStatus,
    SendPaymentV2Response,
};
use crate::models::{Invoice, PaymentSplit};
use crate::modelsext::{InvoiceFilters, ProcessResult};
use crate::text::{i32_text, parse_i32};

verus! {

/// How the jobs read the answer to "has this stored invoice expired?": an
/// invoice that cannot be read counts as expired.
pub open spec fn expired_or_unreadable(outcome: Result<bool, Seq<char>>) -> bool {
    match outcome {
        Ok(b) => b,
        Err(_) => true,
    }
}

/// Whether a stored invoice has expired, an unreadable one counting as
/// expired; `None` where its expiry runs past `u64::MAX` seconds (there the
/// expiry check would panic).
pub fn stored_invoice_expired(bolt11: &str) -> (res: Option<bool>)
    ensures
        res is Some <==> expiry_fits(bolt11@),
        res matches Some(b) ==> exists|now_secs: i64|
            0 <= now_secs && b == expired_or_unreadable(
                #[trigger] expired_outcome(
                    bolt11_decoding(bolt11@),
                    bolt11_raw_timestamp(bolt11@),
                    now_secs as int,
                ),
            ),
{
    match checked_is_expired_invoice(bolt11) {
        None => None,
        Some(checked) => {
            let b = match checked {
                Ok(expired) => expired,
                Err(_) => true,
            };
            proof {
                let text = bolt11@;
                let w = choose|now_secs: i64|
                    0 <= now_secs && expired_result_is(
                        checked,
                        expired_outcome(
                            bolt11_decoding(text),
                            bolt11_raw_timestamp(text),
                            now_secs as int,
                        ),
                    );
                assert(b == expired_or_unreadable(
                    expired_outcome(bolt11_decoding(text), bolt11_raw_timestamp(text), w as int),
                ));
            }
            Some(b)
        },
    }
}

// ----------------------------------------------------------------------
// Job 1: invoices awaiting payment
// ----------------------------------------------------------------------

/// The invoices that the first job looks at: those still open or accepted.
pub open spec fn job1_takes(status: int) -> bool {
    status == state_code(InvoiceState::OPEN) || status == state_code(InvoiceState::ACCEPTED)
}

/// Whether the first job looks at this invoice.
pub fn job1_selects(row: &Invoice) -> (res: bool)
    ensures
        res == job1_takes(row.status as int),
{
    row.status == 0 || row.status == 3
}

/// What the first job does with one invoice: mark it expired (or not), then
/// ask the node for its state by this hash.
pub struct Job1Plan {
    /// The lookup of the invoice at the node.
    pub filter: InvoiceFilters,
    /// Whether to store the invoice as expired first.
    pub mark_expired: bool,
}

/// The first job's plan for one invoice: look it up by its payment hash,
/// and store it as expired where its time has run out or it cannot be read.
/// `None` where the invoice has no payment hash, or its expiry runs past
/// `u64::MAX` seconds (where the job panics).
pub fn job1_row_plan(row: &Invoice) -> (res: Option<Job1Plan>)
    ensures
        res is Some <==> row.payment_hash is Some && expiry_fits(row.bolt11@),
        res matches Some(plan) ==> {
            &&& plan.filter.hash@ == row.payment_hash->0@
            &&& exists|now_secs: i64|
                0 <= now_secs && plan.mark_expired == expired_or_unreadable(
                    #[trigger] expired_outcome(
                        bolt11_decoding(row.bolt11@),
                        bolt11_raw_timestamp(row.bolt11@),
                        now_secs as int,
                    ),
                )
        },
{
    match &row.payment_hash {
        None => None,
        Some(hash) => match stored_invoice_expired(row.bolt11.as_str()) {
            None => None,
            Some(expired) => Some(
                Job1Plan { filter: InvoiceFilters { hash: hash.clone() }, mark_expired: expired },
            ),
        },
    }
}

// ----------------------------------------------------------------------
// Job 2: paying the collaborators' shares
// ----------------------------------------------------------------------

/// The invoices that the second job looks at: settled and not yet
/// distributed.
pub open spec fn job2_takes(status: int, distributed: bool) -> bool {
    status == state_code(InvoiceState::SETTLED) && !distributed
}

/// Whether the second job looks at this invoice.
pub fn job2_selects(row: &Invoice) -> (res: bool)
    ensures
        res == job2_takes(row.status as int, row.distributed),
{
    row.status == 1 && !row.distributed
}

/// The shares that the second job pays for an invoice: the invoice's own
/// shares whose payment status is unknown or failed.
pub open spec fn job2_takes_split(split_invoice_id: int, split_status: int, invoice_id: int) -> bool {
    &&& split_invoice_id == invoice_id
    &&& (split_status == payment_status_code(PaymentStatus::UNKNOWN) || split_status
        == payment_status_code(PaymentStatus::FAILED))
}

/// Whether the second job pays this share while handling this invoice.
pub fn job2_selects_split(split: &PaymentSplit, invoice: &Invoice) -> (res: bool)
    ensures
        res == job2_takes_split(split.invoice_id as int, split.status as int, invoice.id as int),
{
    split.invoice_id == invoice.id && (split.status == 0 || split.status == 3)
}

/// Whether a share needs a new invoice before it is paid: it has none, or
/// the stored one has expired or cannot be read. `None` where the stored
/// invoice's expiry runs past `u64::MAX` seconds.
pub fn split_needs_new_invoice(stored: &Option<String>) -> (res: Option<bool>)
    ensures
        stored is None ==> res == Some(true),
        stored matches Some(s) ==> (res is Some <==> expiry_fits(s@)),
        stored matches Some(s) ==> (res matches Some(b) ==> exists|now_secs: i64|
            0 <= now_secs && b == expired_or_unreadable(
                #[trigger] expired_outcome(
                    bolt11_decoding(s@),
                    bolt11_raw_timestamp(s@),
                    now_secs as int,
                ),
            )),
{
    match stored {
        None => Some(true),
        Some(s) => stored_invoice_expired(s.as_str()),
    }
}

/// Where the payment of one share stands.
#[derive(Debug, Clone, Copy, PartialEq, Eq, Structural)]
pub enum SplitPayState {
    /// Waiting to learn whether the stored invoice can still be paid.
    Start,
    /// Waiting for the collaborator's address to give a new invoice.
    Resolving,
    /// Waiting for the node's answer to the payment.
    Paying,
    /// Finished, counting this many errors for the share.
    Done(i32),
    /// Finished without a node to pay through: the share's handling fails.
    NoNode,
}

/// What happened since the last step.
#[derive(Debug, Clone)]
pub enum SplitPayEvent {
    /// Whether a new invoice is needed, with the invoice stored for the share.
    Checked { generate: bool, stored: Option<String> },
    /// The collaborator's address answered with this invoice text, or failed.
    Resolved(Option<String>),
    /// The connection to the node could not be made.
    NodeUnavailable,
    /// The node did not carry out the payment.
    PaymentRefused,
    /// The node's account of the payment.
    PaymentSent(SendPaymentV2Response),
}

/// The columns written to a share after the node's account of its payment
/// (its attempt count also goes up by one).
#[derive(Debug, Clone)]
pub struct SplitPaymentUpdate {
    pub bolt11: String,
    pub fee_sat: i32,
    pub status: i32,
    pub payment_hash: String,
    pub payment_secret: String,
}

/// What to do next.
#[derive(Debug, Clone)]
pub enum SplitPayAction {
    /// Ask the collaborator's Lightning address for an invoice of the share's
    /// amount and description.
    ResolveAddress,
    /// Pay this invoice through the node.
    Pay(String),
    /// Write the node's account of the payment to the share.
    RecordPayment(SplitPaymentUpdate),
    /// Count one more attempt on the share.
    RecordAttempt,
    /// Nothing more.
    Finish,
}

/// `update` holds the node's account `pay` as the share's columns.
pub open spec fn update_of(pay: SendPaymentV2Response, update: SplitPaymentUpdate) -> bool {
    &&& update.bolt11@ == pay.payment_request@
    &&& i32_text(pay.fee_sat@) == Some(update.fee_sat as int)
    &&& update.status == payment_status_code(pay.status)
    &&& update.payment_hash@ == pay.payment_hash@
    &&& update.payment_secret@ == pay.payment_preimage@
}

/// One step of paying a share, from `state` on `event` to `next` with
/// `action`. An event that does not belong to the state changes nothing.
pub open spec fn split_pay_step(
    state: SplitPayState,
    event: SplitPayEvent,
    next: SplitPayState,
    action: SplitPayAction,
) -> bool {
    match (state, event) {
        (SplitPayState::Start, SplitPayEvent::Checked { generate, stored }) => if generate {
            next == SplitPayState::Resolving && action is ResolveAddress
        } else {
            &&& next == SplitPayState::Paying
            &&& action matches SplitPayAction::Pay(s) && s@ == match stored {
                Some(t) => t@,
                None => Seq::<char>::empty(),
            }
        },
        (SplitPayState::Resolving, SplitPayEvent::Resolved(answer)) => match answer {
            Some(t) => if t@.len() > 0 {
                &&& next == SplitPayState::Paying
                &&& action matches SplitPayAction::Pay(s) && s@ == t@
            } else {
                next == SplitPayState::Done(1) && action is Finish
            },
            None => next == SplitPayState::Done(1) && action is Finish,
        },
        (SplitPayState::Paying, SplitPayEvent::NodeUnavailable) => next == SplitPayState::NoNode
            && action is Finish,
        (SplitPayState::Paying, SplitPayEvent::PaymentRefused) => next == SplitPayState::Done(1)
            && action is RecordAttempt,
        (SplitPayState::Paying, SplitPayEvent::PaymentSent(pay)) => {
            &&& next == SplitPayState::Done(
                if pay.status == PaymentStatus::FAILED {
                    1i32
                } else {
                    0i32
                },
            )
            &&& action matches SplitPayAction::RecordPayment(u) && update_of(pay, u)
        },
        _ => next == state && action is Finish,
    }
}

/// The node's account of a payment, as the share's columns; `None` where
/// its fee is not a decimal `i32` (where the job panics).
pub fn split_payment_update(pay: &SendPaymentV2Response) -> (res: Option<SplitPaymentUpdate>)
    ensures
        res is Some <==> i32_text(pay.fee_sat@) is Some,
        res matches Some(u) ==> update_of(*pay, u),
{
    match parse_i32(pay.fee_sat.as_str()) {
        None => None,
        Some(fee_sat) => Some(
            SplitPaymentUpdate {
                bolt11: pay.payment_request.clone(),
                fee_sat,
                status: get_payment_status(&pay.status),
                payment_hash: pay.payment_hash.clone(),
                payment_secret: pay.payment_preimage.clone(),
            },
        ),
    }
}

/// One step of paying a share: with a stored invoice that can still be
/// paid, pay it; else ask the collaborator's address for a new one, and pay
/// it unless the address failed or gave an empty text (one error). A node
/// that cannot be reached ends the share's handling as a failure; a refused
/// payment counts one attempt and one error; an accepted one is written to
/// the share and counts an error only when its status is `FAILED`.
pub fn split_pay_next(state: SplitPayState, event: SplitPayEvent) -> (res: (
    SplitPayState,
    SplitPayAction,
))
    requires
        event matches SplitPayEvent::PaymentSent(pay) ==> (state == SplitPayState::Paying
            ==> i32_text(pay.fee_sat@) is Some),
    ensures
        split_pay_step(state, event, res.0, res.1),
{
    match (state, event) {
        (SplitPayState::Start, SplitPayEvent::Checked { generate, stored }) => {
            if generate {
                (SplitPayState::Resolving, SplitPayAction::ResolveAddress)
            } else {
                let invoice = match stored {
                    Some(t) => t,
                    None => String::new(),
                };
                (SplitPayState::Paying, SplitPayAction::Pay(invoice))
            }
        },
        (SplitPayState::Resolving, SplitPayEvent::Resolved(answer)) => match answer {
            Some(t) => {
                if t.as_str().unicode_len() == 0 {
                    (SplitPayState::Done(1), SplitPayAction::Finish)
                } else {
                    (SplitPayState::Paying, SplitPayAction::Pay(t))
                }
            },
            None => (SplitPayState::Done(1), SplitPayAction::Finish),
        },
        (SplitPayState::Paying, SplitPayEvent::NodeUnavailable) => (
            SplitPayState::NoNode,
            SplitPayAction::Finish,
        ),
        (SplitPayState::Paying, SplitPayEvent::PaymentRefused) => (
            SplitPayState::Done(1),
            SplitPayAction::RecordAttempt,
        ),
        (SplitPayState::Paying, SplitPayEvent::PaymentSent(pay)) => {
            let failed = match pay.status {
                PaymentStatus::FAILED => true,
                _ => false,
            };
            let update = split_payment_update(&pay).unwrap();
            let errors: i32 = if failed {
                1
            } else {
                0
            };
            (SplitPayState::Done(errors), SplitPayAction::RecordPayment(update))
        },
        (s, _) => (s, SplitPayAction::Finish),
    }
}

/// How far a share's payment is from its end: three steps at the start, none
/// once finished.
pub open spec fn steps_left(state: SplitPayState) -> int {
    match state {
        SplitPayState::Start => 3,
        SplitPayState::Resolving => 2,
        SplitPayState::Paying => 1,
        SplitPayState::Done(_) => 0,
        SplitPayState::NoNode => 0,
    }
}

/// Every step that an event moves comes nearer the end, so a share is
/// handled in at most three steps; and a share ends counting no error or
/// one.
pub proof fn lemma_split_pay_progress(
    state: SplitPayState,
    event: SplitPayEvent,
    next: SplitPayState,
    action: SplitPayAction,
)
    requires
        split_pay_step(state, event, next, action),
        state matches SplitPayState::Done(e) ==> 0 <= e <= 1,
    ensures
        next != state ==> steps_left(next) < steps_left(state),
        next matches SplitPayState::Done(e) ==> 0 <= e <= 1,
{
}

/// The errors that the second job counts for an invoice: what each share's
/// handling counted (`None` where it failed as a whole, which counts one).
pub open spec fn error_total(outcomes: Seq<Option<i32>>) -> int
    decreases outcomes.len(),
{
    if outcomes.len() == 0 {
        0
    } else {
        error_total(outcomes.drop_last()) + match outcomes.last() {
            Some(e) => e as int,
            None => 1,
        }
    }
}

proof fn lemma_error_total_bounds(outcomes: Seq<Option<i32>>)
    ensures
        -0x8000_0000 * outcomes.len() <= error_total(outcomes) <= 0x8000_0000 * outcomes.len(),
    decreases outcomes.len(),
{
    if outcomes.len() > 0 {
        lemma_error_total_bounds(outcomes.drop_last());
    }
}

/// The total of the errors counted for an invoice's shares.
pub fn split_error_total(outcomes: &Vec<Option<i32>>) -> (res: i128)
    ensures
        res == error_total(outcomes@),
{
    let mut total: i128 = 0;
    let mut i: usize = 0;
    while i < outcomes.len()
        invariant
            i <= outcomes@.len(),
            total == error_total(outcomes@.subrange(0, i as int)),
        decreases outcomes@.len() - i,
    {
        proof {
            assert(outcomes@.subrange(0, i + 1).drop_last() == outcomes@.subrange(0, i as int));
            lemma_error_total_bounds(outcomes@.subrange(0, i + 1));
        }
        let add: i128 = match outcomes[i] {
            Some(e) => e as i128,
            None => 1,
        };
        total = total + add;
        i = i + 1;
    }
    proof {
        assert(outcomes@.subrange(0, outcomes@.len() as int) == outcomes@);
    }
    total
}

/// Whether the second job marks an invoice as distributed: the errors
/// counted for its shares add up to nothing.
pub fn distribution_complete(outcomes: &Vec<Option<i32>>) -> (res: bool)
    ensures
        res == (error_total(outcomes@) == 0),
{
    split_error_total(outcomes) == 0
}

/// What the second job does to an invoice after handling its shares:
/// `outcomes` is what each selected share's handling counted, or `None`
/// where the shares could not be read. The invoice becomes distributed when
/// the shares were read and their errors add up to nothing; a distributed
/// invoice stays so, and nothing else changes.
pub fn job2_apply(invoice: &mut Invoice, outcomes: &Option<Vec<Option<i32>>>)
    ensures
        *final(invoice) == (Invoice {
            distributed: old(invoice).distributed || (outcomes matches Some(o) && error_total(o@)
                == 0),
            ..*old(invoice)
        }),
{
    match outcomes {
        Some(o) => {
            if distribution_complete(o) {
                invoice.distributed = true;
            }
        },
        None => {},
    }
}

/// Where each share's handling counts no error or one, as a share's payment
/// does, the invoice is marked distributed exactly when every share was paid
/// without error.
pub proof fn lemma_distribution_complete_iff_all_paid(outcomes: Seq<Option<i32>>)
    requires
        forall|i: int| 0 <= i < outcomes.len() ==> (#[trigger] outcomes[i] matches Some(e) ==> 0
            <= e <= 1),
    ensures
        error_total(outcomes) == 0 <==> forall|i: int|
            0 <= i < outcomes.len() ==> #[trigger] outcomes[i] == Some(0i32),
    decreases outcomes.len(),
{
    if outcomes.len() > 0 {
        let init = outcomes.drop_last();
        assert forall|i: int| 0 <= i < init.len() implies (#[trigger] init[i] matches Some(e) ==> 0
            <= e <= 1) by {
            assert(init[i] == outcomes[i]);
        }
        lemma_distribution_complete_iff_all_paid(init);
        lemma_error_total_nonneg(init);
        if error_total(outcomes) == 0 {
            assert forall|i: int| 0 <= i < outcomes.len() implies #[trigger] outcomes[i] == Some(
                0i32,
            ) by {
                if i < init.len() {
                    assert(init[i] == outcomes[i]);
                }
            }
        } else {
            let last = outcomes.len() - 1;
            if outcomes[last] == Some(0i32) {
                assert(error_total(init) != 0);
                let j = choose|j: int| 0 <= j < init.len() && init[j] != Some(0i32);
                assert(outcomes[j] == init[j]);
            }
        }
    }
}

proof fn lemma_error_total_nonneg(outcomes: Seq<Option<i32>>)
    requires
        forall|i: int| 0 <= i < outcomes.len() ==> (#[trigger] outcomes[i] matches Some(e) ==> 0
            <= e),
    ensures
        error_total(outcomes) >= 0,
    decreases outcomes.len(),
{
    if outcomes.len() > 0 {
        let init = outcomes.drop_last();
        assert forall|i: int| 0 <= i < init.len() implies (#[trigger] init[i] matches Some(e) ==> 0
            <= e) by {
            assert(init[i] == outcomes[i]);
        }
        lemma_error_total_nonneg(init);
    }
}

// ----------------------------------------------------------------------
// Job 3: reporting paid shares to the business API
// ----------------------------------------------------------------------

/// The invoices that the third job looks at: settled, with their payment
/// split among collaborators.
pub open spec fn job3_takes(status: int, apply_split: bool) -> bool {
    status == state_code(InvoiceState::SETTLED) && apply_split
}

/// Whether the third job looks at this invoice.
pub fn job3_selects(row: &Invoice) -> (res: bool)
    ensures
        res == job3_takes(row.status as int, row.apply_split),
{
    row.status == 1 && row.apply_split
}

/// The shares of an invoice that the third job reports: paid and not yet
/// reported.
pub open spec fn job3_takes_split(
    split_invoice_id: int,
    split_status: int,
    reported: bool,
    invoice_id: int,
) -> bool {
    &&& split_invoice_id == invoice_id
    &&& split_status == payment_status_code(PaymentStatus::SUCCEEDED)
    &&& !reported
}

/// Whether the third job reports this share while handling this invoice.
pub fn job3_selects_split(split: &PaymentSplit, invoice: &Invoice) -> (res: bool)
    ensures
        res == job3_takes_split(
            split.invoice_id as int,
            split.status as int,
            split.reported,
            invoice.id as int,
        ),
{
    split.invoice_id == invoice.id && split.status == 2 && !split.reported
}

/// Whether the third job marks a share as reported after the business API's
/// answer: only where the API processed the report.
pub fn report_accepted(answer: &Result<ProcessResult, CustomError>) -> (res: bool)
    ensures
        res == report_accepted_spec(*answer),
{
    match answer {
        Ok(r) => r.success,
        Err(_) => false,
    }
}

/// Whether the business API processed a report.
pub open spec fn report_accepted_spec(answer: Result<ProcessResult, CustomError>) -> bool {
    answer matches Ok(r) && r.success
}

/// What the third job does to a share after reporting it: it becomes
/// reported exactly where the business API processed the report; a reported
/// share stays so, and nothing else changes.
pub fn job3_apply(split: &mut PaymentSplit, answer: &Result<ProcessResult, CustomError>)
    ensures
        *final(split) == (PaymentSplit {
            reported: old(split).reported || report_accepted_spec(*answer),
            ..*old(split)
        }),
{
    if report_accepted(answer) {
        split.reported = true;
    }
}

/// The waits between two runs of the three jobs, in seconds: the configured
/// one for the first and third, twice it for the second.
pub fn job_intervals(seconds: i32) -> (res: (i32, i32, i32))
    requires
        i32::MIN <= 2 * seconds <= i32::MAX,
    ensures
        res.0 == seconds,
        res.1 == 2 * seconds,
        res.2 == seconds,
{
    (seconds, seconds * 2, seconds)
}

/// The jobs hand rows on and let go of what they finished: a newly created
/// (open) invoice is taken by the first job; an invoice that the node reports
/// settled leaves the first job's selection and, until it is
/// distributed, is taken by the second; an invoice the first job marks
/// expired leaves its selection; an invoice marked distributed leaves the
/// second job's selection; a share marked reported leaves the third's. The
/// second and third jobs only ever take an invoice's own shares.
pub proof fn lemma_jobs_hand_rows_on(
    status: int,
    split_invoice_id: int,
    split_status: int,
    invoice_id: int,
)
    ensures
        job1_takes(state_code(InvoiceState::OPEN)),
        !job1_takes(state_code(InvoiceState::SETTLED)),
        job2_takes(state_code(InvoiceState::SETTLED), false),
        !job1_takes(state_code(InvoiceState::EXPIRED)),
        !job2_takes(status, true),
        !job3_takes_split(split_invoice_id, split_status, true, invoice_id),
        split_invoice_id != invoice_id ==> !job2_takes_split(split_invoice_id, split_status, invoice_id),
        split_invoice_id != invoice_id ==> !job3_takes_split(split_invoice_id, split_status, false, invoice_id),
{
}

/// The first job looks at exactly the invoices that are open (stored as 0)
/// or accepted (stored as 3) at the node, and at no other stored status.
pub proof fn lemma_job1_takes_open_or_accepted(state: InvoiceState, status: int)
    ensures
        job1_takes(status) ==> status == 0 || status == 3,
        job1_takes(state_code(state)) <==> (state == InvoiceState::OPEN || state
            == InvoiceState::ACCEPTED),
{
}

/// The second job takes only settled invoices (stored as 1) that are not yet
/// distributed: an open, canceled, accepted or expired invoice is never
/// taken, whatever its distributed flag.
pub proof fn lemma_job2_takes_only_settled(state: InvoiceState, status: int, distributed: bool)
    ensures
        job2_takes(status, distributed) ==> status == 1 && !distributed,
        job2_takes(state_code(state), false) <==> state == InvoiceState::SETTLED,
{
}

/// The second job pays only the invoice's own shares whose payment is unknown
/// (stored as 0) or failed (stored as 3): a share in flight or already paid
/// is never paid again.
pub proof fn lemma_job2_pays_only_unpaid_shares(
    payment: PaymentStatus,
    split_invoice_id: int,
    split_status: int,
    invoice_id: int,
)
    ensures
        job2_takes_split(split_invoice_id, split_status, invoice_id) ==> split_invoice_id == invoice_id
            && (split_status == 0 || split_status == 3),
        job2_takes_split(invoice_id, payment_status_code(payment), invoice_id) <==> (payment
            == PaymentStatus::UNKNOWN || payment == PaymentStatus::FAILED),
{
}

/// The third job reports only the invoice's own shares whose payment
/// succeeded (stored as 2) and that are not reported yet: an unpaid, in
/// flight or failed share is never reported as paid.
pub proof fn lemma_job3_reports_only_paid_shares(
    payment: PaymentStatus,
    split_invoice_id: int,
    split_status: int,
    reported: bool,
    invoice_id: int,
)
    ensures
        job3_takes_split(split_invoice_id, split_status, reported, invoice_id) ==> split_invoice_id
            == invoice_id && split_status == 2 && !reported,
        job3_takes_split(invoice_id, payment_status_code(payment), false, invoice_id) <==> payment
            == PaymentStatus::SUCCEEDED,
{
}

/// The third job looks only at settled invoices (stored as 1) whose payment
/// is split among collaborators.
pub proof fn lemma_job3_takes_only_settled_split_invoices(state: InvoiceState, status: int, apply_split: bool)
    ensures
        job3_takes(status, apply_split) ==> status == 1 && apply_split,
        job3_takes(state_code(state), true) <==> state == InvoiceState::SETTLED,
{
}

} // verus!
