//! Checks on BOLT 11 invoices: decoding, amounts and expiry.
use vstd::prelude::*;
use crate::error::CustomError;
use crate::modelsext::InvoiceCheck;

verus! {

/// What this library reads of a decoded BOLT 11 invoice.
#[derive(Debug, Clone)]
pub struct Bolt11Invoice {
    /// The invoice written back as text.
    pub text: String,
    /// The amount, where the invoice states one, in millisatoshis.
    pub amount_msat: Option<u64>,
    /// The creation time, in seconds since the Unix epoch.
    pub timestamp: u64,
    /// How many seconds after creation the invoice may be paid (3600 where
    /// the invoice states nothing).
    pub expiry_secs: u64,
}

/// What this library reads of a decoded invoice, as plain values: the
/// text, the amount in millisatoshis, the creation time and the expiry.
pub open spec fn invoice_view(inv: Bolt11Invoice) -> (Seq<char>, Option<u64>, u64, u64) {
    (inv.text@, inv.amount_msat, inv.timestamp, inv.expiry_secs)
}

/// What `lightning_invoice::Bolt11Invoice::from_str` makes of a text, read
/// as by `invoice_view`; `None` where it refuses the text.
pub uninterp spec fn bolt11_decoding(text: Seq<char>) -> Option<(Seq<char>, Option<u64>, u64, u64)>;

/// The creation time that `SignedRawBolt11Invoice::from_str` reads from a
/// text; `None` where it refuses the text.
pub uninterp spec fn bolt11_raw_timestamp(text: Seq<char>) -> Option<u64>;

/// Calls `lightning_invoice::Bolt11Invoice::from_str` and reads the decoded
/// invoice's `Display` text, `amount_milli_satoshis`, creation time in
/// seconds and `expiry_time` in seconds. The result is named
/// `bolt11_decoding` of the text. One more fact is claimed, from the crate's
/// source: `from_str` parses the text as a `SignedRawBolt11Invoice` first,
/// and the creation time of the decoded invoice is that raw invoice's
/// timestamp, so that parse succeeds too, with the same time.
#[verifier::external_body]
fn parse_bolt11(payment_request: &str) -> (res: Option<Bolt11Invoice>)
    ensures
        res is Some <==> bolt11_decoding(payment_request@) is Some,
        res matches Some(inv) ==> bolt11_decoding(payment_request@) == Some(invoice_view(inv)),
        res matches Some(inv) ==> bolt11_raw_timestamp(payment_request@) == Some(inv.timestamp),
{
    match <lightning_invoice::Bolt11Invoice as std::str::FromStr>::from_str(payment_request) {
        Ok(invoice) => Some(
            Bolt11Invoice {
                text: invoice.to_string(),
                amount_msat: invoice.amount_milli_satoshis(),
                timestamp: invoice.duration_since_epoch().as_secs(),
                expiry_secs: invoice.expiry_time().as_secs(),
            },
        ),
        Err(_) => None,
    }
}

/// Calls `SignedRawBolt11Invoice::from_str` and reads the raw invoice's
/// timestamp (`as_unix_timestamp`). The result is named
/// `bolt11_raw_timestamp` of the text.
#[verifier::external_body]
fn parse_raw_timestamp(payment_request: &str) -> (res: Option<u64>)
    ensures
        res == bolt11_raw_timestamp(payment_request@),
{
    match payment_request.parse::<lightning_invoice::SignedRawBolt11Invoice>() {
        Ok(parsed) => {
            let (raw, _, _) = parsed.into_parts();
            Some(raw.data.timestamp.as_unix_timestamp())
        },
        Err(_) => None,
    }
}

/// The latest second that a `chrono::DateTime<Utc>` can hold (December 31,
/// 262142 CE), in seconds since the Unix epoch.
pub const CHRONO_MAX_TIMESTAMP: i64 = 8210266876799;

/// Reads the clock with `chrono::Utc::now`: whole seconds since the Unix
/// epoch (`timestamp`) and the nanoseconds past them
/// (`timestamp_subsec_nanos`). On every target but `wasm32` with the
/// `wasmbind` feature, `Utc::now` takes `SystemTime::now()` since the epoch
/// (panicking on a clock set before 1970) and builds the `DateTime` from its
/// seconds and sub-second nanoseconds; so the seconds are not negative, the
/// nanoseconds are below one second, and the second lies in chrono's range
/// (up to `DateTime::MAX_UTC`). Nothing more is claimed of the reading.
#[verifier::external_body]
fn utc_now() -> (res: (i64, u32))
    ensures
        0 <= res.0 <= CHRONO_MAX_TIMESTAMP,
        res.1 < 1_000_000_000,
{
    let now = chrono::Utc::now();
    (now.timestamp(), now.timestamp_subsec_nanos())
}

/// Whether an invoice created at `timestamp` that may be paid for `expiry`
/// seconds has expired at the clock reading `now_secs` seconds and
/// `now_nanos` nanoseconds: the time elapsed since its creation exceeds its
/// expiry (the test of `Bolt11Invoice::is_expired`).
pub open spec fn expired_at(timestamp: int, expiry: int, now_secs: int, now_nanos: int) -> bool {
    ||| timestamp + expiry < now_secs
    ||| timestamp + expiry == now_secs && now_nanos > 0
}

/// The amount of a decoded invoice in whole satoshis (zero where it states
/// none).
pub open spec fn amount_sat(d: (Seq<char>, Option<u64>, u64, u64)) -> int {
    match d.1 {
        Some(msat) => msat as int / 1000,
        None => 0,
    }
}

/// The fee of a check, zero where none is given.
pub open spec fn fee_of(fee: Option<u64>) -> int {
    match fee {
        Some(f) => f as int,
        None => 0,
    }
}

/// The invoice states an amount that differs from the expected amount less
/// the fee.
pub open spec fn wrong_amount(
    amount: Option<u64>,
    fee: Option<u64>,
    d: (Seq<char>, Option<u64>, u64, u64),
) -> bool {
    match amount {
        Some(amt) => amount_sat(d) > 0 && amount_sat(d) != amt as int - fee_of(fee),
        None => false,
    }
}

/// The expected amount less the fee can be computed in `u64`, wherever it
/// is computed.
pub open spec fn amount_arith_ok(
    amount: Option<u64>,
    fee: Option<u64>,
    d: (Seq<char>, Option<u64>, u64, u64),
) -> bool {
    match amount {
        Some(amt) => amount_sat(d) > 0 ==> fee_of(fee) <= amt as int,
        None => true,
    }
}

/// The message with which `is_valid_invoice` refuses an invoice at a clock
/// reading, or `None` where it accepts it; every refusal has status 400.
pub open spec fn invoice_rejection(
    amount: Option<u64>,
    fee: Option<u64>,
    decoded: Option<(Seq<char>, Option<u64>, u64, u64)>,
    raw_timestamp: Option<u64>,
    now_secs: int,
    now_nanos: int,
    window: int,
) -> Option<Seq<char>> {
    match decoded {
        None => Some("Failed decode invoice"@),
        Some(d) => if wrong_amount(amount, fee, d) {
            Some("The amount on this invoice is wrong"@)
        } else if expired_at(d.2 as int, d.3 as int, now_secs, now_nanos) {
            Some("Invoice has expired"@)
        } else {
            match raw_timestamp {
                None => Some("Failed parse invoice"@),
                Some(ts) => if (d.3 + ts) < ((now_secs + window) as u64) {
                    Some("Minimal expiration time on invoice"@)
                } else {
                    None
                },
            }
        },
    }
}

/// The sums that `is_valid_invoice` computes fit their types at a clock
/// reading.
pub open spec fn invoice_check_arith_ok(
    amount: Option<u64>,
    fee: Option<u64>,
    decoded: Option<(Seq<char>, Option<u64>, u64, u64)>,
    raw_timestamp: Option<u64>,
    now_secs: int,
    now_nanos: int,
) -> bool {
    match decoded {
        None => true,
        Some(d) => {
            &&& amount_arith_ok(amount, fee, d)
            &&& (!wrong_amount(amount, fee, d) && !expired_at(d.2 as int, d.3 as int, now_secs, now_nanos)
                && raw_timestamp is Some) ==> d.3 + raw_timestamp->0 <= u64::MAX
        },
    }
}

/// The sums that `is_valid_invoice` computes fit their types at every clock
/// reading (a condition on the invoice alone).
pub open spec fn invoice_text_arith_ok(check: InvoiceCheck) -> bool {
    match bolt11_decoding(check.payment_request@) {
        None => true,
        Some(d) => {
            &&& amount_arith_ok(check.amount, check.fee, d)
            &&& !wrong_amount(check.amount, check.fee, d) ==> d.2 + d.3 <= u64::MAX
        },
    }
}

/// `res` is what a refusal with `rej` (or an acceptance of `decoded`) gives.
pub open spec fn check_result_is(
    res: Result<Bolt11Invoice, CustomError>,
    rej: Option<Seq<char>>,
    decoded: Option<(Seq<char>, Option<u64>, u64, u64)>,
) -> bool {
    match res {
        Ok(inv) => rej is None && decoded == Some(invoice_view(inv)),
        Err(e) => e.error_status_code == 400 && rej == Some(e.error_message@),
    }
}

fn error_400(msg: &str) -> (res: CustomError)
    ensures
        res.error_status_code == 400,
        res.error_message@ == msg@,
{
    CustomError::new(400, String::from_str(msg))
}

/// Decode a lightning invoice (bolt11); a text that does not decode is a 400
/// error.
pub fn decode_invoice(payment_request: &str) -> (res: Result<Bolt11Invoice, CustomError>)
    ensures
        res is Ok <==> bolt11_decoding(payment_request@) is Some,
        res matches Ok(inv) ==> bolt11_decoding(payment_request@) == Some(invoice_view(inv)),
        res matches Ok(inv) ==> bolt11_raw_timestamp(payment_request@) == Some(inv.timestamp),
        res matches Err(e) ==> e.error_status_code == 400 && e.error_message@
            == "Failed decode invoice"@,
{
    match parse_bolt11(payment_request) {
        Some(invoice) => Ok(invoice),
        None => Err(error_400("Failed decode invoice")),
    }
}

/// The decisions of `is_valid_invoice` on the outcomes of its calls: the
/// decoded invoice, the raw timestamp, the clock reading and the expiration
/// window in seconds.
pub fn check_decoded_invoice(
    invoice_data: &InvoiceCheck,
    decoded: Option<Bolt11Invoice>,
    raw_timestamp: Option<u64>,
    now_secs: i64,
    now_nanos: u32,
    expiration_window: i64,
) -> (res: Result<Bolt11Invoice, CustomError>)
    requires
        invoice_check_arith_ok(
            invoice_data.amount,
            invoice_data.fee,
            match decoded {
                Some(inv) => Some(invoice_view(inv)),
                None => None,
            },
            raw_timestamp,
            now_secs as int,
            now_nanos as int,
        ),
    ensures
        check_result_is(
            res,
            invoice_rejection(
                invoice_data.amount,
                invoice_data.fee,
                match decoded {
                    Some(inv) => Some(invoice_view(inv)),
                    None => None,
                },
                raw_timestamp,
                now_secs as int,
                now_nanos as int,
                expiration_window as int,
            ),
            match decoded {
                Some(inv) => Some(invoice_view(inv)),
                None => None,
            },
        ),
{
    match decoded {
        None => Err(error_400("Failed decode invoice")),
        Some(invoice) => {
            let amount_sat: u64 = match invoice.amount_msat {
                Some(m) => m,
                None => 0,
            } / 1000;
            let fee: u64 = match invoice_data.fee {
                Some(f) => f,
                None => 0,
            };
            if let Some(amt) = invoice_data.amount {
                if amount_sat > 0 && amount_sat != amt - fee {
                    return Err(error_400("The amount on this invoice is wrong"));
                }
            }
            let ends: u64 = invoice.timestamp;
            let expired: bool = if (ends as i128) + (invoice.expiry_secs as i128) < (now_secs as i128) {
                true
            } else {
                (ends as i128) + (invoice.expiry_secs as i128) == (now_secs as i128) && now_nanos > 0
            };
            if expired {
                return Err(error_400("Invoice has expired"));
            }
            match raw_timestamp {
                None => Err(error_400("Failed parse invoice")),
                Some(ts) => {
                    let latest: i128 = (now_secs as i128) + (expiration_window as i128);
                    let latest_date: u64 = #[verifier::truncate] (latest as u64);
                    let expires_at: u64 = invoice.expiry_secs + ts;
                    if expires_at < latest_date {
                        Err(error_400("Minimal expiration time on invoice"))
                    } else {
                        Ok(invoice)
                    }
                },
            }
        },
    }
}

/// `Some` of the decoded invoice, read as plain values.
pub open spec fn decoded_view(decoded: Option<Bolt11Invoice>) -> Option<
    (Seq<char>, Option<u64>, u64, u64),
> {
    match decoded {
        Some(inv) => Some(invoice_view(inv)),
        None => None,
    }
}

/// Verify if a buyer invoice is valid: it decodes; where an amount is
/// expected and the invoice states one, that amount in satoshis is the
/// expected amount less the fee; it has not expired at the clock reading;
/// and it stays payable at least `expiration_window` seconds from now. Each
/// refusal is a 400 error with its own message (see `invoice_rejection`).
/// The clock is read once; the result is that of `invoice_rejection` at that
/// reading. (The reading plus the window is taken as an integer sum; chrono's
/// own addition would panic only past the year 262142.)
pub fn is_valid_invoice(invoice_data: InvoiceCheck, expiration_window: i32) -> (res: Result<
    Bolt11Invoice,
    CustomError,
>)
    requires
        invoice_text_arith_ok(invoice_data),
    ensures
        exists|now_secs: i64, now_nanos: u32|
            0 <= now_secs && now_nanos < 1_000_000_000 && check_result_is(
                res,
                invoice_rejection(
                    invoice_data.amount,
                    invoice_data.fee,
                    bolt11_decoding(invoice_data.payment_request@),
                    bolt11_raw_timestamp(invoice_data.payment_request@),
                    now_secs as int,
                    now_nanos as int,
                    expiration_window as int,
                ),
                bolt11_decoding(invoice_data.payment_request@),
            ),
{
    let decoded = parse_bolt11(invoice_data.payment_request.as_str());
    let raw_timestamp = match decoded {
        Some(_) => parse_raw_timestamp(invoice_data.payment_request.as_str()),
        None => None,
    };
    let (now_secs, now_nanos) = utc_now();
    let window: i64 = expiration_window as i64;
    proof {
        assert(decoded_view(decoded) == bolt11_decoding(invoice_data.payment_request@));
    }
    let res = check_decoded_invoice(
        &invoice_data,
        decoded,
        raw_timestamp,
        now_secs,
        now_nanos,
        window,
    );
    proof {
        let text = invoice_data.payment_request@;
        let d = bolt11_decoding(text);
        assert(d is Some ==> raw_timestamp == bolt11_raw_timestamp(text));
        assert(invoice_rejection(
            invoice_data.amount,
            invoice_data.fee,
            d,
            raw_timestamp,
            now_secs as int,
            now_nanos as int,
            expiration_window as int,
        ) == invoice_rejection(
            invoice_data.amount,
            invoice_data.fee,
            d,
            bolt11_raw_timestamp(text),
            now_secs as int,
            now_nanos as int,
            expiration_window as int,
        ));
        assert(check_result_is(
            res,
            invoice_rejection(
                invoice_data.amount,
                invoice_data.fee,
                d,
                bolt11_raw_timestamp(text),
                now_secs as int,
                now_nanos as int,
                expiration_window as int,
            ),
            d,
        ));
    }
    res
}

/// `is_valid_invoice` for any check: `None` exactly where the invoice's sums
/// do not fit their types (the expected amount is below the fee, or the
/// expiry runs past `u64::MAX` seconds), where the check would panic.
pub fn checked_is_valid_invoice(invoice_data: InvoiceCheck, expiration_window: i32) -> (res: Option<
    Result<Bolt11Invoice, CustomError>,
>)
    ensures
        res is Some <==> invoice_text_arith_ok(invoice_data),
        res matches Some(r) ==> exists|now_secs: i64, now_nanos: u32|
            0 <= now_secs && now_nanos < 1_000_000_000 && check_result_is(
                r,
                invoice_rejection(
                    invoice_data.amount,
                    invoice_data.fee,
                    bolt11_decoding(invoice_data.payment_request@),
                    bolt11_raw_timestamp(invoice_data.payment_request@),
                    now_secs as int,
                    now_nanos as int,
                    expiration_window as int,
                ),
                bolt11_decoding(invoice_data.payment_request@),
            ),
{
    match parse_bolt11(invoice_data.payment_request.as_str()) {
        None => Some(is_valid_invoice(invoice_data, expiration_window)),
        Some(inv) => {
            let amount_sat: u64 = match inv.amount_msat {
                Some(m) => m,
                None => 0,
            } / 1000;
            let fee: u64 = match invoice_data.fee {
                Some(f) => f,
                None => 0,
            };
            let mut wrong = false;
            if let Some(amt) = invoice_data.amount {
                if amount_sat > 0 {
                    if fee > amt {
                        return None;
                    }
                    wrong = amount_sat != amt - fee;
                }
            }
            if !wrong && inv.timestamp > u64::MAX - inv.expiry_secs {
                return None;
            }
            Some(is_valid_invoice(invoice_data, expiration_window))
        },
    }
}

/// When an invoice expires: its expiry added to the raw creation time.
pub open spec fn expiry_moment(d: (Seq<char>, Option<u64>, u64, u64), raw_timestamp: u64) -> int {
    d.3 + raw_timestamp
}

/// What `is_expired_invoice` answers at a clock reading: the refusal
/// message (status 400), or whether the clock has reached the expiry.
pub open spec fn expired_outcome(
    decoded: Option<(Seq<char>, Option<u64>, u64, u64)>,
    raw_timestamp: Option<u64>,
    now_secs: int,
) -> Result<bool, Seq<char>> {
    match decoded {
        None => Err("Failed decode invoice"@),
        Some(d) => match raw_timestamp {
            None => Err("Failed parse invoice"@),
            Some(ts) => Ok((now_secs as u64) >= expiry_moment(d, ts)),
        },
    }
}

/// `res` is what `expired_outcome` describes.
pub open spec fn expired_result_is(res: Result<bool, CustomError>, outcome: Result<bool, Seq<char>>) -> bool {
    match res {
        Ok(b) => outcome == Ok::<bool, Seq<char>>(b),
        Err(e) => e.error_status_code == 400 && outcome == Err::<bool, Seq<char>>(e.error_message@),
    }
}

/// The decisions of `is_expired_invoice` on the outcomes of its calls.
pub fn check_invoice_expiry(
    decoded: Option<Bolt11Invoice>,
    raw_timestamp: Option<u64>,
    now_secs: i64,
) -> (res: Result<bool, CustomError>)
    requires
        decoded is Some && raw_timestamp is Some ==> decoded->0.expiry_secs + raw_timestamp->0
            <= u64::MAX,
    ensures
        expired_result_is(res, expired_outcome(decoded_view(decoded), raw_timestamp, now_secs as int)),
{
    match decoded {
        None => Err(error_400("Failed decode invoice")),
        Some(invoice) => match raw_timestamp {
            None => Err(error_400("Failed parse invoice")),
            Some(ts) => {
                let latest_date: u64 = #[verifier::truncate] (now_secs as u64);
                let expires_at: u64 = invoice.expiry_secs + ts;
                Ok(latest_date >= expires_at)
            },
        },
    }
}

/// The expiry of a decodable invoice fits in `u64`.
pub open spec fn expiry_fits(payment_request: Seq<char>) -> bool {
    bolt11_decoding(payment_request) matches Some(d) ==> d.2 + d.3 <= u64::MAX
}

/// Whether the invoice has expired: decode it (a 400 error where it does not
/// decode, or its raw form does not parse), then compare the clock, read
/// once, with its creation time plus its expiry; it has expired when the
/// clock has reached that moment.
pub fn is_expired_invoice(payment_request: &str) -> (res: Result<bool, CustomError>)
    requires
        expiry_fits(payment_request@),
    ensures
        exists|now_secs: i64|
            0 <= now_secs && expired_result_is(
                res,
                expired_outcome(
                    bolt11_decoding(payment_request@),
                    bolt11_raw_timestamp(payment_request@),
                    now_secs as int,
                ),
            ),
{
    let decoded = parse_bolt11(payment_request);
    let raw_timestamp = match decoded {
        Some(_) => parse_raw_timestamp(payment_request),
        None => None,
    };
    let (now_secs, _) = utc_now();
    proof {
        assert(decoded_view(decoded) == bolt11_decoding(payment_request@));
        if decoded is Some {
            assert(raw_timestamp == bolt11_raw_timestamp(payment_request@));
        }
    }
    let res = check_invoice_expiry(decoded, raw_timestamp, now_secs);
    proof {
        let text = payment_request@;
        assert(expired_outcome(decoded_view(decoded), raw_timestamp, now_secs as int)
            == expired_outcome(bolt11_decoding(text), bolt11_raw_timestamp(text), now_secs as int));
        assert(expired_result_is(
            res,
            expired_outcome(bolt11_decoding(text), bolt11_raw_timestamp(text), now_secs as int),
        ));
    }
    res
}

/// `is_expired_invoice` for any text: `None` exactly where the invoice's
/// expiry runs past `u64::MAX` seconds, where the check would panic.
pub fn checked_is_expired_invoice(payment_request: &str) -> (res: Option<Result<bool, CustomError>>)
    ensures
        res is Some <==> expiry_fits(payment_request@),
        res matches Some(r) ==> exists|now_secs: i64|
            0 <= now_secs && expired_result_is(
                r,
                expired_outcome(
                    bolt11_decoding(payment_request@),
                    bolt11_raw_timestamp(payment_request@),
                    now_secs as int,
                ),
            ),
{
    match parse_bolt11(payment_request) {
        Some(inv) => if inv.timestamp > u64::MAX - inv.expiry_secs {
            None
        } else {
            Some(is_expired_invoice(payment_request))
        },
        None => Some(is_expired_invoice(payment_request)),
    }
}

/// An invoice that the validity check accepts with an expiration window
/// (at a clock reading that, with the window, is a second count that `u64`
/// holds) has not expired, by the expiry test of the jobs, at any clock
/// reading before the window ends.
pub proof fn lemma_accepted_invoice_unexpired_within_window(
    amount: Option<u64>,
    fee: Option<u64>,
    decoded: Option<(Seq<char>, Option<u64>, u64, u64)>,
    raw_timestamp: Option<u64>,
    now_secs: int,
    now_nanos: int,
    window: int,
    later_secs: int,
)
    requires
        invoice_rejection(amount, fee, decoded, raw_timestamp, now_secs, now_nanos, window) is None,
        0 <= now_secs + window <= u64::MAX,
        0 <= later_secs < now_secs + window,
    ensures
        expired_outcome(decoded, raw_timestamp, later_secs) == Ok::<bool, Seq<char>>(false),
{
}

/// What an accepted invoice satisfies, at the clock reading `now_secs` and
/// with the expiration window `window` (where reading plus window is a
/// second count that `u64` holds): it decoded, its raw form parsed, it has
/// not expired at the reading, it stays payable until at least the reading
/// plus the window, and where an amount was expected and the invoice states
/// one, that amount in whole satoshis is the expected amount less the fee.
pub proof fn lemma_accepted_invoice_lasts_the_window(
    amount: Option<u64>,
    fee: Option<u64>,
    decoded: Option<(Seq<char>, Option<u64>, u64, u64)>,
    raw_timestamp: Option<u64>,
    now_secs: int,
    now_nanos: int,
    window: int,
)
    requires
        invoice_rejection(amount, fee, decoded, raw_timestamp, now_secs, now_nanos, window) is None,
        0 <= now_secs + window <= u64::MAX,
    ensures
        decoded is Some,
        raw_timestamp is Some,
        decoded matches Some(d) ==> {
            &&& raw_timestamp matches Some(ts) ==> d.3 + ts >= now_secs + window
            &&& d.2 + d.3 >= now_secs
            &&& amount matches Some(a) ==> match d.1 {
                Some(m) => m / 1000 > 0 ==> m / 1000 == a - match fee {
                    Some(f) => f as int,
                    None => 0,
                },
                None => true,
            }
        },
{
}

/// An invoice accepted with one expiration window is accepted, at the same
/// reading, with every shorter one.
pub proof fn lemma_shorter_window_accepts(
    amount: Option<u64>,
    fee: Option<u64>,
    decoded: Option<(Seq<char>, Option<u64>, u64, u64)>,
    raw_timestamp: Option<u64>,
    now_secs: int,
    now_nanos: int,
    short_window: int,
    long_window: int,
)
    requires
        invoice_rejection(amount, fee, decoded, raw_timestamp, now_secs, now_nanos, long_window) is None,
        0 <= now_secs + short_window <= now_secs + long_window <= u64::MAX,
    ensures
        invoice_rejection(amount, fee, decoded, raw_timestamp, now_secs, now_nanos, short_window) is None,
{
}

/// The expiry test of a readable invoice, at clock readings that `u64`
/// holds: it has not expired at any reading before its creation time plus
/// its expiry, it has expired at every reading from that moment on, and so
/// once expired it stays expired at every later reading.
pub proof fn lemma_expiry_by_the_clock(
    d: (Seq<char>, Option<u64>, u64, u64),
    raw_timestamp: u64,
    earlier: int,
    later: int,
)
    requires
        0 <= earlier <= later <= u64::MAX,
    ensures
        earlier < raw_timestamp + d.3 ==> expired_outcome(Some(d), Some(raw_timestamp), earlier)
            == Ok::<bool, Seq<char>>(false),
        later >= raw_timestamp + d.3 ==> expired_outcome(Some(d), Some(raw_timestamp), later)
            == Ok::<bool, Seq<char>>(true),
        expired_outcome(Some(d), Some(raw_timestamp), earlier) == Ok::<bool, Seq<char>>(true)
            ==> expired_outcome(Some(d), Some(raw_timestamp), later) == Ok::<bool, Seq<char>>(true),
{
}

} // verus!
