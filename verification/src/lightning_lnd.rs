//! What an LND node answers over gRPC to a hold invoice's creation and to a
//! lookup, read as this service reports invoices.
use vstd::prelude::*;
use crate::lightning::types::{state_code, InvoiceState};
use crate::lightning_c::{bytes_hex, NodeInvoiceResponse};
use crate::modelsext::InfoResponse;
use crate::text::{decimal_text, hex_digit, hex_lower, lemma_hex_lower_len, u64_to_decimal};

verus! {

/// The value of a hexadecimal digit of either case; -1 for any other
/// character.
pub open spec fn hex_value(c: char) -> int {
    if '0' <= c <= '9' {
        c as int - '0' as int
    } else if 'a' <= c <= 'f' {
        c as int - 'a' as int + 10
    } else if 'A' <= c <= 'F' {
        c as int - 'A' as int + 10
    } else {
        -1
    }
}

/// The bytes that a hexadecimal text stands for, two digits per byte with
/// the high half first; `None` for an odd number of characters or a
/// character that is no hexadecimal digit.
pub open spec fn hex_decoding(s: Seq<char>) -> Option<Seq<u8>> {
    if s.len() % 2 == 0 && forall|i: int| 0 <= i < s.len() ==> hex_value(#[trigger] s[i]) >= 0 {
        Some(Seq::new((s.len() / 2) as nat, |i: int| (16 * hex_value(s[2 * i]) + hex_value(s[2 * i + 1])) as u8))
    } else {
        None
    }
}

/// Calls `hex::decode`. Its source rejects a text of odd length
/// (`OddLength`) and any byte that is not `0-9`, `a-f` or `A-F`
/// (`InvalidHexCharacter`), and otherwise makes one byte of each pair of
/// digits, the first digit the high half: that is `hex_decoding`. (A text
/// with a character outside ASCII has a byte outside those ranges, so both
/// refuse it.)
#[verifier::external_body]
fn hex_decode(text: &str) -> (res: Option<Vec<u8>>)
    ensures
        match res {
            Some(bytes) => hex_decoding(text@) == Some(bytes@),
            None => hex_decoding(text@) is None,
        },
{
    match hex::decode(text) {
        Ok(bytes) => Some(bytes),
        Err(_) => None,
    }
}

/// The payment hash to look up, as bytes, from its hexadecimal text; `None`
/// where the text is not hexadecimal (where the connector panics).
pub fn payment_hash_bytes(hash: &str) -> (res: Option<Vec<u8>>)
    ensures
        match res {
            Some(bytes) => hex_decoding(hash@) == Some(bytes@),
            None => hex_decoding(hash@) is None,
        },
{
    hex_decode(hash)
}

/// The report of a created hold invoice: its text, the preimage and its hash
/// in hexadecimal, not paid, no warning.
pub fn lnd_hold_invoice_response(payment_request: String, preimage: &[u8], hash: &[u8]) -> (res:
    NodeInvoiceResponse)
    ensures
        res.payment_request matches Some(p) && p@ == payment_request@,
        res.preimage matches Some(p) && p@ == hex_lower(preimage@),
        res.hash matches Some(h) && h@ == hex_lower(hash@),
        !res.paid,
        res.expires_at is None,
        res.warnings matches Some(w) && w@ == Seq::<char>::empty(),
{
    NodeInvoiceResponse {
        payment_request: Some(payment_request),
        preimage: Some(bytes_hex(preimage)),
        hash: Some(bytes_hex(hash)),
        paid: false,
        expires_at: None,
        warnings: Some(String::new()),
    }
}

/// What the node answers to a lookup by payment hash.
#[derive(Debug, Clone)]
pub struct LndInvoice {
    pub payment_request: String,
    /// The invoice's state as the node numbers it (settled is 1).
    pub state: i32,
    pub r_preimage: Vec<u8>,
    pub r_hash: Vec<u8>,
    pub settle_date: i64,
}

/// The number by which the node marks a settled invoice.
pub open spec fn lnd_settled(state: i32) -> bool {
    state == 1
}

/// The report of a lookup: the invoice's text and no warning; where the node
/// has settled it, paid, with preimage and hash in hexadecimal and the
/// settle date as expiry; else not paid, empty preimage and hash, expiry 0.
pub fn lnd_lookup_response(invoice: LndInvoice) -> (res: NodeInvoiceResponse)
    ensures
        res.payment_request matches Some(p) && p@ == invoice.payment_request@,
        res.warnings matches Some(w) && w@ == Seq::<char>::empty(),
        res.paid == lnd_settled(invoice.state),
        res.paid == (invoice.state == 1),
        lnd_settled(invoice.state) ==> {
            &&& res.preimage matches Some(p) && p@ == hex_lower(invoice.r_preimage@)
            &&& res.hash matches Some(h) && h@ == hex_lower(invoice.r_hash@)
            &&& res.expires_at == Some(invoice.settle_date)
        },
        !lnd_settled(invoice.state) ==> {
            &&& res.preimage matches Some(p) && p@ == Seq::<char>::empty()
            &&& res.hash matches Some(h) && h@ == Seq::<char>::empty()
            &&& res.expires_at == Some(0i64)
        },
{
    let settled = invoice.state == 1;
    let mut preimage = String::new();
    let mut hash = String::new();
    let mut expires: i64 = 0;
    if settled {
        preimage = bytes_hex(invoice.r_preimage.as_slice());
        hash = bytes_hex(invoice.r_hash.as_slice());
        expires = invoice.settle_date;
    }
    NodeInvoiceResponse {
        payment_request: Some(invoice.payment_request),
        preimage: Some(preimage),
        hash: Some(hash),
        paid: settled,
        expires_at: Some(expires),
        warnings: Some(String::new()),
    }
}

/// What the node says of itself: its public key, its alias (always given),
/// and its block height in decimal.
pub fn lnd_info_response(identity_pubkey: String, alias: String, block_height: u32) -> (res: InfoResponse)
    ensures
        res.identity_pubkey@ == identity_pubkey@,
        res.alias matches Some(a) && a@ == alias@,
        res.block_height@ == decimal_text(block_height as nat),
{
    InfoResponse {
        identity_pubkey,
        alias: Some(alias),
        block_height: u64_to_decimal(block_height as u64),
    }
}

proof fn lemma_hex_lower_at(bytes: Seq<u8>, i: int)
    requires
        0 <= i < bytes.len(),
    ensures
        hex_lower(bytes)[2 * i] == hex_digit(bytes[i] as int / 16),
        hex_lower(bytes)[2 * i + 1] == hex_digit(bytes[i] as int % 16),
    decreases bytes.len(),
{
    lemma_hex_lower_len(bytes.drop_last());
    if i < bytes.len() - 1 {
        lemma_hex_lower_at(bytes.drop_last(), i);
        assert(bytes.drop_last()[i] == bytes[i]);
    }
}

proof fn lemma_hex_value_of_digit(n: int)
    requires
        0 <= n < 16,
    ensures
        hex_value(hex_digit(n)) == n,
{
    assert(hex_digit(n) as int == if n < 10 { 48 + n } else { 87 + n });
}

/// Hexadecimal text written by this library reads back as the same bytes: a
/// hash written with `bytes_hex` is found again by `payment_hash_bytes`.
pub proof fn lemma_hex_round_trip(bytes: Seq<u8>)
    ensures
        hex_decoding(hex_lower(bytes)) == Some(bytes),
{
    let h = hex_lower(bytes);
    lemma_hex_lower_len(bytes);
    assert forall|k: int| 0 <= k < h.len() implies hex_value(#[trigger] h[k]) >= 0 by {
        let i = k / 2;
        lemma_hex_lower_at(bytes, i);
        lemma_hex_value_of_digit(bytes[i] as int / 16);
        lemma_hex_value_of_digit(bytes[i] as int % 16);
        assert(k == 2 * i || k == 2 * i + 1);
    }
    let decoded = Seq::new(
        (h.len() / 2) as nat,
        |i: int| (16 * hex_value(h[2 * i]) + hex_value(h[2 * i + 1])) as u8,
    );
    assert forall|i: int| 0 <= i < bytes.len() implies decoded[i] == bytes[i] by {
        lemma_hex_lower_at(bytes, i);
        lemma_hex_value_of_digit(bytes[i] as int / 16);
        lemma_hex_value_of_digit(bytes[i] as int % 16);
        assert(16 * (bytes[i] as int / 16) + bytes[i] as int % 16 == bytes[i] as int);
    }
    assert(decoded =~= bytes);
}

/// A lookup reports an invoice paid exactly when the node says it is
/// settled (LND's number 1): the node numbers its states as this service
/// stores them, and an open, canceled or accepted invoice is reported unpaid.
pub proof fn lemma_lnd_paid_exactly_when_settled(state: InvoiceState, number: i32)
    ensures
        lnd_settled(number) <==> number == 1,
        lnd_settled(state_code(state) as i32) <==> state == InvoiceState::SETTLED,
{
}

} // verus!
