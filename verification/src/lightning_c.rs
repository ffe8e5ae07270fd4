//! What a Core Lightning node answers to an invoice's creation and to a
//! lookup, read as this service reports invoices.
use vstd::prelude::*;
use crate::modelsext::InfoResponse;
use crate::text::{decimal_text, hex_lower, push_hex, u64_to_decimal};

verus! {

/// An invoice as the Core Lightning and LND gRPC connectors report it.
#[derive(Debug, Clone)]
pub struct NodeInvoiceResponse {
    pub payment_request: Option<String>,
    pub preimage: Option<String>,
    pub hash: Option<String>,
    pub paid: bool,
    pub expires_at: Option<i64>,
    pub warnings: Option<String>,
}

/// What the node answers to the creation of an invoice.
#[derive(Debug, Clone)]
pub struct ClnCreatedInvoice {
    pub bolt11: String,
    /// The payment hash, as text.
    pub payment_hash: String,
    /// The bytes of the payment secret.
    pub payment_secret: Vec<u8>,
    /// When the invoice expires, in seconds since the Unix epoch.
    pub expires_at: u64,
    pub warning_capacity: Option<String>,
    pub warning_offline: Option<String>,
    pub warning_deadends: Option<String>,
    pub warning_private_unused: Option<String>,
    pub warning_mpp: Option<String>,
}

/// The first invoice that the node lists for a payment hash.
#[derive(Debug, Clone)]
pub struct ClnListedInvoice {
    pub bolt11: Option<String>,
    /// Whether the node lists the invoice as paid.
    pub paid: bool,
    /// The bytes of the preimage, where the node gives them.
    pub payment_preimage: Option<Vec<u8>>,
    /// The payment hash, as text.
    pub payment_hash: String,
    /// When the invoice expires, in seconds since the Unix epoch.
    pub expires_at: u64,
}

/// One warning as it is added to the report: ` / ` and its text.
pub open spec fn warning_part(w: Option<String>) -> Seq<char> {
    match w {
        Some(t) => " / "@ + t@,
        None => Seq::empty(),
    }
}

/// The warnings of a created invoice, in the node's order: capacity,
/// offline, dead ends, unused private channels, multi-part payment.
pub open spec fn cln_warnings(created: ClnCreatedInvoice) -> Seq<char> {
    warning_part(created.warning_capacity) + warning_part(created.warning_offline) + warning_part(
        created.warning_deadends,
    ) + warning_part(created.warning_private_unused) + warning_part(created.warning_mpp)
}

fn push_warning(out: &mut String, w: &Option<String>)
    ensures
        final(out)@ == old(out)@ + warning_part(*w),
{
    match w {
        Some(t) => {
            out.append(" / ");
            out.append(t.as_str());
        },
        None => {},
    }
}

/// The lower-case hexadecimal form of some bytes.
pub fn bytes_hex(bytes: &[u8]) -> (res: String)
    ensures
        res@ == hex_lower(bytes@),
{
    let mut out = String::new();
    push_hex(&mut out, bytes);
    out
}

/// The report of a created invoice: its text, the payment secret in
/// hexadecimal as preimage, the hash, not paid, its expiry and every warning
/// the node gave, each after ` / `. `None` where the expiry does not fit in
/// `i64` (where the connector panics).
pub fn cln_created_invoice_response(created: ClnCreatedInvoice) -> (res: Option<NodeInvoiceResponse>)
    ensures
        res is Some <==> created.expires_at <= i64::MAX,
        res matches Some(r) ==> {
            &&& r.payment_request matches Some(p) && p@ == created.bolt11@
            &&& r.preimage matches Some(p) && p@ == hex_lower(created.payment_secret@)
            &&& r.hash matches Some(h) && h@ == created.payment_hash@
            &&& !r.paid
            &&& r.expires_at == Some(created.expires_at as i64)
            &&& r.warnings matches Some(w) && w@ == cln_warnings(created)
        },
{
    if created.expires_at > 0x7fff_ffff_ffff_ffff {
        return None;
    }
    let mut warnings = String::new();
    push_warning(&mut warnings, &created.warning_capacity);
    push_warning(&mut warnings, &created.warning_offline);
    push_warning(&mut warnings, &created.warning_deadends);
    push_warning(&mut warnings, &created.warning_private_unused);
    push_warning(&mut warnings, &created.warning_mpp);
    proof {
        assert(warnings@ == cln_warnings(created));
    }
    let preimage = bytes_hex(created.payment_secret.as_slice());
    Some(
        NodeInvoiceResponse {
            payment_request: Some(created.bolt11),
            preimage: Some(preimage),
            hash: Some(created.payment_hash),
            paid: false,
            expires_at: Some(created.expires_at as i64),
            warnings: Some(warnings),
        },
    )
}

/// The report of a lookup by payment hash. With no invoice listed: only the
/// warning `Invoice not found`. Else its text, no warning, and where the node
/// lists it as paid, `paid` with the preimage in hexadecimal, the hash and
/// the expiry; where not, empty preimage and hash and expiry 0. `None` where
/// a paid invoice comes without a preimage or with an expiry beyond `i64`
/// (where the connector panics).
pub fn cln_lookup_response(first: Option<ClnListedInvoice>) -> (res: Option<NodeInvoiceResponse>)
    ensures
        res is Some <==> (first matches Some(inv) ==> (inv.paid ==> inv.payment_preimage is Some
            && inv.expires_at <= i64::MAX)),
        res matches Some(r) ==> match first {
            None => {
                &&& r.payment_request is None
                &&& r.preimage is None
                &&& r.hash is None
                &&& !r.paid
                &&& r.expires_at is None
                &&& r.warnings matches Some(w) && w@ == "Invoice not found"@
            },
            Some(inv) => {
                &&& r.payment_request == inv.bolt11
                &&& r.warnings matches Some(w) && w@ == Seq::<char>::empty()
                &&& r.paid == inv.paid
                &&& if inv.paid {
                    &&& r.preimage matches Some(p) && p@ == hex_lower(inv.payment_preimage->0@)
                    &&& r.hash matches Some(h) && h@ == inv.payment_hash@
                    &&& r.expires_at == Some(inv.expires_at as i64)
                } else {
                    &&& r.preimage matches Some(p) && p@ == Seq::<char>::empty()
                    &&& r.hash matches Some(h) && h@ == Seq::<char>::empty()
                    &&& r.expires_at == Some(0i64)
                }
            },
        },
{
    match first {
        None => Some(
            NodeInvoiceResponse {
                payment_request: None,
                preimage: None,
                hash: None,
                paid: false,
                expires_at: None,
                warnings: Some(String::from_str("Invoice not found")),
            },
        ),
        Some(inv) => {
            let mut preimage = String::new();
            let mut hash = String::new();
            let mut expires: i64 = 0;
            if inv.paid {
                match &inv.payment_preimage {
                    None => {
                        return None;
                    },
                    Some(bytes) => {
                        preimage = bytes_hex(bytes.as_slice());
                    },
                }
                if inv.expires_at > 0x7fff_ffff_ffff_ffff {
                    return None;
                }
                hash = inv.payment_hash;
                expires = inv.expires_at as i64;
            }
            Some(
                NodeInvoiceResponse {
                    payment_request: inv.bolt11,
                    preimage: Some(preimage),
                    hash: Some(hash),
                    paid: inv.paid,
                    expires_at: Some(expires),
                    warnings: Some(String::new()),
                },
            )
        },
    }
}

/// What the node says of itself: its public key as text, its alias, and its
/// block height in decimal.
pub fn cln_info_response(id: String, alias: Option<String>, blockheight: u32) -> (res: InfoResponse)
    ensures
        res.identity_pubkey@ == id@,
        res.alias == alias,
        res.block_height@ == decimal_text(blockheight as nat),
{
    InfoResponse { identity_pubkey: id, alias, block_height: u64_to_decimal(blockheight as u64) }
}

} // verus!
