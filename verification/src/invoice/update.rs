use vstd::prelude::*;
use crate::functions::{base64_decoding, try_base64_to_hex};
use crate::models::Invoice;
use crate::modelsext::LookupInvoiceResponse;
use crate::text::hex_lower;

verus! {

/// An invoice about to be written back: the same invoice, updated at `now`.
pub fn touch_invoice(myinvoice: Invoice, now: i64) -> (res: Invoice)
    ensures
        res == (Invoice { updated_at: Some(now), ..myinvoice }),
{
    let mut myinvoice = myinvoice;
    myinvoice.updated_at = Some(now);
    myinvoice
}

/// What the node's answer about an invoice changes in the store.
pub struct StatusUpdate {
    /// The invoices to change: those with this payment hash (hexadecimal).
    pub payment_hash: String,
    /// The preimage to store, where the invoice is paid.
    pub payment_secret: Option<String>,
    /// The state to store.
    pub status: i32,
    /// Whether the invoice is paid.
    pub paid: bool,
}

/// The change that `update_status_in_invoice` makes for the node's answer:
/// the invoices whose hash is the answer's hash in hexadecimal get the
/// answer's state, and, where it is paid, its preimage. `None` exactly where
/// the answer's hash is not base64, where the update would panic.
pub fn status_update(re: &LookupInvoiceResponse) -> (res: Option<StatusUpdate>)
    ensures
        res is Some <==> base64_decoding(re.r_hash@) is Some,
        res matches Some(u) ==> {
            &&& u.payment_hash@ == hex_lower(base64_decoding(re.r_hash@)->0)
            &&& u.status == re.state
            &&& u.paid == re.paid
            &&& (re.paid ==> u.payment_secret == Some(re.r_preimage))
            &&& (!re.paid ==> u.payment_secret is None)
        },
{
    match try_base64_to_hex(re.r_hash.clone()) {
        None => None,
        Some(hash) => Some(
            StatusUpdate {
                payment_hash: hash,
                payment_secret: if re.paid {
                    Some(re.r_preimage.clone())
                } else {
                    None
                },
                status: re.state,
                paid: re.paid,
            },
        ),
    }
}

} // verus!
