use vstd::prelude::*;
use crate::error::CustomError;
use crate::models::{NewInvoice, NewPaymentSplit};
use crate::modelsext::{InvoiceData, InvoiceResponse, PreorderSplit};

verus! {

/// The split row that a collaborator's share becomes: the invoice, the
/// collaborator's type, address and amount; no fee, status or invoice yet,
/// no attempt, not reported.
pub open spec fn split_row_of(invoice_id: i32, det: PreorderSplit, row: NewPaymentSplit) -> bool {
    &&& row.invoice_id == invoice_id
    &&& row.tipo_asociado == det.tipoAsociado
    &&& row.lnaddress == det.ldAddress
    &&& row.amount_sat == det.amountSat
    &&& row.fee_sat == 0 && row.status == 0 && row.attempts == 0 && !row.reported
    &&& row.bolt11 is None && row.payment_hash is None && row.payment_secret is None
}

/// The split rows of an invoice: one per collaborator's share, in order.
pub fn create_payment_split(invoice_id: i32, listdets: Vec<PreorderSplit>) -> (res: Result<
    Vec<NewPaymentSplit>,
    CustomError,
>)
    ensures
        res matches Ok(rows) && rows@.len() == listdets@.len() && forall|i: int|
            0 <= i < rows@.len() ==> split_row_of(invoice_id, listdets@[i], #[trigger] rows@[i]),
{
    let mut split_listdets: Vec<NewPaymentSplit> = Vec::new();
    let mut listdets = listdets;
    let ghost dets = listdets@;
    let n = listdets.len();
    let mut k: usize = 0;
    while k < n
        invariant
            k <= n,
            n == dets.len(),
            listdets@ == dets.skip(k as int),
            split_listdets@.len() == k,
            forall|i: int| 0 <= i < k ==> split_row_of(invoice_id, dets[i], #[trigger] split_listdets@[i]),
        decreases n - k,
    {
        let det = listdets.remove(0);
        proof {
            assert(dets.skip(k as int).drop_first() == dets.skip(k + 1));
        }
        let pay = NewPaymentSplit {
            invoice_id: invoice_id,
            tipo_asociado: det.tipoAsociado,
            lnaddress: det.ldAddress,
            amount_sat: det.amountSat,
            fee_sat: 0,
            status: 0,
            bolt11: None,
            payment_hash: None,
            payment_secret: None,
            attempts: 0,
            reported: false,
        };
        split_listdets.push(pay);
        k = k + 1;
    }
    Ok(split_listdets)
}

/// The row that a new invoice becomes: the order's data (`mydata`) with the
/// request, hash, preimage and status that the node gave (`myinvoice`); its
/// amount in satoshis as an `i32` (the low 32 bits, as `as` keeps them);
/// created at `created_at`, updated at `updated_at`; not distributed.
pub fn new_invoice_record(mydata: InvoiceData, myinvoice: InvoiceResponse, created_at: i64, updated_at: i64) -> (res: NewInvoice)
    ensures
        res.business_id == mydata.business_id,
        res.order_id == mydata.order_id,
        res.presell_id == mydata.presell_id,
        res.bolt11 == myinvoice.invoice_request,
        res.payment_hash == myinvoice.hash,
        res.payment_secret == myinvoice.preimage,
        res.description == mydata.description,
        res.customer_name == mydata.customer_name,
        res.customer_email == mydata.customer_email,
        res.currency == mydata.currency,
        res.sub_total == mydata.sub_total,
        res.taxes == mydata.taxes,
        res.shipping == mydata.shipping,
        res.total_amount == mydata.total_amount,
        res.amount_sat == mydata.amount_sat as i32,
        res.status == myinvoice.status,
        res.invoice_date == mydata.invoice_date,
        res.created_at == created_at,
        res.updated_at == Some(updated_at),
        !res.distributed,
        res.apply_split == mydata.apply_split,
{
    NewInvoice {
        business_id: mydata.business_id,
        order_id: mydata.order_id,
        presell_id: mydata.presell_id,
        bolt11: myinvoice.invoice_request,
        payment_hash: myinvoice.hash,
        payment_secret: myinvoice.preimage,
        description: mydata.description,
        customer_name: mydata.customer_name,
        customer_email: mydata.customer_email,
        currency: mydata.currency,
        sub_total: mydata.sub_total,
        taxes: mydata.taxes,
        shipping: mydata.shipping,
        total_amount: mydata.total_amount,
        amount_sat: #[verifier::truncate] (mydata.amount_sat as i32),
        status: myinvoice.status,
        invoice_date: mydata.invoice_date,
        created_at,
        updated_at: Some(updated_at),
        distributed: false,
        apply_split: mydata.apply_split,
    }
}

} // verus!
