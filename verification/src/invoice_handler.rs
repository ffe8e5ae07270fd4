//! The bodies that the invoice endpoints answer.
use vstd::prelude::*;
use crate::error::CustomError;
use crate::models::{empty_invoice, Invoice};
use crate::modelsext::{
    empty_lookup, DataInvoice, DataLookupInvoice, InvoiceResponse, LookupInvoiceResponse, OrderResponse,
};

verus! {

/// `res` is the lookup answer built from the store's invoice `new` and the
/// node's `invoiceln`: the business, order, pre-sale, hash, currency and
/// total from the store, everything else from the node. Without `err` it is
/// `success` / 200 / `Invoice consulted`; with it, `failed` / 400 /
/// `Unable to locate invoice`.
pub open spec fn lookup_data_is(
    res: DataLookupInvoice,
    invoiceln: LookupInvoiceResponse,
    new: Invoice,
    err: bool,
) -> bool {
    &&& res.data.business_id == new.business_id
    &&& res.data.woocomerce_id == new.order_id
    &&& res.data.tpay_preorder_id == new.presell_id
    &&& res.data.hash == new.payment_hash
    &&& res.data.currency == new.currency
    &&& res.data.totalAmount == new.total_amount
    &&& res.data.memo == invoiceln.memo
    &&& res.data.r_preimage == invoiceln.r_preimage
    &&& res.data.r_hash == invoiceln.r_hash
    &&& res.data.value == invoiceln.value
    &&& res.data.value_msat == invoiceln.value_msat
    &&& res.data.settled == invoiceln.settled
    &&& res.data.settle_date == invoiceln.settle_date
    &&& res.data.creation_date == invoiceln.creation_date
    &&& res.data.payment_request == invoiceln.payment_request
    &&& res.data.expiry == invoiceln.expiry
    &&& res.data.cltv_expiry == invoiceln.cltv_expiry
    &&& res.data.private == invoiceln.private
    &&& res.data.add_index == invoiceln.add_index
    &&& res.data.settle_index == invoiceln.settle_index
    &&& res.data.amt_paid == invoiceln.amt_paid
    &&& res.data.amt_paid_sat == invoiceln.amt_paid_sat
    &&& res.data.amt_paid_msat == invoiceln.amt_paid_msat
    &&& res.data.paid == invoiceln.paid
    &&& res.data.state == invoiceln.state
    &&& res.data.result@ == if !err { "success"@ } else { "failed"@ }
    &&& res.data.code == if !err { 200i32 } else { 400i32 }
    &&& res.data.message@ == if !err { "Invoice consulted"@ } else { "Unable to locate invoice"@ }
}

/// Combines what the store holds of an invoice (`new`) with what the node
/// says of it (`invoiceln`): the business, order, pre-sale, hash, currency
/// and total come from the store, everything else from the node. Without
/// `err` the answer is `success` / 200 / `Invoice consulted`; with it,
/// `failed` / 400 / `Unable to locate invoice`.
pub fn get_data_invoice(invoiceln: LookupInvoiceResponse, new: Invoice, err: bool) -> (res:
    DataLookupInvoice)
    ensures
        lookup_data_is(res, invoiceln, new, err),
{
    let data_invoice = LookupInvoiceResponse {
        business_id: new.business_id,
        woocomerce_id: new.order_id,
        tpay_preorder_id: new.presell_id,
        hash: new.payment_hash,
        currency: new.currency,
        totalAmount: new.total_amount,
        memo: invoiceln.memo,
        r_preimage: invoiceln.r_preimage,
        r_hash: invoiceln.r_hash,
        value: invoiceln.value,
        value_msat: invoiceln.value_msat,
        settled: invoiceln.settled,
        settle_date: invoiceln.settle_date,
        creation_date: invoiceln.creation_date,
        payment_request: invoiceln.payment_request,
        expiry: invoiceln.expiry,
        cltv_expiry: invoiceln.cltv_expiry,
        private: invoiceln.private,
        add_index: invoiceln.add_index,
        settle_index: invoiceln.settle_index,
        amt_paid: invoiceln.amt_paid,
        amt_paid_sat: invoiceln.amt_paid_sat,
        amt_paid_msat: invoiceln.amt_paid_msat,
        paid: invoiceln.paid,
        state: invoiceln.state,
        result: if !err {
            String::from_str("success")
        } else {
            String::from_str("failed")
        },
        code: if !err {
            200
        } else {
            400
        },
        message: if !err {
            String::from_str("Invoice consulted")
        } else {
            String::from_str("Unable to locate invoice")
        },
    };
    DataLookupInvoice { data: data_invoice }
}

/// `res` is the stored invoice `new` as an order, every field as stored but
/// the status, which is `status` (the amount in satoshis widened to `i64`).
/// Without `err` it is `success` / 200 / `Order consulted`; with it,
/// `failed` / 400 / `Unable to locate order`.
pub open spec fn order_data_is(res: OrderResponse, new: Invoice, err: bool, status: i32) -> bool {
    &&& res.id == new.id
    &&& res.business_id == new.business_id
    &&& res.order_id == new.order_id
    &&& res.presell_id == new.presell_id
    &&& res.bolt11 == new.bolt11
    &&& res.payment_hash == new.payment_hash
    &&& res.payment_secret == new.payment_secret
    &&& res.description == new.description
    &&& res.customer_name == new.customer_name
    &&& res.customer_email == new.customer_email
    &&& res.currency == new.currency
    &&& res.sub_total == new.sub_total
    &&& res.taxes == new.taxes
    &&& res.shipping == new.shipping
    &&& res.total_amount == new.total_amount
    &&& res.amount_sat == new.amount_sat as i64
    &&& res.status == status
    &&& res.invoice_date == new.invoice_date
    &&& res.created_at == new.created_at
    &&& res.updated_at == new.updated_at
    &&& res.distributed == new.distributed
    &&& res.apply_split == new.apply_split
    &&& res.result@ == if !err { "success"@ } else { "failed"@ }
    &&& res.code == if !err { 200i32 } else { 400i32 }
    &&& res.message@ == if !err { "Order consulted"@ } else { "Unable to locate order"@ }
}

/// The stored invoice as an order: every field as stored (the amount in
/// satoshis widened to `i64`). Without `err` the answer is `success` / 200 /
/// `Order consulted`; with it, `failed` / 400 / `Unable to locate order`.
pub fn get_data_order(new: Invoice, err: bool) -> (res: OrderResponse)
    ensures
        order_data_is(res, new, err, new.status),
{
    OrderResponse {
        id: new.id,
        business_id: new.business_id,
        order_id: new.order_id,
        presell_id: new.presell_id,
        bolt11: new.bolt11,
        payment_hash: new.payment_hash,
        payment_secret: new.payment_secret,
        description: new.description,
        customer_name: new.customer_name,
        customer_email: new.customer_email,
        currency: new.currency,
        sub_total: new.sub_total,
        taxes: new.taxes,
        shipping: new.shipping,
        total_amount: new.total_amount,
        amount_sat: new.amount_sat as i64,
        status: new.status,
        invoice_date: new.invoice_date,
        created_at: new.created_at,
        updated_at: new.updated_at,
        distributed: new.distributed,
        apply_split: new.apply_split,
        result: if !err {
            String::from_str("success")
        } else {
            String::from_str("failed")
        },
        code: if !err {
            200
        } else {
            400
        },
        message: if !err {
            String::from_str("Order consulted")
        } else {
            String::from_str("Unable to locate order")
        },
    }
}

/// An order after the node was asked about its payment: marked settled
/// (status 1) where it was paid, as it was otherwise.
pub fn mark_order_paid(order: OrderResponse, paid: bool) -> (res: OrderResponse)
    ensures
        res == (OrderResponse {
            status: if paid { 1i32 } else { order.status },
            ..order
        }),
{
    let mut order = order;
    if paid {
        order.status = 1;
    }
    order
}

/// `res` answers a created invoice: the business, order and pre-sale of the
/// stored invoice `new`; the request, hash and status the node gave; an
/// empty preimage; unpaid; `success` / 200 / `Invoice created`.
pub open spec fn created_data_is(res: DataInvoice, new: Invoice, invoiceln: InvoiceResponse) -> bool {
    &&& res.data.business_id == new.business_id
    &&& res.data.woocomerce_id == new.order_id
    &&& res.data.tpay_preorder_id == new.presell_id
    &&& res.data.invoice_request == invoiceln.invoice_request
    &&& res.data.preimage matches Some(p) && p@.len() == 0
    &&& res.data.hash == invoiceln.hash
    &&& res.data.status == invoiceln.status
    &&& !res.data.paid
    &&& res.data.result@ == "success"@
    &&& res.data.code == 200
    &&& res.data.message@ == "Invoice created"@
}

/// `res` answers an invoice the node could not create: the pre-sale
/// identifier `preorder_id`, every other number zero and every text empty,
/// unpaid; `failed` / 400 / `Unable to create invoice`.
pub open spec fn failed_data_is(res: DataInvoice, preorder_id: u128) -> bool {
    &&& res.data.business_id == 0 && res.data.woocomerce_id == 0
    &&& res.data.tpay_preorder_id == preorder_id
    &&& res.data.invoice_request@.len() == 0
    &&& res.data.preimage matches Some(p) && p@.len() == 0
    &&& res.data.hash matches Some(h) && h@.len() == 0
    &&& res.data.status == 0 && !res.data.paid
    &&& res.data.result@ == "failed"@
    &&& res.data.code == 400
    &&& res.data.message@ == "Unable to create invoice"@
}

/// The answer to a created invoice: the business, order and pre-sale of the
/// stored invoice (`new`); the request, hash and status the node gave
/// (`invoiceln`); an empty preimage; unpaid; `success` / 200 / `Invoice
/// created`.
pub fn created_invoice_data(new: &Invoice, invoiceln: InvoiceResponse) -> (res: DataInvoice)
    ensures
        created_data_is(res, *new, invoiceln),
{
    DataInvoice {
        data: InvoiceResponse {
            business_id: new.business_id,
            woocomerce_id: new.order_id,
            tpay_preorder_id: new.presell_id,
            invoice_request: invoiceln.invoice_request,
            preimage: Some(String::new()),
            hash: invoiceln.hash,
            status: invoiceln.status,
            paid: false,
            result: String::from_str("success"),
            code: 200,
            message: String::from_str("Invoice created"),
        },
    }
}

/// The answer where the node could not create the invoice: a fresh pre-sale
/// identifier, every other number zero and every text empty, unpaid;
/// `failed` / 400 / `Unable to create invoice`.
pub fn failed_invoice_data(preorder_id: u128) -> (res: DataInvoice)
    ensures
        failed_data_is(res, preorder_id),
{
    DataInvoice {
        data: InvoiceResponse {
            business_id: 0,
            woocomerce_id: 0,
            tpay_preorder_id: preorder_id,
            invoice_request: String::new(),
            preimage: Some(String::new()),
            hash: Some(String::new()),
            status: 0,
            paid: false,
            result: String::from_str("failed"),
            code: 400,
            message: String::from_str("Unable to create invoice"),
        },
    }
}

/// What came of a request to create an invoice.
pub enum CreateOutcome {
    /// The node did not create the invoice; the answer carries this fresh
    /// pre-sale identifier.
    NodeFailed { preorder_id: u128 },
    /// The node created the invoice, but storing it failed with this error.
    StoreFailed(CustomError),
    /// The node created the invoice `node` and the store holds it as `stored`.
    Stored { stored: Invoice, node: InvoiceResponse },
}

/// The answer to a request to create an invoice: where the node failed, the
/// `failed` body (status 200); where the store failed, an error with status
/// 994 and the store's message; else the `success` body for the stored
/// invoice.
pub fn create_invoice_answer(outcome: CreateOutcome) -> (res: Result<DataInvoice, CustomError>)
    ensures
        match outcome {
            CreateOutcome::NodeFailed { preorder_id } => res matches Ok(d) && failed_data_is(
                d,
                preorder_id,
            ),
            CreateOutcome::StoreFailed(e) => res matches Err(x) && x.error_status_code == 994
                && x.error_message@ == e.error_message@,
            CreateOutcome::Stored { stored, node } => res matches Ok(d) && created_data_is(
                d,
                stored,
                node,
            ),
        },
{
    match outcome {
        CreateOutcome::NodeFailed { preorder_id } => Ok(failed_invoice_data(preorder_id)),
        CreateOutcome::StoreFailed(e) => Err(CustomError::new(994, e.to_string())),
        CreateOutcome::Stored { stored, node } => Ok(created_invoice_data(&stored, node)),
    }
}

/// The answer to a lookup by hash: where the node did not answer (`None`),
/// the `failed` body built from empty values; else the node's answer with
/// the stored invoice, or with an empty one where the store has none.
pub fn lookup_invoice_answer(node: Option<LookupInvoiceResponse>, stored: Option<Invoice>) -> (res:
    DataLookupInvoice)
    ensures
        node is None ==> exists|n: LookupInvoiceResponse, i: Invoice|
            #![trigger lookup_data_is(res, n, i, true)]
            empty_lookup(n) && empty_invoice(i) && lookup_data_is(res, n, i, true),
        node matches Some(n) ==> match stored {
            Some(i) => lookup_data_is(res, n, i, false),
            None => exists|i: Invoice|
                #![trigger lookup_data_is(res, n, i, false)]
                empty_invoice(i) && lookup_data_is(res, n, i, false),
        },
{
    match node {
        None => get_data_invoice(LookupInvoiceResponse::default(), Invoice::default(), true),
        Some(n) => match stored {
            Some(i) => get_data_invoice(n, i, false),
            None => get_data_invoice(n, Invoice::default(), false),
        },
    }
}

/// The answer to a lookup by pre-sale: where the store has no such invoice,
/// the `failed` body built from an empty invoice; else the stored invoice as
/// an order, marked settled (status 1) where the node reports it paid
/// (`paid` is `None` where the node could not be asked).
pub fn order_answer(stored: Option<Invoice>, paid: Option<bool>) -> (res: OrderResponse)
    ensures
        stored is None ==> exists|i: Invoice|
            #![trigger order_data_is(res, i, true, 0)]
            empty_invoice(i) && order_data_is(res, i, true, 0),
        stored matches Some(new) ==> order_data_is(
            res,
            new,
            false,
            if paid == Some(true) { 1i32 } else { new.status },
        ),
{
    match stored {
        None => get_data_order(Invoice::default(), true),
        Some(new) => {
            let order = get_data_order(new, false);
            match paid {
                Some(p) => mark_order_paid(order, p),
                None => order,
            }
        },
    }
}

} // verus!
