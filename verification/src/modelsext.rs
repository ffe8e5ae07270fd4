#![allow(non_snake_case)]
//! Request and response bodies of the API. Identifiers of pre-sales are held
//! as the 128-bit value of their UUID, amounts of money as their decimal
//! text, and dates as microseconds since the Unix epoch (UTC).
use vstd::prelude::*;

verus! {

/// The claims of a bearer token.
#[derive(Debug, Clone)]
pub struct Claims {
    pub iss: String,
    pub sub: String,
    pub aud: String,
    pub exp: usize,
    pub iat: usize,
}

/// Define a structure to represent data of the invoice
#[derive(Debug, Clone)]
pub struct InvoiceData {
    /// Represents the identifier of the business
    pub business_id: i32,
    /// Represents the identifier of the pre sale
    pub presell_id: u128,
    /// Represents the identifier of the order
    pub order_id: i32,
    /// Represents the date of the invoice
    pub invoice_date: i64,
    /// Represents the description of the invoice
    pub description: String,
    /// Represents the name of the customer
    pub customer_name: String,
    /// Represents the email of the email
    pub customer_email: String,
    /// Represents the currency of the transaction
    pub currency: String,
    /// Represents the subtotal of the order
    pub sub_total: String,
    /// Represents the taxes of the order
    pub taxes: String,
    /// Represents the shipping of the order
    pub shipping: String,
    /// Represents the total amount of the order
    pub total_amount: String,
    /// Represents the total sats of the order
    pub amount_sat: u64,
    /// Represents whether split payment applies
    pub apply_split: bool,
    /// Represents the details of products of the order
    pub paymentSplit: Vec<PreorderSplit>,
}

/// Define a structure to represent data of collaborators payments
#[derive(Debug, Default, Clone)]
pub struct PreorderSplit {
    /// Represents the identifier of the pre sale
    pub invoiceUid: u128,
    /// Represents the type of collaborator
    pub tipoAsociado: String,
    /// Represents the address LNURL of the collaborator
    pub ldAddress: String,
    /// Represents the amount (sats) to pay
    pub amountSat: i32,
    /// Represents the status of the payment
    pub status: i32,
    /// Represents the address of the invoice
    pub invoiceAddress: String,
    /// Represents the number of payment sending attempts
    pub attempts: i32,
}

/// Define a structure to validate invoice
#[derive(Debug, Default, Clone)]
pub struct InvoiceCheck {
    /// Represents the request of the invoice
    pub payment_request: String,
    /// Represents the total amount of the invoice
    pub amount: Option<u64>,
    /// Represents the fee of the invoice
    pub fee: Option<u64>,
}

/// Define a structure to filter the invoice by hash
#[derive(Debug, Default, Clone)]
pub struct InvoiceFilters {
    /// Represents the hash of the invoice
    pub hash: String,
}

/// Define a structure to represent the filter of the order
#[derive(Debug, Default, Clone)]
pub struct OrderFilters {
    /// Represents the identifier of the order
    pub uuid: u128,
}

/// Define a structure to represent the data of the payment
#[derive(Debug, Default, Clone)]
pub struct Payment {
    /// Represents the LNURL of the payment
    pub address: String,
    /// Represents the amount total of the payment
    pub amount: u64,
    /// Represents the description of the payment
    pub description: String,
}

/// The credentials sent to obtain a token from the business API.
#[derive(Debug, Default)]
pub struct CreateToken {
    pub username: String,
    pub password: String,
}

/// A token issued by the business API.
#[derive(Debug, Default)]
pub struct Token {
    pub jwt: String,
}

/// The report of a paid collaborator sent to the business API.
#[derive(Debug, Default, Clone)]
pub struct ProcessPayment {
    pub invoiceUid: String,
    pub lnAddress: String,
}

/// The business API's answer to a report.
#[derive(Debug, Default, Clone)]
pub struct ProcessResult {
    pub success: bool,
    pub message: String,
    pub data: Option<String>,
}

/// Define a structure to represent the filter of the payment
#[derive(Debug, Default, Clone)]
pub struct PaymentFilters {
    /// Represents the LNURL of the payment
    pub address: String,
}

/// What a node says of itself.
#[derive(Debug, Default, Clone)]
pub struct InfoResponse {
    pub identity_pubkey: String,
    pub alias: Option<String>,
    pub block_height: String,
}

/// The body answered to an invoice creation.
#[derive(Debug, Default, Clone)]
pub struct DataInvoice {
    pub data: InvoiceResponse,
}

/// An invoice as answered to its creation.
#[derive(Debug, Default, Clone)]
pub struct InvoiceResponse {
    pub business_id: i32,
    pub woocomerce_id: i32,
    pub tpay_preorder_id: u128,
    pub invoice_request: String,
    pub preimage: Option<String>,
    pub hash: Option<String>,
    pub paid: bool,
    pub status: i32,
    pub result: String,
    pub code: i32,
    pub message: String,
}

/// The body answered to an invoice lookup.
#[derive(Debug, Clone)]
pub struct DataLookupInvoice {
    pub data: LookupInvoiceResponse,
}

/// An invoice as answered to a lookup: what the store holds of it and what
/// the node says of it.
#[derive(Debug, Clone)]
pub struct LookupInvoiceResponse {
    pub business_id: i32,
    pub woocomerce_id: i32,
    pub tpay_preorder_id: u128,
    pub hash: Option<String>,
    pub currency: String,
    pub totalAmount: String,
    pub memo: String,
    pub r_preimage: String,
    pub r_hash: String,
    pub value: i64,
    pub value_msat: i64,
    pub settled: bool,
    pub settle_date: i64,
    pub creation_date: i64,
    pub payment_request: String,
    pub expiry: i64,
    pub cltv_expiry: u64,
    pub private: bool,
    pub add_index: u64,
    pub settle_index: u64,
    pub amt_paid: i64,
    pub amt_paid_sat: i64,
    pub amt_paid_msat: i64,
    pub state: i32,
    pub paid: bool,
    pub result: String,
    pub code: i32,
    pub message: String,
}

/// The summary of a list of payments.
pub struct ListPaymentsResponse {
    pub payment_status: i32,
    pub payment_failure_status: i32,
    pub payment_message: String,
    pub first_index_offset: u64,
    pub last_index_offset: u64,
    pub total_num_payments: u64,
}

/// An order as answered to a lookup by pre-sale.
#[derive(Debug, Clone)]
pub struct OrderResponse {
    pub id: i32,
    pub business_id: i32,
    pub order_id: i32,
    pub presell_id: u128,
    pub bolt11: String,
    pub payment_hash: Option<String>,
    pub payment_secret: Option<String>,
    pub description: String,
    pub customer_name: String,
    pub customer_email: String,
    pub currency: String,
    pub sub_total: String,
    pub taxes: String,
    pub shipping: String,
    pub total_amount: String,
    pub amount_sat: i64,
    pub status: i32,
    pub invoice_date: i64,
    pub created_at: i64,
    pub updated_at: Option<i64>,
    pub distributed: bool,
    pub apply_split: bool,
    pub result: String,
    pub code: i32,
    pub message: String,
}

/// The empty lookup answer: every number zero, every text empty but the
/// amount, which is `0`.
pub open spec fn empty_lookup(res: LookupInvoiceResponse) -> bool {
    &&& res.business_id == 0 && res.woocomerce_id == 0 && res.tpay_preorder_id == 0
    &&& res.hash is None && res.currency@.len() == 0 && res.totalAmount@ == "0"@
    &&& res.memo@.len() == 0 && res.r_preimage@.len() == 0 && res.r_hash@.len() == 0
    &&& res.value == 0 && res.value_msat == 0 && !res.settled && res.settle_date == 0
    &&& res.creation_date == 0 && res.payment_request@.len() == 0 && res.expiry == 0
    &&& res.cltv_expiry == 0 && !res.private && res.add_index == 0 && res.settle_index == 0
    &&& res.amt_paid == 0 && res.amt_paid_sat == 0 && res.amt_paid_msat == 0
    &&& res.state == 0 && !res.paid && res.result@.len() == 0 && res.code == 0
    &&& res.message@.len() == 0
}

impl Default for LookupInvoiceResponse {
    /// The empty lookup answer.
    fn default() -> (res: Self)
        ensures
            empty_lookup(res),
    {
        LookupInvoiceResponse {
            business_id: 0,
            woocomerce_id: 0,
            tpay_preorder_id: 0,
            hash: None,
            currency: String::new(),
            totalAmount: String::from_str("0"),
            memo: String::new(),
            r_preimage: String::new(),
            r_hash: String::new(),
            value: 0,
            value_msat: 0,
            settled: false,
            settle_date: 0,
            creation_date: 0,
            payment_request: String::new(),
            expiry: 0,
            cltv_expiry: 0,
            private: false,
            add_index: 0,
            settle_index: 0,
            amt_paid: 0,
            amt_paid_sat: 0,
            amt_paid_msat: 0,
            state: 0,
            paid: false,
            result: String::new(),
            code: 0,
            message: String::new(),
        }
    }
}

} // verus!
