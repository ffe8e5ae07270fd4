//! Rows of the `invoices` and `payment_split` tables. As in `modelsext`,
//! pre-sale identifiers are the 128-bit value of their UUID, amounts of
//! money their decimal text, dates microseconds since the Unix epoch.
use vstd::prelude::*;

verus! {

/// Define a structure to represent data of the invoice
#[derive(Debug, Clone)]
pub struct NewInvoice {
    /// Represents the business identifier
    pub business_id: i32,
    /// Represents the order identifier
    pub order_id: i32,
    /// Represents the pre order identifier
    pub presell_id: u128,
    /// Represents the invoice request
    pub bolt11: String,
    /// Represents the payment hash
    pub payment_hash: Option<String>,
    /// Represents the invoice secret
    pub payment_secret: Option<String>,
    /// Represents the invoice's description
    pub description: String,
    /// Represents the customer's name
    pub customer_name: String,
    /// Represents the email address
    pub customer_email: String,
    /// Represents the transaction currency
    pub currency: String,
    /// Represents the order's subtotal
    pub sub_total: String,
    /// Represents the order's taxes
    pub taxes: String,
    /// Represents the order's shipping amount
    pub shipping: String,
    /// Represents the order's total amount
    pub total_amount: String,
    /// Represents the order's total sats
    pub amount_sat: i32,
    /// Represents the invoice's status
    pub status: i32,
    /// Represents the order's date
    pub invoice_date: i64,
    /// Represents the order's creation date
    pub created_at: i64,
    /// Represents the order's update date
    pub updated_at: Option<i64>,
    /// Indicates whether the payment was distributed
    pub distributed: bool,
    /// Represents split payment if applicable
    pub apply_split: bool,
}

/// Define a structure to represent data of the invoice
#[derive(Debug, Clone)]
pub struct Invoice {
    /// Represents the invoice ID
    pub id: i32,
    /// Represents the business identifier
    pub business_id: i32,
    /// Represents the order identifier
    pub order_id: i32,
    /// Represents the pre order identifier
    pub presell_id: u128,
    /// Represents the invoice request
    pub bolt11: String,
    /// Represents the payment hash
    pub payment_hash: Option<String>,
    /// Represents the invoice secret
    pub payment_secret: Option<String>,
    /// Represents the invoice's description
    pub description: String,
    /// Represents the customer's name
    pub customer_name: String,
    /// Represents the email address
    pub customer_email: String,
    /// Represents the transaction currency
    pub currency: String,
    /// Represents the order's subtotal
    pub sub_total: String,
    /// Represents the order's taxes
    pub taxes: String,
    /// Represents the order's shipping amount
    pub shipping: String,
    /// Represents the order's total amount
    pub total_amount: String,
    /// Represents the order's total sats
    pub amount_sat: i32,
    /// Represents the invoice's status
    pub status: i32,
    /// Represents the order's date
    pub invoice_date: i64,
    /// Represents the order's creation date
    pub created_at: i64,
    /// Represents the order's update date
    pub updated_at: Option<i64>,
    /// Indicates whether the payment was distributed
    pub distributed: bool,
    /// Represents split payment if applicable
    pub apply_split: bool,
}

/// Define a structure to represent data of the payment split
#[derive(Debug, Default, Clone)]
pub struct NewPaymentSplit {
    /// Represents the invoice identifier
    pub invoice_id: i32,
    /// Represents the type of collaborator
    pub tipo_asociado: String,
    /// Represents the address LNURL of the collaborator
    pub lnaddress: String,
    /// Represents the amount (sats) to pay
    pub amount_sat: i32,
    /// Represents the fee (sats) to pay
    pub fee_sat: i32,
    /// Represents the payment status
    pub status: i32,
    /// Represents the invoice request
    pub bolt11: Option<String>,
    /// Represents the payment hash
    pub payment_hash: Option<String>,
    /// Represents the invoice secret
    pub payment_secret: Option<String>,
    /// Represents the number of payment sending attempts
    pub attempts: i32,
    /// Indicates whether the payment was reported
    pub reported: bool,
}

/// Define a structure to represent data of the payment split
#[derive(Debug, Clone)]
pub struct PaymentSplit {
    /// Represents the payment identifier
    pub id: i32,
    /// Represents the invoice identifier
    pub invoice_id: i32,
    /// Represents the type of collaborator
    pub tipo_asociado: String,
    /// Represents the address LNURL of the collaborator
    pub lnaddress: String,
    /// Represents the amount (sats) to pay
    pub amount_sat: i32,
    /// Represents the fee (sats) to pay
    pub fee_sat: i32,
    /// Represents the payment status
    pub status: i32,
    /// Represents the invoice request
    pub bolt11: Option<String>,
    /// Represents the payment hash
    pub payment_hash: Option<String>,
    /// Represents the invoice secret
    pub payment_secret: Option<String>,
    /// Represents the number of payment sending attempts
    pub attempts: i32,
    /// Indicates whether the payment was reported
    pub reported: bool,
}

/// The empty invoice: every number zero, every text empty but the amounts,
/// which are `0`, every date the Unix epoch.
pub open spec fn empty_invoice(res: Invoice) -> bool {
    &&& res.id == 0 && res.business_id == 0 && res.order_id == 0 && res.presell_id == 0
    &&& res.bolt11@.len() == 0 && res.payment_hash is None && res.payment_secret is None
    &&& res.description@.len() == 0 && res.customer_name@.len() == 0
    &&& res.customer_email@.len() == 0 && res.currency@.len() == 0
    &&& res.sub_total@ == "0"@ && res.taxes@ == "0"@ && res.shipping@ == "0"@
    &&& res.total_amount@ == "0"@
    &&& res.amount_sat == 0 && res.status == 0 && res.invoice_date == 0
    &&& res.created_at == 0 && res.updated_at is None && !res.distributed
    &&& !res.apply_split
}

impl Default for Invoice {
    /// The empty invoice.
    fn default() -> (res: Self)
        ensures
            empty_invoice(res),
    {
        Invoice {
            id: 0,
            business_id: 0,
            order_id: 0,
            presell_id: 0,
            bolt11: String::new(),
            payment_hash: None,
            payment_secret: None,
            description: String::new(),
            customer_name: String::new(),
            customer_email: String::new(),
            currency: String::new(),
            sub_total: String::from_str("0"),
            taxes: String::from_str("0"),
            shipping: String::from_str("0"),
            total_amount: String::from_str("0"),
            amount_sat: 0,
            status: 0,
            invoice_date: 0,
            created_at: 0,
            updated_at: None,
            distributed: false,
            apply_split: false,
        }
    }
}

} // verus!
