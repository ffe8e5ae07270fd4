#![allow(non_snake_case)]
use vstd::prelude::*;
use crate::models::Invoice;
use crate::modelsext::{InvoiceData, InvoiceFilters};

verus! {

/// The body of a successful invoice request, as documented in the API schema.
pub struct InvoiceDataResponse {
    pub Ok: InvoiceData,
}

/// The body that carries one stored invoice.
pub struct InvoiceResponse {
    pub Ok: Invoice,
}

/// The body that carries stored invoices.
pub struct InvoicesResponse {
    pub Ok: Vec<Invoice>,
}

/// The body of a successful lookup by hash.
pub struct InvoiceFiltersResponse {
    pub Ok: InvoiceFilters,
}

/// The body that carries several hash filters.
pub struct InvoicesFiltersResponse {
    pub Ok: Vec<InvoiceFilters>,
}

/// The body of a refused request: its message.
pub struct ErrorResponse {
    pub Err: String,
}

/// The body of a yes-or-no answer.
pub struct BoolResponse {
    pub Ok: bool,
}

/// The body of an answer in text.
pub struct StringResponse {
    pub Ok: String,
}

} // verus!
