//! Entity records as the store holds them, the nested view types the
//! resolver returns, and the input records the mutation engine accepts.
//!
//! A price is carried verbatim as its 64 raw bits (`price_bits`); the
//! store never interprets it, so callers may move any encoding through
//! unchanged.

use vstd::prelude::*;

use crate::date::Date;

verus! {

/// A stored client record. The id is supplied by the caller and is the
/// join key towards invoices.
pub struct ClientModel {
    pub client_id: String,
    pub company_name: String,
    pub contact_name: String,
    pub contact_title: String,
    pub phone: String,
    pub email: String,
}

/// A stored invoice record. The id is allocated by the store.
pub struct InvoiceModel {
    pub invoice_id: i32,
    pub invoice_number: String,
    pub client_id: String,
    pub invoice_date: Date,
    pub due_date: Date,
}

/// A stored invoice item record. The id is allocated by the store.
pub struct InvoiceItemsModel {
    pub item_id: i32,
    pub invoice_id: i32,
    pub product_id: i32,
    pub description: String,
    pub price_bits: u64,
}

/// A fully materialized client view: the record with every invoice
/// whose `client_id` matches nested inside.
pub struct Client {
    pub client_id: String,
    pub company_name: String,
    pub contact_name: String,
    pub contact_title: String,
    pub phone: String,
    pub email: String,
    pub invoices: Vec<Invoice>,
}

/// A fully materialized invoice view: the record with every item whose
/// `invoice_id` matches nested inside.
pub struct Invoice {
    pub invoice_id: i32,
    pub invoice_number: String,
    pub client_id: String,
    pub invoice_date: Date,
    pub due_date: Date,
    pub invoice_items: Vec<InvoiceItem>,
}

/// A materialized invoice item view.
pub struct InvoiceItem {
    pub item_id: i32,
    pub invoice_id: i32,
    pub product_id: i32,
    pub description: String,
    pub price_bits: u64,
}

/// Input for `add_client`: every client field, id included.
pub struct NewClient {
    pub client_id: String,
    pub company_name: String,
    pub contact_name: String,
    pub contact_title: String,
    pub phone: String,
    pub email: String,
}

/// Input for `add_invoice_item`: the caller-supplied item fields.
pub struct NewInvoiceItem {
    pub product_id: i32,
    pub description: String,
    pub price_bits: u64,
}

/// The client record that `add_client` stores for a given input.
pub open spec fn client_model_of(n: NewClient) -> ClientModel {
    ClientModel {
        client_id: n.client_id,
        company_name: n.company_name,
        contact_name: n.contact_name,
        contact_title: n.contact_title,
        phone: n.phone,
        email: n.email,
    }
}

/// The item record stored when item id `item_id` is allocated for input
/// `n` against invoice `invoice_id`.
pub open spec fn item_model_of(item_id: i32, invoice_id: i32, n: NewInvoiceItem) -> InvoiceItemsModel {
    InvoiceItemsModel {
        item_id: item_id,
        invoice_id: invoice_id,
        product_id: n.product_id,
        description: n.description,
        price_bits: n.price_bits,
    }
}

/// The item view of a stored item record.
pub open spec fn item_view_of(m: InvoiceItemsModel) -> InvoiceItem {
    InvoiceItem {
        item_id: m.item_id,
        invoice_id: m.invoice_id,
        product_id: m.product_id,
        description: m.description,
        price_bits: m.price_bits,
    }
}

} // verus!
