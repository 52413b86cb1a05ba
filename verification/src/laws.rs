//! Laws relating the mutation engine to the resolver: what a lookup
//! shows right after an append, and how key allocation behaves across
//! serialized mutations.

use vstd::prelude::*;

use crate::db::{DataContext, max_invoice_id_of};
use crate::models::{Client, ClientModel, Invoice, InvoiceItemsModel, InvoiceModel};
use crate::mutation::invoice_added;
use crate::query::{
    client_view_ok, find_client, invoice_models_for, invoice_view_ok, lemma_find_client_spec,
};

verus! {

/// Appending a client whose id is not yet held makes that client the
/// one a lookup by its id finds.
pub proof fn lemma_find_client_push(clients: Seq<ClientModel>, c: ClientModel)
    requires
        find_client(clients, c.client_id@) is None,
    ensures
        find_client(clients.push(c), c.client_id@) == Some(clients.len() as int),
    decreases clients.len(),
{
    let id = c.client_id@;
    lemma_find_client_spec(clients, id);
    if clients.len() == 0 {
        assert(clients.push(c)[0] == c);
    } else {
        assert(clients.push(c)[0] == clients[0]);
        assert(clients.push(c).drop_first() =~= clients.drop_first().push(c));
        lemma_find_client_push(clients.drop_first(), c);
    }
}

/// A client id that no invoice references selects no invoices.
pub proof fn lemma_no_matching_invoices(invoices: Seq<InvoiceModel>, id: Seq<char>)
    requires
        forall|j: int| 0 <= j < invoices.len() ==> invoices[j].client_id@ != id,
    ensures
        invoice_models_for(invoices, id) =~= Seq::<InvoiceModel>::empty(),
    decreases invoices.len(),
{
    if invoices.len() > 0 {
        lemma_no_matching_invoices(invoices.drop_last(), id);
    }
}

/// Law: a client added under an id that the store does not yet hold,
/// and that no stored invoice references, is exactly what a lookup by
/// that id then returns: the same fields, with an empty invoice list.
/// (A duplicate id would make the lookup find the older record, and a
/// dangling invoice reference would already populate the new client's
/// view; those stores are left out by the hypotheses.)
pub proof fn lemma_added_client_found_empty(
    clients: Seq<ClientModel>,
    invoices: Seq<InvoiceModel>,
    items: Seq<InvoiceItemsModel>,
    c: ClientModel,
    v: Client,
)
    requires
        find_client(clients, c.client_id@) is None,
        forall|j: int| 0 <= j < invoices.len() ==> invoices[j].client_id@ != c.client_id@,
        client_view_ok(v, c, invoices, items),
    ensures
        find_client(clients.push(c), c.client_id@) == Some(clients.len() as int),
        v.invoices@.len() == 0,
        v.client_id == c.client_id,
        v.company_name == c.company_name,
        v.contact_name == c.contact_name,
        v.contact_title == c.contact_title,
        v.phone == c.phone,
        v.email == c.email,
{
    lemma_find_client_push(clients, c);
    lemma_no_matching_invoices(invoices, c.client_id@);
}

/// Law: an invoice appended for an existing client shows up in that
/// client's view, as the last of its nested invoices, the moment the
/// client is looked up again.
pub proof fn lemma_new_invoice_nested(
    clients: Seq<ClientModel>,
    invoices: Seq<InvoiceModel>,
    items: Seq<InvoiceItemsModel>,
    m: InvoiceModel,
    v: Client,
    ci: int,
)
    requires
        find_client(clients, m.client_id@) == Some(ci),
        client_view_ok(v, clients[ci], invoices.push(m), items),
    ensures
        0 <= ci < clients.len(),
        clients[ci].client_id@ == m.client_id@,
        v.invoices@.len() == invoice_models_for(invoices, m.client_id@).len() + 1,
        invoice_view_ok(v.invoices@.last(), m, items),
{
    lemma_find_client_spec(clients, m.client_id@);
    assert(invoices.push(m).drop_last() =~= invoices);
    assert(invoice_models_for(invoices.push(m), m.client_id@) == invoice_models_for(
        invoices,
        m.client_id@,
    ).push(m));
}

/// Appending a record carrying one more than the collection's maximum
/// id moves the maximum to exactly that id.
pub proof fn lemma_invoice_allocation_advances(invoices: Seq<InvoiceModel>, m: InvoiceModel)
    requires
        m.invoice_id as int == max_invoice_id_of(invoices) + 1,
    ensures
        max_invoice_id_of(invoices.push(m)) == m.invoice_id as int,
{
    assert(invoices.push(m).drop_last() =~= invoices);
}

/// Law: two `add_invoice` steps run one after the other hand out
/// distinct, consecutive invoice ids. Mutations take the store by
/// exclusive borrow, so concurrent callers serialize on their write
/// lock and any run of N calls yields N distinct, gap-free ids.
pub proof fn lemma_serialized_adds_consecutive(
    pre: DataContext,
    mid: DataContext,
    post: DataContext,
    v1: Invoice,
    v2: Invoice,
    cid1: Seq<char>,
    cid2: Seq<char>,
    y1: int,
    m1: int,
    y2: int,
    m2: int,
)
    requires
        max_invoice_id_of(pre.invoices@) + 2 <= i32::MAX,
        invoice_added(pre, mid, v1, cid1, y1, m1),
        invoice_added(mid, post, v2, cid2, y2, m2),
    ensures
        v2.invoice_id == v1.invoice_id + 1,
        v1.invoice_id != v2.invoice_id,
{
    lemma_invoice_allocation_advances(pre.invoices@, mid.invoices@.last());
}

} // verus!
