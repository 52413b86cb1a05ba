//! The relational resolver: read-only, graph-shaped queries over the
//! store, reconstructing each client with its invoices and each invoice
//! with its items by foreign-key joins.
//!
//! Every operation takes the context by shared borrow, so no resolver
//! call can alter a collection's length or contents.

use vstd::prelude::*;

use crate::db::DataContext;
use crate::models::{
    Client, ClientModel, Invoice, InvoiceItem, InvoiceItemsModel, InvoiceModel, item_view_of,
};

verus! {

/// The index of the first client whose id reads `id`, if any.
pub open spec fn find_client(clients: Seq<ClientModel>, id: Seq<char>) -> Option<int>
    decreases clients.len(),
{
    if clients.len() == 0 {
        None
    } else if clients[0].client_id@ == id {
        Some(0int)
    } else {
        match find_client(clients.drop_first(), id) {
            Some(i) => Some(i + 1),
            None => None,
        }
    }
}

/// The index of the first invoice whose id is `id`, if any.
pub open spec fn find_invoice(invoices: Seq<InvoiceModel>, id: i32) -> Option<int>
    decreases invoices.len(),
{
    if invoices.len() == 0 {
        None
    } else if invoices[0].invoice_id == id {
        Some(0int)
    } else {
        match find_invoice(invoices.drop_first(), id) {
            Some(i) => Some(i + 1),
            None => None,
        }
    }
}

/// `find_client` returns the first matching index, or `None` exactly
/// when no client matches.
pub proof fn lemma_find_client_spec(clients: Seq<ClientModel>, id: Seq<char>)
    ensures
        match find_client(clients, id) {
            Some(i) => 0 <= i < clients.len() && clients[i].client_id@ == id && (forall|j: int|
                0 <= j < i ==> clients[j].client_id@ != id),
            None => forall|j: int| 0 <= j < clients.len() ==> clients[j].client_id@ != id,
        },
    decreases clients.len(),
{
    if clients.len() > 0 && clients[0].client_id@ != id {
        let rest = clients.drop_first();
        lemma_find_client_spec(rest, id);
        match find_client(rest, id) {
            Some(i) => {
                assert(clients[i + 1] == rest[i]);
                assert forall|j: int| 0 <= j < i + 1 implies clients[j].client_id@ != id by {
                    if j >= 1 {
                        assert(rest[j - 1] == clients[j]);
                    }
                }
            },
            None => {
                assert forall|j: int|
                    0 <= j < clients.len() implies clients[j].client_id@ != id by {
                    if j >= 1 {
                        assert(rest[j - 1] == clients[j]);
                    }
                }
            },
        }
    }
}

/// `find_invoice` returns the first matching index, or `None` exactly
/// when no invoice matches.
pub proof fn lemma_find_invoice_spec(invoices: Seq<InvoiceModel>, id: i32)
    ensures
        match find_invoice(invoices, id) {
            Some(i) => 0 <= i < invoices.len() && invoices[i].invoice_id == id && (forall|j: int|
                0 <= j < i ==> invoices[j].invoice_id != id),
            None => forall|j: int| 0 <= j < invoices.len() ==> invoices[j].invoice_id != id,
        },
    decreases invoices.len(),
{
    if invoices.len() > 0 && invoices[0].invoice_id != id {
        let rest = invoices.drop_first();
        lemma_find_invoice_spec(rest, id);
        match find_invoice(rest, id) {
            Some(i) => {
                assert(invoices[i + 1] == rest[i]);
                assert forall|j: int| 0 <= j < i + 1 implies invoices[j].invoice_id != id by {
                    if j >= 1 {
                        assert(rest[j - 1] == invoices[j]);
                    }
                }
            },
            None => {
                assert forall|j: int|
                    0 <= j < invoices.len() implies invoices[j].invoice_id != id by {
                    if j >= 1 {
                        assert(rest[j - 1] == invoices[j]);
                    }
                }
            },
        }
    }
}

/// The invoice records of `invoices` whose `client_id` reads `client_id`,
/// in collection order.
pub open spec fn invoice_models_for(invoices: Seq<InvoiceModel>, client_id: Seq<char>) -> Seq<
    InvoiceModel,
>
    decreases invoices.len(),
{
    if invoices.len() == 0 {
        Seq::empty()
    } else {
        let rest = invoice_models_for(invoices.drop_last(), client_id);
        if invoices.last().client_id@ == client_id {
            rest.push(invoices.last())
        } else {
            rest
        }
    }
}

/// The item views of the records of `items` whose `invoice_id` is
/// `invoice_id`, in collection order.
pub open spec fn item_views_for(items: Seq<InvoiceItemsModel>, invoice_id: i32) -> Seq<InvoiceItem>
    decreases items.len(),
{
    if items.len() == 0 {
        Seq::empty()
    } else {
        let rest = item_views_for(items.drop_last(), invoice_id);
        if items.last().invoice_id == invoice_id {
            rest.push(item_view_of(items.last()))
        } else {
            rest
        }
    }
}

/// `v` is the view of the stored invoice `m`: the record's fields with
/// every matching item of `items` nested inside.
pub open spec fn invoice_view_ok(v: Invoice, m: InvoiceModel, items: Seq<InvoiceItemsModel>) -> bool {
    &&& v.invoice_id == m.invoice_id
    &&& v.invoice_number == m.invoice_number
    &&& v.client_id == m.client_id
    &&& v.invoice_date == m.invoice_date
    &&& v.due_date == m.due_date
    &&& v.invoice_items@ == item_views_for(items, m.invoice_id)
}

/// Each view of `vs` is the view of the record of `ms` at the same
/// position, and the two run in step.
pub open spec fn invoices_view_ok(
    vs: Seq<Invoice>,
    ms: Seq<InvoiceModel>,
    items: Seq<InvoiceItemsModel>,
) -> bool {
    &&& vs.len() == ms.len()
    &&& forall|i: int| 0 <= i < vs.len() ==> invoice_view_ok(vs[i], ms[i], items)
}

/// `v` is the view of the stored client `c`: the record's fields with
/// every invoice of `invoices` that references `c` nested inside, each
/// carrying its matching items of `items`.
pub open spec fn client_view_ok(
    v: Client,
    c: ClientModel,
    invoices: Seq<InvoiceModel>,
    items: Seq<InvoiceItemsModel>,
) -> bool {
    &&& v.client_id == c.client_id
    &&& v.company_name == c.company_name
    &&& v.contact_name == c.contact_name
    &&& v.contact_title == c.contact_title
    &&& v.phone == c.phone
    &&& v.email == c.email
    &&& invoices_view_ok(v.invoices@, invoice_models_for(invoices, c.client_id@), items)
}

/// Where the selected page starts: the offset, clamped to the
/// collection length.
pub open spec fn page_start(offset: Option<usize>, len: int) -> int {
    let o = match offset {
        Some(o) => o as int,
        None => 0,
    };
    if o > len {
        len
    } else {
        o
    }
}

/// Where the selected page ends: at most `first` clients past the
/// start, never past the collection's end; with no `first`, the end of
/// the collection.
pub open spec fn page_end(first: Option<usize>, offset: Option<usize>, len: int) -> int {
    match first {
        None => len,
        Some(f) => {
            let s = page_start(offset, len);
            if f as int > len - s {
                len
            } else {
                s + f as int
            }
        },
    }
}

/// The materialized item views for one invoice id.
fn items_for(items: &Vec<InvoiceItemsModel>, invoice_id: i32) -> (r: Vec<InvoiceItem>)
    ensures
        r@ == item_views_for(items@, invoice_id),
{
    let mut r: Vec<InvoiceItem> = Vec::new();
    let mut i: usize = 0;
    while i < items.len()
        invariant
            i <= items.len(),
            r@ == item_views_for(items@.take(i as int), invoice_id),
        decreases items.len() - i,
    {
        proof {
            assert(items@.take(i + 1).drop_last() =~= items@.take(i as int));
            assert(items@.take(i + 1).last() == items@[i as int]);
        }
        if items[i].invoice_id == invoice_id {
            let m = &items[i];
            r.push(
                InvoiceItem {
                    item_id: m.item_id,
                    invoice_id: m.invoice_id,
                    product_id: m.product_id,
                    description: m.description.clone(),
                    price_bits: m.price_bits,
                },
            );
        }
        i = i + 1;
    }
    proof {
        assert(items@.take(items@.len() as int) =~= items@);
    }
    r
}

/// The materialized invoice views for one client id.
fn invoices_for(
    invoices: &Vec<InvoiceModel>,
    items: &Vec<InvoiceItemsModel>,
    client_id: &String,
) -> (r: Vec<Invoice>)
    ensures
        invoices_view_ok(r@, invoice_models_for(invoices@, client_id@), items@),
{
    let mut r: Vec<Invoice> = Vec::new();
    let mut i: usize = 0;
    while i < invoices.len()
        invariant
            i <= invoices.len(),
            invoices_view_ok(r@, invoice_models_for(invoices@.take(i as int), client_id@), items@),
        decreases invoices.len() - i,
    {
        proof {
            assert(invoices@.take(i + 1).drop_last() =~= invoices@.take(i as int));
            assert(invoices@.take(i + 1).last() == invoices@[i as int]);
        }
        if invoices[i].client_id.eq(client_id) {
            let m = &invoices[i];
            let invoice_items = items_for(items, m.invoice_id);
            r.push(
                Invoice {
                    invoice_id: m.invoice_id,
                    invoice_number: m.invoice_number.clone(),
                    client_id: m.client_id.clone(),
                    invoice_date: m.invoice_date,
                    due_date: m.due_date,
                    invoice_items,
                },
            );
        }
        i = i + 1;
    }
    proof {
        assert(invoices@.take(invoices@.len() as int) =~= invoices@);
    }
    r
}

/// The materialized view of one client record.
fn client_view(
    c: &ClientModel,
    invoices: &Vec<InvoiceModel>,
    items: &Vec<InvoiceItemsModel>,
) -> (r: Client)
    ensures
        client_view_ok(r, *c, invoices@, items@),
{
    let invoices = invoices_for(invoices, items, &c.client_id);
    Client {
        client_id: c.client_id.clone(),
        company_name: c.company_name.clone(),
        contact_name: c.contact_name.clone(),
        contact_title: c.contact_title.clone(),
        phone: c.phone.clone(),
        email: c.email.clone(),
        invoices,
    }
}

/// The read-only query surface of the store.
pub struct Query;

impl Query {
    /// A fixed greeting, to probe the query surface.
    pub fn hello_world() -> (r: &'static str)
        ensures
            r@ == "Hello, world!"@,
    {
        "Hello, world!"
    }

    /// Lists at most `first` client views starting `offset` records into
    /// the client collection, in insertion order. An offset past the end
    /// selects nothing; with no `first` the page runs to the end.
    pub fn clients(first: Option<usize>, offset: Option<usize>, ctx: &DataContext) -> (r: Vec<
        Client,
    >)
        ensures
            ({
                let s = page_start(offset, ctx.clients@.len() as int);
                let e = page_end(first, offset, ctx.clients@.len() as int);
                &&& r@.len() == e - s
                &&& forall|k: int|
                    0 <= k < r@.len() ==> client_view_ok(
                        r@[k],
                        ctx.clients@[s + k],
                        ctx.invoices@,
                        ctx.invoice_items@,
                    )
            }),
    {
        let len = ctx.clients.len();
        let start = match offset {
            Some(o) => if o > len {
                len
            } else {
                o
            },
            None => 0,
        };
        let end = match first {
            Some(f) => if f > len - start {
                len
            } else {
                start + f
            },
            None => len,
        };

        let mut r: Vec<Client> = Vec::new();
        let mut i: usize = start;
        while i < end
            invariant
                start <= i <= end <= ctx.clients@.len(),
                r@.len() == i - start,
                forall|k: int|
                    0 <= k < r@.len() ==> client_view_ok(
                        r@[k],
                        ctx.clients@[start + k],
                        ctx.invoices@,
                        ctx.invoice_items@,
                    ),
            decreases end - i,
        {
            let v = client_view(&ctx.clients[i], &ctx.invoices, &ctx.invoice_items);
            r.push(v);
            i = i + 1;
        }
        r
    }

    /// The view of the first client whose id reads `id`, or `None` when
    /// no client has that id.
    pub fn get_client(id: String, ctx: &DataContext) -> (r: Option<Client>)
        ensures
            r.is_some() == find_client(ctx.clients@, id@).is_some(),
            r matches Some(v) ==> find_client(ctx.clients@, id@) matches Some(i)
                && client_view_ok(v, ctx.clients@[i], ctx.invoices@, ctx.invoice_items@),
    {
        let mut i: usize = 0;
        while i < ctx.clients.len()
            invariant
                i <= ctx.clients@.len(),
                forall|j: int| 0 <= j < i ==> ctx.clients@[j].client_id@ != id@,
            decreases ctx.clients@.len() - i,
        {
            if ctx.clients[i].client_id.eq(&id) {
                let v = client_view(&ctx.clients[i], &ctx.invoices, &ctx.invoice_items);
                proof {
                    lemma_find_client_spec(ctx.clients@, id@);
                    match find_client(ctx.clients@, id@) {
                        Some(fi) => {
                            assert(fi == i as int);
                        },
                        None => {
                            assert(false);
                        },
                    }
                }
                return Some(v);
            }
            i = i + 1;
        }
        proof {
            lemma_find_client_spec(ctx.clients@, id@);
        }
        None
    }
}

} // verus!
