//! The mutation engine: validated, key-allocating appends to the store.
//!
//! Each mutation takes the context by exclusive borrow, so the key scan
//! and the append it feeds can never interleave with another mutation;
//! callers running mutations in parallel hold a write lock across the
//! whole call and thereby serialize them.

use vstd::prelude::*;

use chrono::Datelike;

use vstd::string::StringExecFns;

use crate::date::{due_date, due_date_of, month_end, month_end_of};
use crate::db::{DataContext, lemma_max_invoice_id_bounds, max_invoice_id_of, max_item_id_of};
use crate::models::{
    Client, ClientModel, Invoice, InvoiceItem, InvoiceItemsModel, InvoiceModel, NewClient,
    NewInvoiceItem, client_model_of, item_model_of, item_view_of,
};
use crate::query::{find_client, find_invoice, lemma_find_client_spec, lemma_find_invoice_spec};

verus! {

/// The digit character of `d`.
pub open spec fn digit_char(d: int) -> char {
    if d == 0 {
        '0'
    } else if d == 1 {
        '1'
    } else if d == 2 {
        '2'
    } else if d == 3 {
        '3'
    } else if d == 4 {
        '4'
    } else if d == 5 {
        '5'
    } else if d == 6 {
        '6'
    } else if d == 7 {
        '7'
    } else if d == 8 {
        '8'
    } else {
        '9'
    }
}

/// The decimal digits of a non-negative `n`, most significant first.
pub open spec fn dec_digits(n: int) -> Seq<char>
    decreases n,
{
    if n < 10 {
        seq![digit_char(n)]
    } else {
        dec_digits(n / 10).push(digit_char(n % 10))
    }
}

/// The invoice number derived from invoice id `id`: `INV` followed by
/// the id's decimal digits.
pub open spec fn invoice_number_of(id: int) -> Seq<char> {
    seq!['I', 'N', 'V'] + dec_digits(id)
}

/// Appends the digit character of `d`.
fn push_digit(s: &mut String, d: i32)
    requires
        0 <= d < 10,
    ensures
        final(s)@ == old(s)@.push(digit_char(d as int)),
{
    let lit: &'static str = if d == 0 {
        "0"
    } else if d == 1 {
        "1"
    } else if d == 2 {
        "2"
    } else if d == 3 {
        "3"
    } else if d == 4 {
        "4"
    } else if d == 5 {
        "5"
    } else if d == 6 {
        "6"
    } else if d == 7 {
        "7"
    } else if d == 8 {
        "8"
    } else {
        "9"
    };
    proof {
        reveal_strlit("0");
        reveal_strlit("1");
        reveal_strlit("2");
        reveal_strlit("3");
        reveal_strlit("4");
        reveal_strlit("5");
        reveal_strlit("6");
        reveal_strlit("7");
        reveal_strlit("8");
        reveal_strlit("9");
        assert(lit@ =~= seq![digit_char(d as int)]);
    }
    s.append(lit);
    proof {
        assert(s@ =~= old(s)@.push(digit_char(d as int)));
    }
}

/// Appends the decimal digits of a non-negative `n`, most significant
/// first.
fn push_dec_digits(s: &mut String, n: i32)
    requires
        0 <= n,
    ensures
        final(s)@ == old(s)@ + dec_digits(n as int),
    decreases n,
{
    if n < 10 {
        push_digit(s, n);
        proof {
            assert(old(s)@ + dec_digits(n as int) =~= old(s)@.push(digit_char(n as int)));
        }
    } else {
        push_dec_digits(s, n / 10);
        push_digit(s, n % 10);
        proof {
            assert(old(s)@ + dec_digits(n as int) =~= (old(s)@ + dec_digits(n as int / 10)).push(
                digit_char(n as int % 10),
            ));
        }
    }
}

/// The invoice number string for invoice id `id`.
fn format_invoice_number(id: i32) -> (r: String)
    requires
        0 <= id,
    ensures
        r@ == invoice_number_of(id as int),
{
    let mut s = String::from_str("INV");
    proof {
        reveal_strlit("INV");
        assert(s@ =~= seq!['I', 'N', 'V']);
    }
    push_dec_digits(&mut s, id);
    proof {
        assert(s@ =~= invoice_number_of(id as int));
    }
    s
}

/// Relies on `chrono::Local::now` and `Datelike::year`/`month` on the
/// local calendar date: the month is in `1..=12` and the year lies in
/// `chrono`'s supported `NaiveDate` year range.
#[verifier::external_body]
fn current_year_month() -> (r: (i32, u8))
    ensures
        1 <= r.1 <= 12,
        -262143 <= r.0 <= 262142,
{
    let today = chrono::Local::now().date_naive();
    (today.year(), today.month() as u8)
}

/// The stored invoice record carries the allocated id, the number and
/// dates derived from it and from the calendar month `(y, m)`, and the
/// requested client id.
pub open spec fn invoice_model_matches(
    m: InvoiceModel,
    id: i32,
    client_id: Seq<char>,
    y: int,
    mo: int,
) -> bool {
    &&& m.invoice_id == id
    &&& m.invoice_number@ == invoice_number_of(id as int)
    &&& m.client_id@ == client_id
    &&& m.invoice_date == month_end_of(y, mo)
    &&& m.due_date == due_date_of(y, mo)
}

/// A successful `add_invoice` step from `pre` to `post` in calendar
/// month `(y, mo)`: the client exists, the invoice collection grows by
/// one record whose id is one past `pre`'s maximum, the returned view
/// `v` shows that record with no items, and nothing else moves.
pub open spec fn invoice_added(
    pre: DataContext,
    post: DataContext,
    v: Invoice,
    client_id: Seq<char>,
    y: int,
    mo: int,
) -> bool {
    let nid = (max_invoice_id_of(pre.invoices@) + 1) as i32;
    &&& find_client(pre.clients@, client_id) is Some
    &&& post.clients == pre.clients
    &&& post.invoice_items == pre.invoice_items
    &&& post.max_item_id == pre.max_item_id
    &&& post.invoices@.len() == pre.invoices@.len() + 1
    &&& post.invoices@ == pre.invoices@.push(post.invoices@.last())
    &&& invoice_model_matches(post.invoices@.last(), nid, client_id, y, mo)
    &&& post.max_invoice_id == nid
    &&& v.invoice_id == nid
    &&& v.invoice_number@ == invoice_number_of(nid as int)
    &&& v.client_id@ == client_id
    &&& v.invoice_date == month_end_of(y, mo)
    &&& v.due_date == due_date_of(y, mo)
    &&& v.invoice_items@.len() == 0
}

/// The write surface of the store.
pub struct Mutation;

impl Mutation {
    /// Appends a client record built from the input, under the
    /// caller-supplied id, and returns its view with no invoices. No
    /// uniqueness check is made: a duplicate id is accepted and later
    /// joins resolve to the first record holding it.
    pub fn add_client(new_client: NewClient, ctx: &mut DataContext) -> (r: Client)
        ensures
            final(ctx).clients@ == old(ctx).clients@.push(client_model_of(new_client)),
            final(ctx).invoices == old(ctx).invoices,
            final(ctx).invoice_items == old(ctx).invoice_items,
            final(ctx).max_invoice_id == old(ctx).max_invoice_id,
            final(ctx).max_item_id == old(ctx).max_item_id,
            old(ctx).wf() ==> final(ctx).wf(),
            r.client_id == new_client.client_id,
            r.company_name == new_client.company_name,
            r.contact_name == new_client.contact_name,
            r.contact_title == new_client.contact_title,
            r.phone == new_client.phone,
            r.email == new_client.email,
            r.invoices@.len() == 0,
    {
        ctx.clients.push(
            ClientModel {
                client_id: new_client.client_id.clone(),
                company_name: new_client.company_name.clone(),
                contact_name: new_client.contact_name.clone(),
                contact_title: new_client.contact_title.clone(),
                phone: new_client.phone.clone(),
                email: new_client.email.clone(),
            },
        );
        Client {
            client_id: new_client.client_id,
            company_name: new_client.company_name,
            contact_name: new_client.contact_name,
            contact_title: new_client.contact_title,
            phone: new_client.phone,
            email: new_client.email,
            invoices: Vec::new(),
        }
    }

    /// Appends an invoice for the client with id `client_id`, dated in
    /// the calendar month `(year, month)`: the new id is one past the
    /// collection's maximum (1 into an empty collection), the number is
    /// `INV` plus the id, the invoice date is the month's last day and
    /// the due date the next month's last day. Returns `None`, leaving
    /// the store untouched, exactly when no client has that id.
    pub fn add_invoice_on(client_id: String, year: i32, month: u8, ctx: &mut DataContext) -> (r:
        Option<Invoice>)
        requires
            old(ctx).wf(),
            old(ctx).max_invoice_id < i32::MAX,
            1 <= month <= 12,
            year < i32::MAX,
        ensures
            final(ctx).wf(),
            r.is_some() == find_client(old(ctx).clients@, client_id@).is_some(),
            r is None ==> *final(ctx) == *old(ctx),
            r matches Some(v) ==> invoice_added(
                *old(ctx),
                *final(ctx),
                v,
                client_id@,
                year as int,
                month as int,
            ),
    {
        let mut i: usize = 0;
        #[verifier::loop_isolation(false)]
        while i < ctx.clients.len()
            invariant
                i <= ctx.clients@.len(),
                *ctx == *old(ctx),
                forall|j: int| 0 <= j < i ==> ctx.clients@[j].client_id@ != client_id@,
            decreases ctx.clients@.len() - i,
        {
            if ctx.clients[i].client_id.eq(&client_id) {
                proof {
                    lemma_find_client_spec(ctx.clients@, client_id@);
                    lemma_max_invoice_id_bounds(ctx.invoices@);
                }
                let invoice_id = ctx.max_invoice_id + 1;
                let invoice_number = format_invoice_number(invoice_id);
                let invoice_date = month_end(year, month);
                let d_date = due_date(year, month);

                let ghost pre_invoices = ctx.invoices@;
                ctx.invoices.push(
                    InvoiceModel {
                        invoice_id,
                        invoice_number: invoice_number.clone(),
                        client_id: client_id.clone(),
                        invoice_date,
                        due_date: d_date,
                    },
                );
                ctx.max_invoice_id = invoice_id;
                proof {
                    assert(ctx.invoices@.drop_last() =~= pre_invoices);
                }

                return Some(
                    Invoice {
                        invoice_id,
                        invoice_number,
                        client_id,
                        invoice_date,
                        due_date: d_date,
                        invoice_items: Vec::new(),
                    },
                );
            }
            i = i + 1;
        }
        proof {
            lemma_find_client_spec(ctx.clients@, client_id@);
        }
        None
    }

    /// `add_invoice_on` against the wall-clock month at call time. The
    /// clock decides only the two dates: the success condition, the
    /// allocated id and the number are those of `add_invoice_on`,
    /// whatever the clock returned.
    pub fn add_invoice(client_id: String, ctx: &mut DataContext) -> (r: Option<Invoice>)
        requires
            old(ctx).wf(),
            old(ctx).max_invoice_id < i32::MAX,
        ensures
            final(ctx).wf(),
            r.is_some() == find_client(old(ctx).clients@, client_id@).is_some(),
            r is None ==> *final(ctx) == *old(ctx),
            r matches Some(v) ==> exists|y: int, mo: int|
                1 <= mo <= 12 && invoice_added(*old(ctx), *final(ctx), v, client_id@, y, mo),
    {
        let (year, month) = current_year_month();
        let r = Self::add_invoice_on(client_id, year, month, ctx);
        proof {
            if r is Some {
                assert(1 <= month as int <= 12);
            }
        }
        r
    }

    /// Appends an item for the invoice with id `invoice_id`, allocating
    /// the item id one past the collection's maximum (1 into an empty
    /// collection), and returns the item's view. Returns `None`,
    /// leaving the store untouched, exactly when no invoice has that
    /// id.
    pub fn add_invoice_item(
        invoice_id: i32,
        new_invoice_item: NewInvoiceItem,
        ctx: &mut DataContext,
    ) -> (r: Option<InvoiceItem>)
        requires
            old(ctx).wf(),
            old(ctx).max_item_id < i32::MAX,
        ensures
            final(ctx).wf(),
            r.is_some() == find_invoice(old(ctx).invoices@, invoice_id).is_some(),
            r is None ==> *final(ctx) == *old(ctx),
            r matches Some(v) ==> ({
                let nid = (max_item_id_of(old(ctx).invoice_items@) + 1) as i32;
                &&& v == item_view_of(item_model_of(nid, invoice_id, new_invoice_item))
                &&& final(ctx).invoice_items@ == old(ctx).invoice_items@.push(
                    item_model_of(nid, invoice_id, new_invoice_item),
                )
                &&& final(ctx).max_item_id == nid
                &&& final(ctx).clients == old(ctx).clients
                &&& final(ctx).invoices == old(ctx).invoices
                &&& final(ctx).max_invoice_id == old(ctx).max_invoice_id
            }),
    {
        let mut i: usize = 0;
        #[verifier::loop_isolation(false)]
        while i < ctx.invoices.len()
            invariant
                i <= ctx.invoices@.len(),
                *ctx == *old(ctx),
                forall|j: int| 0 <= j < i ==> ctx.invoices@[j].invoice_id != invoice_id,
            decreases ctx.invoices@.len() - i,
        {
            if ctx.invoices[i].invoice_id == invoice_id {
                proof {
                    lemma_find_invoice_spec(ctx.invoices@, invoice_id);
                }
                let item_id = ctx.max_item_id + 1;
                let ghost pre_items = ctx.invoice_items@;
                ctx.invoice_items.push(
                    InvoiceItemsModel {
                        item_id,
                        invoice_id,
                        product_id: new_invoice_item.product_id,
                        description: new_invoice_item.description.clone(),
                        price_bits: new_invoice_item.price_bits,
                    },
                );
                ctx.max_item_id = item_id;
                proof {
                    assert(ctx.invoice_items@.drop_last() =~= pre_items);
                }

                return Some(
                    InvoiceItem {
                        item_id,
                        invoice_id,
                        product_id: new_invoice_item.product_id,
                        description: new_invoice_item.description,
                        price_bits: new_invoice_item.price_bits,
                    },
                );
            }
            i = i + 1;
        }
        proof {
            lemma_find_invoice_spec(ctx.invoices@, invoice_id);
        }
        None
    }
}

} // verus!
