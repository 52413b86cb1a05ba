//! The collection store: three append-only record collections and the
//! running maxima that key allocation works from.

use vstd::prelude::*;

use crate::models::{ClientModel, InvoiceItemsModel, InvoiceModel};

verus! {

/// The largest invoice id held in `s`, floored at 0. The floor makes the
/// first id allocated into an empty collection the seed value 1.
pub open spec fn max_invoice_id_of(s: Seq<InvoiceModel>) -> int
    decreases s.len(),
{
    if s.len() == 0 {
        0
    } else {
        let m = max_invoice_id_of(s.drop_last());
        if s.last().invoice_id > m {
            s.last().invoice_id as int
        } else {
            m
        }
    }
}

/// The largest item id held in `s`, floored at 0.
pub open spec fn max_item_id_of(s: Seq<InvoiceItemsModel>) -> int
    decreases s.len(),
{
    if s.len() == 0 {
        0
    } else {
        let m = max_item_id_of(s.drop_last());
        if s.last().item_id > m {
            s.last().item_id as int
        } else {
            m
        }
    }
}

/// The maximum of a collection of `i32` ids, floored at 0, stays an `i32`.
pub proof fn lemma_max_invoice_id_bounds(s: Seq<InvoiceModel>)
    ensures
        0 <= max_invoice_id_of(s) <= i32::MAX,
    decreases s.len(),
{
    if s.len() > 0 {
        lemma_max_invoice_id_bounds(s.drop_last());
    }
}

/// The maximum of a collection of `i32` ids, floored at 0, stays an `i32`.
pub proof fn lemma_max_item_id_bounds(s: Seq<InvoiceItemsModel>)
    ensures
        0 <= max_item_id_of(s) <= i32::MAX,
    decreases s.len(),
{
    if s.len() > 0 {
        lemma_max_item_id_bounds(s.drop_last());
    }
}

/// The process-wide store: three ordered, append-only collections, and
/// one running maximum per generated key. The mutation engine is the
/// only writer; the resolver reads through a shared borrow, so callers
/// wanting true parallelism wrap the context in their own
/// reader/writer lock and hold it exclusively across each mutation.
pub struct DataContext {
    pub clients: Vec<ClientModel>,
    pub invoices: Vec<InvoiceModel>,
    pub invoice_items: Vec<InvoiceItemsModel>,
    pub max_invoice_id: i32,
    pub max_item_id: i32,
}

impl DataContext {
    /// The cached maxima agree with the collections they summarize.
    pub open spec fn wf(self) -> bool {
        &&& self.max_invoice_id as int == max_invoice_id_of(self.invoices@)
        &&& self.max_item_id as int == max_item_id_of(self.invoice_items@)
    }

    /// Builds the store from the loader's three record collections,
    /// passing them through unchanged and computing the key maxima.
    pub fn init(
        clients: Vec<ClientModel>,
        invoices: Vec<InvoiceModel>,
        invoice_items: Vec<InvoiceItemsModel>,
    ) -> (r: DataContext)
        ensures
            r.clients == clients,
            r.invoices == invoices,
            r.invoice_items == invoice_items,
            r.wf(),
    {
        let mut max_invoice_id: i32 = 0;
        let mut i: usize = 0;
        while i < invoices.len()
            invariant
                i <= invoices.len(),
                max_invoice_id as int == max_invoice_id_of(invoices@.take(i as int)),
            decreases invoices.len() - i,
        {
            proof {
                lemma_max_invoice_id_bounds(invoices@.take(i as int));
                assert(invoices@.take(i + 1).drop_last() =~= invoices@.take(i as int));
                assert(invoices@.take(i + 1).last() == invoices@[i as int]);
            }
            if invoices[i].invoice_id > max_invoice_id {
                max_invoice_id = invoices[i].invoice_id;
            }
            i = i + 1;
        }
        proof {
            assert(invoices@.take(invoices@.len() as int) =~= invoices@);
        }

        let mut max_item_id: i32 = 0;
        let mut j: usize = 0;
        while j < invoice_items.len()
            invariant
                j <= invoice_items.len(),
                max_item_id as int == max_item_id_of(invoice_items@.take(j as int)),
            decreases invoice_items.len() - j,
        {
            proof {
                lemma_max_item_id_bounds(invoice_items@.take(j as int));
                assert(invoice_items@.take(j + 1).drop_last() =~= invoice_items@.take(j as int));
                assert(invoice_items@.take(j + 1).last() == invoice_items@[j as int]);
            }
            if invoice_items[j].item_id > max_item_id {
                max_item_id = invoice_items[j].item_id;
            }
            j = j + 1;
        }
        proof {
            assert(invoice_items@.take(invoice_items@.len() as int) =~= invoice_items@);
        }

        DataContext { clients, invoices, invoice_items, max_invoice_id, max_item_id }
    }
}

} // verus!
