use invoice_store::date::Date;
use invoice_store::db::DataContext;
use invoice_store::models::{ClientModel, InvoiceItemsModel, InvoiceModel, NewClient, NewInvoiceItem};
use invoice_store::mutation::Mutation;
use invoice_store::query::Query;

fn new_client(id: &str, company: &str) -> NewClient {
    NewClient {
        client_id: id.to_string(),
        company_name: company.to_string(),
        contact_name: format!("{} contact", company),
        contact_title: "Owner".to_string(),
        phone: "555-0100".to_string(),
        email: format!("mail@{}.example", company),
    }
}

fn client_record(id: &str, company: &str) -> ClientModel {
    ClientModel {
        client_id: id.to_string(),
        company_name: company.to_string(),
        contact_name: format!("{} contact", company),
        contact_title: "Owner".to_string(),
        phone: "555-0100".to_string(),
        email: format!("mail@{}.example", company),
    }
}

fn invoice_record(id: i32, client_id: &str) -> InvoiceModel {
    InvoiceModel {
        invoice_id: id,
        invoice_number: format!("INV{}", id),
        client_id: client_id.to_string(),
        invoice_date: Date { year: 2024, month: 1, day: 31 },
        due_date: Date { year: 2024, month: 2, day: 29 },
    }
}

fn item_record(item_id: i32, invoice_id: i32) -> InvoiceItemsModel {
    InvoiceItemsModel {
        item_id,
        invoice_id,
        product_id: 900 + item_id,
        description: format!("service {}", item_id),
        price_bits: (19.99f64).to_bits(),
    }
}

fn empty_store() -> DataContext {
    DataContext::init(Vec::new(), Vec::new(), Vec::new())
}

#[test]
fn seeded_client_first_invoice() {
    let mut ctx = empty_store();
    Mutation::add_client(new_client("A", "Acme"), &mut ctx);

    let v = Mutation::add_invoice_on("A".to_string(), 2024, 3, &mut ctx).expect("client exists");
    assert_eq!(v.invoice_id, 1);
    assert_eq!(v.invoice_number, "INV1");
    assert_eq!(v.client_id, "A");
    assert_eq!(v.invoice_date, Date { year: 2024, month: 3, day: 31 });
    assert_eq!(v.due_date, Date { year: 2024, month: 4, day: 30 });
    assert!(v.invoice_items.is_empty());
}

#[test]
fn added_client_found_with_empty_invoices() {
    let mut ctx = empty_store();
    let returned = Mutation::add_client(new_client("C7", "Globex"), &mut ctx);
    assert_eq!(returned.client_id, "C7");
    assert!(returned.invoices.is_empty());

    let looked_up = Query::get_client("C7".to_string(), &ctx).expect("just added");
    assert_eq!(looked_up.client_id, "C7");
    assert_eq!(looked_up.company_name, "Globex");
    assert_eq!(looked_up.contact_name, "Globex contact");
    assert_eq!(looked_up.contact_title, "Owner");
    assert_eq!(looked_up.phone, "555-0100");
    assert_eq!(looked_up.email, "mail@Globex.example");
    assert!(looked_up.invoices.is_empty());
}

#[test]
fn new_invoice_id_is_max_plus_one_and_nested() {
    let clients = vec![client_record("A", "Acme")];
    let invoices = vec![invoice_record(7, "A")];
    let mut ctx = DataContext::init(clients, invoices, Vec::new());

    let v = Mutation::add_invoice_on("A".to_string(), 2024, 5, &mut ctx).expect("client exists");
    assert_eq!(v.invoice_id, 8);
    assert_eq!(v.invoice_number, "INV8");

    let c = Query::get_client("A".to_string(), &ctx).expect("present");
    assert_eq!(c.invoices.len(), 2);
    assert_eq!(c.invoices[0].invoice_id, 7);
    assert_eq!(c.invoices[1].invoice_id, 8);
    assert_eq!(c.invoices[1].invoice_number, "INV8");
}

#[test]
fn add_invoice_unknown_client_changes_nothing() {
    let clients = vec![client_record("A", "Acme")];
    let invoices = vec![invoice_record(3, "A")];
    let mut ctx = DataContext::init(clients, invoices, Vec::new());

    let r = Mutation::add_invoice_on("missing".to_string(), 2024, 3, &mut ctx);
    assert!(r.is_none());
    assert_eq!(ctx.invoices.len(), 1);
    assert_eq!(ctx.invoices[0].invoice_id, 3);
    assert_eq!(ctx.invoices[0].invoice_number, "INV3");
    assert_eq!(ctx.invoices[0].client_id, "A");
}

#[test]
fn add_invoice_item_unknown_invoice_changes_nothing() {
    let invoices = vec![invoice_record(3, "A")];
    let items = vec![item_record(11, 3)];
    let mut ctx = DataContext::init(Vec::new(), invoices, items);

    let input = NewInvoiceItem {
        product_id: 77,
        description: "widget".to_string(),
        price_bits: (5.0f64).to_bits(),
    };
    let r = Mutation::add_invoice_item(999, input, &mut ctx);
    assert!(r.is_none());
    assert_eq!(ctx.invoice_items.len(), 1);
    assert_eq!(ctx.invoice_items[0].item_id, 11);
    assert_eq!(ctx.invoice_items[0].description, "service 11");
}

#[test]
fn add_invoice_item_allocates_and_copies_fields() {
    let invoices = vec![invoice_record(3, "A")];
    let items = vec![item_record(11, 3)];
    let mut ctx = DataContext::init(Vec::new(), invoices, items);

    let input = NewInvoiceItem {
        product_id: 77,
        description: "widget".to_string(),
        price_bits: (123.45f64).to_bits(),
    };
    let v = Mutation::add_invoice_item(3, input, &mut ctx).expect("invoice exists");
    assert_eq!(v.item_id, 12);
    assert_eq!(v.invoice_id, 3);
    assert_eq!(v.product_id, 77);
    assert_eq!(v.description, "widget");
    assert_eq!(f64::from_bits(v.price_bits), 123.45);
    assert_eq!(ctx.invoice_items.len(), 2);
    assert_eq!(ctx.invoice_items[1].item_id, 12);
}

#[test]
fn first_item_in_empty_collection_gets_seed_id() {
    let invoices = vec![invoice_record(1, "A")];
    let mut ctx = DataContext::init(Vec::new(), invoices, Vec::new());

    let input = NewInvoiceItem {
        product_id: 1,
        description: "first".to_string(),
        price_bits: (1.0f64).to_bits(),
    };
    let v = Mutation::add_invoice_item(1, input, &mut ctx).expect("invoice exists");
    assert_eq!(v.item_id, 1);
}

fn five_client_store() -> DataContext {
    let clients = vec![
        client_record("c0", "Zero"),
        client_record("c1", "One"),
        client_record("c2", "Two"),
        client_record("c3", "Three"),
        client_record("c4", "Four"),
    ];
    DataContext::init(clients, Vec::new(), Vec::new())
}

#[test]
fn list_clients_limit_and_offset() {
    let ctx = five_client_store();
    let page = Query::clients(Some(2), Some(1), &ctx);
    assert_eq!(page.len(), 2);
    assert_eq!(page[0].client_id, "c1");
    assert_eq!(page[1].client_id, "c2");
}

#[test]
fn list_clients_offset_past_end_is_empty() {
    let ctx = five_client_store();
    let page = Query::clients(None, Some(10), &ctx);
    assert!(page.is_empty());
}

#[test]
fn list_clients_defaults() {
    let ctx = five_client_store();

    let all = Query::clients(None, None, &ctx);
    assert_eq!(all.len(), 5);
    assert_eq!(all[0].client_id, "c0");
    assert_eq!(all[4].client_id, "c4");

    let first_three = Query::clients(Some(3), None, &ctx);
    assert_eq!(first_three.len(), 3);
    assert_eq!(first_three[2].client_id, "c2");

    let tail = Query::clients(None, Some(3), &ctx);
    assert_eq!(tail.len(), 2);
    assert_eq!(tail[0].client_id, "c3");

    let oversized = Query::clients(Some(100), Some(4), &ctx);
    assert_eq!(oversized.len(), 1);
    assert_eq!(oversized[0].client_id, "c4");
}

#[test]
fn list_clients_nests_invoices_and_items() {
    let clients = vec![client_record("A", "Acme"), client_record("B", "Burns")];
    let invoices = vec![invoice_record(1, "A"), invoice_record(2, "B"), invoice_record(3, "A")];
    let items = vec![item_record(1, 3), item_record(2, 1), item_record(3, 3)];
    let ctx = DataContext::init(clients, invoices, items);

    let all = Query::clients(None, None, &ctx);
    assert_eq!(all.len(), 2);

    let a = &all[0];
    assert_eq!(a.client_id, "A");
    assert_eq!(a.invoices.len(), 2);
    assert_eq!(a.invoices[0].invoice_id, 1);
    assert_eq!(a.invoices[0].invoice_items.len(), 1);
    assert_eq!(a.invoices[0].invoice_items[0].item_id, 2);
    assert_eq!(a.invoices[1].invoice_id, 3);
    assert_eq!(a.invoices[1].invoice_items.len(), 2);
    assert_eq!(a.invoices[1].invoice_items[0].item_id, 1);
    assert_eq!(a.invoices[1].invoice_items[1].item_id, 3);

    let b = &all[1];
    assert_eq!(b.invoices.len(), 1);
    assert_eq!(b.invoices[0].invoice_id, 2);
    assert_eq!(b.invoices[0].invoice_items.len(), 0);
}

#[test]
fn get_client_unknown_id_is_none() {
    let ctx = five_client_store();
    assert!(Query::get_client("nope".to_string(), &ctx).is_none());
}

#[test]
fn get_client_duplicate_id_returns_first() {
    let clients = vec![client_record("dup", "First"), client_record("dup", "Second")];
    let ctx = DataContext::init(clients, Vec::new(), Vec::new());
    let c = Query::get_client("dup".to_string(), &ctx).expect("present");
    assert_eq!(c.company_name, "First");
}

#[test]
fn queries_leave_collections_unchanged() {
    let clients = vec![client_record("A", "Acme")];
    let invoices = vec![invoice_record(1, "A")];
    let items = vec![item_record(1, 1)];
    let ctx = DataContext::init(clients, invoices, items);

    let _ = Query::clients(None, None, &ctx);
    let _ = Query::get_client("A".to_string(), &ctx);
    let _ = Query::clients(Some(1), Some(0), &ctx);

    assert_eq!(ctx.clients.len(), 1);
    assert_eq!(ctx.invoices.len(), 1);
    assert_eq!(ctx.invoice_items.len(), 1);
    assert_eq!(ctx.clients[0].company_name, "Acme");
    assert_eq!(ctx.invoices[0].invoice_number, "INV1");
    assert_eq!(ctx.invoice_items[0].description, "service 1");
}

#[test]
fn hello_world_greets() {
    assert_eq!(Query::hello_world(), "Hello, world!");
}
