use invoice_store::date::{Date, days_in_month, due_date, leap_year, month_end};
use invoice_store::db::DataContext;
use invoice_store::models::ClientModel;
use invoice_store::mutation::Mutation;

fn one_client() -> DataContext {
    let clients = vec![ClientModel {
        client_id: "A".to_string(),
        company_name: "Acme".to_string(),
        contact_name: "Ann".to_string(),
        contact_title: "Owner".to_string(),
        phone: "555-0100".to_string(),
        email: "ann@acme.example".to_string(),
    }];
    DataContext::init(clients, Vec::new(), Vec::new())
}

#[test]
fn leap_year_rule() {
    assert!(leap_year(2024));
    assert!(!leap_year(2023));
    assert!(!leap_year(1900));
    assert!(leap_year(2000));
}

#[test]
fn month_lengths() {
    assert_eq!(days_in_month(2024, 2), 29);
    assert_eq!(days_in_month(2023, 2), 28);
    assert_eq!(days_in_month(2024, 4), 30);
    assert_eq!(days_in_month(2024, 12), 31);
}

#[test]
fn month_end_and_due_date() {
    assert_eq!(month_end(2024, 3), Date { year: 2024, month: 3, day: 31 });
    assert_eq!(due_date(2024, 3), Date { year: 2024, month: 4, day: 30 });
    assert_eq!(due_date(2024, 1), Date { year: 2024, month: 2, day: 29 });
    assert_eq!(due_date(2023, 1), Date { year: 2023, month: 2, day: 28 });
}

#[test]
fn december_invoice_rolls_into_next_year() {
    let mut ctx = one_client();
    let v = Mutation::add_invoice_on("A".to_string(), 2024, 12, &mut ctx).expect("client exists");
    assert_eq!(v.invoice_date, Date { year: 2024, month: 12, day: 31 });
    assert_eq!(v.due_date, Date { year: 2025, month: 1, day: 31 });
}

#[test]
fn february_invoice_respects_leap_years() {
    let mut ctx = one_client();
    let v = Mutation::add_invoice_on("A".to_string(), 2024, 2, &mut ctx).expect("client exists");
    assert_eq!(v.invoice_date, Date { year: 2024, month: 2, day: 29 });
    assert_eq!(v.due_date, Date { year: 2024, month: 3, day: 31 });

    let w = Mutation::add_invoice_on("A".to_string(), 2023, 2, &mut ctx).expect("client exists");
    assert_eq!(w.invoice_date, Date { year: 2023, month: 2, day: 28 });
}

#[test]
fn wall_clock_invoice_is_well_formed() {
    let mut ctx = one_client();
    let v = Mutation::add_invoice("A".to_string(), &mut ctx).expect("client exists");
    assert_eq!(v.invoice_id, 1);
    assert_eq!(v.invoice_number, "INV1");
    // Whatever the clock said, the derived dates are month ends.
    assert!((1..=12).contains(&v.invoice_date.month));
    assert_eq!(v.invoice_date.day, days_in_month(v.invoice_date.year, v.invoice_date.month));
    assert_eq!(v.due_date.day, days_in_month(v.due_date.year, v.due_date.month));
}

#[test]
fn consecutive_invoices_get_consecutive_ids() {
    let mut ctx = one_client();
    let a = Mutation::add_invoice_on("A".to_string(), 2024, 6, &mut ctx).expect("client exists");
    let b = Mutation::add_invoice_on("A".to_string(), 2024, 6, &mut ctx).expect("client exists");
    let c = Mutation::add_invoice_on("A".to_string(), 2024, 6, &mut ctx).expect("client exists");
    assert_eq!(a.invoice_id, 1);
    assert_eq!(b.invoice_id, 2);
    assert_eq!(c.invoice_id, 3);
}
