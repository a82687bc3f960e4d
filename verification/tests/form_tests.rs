use invoice_rs::form::{ClientForm, InvoiceForm};
use invoice_rs::models::{Client, Invoice};

fn sample_client() -> Client {
    Client::new(1, "Ada", "555-0100", "ada@example.com", "1 Loop Rd")
}

fn sample_invoice(id: u32, total: i64) -> Invoice {
    Invoice::new(
        id,
        "INV-000001",
        &sample_client(),
        "USD",
        total,
        0,
        0,
        "draft",
        "2024-01-01",
        Vec::new(),
    )
}

#[test]
fn invoice_form_cycles_in_eight_steps() {
    let mut form = InvoiceForm::new(Vec::new());
    assert_eq!(form.field_index, 0);
    for _ in 0..8 {
        form.next_field();
    }
    assert_eq!(form.field_index, 0);
    form.next_field();
    assert_eq!(form.field_index, 1);
}

#[test]
fn client_form_cycles_in_four_steps() {
    let mut form = ClientForm::new(Vec::new());
    for _ in 0..4 {
        form.next_field();
    }
    assert_eq!(form.field_index, 0);
}

#[test]
fn append_and_backspace_replay_in_order() {
    let mut form = InvoiceForm::new(Vec::new());
    // Move the cursor to the total field (index 3).
    form.next_field();
    form.next_field();
    form.next_field();
    form.update_field('1');
    form.update_field('2');
    form.backspace();
    form.update_field('3');
    assert_eq!(form.total, "13");
    form.backspace();
    form.backspace();
    assert_eq!(form.total, "");
    // Backspace on an empty field is a no-op, never an underflow.
    form.backspace();
    assert_eq!(form.total, "");
}

#[test]
fn new_form_has_defaults() {
    let clients = vec![sample_client()];
    let form = InvoiceForm::new(clients);
    assert!(form.is_new);
    assert_eq!(form.field_index, 0);
    assert_eq!(form.currency, "USD");
    assert_eq!(form.discount, "0");
    assert_eq!(form.tax, "0");
    assert_eq!(form.status, "draft");
    assert_eq!(form.total, "");
    assert_eq!(form.client_email, "");
    assert!(form.items.is_empty());
    assert_eq!(form.code.len(), 10);
    assert!(form.code.starts_with("INV-"));
    assert!(form.code[4..].chars().all(|c| c.is_ascii_digit()));
}

#[test]
fn edit_form_shows_two_decimal_amounts() {
    let inv = sample_invoice(7, 123_450);
    let form = InvoiceForm::from_invoice(&inv, vec![sample_client()]);
    assert!(!form.is_new);
    assert_eq!(form.total, "1234.50");
    assert_eq!(form.discount, "0.00");
    assert_eq!(form.tax, "0.00");
    assert_eq!(form.code, "INV-000001");
    assert_eq!(form.client_email, "ada@example.com");
    assert_eq!(form.date, "2024-01-01");
}

#[test]
fn to_invoice_parses_and_resolves() {
    let mut form = InvoiceForm::new(vec![sample_client()]);
    form.client_email = "ada@example.com".to_string();
    form.total = "999.00".to_string();
    let inv = form.to_invoice(5).expect("conversion should succeed");
    assert_eq!(inv.id, 5);
    assert_eq!(inv.total, 99900);
    assert_eq!(inv.discount, 0);
    assert_eq!(inv.tax, 0);
    assert_eq!(inv.client.email, "ada@example.com");
    assert_eq!(inv.status, "draft");
}

#[test]
fn to_invoice_rejects_non_numeric_amount() {
    let mut form = InvoiceForm::new(vec![sample_client()]);
    form.client_email = "ada@example.com".to_string();
    form.total = "not-a-number".to_string();
    assert!(form.to_invoice(5).is_none());
}

#[test]
fn to_invoice_rejects_unknown_client() {
    let mut form = InvoiceForm::new(vec![sample_client()]);
    form.client_email = "nobody@example.com".to_string();
    form.total = "10.00".to_string();
    assert!(form.to_invoice(5).is_none());
}

#[test]
fn to_invoice_picks_first_matching_client() {
    let first = Client::new(1, "Ada", "555-0100", "dup@example.com", "1 Loop Rd");
    let second = Client::new(2, "Grace", "555-0101", "dup@example.com", "2 Loop Rd");
    let mut form = InvoiceForm::new(vec![first, second]);
    form.client_email = "dup@example.com".to_string();
    form.total = "1.00".to_string();
    let inv = form.to_invoice(9).unwrap();
    assert_eq!(inv.client.id, 1);
}

#[test]
fn client_form_round_trip() {
    let client = sample_client();
    let form = ClientForm::from_client(&client);
    let back = form.to_client(3).unwrap();
    assert_eq!(back.id, 3);
    assert_eq!(back.name, "Ada");
    assert_eq!(back.email, "ada@example.com");
    assert_eq!(back.phone, "555-0100");
    assert_eq!(back.address, "1 Loop Rd");
}

#[test]
fn client_form_edits_fields() {
    let mut form = ClientForm::new(Vec::new());
    form.update_field('A');
    form.update_field('l');
    form.backspace();
    form.update_field('d');
    form.update_field('a');
    assert_eq!(form.name, "Ada");
    form.next_field();
    form.update_field('x');
    assert_eq!(form.email, "x");
}
