use invoice_rs::app::{App, Effect, Key, Mode};
use invoice_rs::modal::{ActiveFieldForConfirm, DeferredAction, Modal, ModalType};
use invoice_rs::models::{Client, Invoice};
use invoice_rs::tabs::SelectedTab;

fn sample_client() -> Client {
    Client::new(1, "Ada", "555-0100", "ada@example.com", "1 Loop Rd")
}

fn sample_invoice(id: u32, code: &str, total: i64) -> Invoice {
    Invoice::new(
        id,
        code,
        &sample_client(),
        "USD",
        total,
        0,
        0,
        "draft",
        "2024-01-01",
        Vec::new(),
    )
}

fn two_invoice_app() -> App {
    let invoices = vec![
        sample_invoice(1, "INV-000001", 10_000),
        sample_invoice(2, "INV-000002", 20_000),
    ];
    App::with_records(invoices, vec![sample_client()])
}

/// Types the characters of `text` into the form's active field.
fn type_text(app: &mut App, text: &str) {
    for c in text.chars() {
        app.handle_key(Key::Char(c));
    }
}

#[test]
fn empty_list_navigation_is_inert() {
    let mut app = App::new();
    assert_eq!(app.selected, 0);
    app.next();
    assert_eq!(app.selected, 0);
    app.previous();
    assert_eq!(app.selected, 0);
    assert_eq!(app.selected_invoice().code, "empty_invoice");
}

#[test]
fn navigation_clamps_at_both_ends() {
    let mut app = two_invoice_app();
    app.previous();
    assert_eq!(app.selected, 0);
    app.next();
    assert_eq!(app.selected, 1);
    app.next();
    assert_eq!(app.selected, 1);
    app.previous();
    assert_eq!(app.selected, 0);
}

#[test]
fn save_flow_updates_selected_invoice() {
    let mut app = two_invoice_app();
    app.next();
    assert_eq!(app.selected, 1);
    app.handle_key(Key::Char('e'));
    assert_eq!(app.mode, Mode::Editing);
    // Move the cursor to the total field and retype it as 999.00.
    app.handle_key(Key::Tab);
    app.handle_key(Key::Tab);
    app.handle_key(Key::Tab);
    for _ in 0..12 {
        app.handle_key(Key::Backspace);
    }
    type_text(&mut app, "999.00");
    app.handle_key(Key::Enter);
    assert_eq!(app.mode, Mode::Modal(ModalType::Confirm));
    let modal = app.modal.as_ref().expect("confirm modal should be open");
    assert_eq!(modal.active, ActiveFieldForConfirm::Cancel);
    assert_eq!(modal.action, DeferredAction::SaveForm);
    assert_eq!(modal.invoice_id, Some(2));
    app.handle_key(Key::Tab);
    assert_eq!(
        app.modal.as_ref().unwrap().active,
        ActiveFieldForConfirm::Confirm
    );
    let effect = app.handle_key(Key::Enter);
    assert!(matches!(effect, Effect::Nothing));
    assert_eq!(app.invoices.len(), 2);
    assert_eq!(app.invoices[1].total, 99_900);
    assert_eq!(app.invoices[1].id, 2);
    assert_eq!(app.mode, Mode::Normal);
    assert!(app.form.is_none());
    assert!(app.modal.is_none());
}

#[test]
fn create_flow_appends_with_next_id() {
    let mut app = two_invoice_app();
    app.handle_key(Key::Char('n'));
    assert_eq!(app.mode, Mode::Editing);
    // Field 1 is the client email, field 3 the total.
    app.handle_key(Key::Tab);
    type_text(&mut app, "ada@example.com");
    app.handle_key(Key::Tab);
    app.handle_key(Key::Tab);
    type_text(&mut app, "10.00");
    app.handle_key(Key::Enter);
    app.handle_key(Key::Tab);
    let effect = app.handle_key(Key::Enter);
    assert_eq!(app.invoices.len(), 3);
    assert_eq!(app.invoices[2].id, 3);
    assert_eq!(app.invoices[2].total, 1_000);
    match effect {
        Effect::Persist(inv) => {
            assert_eq!(inv.id, 3);
            assert_eq!(inv.total, 1_000);
        }
        other => panic!("expected a persistence intent, got {:?}", other),
    }
}

#[test]
fn non_numeric_amount_keeps_form_open_and_list_unchanged() {
    let mut app = two_invoice_app();
    app.handle_key(Key::Char('n'));
    app.handle_key(Key::Tab);
    type_text(&mut app, "ada@example.com");
    app.handle_key(Key::Tab);
    app.handle_key(Key::Tab);
    type_text(&mut app, "oops");
    app.handle_key(Key::Enter);
    app.handle_key(Key::Tab);
    let effect = app.handle_key(Key::Enter);
    assert!(matches!(effect, Effect::Nothing));
    assert_eq!(app.invoices.len(), 2);
    assert_eq!(app.invoices[0].total, 10_000);
    assert_eq!(app.invoices[1].total, 20_000);
    assert_eq!(app.mode, Mode::Editing);
    assert!(app.form.is_some());
}

#[test]
fn unknown_client_reference_keeps_list_unchanged() {
    let mut app = two_invoice_app();
    app.handle_key(Key::Char('n'));
    app.handle_key(Key::Tab);
    type_text(&mut app, "nobody@example.com");
    app.handle_key(Key::Tab);
    app.handle_key(Key::Tab);
    type_text(&mut app, "10.00");
    app.handle_key(Key::Enter);
    app.handle_key(Key::Tab);
    app.handle_key(Key::Enter);
    assert_eq!(app.invoices.len(), 2);
    assert_eq!(app.mode, Mode::Editing);
}

#[test]
fn cancel_on_confirm_modal_abandons_edit() {
    let mut app = two_invoice_app();
    app.handle_key(Key::Char('e'));
    app.handle_key(Key::Enter);
    assert_eq!(app.mode, Mode::Modal(ModalType::Confirm));
    // Focus starts on Cancel; pressing Enter closes without committing.
    let effect = app.handle_key(Key::Enter);
    assert!(matches!(effect, Effect::Nothing));
    assert_eq!(app.mode, Mode::Normal);
    assert!(app.modal.is_none());
    assert_eq!(app.invoices[0].total, 10_000);
}

#[test]
fn escape_closes_confirm_modal() {
    let mut app = two_invoice_app();
    app.handle_key(Key::Char('e'));
    app.handle_key(Key::Enter);
    app.handle_key(Key::Esc);
    assert_eq!(app.mode, Mode::Normal);
    assert!(app.modal.is_none());
}

#[test]
fn escape_in_editing_discards_form() {
    let mut app = two_invoice_app();
    app.handle_key(Key::Char('e'));
    assert!(app.form.is_some());
    app.handle_key(Key::Esc);
    assert_eq!(app.mode, Mode::Normal);
    assert!(app.form.is_none());
    assert_eq!(app.invoices.len(), 2);
}

#[test]
fn quit_keys_report_quit() {
    let mut app = two_invoice_app();
    assert!(matches!(app.handle_key(Key::Char('q')), Effect::Quit));
    assert!(matches!(app.handle_key(Key::Esc), Effect::Quit));
}

#[test]
fn export_reports_selected_invoice() {
    let mut app = two_invoice_app();
    app.next();
    match app.handle_key(Key::Char('p')) {
        Effect::Export(inv) => assert_eq!(inv.code, "INV-000002"),
        other => panic!("expected an export effect, got {:?}", other),
    }
}

#[test]
fn tab_keys_change_tab_in_normal_mode() {
    let mut app = two_invoice_app();
    assert_eq!(app.current_tab, SelectedTab::TabInvoices);
    app.handle_key(Key::Right);
    assert_eq!(app.current_tab, SelectedTab::TabClients);
    app.handle_key(Key::Right);
    assert_eq!(app.current_tab, SelectedTab::TabClients);
    app.handle_key(Key::Left);
    assert_eq!(app.current_tab, SelectedTab::TabInvoices);
    app.handle_key(Key::Left);
    assert_eq!(app.current_tab, SelectedTab::TabInvoices);
}

#[test]
fn start_edit_on_empty_list_edits_sentinel() {
    let mut app = App::new();
    app.handle_key(Key::Char('e'));
    assert_eq!(app.mode, Mode::Editing);
    let form = app.form.as_ref().unwrap();
    assert_eq!(form.code, "empty_invoice");
    assert_eq!(form.total, "0.00");
}

#[test]
fn net_total_is_total_minus_discount_plus_tax() {
    let mut inv = sample_invoice(1, "INV-000001", 10_000);
    inv.discount = 1_500;
    inv.tax = 300;
    assert_eq!(inv.calculate_net_total(), 8_800);
}

#[test]
fn alert_modal_acknowledges_on_any_key() {
    let mut app = two_invoice_app();
    app.mode = Mode::Modal(ModalType::Alert);
    app.modal = Some(Modal::new(
        None,
        "heads up".to_string(),
        ModalType::Alert,
        DeferredAction::NoAction,
    ));
    let effect = app.handle_key(Key::Char('x'));
    assert!(matches!(effect, Effect::Nothing));
    assert_eq!(app.mode, Mode::Normal);
    assert!(app.modal.is_none());
}

#[test]
fn confirm_with_no_pending_form_closes_cleanly() {
    let mut app = two_invoice_app();
    app.mode = Mode::Modal(ModalType::Confirm);
    app.modal = Some(Modal::new(
        Some(1),
        "Are you sure you want to save this invoice?".to_string(),
        ModalType::Confirm,
        DeferredAction::SaveForm,
    ));
    app.handle_key(Key::Tab);
    let effect = app.handle_key(Key::Enter);
    assert!(matches!(effect, Effect::Nothing));
    assert_eq!(app.mode, Mode::Normal);
    assert!(app.modal.is_none());
    assert_eq!(app.invoices.len(), 2);
}
