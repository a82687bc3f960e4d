use invoice_rs::ident::generate_unique_id;
use invoice_rs::modal::{ActiveFieldForConfirm, DeferredAction, Modal, ModalType};
use invoice_rs::models::{Client, Invoice, Item};
use invoice_rs::splash::SplashScreen;
use invoice_rs::tabs::SelectedTab;

#[test]
fn modal_opens_focused_on_cancel() {
    let modal = Modal::new(
        Some(4),
        "Are you sure?".to_string(),
        ModalType::Confirm,
        DeferredAction::SaveForm,
    );
    assert_eq!(modal.active, ActiveFieldForConfirm::Cancel);
    assert_eq!(modal.invoice_id, Some(4));
    assert_eq!(modal.kind, ModalType::Confirm);
}

#[test]
fn modal_focus_toggles() {
    let mut modal = Modal::new(
        None,
        "?".to_string(),
        ModalType::Confirm,
        DeferredAction::NoAction,
    );
    modal.next_field();
    assert_eq!(modal.active, ActiveFieldForConfirm::Confirm);
    modal.next_field();
    assert_eq!(modal.active, ActiveFieldForConfirm::Cancel);
}

#[test]
fn modal_press_runs_action_only_on_confirm_focus() {
    let mut modal = Modal::new(
        None,
        "?".to_string(),
        ModalType::Confirm,
        DeferredAction::SaveForm,
    );
    assert_eq!(modal.press_field(), DeferredAction::NoAction);
    modal.next_field();
    assert_eq!(modal.press_field(), DeferredAction::SaveForm);
}

#[test]
fn modal_press_without_action_is_harmless() {
    let mut modal = Modal::new(
        None,
        "?".to_string(),
        ModalType::Confirm,
        DeferredAction::NoAction,
    );
    modal.next_field();
    assert_eq!(modal.press_field(), DeferredAction::NoAction);
}

#[test]
fn tabs_clamp_at_both_ends() {
    assert_eq!(
        SelectedTab::TabInvoices.previous(),
        SelectedTab::TabInvoices
    );
    assert_eq!(SelectedTab::TabInvoices.next(), SelectedTab::TabClients);
    assert_eq!(SelectedTab::TabClients.next(), SelectedTab::TabClients);
    assert_eq!(SelectedTab::TabClients.previous(), SelectedTab::TabInvoices);
    assert_eq!(SelectedTab::default(), SelectedTab::TabInvoices);
}

#[test]
fn unique_id_is_six_fresh_digits() {
    let existing = vec!["278532".to_string(), "000000".to_string()];
    for _ in 0..32 {
        let id = generate_unique_id(&existing);
        assert_eq!(id.len(), 6);
        assert!(id.chars().all(|c| c.is_ascii_digit()));
        assert!(!existing.contains(&id));
    }
}

#[test]
fn sentinel_records_are_well_formed() {
    let inv = Invoice::default();
    assert_eq!(inv.code, "empty_invoice");
    assert_eq!(inv.id, 0);
    assert_eq!(inv.total, 0);
    assert!(inv.items.is_empty());
    let client = Client::default();
    assert_eq!(client.name, "empty_client");
    assert_eq!(client.id, 0);
}

#[test]
fn item_constructor_keeps_attributes() {
    let item = Item::new("consulting", Some(12_500), Some(3), Some("rush".to_string()));
    assert_eq!(item.id, 1);
    assert_eq!(item.title, "consulting");
    assert_eq!(item.price, Some(12_500));
    assert_eq!(item.quantity, Some(3));
    assert_eq!(item.remark.as_deref(), Some("rush"));
}

#[test]
fn splash_starts_running() {
    let splash = SplashScreen::new();
    assert!(!splash.is_done());
    assert!(SplashScreen::still_running(0));
    assert!(SplashScreen::still_running(3000));
    assert!(!SplashScreen::still_running(3001));
}
