//! The application state machine: the mode (Normal / Editing / Modal) that
//! gates which input reaches which component, the navigation cursors, and
//! the save flow that commits a form to the record list.
//!
//! The store and the renderer stay outside: committing a freshly created
//! record yields the record as a persistence intent for the caller to
//! write through, and every other outside effect is reported the same way
//! through [`Effect`].

use vstd::prelude::*;
use vstd::pervasive::VecAdditionalExecFns;

use crate::form::{
    apply_edit, conversion_ok, edit_form_shape, matches_form, new_form_shape, EditOp, InvoiceForm,
    INVOICE_FIELDS,
};
use crate::modal::{toggled, DeferredAction, Modal, ModalType};
use crate::models::{clone_clients, inv_like, Client, Invoice};
use crate::tabs::{tab_next, tab_previous, SelectedTab};

verus! {

/// The top-level state of the interactive session.
#[derive(Clone, Copy, Debug, PartialEq, Eq)]
pub enum Mode {
    Normal,
    Editing,
    Modal(ModalType),
}

/// A logical input event, one per key press.
#[derive(Clone, Copy, Debug, PartialEq, Eq)]
pub enum Key {
    Up,
    Down,
    Left,
    Right,
    Tab,
    Enter,
    Backspace,
    Esc,
    Char(char),
}

/// What the caller must do after a step: nothing, quit, write a freshly
/// created record through to the store, or export the given record.
#[derive(Debug)]
pub enum Effect {
    Nothing,
    Quit,
    Persist(Invoice),
    Export(Invoice),
}

/// The interactive application state.
pub struct App {
    pub invoices: Vec<Invoice>,
    pub clients: Vec<Client>,
    pub selected: usize,
    pub mode: Mode,
    pub current_tab: SelectedTab,
    pub form: Option<InvoiceForm>,
    pub modal: Option<Modal>,
    pub empty_invoice: Invoice,
    pub empty_client: Client,
}

/// The record under the cursor, or the sentinel when the cursor is out of
/// the list.
pub open spec fn sel_inv(a: App) -> Invoice {
    if (a.selected as int) < a.invoices@.len() {
        a.invoices@[a.selected as int]
    } else {
        a.empty_invoice
    }
}

/// Moving the record cursor down, clamped at the end of the list.
pub open spec fn nav_next_t(pre: App, post: App) -> bool {
    post == (App {
        selected: if pre.selected + 1 < pre.invoices@.len() {
            (pre.selected + 1) as usize
        } else {
            pre.selected
        },
        ..pre
    })
}

/// Moving the record cursor up, clamped at the start of the list.
pub open spec fn nav_previous_t(pre: App, post: App) -> bool {
    post == (App {
        selected: if pre.selected > 0 {
            (pre.selected - 1) as usize
        } else {
            0usize
        },
        ..pre
    })
}

/// Moving to the next tab, clamped at the last.
pub open spec fn tab_next_t(pre: App, post: App) -> bool {
    post == (App { current_tab: tab_next(pre.current_tab), ..pre })
}

/// Moving to the previous tab, clamped at the first.
pub open spec fn tab_previous_t(pre: App, post: App) -> bool {
    post == (App { current_tab: tab_previous(pre.current_tab), ..pre })
}

/// Entering edit mode with a fresh new-record form.
pub open spec fn start_new_t(pre: App, post: App) -> bool {
    &&& post.form matches Some(f) && new_form_shape(f, pre.clients@) && f.wf()
    &&& post == (App { mode: Mode::Editing, form: post.form, ..pre })
}

/// Entering edit mode with a form pre-populated from the selected record.
pub open spec fn start_edit_t(pre: App, post: App) -> bool {
    &&& post.form matches Some(f) && edit_form_shape(f, sel_inv(pre), pre.clients@) && f.wf()
    &&& post == (App { mode: Mode::Editing, form: post.form, ..pre })
}

/// Opening the save-confirmation modal over the pending form.
pub open spec fn open_save_modal_t(pre: App, post: App) -> bool {
    &&& post.modal matches Some(m) && m.kind is Confirm && m.active is Cancel
        && m.action is SaveForm && m.invoice_id == Some(sel_inv(pre).id) && m.content@
        == "Are you sure you want to save this invoice?"@
    &&& post == (App { mode: Mode::Modal(ModalType::Confirm), modal: post.modal, ..pre })
}

/// Leaving modal mode.  Abandoning the confirmation abandons the pending
/// edit as well: the form is discarded, not reopened.
pub open spec fn close_modals_t(pre: App, post: App) -> bool {
    post == (App { mode: Mode::Normal, modal: None, form: None, ..pre })
}

/// Discarding the form without committing.
pub open spec fn cancel_form_t(pre: App, post: App) -> bool {
    post == (App { mode: Mode::Normal, form: None, ..pre })
}

/// Toggling the focus of the open modal.
pub open spec fn modal_toggle_t(pre: App, post: App) -> bool {
    match pre.modal {
        Some(m) => post == (App { modal: Some(Modal { active: toggled(m.active), ..m }), ..pre }),
        None => post == pre,
    }
}

/// Advancing the form's field cursor.
pub open spec fn form_next_field_t(pre: App, post: App) -> bool {
    match pre.form {
        Some(f) => post == (App {
            form: Some(InvoiceForm {
                field_index: ((f.field_index + 1) % (INVOICE_FIELDS as int)) as usize,
                ..f
            }),
            ..pre
        }),
        None => post == pre,
    }
}

/// Appending one character to the form's active field.
pub open spec fn form_update_t(pre: App, post: App, c: char) -> bool {
    match pre.form {
        Some(f) => {
            &&& post.form matches Some(g) && g.field_index == f.field_index && g.items == f.items
                && g.clients == f.clients && g.is_new == f.is_new
            &&& (f.field_index < INVOICE_FIELDS ==> post.form->Some_0.fields() == f.fields().update(
                f.field_index as int,
                apply_edit(f.fields()[f.field_index as int], EditOp::Append(c)),
            ))
            &&& (f.field_index >= INVOICE_FIELDS ==> post.form->Some_0.fields() == f.fields())
            &&& post == (App { form: post.form, ..pre })
        },
        None => post == pre,
    }
}

/// Removing the last character of the form's active field.
pub open spec fn form_backspace_t(pre: App, post: App) -> bool {
    match pre.form {
        Some(f) => {
            &&& post.form matches Some(g) && g.field_index == f.field_index && g.items == f.items
                && g.clients == f.clients && g.is_new == f.is_new
            &&& (f.field_index < INVOICE_FIELDS ==> post.form->Some_0.fields() == f.fields().update(
                f.field_index as int,
                apply_edit(f.fields()[f.field_index as int], EditOp::Backspace),
            ))
            &&& (f.field_index >= INVOICE_FIELDS ==> post.form->Some_0.fields() == f.fields())
            &&& post == (App { form: post.form, ..pre })
        },
        None => post == pre,
    }
}

/// Committing the pending form.
///
/// With no form, the transition only returns to Normal mode.  With a form
/// that fails validation, nothing changes but the mode, which returns to
/// Editing: the form stays open.  A valid form either replaces the record
/// under the cursor (editing an existing record) or is appended under the
/// next positional identifier; only an appended record is handed out as a
/// persistence intent.  A list that has no positional identifier left is
/// treated like a failed validation: nothing is committed and the form
/// stays open.  The modal, if any, is closed.
pub open spec fn save_transition(pre: App, post: App, w: Option<Invoice>) -> bool {
    match pre.form {
        None => {
            &&& post == (App { mode: Mode::Normal, form: None, modal: None, ..pre })
            &&& w is None
        },
        Some(f) => {
            let upd = !f.is_new && (pre.selected as int) < pre.invoices@.len();
            let id: u32 = if upd {
                pre.invoices@[pre.selected as int].id
            } else {
                (pre.invoices@.len() + 1) as u32
            };
            let can_store = conversion_ok(f) && (upd || pre.invoices@.len() + 1 < u32::MAX as int);
            if !can_store {
                &&& post == (App { mode: Mode::Editing, modal: None, ..pre })
                &&& w is None
            } else if upd {
                &&& matches_form(post.invoices@[pre.selected as int], f, id)
                &&& post.invoices@ == pre.invoices@.update(
                    pre.selected as int,
                    post.invoices@[pre.selected as int],
                )
                &&& post == (App {
                    invoices: post.invoices,
                    mode: Mode::Normal,
                    form: None,
                    modal: None,
                    ..pre
                })
                &&& w is None
            } else {
                &&& post.invoices@.len() == pre.invoices@.len() + 1
                &&& matches_form(post.invoices@.last(), f, id)
                &&& post.invoices@ == pre.invoices@.push(post.invoices@.last())
                &&& post == (App {
                    invoices: post.invoices,
                    mode: Mode::Normal,
                    form: None,
                    modal: None,
                    ..pre
                })
                &&& (w matches Some(wi) && inv_like(wi, post.invoices@.last()))
            }
        },
    }
}

/// Pressing the focused button of the open modal: the deferred action runs
/// if and only if Confirm holds the focus, and the modal closes in every
/// case.
pub open spec fn press_transition(pre: App, post: App, w: Option<Invoice>) -> bool {
    match pre.modal {
        None => post == pre && w is None,
        Some(m) => {
            if m.active is Confirm && m.action is SaveForm {
                save_transition(App { modal: None, ..pre }, post, w)
            } else {
                &&& post == (App { mode: Mode::Normal, modal: None, form: None, ..pre })
                &&& w is None
            }
        },
    }
}

/// A submitted form whose amount field does not parse, or whose client
/// reference matches no known client, commits nothing: the record list is
/// untouched, the form stays open, and the mode returns to Editing.
pub proof fn lemma_failed_submit_changes_nothing(pre: App, post: App, w: Option<Invoice>)
    requires
        save_transition(pre, post, w),
        pre.form matches Some(f) && (!crate::amount::amount_valid(f.total@)
            || crate::form::first_client_match(f.clients@, f.client_email@) < 0),
    ensures
        post.invoices == pre.invoices,
        post.mode is Editing,
        post.form == pre.form,
        w is None,
{
}

/// On an empty record list the navigation steps never move the cursor,
/// and the selected record is the sentinel empty record.
pub proof fn lemma_empty_list_selection(pre: App, post: App)
    requires
        pre.wf(),
        pre.invoices@.len() == 0,
    ensures
        nav_next_t(pre, post) ==> post.selected == pre.selected,
        nav_previous_t(pre, post) ==> post.selected == pre.selected,
        sel_inv(pre) == pre.empty_invoice,
{
}

impl App {
    /// The record lists and cursors are sound: the selection is in bounds
    /// (or zero on an empty list), every record and the sentinel lie in
    /// the representable amount range, the list is small enough for
    /// positional identifiers, and a pending form has a sound cursor.
    pub open spec fn records_wf(&self) -> bool {
        &&& self.invoices@.len() < u32::MAX as int
        &&& (self.invoices@.len() == 0 ==> self.selected == 0)
        &&& (self.invoices@.len() > 0 ==> (self.selected as int) < self.invoices@.len())
        &&& (forall|i: int|
            0 <= i < self.invoices@.len() ==> (#[trigger] self.invoices@[i]).wf())
        &&& self.empty_invoice.wf()
        &&& (match self.form {
            Some(f) => f.wf(),
            None => true,
        })
    }

    /// The mode and its payload agree: Editing implies a pending form, a
    /// modal is present exactly in modal mode and of the mode's kind, and
    /// Normal mode carries no form.
    pub open spec fn mode_wf(&self) -> bool {
        &&& (self.mode is Editing ==> self.form is Some)
        &&& (self.mode is Normal ==> self.form is None)
        &&& (match self.mode {
            Mode::Modal(k) => self.modal matches Some(m) && m.kind == k,
            _ => self.modal is None,
        })
    }

    /// The full invariant of the application state.
    pub open spec fn wf(&self) -> bool {
        self.records_wf() && self.mode_wf()
    }

    /// Starts with empty in-memory lists: the ephemeral state the
    /// application degrades to when the store is unavailable.  The caller
    /// loads records, if it has any, through [`App::with_records`].
    pub fn new() -> (a: App)
        ensures
            a.wf(),
            a.invoices@.len() == 0,
            a.clients@.len() == 0,
            a.selected == 0,
            a.mode is Normal,
            a.current_tab is TabInvoices,
            a.form is None,
            a.modal is None,
            a.empty_invoice.code@ == "empty_invoice"@,
            a.empty_invoice.id == 0,
            a.empty_client.name@ == "empty_client"@,
    {
        App {
            invoices: Vec::new(),
            clients: Vec::new(),
            selected: 0,
            mode: Mode::Normal,
            current_tab: SelectedTab::default(),
            form: None,
            modal: None,
            empty_invoice: Invoice::default(),
            empty_client: Client::default(),
        }
    }

    /// Starts with the given records, as loaded wholesale from the store.
    pub fn with_records(invoices: Vec<Invoice>, clients: Vec<Client>) -> (a: App)
        requires
            invoices@.len() < u32::MAX as int,
            forall|i: int| 0 <= i < invoices@.len() ==> (#[trigger] invoices@[i]).wf(),
        ensures
            a.wf(),
            a.invoices == invoices,
            a.clients == clients,
            a.selected == 0,
            a.mode is Normal,
            a.current_tab is TabInvoices,
            a.form is None,
            a.modal is None,
            a.empty_invoice.code@ == "empty_invoice"@,
            a.empty_invoice.id == 0,
            a.empty_client.name@ == "empty_client"@,
    {
        App {
            invoices,
            clients,
            selected: 0,
            mode: Mode::Normal,
            current_tab: SelectedTab::default(),
            form: None,
            modal: None,
            empty_invoice: Invoice::default(),
            empty_client: Client::default(),
        }
    }

    /// Moves to the next tab.
    pub fn next_tab(&mut self)
        ensures
            tab_next_t(*old(self), *final(self)),
    {
        self.current_tab = self.current_tab.next();
    }

    /// Moves to the previous tab.
    pub fn previous_tab(&mut self)
        ensures
            tab_previous_t(*old(self), *final(self)),
    {
        self.current_tab = self.current_tab.previous();
    }

    /// Moves the record cursor down; clamps at the end of the list.
    pub fn next(&mut self)
        requires
            old(self).wf(),
        ensures
            final(self).wf(),
            nav_next_t(*old(self), *final(self)),
    {
        if self.selected + 1 < self.invoices.len() {
            self.selected = self.selected + 1;
        }
    }

    /// Moves the record cursor up; clamps at the start of the list.
    pub fn previous(&mut self)
        requires
            old(self).wf(),
        ensures
            final(self).wf(),
            nav_previous_t(*old(self), *final(self)),
    {
        if self.selected > 0 {
            self.selected = self.selected - 1;
        }
    }

    /// The record under the cursor; the sentinel empty record when the
    /// list is empty, never a failure.
    pub fn selected_invoice(&self) -> (r: &Invoice)
        ensures
            *r == sel_inv(*self),
    {
        if self.selected < self.invoices.len() {
            &self.invoices[self.selected]
        } else {
            &self.empty_invoice
        }
    }

    /// Opens a fresh new-record form and enters edit mode.
    pub fn start_new(&mut self)
        requires
            old(self).wf(),
            old(self).mode is Normal,
        ensures
            final(self).wf(),
            start_new_t(*old(self), *final(self)),
    {
        let clients = clone_clients(&self.clients);
        self.mode = Mode::Editing;
        self.form = Some(InvoiceForm::new(clients));
    }

    /// Opens a form pre-populated from the selected record and enters edit
    /// mode.
    pub fn start_edit(&mut self)
        requires
            old(self).wf(),
            old(self).mode is Normal,
        ensures
            final(self).wf(),
            start_edit_t(*old(self), *final(self)),
    {
        let clients = clone_clients(&self.clients);
        let form = InvoiceForm::from_invoice(self.selected_invoice(), clients);
        self.mode = Mode::Editing;
        self.form = Some(form);
    }

    /// Opens the save-confirmation modal over the pending form; its
    /// deferred action is to commit that form.
    pub fn open_save_modal(&mut self)
        requires
            old(self).wf(),
            old(self).mode is Editing,
        ensures
            final(self).wf(),
            open_save_modal_t(*old(self), *final(self)),
    {
        let invoice_id = self.selected_invoice().id;
        let content = "Are you sure you want to save this invoice?".to_owned();
        self.mode = Mode::Modal(ModalType::Confirm);
        self.modal = Some(
            Modal::new(Some(invoice_id), content, ModalType::Confirm, DeferredAction::SaveForm),
        );
    }

    /// Closes any open modal and returns to Normal mode; a pending edit is
    /// abandoned with it.
    pub fn close_modals(&mut self)
        requires
            old(self).wf(),
        ensures
            final(self).wf(),
            close_modals_t(*old(self), *final(self)),
    {
        self.mode = Mode::Normal;
        self.modal = None;
        self.form = None;
    }

    /// Discards the pending form without committing.
    pub fn cancel_form(&mut self)
        requires
            old(self).wf(),
            old(self).mode is Editing,
        ensures
            final(self).wf(),
            cancel_form_t(*old(self), *final(self)),
    {
        self.mode = Mode::Normal;
        self.form = None;
    }

    /// Commits the pending form: replaces the record under the cursor when
    /// editing an existing record, appends under a fresh positional
    /// identifier otherwise.  A form that fails validation stays open and
    /// changes nothing else.  Returns the appended record as a persistence
    /// intent for the caller to write through to the store.
    pub fn save_form(&mut self) -> (w: Option<Invoice>)
        requires
            old(self).records_wf(),
        ensures
            final(self).wf(),
            save_transition(*old(self), *final(self), w),
    {
        self.modal = None;
        if self.form.is_none() {
            self.mode = Mode::Normal;
            self.form = None;
            return None;
        }
        let upd = match &self.form {
            Some(f) => !f.is_new && self.selected < self.invoices.len(),
            None => false,
        };
        if !upd && !(self.invoices.len() < (u32::MAX - 1) as usize) {
            self.mode = Mode::Editing;
            return None;
        }
        let id: u32 = if upd {
            self.invoices[self.selected].id
        } else {
            (self.invoices.len() + 1) as u32
        };
        let converted = match &self.form {
            Some(f) => f.to_invoice(id),
            None => None,
        };
        match converted {
            Some(inv) => {
                if upd {
                    self.invoices.set(self.selected, inv);
                    self.mode = Mode::Normal;
                    self.form = None;
                    None
                } else {
                    let intent = inv.clone();
                    self.invoices.push(inv);
                    self.mode = Mode::Normal;
                    self.form = None;
                    Some(intent)
                }
            },
            None => {
                self.mode = Mode::Editing;
                None
            },
        }
    }

    /// Presses the focused button of the open modal: runs the deferred
    /// commit when Confirm holds the focus, then closes the modal.
    pub fn press_modal(&mut self) -> (w: Option<Invoice>)
        requires
            old(self).wf(),
        ensures
            final(self).wf(),
            press_transition(*old(self), *final(self), w),
    {
        let action = match &self.modal {
            Some(m) => m.press_field(),
            None => {
                return None;
            },
        };
        match action {
            DeferredAction::SaveForm => self.save_form(),
            DeferredAction::NoAction => {
                self.modal = None;
                self.mode = Mode::Normal;
                self.form = None;
                None
            },
        }
    }

    /// Dispatches one input event according to the current mode, and
    /// reports what the caller must do next.
    pub fn handle_key(&mut self, k: Key) -> (e: Effect)
        requires
            old(self).wf(),
        ensures
            final(self).wf(),
            old(self).mode is Normal ==> match k {
                Key::Esc => *final(self) == *old(self) && e is Quit,
                Key::Down => nav_next_t(*old(self), *final(self)) && e is Nothing,
                Key::Up => nav_previous_t(*old(self), *final(self)) && e is Nothing,
                Key::Right => tab_next_t(*old(self), *final(self)) && e is Nothing,
                Key::Left => tab_previous_t(*old(self), *final(self)) && e is Nothing,
                Key::Char(c) => {
                    if c == 'q' {
                        *final(self) == *old(self) && e is Quit
                    } else if c == 'n' {
                        start_new_t(*old(self), *final(self)) && e is Nothing
                    } else if c == 'e' {
                        start_edit_t(*old(self), *final(self)) && e is Nothing
                    } else if c == 'p' {
                        &&& *final(self) == *old(self)
                        &&& e matches Effect::Export(v) && inv_like(v, sel_inv(*old(self)))
                    } else {
                        *final(self) == *old(self) && e is Nothing
                    }
                },
                _ => *final(self) == *old(self) && e is Nothing,
            },
            old(self).mode is Editing ==> match k {
                Key::Esc => cancel_form_t(*old(self), *final(self)) && e is Nothing,
                Key::Enter => open_save_modal_t(*old(self), *final(self)) && e is Nothing,
                Key::Tab => form_next_field_t(*old(self), *final(self)) && e is Nothing,
                Key::Backspace => form_backspace_t(*old(self), *final(self)) && e is Nothing,
                Key::Char(c) => form_update_t(*old(self), *final(self), c) && e is Nothing,
                _ => *final(self) == *old(self) && e is Nothing,
            },
            old(self).mode == Mode::Modal(ModalType::Alert) ==> close_modals_t(
                *old(self),
                *final(self),
            ) && e is Nothing,
            old(self).mode == Mode::Modal(ModalType::Confirm) ==> match k {
                Key::Tab => modal_toggle_t(*old(self), *final(self)) && e is Nothing,
                Key::Esc => close_modals_t(*old(self), *final(self)) && e is Nothing,
                Key::Enter => match e {
                    Effect::Persist(wi) => press_transition(*old(self), *final(self), Some(wi)),
                    Effect::Nothing => press_transition(*old(self), *final(self), None),
                    _ => false,
                },
                _ => *final(self) == *old(self) && e is Nothing,
            },
    {
        match self.mode {
            Mode::Normal => match k {
                Key::Esc => Effect::Quit,
                Key::Down => {
                    self.next();
                    Effect::Nothing
                },
                Key::Up => {
                    self.previous();
                    Effect::Nothing
                },
                Key::Right => {
                    self.next_tab();
                    Effect::Nothing
                },
                Key::Left => {
                    self.previous_tab();
                    Effect::Nothing
                },
                Key::Char(c) => {
                    if c == 'q' {
                        Effect::Quit
                    } else if c == 'n' {
                        self.start_new();
                        Effect::Nothing
                    } else if c == 'e' {
                        self.start_edit();
                        Effect::Nothing
                    } else if c == 'p' {
                        Effect::Export(self.selected_invoice().clone())
                    } else {
                        Effect::Nothing
                    }
                },
                _ => Effect::Nothing,
            },
            Mode::Editing => match k {
                Key::Esc => {
                    self.cancel_form();
                    Effect::Nothing
                },
                Key::Enter => {
                    self.open_save_modal();
                    Effect::Nothing
                },
                Key::Tab => {
                    match self.form.take() {
                        Some(mut f) => {
                            f.next_field();
                            self.form = Some(f);
                        },
                        None => {},
                    }
                    Effect::Nothing
                },
                Key::Backspace => {
                    match self.form.take() {
                        Some(mut f) => {
                            f.backspace();
                            self.form = Some(f);
                        },
                        None => {},
                    }
                    Effect::Nothing
                },
                Key::Char(c) => {
                    match self.form.take() {
                        Some(mut f) => {
                            f.update_field(c);
                            self.form = Some(f);
                        },
                        None => {},
                    }
                    Effect::Nothing
                },
                _ => Effect::Nothing,
            },
            Mode::Modal(ModalType::Alert) => {
                self.close_modals();
                Effect::Nothing
            },
            Mode::Modal(ModalType::Confirm) => match k {
                Key::Tab => {
                    match self.modal.take() {
                        Some(mut m) => {
                            m.next_field();
                            self.modal = Some(m);
                        },
                        None => {},
                    }
                    Effect::Nothing
                },
                Key::Esc => {
                    self.close_modals();
                    Effect::Nothing
                },
                Key::Enter => match self.press_modal() {
                    Some(wi) => Effect::Persist(wi),
                    None => Effect::Nothing,
                },
                _ => Effect::Nothing,
            },
        }
    }
}

} // verus!
