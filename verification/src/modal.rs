//! The confirmation modal: a two-button (Confirm/Cancel) or single-button
//! (Alert) overlay with a focus toggle and an attached deferred action.
//!
//! The deferred action is a closed command value rather than a callback:
//! pressing the focused button reports the command to the owning state
//! machine, which applies it to the state it already owns.

use vstd::prelude::*;

verus! {

/// The kind of overlay: a bare acknowledgement, or a confirmation with a
/// Confirm and a Cancel button.
#[derive(Clone, Copy, Debug, PartialEq, Eq)]
pub enum ModalType {
    Alert,
    Confirm,
}

/// Which button of a confirmation modal holds the focus.
#[derive(Clone, Copy, Debug, PartialEq, Eq)]
pub enum ActiveFieldForConfirm {
    Confirm,
    Cancel,
}

/// The unit of work a modal carries, run if and only if Confirm is
/// pressed.
#[derive(Clone, Copy, Debug, PartialEq, Eq)]
pub enum DeferredAction {
    /// Nothing is attached; Confirm degenerates to a plain close.
    NoAction,
    /// Commit the form that is pending underneath the modal.
    SaveForm,
}

/// The focus after one toggle.
pub open spec fn toggled(a: ActiveFieldForConfirm) -> ActiveFieldForConfirm {
    match a {
        ActiveFieldForConfirm::Confirm => ActiveFieldForConfirm::Cancel,
        ActiveFieldForConfirm::Cancel => ActiveFieldForConfirm::Confirm,
    }
}

/// A transient overlay asking the operator to acknowledge or confirm.
#[derive(Debug)]
pub struct Modal {
    pub invoice_id: Option<u32>,
    pub kind: ModalType,
    pub content: String,
    pub active: ActiveFieldForConfirm,
    pub action: DeferredAction,
}

impl Modal {
    /// Opens a modal; the focus starts on Cancel, the safe default.
    pub fn new(
        invoice_id: Option<u32>,
        content: String,
        kind: ModalType,
        action: DeferredAction,
    ) -> (m: Modal)
        ensures
            m.invoice_id == invoice_id,
            m.kind == kind,
            m.content == content,
            m.active is Cancel,
            m.action == action,
    {
        Modal { invoice_id, kind, content, active: ActiveFieldForConfirm::Cancel, action }
    }

    /// Toggles the focus between Confirm and Cancel.
    pub fn next_field(&mut self)
        ensures
            *final(self) == (Modal { active: toggled(old(self).active), ..*old(self) }),
    {
        self.active = match self.active {
            ActiveFieldForConfirm::Confirm => ActiveFieldForConfirm::Cancel,
            ActiveFieldForConfirm::Cancel => ActiveFieldForConfirm::Confirm,
        };
    }

    /// Reports the command to run for a press of the focused button: the
    /// attached action when Confirm holds the focus, and nothing
    /// otherwise.  Closing is the caller's part, taken strictly after the
    /// action.
    pub fn press_field(&self) -> (a: DeferredAction)
        ensures
            a == (if self.active is Confirm {
                self.action
            } else {
                DeferredAction::NoAction
            }),
    {
        match self.active {
            ActiveFieldForConfirm::Confirm => self.action,
            ActiveFieldForConfirm::Cancel => DeferredAction::NoAction,
        }
    }
}

} // verus!
