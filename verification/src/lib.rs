//! An interactive record editor for a small billing domain: clients and
//! invoices composed of line items, browsed and edited in a terminal.
//!
//! The crate holds the verified core: the mode state machine that routes
//! input between browsing, a multi-field form, and a confirmation modal
//! ([`app`]); the form engine with its single validation gate ([`form`]);
//! the modal component with its deferred command ([`modal`]); the
//! bounds-checked navigation cursors ([`app`], [`tabs`]); and fixed-point
//! money parsing and formatting ([`amount`]).  Terminal drawing, the
//! backing store, and document export are collaborators outside the core:
//! the state machine reports what they must do through explicit effect
//! values instead of calling them itself.

pub mod amount;
pub mod app;
pub mod clock;
pub mod form;
pub mod ident;
pub mod modal;
pub mod models;
pub mod splash;
pub mod tabs;
pub mod text;
