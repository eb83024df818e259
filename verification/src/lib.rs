//! Modal dialogs for an immediate-mode GUI.
//!
//! The crate models the life cycle of a modal dialog: a persisted open/closed
//! flag keyed by the dialog's identifier, the per-frame decision whether the
//! dialog is drawn, and the colors chosen for its styled buttons. A rendering
//! front end performs the drawing and the persistence, and feeds events (button
//! clicks, clicks on the dimming overlay) back into the state machine here.

pub mod color;
pub mod modal;
pub mod state;
pub mod style;
