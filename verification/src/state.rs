//! The persisted state of a modal dialog.

use vstd::prelude::*;

verus! {

/// The state a modal dialog keeps between frames: whether it is open.
/// A rendering front end loads it at the start of a frame, keyed by the
/// modal's identifier, and saves it back after the state machine has run.
#[derive(Clone, Copy, Debug, PartialEq, Eq, Structural)]
pub struct ModalState {
    pub is_open: bool,
}

impl Default for ModalState {
    /// A modal starts out closed.
    fn default() -> (s: ModalState)
        ensures
            s == (ModalState { is_open: false }),
    {
        ModalState { is_open: false }
    }
}

} // verus!
