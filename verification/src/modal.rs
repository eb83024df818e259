//! The modal dialog itself: its identifiers, its styling, and the state
//! machine a rendering front end drives once per frame.

use vstd::prelude::*;
use crate::state::ModalState;
use crate::style::{button_appearance_spec, ButtonAppearance, ModalButtonStyle, ModalStyle};

verus! {

/// A modal dialog. It is identified by `id`, under which its [`ModalState`]
/// is persisted between frames, and draws its floating window under
/// `window_id`. A rendering front end loads the state each frame, asks
/// [`Modal::should_draw`] whether to draw the dimming overlay and the window,
/// feeds clicks back through [`Modal::on_overlay_click`] and
/// [`Modal::on_button_click`], and saves the state again.
pub struct Modal {
    /// Whether a click on the dimming overlay closes the modal.
    pub close_on_outside_click: bool,
    /// The styling of the overlay and the styled buttons.
    pub style: ModalStyle,
    /// The identifier under which the modal's state is persisted.
    pub id: String,
    /// The identifier of the modal's floating window.
    pub window_id: String,
}

impl Modal {
    /// Creates a new [`Modal`] from the identifier's source text, with the
    /// default style, not closing on outside clicks. The window's identifier
    /// is the source text prefixed with `window_`.
    pub fn new(id_source: &str) -> (m: Modal)
        ensures
            m.id@ == id_source@,
            m.window_id@ == "window_"@ + id_source@,
            m.style == ModalStyle::default_spec(),
            !m.close_on_outside_click,
    {
        Modal {
            id: String::from_str(id_source),
            style: ModalStyle::default(),
            close_on_outside_click: false,
            window_id: String::from_str("window_").concat(id_source),
        }
    }

    fn set_open_state(&self, state: &mut ModalState, is_open: bool)
        ensures
            *final(state) == (ModalState { is_open: is_open }),
    {
        state.is_open = is_open;
    }

    /// Open the modal; make it visible. While it is open, the overlay
    /// prevents user input to other parts of the application.
    pub fn open(&self, state: &mut ModalState)
        ensures
            *final(state) == (ModalState { is_open: true }),
    {
        self.set_open_state(state, true)
    }

    /// Close the modal so that it is no longer visible, allowing input to
    /// flow back into the application.
    pub fn close(&self, state: &mut ModalState)
        ensures
            *final(state) == (ModalState { is_open: false }),
    {
        self.set_open_state(state, false)
    }

    /// If set to `true`, the modal will close itself when the user clicks
    /// outside of the modal window, onto the overlay.
    pub fn with_close_on_outside_click(self, do_close_on_click_ouside: bool) -> (m: Modal)
        ensures
            m.close_on_outside_click == do_close_on_click_ouside,
            m.style == self.style,
            m.id@ == self.id@,
            m.window_id@ == self.window_id@,
    {
        let mut m = self;
        m.close_on_outside_click = do_close_on_click_ouside;
        m
    }

    /// Change the [`ModalStyle`] of the modal upon creation.
    pub fn with_style(self, style: &ModalStyle) -> (m: Modal)
        ensures
            m.style == *style,
            m.close_on_outside_click == self.close_on_outside_click,
            m.id@ == self.id@,
            m.window_id@ == self.window_id@,
    {
        let mut m = self;
        m.style = *style;
        m
    }

    /// The appearance of a modal button of the given style: a suggested or
    /// caution button takes the fill and text colors the modal's style sets
    /// for it, an ordinary button keeps the host's default visuals.
    pub fn button_appearance(&self, button_style: ModalButtonStyle) -> (a: ButtonAppearance)
        ensures
            a == button_appearance_spec(self.style, button_style),
    {
        match button_style {
            ModalButtonStyle::Suggested => ButtonAppearance {
                fill: Some(self.style.suggested_button_fill),
                text_color: Some(self.style.suggested_button_text_color),
            },
            ModalButtonStyle::Caution => ButtonAppearance {
                fill: Some(self.style.caution_button_fill),
                text_color: Some(self.style.caution_button_text_color),
            },
            ModalButtonStyle::Plain => ButtonAppearance { fill: None, text_color: None },
        }
    }

    /// A modal button closes the modal when it is clicked; otherwise the
    /// state is left as it was.
    pub fn on_button_click(&self, state: &mut ModalState, clicked: bool)
        ensures
            *final(state) == (if clicked {
                ModalState { is_open: false }
            } else {
                *old(state)
            }),
    {
        if clicked {
            self.close(state);
        }
    }

    /// Whether the modal is drawn this frame: the overlay and the floating
    /// window appear exactly while the modal is open.
    pub fn should_draw(&self, state: &ModalState) -> (b: bool)
        ensures
            b == state.is_open,
    {
        state.is_open
    }

    /// A click onto the dimming overlay closes the modal exactly when it was
    /// configured to close on outside clicks; otherwise the state is left as
    /// it was.
    pub fn on_overlay_click(&self, state: &mut ModalState, clicked: bool)
        ensures
            *final(state) == (if clicked && self.close_on_outside_click {
                ModalState { is_open: false }
            } else {
                *old(state)
            }),
    {
        if clicked && self.close_on_outside_click {
            self.close(state);
        }
    }
}

} // verus!
