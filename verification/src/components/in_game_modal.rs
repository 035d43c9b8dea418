//! The prompt that asks a player to acknowledge something, or to choose.

use vstd::prelude::*;

verus! {

/// The answer to a prompt.
#[derive(Debug, Clone, Copy, PartialEq, Eq, Structural)]
pub enum ModalResponse {
    Confirm,
    Cancel,
}

/// A prompt that is open: its text, its buttons, and for each button what
/// is to be run when it is clicked.
#[derive(Debug, Clone)]
pub enum InGameModalStateType<F> {
    OneButton { text: String, button_text: String, on_click: F },
    TwoButtons {
        text: String,
        ok_button_text: String,
        cancel_button_text: String,
        on_ok_click: F,
        on_cancel_click: F,
    },
}

/// An open prompt, with its texts as characters.
pub enum PromptView<F> {
    OneButton { text: Seq<char>, button_text: Seq<char>, on_click: F },
    TwoButtons {
        text: Seq<char>,
        ok_button_text: Seq<char>,
        cancel_button_text: Seq<char>,
        on_ok_click: F,
        on_cancel_click: F,
    },
}

impl<F> PromptView<F> {
    /// What is to be run for the answer `response`: a prompt with one
    /// button takes every answer for a click on that button.
    pub open spec fn callback(self, response: ModalResponse) -> F {
        match self {
            PromptView::OneButton { on_click, .. } => on_click,
            PromptView::TwoButtons { on_ok_click, on_cancel_click, .. } => if response is Confirm {
                on_ok_click
            } else {
                on_cancel_click
            },
        }
    }
}

impl<F> View for InGameModalStateType<F> {
    type V = PromptView<F>;

    open spec fn view(&self) -> PromptView<F> {
        match self {
            InGameModalStateType::OneButton { text, button_text, on_click } => PromptView::OneButton {
                text: text@,
                button_text: button_text@,
                on_click: *on_click,
            },
            InGameModalStateType::TwoButtons {
                text,
                ok_button_text,
                cancel_button_text,
                on_ok_click,
                on_cancel_click,
            } => PromptView::TwoButtons {
                text: text@,
                ok_button_text: ok_button_text@,
                cancel_button_text: cancel_button_text@,
                on_ok_click: *on_ok_click,
                on_cancel_click: *on_cancel_click,
            },
        }
    }
}

/// The place of the one prompt that can be open at a time.
///
/// The state runs no callback itself: a click closes the prompt and hands
/// out what is to be run.
#[derive(Debug, Clone)]
pub struct InGameModalState<F> {
    ty: Option<InGameModalStateType<F>>,
}

impl<F> View for InGameModalState<F> {
    type V = Option<PromptView<F>>;

    /// The prompt that is open, where one is.
    closed spec fn view(&self) -> Option<PromptView<F>> {
        match self.ty {
            Some(prompt) => Some(prompt@),
            None => None,
        }
    }
}

impl<F> InGameModalState<F> {
    /// A state in which no prompt is open.
    pub fn new() -> (state: Self)
        ensures
            state@ is None,
    {
        InGameModalState { ty: None }
    }

    /// The prompt that is open, for showing it.
    pub fn ty(&self) -> (prompt: &Option<InGameModalStateType<F>>)
        ensures
            match prompt {
                Some(prompt) => self@ == Some(prompt@),
                None => self@ is None,
            },
    {
        &self.ty
    }

    /// Opens a prompt with one button, in place of any that is open.
    pub fn one_button(&mut self, text: &str, button_text: &str, on_click: F)
        ensures
            final(self)@ == Some(
                PromptView::OneButton { text: text@, button_text: button_text@, on_click },
            ),
    {
        self.ty = Some(
            InGameModalStateType::OneButton {
                text: text.to_owned(),
                button_text: button_text.to_owned(),
                on_click,
            },
        );
    }

    /// Opens a prompt with two buttons, in place of any that is open.
    pub fn two_buttons(
        &mut self,
        text: &str,
        ok_button_text: &str,
        cancel_button_text: &str,
        on_ok_click: F,
        on_cancel_click: F,
    )
        ensures
            final(self)@ == Some(
                PromptView::TwoButtons {
                    text: text@,
                    ok_button_text: ok_button_text@,
                    cancel_button_text: cancel_button_text@,
                    on_ok_click,
                    on_cancel_click,
                },
            ),
    {
        self.ty = Some(
            InGameModalStateType::TwoButtons {
                text: text.to_owned(),
                ok_button_text: ok_button_text.to_owned(),
                cancel_button_text: cancel_button_text.to_owned(),
                on_ok_click,
                on_cancel_click,
            },
        );
    }

    /// Takes the click that answers `response`: closes the prompt and
    /// hands out what is to be run for the button; nothing where no
    /// prompt is open.
    pub fn click(&mut self, response: ModalResponse) -> (callback: Option<F>)
        ensures
            final(self)@ is None,
            callback == match old(self)@ {
                Some(prompt) => Some(prompt.callback(response)),
                None => None,
            },
    {
        let mut open: Option<InGameModalStateType<F>> = None;
        std::mem::swap(&mut self.ty, &mut open);
        match open {
            None => None,
            Some(InGameModalStateType::OneButton { on_click, .. }) => Some(on_click),
            Some(InGameModalStateType::TwoButtons { on_ok_click, on_cancel_click, .. }) => {
                match response {
                    ModalResponse::Confirm => Some(on_ok_click),
                    ModalResponse::Cancel => Some(on_cancel_click),
                }
            },
        }
    }

    /// Closes the prompt without an answer.
    pub fn dismiss(&mut self)
        ensures
            final(self)@ is None,
    {
        self.ty = None;
    }
}

} // verus!
