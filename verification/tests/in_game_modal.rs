use monopoly::components::in_game_modal::{InGameModalState, InGameModalStateType, ModalResponse};

#[test]
fn a_new_state_shows_no_prompt() {
    let mut state: InGameModalState<u8> = InGameModalState::new();
    assert!(state.ty().is_none());
    assert_eq!(state.click(ModalResponse::Confirm), None);
    assert_eq!(state.click(ModalResponse::Cancel), None);
}

#[test]
fn one_button_opens_a_prompt_with_one_button() {
    let mut state = InGameModalState::new();
    state.one_button("You owe me: 2,000$", "Pay moneh", 1);
    match state.ty() {
        Some(InGameModalStateType::OneButton { text, button_text, on_click }) => {
            assert_eq!(text, "You owe me: 2,000$");
            assert_eq!(button_text, "Pay moneh");
            assert_eq!(*on_click, 1);
        }
        other => panic!("unexpected {other:?}"),
    }
}

#[test]
fn two_buttons_opens_a_prompt_with_two_buttons() {
    let mut state = InGameModalState::new();
    state.two_buttons("Buy?", "Buy", "Decline", 'y', 'n');
    match state.ty() {
        Some(InGameModalStateType::TwoButtons {
            text,
            ok_button_text,
            cancel_button_text,
            on_ok_click,
            on_cancel_click,
        }) => {
            assert_eq!(text, "Buy?");
            assert_eq!(ok_button_text, "Buy");
            assert_eq!(cancel_button_text, "Decline");
            assert_eq!((*on_ok_click, *on_cancel_click), ('y', 'n'));
        }
        other => panic!("unexpected {other:?}"),
    }
}

#[test]
fn a_click_closes_the_prompt_and_hands_out_the_callback() {
    let mut state = InGameModalState::new();
    state.one_button("text", "button", 5);
    assert_eq!(state.click(ModalResponse::Confirm), Some(5));
    assert!(state.ty().is_none());
    assert_eq!(state.click(ModalResponse::Confirm), None);
    state.one_button("text", "button", 6);
    assert_eq!(state.click(ModalResponse::Cancel), Some(6));
    assert!(state.ty().is_none());
}

#[test]
fn a_click_picks_the_callback_of_its_button() {
    let mut state = InGameModalState::new();
    state.two_buttons("Buy?", "Buy", "Decline", "bought", "declined");
    assert_eq!(state.click(ModalResponse::Confirm), Some("bought"));
    assert!(state.ty().is_none());
    state.two_buttons("Buy?", "Buy", "Decline", "bought", "declined");
    assert_eq!(state.click(ModalResponse::Cancel), Some("declined"));
    assert!(state.ty().is_none());
}

#[test]
fn a_new_prompt_takes_the_place_of_the_open_one() {
    let mut state = InGameModalState::new();
    state.one_button("first", "ok", 1);
    state.two_buttons("second", "yes", "no", 2, 3);
    assert_eq!(state.click(ModalResponse::Cancel), Some(3));
    assert_eq!(state.click(ModalResponse::Cancel), None);
}

#[test]
fn dismiss_closes_the_prompt_without_an_answer() {
    let mut state = InGameModalState::new();
    state.one_button("text", "button", 5);
    state.dismiss();
    assert!(state.ty().is_none());
    assert_eq!(state.click(ModalResponse::Confirm), None);
    state.dismiss();
    assert!(state.ty().is_none());
}
