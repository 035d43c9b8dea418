use monopoly::money::Money;
use monopoly::turn::{Landing, Prompt};

fn prompt(landing: Landing) -> Prompt {
    landing.prompt().expect("something is asked")
}

#[test]
fn nothing_is_put_to_the_player_where_nothing_is_asked() {
    assert_eq!(Landing::Nothing.prompt(), None);
}

#[test]
fn a_gain_is_taken() {
    assert_eq!(
        prompt(Landing::Chance { amount: Money(2000) }),
        Prompt {
            text: String::from("Your chance is: 2,000$"),
            button_text: "Get moneh",
            cancel_button_text: None,
        }
    );
    assert_eq!(prompt(Landing::Chance { amount: Money(500) }).text, "Your chance is: 500$");
    assert_eq!(prompt(Landing::Chance { amount: Money(0) }).button_text, "Get moneh");
}

#[test]
fn a_loss_is_paid() {
    assert_eq!(
        prompt(Landing::Chance { amount: Money(-1000) }),
        Prompt {
            text: String::from("Your chance is: -1,000$"),
            button_text: "Pay moneh",
            cancel_button_text: None,
        }
    );
    assert_eq!(prompt(Landing::Chance { amount: Money(-500) }).text, "Your chance is: -500$");
}

#[test]
fn a_tax_is_paid() {
    assert_eq!(
        prompt(Landing::Tax { amount: Money(2000) }),
        Prompt {
            text: String::from("You owe me: 2,000$"),
            button_text: "Pay moneh",
            cancel_button_text: None,
        }
    );
}

#[test]
fn a_rent_is_paid() {
    assert_eq!(
        prompt(Landing::Rent { rent: Money(200) }),
        Prompt {
            text: String::from("Oi! You owe this fine lad some moneh: 200$"),
            button_text: "Pay moneh",
            cancel_button_text: None,
        }
    );
    assert_eq!(
        prompt(Landing::Rent { rent: Money(0) }).text,
        "Oi! You owe this fine lad some moneh: 0$"
    );
}

#[test]
fn an_offer_is_bought_or_declined() {
    assert_eq!(
        prompt(Landing::Offer { price: Money(1000) }),
        Prompt {
            text: String::from("Oi! You wanna buy this fine land? It's gonna cost ya 1,000$"),
            button_text: "Buy",
            cancel_button_text: Some("Decline"),
        }
    );
}
