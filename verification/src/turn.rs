//! The steps of a turn, and what a cell can ask of the player who lands on it.

use crate::money::{money_text, Money};
use vstd::prelude::*;
use vstd::string::StringExecFns;

verus! {

/// What a player gets for passing the first cell.
pub const PASSING_START_BONUS: i64 = 2000;

/// The number of chance cards.
pub const CHANCE_CARDS: usize = 6;

/// What the chance card `draw` is worth: a gain, or a loss where it is negative.
pub open spec fn chance_card(draw: int) -> int {
    if draw == 0 {
        500
    } else if draw == 1 {
        1000
    } else if draw == 2 {
        2000
    } else if draw == 3 {
        -2000
    } else if draw == 4 {
        -1000
    } else {
        -500
    }
}

/// What the chance card `draw` is worth.
pub fn draw_chance_card(draw: usize) -> (amount: Money)
    requires
        draw < CHANCE_CARDS,
    ensures
        amount@ == chance_card(draw as int),
{
    let cards: [i64; 6] = [500, 1000, 2000, -2000, -1000, -500];
    Money::new(cards[draw])
}

/// What the cell that a player lands on asks of the player.
#[derive(Debug, Clone, Copy, PartialEq, Eq, Structural)]
pub enum Landing {
    /// Nothing is asked: the turn is over.
    Nothing,
    /// A chance card of `amount`, to be acknowledged: a gain, or a loss where it is negative.
    Chance { amount: Money },
    /// A tax of `amount`, to be acknowledged.
    Tax { amount: Money },
    /// The property belongs to somebody else, who is owed `rent`, to be acknowledged.
    Rent { rent: Money },
    /// The property is for sale at `price`: to be bought or declined.
    Offer { price: Money },
}

/// Where a turn stands.
#[derive(Debug, Clone, Copy, PartialEq, Eq, Structural)]
pub enum TurnPhase {
    /// The current player has yet to roll.
    AwaitingRoll,
    /// The dice are rolled, and shown until their animation ends.
    DiceRolling,
    /// The player has moved on from `from`, and the token moves until its animation ends.
    TokenMoving { from: usize },
    /// The cell asked `landing` of the player, who has yet to answer.
    ResolvingCell { landing: Landing },
}

/// How a prompt was settled.
#[derive(Debug, Clone, Copy, PartialEq, Eq, Structural)]
pub enum Resolution {
    /// No prompt was open: nothing was done.
    Ignored,
    /// What the cell asked was done, and the turn is over.
    Settled,
    /// The player could not pay and is out of the game. `cancel_tasks` says
    /// whether the tasks that run for the player on this machine are to be
    /// cancelled.
    Surrendered { cancel_tasks: bool },
}

/// What is put to a player: a text, the label of the button that
/// confirms, and the label of the button that declines, where the player
/// has a choice.
#[derive(Debug, Clone, PartialEq, Eq)]
pub struct Prompt {
    pub text: String,
    pub button_text: &'static str,
    pub cancel_button_text: Option<&'static str>,
}

impl Landing {
    /// The text that is put to the player.
    pub open spec fn prompt_text(self) -> Seq<char> {
        match self {
            Landing::Nothing => Seq::empty(),
            Landing::Chance { amount } => "Your chance is: "@ + money_text(amount@) + "$"@,
            Landing::Tax { amount } => "You owe me: "@ + money_text(amount@) + "$"@,
            Landing::Rent { rent } => "Oi! You owe this fine lad some moneh: "@ + money_text(rent@)
                + "$"@,
            Landing::Offer { price } =>
                "Oi! You wanna buy this fine land? It's gonna cost ya "@ + money_text(price@)
                    + "$"@,
        }
    }

    /// The label of the button that confirms: a loss, a tax and a rent are
    /// paid, a gain is taken, an offer is bought.
    pub open spec fn button_text(self) -> &'static str {
        match self {
            Landing::Chance { amount } if amount@ >= 0 => "Get moneh",
            Landing::Offer { .. } => "Buy",
            _ => "Pay moneh",
        }
    }

    /// The label of the button that declines: only an offer has one.
    pub open spec fn cancel_button_text(self) -> Option<&'static str> {
        match self {
            Landing::Offer { .. } => Some("Decline"),
            _ => None,
        }
    }

    /// What is put to the player; nothing where nothing is asked.
    pub fn prompt(&self) -> (prompt: Option<Prompt>)
        ensures
            prompt is None <==> self is Nothing,
            prompt matches Some(prompt) ==> {
                &&& prompt.text@ == self.prompt_text()
                &&& prompt.button_text == self.button_text()
                &&& prompt.cancel_button_text == self.cancel_button_text()
            },
    {
        let (opening, amount, button_text, cancel_button_text) = match self {
            Landing::Nothing => {
                return None;
            },
            Landing::Chance { amount } => (
                "Your chance is: ",
                *amount,
                if amount.is_negative() {
                    "Pay moneh"
                } else {
                    "Get moneh"
                },
                None,
            ),
            Landing::Tax { amount } => ("You owe me: ", *amount, "Pay moneh", None),
            Landing::Rent { rent } => (
                "Oi! You owe this fine lad some moneh: ",
                *rent,
                "Pay moneh",
                None,
            ),
            Landing::Offer { price } => (
                "Oi! You wanna buy this fine land? It's gonna cost ya ",
                *price,
                "Buy",
                Some("Decline"),
            ),
        };
        let mut text = String::from_str(opening);
        text.append(amount.to_string().as_str());
        text.append("$");
        Some(Prompt { text, button_text, cancel_button_text })
    }
}

} // verus!
