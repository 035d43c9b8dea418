//! A participant's ledger: identity, balance, place on the board, and the
//! flags for jail and surrender.

use crate::cell::CELLS_COUNT;
use crate::money::{fits, money_text, Money};
use crate::text::{append_decimal, decimal};
use vstd::prelude::*;
use vstd::std_specs::cmp::PartialEqSpecImpl;
use vstd::string::StringExecFns;

verus! {

/// The index of the jail cell.
pub const JAIL_POSITION: usize = 10;

/// What every player holds when the game starts.
pub const STARTING_BALANCE: i64 = 15_000;

pub type PlayerId = u64;

#[derive(Debug, Clone, Copy, PartialEq, Eq, Structural)]
pub enum ConnectionStatus {
    Connected,
    Disconnected,
}

#[derive(Debug, Clone, Copy, PartialEq, Eq, Structural)]
pub enum PlayerColor {
    Red,
    Blue,
    Green,
    Purple,
    Yellow,
}

impl PlayerColor {
    /// The gradient of a player's card in this color. There is none for yellow yet.
    pub open spec fn player_gradient(self) -> &'static str {
        match self {
            PlayerColor::Red => "linear-gradient(45deg,#cd3747,#f26b61)",
            PlayerColor::Blue => "linear-gradient(45deg,#54c9f0,#2191e1)",
            PlayerColor::Green => "linear-gradient(45deg,#66b343,#b0e372)",
            PlayerColor::Purple => "linear-gradient(45deg,#a17fef,#d188e3)",
            PlayerColor::Yellow => "",
        }
    }

    /// The gradient of a cell that a player of this color owns. There is none for yellow yet.
    pub open spec fn cell_gradient(self) -> &'static str {
        match self {
            PlayerColor::Red => "linear-gradient(45deg,#d96975,#f59088)",
            PlayerColor::Blue => "linear-gradient(45deg,#7ed6f3,#58ace8)",
            PlayerColor::Green => "linear-gradient(45deg,#8cc672,#c3ea95)",
            PlayerColor::Purple => "linear-gradient(45deg,#b89ff3,#dca5ea)",
            PlayerColor::Yellow => "",
        }
    }

    /// The gradient of a player's card in this color.
    pub fn get_player_gradient(&self) -> (gradient: &'static str)
        requires
            !(self is Yellow),
        ensures
            gradient == self.player_gradient(),
    {
        match self {
            PlayerColor::Red => "linear-gradient(45deg,#cd3747,#f26b61)",
            PlayerColor::Blue => "linear-gradient(45deg,#54c9f0,#2191e1)",
            PlayerColor::Green => "linear-gradient(45deg,#66b343,#b0e372)",
            PlayerColor::Purple => "linear-gradient(45deg,#a17fef,#d188e3)",
            PlayerColor::Yellow => "",
        }
    }

    /// The gradient of a cell that a player of this color owns.
    pub fn get_cell_gradient(&self) -> (gradient: &'static str)
        requires
            !(self is Yellow),
        ensures
            gradient == self.cell_gradient(),
    {
        match self {
            PlayerColor::Red => "linear-gradient(45deg,#d96975,#f59088)",
            PlayerColor::Blue => "linear-gradient(45deg,#7ed6f3,#58ace8)",
            PlayerColor::Green => "linear-gradient(45deg,#8cc672,#c3ea95)",
            PlayerColor::Purple => "linear-gradient(45deg,#b89ff3,#dca5ea)",
            PlayerColor::Yellow => "",
        }
    }
}

/// A withdrawal that the balance did not cover.
#[derive(Debug, Clone, PartialEq, Eq)]
pub struct NotEnoughMoneyError {
    pub player_name: String,
    pub player_id: PlayerId,
    pub amount: Money,
}

impl NotEnoughMoneyError {
    /// What the error says.
    pub open spec fn text(self) -> Seq<char> {
        "Player \""@ + self.player_name@ + "\" (id: "@ + decimal(self.player_id as nat)
            + ") does not have enough money ("@ + money_text(self.amount@) + "$)"@
    }

    /// What the error says.
    pub fn to_string(&self) -> (text: String)
        ensures
            text@ == self.text(),
    {
        let mut text = String::from_str("Player \"");
        text.append(self.player_name.as_str());
        text.append("\" (id: ");
        append_decimal(&mut text, self.player_id);
        text.append(") does not have enough money (");
        text.append(self.amount.to_string().as_str());
        text.append("$)");
        text
    }
}

/// One participant of the game.
///
/// Two values with the same `id` stand for the same player, whatever else
/// they hold: `==` compares the `id` alone.
#[derive(Debug)]
pub struct Player {
    id: PlayerId,
    name: String,
    color: PlayerColor,
    balance: Money,
    position: usize,
    is_in_jail: bool,
    has_lost: bool,
    connection_status: ConnectionStatus,
}

/// What a player is, as plain mathematical values.
pub struct PlayerView {
    pub id: PlayerId,
    pub name: Seq<char>,
    pub color: PlayerColor,
    pub balance: int,
    pub position: nat,
    pub is_in_jail: bool,
    pub has_lost: bool,
    pub connection_status: ConnectionStatus,
}

/// One thing that can be done to a player.
pub enum PlayerOp {
    Deposit(int),
    Withdraw(int),
    SetPosition(nat),
    AppendPosition(nat),
    SetIsInJail(bool),
    Surrender,
}

impl PlayerView {
    /// A player as the game starts: on the first cell, free, in play, with the starting balance.
    pub open spec fn fresh(id: PlayerId, name: Seq<char>, color: PlayerColor) -> PlayerView {
        PlayerView {
            id,
            name,
            color,
            balance: STARTING_BALANCE as int,
            position: 0,
            is_in_jail: false,
            has_lost: false,
            connection_status: ConnectionStatus::Connected,
        }
    }

    /// The position is a cell of the board.
    pub open spec fn wf(self) -> bool {
        self.position < CELLS_COUNT
    }

    pub open spec fn deposit(self, amount: int) -> PlayerView {
        PlayerView { balance: self.balance + amount, ..self }
    }

    /// Whether the balance covers `amount`.
    pub open spec fn can_pay(self, amount: int) -> bool {
        self.balance >= amount
    }

    /// The player after an attempt to take `amount`: unchanged where the balance does not cover it.
    pub open spec fn withdraw(self, amount: int) -> PlayerView {
        if self.can_pay(amount) {
            PlayerView { balance: self.balance - amount, ..self }
        } else {
            self
        }
    }

    pub open spec fn set_position(self, index: nat) -> PlayerView {
        PlayerView { position: index, ..self }
    }

    /// The player `delta` cells further on, counted round the board.
    pub open spec fn append_position(self, delta: nat) -> PlayerView {
        PlayerView { position: (self.position + delta) % (CELLS_COUNT as nat), ..self }
    }

    /// Sending a player to jail also puts the player on the jail cell; release moves nobody.
    pub open spec fn set_is_in_jail(self, state: bool) -> PlayerView {
        PlayerView {
            is_in_jail: state,
            position: if state {
                JAIL_POSITION as nat
            } else {
                self.position
            },
            ..self
        }
    }

    pub open spec fn surrender(self) -> PlayerView {
        PlayerView { has_lost: true, ..self }
    }

    /// Whether `op` may be asked of a player: a position that is set must be a cell of the board.
    pub open spec fn accepts(op: PlayerOp) -> bool {
        op matches PlayerOp::SetPosition(index) ==> index < CELLS_COUNT
    }

    /// The player after `op`.
    pub open spec fn apply(self, op: PlayerOp) -> PlayerView {
        match op {
            PlayerOp::Deposit(amount) => self.deposit(amount),
            PlayerOp::Withdraw(amount) => self.withdraw(amount),
            PlayerOp::SetPosition(index) => self.set_position(index),
            PlayerOp::AppendPosition(delta) => self.append_position(delta),
            PlayerOp::SetIsInJail(state) => self.set_is_in_jail(state),
            PlayerOp::Surrender => self.surrender(),
        }
    }

    /// The player after each of `ops` in turn.
    pub open spec fn apply_all(self, ops: Seq<PlayerOp>) -> PlayerView
        decreases ops.len(),
    {
        if ops.len() == 0 {
            self
        } else {
            self.apply_all(ops.drop_last()).apply(ops.last())
        }
    }

    /// The sum of what `ops` deposited.
    pub open spec fn deposited(ops: Seq<PlayerOp>) -> int
        decreases ops.len(),
    {
        if ops.len() == 0 {
            0
        } else {
            Self::deposited(ops.drop_last()) + match ops.last() {
                PlayerOp::Deposit(amount) => amount,
                _ => 0,
            }
        }
    }

    /// The sum of what `ops` took from this player: a withdrawal counts where the balance of the
    /// moment covered it.
    pub open spec fn withdrawn(self, ops: Seq<PlayerOp>) -> int
        decreases ops.len(),
    {
        if ops.len() == 0 {
            0
        } else {
            self.withdrawn(ops.drop_last()) + match ops.last() {
                PlayerOp::Withdraw(amount) => if self.apply_all(ops.drop_last()).can_pay(amount) {
                    amount
                } else {
                    0
                },
                _ => 0,
            }
        }
    }
}

/// Ledger conservation: whatever is done to a player, and in whatever order, the
/// balance is the opening balance, plus all that was deposited, minus all that
/// was withdrawn.
pub proof fn lemma_ledger_conservation(player: PlayerView, ops: Seq<PlayerOp>)
    ensures
        player.apply_all(ops).balance == player.balance + PlayerView::deposited(ops)
            - player.withdrawn(ops),
    decreases ops.len(),
{
    if ops.len() > 0 {
        lemma_ledger_conservation(player, ops.drop_last());
    }
}

/// Whatever is done to a player who stands on the board, the player still stands on the board.
pub proof fn lemma_position_stays_on_board(player: PlayerView, ops: Seq<PlayerOp>)
    requires
        player.wf(),
        forall|i: int| 0 <= i < ops.len() ==> PlayerView::accepts(#[trigger] ops[i]),
    ensures
        0 <= player.apply_all(ops).position < CELLS_COUNT,
        player.apply_all(ops).wf(),
    decreases ops.len(),
{
    if ops.len() > 0 {
        lemma_position_stays_on_board(player, ops.drop_last());
    }
}

impl View for Player {
    type V = PlayerView;

    closed spec fn view(&self) -> PlayerView {
        PlayerView {
            id: self.id,
            name: self.name@,
            color: self.color,
            balance: self.balance@,
            position: self.position as nat,
            is_in_jail: self.is_in_jail,
            has_lost: self.has_lost,
            connection_status: self.connection_status,
        }
    }
}

impl Player {
    /// The position is a cell of the board. Every player that this library hands out is well formed.
    pub open spec fn wf(&self) -> bool {
        self@.wf()
    }

    pub fn new(id: PlayerId, name: &str, color: PlayerColor) -> (player: Player)
        ensures
            player@ == PlayerView::fresh(id, name@, color),
            player.wf(),
    {
        Player {
            id,
            name: name.to_owned(),
            color,
            balance: Money::new(STARTING_BALANCE),
            position: 0,
            is_in_jail: false,
            has_lost: false,
            connection_status: ConnectionStatus::Connected,
        }
    }

    pub fn id(&self) -> (id: PlayerId)
        ensures
            id == self@.id,
    {
        self.id
    }

    pub fn name(&self) -> (name: &str)
        ensures
            name@ == self@.name,
    {
        self.name.as_str()
    }

    pub fn color(&self) -> (color: PlayerColor)
        ensures
            color == self@.color,
    {
        self.color
    }

    pub fn connection_status(&self) -> (status: ConnectionStatus)
        ensures
            status == self@.connection_status,
    {
        self.connection_status
    }

    pub fn set_connection_status(&mut self, status: ConnectionStatus)
        ensures
            final(self)@ == (PlayerView { connection_status: status, ..old(self)@ }),
    {
        self.connection_status = status;
    }

    /// Puts the player on the cell `index`.
    pub fn set_position(&mut self, index: usize)
        requires
            index < CELLS_COUNT,
        ensures
            final(self)@ == old(self)@.set_position(index as nat),
            final(self).wf(),
    {
        self.position = index;
    }

    /// Moves the player `delta` cells on, round the board, and returns where
    /// the player stood and where the player stands now.
    pub fn append_position(&mut self, delta: usize) -> (ends: (usize, usize))
        requires
            old(self).wf(),
        ensures
            final(self)@ == old(self)@.append_position(delta as nat),
            ends.0 == old(self)@.position,
            ends.1 == final(self)@.position,
            ends.1 == (old(self)@.position + delta) % (CELLS_COUNT as int),
            final(self).wf(),
    {
        let prev = self.position;
        let next = (prev + delta % CELLS_COUNT) % CELLS_COUNT;
        self.position = next;
        (prev, next)
    }

    pub fn position(&self) -> (position: usize)
        ensures
            position == self@.position,
            self.wf() ==> position < CELLS_COUNT,
    {
        self.position
    }

    /// A balance is an amount that fits.
    pub proof fn lemma_balance_fits(&self)
        ensures
            fits(self@.balance),
    {
    }

    pub fn balance(&self) -> (balance: Money)
        ensures
            balance@ == self@.balance,
    {
        self.balance
    }

    /// Adds `amount` to the balance.
    pub fn deposit(&mut self, amount: Money)
        requires
            fits(old(self)@.balance + amount@),
        ensures
            final(self)@ == old(self)@.deposit(amount@),
    {
        self.balance = self.balance + amount;
    }

    /// Whether the balance covers `amount`; where it does not, the error
    /// that a withdrawal of `amount` fails with.
    pub fn covers(&self, amount: Money) -> (result: Result<(), NotEnoughMoneyError>)
        ensures
            result is Ok <==> self@.can_pay(amount@),
            result matches Err(error) ==> {
                &&& error.player_id == self@.id
                &&& error.player_name@ == self@.name
                &&& error.amount == amount
            },
    {
        if self.balance < amount {
            Err(
                NotEnoughMoneyError {
                    player_name: self.name.clone(),
                    player_id: self.id,
                    amount,
                },
            )
        } else {
            Ok(())
        }
    }

    /// Takes `amount` from the balance, or fails and changes nothing where
    /// the balance does not cover it.
    pub fn withdraw(&mut self, amount: Money) -> (result: Result<(), NotEnoughMoneyError>)
        requires
            old(self)@.can_pay(amount@) ==> fits(old(self)@.balance - amount@),
        ensures
            final(self)@ == old(self)@.withdraw(amount@),
            result is Ok <==> old(self)@.can_pay(amount@),
            result matches Err(error) ==> {
                &&& error.player_id == old(self)@.id
                &&& error.player_name@ == old(self)@.name
                &&& error.amount == amount
            },
    {
        match self.covers(amount) {
            Err(error) => Err(error),
            Ok(()) => {
                self.balance = self.balance - amount;
                Ok(())
            },
        }
    }

    pub fn is_in_jail(&self) -> (state: bool)
        ensures
            state == self@.is_in_jail,
    {
        self.is_in_jail
    }

    /// Jails or releases the player. A player who is jailed is put on the jail cell.
    pub fn set_is_in_jail(&mut self, state: bool)
        ensures
            final(self)@ == old(self)@.set_is_in_jail(state),
            old(self).wf() ==> final(self).wf(),
    {
        self.is_in_jail = state;
        if state {
            self.set_position(JAIL_POSITION);
        }
    }

    pub fn has_lost(&self) -> (lost: bool)
        ensures
            lost == self@.has_lost,
    {
        self.has_lost
    }

    /// Takes the player out of the game for good. Doing so twice changes nothing more.
    pub fn surrender(&mut self)
        ensures
            final(self)@ == old(self)@.surrender(),
            final(self)@.surrender() == final(self)@,
    {
        self.has_lost = true;
    }
}

impl Clone for Player {
    fn clone(&self) -> (copy: Self)
        ensures
            copy@ == self@,
    {
        Player {
            id: self.id,
            name: self.name.clone(),
            color: self.color,
            balance: self.balance,
            position: self.position,
            is_in_jail: self.is_in_jail,
            has_lost: self.has_lost,
            connection_status: self.connection_status,
        }
    }
}

impl PartialEqSpecImpl for Player {
    open spec fn obeys_eq_spec() -> bool {
        true
    }

    open spec fn eq_spec(&self, other: &Player) -> bool {
        self@.id == other@.id
    }
}

impl PartialEq for Player {
    fn eq(&self, other: &Player) -> (same: bool) {
        self.id == other.id
    }
}

impl Eq for Player {

}

} // verus!
