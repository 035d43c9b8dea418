//! The game as plain mathematical values: what a game is, when it is
//! well formed, and what each step makes of it.

use crate::cell::{dice_sum, CellView, GroupView, PropertyView, CELLS_COUNT, MAX_LEVEL};
use crate::components::in_game_modal::ModalResponse;
use crate::money::{fits, Money};
use crate::player::{PlayerId, PlayerView};
use crate::turn::{chance_card, Landing, Resolution, TurnPhase, PASSING_START_BONUS};
use vstd::prelude::*;

verus! {

/// The number of cells of `cells` that hold a property of `group`.
pub open spec fn count_in_group(cells: Seq<CellView>, group: GroupView) -> nat
    decreases cells.len(),
{
    if cells.len() == 0 {
        0
    } else {
        count_in_group(cells.drop_last(), group) + if cells.last().in_group(group) {
            1nat
        } else {
            0nat
        }
    }
}

/// The number of cells of `cells` that hold a property of `group` that `player` owns.
pub open spec fn count_owned_in_group(
    cells: Seq<CellView>,
    player: PlayerId,
    group: GroupView,
) -> nat
    decreases cells.len(),
{
    if cells.len() == 0 {
        0
    } else {
        count_owned_in_group(cells.drop_last(), player, group) + if cells.last().in_group(group)
            && cells.last().owned_by(player) {
            1nat
        } else {
            0nat
        }
    }
}

/// The properties of `group` among `cells`, in the order of the board.
pub open spec fn properties_in_group(cells: Seq<CellView>, group: GroupView) -> Seq<PropertyView>
    decreases cells.len(),
{
    if cells.len() == 0 {
        Seq::empty()
    } else {
        let before = properties_in_group(cells.drop_last(), group);
        match cells.last() {
            CellView::Property(property) if property.data.group@ == group => before.push(property),
            _ => before,
        }
    }
}

/// The players of `players` who stand on the cell `index`, in the order of the roster.
pub open spec fn players_on_cell(players: Seq<PlayerView>, index: nat) -> Seq<PlayerView>
    decreases players.len(),
{
    if players.len() == 0 {
        Seq::empty()
    } else {
        let before = players_on_cell(players.drop_last(), index);
        if players.last().position == index {
            before.push(players.last())
        } else {
            before
        }
    }
}

/// The first index from `start` on at which a player of `players` is still in the game.
pub open spec fn first_in_play(players: Seq<PlayerView>, start: int) -> Option<int>
    decreases players.len() - start,
{
    if start < 0 || start >= players.len() {
        None
    } else if !players[start].has_lost {
        Some(start)
    } else {
        first_in_play(players, start + 1)
    }
}

/// What lays a board out: for each cell the group of its property and the
/// number of properties that the property's rent table provides for. No
/// step of the game changes it.
pub open spec fn layout(cells: Seq<CellView>) -> Seq<Option<(GroupView, Option<nat>)>> {
    cells.map_values(
        |cell: CellView|
            match cell {
                CellView::Property(property) => Some(
                    (property.data.group@, property.ty.group_limit()),
                ),
                _ => None,
            },
    )
}

/// No group has more properties than the rent tables of its properties provide for.
pub open spec fn group_sizes_ok(cells: Seq<CellView>) -> bool {
    forall|c: int|
        0 <= c < cells.len() ==> ((#[trigger] cells[c]) matches CellView::Property(property)
            ==> (property.ty.group_limit() matches Some(limit) ==> count_in_group(
            cells,
            property.data.group@,
        ) <= limit))
}

/// Whether some player of `players` has the id `id`.
pub open spec fn roster_has(players: Seq<PlayerView>, id: PlayerId) -> bool {
    exists|i: int| 0 <= i < players.len() && (#[trigger] players[i]).id == id
}

/// Every player stands on the board, and no two share an id.
pub open spec fn roster_wf(players: Seq<PlayerView>) -> bool {
    &&& players.len() >= 1
    &&& forall|i: int| 0 <= i < players.len() ==> (#[trigger] players[i]).wf()
    &&& forall|i: int, j: int|
        0 <= i < j < players.len() ==> (#[trigger] players[i]).id != (#[trigger] players[j]).id
}

/// The board has its forty cells; every property is well formed, and its owner is of `players`.
pub open spec fn properties_wf(cells: Seq<CellView>, players: Seq<PlayerView>) -> bool {
    &&& cells.len() == CELLS_COUNT
    &&& forall|c: int|
        0 <= c < cells.len() ==> ((#[trigger] cells[c]) matches CellView::Property(property) ==> {
            &&& property.wf()
            &&& property.owner matches Some(id) ==> roster_has(players, id)
        })
}

/// The number of cells before the cell `end` that hold a property of `group`.
pub open spec fn members_below(cells: Seq<CellView>, group: GroupView, end: int) -> nat
    decreases end,
{
    if end <= 0 {
        0
    } else {
        members_below(cells, group, end - 1) + if cells[end - 1].in_group(group) {
            1nat
        } else {
            0nat
        }
    }
}

/// The game, as plain mathematical values.
pub struct GameView {
    pub cells: Seq<CellView>,
    /// The roster, in the order in which the players joined.
    pub players: Seq<PlayerView>,
    /// The player who plays on this machine.
    pub self_player: PlayerId,
    /// The index in `players` of the player whose turn it is.
    pub current: int,
    pub current_turn: nat,
    pub current_round: nat,
    pub rolled_dice: Option<(u8, u8)>,
    pub phase: TurnPhase,
}

/// What a game holds, and when it is well formed.
impl GameView {
    pub open spec fn has_player(self, id: PlayerId) -> bool {
        roster_has(self.players, id)
    }

    /// The index in the roster of the player `id`.
    pub open spec fn index_of(self, id: PlayerId) -> int {
        choose|i: int| 0 <= i < self.players.len() && (#[trigger] self.players[i]).id == id
    }

    /// The player `id`.
    pub open spec fn player(self, id: PlayerId) -> PlayerView {
        self.players[self.index_of(id)]
    }

    /// The player whose turn it is.
    pub open spec fn current_player(self) -> PlayerView {
        self.players[self.current]
    }

    /// The id of the player whose turn it is.
    pub open spec fn current_id(self) -> PlayerId {
        self.current_player().id
    }

    /// The cell on which the current player stands.
    pub open spec fn landed_cell(self) -> CellView {
        self.cells[self.current_player().position as int]
    }

    /// The property on the cell `index`, where the cell holds one.
    pub open spec fn property_at(self, index: int) -> Option<PropertyView> {
        match self.cells[index] {
            CellView::Property(property) => Some(property),
            _ => None,
        }
    }

    /// Whether `cell` is a cell of the board.
    pub open spec fn has_cell(self, cell: CellView) -> bool {
        exists|c: int| 0 <= c < self.cells.len() && (#[trigger] self.cells[c]) == cell
    }

    /// Whether `property` lies on the board.
    pub open spec fn has_property(self, property: PropertyView) -> bool {
        exists|c: int|
            0 <= c < self.cells.len() && (#[trigger] self.cells[c]) == CellView::Property(property)
    }

    /// Whether any player is still in the game.
    pub open spec fn any_in_play(self) -> bool {
        exists|i: int| 0 <= i < self.players.len() && !(#[trigger] self.players[i]).has_lost
    }

    /// The turn is with a player who is still in the game, as long as there is one.
    pub open spec fn turn_holder_in_play(self) -> bool {
        self.any_in_play() ==> !self.current_player().has_lost
    }

    /// The dice are there from the roll to the end of the turn, and show 1 to 6 each.
    pub open spec fn dice_wf(self) -> bool {
        &&& self.phase is AwaitingRoll <==> self.rolled_dice is None
        &&& self.rolled_dice matches Some((first, second)) ==> 1 <= first <= 6 && 1 <= second <= 6
        &&& self.phase matches TurnPhase::TokenMoving { from } ==> from < CELLS_COUNT
    }

    pub open spec fn wf(self) -> bool {
        &&& roster_wf(self.players)
        &&& properties_wf(self.cells, self.players)
        &&& group_sizes_ok(self.cells)
        &&& self.has_player(self.self_player)
        &&& 0 <= self.current < self.players.len()
        &&& self.dice_wf()
    }
}

/// What the properties of the board earn.
impl GameView {
    /// How many properties of `group` the player `player` owns, and how many there are.
    pub open spec fn has_from_group(self, player: PlayerId, group: GroupView) -> (nat, nat) {
        (count_owned_in_group(self.cells, player, group), count_in_group(self.cells, group))
    }

    /// Whether `player` owns every property of `group`.
    pub open spec fn has_monopoly_on(self, player: PlayerId, group: GroupView) -> bool {
        self.has_from_group(player, group).0 == self.has_from_group(player, group).1
    }

    /// The rent that is due on `property` as the game stands.
    pub open spec fn rent_of(self, property: PropertyView) -> Option<int> {
        match property.owner {
            None => None,
            Some(owner) => {
                let (owned, total) = self.has_from_group(owner, property.data.group@);
                property.rent(owned, total, self.rolled_dice)
            },
        }
    }

    /// Whether the board can tell the rent of `property` where the rent
    /// goes by the number of properties that the owner holds of the group,
    /// as it does for a car and a utility that is owned and not mortgaged:
    /// the property then lies on the board, and counts among its owner's.
    pub open spec fn counts_for(self, property: PropertyView) -> bool {
        property.owner is Some && property.mortgaged_for is None && !(property.ty is Simple)
            ==> self.has_property(property)
    }

    /// Whether the dice are there where the rent of `property` needs them:
    /// for a utility that is owned and not mortgaged.
    pub open spec fn dice_ready_for(self, property: PropertyView) -> bool {
        property.owner is Some && property.mortgaged_for is None && property.ty is Utility
            ==> self.rolled_dice is Some
    }
}

/// Money and property changing hands.
impl GameView {
    /// The game with the player at `index` replaced by `player`.
    pub open spec fn with_player(self, index: int, player: PlayerView) -> GameView {
        GameView { players: self.players.update(index, player), ..self }
    }

    /// The game with the cell at `index` replaced by `cell`.
    pub open spec fn with_cell(self, index: int, cell: CellView) -> GameView {
        GameView { cells: self.cells.update(index, cell), ..self }
    }

    /// The game with the property on the cell `index` replaced by `property`.
    pub open spec fn with_property(self, index: int, property: PropertyView) -> GameView {
        self.with_cell(index, CellView::Property(property))
    }

    /// The game with `amount` added to the balance of the player `id`.
    pub open spec fn credit(self, id: PlayerId, amount: int) -> GameView {
        self.with_player(self.index_of(id), self.player(id).deposit(amount))
    }

    /// The game after an attempt to take `amount` from the player `id`:
    /// unchanged where the balance does not cover it.
    pub open spec fn debit(self, id: PlayerId, amount: int) -> GameView {
        self.with_player(self.index_of(id), self.player(id).withdraw(amount))
    }

    /// Whether the balances can hold what `pay_rent` moves.
    pub open spec fn pay_rent_fits(self, property: PropertyView, payer: PlayerId) -> bool {
        match (property.owner, self.rent_of(property)) {
            (Some(owner), Some(rent)) => self.player(payer).can_pay(rent) ==> {
                &&& fits(self.player(payer).balance - rent)
                &&& fits(self.debit(payer, rent).player(owner).balance + rent)
            },
            _ => true,
        }
    }

    /// The game after `payer` has paid the rent of `property` to its owner,
    /// where there is an owner and `payer` can pay; unchanged otherwise.
    pub open spec fn pay_rent(self, property: PropertyView, payer: PlayerId) -> GameView {
        match (property.owner, self.rent_of(property)) {
            (Some(owner), Some(rent)) => if self.player(payer).can_pay(rent) {
                self.debit(payer, rent).credit(owner, rent)
            } else {
                self
            },
            _ => self,
        }
    }

    /// The game after the player `player` has bought the property on the
    /// cell `index`; unchanged where it has an owner or the player cannot pay.
    pub open spec fn buy_property(self, index: int, player: PlayerId) -> GameView {
        match self.property_at(index) {
            Some(property) if property.owner is None && self.player(player).can_pay(
                property.data.price@,
            ) => self.debit(player, property.data.price@).with_property(
                index,
                property.buy(player),
            ),
            _ => self,
        }
    }

    /// The game after the property on the cell `index` was mortgaged;
    /// unchanged where nobody owns it.
    pub open spec fn mortgage_property(self, index: int) -> GameView {
        match self.property_at(index) {
            Some(property) if property.owner is Some => self.credit(
                property.owner->0,
                property.mortgage_reward(),
            ).with_property(index, property.mortgage()),
            _ => self,
        }
    }

    /// The game after the mortgage of the property on the cell `index` was
    /// lifted; unchanged where nobody owns it or the owner cannot pay.
    pub open spec fn recover_property(self, index: int) -> GameView {
        match self.property_at(index) {
            Some(property) if property.owner is Some && self.player(property.owner->0).can_pay(
                property.recovery_price(),
            ) => self.debit(property.owner->0, property.recovery_price()).with_property(
                index,
                property.recover(),
            ),
            _ => self,
        }
    }

    /// Whether an agency can be built on `property`: it is a simple
    /// property below the highest level, with an owner who can pay.
    pub open spec fn can_build_on(self, property: PropertyView) -> bool {
        &&& property.owner is Some
        &&& property.ty is Simple
        &&& property.ty.level() < MAX_LEVEL
        &&& self.player(property.owner->0).can_pay(property.level_price())
    }

    /// The game after an agency was built on the property of the cell
    /// `index`; unchanged where none can be built.
    pub open spec fn build_agency(self, index: int) -> GameView {
        match self.property_at(index) {
            Some(property) if self.can_build_on(property) => self.debit(
                property.owner->0,
                property.level_price(),
            ).with_property(index, property.build_agency()),
            _ => self,
        }
    }

    /// Whether `property` holds an agency that its owner can sell.
    pub open spec fn can_sell_on(self, property: PropertyView) -> bool {
        &&& property.owner is Some
        &&& property.ty is Simple
        &&& property.ty.level() > 0
    }

    /// The game after an agency of the property on the cell `index` was
    /// sold; unchanged where there is none to sell.
    pub open spec fn sell_agency(self, index: int) -> GameView {
        match self.property_at(index) {
            Some(property) if self.can_sell_on(property) => self.credit(
                property.owner->0,
                property.level_price(),
            ).with_property(index, property.sell_agency()),
            _ => self,
        }
    }
}

/// The order of the turns.
impl GameView {
    /// The game as it starts on the board `cells` with the roster `players`:
    /// the first turn of the first round, with the first player who is in
    /// the game, who has yet to roll.
    pub open spec fn start(
        cells: Seq<CellView>,
        players: Seq<PlayerView>,
        self_player: PlayerId,
    ) -> GameView {
        GameView {
            cells,
            players,
            self_player,
            current: match first_in_play(players, 0) {
                Some(index) => index,
                None => 0,
            },
            current_turn: 0,
            current_round: 0,
            rolled_dice: None,
            phase: TurnPhase::AwaitingRoll,
        }
    }

    /// The index of the player whose turn comes next: the first still in the
    /// game after the current one, else the first of the whole roster, else
    /// the current one.
    pub open spec fn next_index(self) -> int {
        match first_in_play(self.players, self.current + 1) {
            Some(i) => i,
            None => match first_in_play(self.players, 0) {
                Some(i) => i,
                None => self.current,
            },
        }
    }

    /// Whether the round ends with this turn: nobody after the current player is still in the game.
    pub open spec fn round_ends(self) -> bool {
        first_in_play(self.players, self.current + 1) is None
    }

    /// The game with the turn passed on, and the dice put away.
    pub open spec fn next_player(self) -> GameView {
        GameView {
            current: self.next_index(),
            rolled_dice: None,
            phase: TurnPhase::AwaitingRoll,
            ..self
        }
    }

    /// Whether a turn more, and a round more, can be counted.
    pub open spec fn turn_can_end(self) -> bool {
        self.current_turn < u64::MAX && self.current_round < u64::MAX
    }

    /// The game after the turn: passed on, one turn later, and, where the
    /// round ended, one round later, for every mortgage too.
    pub open spec fn finish_turn(self) -> GameView {
        let passed = self.next_player();
        if self.round_ends() {
            GameView {
                current_turn: self.current_turn + 1,
                current_round: self.current_round + 1,
                cells: self.cells.map_values(|cell: CellView| cell.mortgage_tick()),
                ..passed
            }
        } else {
            GameView { current_turn: self.current_turn + 1, ..passed }
        }
    }

    /// The game once the player `id` has given up: out of the game, with
    /// nothing owned, and with the turn passed on where it was this player's.
    pub open spec fn surrender_player(self, id: PlayerId) -> GameView {
        let index = self.index_of(id);
        let left = GameView {
            players: self.players.update(index, self.players[index].surrender()),
            cells: self.cells.map_values(|cell: CellView| cell.released_by(id)),
            ..self
        };
        if self.current_player().id == id {
            left.finish_turn()
        } else {
            left
        }
    }
}

/// The steps of a turn.
impl GameView {
    /// The game with the dice rolled, where the current player had yet to roll.
    pub open spec fn roll_dice(self, first: u8, second: u8) -> GameView {
        if self.phase is AwaitingRoll {
            GameView { rolled_dice: Some((first, second)), phase: TurnPhase::DiceRolling, ..self }
        } else {
            self
        }
    }

    /// The game once the dice have been shown: the current player moves on by their sum.
    pub open spec fn dice_transition_end(self) -> GameView {
        if self.phase is DiceRolling {
            GameView {
                phase: TurnPhase::TokenMoving { from: self.current_player().position as usize },
                ..self.with_player(
                    self.current,
                    self.current_player().append_position(dice_sum(self.rolled_dice) as nat),
                )
            }
        } else {
            self
        }
    }

    /// Whether the move from the cell `from` by the sum of the dice went past the first cell.
    pub open spec fn passed_start(self, from: usize) -> bool {
        from + dice_sum(self.rolled_dice) >= CELLS_COUNT
    }

    /// The game with the bonus paid, where the move from `from` went past the first cell.
    pub open spec fn pay_passing_bonus(self, from: usize) -> GameView {
        if self.passed_start(from) {
            self.credit(self.current_id(), PASSING_START_BONUS as int)
        } else {
            self
        }
    }

    /// What `cell` asks of the current player who lands on it, `chance_draw`
    /// being the chance card that the player draws where the cell is a chance.
    pub open spec fn landing_on(self, cell: CellView, chance_draw: usize) -> Landing {
        match cell {
            CellView::Start | CellView::Jail | CellView::FreeParking | CellView::GoToJail =>
                Landing::Nothing,
            CellView::Chance => Landing::Chance {
                amount: Money(chance_card(chance_draw as int) as i64),
            },
            CellView::Tax(amount) => Landing::Tax { amount },
            CellView::Property(property) => if property.owner == Some(self.current_id()) {
                Landing::Nothing
            } else {
                match self.rent_of(property) {
                    Some(rent) => Landing::Rent { rent: Money(rent as i64) },
                    None => Landing::Offer { price: property.data.price },
                }
            },
        }
    }

    /// The game once the current player has landed on `cell`: in jail where
    /// the cell sends there, as it was on any other cell.
    pub open spec fn trigger(self, cell: CellView) -> GameView {
        match cell {
            CellView::GoToJail => self.with_player(
                self.current,
                self.current_player().set_is_in_jail(true),
            ),
            _ => self,
        }
    }

    /// What the cell asks on which the token comes to rest.
    pub open spec fn token_landing(self, chance_draw: usize) -> Option<Landing> {
        match self.phase {
            TurnPhase::TokenMoving { from } => {
                let paid = self.pay_passing_bonus(from);
                Some(paid.landing_on(paid.landed_cell(), chance_draw))
            },
            _ => None,
        }
    }

    /// The game once the token has come to rest: the bonus for passing the
    /// first cell is paid, the cell has had its effect, and the turn is over
    /// unless the cell asks something of the player.
    pub open spec fn player_token_transition_end(self, chance_draw: usize) -> GameView {
        match self.phase {
            TurnPhase::TokenMoving { from } => {
                let paid = self.pay_passing_bonus(from);
                let cell = paid.landed_cell();
                let landing = paid.landing_on(cell, chance_draw);
                let landed = paid.trigger(cell);
                if landing is Nothing {
                    landed.finish_turn()
                } else {
                    GameView { phase: TurnPhase::ResolvingCell { landing }, ..landed }
                }
            },
            _ => self,
        }
    }

    /// Whether the counters and the balance can hold what `player_token_transition_end` adds.
    pub open spec fn token_end_fits(self, chance_draw: usize) -> bool {
        self.phase matches TurnPhase::TokenMoving { from } ==> {
            &&& self.passed_start(from) ==> fits(
                self.current_player().balance + PASSING_START_BONUS,
            )
            &&& self.token_landing(chance_draw) == Some(Landing::Nothing) ==> self.turn_can_end()
        }
    }

    /// The game after `amount` was asked of the current player: paid, and
    /// the turn over, where the player can pay; else the player out of the
    /// game, with the balance as it was.
    pub open spec fn collect(self, amount: int) -> GameView {
        if self.current_player().can_pay(amount) {
            self.debit(self.current_id(), amount).finish_turn()
        } else {
            self.surrender_player(self.current_id())
        }
    }

    /// Whether the current player cannot pay what the open prompt asks.
    pub open spec fn defaults(self) -> bool {
        match self.phase {
            TurnPhase::ResolvingCell { landing } => match landing {
                Landing::Chance { amount } => amount@ <= 0 && !self.current_player().can_pay(
                    -amount@,
                ),
                Landing::Tax { amount } => !self.current_player().can_pay(amount@),
                Landing::Rent { .. } => self.landed_cell() matches CellView::Property(property)
                    && (self.rent_of(property) matches Some(rent)
                    && !self.current_player().can_pay(rent)),
                _ => false,
            },
            _ => false,
        }
    }

    /// The game after the current player has answered the open prompt with `response`.
    ///
    /// A gain is paid out. A loss, a tax and a rent are paid where the
    /// player can pay; from a player who cannot, nothing is taken and to
    /// nobody anything is given: the player is out of the game with the
    /// balance as it was. The rent is what is due on the property as the
    /// game stands; nothing is due where it has no owner any more. A
    /// property that is offered is bought where the answer is `Confirm` and
    /// the purchase goes through. Then the turn is over.
    pub open spec fn respond(self, response: ModalResponse) -> GameView {
        match self.phase {
            TurnPhase::ResolvingCell { landing } => match landing {
                Landing::Nothing => self.finish_turn(),
                Landing::Chance { amount } => if amount@ > 0 {
                    self.credit(self.current_id(), amount@).finish_turn()
                } else {
                    self.collect(-amount@)
                },
                Landing::Tax { amount } => self.collect(amount@),
                Landing::Rent { .. } => match self.landed_cell() {
                    CellView::Property(property) => match self.rent_of(property) {
                        Some(rent) => if self.current_player().can_pay(rent) {
                            self.pay_rent(property, self.current_id()).finish_turn()
                        } else {
                            self.surrender_player(self.current_id())
                        },
                        None => self.finish_turn(),
                    },
                    _ => self.finish_turn(),
                },
                Landing::Offer { .. } => if response is Confirm && self.landed_cell() is Property {
                    self.buy_property(
                        self.current_player().position as int,
                        self.current_id(),
                    ).finish_turn()
                } else {
                    self.finish_turn()
                },
            },
            _ => self,
        }
    }

    /// How `respond` reports on the answer `response`.
    pub open spec fn resolution(self) -> Resolution {
        if !(self.phase is ResolvingCell) {
            Resolution::Ignored
        } else if self.defaults() {
            Resolution::Surrendered { cancel_tasks: self.current_id() == self.self_player }
        } else {
            Resolution::Settled
        }
    }

    /// Whether the counters and the balances can hold what `respond` adds to them.
    pub open spec fn respond_fits(self, response: ModalResponse) -> bool {
        let player = self.current_player();
        match self.phase {
            TurnPhase::ResolvingCell { landing } => self.turn_can_end() && match landing {
                Landing::Nothing => true,
                Landing::Chance { amount } => amount@ > 0 ==> fits(player.balance + amount@),
                Landing::Tax { amount } => player.can_pay(amount@) ==> fits(
                    player.balance - amount@,
                ),
                Landing::Rent { .. } => match self.landed_cell() {
                    CellView::Property(property) => match self.rent_of(property) {
                        Some(rent) => self.pay_rent_fits(property, self.current_id()),
                        None => true,
                    },
                    _ => true,
                },
                Landing::Offer { .. } => response is Confirm ==> (
                self.landed_cell() matches CellView::Property(property) ==> (player.can_pay(
                    property.data.price@,
                ) ==> fits(player.balance - property.data.price@))),
            },
            _ => true,
        }
    }
}

/// A player owns no more properties of a group than the group has.
pub proof fn lemma_owned_at_most_total(cells: Seq<CellView>, player: PlayerId, group: GroupView)
    ensures
        count_owned_in_group(cells, player, group) <= count_in_group(cells, group) <= cells.len(),
    decreases cells.len(),
{
    if cells.len() > 0 {
        lemma_owned_at_most_total(cells.drop_last(), player, group);
    }
}

/// A player owns as many properties of a group as the group has exactly
/// where every property of the group is the player's.
pub proof fn lemma_all_owned_iff_counts_agree(
    cells: Seq<CellView>,
    player: PlayerId,
    group: GroupView,
)
    ensures
        count_owned_in_group(cells, player, group) == count_in_group(cells, group) <==> (forall|
            c: int,
        |
            0 <= c < cells.len() && (#[trigger] cells[c]).in_group(group) ==> cells[c].owned_by(
                player,
            )),
    decreases cells.len(),
{
    if cells.len() > 0 {
        let before = cells.drop_last();
        lemma_all_owned_iff_counts_agree(before, player, group);
        lemma_owned_at_most_total(before, player, group);
        let all_before = forall|c: int|
            0 <= c < before.len() && (#[trigger] before[c]).in_group(group) ==> before[c].owned_by(
                player,
            );
        let all = forall|c: int|
            0 <= c < cells.len() && (#[trigger] cells[c]).in_group(group) ==> cells[c].owned_by(
                player,
            );
        if all {
            assert forall|c: int|
                0 <= c < before.len() && (#[trigger] before[c]).in_group(
                    group,
                ) implies before[c].owned_by(player) by {
                assert(cells[c] == before[c]);
            }
            assert(cells[cells.len() - 1] == cells.last());
        }
        if all_before && (cells.last().in_group(group) ==> cells.last().owned_by(player)) {
            assert forall|c: int|
                0 <= c < cells.len() && (#[trigger] cells[c]).in_group(
                    group,
                ) implies cells[c].owned_by(player) by {
                if c < before.len() {
                    assert(cells[c] == before[c]);
                }
            }
        }
    }
}

/// Monopoly: a player has the monopoly on a group exactly where both
/// counts of `has_from_group` are the number of the properties of the
/// group; and that is where every property of the group is the player's.
pub proof fn lemma_monopoly(game: GameView, player: PlayerId, group: GroupView)
    ensures
        game.has_monopoly_on(player, group) <==> game.has_from_group(player, group) == (
            count_in_group(game.cells, group),
            count_in_group(game.cells, group),
        ),
        game.has_monopoly_on(player, group) <==> (forall|c: int|
            0 <= c < game.cells.len() && (#[trigger] game.cells[c]).in_group(group)
                ==> game.cells[c].owned_by(player)),
{
    lemma_all_owned_iff_counts_agree(game.cells, player, group);
}

/// A property on the board counts among those of its group, and among its owner's.
pub proof fn lemma_member_is_counted(
    cells: Seq<CellView>,
    index: int,
    player: PlayerId,
    group: GroupView,
)
    requires
        0 <= index < cells.len(),
        cells[index].in_group(group),
    ensures
        count_in_group(cells, group) >= 1,
        cells[index].owned_by(player) ==> count_owned_in_group(cells, player, group) >= 1,
    decreases cells.len(),
{
    if index < cells.len() - 1 {
        lemma_member_is_counted(cells.drop_last(), index, player, group);
    }
}

/// To count the properties of a group is to count them cell by cell.
pub proof fn lemma_count_by_index(cells: Seq<CellView>, group: GroupView, end: int)
    requires
        0 <= end <= cells.len(),
    ensures
        count_in_group(cells.take(end), group) == members_below(cells, group, end),
    decreases end,
{
    if end > 0 {
        lemma_count_by_index(cells, group, end - 1);
        assert(cells.take(end).drop_last() =~= cells.take(end - 1));
    }
}

/// Boards that are laid out alike have groups of the same sizes.
pub proof fn lemma_layout_fixes_group_sizes(a: Seq<CellView>, b: Seq<CellView>, group: GroupView)
    requires
        layout(a) == layout(b),
    ensures
        count_in_group(a, group) == count_in_group(b, group),
    decreases a.len(),
{
    assert(b.len() == layout(b).len());
    if a.len() > 0 {
        assert(layout(a.drop_last()) =~= layout(a).drop_last());
        assert(layout(b.drop_last()) =~= layout(b).drop_last());
        lemma_layout_fixes_group_sizes(a.drop_last(), b.drop_last(), group);
        assert(layout(a)[a.len() - 1] == layout(b)[b.len() - 1]);
    }
}

/// Boards that are laid out alike respect their rent tables alike.
pub proof fn lemma_layout_fixes_group_sizes_ok(a: Seq<CellView>, b: Seq<CellView>)
    requires
        layout(a) == layout(b),
        group_sizes_ok(a),
    ensures
        group_sizes_ok(b),
{
    assert(b.len() == layout(b).len());
    assert forall|c: int| 0 <= c < b.len() implies ((#[trigger] b[c]) matches CellView::Property(
        property,
    ) ==> (property.ty.group_limit() matches Some(limit) ==> count_in_group(
        b,
        property.data.group@,
    ) <= limit)) by {
        assert(layout(a)[c] == layout(b)[c]);
        if let CellView::Property(property) = b[c] {
            let other = a[c];
            assert(other is Property);
            lemma_layout_fixes_group_sizes(a, b, property.data.group@);
        }
    }
}

/// A round leaves the layout of the board as it was.
pub proof fn lemma_tick_keeps_layout(cells: Seq<CellView>)
    ensures
        layout(cells.map_values(|cell: CellView| cell.mortgage_tick())) == layout(cells),
{
}

/// A player who gives up leaves the layout of the board as it was.
pub proof fn lemma_release_keeps_layout(cells: Seq<CellView>, id: PlayerId)
    ensures
        layout(cells.map_values(|cell: CellView| cell.released_by(id))) == layout(cells),
{
}

/// In a well-formed roster an id is found at one index only.
pub proof fn lemma_index_of(game: GameView, id: PlayerId, index: int)
    requires
        roster_wf(game.players),
        0 <= index < game.players.len(),
        game.players[index].id == id,
    ensures
        game.has_player(id),
        game.index_of(id) == index,
        game.player(id) == game.players[index],
{
}

/// To replace a player by one with the same id, who stands on the board,
/// keeps the game well formed, and every id where it was.
pub proof fn lemma_with_player_wf(game: GameView, index: int, player: PlayerView)
    requires
        game.wf(),
        0 <= index < game.players.len(),
        player.id == game.players[index].id,
        player.wf(),
    ensures
        game.with_player(index, player).wf(),
        forall|id: PlayerId| game.with_player(index, player).has_player(id) == game.has_player(id),
{
    let after = game.with_player(index, player);
    assert forall|id: PlayerId| after.has_player(id) == game.has_player(id) by {
        if game.has_player(id) {
            let i = game.index_of(id);
            assert(after.players[i].id == id);
        }
        if after.has_player(id) {
            let i = after.index_of(id);
            assert(game.players[i].id == id);
        }
    }
    assert forall|c: int| 0 <= c < after.cells.len() implies ((
    #[trigger] after.cells[c]) matches CellView::Property(property) ==> {
        &&& property.wf()
        &&& property.owner matches Some(id) ==> roster_has(after.players, id)
    }) by {
        if let CellView::Property(property) = game.cells[c] {
            if let Some(id) = property.owner {
                assert(game.has_player(id));
                assert(after.has_player(id));
            }
        }
    }
}

/// To replace a property of the board by one of the same data and kind,
/// which is well formed and whose owner is of the roster, keeps the game
/// well formed.
pub proof fn lemma_with_cell_wf(game: GameView, index: int, property: PropertyView)
    requires
        game.wf(),
        0 <= index < game.cells.len(),
        game.cells[index] matches CellView::Property(before) && before.data == property.data
            && before.ty.group_limit() == property.ty.group_limit(),
        property.wf(),
        property.owner matches Some(id) ==> game.has_player(id),
    ensures
        game.with_cell(index, CellView::Property(property)).wf(),
{
    let after = game.with_cell(index, CellView::Property(property));
    assert(layout(after.cells) =~= layout(game.cells));
    lemma_layout_fixes_group_sizes_ok(game.cells, after.cells);
}

/// A player who gives up has lost, and owns nothing any more. No balance
/// and no position changes, and a property of another that is not
/// mortgaged is what it was.
pub proof fn lemma_surrender_releases(game: GameView, id: PlayerId)
    requires
        game.wf(),
        game.has_player(id),
    ensures
        ({
            let after = game.surrender_player(id);
            &&& after.players.len() == game.players.len()
            &&& after.cells.len() == game.cells.len()
            &&& after.player(id).has_lost
            &&& forall|i: int|
                0 <= i < game.players.len() ==> (#[trigger] after.players[i]) == (if i
                    == game.index_of(id) {
                    game.players[i].surrender()
                } else {
                    game.players[i]
                })
            &&& forall|c: int|
                0 <= c < game.cells.len() && (#[trigger] game.cells[c]).owned_by(id)
                    ==> after.cells[c] == CellView::Property(
                    game.property_at(c)->0.remove_owner(),
                )
            &&& forall|c: int|
                0 <= c < game.cells.len() && !(#[trigger] game.cells[c]).owned_by(id) && (
                game.cells[c] matches CellView::Property(property) ==> property.mortgaged_for is None)
                    ==> after.cells[c] == game.cells[c]
        }),
{
    let index = game.index_of(id);
    let after = game.surrender_player(id);
    lemma_index_of(after, id, index);
}

/// A player who lands on the property of another and can pay the rent
/// pays it to the owner: the one has the rent less, the other the rent
/// more, and nobody else has more or less. Then the turn is over.
pub proof fn lemma_rent_is_paid(game: GameView, response: ModalResponse)
    requires
        game.wf(),
        game.phase matches TurnPhase::ResolvingCell { landing } && landing is Rent,
        game.landed_cell() matches CellView::Property(property) && property.owner is Some
            && property.owner != Some(game.current_id()) && (game.rent_of(
            property,
        ) matches Some(rent) && game.current_player().can_pay(rent)),
    ensures
        ({
            let owner = game.index_of(game.property_at(game.current_player().position as int)->0.owner->0);
            let rent = game.rent_of(game.property_at(game.current_player().position as int)->0)->0;
            let after = game.respond(response);
            &&& after.players.len() == game.players.len()
            &&& 0 <= owner < game.players.len() && owner != game.current
            &&& forall|i: int|
                0 <= i < game.players.len() ==> (#[trigger] after.players[i]) == (if i
                    == game.current {
                    game.players[i].withdraw(rent)
                } else if i == owner {
                    game.players[i].deposit(rent)
                } else {
                    game.players[i]
                })
            &&& after == game.respond(ModalResponse::Confirm)
            &&& after.current == game.next_index()
            &&& after.current_turn == game.current_turn + 1
            &&& after.rolled_dice is None
            &&& after.phase is AwaitingRoll
        }),
{
    let position = game.current_player().position as int;
    let property = game.property_at(position)->0;
    let id = game.current_id();
    let owner_id = property.owner->0;
    let rent = game.rent_of(property)->0;
    let owner = game.index_of(owner_id);
    let debited = game.debit(id, rent);
    lemma_index_of(debited, owner_id, owner);
    let paid = debited.credit(owner_id, rent);
    assert(first_in_play(paid.players, game.current + 1) == first_in_play(
        game.players,
        game.current + 1,
    ) && first_in_play(paid.players, 0) == first_in_play(game.players, 0)) by {
        lemma_same_in_play(game.players, paid.players, game.current + 1);
        lemma_same_in_play(game.players, paid.players, 0);
    }
}

/// A player who lands on a property without owner and can pay its price
/// has it for the price on `Confirm`, and nothing is taken on `Cancel`.
/// Either way nobody else has more or less, and the turn is over.
pub proof fn lemma_offer_is_taken_or_left(game: GameView)
    requires
        game.wf(),
        game.phase matches TurnPhase::ResolvingCell { landing } && landing is Offer,
        game.landed_cell() matches CellView::Property(property) && property.owner is None
            && game.current_player().can_pay(property.data.price@),
    ensures
        ({
            let position = game.current_player().position as int;
            let property = game.property_at(position)->0;
            let bought = game.respond(ModalResponse::Confirm);
            let left = game.respond(ModalResponse::Cancel);
            &&& bought.cells.len() == game.cells.len()
            &&& bought.cells[position] == CellView::Property(property.buy(game.current_id()))
            &&& bought.players.len() == game.players.len()
            &&& forall|i: int|
                0 <= i < game.players.len() ==> (#[trigger] bought.players[i]) == (if i
                    == game.current {
                    game.players[i].withdraw(property.data.price@)
                } else {
                    game.players[i]
                })
            &&& left.players == game.players
            &&& left.cells.len() == game.cells.len()
            &&& left.cells[position] == game.cells[position]
            &&& bought.current == game.next_index() && left.current == game.next_index()
            &&& bought.current_turn == game.current_turn + 1 && left.current_turn
                == game.current_turn + 1
            &&& bought.rolled_dice is None && left.rolled_dice is None
            &&& bought.phase is AwaitingRoll && left.phase is AwaitingRoll
        }),
{
    let position = game.current_player().position as int;
    let property = game.property_at(position)->0;
    let id = game.current_id();
    let paid = game.debit(id, property.data.price@);
    let owned = paid.with_property(position, property.buy(id));
    assert(first_in_play(owned.players, game.current + 1) == first_in_play(
        game.players,
        game.current + 1,
    ) && first_in_play(owned.players, 0) == first_in_play(game.players, 0)) by {
        lemma_same_in_play(game.players, owned.players, game.current + 1);
        lemma_same_in_play(game.players, owned.players, 0);
    }
}

/// Who is first in play goes by who has lost alone.
pub proof fn lemma_same_in_play(before: Seq<PlayerView>, after: Seq<PlayerView>, start: int)
    requires
        before.len() == after.len(),
        forall|i: int|
            0 <= i < before.len() ==> (#[trigger] before[i]).has_lost == after[i].has_lost,
    ensures
        first_in_play(before, start) == first_in_play(after, start),
    decreases before.len() - start,
{
    if 0 <= start < before.len() && before[start].has_lost {
        lemma_same_in_play(before, after, start + 1);
    }
}

/// A player who cannot pay what the open prompt asks is out of the game
/// and pays nothing: the answer does what giving up does, and every
/// balance, that of the player too, is what it was. So nobody gains, the
/// owner to whom rent was due no more than anybody.
pub proof fn lemma_default_moves_no_money(game: GameView, response: ModalResponse)
    requires
        game.wf(),
        game.defaults(),
    ensures
        game.respond(response) == game.surrender_player(game.current_id()),
        game.respond(response).players.len() == game.players.len(),
        game.respond(response).players[game.current].has_lost,
        forall|i: int|
            0 <= i < game.players.len() ==> (#[trigger] game.respond(response).players[i]).balance
                == game.players[i].balance,
{
}

/// What `first_in_play` finds: the first player from `start` on who is
/// still in the game, every player before that one being out; or nobody,
/// every player from `start` on being out.
pub proof fn lemma_first_in_play(players: Seq<PlayerView>, start: int)
    requires
        0 <= start,
    ensures
        match first_in_play(players, start) {
            Some(found) => {
                &&& start <= found < players.len()
                &&& !players[found].has_lost
                &&& forall|j: int| start <= j < found ==> (#[trigger] players[j]).has_lost
            },
            None => forall|j: int| start <= j < players.len() ==> (#[trigger] players[j]).has_lost,
        },
    decreases players.len() - start,
{
    if start < players.len() && players[start].has_lost {
        lemma_first_in_play(players, start + 1);
    }
}

/// The turn passes to a player who is still in the game, as long as there is one.
pub proof fn lemma_next_player_in_play(game: GameView)
    requires
        0 <= game.current < game.players.len(),
    ensures
        0 <= game.next_index() < game.players.len(),
        game.next_player().turn_holder_in_play(),
        game.round_ends() <==> !(game.current < game.next_index() && !game.players[game.next_index()].has_lost),
{
    lemma_first_in_play(game.players, game.current + 1);
    lemma_first_in_play(game.players, 0);
}

} // verus!
