//! The game as a whole: the board, the roster, whose turn it is, and the
//! steps of a turn.

use crate::cell::{
    dice_sum, AgencyPropertyError, Cell, CellView, FreePropertyError, HasOwnerError,
    NoOwnerError,
    OwnedPropertyError, Property, PropertyGroup, CELLS_COUNT, MAX_LEVEL,
};
use crate::components::in_game_modal::ModalResponse;
use crate::game_data::{default_board, default_roster, init_cells, init_players, lemma_default_setup_wf};
use crate::game_view::{
    count_in_group, count_owned_in_group, first_in_play, group_sizes_ok,
    lemma_default_moves_no_money, lemma_first_in_play,
    lemma_index_of, lemma_layout_fixes_group_sizes_ok, lemma_next_player_in_play,
    lemma_release_keeps_layout,
    lemma_tick_keeps_layout, lemma_with_cell_wf, lemma_with_player_wf, players_on_cell,
    properties_in_group, GameView,
};
use crate::money::{fits, Money};
use crate::player::{NotEnoughMoneyError, Player, PlayerId, PlayerView};
use crate::turn::{Landing, Resolution, TurnPhase, CHANCE_CARDS, PASSING_START_BONUS};
use vstd::prelude::*;

verus! {

/// The game: the board, the roster, whose turn it is and where the turn stands.
#[derive(Debug, Clone)]
pub struct GameState {
    cells: [Cell; CELLS_COUNT],
    players: Vec<Player>,
    self_player: PlayerId,
    current_player: usize,
    current_turn: u64,
    current_round: u64,
    rolled_dice: Option<(u8, u8)>,
    phase: TurnPhase,
}

impl View for GameState {
    type V = GameView;

    closed spec fn view(&self) -> GameView {
        GameView {
            cells: self.cells@.map_values(|cell: Cell| cell@),
            players: self.players@.map_values(|player: Player| player@),
            self_player: self.self_player,
            current: self.current_player as int,
            current_turn: self.current_turn as nat,
            current_round: self.current_round as nat,
            rolled_dice: self.rolled_dice,
            phase: self.phase,
        }
    }
}

/// What a game holds.
impl GameState {
    /// See `GameView::wf`. Every game that this library hands out is well formed.
    pub open spec fn wf(&self) -> bool {
        self@.wf()
    }

    /// The player who plays on this machine.
    pub fn self_player(&self) -> (id: PlayerId)
        ensures
            id == self@.self_player,
    {
        self.self_player
    }

    /// The player whose turn it is.
    pub fn current_player(&self) -> (player: &Player)
        requires
            self.wf(),
        ensures
            player@ == self@.current_player(),
            player.wf(),
    {
        &self.players[self.current_player]
    }

    pub fn rolled_dice(&self) -> (dice: Option<(u8, u8)>)
        ensures
            dice == self@.rolled_dice,
    {
        self.rolled_dice
    }

    pub fn get_cell(&self, index: usize) -> (cell: Cell)
        requires
            index < CELLS_COUNT,
        ensures
            cell@ == self@.cells[index as int],
    {
        self.cells[index]
    }

    pub fn current_turn(&self) -> (turn: u64)
        ensures
            turn == self@.current_turn,
    {
        self.current_turn
    }

    pub fn current_round(&self) -> (round: u64)
        ensures
            round == self@.current_round,
    {
        self.current_round
    }

    /// Where the turn stands.
    pub fn phase(&self) -> (phase: TurnPhase)
        ensures
            phase == self@.phase,
    {
        self.phase
    }

    /// The roster, in the order in which the players joined.
    pub fn get_players(&self) -> (players: &Vec<Player>)
        ensures
            players@.len() == self@.players.len(),
            forall|i: int| 0 <= i < players@.len() ==> (#[trigger] players@[i])@ == self@.players[i],
    {
        &self.players
    }

    /// The index in the roster of the player `id`, where there is one.
    pub fn find_player(&self, id: PlayerId) -> (found: Option<usize>)
        ensures
            found is Some <==> self@.has_player(id),
            found matches Some(index) ==> index < self@.players.len() && self@.players[index as int].id
                == id,
            self.wf() ==> (found matches Some(index) ==> index == self@.index_of(id)),
    {
        let mut i: usize = 0;
        while i < self.players.len()
            invariant
                i <= self.players.len(),
                forall|j: int| 0 <= j < i ==> (#[trigger] self@.players[j]).id != id,
            decreases self.players.len() - i,
        {
            if self.players[i].id() == id {
                return Some(i);
            }
            i += 1;
        }
        None
    }

    pub fn get_player_by_id(&self, id: PlayerId) -> (player: &Player)
        requires
            self.wf(),
            self@.has_player(id),
        ensures
            player@ == self@.player(id),
            player@.id == id,
            player.wf(),
    {
        let found = self.find_player(id);
        &self.players[found.unwrap()]
    }
}

/// Setting a game up.
impl GameState {
    /// Whether no two players of the roster share an id.
    fn ids_are_distinct(&self) -> (distinct: bool)
        ensures
            distinct == (forall|i: int, j: int|
                0 <= i < j < self@.players.len() ==> (#[trigger] self@.players[i]).id != (
                #[trigger] self@.players[j]).id),
    {
        let count = self.players.len();
        let mut j: usize = 0;
        while j < count
            invariant
                count == self.players.len(),
                j <= count,
                forall|a: int, b: int|
                    0 <= a < b < j ==> (#[trigger] self@.players[a]).id != (
                    #[trigger] self@.players[b]).id,
            decreases count - j,
        {
            let mut i: usize = 0;
            while i < j
                invariant
                    count == self.players.len(),
                    j < count,
                    i <= j,
                    forall|a: int| 0 <= a < i ==> (#[trigger] self@.players[a]).id
                        != self@.players[j as int].id,
                decreases j - i,
            {
                if self.players[i].id() == self.players[j].id() {
                    assert(self@.players[i as int].id == self@.players[j as int].id);
                    return false;
                }
                i += 1;
            }
            j += 1;
        }
        true
    }

    /// Whether every owner of a property is of the roster.
    fn owners_are_known(&self) -> (known: bool)
        ensures
            known == (forall|c: int|
                0 <= c < self@.cells.len() ==> ((
                #[trigger] self@.cells[c]) matches CellView::Property(property) ==> (
                property.owner matches Some(id) ==> self@.has_player(id)))),
    {
        let mut c: usize = 0;
        while c < CELLS_COUNT
            invariant
                c <= CELLS_COUNT,
                forall|b: int|
                    0 <= b < c ==> ((#[trigger] self@.cells[b]) matches CellView::Property(
                        property,
                    ) ==> (property.owner matches Some(id) ==> self@.has_player(id))),
            decreases CELLS_COUNT - c,
        {
            if let Cell::Property(property) = self.cells[c] {
                if let Some(id) = property.owner() {
                    if self.find_player(id).is_none() {
                        assert(self@.cells[c as int] == CellView::Property(property@));
                        return false;
                    }
                }
            }
            c += 1;
        }
        true
    }

    /// Whether no group has more properties than the rent tables of its properties provide for.
    fn group_sizes_fit(&self) -> (fit: bool)
        ensures
            fit == group_sizes_ok(self@.cells),
    {
        let mut c: usize = 0;
        while c < CELLS_COUNT
            invariant
                c <= CELLS_COUNT,
                forall|b: int|
                    0 <= b < c ==> ((#[trigger] self@.cells[b]) matches CellView::Property(
                        property,
                    ) ==> (property.ty.group_limit() matches Some(limit) ==> count_in_group(
                        self@.cells,
                        property.data.group@,
                    ) <= limit)),
            decreases CELLS_COUNT - c,
        {
            if let Cell::Property(property) = self.cells[c] {
                if let Some(limit) = property.ty().group_size_limit() {
                    let group = property.data().group;
                    let (_, total) = self.has_from_group(self.self_player, &group);
                    if total > limit {
                        assert(self@.cells[c as int] == CellView::Property(property@));
                        return false;
                    }
                }
            }
            c += 1;
        }
        true
    }

    /// Sets a game up on the board `cells` with the roster `players`, of
    /// whom `self_player` plays on this machine. The game starts as
    /// `GameView::start` says.
    ///
    /// There is no game where the roster is empty or holds an id twice,
    /// where `self_player` or the owner of a property is not of the roster,
    /// or where a group has more properties than the rent tables of its
    /// properties provide for.
    pub fn with_setup(cells: [Cell; CELLS_COUNT], players: Vec<Player>, self_player: PlayerId) -> (game:
        Option<GameState>)
        requires
            forall|i: int| 0 <= i < players@.len() ==> (#[trigger] players@[i]).wf(),
            forall|c: int|
                0 <= c < cells@.len() ==> ((#[trigger] cells@[c]) matches Cell::Property(property)
                    ==> property.wf()),
        ensures
            game is Some <==> GameView::start(
                cells@.map_values(|cell: Cell| cell@),
                players@.map_values(|player: Player| player@),
                self_player,
            ).wf(),
            game matches Some(game) ==> {
                &&& game@ == GameView::start(
                    cells@.map_values(|cell: Cell| cell@),
                    players@.map_values(|player: Player| player@),
                    self_player,
                )
                &&& game.wf()
                &&& game@.turn_holder_in_play()
            },
    {
        let mut game = GameState {
            cells,
            players,
            self_player,
            current_player: 0,
            current_turn: 0,
            current_round: 0,
            rolled_dice: None,
            phase: TurnPhase::AwaitingRoll,
        };
        proof {
            lemma_first_in_play(game@.players, 0);
        }
        if game.players.len() == 0 || !game.ids_are_distinct() || game.find_player(
            self_player,
        ).is_none() || !game.owners_are_known() || !game.group_sizes_fit() {
            return None;
        }
        match game.scan_in_play(0) {
            Some(index) => {
                game.current_player = index;
            },
            None => {},
        }
        Some(game)
    }

    /// A first game: the board of `init_cells` and the players of
    /// `init_players`, of whom the first plays on this machine and has the
    /// first turn.
    pub fn new() -> (game: GameState)
        ensures
            game@ == GameView::start(default_board(), default_roster(), 0),
            game.wf(),
            game@.turn_holder_in_play(),
    {
        let cells = init_cells();
        let players = init_players();
        proof {
            lemma_default_setup_wf();
        }
        GameState::with_setup(cells, players, 0).unwrap()
    }
}

/// Who stands where, and who owns what.
impl GameState {
    /// The players who stand on the cell `index`, in the order of the roster.
    pub fn get_players_by_cell(&self, index: usize) -> (found: Vec<Player>)
        ensures
            found@.map_values(|player: Player| player@) == players_on_cell(
                self@.players,
                index as nat,
            ),
    {
        let mut found: Vec<Player> = Vec::new();
        let mut i: usize = 0;
        while i < self.players.len()
            invariant
                i <= self.players.len(),
                found@.map_values(|player: Player| player@) == players_on_cell(
                    self@.players.take(i as int),
                    index as nat,
                ),
            decreases self.players.len() - i,
        {
            assert(self@.players.take(i + 1).drop_last() =~= self@.players.take(i as int));
            if self.players[i].position() == index {
                let player = self.players[i].clone();
                found.push(player);
            }
            i += 1;
        }
        assert(self@.players.take(i as int) =~= self@.players);
        found
    }

    /// The properties of `group`, in the order of the board.
    pub fn get_properties_by_group(&self, group: &PropertyGroup) -> (found: Vec<Property>)
        ensures
            found@.map_values(|property: Property| property@) == properties_in_group(
                self@.cells,
                group@,
            ),
    {
        let mut found: Vec<Property> = Vec::new();
        let mut i: usize = 0;
        while i < CELLS_COUNT
            invariant
                i <= CELLS_COUNT,
                found@.map_values(|property: Property| property@) == properties_in_group(
                    self@.cells.take(i as int),
                    group@,
                ),
            decreases CELLS_COUNT - i,
        {
            assert(self@.cells.take(i + 1).drop_last() =~= self@.cells.take(i as int));
            if let Cell::Property(property) = self.cells[i] {
                if property.data().group == *group {
                    found.push(property);
                }
            }
            i += 1;
        }
        assert(self@.cells.take(i as int) =~= self@.cells);
        found
    }

    /// How many properties of `group` the player `player` owns, and how many there are.
    pub fn has_from_group(&self, player: PlayerId, group: &PropertyGroup) -> (counts: (
        usize,
        usize,
    ))
        ensures
            (counts.0 as nat, counts.1 as nat) == self@.has_from_group(player, group@),
            counts.0 <= counts.1 <= CELLS_COUNT,
    {
        let mut owns: usize = 0;
        let mut total: usize = 0;
        let mut i: usize = 0;
        while i < CELLS_COUNT
            invariant
                i <= CELLS_COUNT,
                owns <= total <= i,
                owns == count_owned_in_group(self@.cells.take(i as int), player, group@),
                total == count_in_group(self@.cells.take(i as int), group@),
            decreases CELLS_COUNT - i,
        {
            assert(self@.cells.take(i + 1).drop_last() =~= self@.cells.take(i as int));
            if let Cell::Property(property) = self.cells[i] {
                if property.data().group == *group {
                    total += 1;
                    if property.owner() == Some(player) {
                        owns += 1;
                    }
                }
            }
            i += 1;
        }
        assert(self@.cells.take(i as int) =~= self@.cells);
        (owns, total)
    }

    /// Whether `player` owns every property of `group`: the two counts of
    /// `has_from_group` are the same.
    pub fn has_monopoly_on(&self, player: PlayerId, group: &PropertyGroup) -> (monopoly: bool)
        ensures
            monopoly == self@.has_monopoly_on(player, group@),
            monopoly <==> self@.has_from_group(player, group@).0 == self@.has_from_group(
                player,
                group@,
            ).1,
    {
        let (owns, total) = self.has_from_group(player, group);
        owns == total
    }
}

/// The ledgers of the players.
impl GameState {
    /// Adds `amount` to the balance of the player `id`.
    pub(crate) fn credit(&mut self, id: PlayerId, amount: Money)
        requires
            old(self).wf(),
            old(self)@.has_player(id),
            fits(old(self)@.player(id).balance + amount@),
        ensures
            final(self)@ == old(self)@.credit(id, amount@),
            final(self).wf(),
            forall|other: PlayerId| final(self)@.has_player(other) == old(self)@.has_player(other),
            old(self)@.turn_holder_in_play() ==> final(self)@.turn_holder_in_play(),
    {
        let index = self.find_player(id).unwrap();
        proof {
            lemma_with_player_wf(self@, index as int, self@.player(id).deposit(amount@));
        }
        self.players[index].deposit(amount);
        assert(self@.players =~= old(self)@.credit(id, amount@).players);
    }

    /// Takes `amount` from the balance of the player `id`, or fails and
    /// changes nothing where the balance does not cover it.
    pub(crate) fn debit(&mut self, id: PlayerId, amount: Money) -> (result: Result<
        (),
        NotEnoughMoneyError,
    >)
        requires
            old(self).wf(),
            old(self)@.has_player(id),
            old(self)@.player(id).can_pay(amount@) ==> fits(
                old(self)@.player(id).balance - amount@,
            ),
        ensures
            final(self)@ == old(self)@.debit(id, amount@),
            final(self).wf(),
            forall|other: PlayerId| final(self)@.has_player(other) == old(self)@.has_player(other),
            old(self)@.turn_holder_in_play() ==> final(self)@.turn_holder_in_play(),
            result is Ok <==> old(self)@.player(id).can_pay(amount@),
            result matches Err(error) ==> {
                &&& error.player_id == id
                &&& error.player_name@ == old(self)@.player(id).name
                &&& error.amount == amount
            },
    {
        let index = self.find_player(id).unwrap();
        proof {
            lemma_with_player_wf(self@, index as int, self@.player(id).withdraw(amount@));
        }
        let result = self.players[index].withdraw(amount);
        assert(self@.players =~= old(self)@.debit(id, amount@).players);
        result
    }
}

/// The order of the turns.
impl GameState {
    /// The first index from `start` on at which a player is still in the game.
    fn scan_in_play(&self, start: usize) -> (found: Option<usize>)
        ensures
            match found {
                Some(index) => first_in_play(self@.players, start as int) == Some(index as int),
                None => first_in_play(self@.players, start as int) is None,
            },
    {
        let mut i: usize = start;
        while i < self.players.len()
            invariant
                start <= i,
                first_in_play(self@.players, start as int) == first_in_play(
                    self@.players,
                    i as int,
                ),
            decreases self.players.len() - i,
        {
            if !self.players[i].has_lost() {
                return Some(i);
            }
            i += 1;
        }
        None
    }

    /// Passes the turn to the next player who is still in the game, and puts
    /// the dice away. Returns whether the round ended: nobody after the
    /// current player was still in the game, so that the turn went back to the
    /// first such player of the roster, or stayed where it was.
    pub fn next_player(&mut self) -> (is_round_ended: bool)
        requires
            old(self).wf(),
        ensures
            final(self)@ == old(self)@.next_player(),
            is_round_ended == old(self)@.round_ends(),
            final(self).wf(),
            final(self)@.turn_holder_in_play(),
    {
        proof {
            lemma_next_player_in_play(self@);
        }
        let last = self.players.len() - 1;
        let in_line = if self.current_player < last {
            self.scan_in_play(self.current_player + 1)
        } else {
            None
        };
        let (next, is_round_ended) = match in_line {
            Some(index) => (index, false),
            None => match self.scan_in_play(0) {
                Some(index) => (index, true),
                None => (self.current_player, true),
            },
        };
        self.current_player = next;
        self.rolled_dice = None;
        self.phase = TurnPhase::AwaitingRoll;
        is_round_ended
    }

    /// Lets one round pass for every property of the board.
    fn tick_mortgages(&mut self)
        requires
            old(self).wf(),
        ensures
            final(self)@ == (GameView {
                cells: old(self)@.cells.map_values(|cell: CellView| cell.mortgage_tick()),
                ..old(self)@
            }),
            final(self).wf(),
    {
        let ghost before = self@;
        let ghost ticked = before.cells.map_values(|cell: CellView| cell.mortgage_tick());
        let mut i: usize = 0;
        while i < CELLS_COUNT
            invariant
                i <= CELLS_COUNT,
                before.wf(),
                ticked == before.cells.map_values(|cell: CellView| cell.mortgage_tick()),
                self@ == (GameView { cells: self@.cells, ..before }),
                self@.cells.len() == CELLS_COUNT,
                forall|j: int| 0 <= j < i ==> (#[trigger] self@.cells[j]) == ticked[j],
                forall|j: int| i <= j < CELLS_COUNT ==> (#[trigger] self@.cells[j]) == before.cells[j],
            decreases CELLS_COUNT - i,
        {
            let ghost so_far = self@;
            assert(self@.cells[i as int] == before.cells[i as int]);
            if let Cell::Property(mut property) = self.cells[i] {
                property.mortgage_tick();
                self.cells[i] = Cell::Property(property);
            }
            assert(self@.cells =~= so_far.cells.update(i as int, ticked[i as int]));
            i += 1;
        }
        assert(self@.cells =~= ticked);
        proof {
            lemma_tick_keeps_layout(before.cells);
            lemma_layout_fixes_group_sizes_ok(before.cells, ticked);
        }
    }

    /// Ends the turn: passes it on, counts one turn more, and, where the
    /// round ended with it, counts one round more and lets that round pass
    /// for every mortgage.
    pub fn finish_turn(&mut self)
        requires
            old(self).wf(),
            old(self)@.current_turn < u64::MAX,
            old(self)@.current_round < u64::MAX,
        ensures
            final(self)@ == old(self)@.finish_turn(),
            final(self).wf(),
            final(self)@.turn_holder_in_play(),
    {
        let is_round_ended = self.next_player();
        self.current_turn += 1;
        if is_round_ended {
            self.current_round += 1;
            self.tick_mortgages();
        }
    }
}

/// Giving up.
impl GameState {
    /// Puts every property that the player `id` owns back on the market.
    fn release_properties(&mut self, id: PlayerId)
        requires
            old(self).wf(),
        ensures
            final(self)@ == (GameView {
                cells: old(self)@.cells.map_values(|cell: CellView| cell.released_by(id)),
                ..old(self)@
            }),
            final(self).wf(),
    {
        let ghost before = self@;
        let ghost released = before.cells.map_values(|cell: CellView| cell.released_by(id));
        let mut i: usize = 0;
        while i < CELLS_COUNT
            invariant
                i <= CELLS_COUNT,
                before.wf(),
                released == before.cells.map_values(|cell: CellView| cell.released_by(id)),
                self@ == (GameView { cells: self@.cells, ..before }),
                self@.cells.len() == CELLS_COUNT,
                forall|j: int| 0 <= j < i ==> (#[trigger] self@.cells[j]) == released[j],
                forall|j: int| i <= j < CELLS_COUNT ==> (#[trigger] self@.cells[j]) == before.cells[j],
            decreases CELLS_COUNT - i,
        {
            let ghost so_far = self@;
            assert(self@.cells[i as int] == before.cells[i as int]);
            if let Cell::Property(mut property) = self.cells[i] {
                if property.owner() == Some(id) {
                    property.remove_owner();
                    self.cells[i] = Cell::Property(property);
                }
            }
            assert(self@.cells =~= so_far.cells.update(i as int, released[i as int]));
            i += 1;
        }
        assert(self@.cells =~= released);
        proof {
            lemma_release_keeps_layout(before.cells, id);
            lemma_layout_fixes_group_sizes_ok(before.cells, released);
        }
    }

    /// Takes the player `player` out of the game: the player has lost, and
    /// what the player owned is back on the market. Where it was this
    /// player's turn, the turn ends at once. Returns whether the tasks that
    /// run for the player on this machine are to be cancelled: they are where
    /// it is this machine's player who gives up.
    pub fn surrender_player(&mut self, player: PlayerId) -> (cancel_tasks: bool)
        requires
            old(self).wf(),
            old(self)@.has_player(player),
            old(self)@.current_player().id == player ==> old(self)@.current_turn < u64::MAX && old(
                self,
            )@.current_round < u64::MAX,
        ensures
            final(self)@ == old(self)@.surrender_player(player),
            final(self).wf(),
            cancel_tasks == (player == old(self)@.self_player),
            old(self)@.turn_holder_in_play() ==> final(self)@.turn_holder_in_play(),
            old(self)@.current_player().id == player ==> final(self)@.turn_holder_in_play(),
    {
        let index = self.find_player(player).unwrap();
        let was_current = index == self.current_player;
        proof {
            lemma_with_player_wf(self@, index as int, self@.players[index as int].surrender());
        }
        self.players[index].surrender();
        assert(self@.players =~= old(self)@.players.update(
            index as int,
            old(self)@.players[index as int].surrender(),
        ));
        self.release_properties(player);
        if was_current {
            self.finish_turn();
        }
        player == self.self_player
    }
}

/// Buying, mortgaging and building.
impl GameState {
    /// The index in the roster of the owner of `property`; that of the
    /// current player where nobody owns it, who is then charged nothing.
    fn owner_index(&self, property: &Property) -> (index: usize)
        requires
            self.wf(),
            self@.has_property(property@),
        ensures
            index < self@.players.len(),
            property@.owner matches Some(id) ==> self@.index_of(id) == index && self@.players[index as int].id
                == id,
    {
        match property.owner() {
            Some(id) => {
                self.find_player(id).unwrap()
            },
            None => self.current_player,
        }
    }

    /// Puts `property` on the cell `index`, in place of the property that lay there.
    fn put_back(&mut self, index: usize, property: Property)
        requires
            index < CELLS_COUNT,
            old(self).wf(),
            old(self)@.cells[index as int] matches CellView::Property(was) && was.data
                == property@.data && was.ty.group_limit() == property@.ty.group_limit(),
            property.wf(),
            property@.owner matches Some(id) ==> old(self)@.has_player(id),
        ensures
            final(self)@ == old(self)@.with_property(index as int, property@),
            final(self).wf(),
    {
        proof {
            lemma_with_cell_wf(self@, index as int, property@);
        }
        self.cells[index] = Cell::Property(property);
        assert(self@.cells =~= old(self)@.cells.update(
            index as int,
            CellView::Property(property@),
        ));
    }

    /// The property on the cell `index`.
    fn property_on(&self, index: usize) -> (property: Property)
        requires
            self.wf(),
            index < CELLS_COUNT,
            self@.property_at(index as int) is Some,
        ensures
            self@.property_at(index as int) == Some(property@),
            self@.cells[index as int] == CellView::Property(property@),
            self@.has_property(property@),
            property.wf(),
    {
        self.cells[index].try_unwrap_property().unwrap()
    }

    /// Sells the property on the cell `index` to the player `player`, who
    /// pays its price. Fails, and changes nothing, where the property has an
    /// owner or the player cannot pay.
    pub fn buy_property(&mut self, index: usize, player: PlayerId) -> (result: Result<
        (),
        FreePropertyError,
    >)
        requires
            old(self).wf(),
            index < CELLS_COUNT,
            old(self)@.has_player(player),
            old(self)@.property_at(index as int) matches Some(property) && (old(self)@.player(
                player,
            ).can_pay(property.data.price@) ==> fits(
                old(self)@.player(player).balance - property.data.price@,
            )),
        ensures
            final(self)@ == old(self)@.buy_property(index as int, player),
            final(self).wf(),
            old(self)@.turn_holder_in_play() ==> final(self)@.turn_holder_in_play(),
            match result {
                Ok(()) => {
                    &&& old(self)@.property_at(index as int)->0.owner is None
                    &&& old(self)@.player(player).can_pay(
                        old(self)@.property_at(index as int)->0.data.price@,
                    )
                },
                Err(FreePropertyError::AlreadyOwned { source }) => {
                    &&& old(self)@.property_at(index as int)->0.owner == Some(source.owner_id)
                    &&& source.owner_name matches Some(name) && name@ == old(self)@.player(
                        source.owner_id,
                    ).name
                    &&& source.property_title@ == old(self)@.property_at(
                        index as int,
                    )->0.data.title@
                },
                Err(FreePropertyError::NotEnoughMoney { source }) => {
                    &&& old(self)@.property_at(index as int)->0.owner is None
                    &&& !old(self)@.player(player).can_pay(
                        old(self)@.property_at(index as int)->0.data.price@,
                    )
                    &&& source.player_id == player
                    &&& source.player_name@ == old(self)@.player(player).name
                    &&& source.amount == old(self)@.property_at(index as int)->0.data.price
                },
            },
    {
        let ghost before = self@;
        let mut property = self.property_on(index);
        let at = self.find_player(player).unwrap();
        let result = property.buy(&mut self.players[at]);
        assert(self@.players =~= before.players.update(at as int, self@.players[at as int]));
        proof {
            lemma_with_player_wf(before, at as int, self@.players[at as int]);
        }
        self.put_back(index, property);
        proof {
            if result is Err {
                assert(self@.players =~= before.players);
                assert(self@.cells =~= before.cells);
            }
        }
        match result {
            Err(FreePropertyError::AlreadyOwned { source }) => {
                // The roster knows the owner by name.
                let owner = self.get_player_by_id(source.owner_id);
                Err(
                    FreePropertyError::AlreadyOwned {
                        source: HasOwnerError {
                            property_title: source.property_title,
                            owner_name: Some(owner.name().to_owned()),
                            owner_id: source.owner_id,
                        },
                    },
                )
            },
            other => other,
        }
    }

    /// Mortgages the property on the cell `index`, for which its owner gets
    /// half its price. Fails, and changes nothing, where nobody owns it.
    pub fn mortgage_property(&mut self, index: usize) -> (result: Result<(), NoOwnerError>)
        requires
            old(self).wf(),
            index < CELLS_COUNT,
            old(self)@.property_at(index as int) matches Some(property) && (
            property.owner matches Some(owner) ==> fits(
                old(self)@.player(owner).balance + property.mortgage_reward(),
            )),
        ensures
            final(self)@ == old(self)@.mortgage_property(index as int),
            final(self).wf(),
            old(self)@.turn_holder_in_play() ==> final(self)@.turn_holder_in_play(),
            result is Ok <==> old(self)@.property_at(index as int)->0.owner is Some,
            result matches Err(error) ==> error.property_title@ == old(self)@.property_at(
                index as int,
            )->0.data.title@,
    {
        let ghost before = self@;
        let mut property = self.property_on(index);
        let at = self.owner_index(&property);
        let result = property.mortgage(&mut self.players[at]);
        assert(self@.players =~= before.players.update(at as int, self@.players[at as int]));
        proof {
            lemma_with_player_wf(before, at as int, self@.players[at as int]);
        }
        self.put_back(index, property);
        proof {
            if result is Err {
                assert(self@.players =~= before.players);
                assert(self@.cells =~= before.cells);
            }
        }
        result
    }

    /// Lifts the mortgage of the property on the cell `index`, for which
    /// its owner pays six tenths of its price. Fails, and changes nothing,
    /// where nobody owns it or the owner cannot pay.
    pub fn recover_property(&mut self, index: usize) -> (result: Result<(), OwnedPropertyError>)
        requires
            old(self).wf(),
            index < CELLS_COUNT,
            old(self)@.property_at(index as int) matches Some(property) && (
            property.owner matches Some(owner) ==> (old(self)@.player(owner).can_pay(
                property.recovery_price(),
            ) ==> fits(old(self)@.player(owner).balance - property.recovery_price()))),
        ensures
            final(self)@ == old(self)@.recover_property(index as int),
            final(self).wf(),
            old(self)@.turn_holder_in_play() ==> final(self)@.turn_holder_in_play(),
            match result {
                Ok(()) => {
                    &&& old(self)@.property_at(index as int)->0.owner matches Some(owner)
                    &&& old(self)@.player(owner).can_pay(
                        old(self)@.property_at(index as int)->0.recovery_price(),
                    )
                },
                Err(OwnedPropertyError::NoOwner { source }) => {
                    &&& old(self)@.property_at(index as int)->0.owner is None
                    &&& source.property_title@ == old(self)@.property_at(
                        index as int,
                    )->0.data.title@
                },
                Err(OwnedPropertyError::NotEnoughMoney { source }) => {
                    &&& old(self)@.property_at(index as int)->0.owner matches Some(owner)
                    &&& !old(self)@.player(owner).can_pay(
                        old(self)@.property_at(index as int)->0.recovery_price(),
                    )
                    &&& source.player_id == owner
                    &&& source.player_name@ == old(self)@.player(owner).name
                    &&& source.amount@ == old(self)@.property_at(index as int)->0.recovery_price()
                },
            },
    {
        let ghost before = self@;
        let mut property = self.property_on(index);
        let at = self.owner_index(&property);
        let result = property.recover(&mut self.players[at]);
        assert(self@.players =~= before.players.update(at as int, self@.players[at as int]));
        proof {
            lemma_with_player_wf(before, at as int, self@.players[at as int]);
        }
        self.put_back(index, property);
        proof {
            if result is Err {
                assert(self@.players =~= before.players);
                assert(self@.cells =~= before.cells);
            }
        }
        result
    }

    /// Builds an agency on the property of the cell `index`, for which its
    /// owner pays the price of a level. Fails, and changes nothing, where
    /// nobody owns the property, where it is not simple, where the owner
    /// cannot pay, or where the owner can pay but the property stands at
    /// the highest level already. The failures are told in this order.
    pub fn build_agency(&mut self, index: usize) -> (result: Result<(), AgencyPropertyError>)
        requires
            old(self).wf(),
            index < CELLS_COUNT,
            old(self)@.property_at(index as int) matches Some(property) && (
            property.owner matches Some(owner) ==> (old(self)@.player(owner).can_pay(
                property.level_price(),
            ) ==> fits(old(self)@.player(owner).balance - property.level_price()))),
        ensures
            final(self)@ == old(self)@.build_agency(index as int),
            final(self).wf(),
            old(self)@.turn_holder_in_play() ==> final(self)@.turn_holder_in_play(),
            result is Ok <==> old(self)@.can_build_on(old(self)@.property_at(index as int)->0),
            // What was charged can be refunded: the agency can be sold again.
            result is Ok ==> fits(
                final(self)@.player(old(self)@.property_at(index as int)->0.owner->0).balance
                    + old(self)@.property_at(index as int)->0.level_price(),
            ),
            ({
                let property = old(self)@.property_at(index as int)->0;
                match result {
                    Ok(()) => true,
                    Err(AgencyPropertyError::NoOwner { source }) => property.owner is None
                        && source.property_title@ == property.data.title@,
                    Err(AgencyPropertyError::NotASimpleProperty { property_title }) =>
                        property.owner is Some && !(property.ty is Simple) && property_title@
                            == property.data.title@,
                    Err(AgencyPropertyError::AlreadyBuilt { property_title }) => {
                        &&& property.owner is Some
                        &&& property.ty is Simple
                        &&& property.ty.level() == MAX_LEVEL
                        &&& old(self)@.player(property.owner->0).can_pay(property.level_price())
                        &&& property_title@ == property.data.title@
                    },
                    Err(AgencyPropertyError::NotEnoughMoney { source }) => {
                        &&& property.owner == Some(source.player_id)
                        &&& property.ty is Simple
                        &&& !old(self)@.player(source.player_id).can_pay(property.level_price())
                        &&& source.player_name@ == old(self)@.player(source.player_id).name
                        &&& source.amount@ == property.level_price()
                    },
                    Err(AgencyPropertyError::NothingBuilt { .. }) => false,
                }
            }),
    {
        let ghost before = self@;
        let mut property = self.property_on(index);
        let at = self.owner_index(&property);
        let result = property.build_agency(&mut self.players[at]);
        assert(self@.players =~= before.players.update(at as int, self@.players[at as int]));
        proof {
            lemma_with_player_wf(before, at as int, self@.players[at as int]);
        }
        self.put_back(index, property);
        proof {
            if result is Err {
                assert(self@.players =~= before.players);
                assert(self@.cells =~= before.cells);
            }
        }
        result
    }

    /// Sells an agency of the property on the cell `index`, for which its
    /// owner gets the price of a level back. Fails, and changes nothing,
    /// where nobody owns the property, where it is not simple, or where it
    /// holds no agency.
    pub fn sell_agency(&mut self, index: usize) -> (result: Result<(), AgencyPropertyError>)
        requires
            old(self).wf(),
            index < CELLS_COUNT,
            old(self)@.property_at(index as int) matches Some(property) && (
            property.owner matches Some(owner) ==> fits(
                old(self)@.player(owner).balance + property.level_price(),
            )),
        ensures
            final(self)@ == old(self)@.sell_agency(index as int),
            final(self).wf(),
            old(self)@.turn_holder_in_play() ==> final(self)@.turn_holder_in_play(),
            result is Ok <==> old(self)@.can_sell_on(old(self)@.property_at(index as int)->0),
            ({
                let property = old(self)@.property_at(index as int)->0;
                match result {
                    Ok(()) => true,
                    Err(AgencyPropertyError::NoOwner { source }) => property.owner is None
                        && source.property_title@ == property.data.title@,
                    Err(AgencyPropertyError::NotASimpleProperty { property_title }) =>
                        property.owner is Some && !(property.ty is Simple) && property_title@
                            == property.data.title@,
                    Err(AgencyPropertyError::NothingBuilt { property_title }) =>
                        property.owner is Some && property.ty is Simple && property.ty.level() == 0
                            && property_title@ == property.data.title@,
                    Err(AgencyPropertyError::NotEnoughMoney { .. }) => false,
                    Err(AgencyPropertyError::AlreadyBuilt { .. }) => false,
                }
            }),
    {
        let ghost before = self@;
        let mut property = self.property_on(index);
        let at = self.owner_index(&property);
        let result = property.sell_agency(&mut self.players[at]);
        assert(self@.players =~= before.players.update(at as int, self@.players[at as int]));
        proof {
            lemma_with_player_wf(before, at as int, self@.players[at as int]);
        }
        self.put_back(index, property);
        proof {
            if result is Err {
                assert(self@.players =~= before.players);
                assert(self@.cells =~= before.cells);
            }
        }
        result
    }
}

/// The steps of a turn.
impl GameState {
    /// Records what the dice show, where the current player has yet to
    /// roll; they are then shown until `dice_transition_end`. Returns
    /// whether the roll was taken.
    pub fn roll_dice(&mut self, first: u8, second: u8) -> (rolled: bool)
        requires
            old(self).wf(),
            1 <= first <= 6,
            1 <= second <= 6,
        ensures
            final(self)@ == old(self)@.roll_dice(first, second),
            rolled == (old(self)@.phase is AwaitingRoll),
            final(self).wf(),
            old(self)@.turn_holder_in_play() ==> final(self)@.turn_holder_in_play(),
    {
        match self.phase {
            TurnPhase::AwaitingRoll => {
                self.rolled_dice = Some((first, second));
                self.phase = TurnPhase::DiceRolling;
                true
            },
            _ => false,
        }
    }

    /// Tells the game that the dice have been shown: the current player
    /// moves on by their sum, and the token moves until
    /// `player_token_transition_end`. Returns the cell that the player left
    /// and the cell that the player reached; nothing, with the game
    /// unchanged, where no dice were being shown.
    pub fn dice_transition_end(&mut self) -> (ends: Option<(usize, usize)>)
        requires
            old(self).wf(),
        ensures
            final(self)@ == old(self)@.dice_transition_end(),
            final(self).wf(),
            old(self)@.turn_holder_in_play() ==> final(self)@.turn_holder_in_play(),
            match ends {
                Some((from, to)) => {
                    &&& old(self)@.phase is DiceRolling
                    &&& from == old(self)@.current_player().position
                    &&& to == final(self)@.current_player().position
                    &&& to == (from + dice_sum(old(self)@.rolled_dice)) % (CELLS_COUNT as int)
                },
                None => !(old(self)@.phase is DiceRolling),
            },
    {
        match self.phase {
            TurnPhase::DiceRolling => {
                let (first, second) = self.rolled_dice.unwrap();
                let steps = (first + second) as usize;
                let current = self.current_player;
                proof {
                    lemma_with_player_wf(
                        self@,
                        current as int,
                        self@.current_player().append_position(steps as nat),
                    );
                }
                let ends = self.players[current].append_position(steps);
                self.phase = TurnPhase::TokenMoving { from: ends.0 };
                assert(self@.players =~= old(self)@.dice_transition_end().players);
                Some(ends)
            },
            _ => None,
        }
    }

    /// Sends the current player to jail.
    pub(crate) fn send_current_to_jail(&mut self)
        requires
            old(self).wf(),
        ensures
            final(self)@ == old(self)@.trigger(CellView::GoToJail),
            final(self).wf(),
            old(self)@.turn_holder_in_play() ==> final(self)@.turn_holder_in_play(),
    {
        let current = self.current_player;
        proof {
            lemma_with_player_wf(
                self@,
                current as int,
                self@.current_player().set_is_in_jail(true),
            );
        }
        self.players[current].set_is_in_jail(true);
        assert(self@.players =~= old(self)@.trigger(CellView::GoToJail).players);
    }

    /// Tells the game that the token has come to rest. The player gets the
    /// bonus for passing the first cell, where the move went past it, and
    /// lands on the cell, `chance_draw` being the chance card that is drawn
    /// where the cell is a chance. Where the cell asks nothing, the turn is
    /// over; else the game waits for `respond`. Returns what the cell asks;
    /// nothing, with the game unchanged, where no token was moving.
    pub fn player_token_transition_end(&mut self, chance_draw: usize) -> (landing: Option<Landing>)
        requires
            old(self).wf(),
            chance_draw < CHANCE_CARDS,
            old(self)@.token_end_fits(chance_draw),
        ensures
            final(self)@ == old(self)@.player_token_transition_end(chance_draw),
            landing == old(self)@.token_landing(chance_draw),
            landing is Some <==> old(self)@.phase is TokenMoving,
            final(self).wf(),
            old(self)@.turn_holder_in_play() ==> final(self)@.turn_holder_in_play(),
    {
        let from = match self.phase {
            TurnPhase::TokenMoving { from } => from,
            _ => {
                return None;
            },
        };
        let (first, second) = self.rolled_dice.unwrap();
        let current_id = self.players[self.current_player].id();
        if from + (first as usize) + (second as usize) >= CELLS_COUNT {
            self.credit(current_id, Money::new(PASSING_START_BONUS));
        }
        let position = self.players[self.current_player].position();
        let cell = self.cells[position];
        let landing = cell.trigger(self, chance_draw);
        match landing {
            Landing::Nothing => {
                self.finish_turn();
            },
            _ => {
                self.phase = TurnPhase::ResolvingCell { landing };
            },
        }
        Some(landing)
    }

    /// Asks `amount` of the current player, and ends the turn where the
    /// player pays; a player who cannot pay is out of the game.
    fn collect(&mut self, amount: Money) -> (resolution: Resolution)
        requires
            old(self).wf(),
            old(self)@.turn_can_end(),
            old(self)@.current_player().can_pay(amount@) ==> fits(
                old(self)@.current_player().balance - amount@,
            ),
        ensures
            final(self)@ == old(self)@.collect(amount@),
            final(self).wf(),
            final(self)@.turn_holder_in_play(),
            resolution == (if old(self)@.current_player().can_pay(amount@) {
                Resolution::Settled
            } else {
                Resolution::Surrendered {
                    cancel_tasks: old(self)@.current_id() == old(self)@.self_player,
                }
            }),
    {
        let current_id = self.players[self.current_player].id();
        match self.debit(current_id, amount) {
            Ok(()) => {
                self.finish_turn();
                Resolution::Settled
            },
            Err(_) => {
                assert(self@.players =~= old(self)@.players);
                let cancel_tasks = self.surrender_player(current_id);
                Resolution::Surrendered { cancel_tasks }
            },
        }
    }

    /// Takes the rent of the cell on which the current player stands, and
    /// ends the turn. From a player who cannot pay nothing is taken: the
    /// player is out of the game.
    fn collect_rent(&mut self) -> (resolution: Resolution)
        requires
            old(self).wf(),
            old(self)@.phase matches TurnPhase::ResolvingCell { landing } && landing is Rent,
            old(self)@.respond_fits(ModalResponse::Confirm),
        ensures
            final(self)@ == old(self)@.respond(ModalResponse::Confirm),
            final(self).wf(),
            final(self)@.turn_holder_in_play(),
            resolution == old(self)@.resolution(),
    {
        let current = self.current_player;
        let current_id = self.players[current].id();
        let position = self.players[current].position();
        let property = match self.cells[position] {
            Cell::Property(property) => property,
            _ => {
                self.finish_turn();
                return Resolution::Settled;
            },
        };
        match property.pay_rent(current_id, self) {
            Ok(()) => {
                self.finish_turn();
                Resolution::Settled
            },
            Err(OwnedPropertyError::NoOwner { .. }) => {
                self.finish_turn();
                Resolution::Settled
            },
            Err(OwnedPropertyError::NotEnoughMoney { .. }) => {
                let cancel_tasks = self.surrender_player(current_id);
                Resolution::Surrendered { cancel_tasks }
            },
        }
    }

    /// Takes the answer of the current player to the open prompt, does
    /// what the cell asked, and ends the turn: see `GameView::respond`.
    /// Where no prompt is open, nothing is done.
    pub fn respond(&mut self, response: ModalResponse) -> (resolution: Resolution)
        requires
            old(self).wf(),
            old(self)@.respond_fits(response),
        ensures
            final(self)@ == old(self)@.respond(response),
            resolution == old(self)@.resolution(),
            final(self).wf(),
            old(self)@.phase is ResolvingCell ==> final(self)@.turn_holder_in_play(),
            old(self)@.defaults() ==> {
                &&& final(self)@ == old(self)@.surrender_player(old(self)@.current_id())
                &&& forall|i: int|
                    0 <= i < old(self)@.players.len() ==> (#[trigger] final(self)@.players[i]).balance
                        == old(self)@.players[i].balance
            },
    {
        proof {
            if self@.defaults() {
                lemma_default_moves_no_money(self@, response);
            }
        }
        let landing = match self.phase {
            TurnPhase::ResolvingCell { landing } => landing,
            _ => {
                return Resolution::Ignored;
            },
        };
        let current = self.current_player;
        let current_id = self.players[current].id();
        match landing {
            Landing::Nothing => {
                self.finish_turn();
                Resolution::Settled
            },
            Landing::Chance { amount } => {
                if amount.is_positive() {
                    self.credit(current_id, amount);
                    self.finish_turn();
                    Resolution::Settled
                } else {
                    proof {
                        self.players@[current as int].lemma_balance_fits();
                    }
                    if amount.value() == i64::MIN {
                        // No balance covers the loss: its amount is larger than any.
                        let cancel_tasks = self.surrender_player(current_id);
                        Resolution::Surrendered { cancel_tasks }
                    } else {
                        self.collect(Money::new(-amount.value()))
                    }
                }
            },
            Landing::Tax { amount } => self.collect(amount),
            Landing::Rent { .. } => self.collect_rent(),
            Landing::Offer { .. } => {
                let position = self.players[current].position();
                if response == ModalResponse::Confirm {
                    if let Cell::Property(_) = self.cells[position] {
                        let _bought = self.buy_property(position, current_id);
                    }
                }
                self.finish_turn();
                Resolution::Settled
            },
        }
    }
}

/// Whether the counters and the balances have room.
impl GameState {
    /// Whether the counters and the balance can hold what
    /// `player_token_transition_end` adds to them: whether that step may be taken.
    pub fn token_end_has_room(&self, chance_draw: usize) -> (room: bool)
        requires
            self.wf(),
        ensures
            room == self@.token_end_fits(chance_draw),
    {
        let from = match self.phase {
            TurnPhase::TokenMoving { from } => from,
            _ => {
                return true;
            },
        };
        let (first, second) = self.rolled_dice.unwrap();
        let player = &self.players[self.current_player];
        let balance = player.balance().value();
        let passed = from + (first as usize) + (second as usize) >= CELLS_COUNT;
        if passed && balance > i64::MAX - PASSING_START_BONUS {
            return false;
        }
        let asks_nothing = match self.cells[player.position()] {
            Cell::Start | Cell::Jail | Cell::FreeParking | Cell::GoToJail => true,
            Cell::Chance | Cell::Tax(_) => false,
            Cell::Property(property) => property.owner() == Some(player.id()),
        };
        !asks_nothing || (self.current_turn < u64::MAX && self.current_round < u64::MAX)
    }

    /// Whether the counters and the balances can hold what `respond` adds
    /// to them: whether that step may be taken with the answer `response`.
    pub fn respond_has_room(&self, response: ModalResponse) -> (room: bool)
        requires
            self.wf(),
        ensures
            room == self@.respond_fits(response),
    {
        let landing = match self.phase {
            TurnPhase::ResolvingCell { landing } => landing,
            _ => {
                return true;
            },
        };
        if self.current_turn == u64::MAX || self.current_round == u64::MAX {
            return false;
        }
        let player = &self.players[self.current_player];
        let balance = player.balance().value();
        let cell = self.cells[player.position()];
        assert(self@.landed_cell() == cell@);
        match landing {
            Landing::Nothing => true,
            Landing::Chance { amount } => amount.value() <= 0 || balance <= i64::MAX
                - amount.value(),
            Landing::Tax { amount } => Self::can_give(balance, amount.value()),
            Landing::Rent { .. } => match cell {
                Cell::Property(property) => match property.rent(self) {
                    None => true,
                    Some(rent) => self.rent_has_room(&property, rent.value()),
                },
                _ => true,
            },
            Landing::Offer { .. } => match (response, cell) {
                (ModalResponse::Confirm, Cell::Property(property)) => Self::can_give(
                    balance,
                    property.data().price.value(),
                ),
                _ => true,
            },
        }
    }

    /// Whether a balance of `balance` that covers `amount` is a balance still without it.
    fn can_give(balance: i64, amount: i64) -> (room: bool)
        ensures
            room == (balance >= amount ==> fits(balance - amount)),
    {
        balance < amount || amount >= 0 || balance <= i64::MAX + amount
    }

    /// Whether the balances can hold what the current player pays for the
    /// rent `rent` of `property`, where the player can pay it.
    fn rent_has_room(&self, property: &Property, rent: i64) -> (room: bool)
        requires
            self.wf(),
            self@.landed_cell() == CellView::Property(property@),
            self@.rent_of(property@) == Some(rent as int),
        ensures
            room == self@.pay_rent_fits(property@, self@.current_id()),
    {
        let balance = self.players[self.current_player].balance().value();
        let owner = property.owner().unwrap();
        let owner_index = self.find_player(owner).unwrap();
        let owner_balance = self.players[owner_index].balance().value();
        proof {
            lemma_index_of(self@, self@.current_id(), self@.current);
            lemma_index_of(
                self@.debit(self@.current_id(), rent as int),
                owner,
                owner_index as int,
            );
        }
        if balance < rent {
            true
        } else if !Self::can_give(balance, rent) {
            false
        } else if owner_index == self.current_player {
            true
        } else if rent >= 0 {
            owner_balance <= i64::MAX - rent
        } else {
            owner_balance >= i64::MIN - rent
        }
    }
}

} // verus!
