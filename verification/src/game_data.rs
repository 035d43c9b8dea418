//! The board that a game starts on, and the players of a first game.

use crate::cell::{
    Cell, CellView, Property, PropertyData, PropertyGroup, PropertyType, PropertyView, CELLS_COUNT,
};
use crate::game_view::{
    count_in_group, group_sizes_ok, lemma_count_by_index, members_below, GameView,
};
use crate::money::Money;
use crate::player::{Player, PlayerColor, PlayerView};
use vstd::prelude::*;

verus! {

/// The group of the perfumes.
pub open spec fn brown_group() -> PropertyGroup {
    PropertyGroup { title: "Perfumes", color: "#ec87c1" }
}

fn brown() -> (group: PropertyGroup)
    ensures
        group == brown_group(),
{
    PropertyGroup { title: "Perfumes", color: "#ec87c1" }
}

/// The group of the clothing.
pub open spec fn light_blue_group() -> PropertyGroup {
    PropertyGroup { title: "Clothing", color: "#e0b439" }
}

fn light_blue() -> (group: PropertyGroup)
    ensures
        group == light_blue_group(),
{
    PropertyGroup { title: "Clothing", color: "#e0b439" }
}

/// The group of the web services.
pub open spec fn pink_group() -> PropertyGroup {
    PropertyGroup { title: "Web Services", color: "#37bc9d" }
}

fn pink() -> (group: PropertyGroup)
    ensures
        group == pink_group(),
{
    PropertyGroup { title: "Web Services", color: "#37bc9d" }
}

/// The group of the drinks.
pub open spec fn orange_group() -> PropertyGroup {
    PropertyGroup { title: "Drinks", color: "#4b89dc" }
}

fn orange() -> (group: PropertyGroup)
    ensures
        group == orange_group(),
{
    PropertyGroup { title: "Drinks", color: "#4b89dc" }
}

/// The group of the airlines.
pub open spec fn red_group() -> PropertyGroup {
    PropertyGroup { title: "Airlines", color: "#8cc152" }
}

fn red() -> (group: PropertyGroup)
    ensures
        group == red_group(),
{
    PropertyGroup { title: "Airlines", color: "#8cc152" }
}

/// The group of the restaurants.
pub open spec fn yellow_group() -> PropertyGroup {
    PropertyGroup { title: "Restaurants", color: "#4fc1e9" }
}

fn yellow() -> (group: PropertyGroup)
    ensures
        group == yellow_group(),
{
    PropertyGroup { title: "Restaurants", color: "#4fc1e9" }
}

/// The group of the hotels.
pub open spec fn green_group() -> PropertyGroup {
    PropertyGroup { title: "Hotels", color: "#967bdc" }
}

fn green() -> (group: PropertyGroup)
    ensures
        group == green_group(),
{
    PropertyGroup { title: "Hotels", color: "#967bdc" }
}

/// The group of the electronics.
pub open spec fn dark_blue_group() -> PropertyGroup {
    PropertyGroup { title: "Electronics", color: "#656d78" }
}

fn dark_blue() -> (group: PropertyGroup)
    ensures
        group == dark_blue_group(),
{
    PropertyGroup { title: "Electronics", color: "#656d78" }
}

/// The group of the cars.
pub open spec fn transport_group() -> PropertyGroup {
    PropertyGroup { title: "Autos", color: "#da4553" }
}

fn transport() -> (group: PropertyGroup)
    ensures
        group == transport_group(),
{
    PropertyGroup { title: "Autos", color: "#da4553" }
}

/// The group of the game developers.
pub open spec fn utilities_group() -> PropertyGroup {
    PropertyGroup { title: "Game Developers", color: "#7f1f0f" }
}

fn utilities() -> (group: PropertyGroup)
    ensures
        group == utilities_group(),
{
    PropertyGroup { title: "Game Developers", color: "#7f1f0f" }
}

/// The rents of a car, by the number of cars that the owner holds.
pub open spec fn transport_rents() -> [Money; 4] {
    [Money(250), Money(500), Money(1000), Money(2000)]
}

/// The rents of a game developer for each point of the dice, by the
/// number of game developers that the owner holds.
pub open spec fn utility_rents() -> [Money; 2] {
    [Money(100), Money(250)]
}

/// The price of a car.
pub const TRANSPORT_PRICE: i64 = 2000;

/// The price of a game developer.
pub const UTILITY_PRICE: i64 = 1500;

/// The six rents of a simple property, as amounts.
pub open spec fn rents(levels: [i64; 6]) -> [Money; 6] {
    [
        Money(levels@[0]),
        Money(levels@[1]),
        Money(levels@[2]),
        Money(levels@[3]),
        Money(levels@[4]),
        Money(levels@[5]),
    ]
}

/// The cell of a simple property that nobody owns yet.
pub open spec fn simple_cell(
    title: &'static str,
    price: i64,
    group: PropertyGroup,
    levels: [i64; 6],
    level_price: i64,
) -> CellView {
    CellView::Property(
        PropertyView::fresh(
            PropertyData { title, price: Money(price), group },
            PropertyType::Simple {
                levels: rents(levels),
                level_price: Money(level_price),
                level: 0,
            },
        ),
    )
}

/// The cell of a car that nobody owns yet.
pub open spec fn transport_cell(title: &'static str) -> CellView {
    CellView::Property(
        PropertyView::fresh(
            PropertyData { title, price: Money(TRANSPORT_PRICE), group: transport_group() },
            PropertyType::Transport { levels: transport_rents() },
        ),
    )
}

/// The cell of a game developer that nobody owns yet.
pub open spec fn utility_cell(title: &'static str) -> CellView {
    CellView::Property(
        PropertyView::fresh(
            PropertyData { title, price: Money(UTILITY_PRICE), group: utilities_group() },
            PropertyType::Utility { levels: utility_rents() },
        ),
    )
}

fn simple(
    title: &'static str,
    price: i64,
    group: PropertyGroup,
    levels: [i64; 6],
    level_price: i64,
) -> (cell: Cell)
    requires
        -0x4000_0000_0000_0000 <= levels@[0] <= 0x3fff_ffff_ffff_ffff,
    ensures
        cell@ == simple_cell(title, price, group, levels, level_price),
        cell matches Cell::Property(property) && property.wf(),
{
    let amounts = [
        Money::new(levels[0]),
        Money::new(levels[1]),
        Money::new(levels[2]),
        Money::new(levels[3]),
        Money::new(levels[4]),
        Money::new(levels[5]),
    ];
    Cell::Property(
        Property::new(
            PropertyData { title, price: Money::new(price), group },
            PropertyType::Simple { levels: amounts, level_price: Money::new(level_price), level: 0 },
        ),
    )
}

fn transport_property(title: &'static str) -> (cell: Cell)
    ensures
        cell@ == transport_cell(title),
        cell matches Cell::Property(property) && property.wf(),
{
    let amounts = [Money::new(250), Money::new(500), Money::new(1000), Money::new(2000)];
    Cell::Property(
        Property::new(
            PropertyData { title, price: Money::new(TRANSPORT_PRICE), group: transport() },
            PropertyType::Transport { levels: amounts },
        ),
    )
}

fn utility_property(title: &'static str) -> (cell: Cell)
    ensures
        cell@ == utility_cell(title),
        cell matches Cell::Property(property) && property.wf(),
{
    let amounts = [Money::new(100), Money::new(250)];
    Cell::Property(
        Property::new(
            PropertyData { title, price: Money::new(UTILITY_PRICE), group: utilities() },
            PropertyType::Utility { levels: amounts },
        ),
    )
}

/// The board that a game starts on, cell by cell.
pub open spec fn default_board() -> Seq<CellView> {
    seq![
        CellView::Start,
        simple_cell("Chanel", 600, brown_group(), [20, 100, 300, 900, 1600, 2500], 500),
        CellView::Chance,
        simple_cell("Hugo Boss", 600, brown_group(), [40, 200, 600, 1800, 3200, 4500], 500),
        CellView::Tax(Money(2000)),
        transport_cell("Mercedes"),
        simple_cell("Adidas", 1000, light_blue_group(), [60, 300, 900, 2700, 4000, 5500], 500),
        CellView::Chance,
        simple_cell("Puma", 1000, light_blue_group(), [60, 300, 900, 2700, 4000, 5500], 500),
        simple_cell("Lacoste", 1200, light_blue_group(), [80, 400, 1000, 3000, 4500, 6000], 500),
        CellView::Jail,
        simple_cell("VK", 1400, pink_group(), [100, 500, 1500, 4500, 6250, 7500], 750),
        utility_cell("Rockstar Games"),
        simple_cell("Facebook", 1400, pink_group(), [100, 500, 1500, 4500, 6250, 7500], 750),
        simple_cell("Twitter", 1600, pink_group(), [120, 600, 1800, 5000, 7000, 9000], 750),
        transport_cell("Audi"),
        simple_cell("Coca-Cola", 1800, orange_group(), [140, 700, 2000, 5500, 7500, 9500], 1000),
        CellView::Chance,
        simple_cell("Pepsi", 1800, orange_group(), [140, 700, 2000, 5500, 7500, 9500], 1000),
        simple_cell("Fanta", 2000, orange_group(), [160, 800, 2200, 6000, 8000, 10000], 1000),
        CellView::FreeParking,
        simple_cell("American Airlines", 2200, red_group(), [180, 900, 2500, 7000, 8750, 10500], 1250),
        CellView::Chance,
        simple_cell("Lufthansa", 2200, red_group(), [180, 900, 2500, 7000, 8750, 10500], 1250),
        simple_cell("British Airways", 2400, red_group(), [200, 1000, 3000, 7500, 9250, 11000], 1250),
        transport_cell("Ford"),
        simple_cell("McDonald's", 2600, yellow_group(), [220, 1100, 3300, 8000, 9750, 1150], 1500),
        simple_cell("Burger King", 2600, yellow_group(), [220, 1100, 3300, 8000, 9750, 1150], 1500),
        utility_cell("Rovio"),
        simple_cell("KFC", 2800, yellow_group(), [240, 1200, 3600, 8500, 10250, 12000], 1500),
        CellView::GoToJail,
        simple_cell("Holiday Inn", 3000, green_group(), [260, 1300, 3900, 9000, 11000, 12750], 1750),
        simple_cell("Radisson Blu", 3000, green_group(), [260, 1300, 3900, 9000, 11000, 12750], 1750),
        CellView::Chance,
        simple_cell("Novotel", 3200, green_group(), [280, 1500, 4500, 10000, 12000, 14000], 1750),
        transport_cell("Land Rover"),
        CellView::Tax(Money(1000)),
        simple_cell("Apple", 3500, dark_blue_group(), [350, 1750, 5000, 11000, 13000, 15000], 2000),
        CellView::Chance,
        simple_cell("Nokia", 4000, dark_blue_group(), [500, 2000, 6000, 14000, 17000, 20000], 2000),
    ]
}

/// The board that a game starts on: nothing on it has an owner yet.
pub fn init_cells() -> (cells: [Cell; CELLS_COUNT])
    ensures
        cells@.map_values(|cell: Cell| cell@) == default_board(),
        forall|c: int|
            0 <= c < cells@.len() ==> ((#[trigger] cells@[c]) matches Cell::Property(property)
                ==> property.wf()),
{
    let cells = [
        Cell::Start,
        simple("Chanel", 600, brown(), [20, 100, 300, 900, 1600, 2500], 500),
        Cell::Chance,
        simple("Hugo Boss", 600, brown(), [40, 200, 600, 1800, 3200, 4500], 500),
        Cell::Tax(Money::new(2000)),
        transport_property("Mercedes"),
        simple("Adidas", 1000, light_blue(), [60, 300, 900, 2700, 4000, 5500], 500),
        Cell::Chance,
        simple("Puma", 1000, light_blue(), [60, 300, 900, 2700, 4000, 5500], 500),
        simple("Lacoste", 1200, light_blue(), [80, 400, 1000, 3000, 4500, 6000], 500),
        Cell::Jail,
        simple("VK", 1400, pink(), [100, 500, 1500, 4500, 6250, 7500], 750),
        utility_property("Rockstar Games"),
        simple("Facebook", 1400, pink(), [100, 500, 1500, 4500, 6250, 7500], 750),
        simple("Twitter", 1600, pink(), [120, 600, 1800, 5000, 7000, 9000], 750),
        transport_property("Audi"),
        simple("Coca-Cola", 1800, orange(), [140, 700, 2000, 5500, 7500, 9500], 1000),
        Cell::Chance,
        simple("Pepsi", 1800, orange(), [140, 700, 2000, 5500, 7500, 9500], 1000),
        simple("Fanta", 2000, orange(), [160, 800, 2200, 6000, 8000, 10000], 1000),
        Cell::FreeParking,
        simple("American Airlines", 2200, red(), [180, 900, 2500, 7000, 8750, 10500], 1250),
        Cell::Chance,
        simple("Lufthansa", 2200, red(), [180, 900, 2500, 7000, 8750, 10500], 1250),
        simple("British Airways", 2400, red(), [200, 1000, 3000, 7500, 9250, 11000], 1250),
        transport_property("Ford"),
        simple("McDonald's", 2600, yellow(), [220, 1100, 3300, 8000, 9750, 1150], 1500),
        simple("Burger King", 2600, yellow(), [220, 1100, 3300, 8000, 9750, 1150], 1500),
        utility_property("Rovio"),
        simple("KFC", 2800, yellow(), [240, 1200, 3600, 8500, 10250, 12000], 1500),
        Cell::GoToJail,
        simple("Holiday Inn", 3000, green(), [260, 1300, 3900, 9000, 11000, 12750], 1750),
        simple("Radisson Blu", 3000, green(), [260, 1300, 3900, 9000, 11000, 12750], 1750),
        Cell::Chance,
        simple("Novotel", 3200, green(), [280, 1500, 4500, 10000, 12000, 14000], 1750),
        transport_property("Land Rover"),
        Cell::Tax(Money::new(1000)),
        simple("Apple", 3500, dark_blue(), [350, 1750, 5000, 11000, 13000, 15000], 2000),
        Cell::Chance,
        simple("Nokia", 4000, dark_blue(), [500, 2000, 6000, 14000, 17000, 20000], 2000),
    ];
    cells
}

/// No group of simple properties has the title of the cars or that of the
/// game developers, and these two differ.
proof fn lemma_group_titles_differ()
    ensures
        transport_group()@ != utilities_group()@,
        forall|group: PropertyGroup|
            group == brown_group() || group == light_blue_group() || group == pink_group() || group
                == orange_group() || group == red_group() || group == yellow_group() || group
                == green_group() || group == dark_blue_group() ==> #[trigger] group@
                != transport_group()@ && group@ != utilities_group()@,
{
    reveal_strlit("Perfumes");
    reveal_strlit("Clothing");
    reveal_strlit("Web Services");
    reveal_strlit("Drinks");
    reveal_strlit("Airlines");
    reveal_strlit("Restaurants");
    reveal_strlit("Hotels");
    reveal_strlit("Electronics");
    reveal_strlit("Autos");
    reveal_strlit("Game Developers");
    assert("Autos"@.len() == 5);
    assert("Game Developers"@.len() == 15);
}

/// The cars of the board that a game starts on stand on the cells 5, 15, 25 and 35.
proof fn lemma_cars_of_default_board(c: int)
    requires
        0 <= c < 40,
    ensures
        default_board()[c].in_group(transport_group()@) <==> (c == 5 || c == 15 || c == 25 || c
            == 35),
{
    lemma_group_titles_differ();
}

/// The game developers of the board that a game starts on stand on the cells 12 and 28.
proof fn lemma_developers_of_default_board(c: int)
    requires
        0 <= c < 40,
    ensures
        default_board()[c].in_group(utilities_group()@) <==> (c == 12 || c == 28),
{
    lemma_group_titles_differ();
}

/// On the board that a game starts on there are four cars and two game
/// developers, as many as their rent tables provide for.
pub proof fn lemma_default_board_group_sizes()
    ensures
        count_in_group(default_board(), transport_group()@) == 4,
        count_in_group(default_board(), utilities_group()@) == 2,
        group_sizes_ok(default_board()),
{
    let board = default_board();
    assert(board.take(40) =~= board);
    assert(count_in_group(board, transport_group()@) == 4) by {
        assert forall|c: int| 0 <= c < 40 implies (#[trigger] board[c]).in_group(
            transport_group()@,
        ) == (c == 5 || c == 15 || c == 25 || c == 35) by {
            lemma_cars_of_default_board(c);
        }
        lemma_count_by_index(board, transport_group()@, 40);
        reveal_with_fuel(members_below, 41);
    }
    assert(count_in_group(board, utilities_group()@) == 2) by {
        assert forall|c: int| 0 <= c < 40 implies (#[trigger] board[c]).in_group(
            utilities_group()@,
        ) == (c == 12 || c == 28) by {
            lemma_developers_of_default_board(c);
        }
        lemma_count_by_index(board, utilities_group()@, 40);
        reveal_with_fuel(members_below, 41);
    }
}

/// The players of a first game, in the order of their turns.
pub open spec fn default_roster() -> Seq<PlayerView> {
    seq![
        PlayerView::fresh(0, "Ar4ys"@, PlayerColor::Blue),
        PlayerView::fresh(1, "Madeline"@, PlayerColor::Green),
        PlayerView::fresh(2, "Asmodeus"@, PlayerColor::Red),
    ]
}

/// The players of a first game, in the order of their turns.
pub fn init_players() -> (players: Vec<Player>)
    ensures
        players@.map_values(|player: Player| player@) == default_roster(),
        forall|i: int| 0 <= i < players@.len() ==> (#[trigger] players@[i]).wf(),
{
    let mut players: Vec<Player> = Vec::new();
    players.push(Player::new(0, "Ar4ys", PlayerColor::Blue));
    players.push(Player::new(1, "Madeline", PlayerColor::Green));
    players.push(Player::new(2, "Asmodeus", PlayerColor::Red));
    players
}

/// A first game is well formed, and its first turn is with the first player.
pub proof fn lemma_default_setup_wf()
    ensures
        GameView::start(default_board(), default_roster(), 0).wf(),
        GameView::start(default_board(), default_roster(), 0).current == 0,
        GameView::start(default_board(), default_roster(), 0).turn_holder_in_play(),
{
    lemma_default_board_group_sizes();
}

} // verus!
