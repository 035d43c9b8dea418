use monopoly::cell::{
    AgencyPropertyError, Cell, FreePropertyError, HasOwnerError, NoOwnerError, OwnedPropertyError,
    Property, PropertyData, PropertyGroup, PropertyType, MAX_LEVEL, MORTGAGE_ROUNDS,
};
use monopoly::money::Money;
use monopoly::player::{NotEnoughMoneyError, Player, PlayerColor};

fn group() -> PropertyGroup {
    PropertyGroup { title: "Drinks", color: "#4b89dc" }
}

fn levels() -> [Money; 6] {
    [Money(140), Money(700), Money(2000), Money(5500), Money(7500), Money(9500)]
}

fn simple(price: i64, level_price: i64) -> Property {
    Property::new(
        PropertyData { title: "Pepsi", price: Money(price), group: group() },
        PropertyType::Simple { levels: levels(), level_price: Money(level_price), level: 0 },
    )
}

fn transport() -> Property {
    Property::new(
        PropertyData { title: "Audi", price: Money(2000), group: PropertyGroup { title: "Autos", color: "#da4553" } },
        PropertyType::Transport { levels: [Money(250), Money(500), Money(1000), Money(2000)] },
    )
}

fn level_of(property: &Property) -> usize {
    match property.ty() {
        PropertyType::Simple { level, .. } => level,
        _ => panic!("not a simple property"),
    }
}

fn poor(id: u64, name: &str, balance: i64) -> Player {
    let mut player = Player::new(id, name, PlayerColor::Red);
    player.withdraw(Money::new(15_000 - balance)).unwrap();
    player
}

#[test]
fn groups_are_the_same_by_value() {
    let first = PropertyGroup { title: "Drinks", color: "#4b89dc" };
    let title = String::from("Drin") + "ks";
    let second = PropertyGroup { title: Box::leak(title.into_boxed_str()), color: "#4b89dc" };
    assert!(first == second);
    assert!(first != PropertyGroup { title: "Drinks", color: "#000000" });
    assert!(first != PropertyGroup { title: "Hotels", color: "#4b89dc" });
}

#[test]
fn a_new_property_has_no_owner_and_no_mortgage() {
    let property = simple(1800, 1000);
    assert_eq!(property.owner(), None);
    assert_eq!(property.mortgaged_for(), None);
    assert_eq!(property.data().title, "Pepsi");
    assert_eq!(property.data().price, Money(1800));
    assert!(property.data().group == group());
    assert_eq!(level_of(&property), 0);
}

#[test]
fn mortgage_reward_is_half_the_price() {
    assert_eq!(simple(1800, 1000).reward_for_mortgaging(), Money(900));
    assert_eq!(simple(600, 500).reward_for_mortgaging(), Money(300));
    assert_eq!(simple(1001, 500).reward_for_mortgaging(), Money(500));
    assert_eq!(simple(1, 500).reward_for_mortgaging(), Money(0));
}

#[test]
fn recovery_price_is_six_tenths_of_the_price() {
    assert_eq!(simple(1800, 1000).recovery_price(), Money(1080));
    assert_eq!(simple(600, 500).recovery_price(), Money(360));
    assert_eq!(simple(1001, 500).recovery_price(), Money(600));
    assert_eq!(simple(9, 500).recovery_price(), Money(5));
    assert_eq!(simple(3, 500).recovery_price(), Money(1));
    assert_eq!(simple(i64::MAX, 500).recovery_price(), Money(5534023222112865484));
    assert_eq!(simple(-1001, 500).recovery_price(), Money(-600));
}

#[test]
fn buy_sets_the_owner_and_takes_the_price() {
    let mut property = simple(1000, 500);
    let mut player = Player::new(0, "Ann", PlayerColor::Blue);
    assert_eq!(property.buy(&mut player), Ok(()));
    assert_eq!(property.owner(), Some(0));
    assert_eq!(player.balance(), Money(14_000));
}

#[test]
fn buy_fails_where_the_property_is_owned() {
    let mut property = simple(1000, 500);
    let mut first = Player::new(0, "Ann", PlayerColor::Blue);
    let mut second = Player::new(1, "Ben", PlayerColor::Green);
    property.buy(&mut first).unwrap();
    assert_eq!(
        property.buy(&mut second),
        Err(FreePropertyError::AlreadyOwned {
            source: HasOwnerError { property_title: "Pepsi", owner_name: None, owner_id: 0 },
        })
    );
    assert_eq!(property.owner(), Some(0));
    assert_eq!(second.balance(), Money(15_000));
    assert_eq!(
        property.buy(&mut first),
        Err(FreePropertyError::AlreadyOwned {
            source: HasOwnerError { property_title: "Pepsi", owner_name: None, owner_id: 0 },
        })
    );
    assert_eq!(first.balance(), Money(14_000));
}

#[test]
fn buy_fails_where_the_player_cannot_pay() {
    let mut property = simple(1000, 500);
    let mut player = poor(4, "Dan", 999);
    assert_eq!(
        property.buy(&mut player),
        Err(FreePropertyError::NotEnoughMoney {
            source: NotEnoughMoneyError {
                player_name: String::from("Dan"),
                player_id: 4,
                amount: Money(1000),
            },
        })
    );
    assert_eq!(property.owner(), None);
    assert_eq!(player.balance(), Money(999));
}

#[test]
fn buy_takes_the_last_of_the_balance() {
    let mut property = simple(1000, 500);
    let mut player = poor(4, "Dan", 1000);
    assert_eq!(property.buy(&mut player), Ok(()));
    assert_eq!(player.balance(), Money(0));
}

#[test]
fn mortgage_pays_half_the_price_and_runs_fifteen_rounds() {
    let mut property = simple(1800, 1000);
    let mut owner = Player::new(0, "Ann", PlayerColor::Blue);
    property.buy(&mut owner).unwrap();
    assert_eq!(property.mortgage(&mut owner), Ok(()));
    assert_eq!(property.mortgaged_for(), Some(15));
    assert_eq!(MORTGAGE_ROUNDS, 15);
    assert_eq!(owner.balance(), Money(15_000 - 1800 + 900));
    assert_eq!(property.owner(), Some(0));
}

#[test]
fn mortgage_fails_without_owner() {
    let mut property = simple(1800, 1000);
    let mut somebody = Player::new(0, "Ann", PlayerColor::Blue);
    assert_eq!(property.mortgage(&mut somebody), Err(NoOwnerError { property_title: "Pepsi" }));
    assert_eq!(property.mortgaged_for(), None);
    assert_eq!(somebody.balance(), Money(15_000));
}

#[test]
fn mortgage_then_recover_restores_the_property() {
    let mut property = simple(1800, 1000);
    let mut owner = Player::new(0, "Ann", PlayerColor::Blue);
    property.buy(&mut owner).unwrap();
    property.mortgage(&mut owner).unwrap();
    assert_eq!(property.recover(&mut owner), Ok(()));
    assert_eq!(property.mortgaged_for(), None);
    assert_eq!(property.owner(), Some(0));
    assert_eq!(owner.balance(), Money(15_000 - 1800 + 900 - 1080));
}

#[test]
fn recover_fails_without_owner() {
    let mut property = simple(1800, 1000);
    let mut somebody = Player::new(0, "Ann", PlayerColor::Blue);
    assert_eq!(
        property.recover(&mut somebody),
        Err(OwnedPropertyError::NoOwner { source: NoOwnerError { property_title: "Pepsi" } })
    );
    assert_eq!(somebody.balance(), Money(15_000));
}

#[test]
fn recover_fails_and_keeps_the_mortgage_where_the_owner_cannot_pay() {
    let mut property = simple(1800, 1000);
    let mut owner = poor(2, "Cat", 1800);
    property.buy(&mut owner).unwrap();
    property.mortgage(&mut owner).unwrap();
    assert_eq!(owner.balance(), Money(900));
    property.mortgage_tick();
    assert_eq!(
        property.recover(&mut owner),
        Err(OwnedPropertyError::NotEnoughMoney {
            source: NotEnoughMoneyError {
                player_name: String::from("Cat"),
                player_id: 2,
                amount: Money(1080),
            },
        })
    );
    assert_eq!(property.mortgaged_for(), Some(14));
    assert_eq!(property.owner(), Some(2));
    assert_eq!(owner.balance(), Money(900));
}

#[test]
fn mortgage_tick_counts_the_rounds_down() {
    let mut property = simple(1800, 1000);
    let mut owner = Player::new(0, "Ann", PlayerColor::Blue);
    property.buy(&mut owner).unwrap();
    property.mortgage(&mut owner).unwrap();
    for left in (1..15).rev() {
        property.mortgage_tick();
        assert_eq!(property.mortgaged_for(), Some(left));
        assert_eq!(property.owner(), Some(0));
    }
}

#[test]
fn fifteen_rounds_without_recovery_release_the_property() {
    let mut property = simple(1800, 1000);
    let mut owner = Player::new(0, "Ann", PlayerColor::Blue);
    property.buy(&mut owner).unwrap();
    property.build_agency(&mut owner).unwrap();
    property.mortgage(&mut owner).unwrap();
    for _ in 0..15 {
        property.mortgage_tick();
    }
    assert_eq!(property.owner(), None);
    assert_eq!(property.mortgaged_for(), None);
    assert_eq!(level_of(&property), 0);
    property.mortgage_tick();
    assert_eq!(property.owner(), None);
    assert_eq!(property.mortgaged_for(), None);
}

#[test]
fn mortgage_tick_leaves_a_free_property_alone() {
    let mut property = simple(1800, 1000);
    property.mortgage_tick();
    assert_eq!(property.owner(), None);
    assert_eq!(property.mortgaged_for(), None);
    let mut owner = Player::new(0, "Ann", PlayerColor::Blue);
    property.buy(&mut owner).unwrap();
    property.mortgage_tick();
    assert_eq!(property.owner(), Some(0));
    assert_eq!(property.mortgaged_for(), None);
}

#[test]
fn remove_owner_puts_the_property_back_on_the_market() {
    let mut property = simple(1800, 1000);
    let mut owner = Player::new(0, "Ann", PlayerColor::Blue);
    property.buy(&mut owner).unwrap();
    property.build_agency(&mut owner).unwrap();
    property.build_agency(&mut owner).unwrap();
    property.mortgage(&mut owner).unwrap();
    property.remove_owner();
    assert_eq!(property.owner(), None);
    assert_eq!(property.mortgaged_for(), None);
    assert_eq!(level_of(&property), 0);
    assert_eq!(property.data().price, Money(1800));
}

#[test]
fn build_agency_charges_the_level_price_and_raises_the_level() {
    let mut property = simple(1800, 1000);
    let mut owner = Player::new(0, "Ann", PlayerColor::Blue);
    property.buy(&mut owner).unwrap();
    assert_eq!(property.build_agency(&mut owner), Ok(()));
    assert_eq!(level_of(&property), 1);
    assert_eq!(owner.balance(), Money(15_000 - 1800 - 1000));
}

#[test]
fn build_agency_stops_at_the_highest_level() {
    let mut property = simple(1800, 1000);
    let mut owner = Player::new(0, "Ann", PlayerColor::Blue);
    property.buy(&mut owner).unwrap();
    for level in 1..=5 {
        assert_eq!(property.build_agency(&mut owner), Ok(()));
        assert_eq!(level_of(&property), level);
    }
    assert_eq!(MAX_LEVEL, 5);
    let balance = owner.balance();
    assert_eq!(
        property.build_agency(&mut owner),
        Err(AgencyPropertyError::AlreadyBuilt { property_title: "Pepsi" })
    );
    assert_eq!(level_of(&property), 5);
    assert_eq!(owner.balance(), balance);
}

#[test]
fn build_agency_fails_without_owner() {
    let mut property = simple(1800, 1000);
    let mut somebody = Player::new(0, "Ann", PlayerColor::Blue);
    assert_eq!(
        property.build_agency(&mut somebody),
        Err(AgencyPropertyError::NoOwner { source: NoOwnerError { property_title: "Pepsi" } })
    );
    assert_eq!(level_of(&property), 0);
    assert_eq!(somebody.balance(), Money(15_000));
}

#[test]
fn build_agency_fails_on_a_property_that_is_not_simple() {
    let mut property = transport();
    let mut owner = Player::new(0, "Ann", PlayerColor::Blue);
    property.buy(&mut owner).unwrap();
    assert_eq!(
        property.build_agency(&mut owner),
        Err(AgencyPropertyError::NotASimpleProperty { property_title: "Audi" })
    );
    assert_eq!(owner.balance(), Money(13_000));
}

#[test]
fn build_agency_fails_where_the_owner_cannot_pay() {
    let mut property = simple(1800, 1000);
    let mut owner = poor(6, "Eve", 2799);
    property.buy(&mut owner).unwrap();
    assert_eq!(
        property.build_agency(&mut owner),
        Err(AgencyPropertyError::NotEnoughMoney {
            source: NotEnoughMoneyError {
                player_name: String::from("Eve"),
                player_id: 6,
                amount: Money(1000),
            },
        })
    );
    assert_eq!(level_of(&property), 0);
    assert_eq!(owner.balance(), Money(999));
}

#[test]
fn sell_agency_refunds_the_level_price_and_lowers_the_level() {
    let mut property = simple(1800, 1000);
    let mut owner = Player::new(0, "Ann", PlayerColor::Blue);
    property.buy(&mut owner).unwrap();
    property.build_agency(&mut owner).unwrap();
    property.build_agency(&mut owner).unwrap();
    assert_eq!(property.sell_agency(&mut owner), Ok(()));
    assert_eq!(level_of(&property), 1);
    assert_eq!(owner.balance(), Money(15_000 - 1800 - 1000));
}

#[test]
fn sell_agency_fails_where_nothing_is_built() {
    let mut property = simple(1800, 1000);
    let mut owner = Player::new(0, "Ann", PlayerColor::Blue);
    property.buy(&mut owner).unwrap();
    assert_eq!(
        property.sell_agency(&mut owner),
        Err(AgencyPropertyError::NothingBuilt { property_title: "Pepsi" })
    );
    assert_eq!(level_of(&property), 0);
    assert_eq!(owner.balance(), Money(13_200));
}

#[test]
fn sell_agency_fails_without_owner_and_on_other_kinds() {
    let mut free = simple(1800, 1000);
    let mut somebody = Player::new(0, "Ann", PlayerColor::Blue);
    assert_eq!(
        free.sell_agency(&mut somebody),
        Err(AgencyPropertyError::NoOwner { source: NoOwnerError { property_title: "Pepsi" } })
    );
    let mut car = transport();
    car.buy(&mut somebody).unwrap();
    assert_eq!(
        car.sell_agency(&mut somebody),
        Err(AgencyPropertyError::NotASimpleProperty { property_title: "Audi" })
    );
    assert_eq!(somebody.balance(), Money(13_000));
}

#[test]
fn build_then_sell_is_a_round_trip() {
    let mut property = simple(1800, 1000);
    let mut owner = Player::new(0, "Ann", PlayerColor::Blue);
    property.buy(&mut owner).unwrap();
    property.build_agency(&mut owner).unwrap();
    let level = level_of(&property);
    let balance = owner.balance();
    property.build_agency(&mut owner).unwrap();
    property.sell_agency(&mut owner).unwrap();
    assert_eq!(level_of(&property), level);
    assert_eq!(owner.balance(), balance);
}

#[test]
fn try_unwrap_property_finds_the_property_of_a_cell() {
    let property = simple(1800, 1000);
    let found = Cell::Property(property).try_unwrap_property();
    assert_eq!(found.map(|p| p.data().title), Some("Pepsi"));
    assert!(Cell::Start.try_unwrap_property().is_none());
    assert!(Cell::Jail.try_unwrap_property().is_none());
    assert!(Cell::FreeParking.try_unwrap_property().is_none());
    assert!(Cell::GoToJail.try_unwrap_property().is_none());
    assert!(Cell::Chance.try_unwrap_property().is_none());
    assert!(Cell::Tax(Money(2000)).try_unwrap_property().is_none());
}

#[test]
fn rent_tables_say_how_many_properties_they_provide_for() {
    assert_eq!(transport().ty().group_size_limit(), Some(4));
    assert_eq!(simple(1, 1).ty().group_size_limit(), None);
    let utility = PropertyType::Utility { levels: [Money(100), Money(250)] };
    assert_eq!(utility.group_size_limit(), Some(2));
}

#[test]
fn errors_say_what_went_wrong() {
    assert_eq!(
        NoOwnerError { property_title: "Pepsi" }.to_string(),
        "Property \"Pepsi\" does not have owner"
    );
    assert_eq!(
        HasOwnerError { property_title: "Pepsi", owner_name: None, owner_id: 12 }.to_string(),
        "Property \"Pepsi\" already has owner (id: 12)"
    );
    assert_eq!(
        HasOwnerError {
            property_title: "Pepsi",
            owner_name: Some(String::from("Ar4ys")),
            owner_id: 0,
        }
        .to_string(),
        "Property \"Pepsi\" already has owner \"Ar4ys\" (id: 0)"
    );
    assert_eq!(
        AgencyPropertyError::NotASimpleProperty { property_title: "Audi" }.to_string(),
        "Property \"Audi\" is not a PropertyType::Simple"
    );
    assert_eq!(
        AgencyPropertyError::AlreadyBuilt { property_title: "Pepsi" }.to_string(),
        "Property \"Pepsi\" has every agency it can take"
    );
    assert_eq!(
        AgencyPropertyError::NothingBuilt { property_title: "Pepsi" }.to_string(),
        "Property \"Pepsi\" has no agency to sell"
    );
}

#[test]
fn errors_that_pass_an_error_on_say_what_it_says() {
    let no_owner = NoOwnerError { property_title: "Fanta" };
    let no_money = NotEnoughMoneyError {
        player_name: String::from("Madeline"),
        player_id: 1,
        amount: Money(2400),
    };
    let has_owner = HasOwnerError {
        property_title: "Fanta",
        owner_name: Some(String::from("Asmodeus")),
        owner_id: 0,
    };
    assert_eq!(OwnedPropertyError::NoOwner { source: no_owner }.to_string(), no_owner.to_string());
    assert_eq!(
        OwnedPropertyError::NotEnoughMoney { source: no_money.clone() }.to_string(),
        "Player \"Madeline\" (id: 1) does not have enough money (2,400$)"
    );
    assert_eq!(
        FreePropertyError::AlreadyOwned { source: has_owner.clone() }.to_string(),
        "Property \"Fanta\" already has owner \"Asmodeus\" (id: 0)"
    );
    assert_eq!(
        FreePropertyError::NotEnoughMoney { source: no_money.clone() }.to_string(),
        no_money.to_string()
    );
    assert_eq!(AgencyPropertyError::NoOwner { source: no_owner }.to_string(), no_owner.to_string());
    assert_eq!(
        AgencyPropertyError::NotEnoughMoney { source: no_money.clone() }.to_string(),
        no_money.to_string()
    );
}

#[test]
fn build_agency_tells_missing_money_before_the_highest_level() {
    let mut property = simple(1800, 1000);
    let mut owner = poor(3, "Fay", 1800 + 5000 + 999);
    property.buy(&mut owner).unwrap();
    for _ in 0..5 {
        property.build_agency(&mut owner).unwrap();
    }
    assert_eq!(level_of(&property), 5);
    assert_eq!(owner.balance(), Money(999));
    assert_eq!(
        property.build_agency(&mut owner),
        Err(AgencyPropertyError::NotEnoughMoney {
            source: NotEnoughMoneyError {
                player_name: String::from("Fay"),
                player_id: 3,
                amount: Money(1000),
            },
        })
    );
    assert_eq!(level_of(&property), 5);
    assert_eq!(owner.balance(), Money(999));
    owner.deposit(Money(1));
    assert_eq!(
        property.build_agency(&mut owner),
        Err(AgencyPropertyError::AlreadyBuilt { property_title: "Pepsi" })
    );
    assert_eq!(level_of(&property), 5);
    assert_eq!(owner.balance(), Money(1000));
}
