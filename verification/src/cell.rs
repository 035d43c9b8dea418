//! The squares of the board: what a property costs and earns, who owns it,
//! and what can be done with it.

use crate::game_state::GameState;
use crate::game_view::lemma_member_is_counted;
use crate::turn::{draw_chance_card, Landing, CHANCE_CARDS};
use crate::money::{div_toward_zero, fits, Money};
use crate::player::{NotEnoughMoneyError, Player, PlayerId, PlayerView};
use crate::text::{append_decimal, decimal, str_eq};
use vstd::prelude::*;
use vstd::std_specs::cmp::PartialEqSpecImpl;
use vstd::string::StringExecFns;

verus! {

/// The number of cells on the board.
pub const CELLS_COUNT: usize = 40;

/// For how many rounds a mortgage runs before the property is forfeited.
pub const MORTGAGE_ROUNDS: usize = 15;

/// The highest agency level of a simple property.
pub const MAX_LEVEL: usize = 5;

/// The largest sum that two dice show.
pub const MAX_DICE_SUM: i64 = 12;

/// What the two dice show together; 0 where none were rolled.
pub open spec fn dice_sum(dice: Option<(u8, u8)>) -> int {
    match dice {
        Some((first, second)) => first + second,
        None => 0,
    }
}

/// The tag that properties of one group share.
#[derive(Debug, Clone, Copy)]
pub struct PropertyGroup {
    pub title: &'static str,
    pub color: &'static str,
}

/// A group, as the characters of its title and of its color.
pub struct GroupView {
    pub title: Seq<char>,
    pub color: Seq<char>,
}

impl View for PropertyGroup {
    type V = GroupView;

    open spec fn view(&self) -> GroupView {
        GroupView { title: self.title@, color: self.color@ }
    }
}

impl PartialEqSpecImpl for PropertyGroup {
    open spec fn obeys_eq_spec() -> bool {
        true
    }

    open spec fn eq_spec(&self, other: &PropertyGroup) -> bool {
        self@ == other@
    }
}

impl PartialEq for PropertyGroup {
    fn eq(&self, other: &PropertyGroup) -> (same: bool) {
        str_eq(self.title, other.title) && str_eq(self.color, other.color)
    }
}

impl Eq for PropertyGroup {

}

/// What a property is sold as.
#[derive(Debug, Clone, Copy)]
pub struct PropertyData {
    pub title: &'static str,
    pub price: Money,
    pub group: PropertyGroup,
}

/// The kind of a property, with the rents it earns.
#[derive(Debug, Clone, Copy)]
#[allow(inconsistent_fields)]
pub enum PropertyType {
    /// Rent by agency level: `levels[0]` is the rent of the bare property.
    Simple { levels: [Money; 6], level_price: Money, level: usize },
    /// Rent by the number of properties of the group that the owner holds.
    Transport { levels: [Money; 4] },
    /// Rent by that number, times the sum of the dice.
    Utility { levels: [Money; 2] },
}

impl PropertyType {
    /// The agency level: that of a simple property, 0 for the others.
    pub open spec fn level(self) -> nat {
        match self {
            PropertyType::Simple { level, .. } => level as nat,
            _ => 0,
        }
    }

    /// The same kind at agency level `level`.
    pub open spec fn at_level(self, level: usize) -> PropertyType {
        match self {
            PropertyType::Simple { levels, level_price, .. } => PropertyType::Simple {
                levels,
                level_price,
                level,
            },
            _ => self,
        }
    }

    /// How many properties of one group this kind of rent table provides for:
    /// none is set for a simple property.
    pub open spec fn group_limit(self) -> Option<nat> {
        match self {
            PropertyType::Simple { .. } => None,
            PropertyType::Transport { .. } => Some(4),
            PropertyType::Utility { .. } => Some(2),
        }
    }

    /// How many properties of one group the rent table provides for.
    pub fn group_size_limit(&self) -> (limit: Option<usize>)
        ensures
            match limit {
                Some(limit) => self.group_limit() == Some(limit as nat),
                None => self.group_limit() is None,
            },
    {
        match self {
            PropertyType::Simple { .. } => None,
            PropertyType::Transport { .. } => Some(4),
            PropertyType::Utility { .. } => Some(2),
        }
    }

    /// The level is one of the table, and every rent that can come due fits in an amount.
    pub open spec fn wf(self) -> bool {
        match self {
            PropertyType::Simple { levels, level, .. } => level <= MAX_LEVEL && fits(levels@[0]@ * 2),
            PropertyType::Transport { .. } => true,
            PropertyType::Utility { levels } => fits(levels@[0]@ * MAX_DICE_SUM) && fits(
                levels@[1]@ * MAX_DICE_SUM,
            ),
        }
    }
}

#[derive(Debug, Clone, Copy, PartialEq, Eq)]
pub struct NoOwnerError {
    pub property_title: &'static str,
}

/// A purchase of a property that has an owner.
#[derive(Debug, Clone, PartialEq, Eq)]
pub struct HasOwnerError {
    pub property_title: &'static str,
    /// The name of the owner, where the roster was at hand: a property by
    /// itself knows its owner by the id alone.
    pub owner_name: Option<String>,
    pub owner_id: PlayerId,
}

#[derive(Debug, Clone, PartialEq, Eq)]
#[allow(inconsistent_fields)]
pub enum OwnedPropertyError {
    NoOwner { source: NoOwnerError },
    NotEnoughMoney { source: NotEnoughMoneyError },
}

#[derive(Debug, Clone, PartialEq, Eq)]
#[allow(inconsistent_fields)]
pub enum FreePropertyError {
    AlreadyOwned { source: HasOwnerError },
    NotEnoughMoney { source: NotEnoughMoneyError },
}

#[derive(Debug, Clone, PartialEq, Eq)]
#[allow(inconsistent_fields)]
pub enum AgencyPropertyError {
    NoOwner { source: NoOwnerError },
    NotEnoughMoney { source: NotEnoughMoneyError },
    NotASimpleProperty { property_title: &'static str },
    /// The property already stands at the highest level.
    AlreadyBuilt { property_title: &'static str },
    /// The property holds no agency that could be sold.
    NothingBuilt { property_title: &'static str },
}

impl NoOwnerError {
    /// What the error says.
    pub open spec fn text(self) -> Seq<char> {
        "Property \""@ + self.property_title@ + "\" does not have owner"@
    }

    /// What the error says.
    pub fn to_string(&self) -> (text: String)
        ensures
            text@ == self.text(),
    {
        let mut text = String::from_str("Property \"");
        text.append(self.property_title);
        text.append("\" does not have owner");
        text
    }
}

impl HasOwnerError {
    /// What the error says.
    pub open spec fn text(self) -> Seq<char> {
        "Property \""@ + self.property_title@ + "\" already has owner "@ + (match self.owner_name {
            Some(name) => "\""@ + name@ + "\" "@,
            None => Seq::empty(),
        }) + "(id: "@ + decimal(self.owner_id as nat) + ")"@
    }

    /// What the error says.
    pub fn to_string(&self) -> (text: String)
        ensures
            text@ == self.text(),
    {
        let mut text = String::from_str("Property \"");
        text.append(self.property_title);
        text.append("\" already has owner ");
        let ghost named = text@;
        match &self.owner_name {
            Some(name) => {
                text.append("\"");
                text.append(name.as_str());
                text.append("\" ");
                assert(text@ =~= named + ("\""@ + name@ + "\" "@));
            },
            None => {
                assert(text@ =~= named + Seq::<char>::empty());
            },
        }
        text.append("(id: ");
        append_decimal(&mut text, self.owner_id);
        text.append(")");
        text
    }
}

impl OwnedPropertyError {
    /// What the error says: what the error says that it passes on.
    pub open spec fn text(self) -> Seq<char> {
        match self {
            OwnedPropertyError::NoOwner { source } => source.text(),
            OwnedPropertyError::NotEnoughMoney { source } => source.text(),
        }
    }

    /// What the error says.
    pub fn to_string(&self) -> (text: String)
        ensures
            text@ == self.text(),
    {
        match self {
            OwnedPropertyError::NoOwner { source } => source.to_string(),
            OwnedPropertyError::NotEnoughMoney { source } => source.to_string(),
        }
    }
}

impl FreePropertyError {
    /// What the error says: what the error says that it passes on.
    pub open spec fn text(self) -> Seq<char> {
        match self {
            FreePropertyError::AlreadyOwned { source } => source.text(),
            FreePropertyError::NotEnoughMoney { source } => source.text(),
        }
    }

    /// What the error says.
    pub fn to_string(&self) -> (text: String)
        ensures
            text@ == self.text(),
    {
        match self {
            FreePropertyError::AlreadyOwned { source } => source.to_string(),
            FreePropertyError::NotEnoughMoney { source } => source.to_string(),
        }
    }
}

impl AgencyPropertyError {
    /// What the error says.
    pub open spec fn text(self) -> Seq<char> {
        match self {
            AgencyPropertyError::NoOwner { source } => source.text(),
            AgencyPropertyError::NotEnoughMoney { source } => source.text(),
            AgencyPropertyError::NotASimpleProperty { property_title } => "Property \""@
                + property_title@ + "\" is not a PropertyType::Simple"@,
            AgencyPropertyError::AlreadyBuilt { property_title } => "Property \""@
                + property_title@ + "\" has every agency it can take"@,
            AgencyPropertyError::NothingBuilt { property_title } => "Property \""@
                + property_title@ + "\" has no agency to sell"@,
        }
    }

    /// What the error says.
    pub fn to_string(&self) -> (text: String)
        ensures
            text@ == self.text(),
    {
        let (property_title, ending) = match self {
            AgencyPropertyError::NoOwner { source } => {
                return source.to_string();
            },
            AgencyPropertyError::NotEnoughMoney { source } => {
                return source.to_string();
            },
            AgencyPropertyError::NotASimpleProperty { property_title } => (
                *property_title,
                "\" is not a PropertyType::Simple",
            ),
            AgencyPropertyError::AlreadyBuilt { property_title } => (
                *property_title,
                "\" has every agency it can take",
            ),
            AgencyPropertyError::NothingBuilt { property_title } => (
                *property_title,
                "\" has no agency to sell",
            ),
        };
        let mut text = String::from_str("Property \"");
        text.append(property_title);
        text.append(ending);
        text
    }
}

/// A square that can be bought.
#[derive(Debug, Clone, Copy)]
pub struct Property {
    ty: PropertyType,
    data: PropertyData,
    owner: Option<PlayerId>,
    mortgaged_for: Option<usize>,
}

/// What a property is, field by field.
pub struct PropertyView {
    pub ty: PropertyType,
    pub data: PropertyData,
    pub owner: Option<PlayerId>,
    /// The rounds that are left of a mortgage.
    pub mortgaged_for: Option<usize>,
}

impl PropertyView {
    /// A property that nobody owns is neither mortgaged nor built on; a
    /// mortgage has between 1 and `MORTGAGE_ROUNDS` rounds left.
    pub open spec fn wf(self) -> bool {
        &&& self.ty.wf()
        &&& self.owner is None ==> self.mortgaged_for is None && self.ty.level() == 0
        &&& self.mortgaged_for matches Some(rounds) ==> 1 <= rounds <= MORTGAGE_ROUNDS
    }

    /// A property as it comes to the board: without owner or mortgage.
    pub open spec fn fresh(data: PropertyData, ty: PropertyType) -> PropertyView {
        PropertyView { ty, data, owner: None, mortgaged_for: None }
    }

    /// What the owner gets for mortgaging: half the price.
    pub open spec fn mortgage_reward(self) -> int {
        div_toward_zero(self.data.price@, 2)
    }

    /// What the owner pays to lift a mortgage: six tenths of the price.
    pub open spec fn recovery_price(self) -> int {
        div_toward_zero(self.data.price@ * 6, 10)
    }

    /// What one agency costs to build and returns when sold; 0 for a property that takes none.
    pub open spec fn level_price(self) -> int {
        match self.ty {
            PropertyType::Simple { level_price, .. } => level_price@,
            _ => 0,
        }
    }

    pub open spec fn buy(self, player: PlayerId) -> PropertyView {
        PropertyView { owner: Some(player), ..self }
    }

    /// The property back on the market: no owner, no mortgage, no agency.
    pub open spec fn remove_owner(self) -> PropertyView {
        PropertyView { ty: self.ty.at_level(0), owner: None, mortgaged_for: None, ..self }
    }

    pub open spec fn mortgage(self) -> PropertyView {
        PropertyView { mortgaged_for: Some(MORTGAGE_ROUNDS), ..self }
    }

    pub open spec fn recover(self) -> PropertyView {
        PropertyView { mortgaged_for: None, ..self }
    }

    /// One round later: a mortgage has one round less, and with its last round the owner goes.
    pub open spec fn mortgage_tick(self) -> PropertyView {
        match self.mortgaged_for {
            None => self,
            Some(rounds) => if rounds <= 1 {
                self.remove_owner()
            } else {
                PropertyView { mortgaged_for: Some((rounds - 1) as usize), ..self }
            },
        }
    }

    /// The property after `rounds` rounds.
    pub open spec fn mortgage_ticks(self, rounds: nat) -> PropertyView
        decreases rounds,
    {
        if rounds == 0 {
            self
        } else {
            self.mortgage_ticks((rounds - 1) as nat).mortgage_tick()
        }
    }

    pub open spec fn build_agency(self) -> PropertyView {
        PropertyView { ty: self.ty.at_level((self.ty.level() + 1) as usize), ..self }
    }

    pub open spec fn sell_agency(self) -> PropertyView {
        PropertyView { ty: self.ty.at_level((self.ty.level() - 1) as usize), ..self }
    }

    /// The rent of a simple property that is owned and not mortgaged:
    /// twice the rent of the bare property where it is bare and the owner
    /// has the monopoly on its group, else the rent of its level.
    pub open spec fn simple_rent(self, monopoly: bool) -> int {
        let level = self.ty.level() as int;
        if monopoly && level == 0 {
            self.ty->Simple_levels@[0]@ * 2
        } else {
            self.ty->Simple_levels@[level]@
        }
    }

    /// The rent that is due on the property, where its owner holds `owned` of
    /// the `total` properties of its group and the dice show `dice`.
    ///
    /// Nobody owes rent on a property without owner. A mortgaged property
    /// earns nothing. A simple property earns the rent of its level, twice
    /// that where it is bare and the owner holds the whole group.
    pub open spec fn rent(self, owned: nat, total: nat, dice: Option<(u8, u8)>) -> Option<int> {
        if self.owner is None {
            None
        } else if self.mortgaged_for is Some {
            Some(0)
        } else {
            Some(
                match self.ty {
                    PropertyType::Simple { levels, level, .. } => if owned == total && level == 0 {
                        levels@[0]@ * 2
                    } else {
                        levels@[level as int]@
                    },
                    PropertyType::Transport { levels } => levels@[owned - 1]@,
                    PropertyType::Utility { levels } => levels@[owned - 1]@ * dice_sum(dice),
                },
            )
        }
    }
}

/// The rent of a simple property that is owned and not mortgaged: at level 0
/// the whole group doubles the base rent, exactly; from level 1 on the rent
/// is that of the level, whether the owner holds the whole group or not.
pub proof fn lemma_monopoly_doubles_bare_rent(
    property: PropertyView,
    owned: nat,
    total: nat,
    dice: Option<(u8, u8)>,
)
    requires
        property.owner is Some,
        property.mortgaged_for is None,
        property.ty is Simple,
    ensures
        property.ty.level() == 0 && owned == total ==> property.rent(owned, total, dice) == Some(
            2 * property.ty->Simple_levels@[0]@,
        ),
        property.ty.level() == 0 && owned != total ==> property.rent(owned, total, dice) == Some(
            property.ty->Simple_levels@[0]@,
        ),
        property.ty.level() >= 1 ==> property.rent(owned, total, dice) == Some(
            property.ty->Simple_levels@[property.ty.level() as int]@,
        ),
{
}

/// A mortgaged property earns no rent.
pub proof fn lemma_mortgaged_rent_is_zero(
    property: PropertyView,
    owned: nat,
    total: nat,
    dice: Option<(u8, u8)>,
)
    requires
        property.wf(),
        property.mortgaged_for is Some,
    ensures
        property.rent(owned, total, dice) == Some(0int),
{
}

/// To mortgage and then recover leaves the property without mortgage, with
/// the owner it had; all else is as it was before.
pub proof fn lemma_mortgage_then_recover(property: PropertyView)
    ensures
        property.mortgage().recover().mortgaged_for is None,
        property.mortgage().recover().owner == property.owner,
        property.mortgage().recover() == (PropertyView { mortgaged_for: None, ..property }),
        property.wf() && property.owner is Some ==> property.mortgage().wf()
            && property.mortgage().recover().wf(),
{
}

/// While a mortgage runs, each round takes one round off it and leaves the owner.
pub proof fn lemma_mortgage_runs(property: PropertyView, rounds: nat)
    requires
        rounds < MORTGAGE_ROUNDS,
    ensures
        property.mortgage().mortgage_ticks(rounds) == (PropertyView {
            mortgaged_for: Some((MORTGAGE_ROUNDS - rounds) as usize),
            ..property
        }),
    decreases rounds,
{
    if rounds > 0 {
        lemma_mortgage_runs(property, (rounds - 1) as nat);
    }
}

/// A mortgage that is not recovered costs the property: after
/// `MORTGAGE_ROUNDS` rounds it has no owner, and until then it keeps the one
/// it had.
pub proof fn lemma_unrecovered_mortgage_forfeits(property: PropertyView)
    ensures
        property.mortgage().mortgage_ticks(MORTGAGE_ROUNDS as nat).owner is None,
        property.mortgage().mortgage_ticks(MORTGAGE_ROUNDS as nat) == property.remove_owner(),
        forall|rounds: nat|
            rounds < MORTGAGE_ROUNDS ==> (#[trigger] property.mortgage().mortgage_ticks(
                rounds,
            )).owner == property.owner,
{
    lemma_mortgage_runs(property, (MORTGAGE_ROUNDS - 1) as nat);
    assert forall|rounds: nat| rounds < MORTGAGE_ROUNDS implies (
    #[trigger] property.mortgage().mortgage_ticks(rounds)).owner == property.owner by {
        lemma_mortgage_runs(property, rounds);
    }
}

/// To build an agency and then sell it brings back the level that the
/// property had, and the owner's balance: what was charged is what is
/// refunded.
pub proof fn lemma_build_then_sell(property: PropertyView, owner: PlayerView)
    requires
        property.wf(),
        property.owner is Some,
        property.ty is Simple,
        property.ty.level() < MAX_LEVEL,
        owner.can_pay(property.level_price()),
    ensures
        property.build_agency().wf(),
        property.build_agency().ty is Simple,
        property.build_agency().ty.level() == property.ty.level() + 1,
        property.build_agency().level_price() == property.level_price(),
        property.build_agency().sell_agency() == property,
        owner.withdraw(property.level_price()).deposit(property.level_price()) == owner,
{
}

impl View for Property {
    type V = PropertyView;

    closed spec fn view(&self) -> PropertyView {
        PropertyView {
            ty: self.ty,
            data: self.data,
            owner: self.owner,
            mortgaged_for: self.mortgaged_for,
        }
    }
}

impl Property {
    /// See `PropertyView::wf`. Every property that this library hands out is well formed.
    pub open spec fn wf(&self) -> bool {
        self@.wf()
    }

    pub fn new(data: PropertyData, ty: PropertyType) -> (property: Property)
        requires
            ty.wf(),
            ty.level() == 0,
        ensures
            property@ == PropertyView::fresh(data, ty),
            property.wf(),
    {
        Property { ty, data, owner: None, mortgaged_for: None }
    }

    pub fn ty(&self) -> (ty: PropertyType)
        ensures
            ty == self@.ty,
    {
        self.ty
    }

    pub fn data(&self) -> (data: PropertyData)
        ensures
            data == self@.data,
    {
        self.data
    }

    pub fn reward_for_mortgaging(&self) -> (reward: Money)
        ensures
            reward@ == self@.mortgage_reward(),
    {
        self.data.price / 2
    }

    pub fn recovery_price(&self) -> (price: Money)
        ensures
            price@ == self@.recovery_price(),
    {
        // The same as `price * 6 / 10`, without the product that might not fit.
        let tens = self.data.price / 10;
        let units = self.data.price % 10;
        Money::new(tens.value() * 6 + units.value() * 6 / 10)
    }

    pub fn owner(&self) -> (owner: Option<PlayerId>)
        ensures
            owner == self@.owner,
    {
        self.owner
    }

    /// Puts the property back on the market.
    pub fn remove_owner(&mut self)
        requires
            old(self).wf(),
        ensures
            final(self)@ == old(self)@.remove_owner(),
            final(self).wf(),
    {
        self.owner = None;
        self.mortgaged_for = None;
        self.reset_level();
    }

    fn reset_level(&mut self)
        ensures
            final(self)@ == (PropertyView { ty: old(self)@.ty.at_level(0), ..old(self)@ }),
    {
        match self.ty {
            PropertyType::Simple { levels, level_price, .. } => {
                self.ty = PropertyType::Simple { levels, level_price, level: 0 };
            },
            _ => {},
        }
    }

    pub fn mortgaged_for(&self) -> (rounds: Option<usize>)
        ensures
            rounds == self@.mortgaged_for,
    {
        self.mortgaged_for
    }

    /// Sells the property to `player`, who pays its price. Fails, and changes
    /// nothing, where the property has an owner or the player cannot pay.
    pub fn buy(&mut self, player: &mut Player) -> (result: Result<(), FreePropertyError>)
        requires
            old(self).wf(),
            old(player)@.can_pay(old(self)@.data.price@) ==> fits(
                old(player)@.balance - old(self)@.data.price@,
            ),
        ensures
            final(self).wf(),
            match result {
                Ok(()) => {
                    &&& old(self)@.owner is None
                    &&& old(player)@.can_pay(old(self)@.data.price@)
                    &&& final(self)@ == old(self)@.buy(old(player)@.id)
                    &&& final(player)@ == old(player)@.withdraw(old(self)@.data.price@)
                },
                Err(FreePropertyError::AlreadyOwned { source }) => {
                    &&& old(self)@.owner == Some(source.owner_id)
                    &&& source.owner_name is None
                    &&& source.property_title@ == old(self)@.data.title@
                    &&& final(self)@ == old(self)@
                    &&& final(player)@ == old(player)@
                },
                Err(FreePropertyError::NotEnoughMoney { source }) => {
                    &&& old(self)@.owner is None
                    &&& !old(player)@.can_pay(old(self)@.data.price@)
                    &&& source.player_id == old(player)@.id
                    &&& source.player_name@ == old(player)@.name
                    &&& source.amount == old(self)@.data.price
                    &&& final(self)@ == old(self)@
                    &&& final(player)@ == old(player)@
                },
            },
    {
        if let Some(owner_id) = self.owner {
            return Err(
                FreePropertyError::AlreadyOwned {
                    source: HasOwnerError {
                        property_title: self.data.title,
                        owner_name: None,
                        owner_id,
                    },
                },
            );
        }
        match player.withdraw(self.data.price) {
            Err(source) => Err(FreePropertyError::NotEnoughMoney { source }),
            Ok(()) => {
                self.owner = Some(player.id());
                Ok(())
            },
        }
    }

    /// Mortgages the property for `MORTGAGE_ROUNDS` rounds and pays `owner`
    /// half its price. Fails where the property has no owner.
    pub fn mortgage(&mut self, owner: &mut Player) -> (result: Result<(), NoOwnerError>)
        requires
            old(self).wf(),
            old(self)@.owner is Some ==> {
                &&& old(self)@.owner == Some(old(owner)@.id)
                &&& fits(old(owner)@.balance + old(self)@.mortgage_reward())
            },
        ensures
            final(self).wf(),
            match result {
                Ok(()) => {
                    &&& old(self)@.owner is Some
                    &&& final(self)@ == old(self)@.mortgage()
                    &&& final(owner)@ == old(owner)@.deposit(old(self)@.mortgage_reward())
                },
                Err(error) => {
                    &&& old(self)@.owner is None
                    &&& error.property_title@ == old(self)@.data.title@
                    &&& final(self)@ == old(self)@
                    &&& final(owner)@ == old(owner)@
                },
            },
    {
        if self.owner.is_none() {
            return Err(NoOwnerError { property_title: self.data.title });
        }
        self.mortgaged_for = Some(MORTGAGE_ROUNDS);
        owner.deposit(self.reward_for_mortgaging());
        Ok(())
    }

    /// Lifts the mortgage, for which `owner` pays six tenths of the price.
    /// Fails, and changes nothing, where the property has no owner or the
    /// owner cannot pay.
    pub fn recover(&mut self, owner: &mut Player) -> (result: Result<(), OwnedPropertyError>)
        requires
            old(self).wf(),
            old(self)@.owner is Some ==> {
                &&& old(self)@.owner == Some(old(owner)@.id)
                &&& old(owner)@.can_pay(old(self)@.recovery_price()) ==> fits(
                    old(owner)@.balance - old(self)@.recovery_price(),
                )
            },
        ensures
            final(self).wf(),
            match result {
                Ok(()) => {
                    &&& old(self)@.owner is Some
                    &&& old(owner)@.can_pay(old(self)@.recovery_price())
                    &&& final(self)@ == old(self)@.recover()
                    &&& final(owner)@ == old(owner)@.withdraw(old(self)@.recovery_price())
                },
                Err(OwnedPropertyError::NoOwner { source }) => {
                    &&& old(self)@.owner is None
                    &&& source.property_title@ == old(self)@.data.title@
                    &&& final(self)@ == old(self)@
                    &&& final(owner)@ == old(owner)@
                },
                Err(OwnedPropertyError::NotEnoughMoney { source }) => {
                    &&& old(self)@.owner is Some
                    &&& !old(owner)@.can_pay(old(self)@.recovery_price())
                    &&& source.player_id == old(owner)@.id
                    &&& source.player_name@ == old(owner)@.name
                    &&& source.amount@ == old(self)@.recovery_price()
                    &&& final(self)@ == old(self)@
                    &&& final(owner)@ == old(owner)@
                },
            },
    {
        if self.owner.is_none() {
            return Err(
                OwnedPropertyError::NoOwner {
                    source: NoOwnerError { property_title: self.data.title },
                },
            );
        }
        match owner.withdraw(self.recovery_price()) {
            Err(source) => Err(OwnedPropertyError::NotEnoughMoney { source }),
            Ok(()) => {
                self.mortgaged_for = None;
                Ok(())
            },
        }
    }

    /// Lets one round pass: a mortgage loses a round, and with its last
    /// round the property goes back on the market.
    pub fn mortgage_tick(&mut self)
        requires
            old(self).wf(),
        ensures
            final(self)@ == old(self)@.mortgage_tick(),
            final(self).wf(),
    {
        match self.mortgaged_for {
            None => {},
            Some(rounds) => {
                let left = rounds.saturating_sub(1);
                if left == 0 {
                    self.remove_owner();
                } else {
                    self.mortgaged_for = Some(left);
                }
            },
        }
    }

    /// Builds one agency on a simple property, for which `owner` pays the
    /// price of a level. Fails, and changes nothing, where the property has
    /// no owner, where it is not simple, where the owner cannot pay, or
    /// where the owner can pay but the property stands at the highest level
    /// already. The failures are told in this order.
    pub fn build_agency(&mut self, owner: &mut Player) -> (result: Result<(), AgencyPropertyError>)
        requires
            old(self).wf(),
            old(self)@.owner is Some ==> {
                &&& old(self)@.owner == Some(old(owner)@.id)
                &&& old(owner)@.can_pay(old(self)@.level_price()) ==> fits(
                    old(owner)@.balance - old(self)@.level_price(),
                )
            },
        ensures
            final(self).wf(),
            result is Err ==> final(self)@ == old(self)@ && final(owner)@ == old(owner)@,
            match result {
                Ok(()) => {
                    &&& old(self)@.owner is Some
                    &&& old(self)@.ty is Simple
                    &&& old(self)@.ty.level() < MAX_LEVEL
                    &&& old(owner)@.can_pay(old(self)@.level_price())
                    &&& final(self)@ == old(self)@.build_agency()
                    &&& final(owner)@ == old(owner)@.withdraw(old(self)@.level_price())
                    // What was charged can be refunded: the agency can be sold again.
                    &&& fits(final(owner)@.balance + final(self)@.level_price())
                },
                Err(AgencyPropertyError::NoOwner { source }) => {
                    &&& old(self)@.owner is None
                    &&& source.property_title@ == old(self)@.data.title@
                },
                Err(AgencyPropertyError::NotASimpleProperty { property_title }) => {
                    &&& old(self)@.owner is Some
                    &&& !(old(self)@.ty is Simple)
                    &&& property_title@ == old(self)@.data.title@
                },
                Err(AgencyPropertyError::AlreadyBuilt { property_title }) => {
                    &&& old(self)@.owner is Some
                    &&& old(self)@.ty is Simple
                    &&& old(self)@.ty.level() == MAX_LEVEL
                    &&& old(owner)@.can_pay(old(self)@.level_price())
                    &&& property_title@ == old(self)@.data.title@
                },
                Err(AgencyPropertyError::NotEnoughMoney { source }) => {
                    &&& old(self)@.owner is Some
                    &&& old(self)@.ty is Simple
                    &&& !old(owner)@.can_pay(old(self)@.level_price())
                    &&& source.player_id == old(owner)@.id
                    &&& source.player_name@ == old(owner)@.name
                    &&& source.amount@ == old(self)@.level_price()
                },
                Err(AgencyPropertyError::NothingBuilt { .. }) => false,
            },
    {
        if self.owner.is_none() {
            return Err(
                AgencyPropertyError::NoOwner {
                    source: NoOwnerError { property_title: self.data.title },
                },
            );
        }
        match self.ty {
            PropertyType::Simple { levels, level_price, level } => {
                if let Err(source) = owner.covers(level_price) {
                    return Err(AgencyPropertyError::NotEnoughMoney { source });
                }
                proof {
                    owner.lemma_balance_fits();
                }
                if level >= MAX_LEVEL {
                    return Err(
                        AgencyPropertyError::AlreadyBuilt { property_title: self.data.title },
                    );
                }
                match owner.withdraw(level_price) {
                    Err(source) => Err(AgencyPropertyError::NotEnoughMoney { source }),
                    Ok(()) => {
                        self.ty = PropertyType::Simple { levels, level_price, level: level + 1 };
                        Ok(())
                    },
                }
            },
            _ => Err(AgencyPropertyError::NotASimpleProperty { property_title: self.data.title }),
        }
    }

    /// Sells one agency of a simple property, for which `owner` gets the
    /// price of a level back. Fails, and changes nothing, where the property
    /// has no owner, is not simple, or holds no agency.
    pub fn sell_agency(&mut self, owner: &mut Player) -> (result: Result<(), AgencyPropertyError>)
        requires
            old(self).wf(),
            old(self)@.owner is Some ==> {
                &&& old(self)@.owner == Some(old(owner)@.id)
                &&& fits(old(owner)@.balance + old(self)@.level_price())
            },
        ensures
            final(self).wf(),
            result is Err ==> final(self)@ == old(self)@ && final(owner)@ == old(owner)@,
            match result {
                Ok(()) => {
                    &&& old(self)@.owner is Some
                    &&& old(self)@.ty is Simple
                    &&& old(self)@.ty.level() > 0
                    &&& final(self)@ == old(self)@.sell_agency()
                    &&& final(owner)@ == old(owner)@.deposit(old(self)@.level_price())
                },
                Err(AgencyPropertyError::NoOwner { source }) => {
                    &&& old(self)@.owner is None
                    &&& source.property_title@ == old(self)@.data.title@
                },
                Err(AgencyPropertyError::NotASimpleProperty { property_title }) => {
                    &&& old(self)@.owner is Some
                    &&& !(old(self)@.ty is Simple)
                    &&& property_title@ == old(self)@.data.title@
                },
                Err(AgencyPropertyError::NothingBuilt { property_title }) => {
                    &&& old(self)@.owner is Some
                    &&& old(self)@.ty is Simple
                    &&& old(self)@.ty.level() == 0
                    &&& property_title@ == old(self)@.data.title@
                },
                Err(AgencyPropertyError::NotEnoughMoney { .. }) => false,
                Err(AgencyPropertyError::AlreadyBuilt { .. }) => false,
            },
    {
        if self.owner.is_none() {
            return Err(
                AgencyPropertyError::NoOwner {
                    source: NoOwnerError { property_title: self.data.title },
                },
            );
        }
        match self.ty {
            PropertyType::Simple { levels, level_price, level } => {
                if level == 0 {
                    return Err(
                        AgencyPropertyError::NothingBuilt { property_title: self.data.title },
                    );
                }
                owner.deposit(level_price);
                self.ty = PropertyType::Simple { levels, level_price, level: level - 1 };
                Ok(())
            },
            _ => Err(AgencyPropertyError::NotASimpleProperty { property_title: self.data.title }),
        }
    }
}

impl Property {
    /// The rent that is due on the property as the game stands: none where
    /// nobody owns it, nothing where it is mortgaged, else what its kind
    /// earns with the properties of its group that the owner holds. A
    /// simple property need not lie on the board of `game_state`; a car and
    /// a utility whose rent is due must, so that the owner holds at least
    /// the one.
    pub fn rent(&self, game_state: &GameState) -> (rent: Option<Money>)
        requires
            self.wf(),
            game_state.wf(),
            game_state@.counts_for(self@),
            game_state@.dice_ready_for(self@),
        ensures
            match rent {
                Some(amount) => game_state@.rent_of(self@) == Some(amount@),
                None => game_state@.rent_of(self@) is None,
            },
            rent is Some <==> self@.owner is Some,
            self@.mortgaged_for is Some ==> rent == Some(Money(0)),
            self@.owner is Some && self@.mortgaged_for is None && self@.ty is Simple ==> rent
                == Some(
                Money(
                    self@.simple_rent(
                        game_state@.has_monopoly_on(self@.owner->0, self@.data.group@),
                    ) as i64,
                ),
            ),
    {
        let owner = match self.owner {
            None => {
                return None;
            },
            Some(owner) => owner,
        };
        if self.mortgaged_for.is_some() {
            return Some(Money::new(0));
        }
        let group = self.data.group;
        let (owns, total) = game_state.has_from_group(owner, &group);
        proof {
            if !(self@.ty is Simple) {
                let game = game_state@;
                let c = choose|c: int|
                    0 <= c < game.cells.len() && (#[trigger] game.cells[c])
                        == CellView::Property(self@);
                lemma_member_is_counted(game.cells, c, owner, group@);
            }
        }
        Some(
            match self.ty {
                PropertyType::Simple { levels, level, .. } => {
                    if owns == total && level == 0 {
                        levels[0] * 2
                    } else {
                        levels[level]
                    }
                },
                PropertyType::Transport { levels } => levels[owns - 1],
                PropertyType::Utility { levels } => {
                    let (first, second) = game_state.rolled_dice().unwrap();
                    let sum: i64 = (first + second) as i64;
                    let base = levels[owns - 1];
                    assert(fits(base@ * sum)) by (nonlinear_arith)
                        requires
                            fits(base@ * MAX_DICE_SUM),
                            0 <= sum <= MAX_DICE_SUM,
                    ;
                    base * sum
                },
            },
        )
    }

    /// Takes the rent of the property from the player `player` and gives it
    /// to the owner. Fails, and changes nothing, where the property has no
    /// owner or the player cannot pay the rent.
    pub fn pay_rent(&self, player: PlayerId, game_state: &mut GameState) -> (result: Result<
        (),
        OwnedPropertyError,
    >)
        requires
            old(game_state).wf(),
            old(game_state)@.has_property(self@),
            old(game_state)@.dice_ready_for(self@),
            old(game_state)@.has_player(player),
            old(game_state)@.pay_rent_fits(self@, player),
        ensures
            final(game_state).wf(),
            final(game_state)@ == old(game_state)@.pay_rent(self@, player),
            old(game_state)@.turn_holder_in_play() ==> final(game_state)@.turn_holder_in_play(),
            match result {
                Ok(()) => {
                    &&& old(game_state)@.rent_of(self@) matches Some(rent)
                    &&& old(game_state)@.player(player).can_pay(rent)
                },
                Err(OwnedPropertyError::NoOwner { source }) => {
                    &&& self@.owner is None
                    &&& source.property_title@ == self@.data.title@
                },
                Err(OwnedPropertyError::NotEnoughMoney { source }) => {
                    &&& old(game_state)@.rent_of(self@) matches Some(rent)
                    &&& !old(game_state)@.player(player).can_pay(rent)
                    &&& source.player_id == player
                    &&& source.player_name@ == old(game_state)@.player(player).name
                    &&& source.amount@ == rent
                },
            },
    {
        let owner = match self.owner {
            None => {
                return Err(
                    OwnedPropertyError::NoOwner {
                        source: NoOwnerError { property_title: self.data.title },
                    },
                );
            },
            Some(owner) => owner,
        };
        let rent = self.rent(game_state).unwrap();
        match game_state.debit(player, rent) {
            Err(source) => {
                assert(game_state@.players =~= old(game_state)@.players);
                Err(OwnedPropertyError::NotEnoughMoney { source })
            },
            Ok(()) => {
                game_state.credit(owner, rent);
                Ok(())
            },
        }
    }
}

/// One square of the board.
#[derive(Debug, Clone, Copy)]
pub enum Cell {
    Start,
    Jail,
    FreeParking,
    GoToJail,
    Property(Property),
    Chance,
    Tax(Money),
}

/// A square, with its property as plain values.
pub enum CellView {
    Start,
    Jail,
    FreeParking,
    GoToJail,
    Property(PropertyView),
    Chance,
    Tax(Money),
}

impl CellView {
    /// Whether the square holds a property of the group `group`.
    pub open spec fn in_group(self, group: GroupView) -> bool {
        self matches CellView::Property(property) && property.data.group@ == group
    }

    /// Whether the square holds a property that `player` owns.
    pub open spec fn owned_by(self, player: PlayerId) -> bool {
        self matches CellView::Property(property) && property.owner == Some(player)
    }

    /// The square once `player` has given up what the player owned.
    pub open spec fn released_by(self, player: PlayerId) -> CellView {
        match self {
            CellView::Property(property) if property.owner == Some(player) => CellView::Property(
                property.remove_owner(),
            ),
            _ => self,
        }
    }

    /// The square one round later.
    pub open spec fn mortgage_tick(self) -> CellView {
        match self {
            CellView::Property(property) => CellView::Property(property.mortgage_tick()),
            _ => self,
        }
    }
}

impl View for Cell {
    type V = CellView;

    open spec fn view(&self) -> CellView {
        match self {
            Cell::Start => CellView::Start,
            Cell::Jail => CellView::Jail,
            Cell::FreeParking => CellView::FreeParking,
            Cell::GoToJail => CellView::GoToJail,
            Cell::Property(property) => CellView::Property(property@),
            Cell::Chance => CellView::Chance,
            Cell::Tax(amount) => CellView::Tax(*amount),
        }
    }
}

impl Cell {
    /// The property on the square, where it holds one.
    pub open spec fn property(self) -> Option<Property> {
        match self {
            Cell::Property(property) => Some(property),
            _ => None,
        }
    }

    /// Lets the current player of `game_state` land on the cell, and
    /// returns what the cell asks of the player.
    ///
    /// The first cell, the jail and the free parking ask nothing and do
    /// nothing. The cell that sends to jail jails the player. A chance asks
    /// to acknowledge the card `chance_draw`, a tax to acknowledge its
    /// amount. A property of the player's own asks nothing; that of another
    /// asks to acknowledge the rent that is due; one without owner is on
    /// offer at its price.
    pub fn trigger(&self, game_state: &mut GameState, chance_draw: usize) -> (landing: Landing)
        requires
            old(game_state).wf(),
            chance_draw < CHANCE_CARDS,
            old(game_state)@.has_cell(self@),
            self@ matches CellView::Property(property) ==> old(game_state)@.dice_ready_for(
                property,
            ),
        ensures
            landing == old(game_state)@.landing_on(self@, chance_draw),
            final(game_state)@ == old(game_state)@.trigger(self@),
            final(game_state).wf(),
            old(game_state)@.turn_holder_in_play() ==> final(game_state)@.turn_holder_in_play(),
    {
        match self {
            Cell::Start | Cell::Jail | Cell::FreeParking => Landing::Nothing,
            Cell::GoToJail => {
                game_state.send_current_to_jail();
                Landing::Nothing
            },
            Cell::Chance => Landing::Chance { amount: draw_chance_card(chance_draw) },
            Cell::Tax(amount) => Landing::Tax { amount: *amount },
            Cell::Property(property) => {
                let current = game_state.current_player().id();
                if property.owner() == Some(current) {
                    Landing::Nothing
                } else {
                    match property.rent(game_state) {
                        Some(rent) => Landing::Rent { rent },
                        None => Landing::Offer { price: property.data.price },
                    }
                }
            },
        }
    }

    /// The property on the square, where it holds one.
    pub fn try_unwrap_property(self) -> (property: Option<Property>)
        ensures
            property == self.property(),
    {
        match self {
            Cell::Property(property) => Some(property),
            _ => None,
        }
    }
}

} // verus!
