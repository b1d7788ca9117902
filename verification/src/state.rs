//! The state that every feature reads and changes.

use crate::feature::fight::FightData;
use crate::feature::inventory::{Inventory, InventoryView};
use crate::feature::shop::{UpgradeInfoView, Upgrades};
use vstd::prelude::*;

verus! {

/// A key of the keyboard, as far as the game tells keys apart.
#[derive(Clone, Copy, Debug, PartialEq, Eq)]
pub enum Key {
    /// A character key.
    Char(char),
    Left,
    Right,
    Esc,
    Enter,
    /// No key was pressed.
    Null,
    /// Any other key.
    Other,
}

impl Key {
    /// Whether two keys are the same.
    pub fn same(self, other: Key) -> (same: bool)
        ensures
            same == (self == other),
    {
        match (self, other) {
            (Key::Char(a), Key::Char(b)) => a == b,
            (Key::Left, Key::Left) => true,
            (Key::Right, Key::Right) => true,
            (Key::Esc, Key::Esc) => true,
            (Key::Enter, Key::Enter) => true,
            (Key::Null, Key::Null) => true,
            (Key::Other, Key::Other) => true,
            _ => false,
        }
    }
}

/// The state of the game, handed to the selected feature on every tick.
pub struct State {
    /// The most recent key.
    pub key: Key,
    /// Position of the feature that is open, if one is.
    pub selected_feature: Option<usize>,
    pub quit: bool,
    pub count: i32,
    pub fight: FightData,
    pub inventory: Inventory,
    pub upgrades: Upgrades,
}

/// The state as a value.
pub struct StateView {
    pub key: Key,
    pub selected_feature: Option<usize>,
    pub quit: bool,
    pub count: i32,
    pub fight: FightData,
    pub inventory: InventoryView,
    pub upgrades: Seq<UpgradeInfoView>,
}

/// The state in which a game begins.
pub open spec fn initial() -> StateView {
    StateView {
        key: Key::Null,
        selected_feature: None,
        quit: false,
        count: 0,
        fight: FightData::initial(),
        inventory: InventoryView { items: Seq::empty(), max_size: 10 },
        upgrades: Seq::empty(),
    }
}

impl StateView {
    /// Each part is well formed.
    pub open spec fn wf(self) -> bool {
        &&& self.fight.wf()
        &&& self.inventory.wf()
        &&& crate::feature::shop::distinct_names(self.upgrades)
    }
}

impl View for State {
    type V = StateView;

    open spec fn view(&self) -> StateView {
        StateView {
            key: self.key,
            selected_feature: self.selected_feature,
            quit: self.quit,
            count: self.count,
            fight: self.fight,
            inventory: self.inventory@,
            upgrades: self.upgrades@,
        }
    }
}

impl State {
    /// Each part is well formed.
    pub open spec fn wf(&self) -> bool {
        &&& self.fight.wf()
        &&& self.inventory.wf()
        &&& self.upgrades.wf()
    }

    /// The state in which a game begins.
    pub fn new() -> (state: State)
        ensures
            state.wf(),
            state@ == initial(),
    {
        State {
            key: Key::Null,
            selected_feature: None,
            quit: false,
            count: 0,
            fight: FightData::default(),
            inventory: Inventory::default(),
            upgrades: Upgrades::default(),
        }
    }
}

} // verus!
