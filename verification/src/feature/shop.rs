//! The shop: upgrades bought with gold.

use crate::feature::fight::FightData;
use crate::feature::inventory::{saturating_sum, Rarity};
use crate::feature::{
    views, Feature, FeatureEntry, FeatureEntryView, FeatureInfo, FeatureInfoView,
};
use crate::message::{Message, MessageManager, MessageView, TextLocation};
use crate::state::{Key, State, StateView};
use crate::util::conv::{key_number, to_number};
use crate::util::style::{rarity_stylize, shows, tinted, unstyled, Styled, StyledView, Tint};
use crate::util::text::{decimal, push_decimal};
use vstd::prelude::*;
use vstd::string::StringExecFns;

verus! {

/// What an upgrade improves.
#[derive(Clone, Copy, Debug, PartialEq, Eq)]
pub enum Effect {
    /// One point more of attack.
    Damage,
    /// One point more of highest health.
    Health,
    /// Half a point more of regeneration per second.
    Regeneration,
}

/// The combat data after an upgrade took effect. A quantity stops growing
/// at `u64::MAX`.
pub open spec fn applied(effect: Effect, f: FightData) -> FightData {
    match effect {
        Effect::Damage => FightData {
            player: crate::feature::fight::Living {
                attack: saturating_sum(f.player.attack, 1000),
                ..f.player
            },
            ..f
        },
        Effect::Health => FightData {
            player: crate::feature::fight::Living {
                max_health: saturating_sum(f.player.max_health, 1000),
                ..f.player
            },
            ..f
        },
        Effect::Regeneration => FightData { regen: saturating_sum(f.regen, 500), ..f },
    }
}

impl Effect {
    /// Lets the upgrade take effect on the player.
    pub fn apply(&self, state: &mut State)
        requires
            old(state).wf(),
        ensures
            final(state).wf(),
            final(state)@ == (StateView { fight: applied(*self, old(state).fight), ..old(state)@ }),
    {
        match self {
            Effect::Damage => {
                state.fight.player.attack = state.fight.player.attack.saturating_add(1000);
            },
            Effect::Health => {
                state.fight.player.max_health = state.fight.player.max_health.saturating_add(
                    1000,
                );
            },
            Effect::Regeneration => {
                state.fight.regen = state.fight.regen.saturating_add(500);
            },
        }
    }
}

/// Something the shop sells.
pub struct Upgrade {
    pub name: String,
    pub description: String,
    /// The price in gold.
    pub cost: u64,
    /// How often the upgrade can be bought.
    pub max_count: u32,
    pub rarity: Rarity,
    pub apply: Effect,
}

/// An upgrade as a value.
pub struct UpgradeView {
    pub name: Seq<char>,
    pub description: Seq<char>,
    pub cost: u64,
    pub max_count: u32,
    pub rarity: Rarity,
    pub apply: Effect,
}

impl View for Upgrade {
    type V = UpgradeView;

    open spec fn view(&self) -> UpgradeView {
        UpgradeView {
            name: self.name@,
            description: self.description@,
            cost: self.cost,
            max_count: self.max_count,
            rarity: self.rarity,
            apply: self.apply,
        }
    }
}

/// Everything the shop sells, in the order of the shelf.
pub open spec fn all_upgrades() -> Seq<UpgradeView> {
    seq![
        UpgradeView {
            name: "Damage"@,
            description: "Increases your damage by 1"@,
            cost: 5,
            max_count: 5,
            rarity: Rarity::Common,
            apply: Effect::Damage,
        },
        UpgradeView {
            name: "Health"@,
            description: "Increases your max health by 1"@,
            cost: 5,
            max_count: 5,
            rarity: Rarity::Common,
            apply: Effect::Health,
        },
        UpgradeView {
            name: "Regeneration"@,
            description: "Doubles your health regeneration at floor 0"@,
            cost: 10,
            max_count: 1,
            rarity: Rarity::Uncommon,
            apply: Effect::Regeneration,
        },
    ]
}

/// Everything the shop sells, in the order of the shelf.
pub fn get_all_upgrades() -> (all: Vec<Upgrade>)
    ensures
        views(all@) == all_upgrades(),
{
    let mut all: Vec<Upgrade> = Vec::new();
    all.push(
        Upgrade {
            name: "Damage".to_owned(),
            description: "Increases your damage by 1".to_owned(),
            cost: 5,
            max_count: 5,
            rarity: Rarity::Common,
            apply: Effect::Damage,
        },
    );
    all.push(
        Upgrade {
            name: "Health".to_owned(),
            description: "Increases your max health by 1".to_owned(),
            cost: 5,
            max_count: 5,
            rarity: Rarity::Common,
            apply: Effect::Health,
        },
    );
    all.push(
        Upgrade {
            name: "Regeneration".to_owned(),
            description: "Doubles your health regeneration at floor 0".to_owned(),
            cost: 10,
            max_count: 1,
            rarity: Rarity::Uncommon,
            apply: Effect::Regeneration,
        },
    );
    assert(views(all@) =~= all_upgrades());
    all
}

/// How often one upgrade was bought.
pub struct UpgradeInfo {
    pub name: String,
    pub count: u32,
}

/// A purchase record as a value.
pub struct UpgradeInfoView {
    pub name: Seq<char>,
    pub count: u32,
}

impl View for UpgradeInfo {
    type V = UpgradeInfoView;

    open spec fn view(&self) -> UpgradeInfoView {
        UpgradeInfoView { name: self.name@, count: self.count }
    }
}

/// No two records share a name.
pub open spec fn distinct_names(records: Seq<UpgradeInfoView>) -> bool {
    forall|i: int, j: int|
        0 <= i < j < records.len() ==> (#[trigger] records[i]).name != (#[trigger] records[j]).name
}

/// Whether there is a record for `name`.
pub open spec fn has_record(records: Seq<UpgradeInfoView>, name: Seq<char>) -> bool {
    exists|i: int| 0 <= i < records.len() && (#[trigger] records[i]).name == name
}

/// Where the record for `name` is.
pub open spec fn record_slot(records: Seq<UpgradeInfoView>, name: Seq<char>) -> int {
    choose|i: int| 0 <= i < records.len() && (#[trigger] records[i]).name == name
}

/// How often `name` was bought, if ever.
pub open spec fn bought(records: Seq<UpgradeInfoView>, name: Seq<char>) -> Option<u32> {
    if has_record(records, name) {
        Some(records[record_slot(records, name)].count)
    } else {
        None
    }
}

/// The records after one more purchase of `name`. A count stops growing at
/// `u32::MAX`.
pub open spec fn after_purchase(records: Seq<UpgradeInfoView>, name: Seq<char>) -> Seq<
    UpgradeInfoView,
> {
    if has_record(records, name) {
        let at = record_slot(records, name);
        let count = records[at].count;
        records.update(
            at,
            UpgradeInfoView {
                name: records[at].name,
                count: if count < u32::MAX {
                    (count + 1) as u32
                } else {
                    count
                },
            },
        )
    } else {
        records.push(UpgradeInfoView { name, count: 1 })
    }
}

/// The upgrades that were bought, in the order of their first purchase.
pub struct Upgrades {
    upgrades: Vec<UpgradeInfo>,
}

impl View for Upgrades {
    type V = Seq<UpgradeInfoView>;

    closed spec fn view(&self) -> Seq<UpgradeInfoView> {
        Seq::new(self.upgrades@.len(), |i: int| self.upgrades@[i]@)
    }
}

impl Default for Upgrades {
    /// Nothing was bought yet.
    fn default() -> (upgrades: Self)
        ensures
            upgrades.wf(),
            upgrades@ == Seq::<UpgradeInfoView>::empty(),
    {
        let upgrades = Self { upgrades: Vec::new() };
        assert(upgrades@ =~= Seq::empty());
        upgrades
    }
}

impl Upgrades {
    /// No two records share a name.
    pub open spec fn wf(&self) -> bool {
        distinct_names(self@)
    }

    /// Where the record for `name` is, if there is one.
    fn find(&self, name: &str) -> (at: Option<usize>)
        requires
            self.wf(),
        ensures
            at is Some <==> has_record(self@, name@),
            at matches Some(i) ==> i == record_slot(self@, name@) && 0 <= i < self.upgrades@.len(),
    {
        let mut i: usize = 0;
        while i < self.upgrades.len()
            invariant
                self.wf(),
                i <= self.upgrades@.len(),
                forall|k: int| 0 <= k < i ==> (#[trigger] self@[k]).name != name@,
            decreases self.upgrades@.len() - i,
        {
            if self.upgrades[i].name.as_str().eq(name) {
                proof {
                    assert(self@[i as int].name == name@);
                    let j = record_slot(self@, name@);
                    assert(self@[j].name == name@);
                    assert(j == i);
                }
                return Some(i);
            }
            i += 1;
        }
        None
    }

    /// How often `name` was bought, if ever.
    pub fn contains(&self, name: &str) -> (count: Option<u32>)
        requires
            self.wf(),
        ensures
            count == bought(self@, name@),
    {
        match self.find(name) {
            Some(i) => Some(self.upgrades[i].count),
            None => None,
        }
    }

    /// Records one more purchase of `name`.
    pub fn buy(&mut self, name: &str)
        requires
            old(self).wf(),
        ensures
            final(self).wf(),
            final(self)@ == after_purchase(old(self)@, name@),
    {
        match self.find(name) {
            Some(i) => {
                let count = self.upgrades[i].count;
                if count < u32::MAX {
                    self.upgrades[i].count = count + 1;
                }
                assert(self@ =~= after_purchase(old(self)@, name@));
            },
            None => {
                self.upgrades.push(UpgradeInfo { name: name.to_owned(), count: 1 });
                assert(self@ =~= after_purchase(old(self)@, name@));
            },
        }
    }
}

/// Whether an upgrade is still on offer: it was bought less often than it
/// can be.
pub open spec fn on_offer(records: Seq<UpgradeInfoView>, upgrade: UpgradeView) -> bool {
    match bought(records, upgrade.name) {
        Some(count) => count < upgrade.max_count,
        None => true,
    }
}

/// Those of `shelf` that are on offer, in the order of the shelf.
pub open spec fn offers_among(records: Seq<UpgradeInfoView>, shelf: Seq<UpgradeView>) -> Seq<
    UpgradeView,
>
    decreases shelf.len(),
{
    if shelf.len() == 0 {
        Seq::empty()
    } else {
        let before = offers_among(records, shelf.drop_last());
        if on_offer(records, shelf.last()) {
            before.push(shelf.last())
        } else {
            before
        }
    }
}

/// What the shop offers to a player with these records.
pub open spec fn offers(records: Seq<UpgradeInfoView>) -> Seq<UpgradeView> {
    offers_among(records, all_upgrades())
}

/// What the shop offers to a player with these records.
pub fn available(upgrades: &Upgrades) -> (offered: Vec<Upgrade>)
    requires
        upgrades.wf(),
    ensures
        views(offered@) == offers(upgrades@),
{
    let shelf = get_all_upgrades();
    let ghost all = views(shelf@);
    let mut offered: Vec<Upgrade> = Vec::new();
    for upgrade in it: shelf
        invariant
            upgrades.wf(),
            views(it.seq()) == all,
            views(offered@) == offers_among(upgrades@, all.take(it.index())),
    {
        proof {
            assert(all.take(it.index() + 1).drop_last() =~= all.take(it.index()));
            assert(all.take(it.index() + 1).last() == upgrade@);
        }
        let on_offer = match upgrades.contains(upgrade.name.as_str()) {
            Some(count) => count < upgrade.max_count,
            None => true,
        };
        if on_offer {
            let ghost before = views(offered@);
            offered.push(upgrade);
            assert(views(offered@) =~= before.push(upgrade@));
        }
    }
    proof {
        assert(all.take(all.len() as int) =~= all);
    }
    offered
}

/// The upgrade that the key of the state selects: for the digit `i`, the
/// `i`-th of what the shop offers, counted from one.
pub open spec fn chosen(s: StateView) -> Option<UpgradeView> {
    match key_number(s.key) {
        Some(i) => if 1 <= i <= offers(s.upgrades).len() {
            Some(offers(s.upgrades)[i - 1])
        } else {
            None
        },
        None => None,
    }
}

/// Whether the player can pay for what the key selects.
pub open spec fn affords(s: StateView) -> bool {
    chosen(s) matches Some(upgrade) && s.inventory.amount_of("Gold"@) >= upgrade.cost
}

/// The state after the shop's tick: an upgrade that is selected and can be
/// paid for costs its price in gold, is recorded and takes effect.
pub open spec fn after_shopping(s: StateView) -> StateView {
    if affords(s) {
        let upgrade = chosen(s)->0;
        StateView {
            inventory: s.inventory.removed("Gold"@, upgrade.cost),
            upgrades: after_purchase(s.upgrades, upgrade.name),
            fight: applied(upgrade.apply, s.fight),
            ..s
        }
    } else {
        s
    }
}

/// What the shop says of a purchase.
pub open spec fn receipt_text(upgrade: UpgradeView, count: u32) -> Seq<char> {
    "You bought "@ + upgrade.name + " for "@ + decimal(upgrade.cost as nat) + " gold. "@
        + decimal(count as nat) + "/"@ + decimal(upgrade.max_count as nat)
}

/// The message of the shop's tick, if it has one: a receipt for five
/// seconds, or for three that the gold is not enough.
pub open spec fn shop_message(s: StateView) -> Option<MessageView> {
    match chosen(s) {
        Some(upgrade) => Some(
            if affords(s) {
                MessageView {
                    text: tinted(
                        receipt_text(
                            upgrade,
                            match bought(after_purchase(s.upgrades, upgrade.name), upgrade.name) {
                                Some(count) => count,
                                None => 0,
                            },
                        ),
                        Tint::Green,
                    ),
                    location: TextLocation::Center,
                    duration: 5000,
                }
            } else {
                MessageView {
                    text: tinted("You don't have enough gold"@, Tint::Red),
                    location: TextLocation::Center,
                    duration: 3000,
                }
            },
        ),
        None => None,
    }
}

/// The line of an offer: its number, how often it was bought and can be,
/// its price, its name as `painted` shows it, and its description.
pub open spec fn offer_text(upgrade: UpgradeView, number: nat, count: u32, painted: Seq<char>) -> Seq<
    char,
> {
    "("@ + decimal(number) + ") |"@ + decimal(count as nat) + "/"@ + decimal(
        upgrade.max_count as nat,
    ) + "| ["@ + decimal(upgrade.cost as nat) + "] <"@ + painted + "> "@ + upgrade.description
}

/// The line of an offer, with its name as `painted` shows it.
pub fn offer_line(upgrade: &Upgrade, number: usize, count: u32, painted: &str) -> (line: String)
    ensures
        line@ == offer_text(upgrade@, number as nat, count, painted@),
{
    let mut line = "(".to_owned();
    push_decimal(&mut line, number as u64);
    line.append(") |");
    push_decimal(&mut line, count as u64);
    line.append("/");
    push_decimal(&mut line, upgrade.max_count as u64);
    line.append("| [");
    push_decimal(&mut line, upgrade.cost);
    line.append("] <");
    line.append(painted);
    line.append("> ");
    line.append(upgrade.description.as_str());
    line
}

/// Whether `line` is the line of the offer in place `at`, counted from
/// zero, for some way of showing its name.
pub open spec fn offer_shown(records: Seq<UpgradeInfoView>, at: int, line: StyledView) -> bool {
    let upgrade = offers(records)[at];
    exists|painted: Seq<char>|
        shows(painted, upgrade.name) && line == unstyled(
            offer_text(
                upgrade,
                (at + 1) as nat,
                match bought(records, upgrade.name) {
                    Some(count) => count,
                    None => 0,
                },
                painted,
            ),
        )
}

/// The gold of the player as a numeral.
pub open spec fn gold_text(state: StateView) -> Seq<char> {
    decimal(state.inventory.amount_of("Gold"@) as nat)
}

/// The shop feature: upgrades for gold.
pub struct ShopFeature;

impl Feature for ShopFeature {
    open spec fn wf(&self) -> bool {
        true
    }

    open spec fn info() -> FeatureInfoView {
        FeatureInfoView {
            key: Key::Char('s'),
            name: tinted("Shop"@, Tint::Yellow),
            description: tinted(
                "A shop where you can buy items to help you in your adventure"@,
                Tint::DarkGrey,
            ),
            visible_count: 50,
            unlock_count: 200,
            counter_string: None,
        }
    }

    open spec fn unlocked(state: StateView) -> bool {
        true
    }

    /// The gold of the player, in dark yellow and bold.
    open spec fn top_bar(state: StateView, bar: Seq<StyledView>) -> bool {
        bar == seq![
            unstyled(" | Gold: "@),
            StyledView { bold: true, ..tinted(gold_text(state), Tint::DarkYellow) },
        ]
    }

    /// One tick of the shop: the key of a digit buys the offer of that
    /// number, if the gold is enough, and the shop says how it went.
    open spec fn ticked(
        self,
        delta: u32,
        state: StateView,
        messages: Seq<MessageView>,
        next: (Self, StateView, Seq<MessageView>),
    ) -> bool {
        &&& next.1 == after_shopping(state)
        &&& next.2 == match shop_message(state) {
            Some(said) => messages.push(said),
            None => messages,
        }
    }

    /// One line for each of the first ten offers.
    open spec fn rendered(
        self,
        state: StateView,
        features: Seq<FeatureEntryView>,
        lines: Seq<StyledView>,
    ) -> bool {
        &&& lines.len() == if offers(state.upgrades).len() < 10 {
            offers(state.upgrades).len()
        } else {
            10
        }
        &&& forall|i: int|
            0 <= i < lines.len() ==> offer_shown(state.upgrades, i, #[trigger] lines[i])
    }

    fn get_info(&self) -> (info: FeatureInfo) {
        FeatureInfo {
            key: Key::Char('s'),
            name: Styled::tinted("Shop".to_owned(), Tint::Yellow),
            description: Styled::tinted(
                "A shop where you can buy items to help you in your adventure".to_owned(),
                Tint::DarkGrey,
            ),
            visible_count: 50,
            unlock_count: 200,
            counter_string: None,
        }
    }

    fn get_top_bar(&self, state: &State) -> (bar: Vec<Styled>) {
        let mut gold = String::new();
        push_decimal(&mut gold, state.inventory.get_amount("Gold"));
        let mut bar: Vec<Styled> = Vec::new();
        bar.push(Styled::plain(" | Gold: ".to_owned()));
        bar.push(Styled::tinted(gold, Tint::DarkYellow).bold());
        assert(gold_text(state@) =~= Seq::<char>::empty() + decimal(
            state.inventory@.amount_of("Gold"@) as nat,
        ));
        assert(views(bar@) =~= seq![
            unstyled(" | Gold: "@),
            StyledView { bold: true, ..tinted(gold_text(state@), Tint::DarkYellow) },
        ]);
        bar
    }

    fn is_unlocked(&self, state: &State) -> (unlocked: bool) {
        true
    }

    fn update(&mut self, delta: u32, state: &mut State, message: &mut MessageManager) {
        if let Some(i) = to_number(state.key) {
            let offered = available(&state.upgrades);
            if 1 <= i && i <= offered.len() {
                let upgrade = &offered[i - 1];
                assert(upgrade@ == views(offered@)[i - 1]);
                if state.inventory.get_amount("Gold") >= upgrade.cost {
                    state.inventory.remove("Gold", upgrade.cost);
                    state.upgrades.buy(upgrade.name.as_str());
                    upgrade.apply.apply(state);
                    let count = match state.upgrades.contains(upgrade.name.as_str()) {
                        Some(count) => count,
                        None => 0,
                    };
                    let mut text = "You bought ".to_owned();
                    text.append(upgrade.name.as_str());
                    text.append(" for ");
                    push_decimal(&mut text, upgrade.cost);
                    text.append(" gold. ");
                    push_decimal(&mut text, count as u64);
                    text.append("/");
                    push_decimal(&mut text, upgrade.max_count as u64);
                    message.add_message(
                        Message {
                            text: Styled::tinted(text, Tint::Green),
                            location: TextLocation::Center,
                            duration: 5000,
                        },
                    );
                } else {
                    message.add_message(
                        Message {
                            text: Styled::tinted(
                                "You don't have enough gold".to_owned(),
                                Tint::Red,
                            ),
                            location: TextLocation::Center,
                            duration: 3000,
                        },
                    );
                }
            }
        }
    }

    fn render(&self, state: &State, features: &Vec<FeatureEntry>) -> (lines: Vec<Styled>) {
        let offered = available(&state.upgrades);
        let mut lines: Vec<Styled> = Vec::new();
        let mut k: usize = 0;
        while k < offered.len() && k < 10
            invariant
                state.wf(),
                k <= offered@.len(),
                k <= 10,
                views(offered@) == offers(state.upgrades@),
                lines@.len() == k,
                forall|i: int|
                    0 <= i < k ==> offer_shown(state.upgrades@, i, (#[trigger] lines@[i])@),
            decreases offered@.len() - k,
        {
            let upgrade = &offered[k];
            assert(upgrade@ == views(offered@)[k as int]);
            let count = match state.upgrades.contains(upgrade.name.as_str()) {
                Some(count) => count,
                None => 0,
            };
            let painted = rarity_stylize(upgrade.rarity, upgrade.name.as_str());
            let line = Styled::plain(offer_line(upgrade, k + 1, count, painted.as_str()));
            assert(offer_shown(state.upgrades@, k as int, line@)) by {
                assert(shows(painted@, upgrade@.name) && line@ == unstyled(
                    offer_text(upgrade@, (k + 1) as nat, count, painted@),
                ));
            }
            lines.push(line);
            k += 1;
        }
        assert forall|i: int| 0 <= i < lines@.len() implies offer_shown(
            state.upgrades@,
            i,
            #[trigger] views(lines@)[i],
        ) by {
            assert(offer_shown(state.upgrades@, i, lines@[i]@));
        }
        lines
    }
}

} // verus!
