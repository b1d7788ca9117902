//! The inventory: named stacks of items, bounded in number.

use crate::feature::{
    views, Feature, FeatureEntry, FeatureEntryView, FeatureInfo, FeatureInfoView,
};
use crate::message::{MessageManager, MessageView};
use crate::state::{Key, State, StateView};
use crate::util::flag::{Flag, Flags, Variant};
use crate::util::style::{rarity_stylize, shows, unstyled, Styled, StyledView, Tint};
use crate::util::text::{decimal, push_decimal};
use vstd::prelude::*;
use vstd::string::StringExecFns;

verus! {

/// How rare an item or an upgrade is.
#[derive(Clone, Copy, Debug, PartialEq, Eq)]
pub enum Rarity {
    Common,
    Uncommon,
    Rare,
    Epic,
    Legendary,
    Mythic,
}

/// A stack of one kind of item.
pub struct Item {
    pub name: String,
    pub description: String,
    pub amount: u64,
    pub rarity: Rarity,
}

/// An item as a value: its texts as sequences of characters.
pub struct ItemView {
    pub name: Seq<char>,
    pub description: Seq<char>,
    pub amount: u64,
    pub rarity: Rarity,
}

impl View for Item {
    type V = ItemView;

    open spec fn view(&self) -> ItemView {
        ItemView {
            name: self.name@,
            description: self.description@,
            amount: self.amount,
            rarity: self.rarity,
        }
    }
}

/// The kinds of item that exist, by name, each as an empty stack.
pub open spec fn template(name: Seq<char>) -> Option<ItemView> {
    if name == "Gold"@ {
        Some(
            ItemView {
                name: "Gold"@,
                description: "A shiny coin"@,
                amount: 0,
                rarity: Rarity::Common,
            },
        )
    } else if name == "XP"@ {
        Some(
            ItemView {
                name: "XP"@,
                description: "Experience Points"@,
                amount: 0,
                rarity: Rarity::Uncommon,
            },
        )
    } else {
        None
    }
}

/// An empty stack of the item called `name`, if there is such a kind.
pub fn get_item(name: &str) -> (item: Option<Item>)
    ensures
        match item {
            Some(i) => template(name@) == Some(i@),
            None => template(name@) is None,
        },
{
    if name.eq("Gold") {
        Some(
            Item {
                name: "Gold".to_owned(),
                description: "A shiny coin".to_owned(),
                amount: 0,
                rarity: Rarity::Common,
            },
        )
    } else if name.eq("XP") {
        Some(
            Item {
                name: "XP".to_owned(),
                description: "Experience Points".to_owned(),
                amount: 0,
                rarity: Rarity::Uncommon,
            },
        )
    } else {
        None
    }
}

/// An inventory as a value: the stacks in the order in which they were
/// first added, and the number of stacks it has room for.
pub struct InventoryView {
    pub items: Seq<ItemView>,
    pub max_size: nat,
}

impl InventoryView {
    /// No two stacks share a name, and there are no more stacks than room.
    pub open spec fn wf(self) -> bool {
        &&& self.items.len() <= self.max_size <= u32::MAX
        &&& forall|i: int, j: int|
            0 <= i < j < self.items.len() ==> (#[trigger] self.items[i]).name != (
            #[trigger] self.items[j]).name
    }

    /// Whether there is a stack called `name`.
    pub open spec fn has(self, name: Seq<char>) -> bool {
        exists|i: int| 0 <= i < self.items.len() && (#[trigger] self.items[i]).name == name
    }

    /// Where the stack called `name` is.
    pub open spec fn slot(self, name: Seq<char>) -> int {
        choose|i: int| 0 <= i < self.items.len() && (#[trigger] self.items[i]).name == name
    }

    /// How much there is of `name`: nothing, where there is no such stack.
    pub open spec fn amount_of(self, name: Seq<char>) -> u64 {
        if self.has(name) {
            self.items[self.slot(name)].amount
        } else {
            0
        }
    }

    /// The inventory after `amount` of `name` was added. An unknown name
    /// changes nothing, nor does a new stack for which there is no room; an
    /// amount stops growing at `u64::MAX`.
    pub open spec fn added(self, name: Seq<char>, amount: u64) -> InventoryView {
        match template(name) {
            None => self,
            Some(fresh) => if self.has(name) {
                let at = self.slot(name);
                let stack = self.items[at];
                InventoryView {
                    items: self.items.update(
                        at,
                        ItemView { amount: saturating_sum(stack.amount, amount), ..stack },
                    ),
                    ..self
                }
            } else if self.items.len() < self.max_size {
                InventoryView { items: self.items.push(ItemView { amount, ..fresh }), ..self }
            } else {
                self
            },
        }
    }

    /// The inventory after `amount` of `name` was taken out. A stack that
    /// holds no more than `amount` leaves the inventory.
    pub open spec fn removed(self, name: Seq<char>, amount: u64) -> InventoryView {
        if self.has(name) {
            let at = self.slot(name);
            let stack = self.items[at];
            if stack.amount <= amount {
                InventoryView { items: self.items.remove(at), ..self }
            } else {
                InventoryView {
                    items: self.items.update(
                        at,
                        ItemView { amount: (stack.amount - amount) as u64, ..stack },
                    ),
                    ..self
                }
            }
        } else {
            self
        }
    }
}

/// Taking out of a stack leaves what was there less what was taken, and
/// nothing where more was taken than was there; the other stacks keep what
/// they hold.
pub proof fn lemma_removed_amount(
    inventory: InventoryView,
    name: Seq<char>,
    amount: u64,
    other: Seq<char>,
)
    requires
        inventory.wf(),
    ensures
        inventory.removed(name, amount).wf(),
        inventory.removed(name, amount).amount_of(name) == if inventory.amount_of(name) > amount {
            inventory.amount_of(name) - amount
        } else {
            0
        },
        other != name ==> inventory.removed(name, amount).amount_of(other) == inventory.amount_of(
            other,
        ),
{
    let after = inventory.removed(name, amount);
    if inventory.has(name) {
        let at = inventory.slot(name);
        let stack = inventory.items[at];
        if stack.amount <= amount {
            assert forall|i: int| 0 <= i < after.items.len() implies (#[trigger] after.items[i]).name
                != name by {
                if i < at {
                    assert(after.items[i] == inventory.items[i]);
                } else {
                    assert(after.items[i] == inventory.items[i + 1]);
                }
            }
            assert forall|i: int, j: int| 0 <= i < j < after.items.len() implies (
            #[trigger] after.items[i]).name != (#[trigger] after.items[j]).name by {
                let a = if i < at {
                    i
                } else {
                    i + 1
                };
                let b = if j < at {
                    j
                } else {
                    j + 1
                };
                assert(after.items[i] == inventory.items[a]);
                assert(after.items[j] == inventory.items[b]);
            }
            if other != name {
                if inventory.has(other) {
                    let o = inventory.slot(other);
                    let moved = if o < at {
                        o
                    } else {
                        o - 1
                    };
                    assert(after.items[moved] == inventory.items[o]);
                    lemma_slot_is(after, other, moved);
                } else {
                    assert forall|i: int| 0 <= i < after.items.len() implies (
                    #[trigger] after.items[i]).name != other by {
                        let a = if i < at {
                            i
                        } else {
                            i + 1
                        };
                        assert(after.items[i] == inventory.items[a]);
                    }
                }
            }
        } else {
            lemma_update_amount(inventory, at, (stack.amount - amount) as u64, other);
        }
    }
}

/// Adding to a stack that exists, or for which there is room, makes it
/// hold what was there and what was added, up to `u64::MAX`; the other
/// stacks keep what they hold.
pub proof fn lemma_added_amount(
    inventory: InventoryView,
    name: Seq<char>,
    amount: u64,
    other: Seq<char>,
)
    requires
        inventory.wf(),
    ensures
        inventory.added(name, amount).wf(),
        template(name) is Some && (inventory.has(name) || inventory.items.len()
            < inventory.max_size) ==> inventory.added(name, amount).amount_of(name)
            == saturating_sum(inventory.amount_of(name), amount),
        other != name ==> inventory.added(name, amount).amount_of(other) == inventory.amount_of(
            other,
        ),
{
    let after = inventory.added(name, amount);
    match template(name) {
        None => {},
        Some(fresh) => {
            if inventory.has(name) {
                let at = inventory.slot(name);
                lemma_update_amount(
                    inventory,
                    at,
                    saturating_sum(inventory.items[at].amount, amount),
                    other,
                );
            } else if inventory.items.len() < inventory.max_size {
                let last = inventory.items.len() as int;
                assert(fresh.name == name);
                assert(after.items[last].name == name);
                lemma_slot_is(after, name, last);
                if other != name {
                    if inventory.has(other) {
                        let o = inventory.slot(other);
                        assert(after.items[o] == inventory.items[o]);
                        lemma_slot_is(after, other, o);
                    } else {
                        assert forall|i: int| 0 <= i < after.items.len() implies (
                        #[trigger] after.items[i]).name != other by {
                            if i < last {
                                assert(after.items[i] == inventory.items[i]);
                            }
                        }
                    }
                }
            }
        },
    }
}

/// In an inventory without doubled names, the stack of a name is where a
/// stack of that name is found.
proof fn lemma_slot_is(inventory: InventoryView, name: Seq<char>, at: int)
    requires
        inventory.wf(),
        0 <= at < inventory.items.len(),
        inventory.items[at].name == name,
    ensures
        inventory.has(name),
        inventory.slot(name) == at,
{
    let found = inventory.slot(name);
    assert(inventory.items[found].name == name);
}

/// A new amount in one stack changes that stack and no other.
proof fn lemma_update_amount(inventory: InventoryView, at: int, amount: u64, other: Seq<char>)
    requires
        inventory.wf(),
        0 <= at < inventory.items.len(),
    ensures
        ({
            let after = InventoryView {
                items: inventory.items.update(
                    at,
                    ItemView { amount, ..inventory.items[at] },
                ),
                ..inventory
            };
            &&& after.wf()
            &&& after.amount_of(inventory.items[at].name) == amount
            &&& other != inventory.items[at].name ==> after.amount_of(other)
                == inventory.amount_of(other)
        }),
{
    let after = InventoryView {
        items: inventory.items.update(at, ItemView { amount, ..inventory.items[at] }),
        ..inventory
    };
    let name = inventory.items[at].name;
    assert forall|i: int, j: int| 0 <= i < j < after.items.len() implies (
    #[trigger] after.items[i]).name != (#[trigger] after.items[j]).name by {
        assert(after.items[i].name == inventory.items[i].name);
        assert(after.items[j].name == inventory.items[j].name);
    }
    assert(after.items[at].name == name);
    lemma_slot_is(after, name, at);
    if other != name {
        if inventory.has(other) {
            let o = inventory.slot(other);
            assert(after.items[o] == inventory.items[o]);
            lemma_slot_is(after, other, o);
        } else {
            assert forall|i: int| 0 <= i < after.items.len() implies (
            #[trigger] after.items[i]).name != other by {
                assert(after.items[i].name == inventory.items[i].name);
            }
        }
    }
}

/// `a + b`, or `u64::MAX` where the sum is larger.
pub open spec fn saturating_sum(a: u64, b: u64) -> u64 {
    if a + b > u64::MAX {
        u64::MAX
    } else {
        (a + b) as u64
    }
}

/// The stacks of items that the player owns.
pub struct Inventory {
    items: Vec<Item>,
    cur_size: u32,
    max_size: u32,
}

impl View for Inventory {
    type V = InventoryView;

    closed spec fn view(&self) -> InventoryView {
        InventoryView {
            items: Seq::new(self.items@.len(), |i: int| self.items@[i]@),
            max_size: self.max_size as nat,
        }
    }
}

impl Default for Inventory {
    /// An empty inventory with room for ten stacks.
    fn default() -> (inv: Self)
        ensures
            inv.wf(),
            inv@ == (InventoryView { items: Seq::empty(), max_size: 10 }),
    {
        let inv = Self { items: Vec::new(), cur_size: 0, max_size: 10 };
        assert(inv@.items =~= Seq::empty());
        inv
    }
}

impl Inventory {
    /// The stacks are counted, fit the room and have distinct names.
    pub closed spec fn wf(&self) -> bool {
        &&& self.cur_size == self.items@.len()
        &&& self@.wf()
    }

    /// Where the stack called `name` is, if there is one.
    fn find(&self, name: &str) -> (at: Option<usize>)
        requires
            self.wf(),
        ensures
            at is Some <==> self@.has(name@),
            at matches Some(i) ==> i == self@.slot(name@) && 0 <= i < self.items@.len(),
    {
        let mut i: usize = 0;
        while i < self.items.len()
            invariant
                self.wf(),
                i <= self.items@.len(),
                forall|k: int| 0 <= k < i ==> (#[trigger] self@.items[k]).name != name@,
            decreases self.items@.len() - i,
        {
            if self.items[i].name.as_str().eq(name) {
                proof {
                    assert(self@.items[i as int].name == name@);
                    let j = self@.slot(name@);
                    assert(self@.items[j].name == name@);
                    assert(j == i);
                }
                return Some(i);
            }
            i += 1;
        }
        None
    }

    /// Adds `amount` to the stack called `name`, starting the stack where
    /// there is none yet and room for one. An unknown name changes nothing.
    pub fn add(&mut self, name: &str, amount: u64)
        requires
            old(self).wf(),
        ensures
            final(self).wf(),
            final(self)@ == old(self)@.added(name@, amount),
    {
        if let Some(item) = get_item(name) {
            match self.find(name) {
                Some(i) => {
                    let sum = self.items[i].amount.saturating_add(amount);
                    self.items[i].amount = sum;
                    assert(self@.items =~= old(self)@.items.update(
                        i as int,
                        ItemView { amount: sum, ..old(self)@.items[i as int] },
                    ));
                },
                None => {
                    if self.cur_size < self.max_size {
                        self.cur_size += 1;
                        let mut item = item;
                        item.amount = amount;
                        self.items.push(item);
                        assert(self@.items =~= old(self)@.items.push(
                            ItemView { amount, ..template(name@).unwrap() },
                        ));
                    }
                },
            }
        }
    }

    /// Takes `amount` out of the stack called `name`; a stack that holds no
    /// more than that leaves the inventory.
    pub fn remove(&mut self, name: &str, amount: u64)
        requires
            old(self).wf(),
        ensures
            final(self).wf(),
            final(self)@ == old(self)@.removed(name@, amount),
    {
        if let Some(i) = self.find(name) {
            if self.items[i].amount <= amount {
                self.items.remove(i);
                self.cur_size -= 1;
                assert(self@.items =~= old(self)@.items.remove(i as int));
            } else {
                let rest = self.items[i].amount - amount;
                self.items[i].amount = rest;
                assert(self@.items =~= old(self)@.items.update(
                    i as int,
                    ItemView { amount: rest, ..old(self)@.items[i as int] },
                ));
            }
        }
    }

    /// Number of stacks.
    pub fn len(&self) -> (n: usize)
        requires
            self.wf(),
        ensures
            n == self@.items.len(),
    {
        self.items.len()
    }

    /// Number of stacks that the inventory has room for.
    pub fn max_size(&self) -> (n: u32)
        ensures
            n == self@.max_size,
    {
        self.max_size
    }

    /// How much there is of `name`: nothing, where there is no such stack.
    pub fn get_amount(&self, name: &str) -> (amount: u64)
        requires
            self.wf(),
        ensures
            amount == self@.amount_of(name@),
    {
        if let Some(i) = self.find(name) {
            self.items[i].amount
        } else {
            0
        }
    }
}

/// What the inventory can be asked to do.
#[derive(Clone, Copy, Debug, PartialEq, Eq)]
pub enum InventoryFlag {
    /// Show the description of each item.
    ShowDetailed,
}

impl Variant for InventoryFlag {
    open spec fn count() -> nat {
        1
    }

    open spec fn index(self) -> nat {
        0
    }

    open spec fn at(i: nat) -> Self {
        InventoryFlag::ShowDetailed
    }

    proof fn lemma_index(self) {
    }

    proof fn lemma_at(i: nat) {
    }

    fn cardinality() -> (n: usize) {
        1
    }

    fn to_index(&self) -> (i: usize) {
        0
    }
}

impl Flag<State> for InventoryFlag {
    open spec fn inv(ctx: State) -> bool {
        true
    }

    /// The flag is a switch that is read, never handled: handling it changes
    /// nothing.
    open spec fn handled(self, ctx: StateView) -> StateView {
        ctx
    }

    open spec fn raised(self, ctx: StateView) -> Set<InventoryFlag> {
        Set::empty()
    }

    fn handle(&self, flags: &mut Flags<Self, State>, ctx: &mut State) {
        assert(flags@ =~= old(flags)@.union(self.raised(old(ctx)@)));
    }
}

/// The inventory feature: the list of what the player owns.
pub struct InventoryFeature {
    pub flags: Flags<InventoryFlag, State>,
}

impl Default for InventoryFeature {
    /// The feature with the descriptions hidden.
    fn default() -> (feature: Self)
        ensures
            feature.flags.wf(),
            feature.flags@ == Set::<InventoryFlag>::empty(),
    {
        Self { flags: Flags::new() }
    }
}

/// The flags after the input was processed: the key `d` switches the
/// descriptions on or off, any other key does nothing.
pub open spec fn after_key(key: Key, marked: Set<InventoryFlag>) -> Set<InventoryFlag> {
    if key == Key::Char('d') {
        if marked.contains(InventoryFlag::ShowDetailed) {
            marked.remove(InventoryFlag::ShowDetailed)
        } else {
            marked.insert(InventoryFlag::ShowDetailed)
        }
    } else {
        marked
    }
}

/// Processes the input of one tick.
pub fn process_input(inv: &mut InventoryFeature, key: Key, _state: &mut State)
    requires
        old(inv).flags.wf(),
    ensures
        final(inv).flags.wf(),
        final(inv).flags@ == after_key(key, old(inv).flags@),
        *final(_state) == *old(_state),
{
    match key {
        Key::Char(c) => {
            if c == 'd' {
                if inv.flags.is_marked(&InventoryFlag::ShowDetailed) {
                    inv.flags.unmark(InventoryFlag::ShowDetailed)
                } else {
                    inv.flags.mark(InventoryFlag::ShowDetailed)
                }
            }
        },
        _ => {},
    }
}

/// The line of an item: its amount in brackets, its name as `painted`
/// shows it, and its description where `detailed` asks for it.
pub open spec fn item_text(item: ItemView, painted: Seq<char>, detailed: bool) -> Seq<char> {
    "["@ + decimal(item.amount as nat) + "] "@ + painted + " "@ + (if detailed {
        item.description
    } else {
        Seq::empty()
    })
}

/// Whether `line` is the line of `item` for some way of showing its name.
pub open spec fn item_shown(item: ItemView, detailed: bool, line: StyledView) -> bool {
    exists|painted: Seq<char>|
        shows(painted, item.name) && line == unstyled(item_text(item, painted, detailed))
}

/// The line of an item, with its name as `painted` shows it.
pub fn item_line(item: &Item, painted: &str, detailed: bool) -> (line: String)
    ensures
        line@ == item_text(item@, painted@, detailed),
{
    let mut line = "[".to_owned();
    push_decimal(&mut line, item.amount);
    line.append("] ");
    line.append(painted);
    line.append(" ");
    if detailed {
        line.append(item.description.as_str());
    } else {
        assert(line@ + Seq::<char>::empty() =~= line@);
    }
    line
}

/// The first entry of the bar at the top: how many stacks there are, and
/// for how many there is room.
pub open spec fn room_text(inventory: InventoryView) -> Seq<char> {
    " "@ + decimal(inventory.items.len()) + "/"@ + decimal(inventory.max_size) + " | "@
}

impl Feature for InventoryFeature {
    open spec fn wf(&self) -> bool {
        self.flags.wf()
    }

    open spec fn info() -> FeatureInfoView {
        FeatureInfoView {
            key: Key::Char('i'),
            name: StyledView {
                text: "Inventory"@,
                tint: Some(Tint::White),
                bold: true,
                italic: false,
                crossed_out: false,
            },
            description: StyledView {
                text: "View your inventory"@,
                tint: Some(Tint::White),
                bold: false,
                italic: true,
                crossed_out: false,
            },
            visible_count: 5,
            unlock_count: 100,
            counter_string: Some(unstyled(" and more than 1 gold"@)),
        }
    }

    /// The inventory opens once it holds something.
    open spec fn unlocked(state: StateView) -> bool {
        state.inventory.items.len() > 0
    }

    /// The room in bold, and the key for the details.
    open spec fn top_bar(state: StateView, bar: Seq<StyledView>) -> bool {
        bar == seq![
            StyledView { bold: true, ..unstyled(room_text(state.inventory)) },
            unstyled("[d]Details "@),
        ]
    }

    /// One tick: the input is processed; the state and the messages stay
    /// as they are.
    open spec fn ticked(
        self,
        delta: u32,
        state: StateView,
        messages: Seq<MessageView>,
        next: (Self, StateView, Seq<MessageView>),
    ) -> bool {
        &&& next.0.flags@ == after_key(state.key, self.flags@)
        &&& next.1 == state
        &&& next.2 == messages
    }

    /// One line for each stack, in the order of the inventory.
    open spec fn rendered(
        self,
        state: StateView,
        features: Seq<FeatureEntryView>,
        lines: Seq<StyledView>,
    ) -> bool {
        &&& lines.len() == state.inventory.items.len()
        &&& forall|i: int|
            0 <= i < lines.len() ==> item_shown(
                state.inventory.items[i],
                self.flags@.contains(InventoryFlag::ShowDetailed),
                #[trigger] lines[i],
            )
    }

    fn get_info(&self) -> (info: FeatureInfo) {
        FeatureInfo {
            key: Key::Char('i'),
            name: Styled::tinted("Inventory".to_owned(), Tint::White).bold(),
            description: Styled::tinted("View your inventory".to_owned(), Tint::White).italic(),
            visible_count: 5,
            unlock_count: 100,
            counter_string: Some(Styled::plain(" and more than 1 gold".to_owned())),
        }
    }

    fn get_top_bar(&self, state: &State) -> (bar: Vec<Styled>) {
        let mut room = " ".to_owned();
        push_decimal(&mut room, state.inventory.items.len() as u64);
        room.append("/");
        push_decimal(&mut room, state.inventory.max_size as u64);
        room.append(" | ");
        let mut bar: Vec<Styled> = Vec::new();
        bar.push(Styled::plain(room).bold());
        bar.push(Styled::plain("[d]Details ".to_owned()));
        assert(views(bar@) =~= seq![
            StyledView { bold: true, ..unstyled(room_text(state.inventory@)) },
            unstyled("[d]Details "@),
        ]);
        bar
    }

    fn is_unlocked(&self, state: &State) -> (unlocked: bool) {
        state.inventory.items.len() > 0
    }

    fn update(&mut self, delta: u32, state: &mut State, message: &mut MessageManager) {
        process_input(self, state.key, state);
    }

    fn render(&self, state: &State, features: &Vec<FeatureEntry>) -> (lines: Vec<Styled>) {
        let detailed = self.flags.is_marked(&InventoryFlag::ShowDetailed);
        let items = &state.inventory.items;
        let mut lines: Vec<Styled> = Vec::new();
        let mut k: usize = 0;
        while k < items.len()
            invariant
                k <= items@.len(),
                items == &state.inventory.items,
                lines@.len() == k,
                forall|i: int|
                    0 <= i < k ==> item_shown(items@[i]@, detailed, (#[trigger] lines@[i])@),
            decreases items@.len() - k,
        {
            let item = &items[k];
            let painted = rarity_stylize(item.rarity, item.name.as_str());
            let line = Styled::plain(item_line(item, painted.as_str(), detailed));
            assert(item_shown(item@, detailed, line@)) by {
                assert(shows(painted@, item@.name) && line@ == unstyled(
                    item_text(item@, painted@, detailed),
                ));
            }
            lines.push(line);
            k += 1;
        }
        assert forall|i: int| 0 <= i < lines@.len() implies item_shown(
            state.inventory@.items[i],
            detailed,
            #[trigger] views(lines@)[i],
        ) by {
            assert(item_shown(items@[i]@, detailed, lines@[i]@));
        }
        lines
    }
}

} // verus!
