//! The game as a whole: its features, which of them is open, one step of
//! the game, and what is on screen.

use crate::feature::counter::CounterFeature;
use crate::feature::exit::ExitFeature;
use crate::feature::fight::FightFeature;
use crate::feature::inventory::InventoryFeature;
use crate::feature::shop::ShopFeature;
use crate::feature::{entry_of, views, Feature, FeatureEntry, FeatureEntryView};
use crate::message::{after_tick, MessageManager, MessageView};
use crate::state::{Key, State, StateView};
use crate::util::conv::{get_string, key_text};
use crate::util::style::{unstyled, Styled, StyledView};
use vstd::prelude::*;
use vstd::string::StringExecFns;

verus! {

/// The features of the game, in the order of the menu.
pub struct Features {
    pub exit: ExitFeature,
    pub counter: CounterFeature,
    pub fight: FightFeature,
    pub inventory: InventoryFeature,
    pub shop: ShopFeature,
}

/// The features as the game begins.
pub fn create_features() -> (features: Features)
    ensures
        features.wf(),
        features.fight.flags@ == Set::<crate::feature::fight::FightFlag>::empty(),
        features.inventory.flags@ == Set::<crate::feature::inventory::InventoryFlag>::empty(),
{
    Features {
        exit: ExitFeature,
        counter: CounterFeature,
        fight: FightFeature::default(),
        inventory: InventoryFeature::default(),
        shop: ShopFeature,
    }
}

/// The state as the game begins.
pub fn create_state() -> (state: State)
    ensures
        state.wf(),
        state@ == crate::state::initial(),
{
    State::new()
}

/// The entries of the menu for `state`, in the order of the menu.
pub open spec fn menu_entries(state: StateView) -> Seq<FeatureEntryView> {
    seq![
        FeatureEntryView { info: ExitFeature::info(), unlocked: ExitFeature::unlocked(state) },
        FeatureEntryView { info: CounterFeature::info(), unlocked: CounterFeature::unlocked(state) },
        FeatureEntryView { info: FightFeature::info(), unlocked: FightFeature::unlocked(state) },
        FeatureEntryView {
            info: InventoryFeature::info(),
            unlocked: InventoryFeature::unlocked(state),
        },
        FeatureEntryView { info: ShopFeature::info(), unlocked: ShopFeature::unlocked(state) },
    ]
}

/// Whether `key` opens the feature of `entry` at `count`.
pub open spec fn opens(key: Key, count: i32, entry: FeatureEntryView) -> bool {
    entry.open_at(count) && entry.info.key == key
}

/// The first of `entries` that `key` opens at `count`, if there is one.
pub open spec fn opened(key: Key, count: i32, entries: Seq<FeatureEntryView>) -> Option<usize>
    decreases entries.len(),
{
    if entries.len() == 0 {
        None
    } else {
        match opened(key, count, entries.drop_last()) {
            Some(i) => Some(i),
            None => if opens(key, count, entries.last()) {
                Some((entries.len() - 1) as usize)
            } else {
                None
            },
        }
    }
}

/// The state after `key` was pressed. With a feature open, `q` closes it
/// and any other key is handed to it; in the menu, the key opens the first
/// feature that it can open.
pub open spec fn after_key(key: Key, state: StateView) -> StateView {
    if state.selected_feature is Some {
        if key == Key::Char('q') {
            StateView { selected_feature: None, ..state }
        } else {
            StateView { key, ..state }
        }
    } else {
        StateView { selected_feature: opened(key, state.count, menu_entries(state)), ..state }
    }
}

/// The menu: for a feature that can be opened its key in brackets and its
/// name, for any other its name crossed out, each followed by a space.
pub open spec fn menu_of(count: i32, entries: Seq<FeatureEntryView>) -> Seq<StyledView>
    decreases entries.len(),
{
    if entries.len() == 0 {
        Seq::empty()
    } else {
        let entry = entries.last();
        let before = menu_of(count, entries.drop_last());
        if entry.open_at(count) {
            before.push(unstyled("["@ + key_text(entry.info.key) + "]"@)).push(
                entry.info.name,
            ).push(unstyled(" "@))
        } else {
            before.push(StyledView { crossed_out: true, ..entry.info.name }).push(unstyled(" "@))
        }
    }
}

/// What is on screen.
pub enum Screen {
    /// The open feature: its name, its bar, and below a divider its lines.
    Feature { name: Styled, top_bar: Vec<Styled>, lines: Vec<Styled> },
    /// The menu, as pieces of one line.
    Menu(Vec<Styled>),
}

impl Features {
    /// Each feature is well formed.
    pub open spec fn wf(&self) -> bool {
        &&& self.exit.wf()
        &&& self.counter.wf()
        &&& self.fight.wf()
        &&& self.inventory.wf()
        &&& self.shop.wf()
    }

    /// The entries of the menu, in its order.
    pub fn entries(&self, state: &State) -> (entries: Vec<FeatureEntry>)
        requires
            state.wf(),
        ensures
            views(entries@) == menu_entries(state@),
    {
        let mut entries: Vec<FeatureEntry> = Vec::new();
        entries.push(entry_of(&self.exit, state));
        entries.push(entry_of(&self.counter, state));
        entries.push(entry_of(&self.fight, state));
        entries.push(entry_of(&self.inventory, state));
        entries.push(entry_of(&self.shop, state));
        assert(views(entries@) =~= menu_entries(state@));
        entries
    }
}

/// Processes a key.
pub fn process_input(key: Key, features: &Features, state: &mut State)
    requires
        old(state).wf(),
    ensures
        final(state).wf(),
        final(state)@ == after_key(key, old(state)@),
{
    if state.selected_feature.is_some() {
        if key.same(Key::Char('q')) {
            state.selected_feature = None;
        } else {
            state.key = key;
        }
    } else {
        let entries = features.entries(state);
        let ghost all = views(entries@);
        let mut found: Option<usize> = None;
        let mut k: usize = 0;
        while k < entries.len() && found.is_none()
            invariant
                k <= entries@.len(),
                all == views(entries@),
                found == opened(key, state.count, all.take(k as int)),
                found is Some ==> opened(key, state.count, all) == found,
            decreases entries@.len() - k,
        {
            proof {
                assert(all.take(k + 1).drop_last() =~= all.take(k as int));
                assert(all.take(k + 1).last() == entries@[k as int]@);
            }
            let entry = &entries[k];
            if entry.unlocked && state.count >= entry.info.unlock_count && entry.info.key.same(
                key,
            ) {
                found = Some(k);
                proof {
                    lemma_opened_stays(key, state.count, all, k + 1);
                }
            }
            k += 1;
        }
        proof {
            assert(all.take(all.len() as int) =~= all);
        }
        state.selected_feature = found;
    }
}

/// What was found among the first entries is found among all of them.
proof fn lemma_opened_stays(key: Key, count: i32, entries: Seq<FeatureEntryView>, n: int)
    requires
        0 <= n <= entries.len(),
        opened(key, count, entries.take(n)) is Some,
    ensures
        opened(key, count, entries) == opened(key, count, entries.take(n)),
    decreases entries.len() - n,
{
    if n < entries.len() {
        assert(entries.take(n + 1).drop_last() =~= entries.take(n));
        lemma_opened_stays(key, count, entries, n + 1);
    } else {
        assert(entries.take(n) =~= entries);
    }
}

/// Whether one step of `delta` milliseconds leads from `features`, `state`
/// and `messages` to `next`: the open feature makes its tick, and then
/// time passes for the first message, with the key of the state.
pub open spec fn stepped(
    features: Features,
    delta: u32,
    state: StateView,
    messages: Seq<MessageView>,
    next: (Features, StateView, Seq<MessageView>),
) -> bool {
    exists|said: Seq<MessageView>|
        {
            &&& #[trigger] ticked(features, delta, state, messages, (next.0, next.1, said))
            &&& next.2 == after_tick(said, next.1.key, delta)
        }
}

/// Whether the tick of the open feature leads from `features`, `state` and
/// `messages` to `next`. The features that are not open stay as they are,
/// and so does everything when no feature is open.
pub open spec fn ticked(
    features: Features,
    delta: u32,
    state: StateView,
    messages: Seq<MessageView>,
    next: (Features, StateView, Seq<MessageView>),
) -> bool {
    match state.selected_feature {
        Some(0) => {
            &&& features.exit.ticked(delta, state, messages, (next.0.exit, next.1, next.2))
            &&& next.0 == (Features { exit: next.0.exit, ..features })
        },
        Some(1) => {
            &&& features.counter.ticked(delta, state, messages, (next.0.counter, next.1, next.2))
            &&& next.0 == (Features { counter: next.0.counter, ..features })
        },
        Some(2) => {
            &&& features.fight.ticked(delta, state, messages, (next.0.fight, next.1, next.2))
            &&& next.0 == (Features { fight: next.0.fight, ..features })
        },
        Some(3) => {
            &&& features.inventory.ticked(
                delta,
                state,
                messages,
                (next.0.inventory, next.1, next.2),
            )
            &&& next.0 == (Features { inventory: next.0.inventory, ..features })
        },
        Some(4) => {
            &&& features.shop.ticked(delta, state, messages, (next.0.shop, next.1, next.2))
            &&& next.0 == (Features { shop: next.0.shop, ..features })
        },
        _ => next == (features, state, messages),
    }
}

/// One step of the game.
pub fn step(delta: u32, features: &mut Features, state: &mut State, message: &mut MessageManager)
    requires
        old(features).wf(),
        old(state).wf(),
    ensures
        final(features).wf(),
        final(state).wf(),
        stepped(
            *old(features),
            delta,
            old(state)@,
            old(message)@,
            (*final(features), final(state)@, final(message)@),
        ),
{
    match state.selected_feature {
        Some(0) => features.exit.update(delta, state, message),
        Some(1) => features.counter.update(delta, state, message),
        Some(2) => features.fight.update(delta, state, message),
        Some(3) => features.inventory.update(delta, state, message),
        Some(4) => features.shop.update(delta, state, message),
        _ => {},
    }
    let ghost said = message@;
    assert(ticked(*old(features), delta, old(state)@, old(message)@, (*features, state@, said)));
    message.update(state.key, delta);
}

/// The menu for the count of `state`.
pub fn menu(features: &Features, state: &State) -> (pieces: Vec<Styled>)
    requires
        state.wf(),
    ensures
        views(pieces@) == menu_of(state.count, menu_entries(state@)),
{
    let entries = features.entries(state);
    let ghost all = views(entries@);
    let mut pieces: Vec<Styled> = Vec::new();
    for entry in it: entries
        invariant
            views(it.seq()) == all,
            views(pieces@) == menu_of(state.count, all.take(it.index())),
    {
        proof {
            assert(all.take(it.index() + 1).drop_last() =~= all.take(it.index()));
            assert(all.take(it.index() + 1).last() == entry@);
        }
        let ghost before = views(pieces@);
        if entry.unlocked && state.count >= entry.info.unlock_count {
            let mut key = "[".to_owned();
            key.append(get_string(entry.info.key).as_str());
            key.append("]");
            pieces.push(Styled::plain(key));
            pieces.push(entry.info.name);
            pieces.push(Styled::plain(" ".to_owned()));
            assert(views(pieces@) =~= before.push(
                unstyled("["@ + key_text(entry@.info.key) + "]"@),
            ).push(entry@.info.name).push(unstyled(" "@)));
        } else {
            pieces.push(entry.info.name.crossed_out());
            pieces.push(Styled::plain(" ".to_owned()));
            assert(views(pieces@) =~= before.push(
                StyledView { crossed_out: true, ..entry@.info.name },
            ).push(unstyled(" "@)));
        }
    }
    proof {
        assert(all.take(all.len() as int) =~= all);
    }
    pieces
}

/// Whether `screen` is what is on screen for `features` and `state`: the
/// open feature with its name, bar and lines, or the menu.
pub open spec fn on_screen(features: Features, state: StateView, screen: Screen) -> bool {
    match screen {
        Screen::Feature { name, top_bar, lines } => match state.selected_feature {
            Some(0) => shown(features.exit, state, name@, views(top_bar@), views(lines@)),
            Some(1) => shown(features.counter, state, name@, views(top_bar@), views(lines@)),
            Some(2) => shown(features.fight, state, name@, views(top_bar@), views(lines@)),
            Some(3) => shown(features.inventory, state, name@, views(top_bar@), views(lines@)),
            Some(4) => shown(features.shop, state, name@, views(top_bar@), views(lines@)),
            _ => false,
        },
        Screen::Menu(pieces) => {
            &&& !(state.selected_feature matches Some(i) && i < 5)
            &&& views(pieces@) == menu_of(state.count, menu_entries(state))
        },
    }
}

/// Whether `name`, `bar` and `lines` show `feature` in `state`.
pub open spec fn shown<F: Feature>(
    feature: F,
    state: StateView,
    name: StyledView,
    bar: Seq<StyledView>,
    lines: Seq<StyledView>,
) -> bool {
    &&& name == F::info().name
    &&& F::top_bar(state, bar)
    &&& feature.rendered(state, menu_entries(state), lines)
}

/// The screen of one feature.
fn screen_of<F: Feature>(feature: &F, features: &Features, state: &State) -> (screen: Screen)
    requires
        feature.wf(),
        state.wf(),
    ensures
        screen matches Screen::Feature { name, top_bar, lines } && shown(
            *feature,
            state@,
            name@,
            views(top_bar@),
            views(lines@),
        ),
{
    let entries = features.entries(state);
    Screen::Feature {
        name: feature.get_info().name,
        top_bar: feature.get_top_bar(state),
        lines: feature.render(state, &entries),
    }
}

/// What is on screen: the open feature, or the menu.
pub fn render(features: &Features, state: &State) -> (screen: Screen)
    requires
        features.wf(),
        state.wf(),
    ensures
        on_screen(*features, state@, screen),
{
    match state.selected_feature {
        Some(0) => screen_of(&features.exit, features, state),
        Some(1) => screen_of(&features.counter, features, state),
        Some(2) => screen_of(&features.fight, features, state),
        Some(3) => screen_of(&features.inventory, features, state),
        Some(4) => screen_of(&features.shop, features, state),
        _ => Screen::Menu(menu(features, state)),
    }
}

} // verus!
