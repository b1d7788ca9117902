//! The counter: the way to unlock everything else.

use crate::feature::{
    views, Feature, FeatureEntry, FeatureEntryView, FeatureInfo, FeatureInfoView,
};
use crate::message::{Message, MessageManager, MessageView, TextLocation};
use crate::state::{Key, State, StateView};
use crate::util::style::{paint, shows, tinted, unstyled, Styled, StyledView, Tint};
use crate::util::text::{push_signed, signed_decimal};
use vstd::prelude::*;
use vstd::string::StringExecFns;

verus! {

/// The counter feature: the key `c` adds one to the count.
pub struct CounterFeature;

/// `n + 1`, or `i32::MAX` where `n` is that already.
pub open spec fn counted_up(n: i32) -> i32 {
    if n < i32::MAX {
        (n + 1) as i32
    } else {
        n
    }
}

/// The count after the key was processed: one more for the key `c`.
pub open spec fn keyed(s: StateView) -> i32 {
    if s.key == Key::Char('c') {
        counted_up(s.count)
    } else {
        s.count
    }
}

/// The state after the counter's tick. A count that is still zero after
/// the key becomes one, and the player is told what the count is for.
pub open spec fn after_counting(s: StateView) -> StateView {
    StateView {
        count: if keyed(s) == 0 {
            1
        } else {
            keyed(s)
        },
        ..s
    }
}

/// What the player is told when the counting begins.
pub open spec fn welcome() -> MessageView {
    MessageView {
        text: StyledView {
            bold: true,
            ..unstyled(
                "Keep going until you reach 10 count, you will unlock the fight feature! You can hide messages by pressing [Enter]."@,
            )
        },
        location: TextLocation::Center,
        duration: 10_000,
    }
}

/// Whether a feature is announced at `count`: it cannot be opened yet, and
/// the count has reached its `visible_count`.
pub open spec fn announced(count: i32, entry: FeatureEntryView) -> bool {
    !entry.open_at(count) && count >= entry.info.visible_count
}

/// The features that are announced at `count`, in their order.
pub open spec fn announcements(count: i32, entries: Seq<FeatureEntryView>) -> Seq<
    FeatureInfoView,
>
    decreases entries.len(),
{
    if entries.len() == 0 {
        Seq::empty()
    } else {
        let before = announcements(count, entries.drop_last());
        if announced(count, entries.last()) {
            before.push(entries.last().info)
        } else {
            before
        }
    }
}

/// The line that announces a feature: the count that unlocks it, what else
/// it takes as `extra` shows it, and the name as `name` shows it.
pub open spec fn unlock_text(unlock_count: i32, extra: Seq<char>, name: Seq<char>) -> Seq<char> {
    signed_decimal(unlock_count as int) + extra + " unlocks "@ + name
}

/// Whether `line` announces the feature described by `info`, for some way
/// of showing its texts.
pub open spec fn unlock_shown(info: FeatureInfoView, line: StyledView) -> bool {
    exists|extra: Seq<char>, name: Seq<char>|
        {
            &&& match info.counter_string {
                Some(more) => shows(extra, more.text),
                None => extra == Seq::<char>::empty(),
            }
            &&& shows(name, info.name.text)
            &&& line == unstyled(#[trigger] unlock_text(info.unlock_count, extra, name))
        }
}

/// One line for each feature that is announced at the count of `state`.
pub fn get_unlocks(state: &State, features: &Vec<FeatureEntry>) -> (unlocks: Vec<Styled>)
    ensures
        unlocks@.len() == announcements(state.count, views(features@)).len(),
        forall|i: int|
            0 <= i < unlocks@.len() ==> unlock_shown(
                announcements(state.count, views(features@))[i],
                (#[trigger] unlocks@[i])@,
            ),
{
    let ghost all = views(features@);
    let mut unlocks: Vec<Styled> = Vec::new();
    let mut k: usize = 0;
    while k < features.len()
        invariant
            k <= features@.len(),
            all == views(features@),
            unlocks@.len() == announcements(state.count, all.take(k as int)).len(),
            forall|i: int|
                0 <= i < unlocks@.len() ==> unlock_shown(
                    announcements(state.count, all.take(k as int))[i],
                    (#[trigger] unlocks@[i])@,
                ),
        decreases features@.len() - k,
    {
        proof {
            assert(all.take(k + 1).drop_last() =~= all.take(k as int));
            assert(all.take(k + 1).last() == features@[k as int]@);
        }
        let entry = &features[k];
        let info = &entry.info;
        let open = entry.unlocked && state.count >= info.unlock_count;
        if !open && state.count >= info.visible_count {
            let extra = match &info.counter_string {
                Some(more) => paint(more),
                None => String::new(),
            };
            let name = paint(&info.name);
            let mut text = String::new();
            push_signed(&mut text, info.unlock_count);
            text.append(extra.as_str());
            text.append(" unlocks ");
            text.append(name.as_str());
            let line = Styled::plain(text);
            assert(unlock_shown(info@, line@)) by {
                assert(Seq::<char>::empty() + signed_decimal(info.unlock_count as int)
                    =~= signed_decimal(info.unlock_count as int));
                assert(line@ == unstyled(unlock_text(info.unlock_count, extra@, name@)));
            }
            unlocks.push(line);
        }
        k += 1;
    }
    proof {
        assert(all.take(all.len() as int) =~= all);
    }
    unlocks
}

/// The first line of the counter.
pub open spec fn count_text(count: i32) -> Seq<char> {
    "Count: "@ + signed_decimal(count as int)
}

impl Feature for CounterFeature {
    open spec fn wf(&self) -> bool {
        true
    }

    open spec fn info() -> FeatureInfoView {
        FeatureInfoView {
            key: Key::Char('c'),
            name: tinted("Counter"@, Tint::Cyan),
            description: tinted(
                "A simple counter that increments when the 'c' key is pressed. It is the way to unlock new content"@,
                Tint::DarkGrey,
            ),
            visible_count: 0,
            unlock_count: 0,
            counter_string: None,
        }
    }

    open spec fn unlocked(state: StateView) -> bool {
        true
    }

    open spec fn top_bar(state: StateView, bar: Seq<StyledView>) -> bool {
        bar == seq![unstyled(" [c]Increment"@)]
    }

    /// One tick of the counter: the key is counted, and the player is
    /// welcomed when the counting begins.
    open spec fn ticked(
        self,
        delta: u32,
        state: StateView,
        messages: Seq<MessageView>,
        next: (Self, StateView, Seq<MessageView>),
    ) -> bool {
        &&& next.1 == after_counting(state)
        &&& next.2 == if keyed(state) == 0 {
            messages.push(welcome())
        } else {
            messages
        }
    }

    /// The count, an empty line, and one line for each feature that is
    /// announced.
    open spec fn rendered(
        self,
        state: StateView,
        features: Seq<FeatureEntryView>,
        lines: Seq<StyledView>,
    ) -> bool {
        &&& lines.len() == 2 + announcements(state.count, features).len()
        &&& lines[0] == unstyled(count_text(state.count))
        &&& lines[1] == unstyled(Seq::empty())
        &&& forall|i: int|
            2 <= i < lines.len() ==> unlock_shown(
                announcements(state.count, features)[i - 2],
                #[trigger] lines[i],
            )
    }

    fn get_info(&self) -> (info: FeatureInfo) {
        FeatureInfo {
            key: Key::Char('c'),
            name: Styled::tinted("Counter".to_owned(), Tint::Cyan),
            description: Styled::tinted(
                "A simple counter that increments when the 'c' key is pressed. It is the way to unlock new content".to_owned(),
                Tint::DarkGrey,
            ),
            visible_count: 0,
            unlock_count: 0,
            counter_string: None,
        }
    }

    fn get_top_bar(&self, state: &State) -> (bar: Vec<Styled>) {
        let mut bar: Vec<Styled> = Vec::new();
        bar.push(Styled::plain(" [c]Increment".to_owned()));
        assert(views(bar@) =~= seq![unstyled(" [c]Increment"@)]);
        bar
    }

    fn is_unlocked(&self, state: &State) -> (unlocked: bool) {
        true
    }

    fn update(&mut self, delta: u32, state: &mut State, message: &mut MessageManager) {
        match state.key {
            Key::Char(c) => {
                if c == 'c' {
                    if state.count < i32::MAX {
                        state.count = state.count + 1;
                    }
                }
            },
            _ => {},
        }
        if state.count == 0 {
            message.add_message(
                Message {
                    text: Styled::plain(
                        "Keep going until you reach 10 count, you will unlock the fight feature! You can hide messages by pressing [Enter].".to_owned(),
                    ).bold(),
                    location: TextLocation::Center,
                    duration: 10_000,
                },
            );
            state.count = 1;
        }
    }

    fn render(&self, state: &State, features: &Vec<FeatureEntry>) -> (lines: Vec<Styled>) {
        let mut text = "Count: ".to_owned();
        push_signed(&mut text, state.count);
        let mut lines: Vec<Styled> = Vec::new();
        lines.push(Styled::plain(text));
        lines.push(Styled::plain(String::new()));
        let mut unlocks = get_unlocks(state, features);
        let ghost found = unlocks@;
        lines.append(&mut unlocks);
        assert forall|i: int| 2 <= i < lines@.len() implies unlock_shown(
            announcements(state.count, views(features@))[i - 2],
            #[trigger] views(lines@)[i],
        ) by {
            assert(lines@[i] == found[i - 2]);
        }
        lines
    }
}

} // verus!
