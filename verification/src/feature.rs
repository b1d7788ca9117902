//! The selectable activities of the game.

use crate::message::{MessageManager, MessageView};
use crate::state::{Key, State, StateView};
use crate::util::style::{Styled, StyledView};
use vstd::prelude::*;

pub mod counter;
pub mod exit;
pub mod fight;
pub mod inventory;
pub mod shop;

verus! {

/// What the menu knows of a feature.
pub struct FeatureInfo {
    /// The key that opens the feature.
    pub key: Key,
    pub name: Styled,
    pub description: Styled,
    /// The count from which the feature is announced.
    pub visible_count: i32,
    /// The count from which the feature can be opened.
    pub unlock_count: i32,
    /// What else it takes to open the feature, in words.
    pub counter_string: Option<Styled>,
}

/// The description of a feature as a value.
pub struct FeatureInfoView {
    pub key: Key,
    pub name: StyledView,
    pub description: StyledView,
    pub visible_count: i32,
    pub unlock_count: i32,
    pub counter_string: Option<StyledView>,
}

impl View for FeatureInfo {
    type V = FeatureInfoView;

    open spec fn view(&self) -> FeatureInfoView {
        FeatureInfoView {
            key: self.key,
            name: self.name@,
            description: self.description@,
            visible_count: self.visible_count,
            unlock_count: self.unlock_count,
            counter_string: match self.counter_string {
                Some(s) => Some(s@),
                None => None,
            },
        }
    }
}

/// The values of a list, in its order.
pub open spec fn views<T: View>(list: Seq<T>) -> Seq<T::V> {
    Seq::new(list.len(), |i: int| list[i]@)
}

/// A feature as the other features see it: its description, and whether
/// its own condition for being open holds.
pub struct FeatureEntry {
    pub info: FeatureInfo,
    pub unlocked: bool,
}

/// An entry as a value.
pub struct FeatureEntryView {
    pub info: FeatureInfoView,
    pub unlocked: bool,
}

impl View for FeatureEntry {
    type V = FeatureEntryView;

    open spec fn view(&self) -> FeatureEntryView {
        FeatureEntryView { info: self.info@, unlocked: self.unlocked }
    }
}

impl FeatureEntryView {
    /// Whether the feature can be opened at `count`: its own condition
    /// holds and the count has reached its `unlock_count`.
    pub open spec fn open_at(self, count: i32) -> bool {
        self.unlocked && count >= self.info.unlock_count
    }
}

/// A part of the game that can be selected, updated and shown.
pub trait Feature: Sized {
    /// What the feature keeps true of itself.
    spec fn wf(&self) -> bool;

    /// The description of this feature.
    spec fn info() -> FeatureInfoView;

    /// Whether the feature's own condition for being open holds in `state`.
    spec fn unlocked(state: StateView) -> bool;

    /// Whether `bar` is the bar at the top for `state`.
    spec fn top_bar(state: StateView, bar: Seq<StyledView>) -> bool;

    /// Whether one tick of `delta` milliseconds leads from this feature,
    /// `state` and `messages` to `next`.
    spec fn ticked(
        self,
        delta: u32,
        state: StateView,
        messages: Seq<MessageView>,
        next: (Self, StateView, Seq<MessageView>),
    ) -> bool;

    /// Whether `lines` show the feature in `state`, with `features` all the
    /// features of the game.
    spec fn rendered(
        self,
        state: StateView,
        features: Seq<FeatureEntryView>,
        lines: Seq<StyledView>,
    ) -> bool;

    /// The description of this feature.
    fn get_info(&self) -> (info: FeatureInfo)
        ensures
            info@ == Self::info(),
    ;

    /// The keys of this feature, for the bar at the top.
    fn get_top_bar(&self, state: &State) -> (bar: Vec<Styled>)
        requires
            self.wf(),
            state.wf(),
        ensures
            Self::top_bar(state@, views(bar@)),
    ;

    /// Whether the feature's own condition for being open holds.
    fn is_unlocked(&self, state: &State) -> (unlocked: bool)
        requires
            state.wf(),
        ensures
            unlocked == Self::unlocked(state@),
    ;

    /// One tick of `delta` milliseconds, with the key of `state`.
    fn update(&mut self, delta: u32, state: &mut State, message: &mut MessageManager)
        requires
            old(self).wf(),
            old(state).wf(),
        ensures
            final(self).wf(),
            final(state).wf(),
            old(self).ticked(
                delta,
                old(state)@,
                old(message)@,
                (*final(self), final(state)@, final(message)@),
            ),
    ;

    /// The lines that show the feature.
    fn render(&self, state: &State, features: &Vec<FeatureEntry>) -> (lines: Vec<Styled>)
        requires
            self.wf(),
            state.wf(),
        ensures
            self.rendered(state@, views(features@), views(lines@)),
    ;
}

/// What the other features see of `feature`.
pub fn entry_of<F: Feature>(feature: &F, state: &State) -> (entry: FeatureEntry)
    requires
        state.wf(),
    ensures
        entry.info@ == F::info(),
        entry.unlocked == F::unlocked(state@),
{
    FeatureEntry { info: feature.get_info(), unlocked: feature.is_unlocked(state) }
}

} // verus!
