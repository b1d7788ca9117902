//! The way out of the game.

use crate::feature::{
    views, Feature, FeatureEntry, FeatureEntryView, FeatureInfo, FeatureInfoView,
};
use crate::message::{MessageManager, MessageView};
use crate::state::{Key, State, StateView};
use crate::util::style::{tinted, unstyled, Styled, StyledView, Tint};
use vstd::prelude::*;

verus! {

/// The exit feature: it ends the game as soon as it is selected.
pub struct ExitFeature;

impl Feature for ExitFeature {
    open spec fn wf(&self) -> bool {
        true
    }

    open spec fn info() -> FeatureInfoView {
        FeatureInfoView {
            key: Key::Esc,
            name: tinted("Quit"@, Tint::DarkGrey),
            description: tinted("Exit the application."@, Tint::DarkGrey),
            visible_count: 0,
            unlock_count: 0,
            counter_string: None,
        }
    }

    open spec fn unlocked(state: StateView) -> bool {
        true
    }

    /// The bar is empty.
    open spec fn top_bar(state: StateView, bar: Seq<StyledView>) -> bool {
        bar.len() == 0
    }

    /// One tick: the game is asked to end, and nothing else changes.
    open spec fn ticked(
        self,
        delta: u32,
        state: StateView,
        messages: Seq<MessageView>,
        next: (Self, StateView, Seq<MessageView>),
    ) -> bool {
        next.1 == (StateView { quit: true, ..state }) && next.2 == messages
    }

    /// One line of farewell.
    open spec fn rendered(
        self,
        state: StateView,
        features: Seq<FeatureEntryView>,
        lines: Seq<StyledView>,
    ) -> bool {
        lines == seq![unstyled("See you later!"@)]
    }

    fn get_info(&self) -> (info: FeatureInfo) {
        FeatureInfo {
            key: Key::Esc,
            name: Styled::tinted("Quit".to_owned(), Tint::DarkGrey),
            description: Styled::tinted("Exit the application.".to_owned(), Tint::DarkGrey),
            visible_count: 0,
            unlock_count: 0,
            counter_string: None,
        }
    }

    fn get_top_bar(&self, state: &State) -> (bar: Vec<Styled>) {
        Vec::new()
    }

    fn is_unlocked(&self, state: &State) -> (unlocked: bool) {
        true
    }

    fn update(&mut self, delta: u32, state: &mut State, message: &mut MessageManager) {
        state.quit = true;
    }

    fn render(&self, state: &State, features: &Vec<FeatureEntry>) -> (lines: Vec<Styled>) {
        let mut lines: Vec<Styled> = Vec::new();
        lines.push(Styled::plain("See you later!".to_owned()));
        assert(views(lines@) =~= seq![unstyled("See you later!"@)]);
        lines
    }
}

} // verus!
