//! Messages to the player: a queue, of which the first is on screen until
//! its time is up or the player dismisses it.

use crate::feature::views;
use crate::state::Key;
use crate::util::conv::{clamped, wrap, wrapped};
use crate::util::style::{paint, shows, Styled, StyledView};
use std::collections::VecDeque;
use vstd::prelude::*;

verus! {

/// Where on the screen a text is shown.
#[derive(Clone, Copy, Debug, PartialEq, Eq)]
pub enum TextLocation {
    Center,
    Bottom,
}

/// A message to be displayed.
pub struct Message {
    pub text: Styled,
    pub location: TextLocation,
    /// Milliseconds for which the message stays on screen.
    pub duration: u32,
}

/// A message as a value.
pub struct MessageView {
    pub text: StyledView,
    pub location: TextLocation,
    pub duration: u32,
}

impl View for Message {
    type V = MessageView;

    open spec fn view(&self) -> MessageView {
        MessageView { text: self.text@, location: self.location, duration: self.duration }
    }
}

/// What is left of `timer` after `delta`: nothing, where `delta` is at
/// least `timer`.
pub open spec fn counted_down(timer: u32, delta: u32) -> u32 {
    if timer > delta {
        (timer - delta) as u32
    } else {
        0
    }
}

/// The queue after a tick of `delta` milliseconds with `key` pressed: the
/// first message loses `delta` of its time, and leaves when none is left
/// or the key is `Enter`. The other messages wait.
pub open spec fn after_tick(queue: Seq<MessageView>, key: Key, delta: u32) -> Seq<MessageView> {
    if queue.len() == 0 {
        queue
    } else {
        let left = counted_down(queue[0].duration, delta);
        if left == 0 || key == Key::Enter {
            queue.drop_first()
        } else {
            queue.update(0, MessageView { duration: left, ..queue[0] })
        }
    }
}

/// A line of text with the place where it begins.
pub struct Placed {
    pub col: u16,
    pub row: u16,
    pub text: String,
}

/// A placed line as a value.
pub struct PlacedView {
    pub col: u16,
    pub row: u16,
    pub text: Seq<char>,
}

impl View for Placed {
    type V = PlacedView;

    open spec fn view(&self) -> PlacedView {
        PlacedView { col: self.col, row: self.row, text: self.text@ }
    }
}

/// The row of line `i` of `n` on a screen of `rows` rows: from the middle
/// row downward, or so that the last line ends at the bottom.
pub open spec fn row_of(location: TextLocation, rows: u16, n: int, i: int) -> u16 {
    match location {
        TextLocation::Center => clamped(rows / 2 + i),
        TextLocation::Bottom => clamped(rows - (n - i)),
    }
}

/// The lines of a message on a screen of `cols` columns and `rows` rows:
/// each line is centred on the middle column by its length.
pub open spec fn placed(
    lines: Seq<(u16, Seq<char>)>,
    location: TextLocation,
    cols: u16,
    rows: u16,
) -> Seq<PlacedView> {
    Seq::new(
        lines.len(),
        |i: int|
            PlacedView {
                col: clamped(cols / 2 - lines[i].0 / 2),
                row: row_of(location, rows, lines.len() as int, i),
                text: lines[i].1,
            },
    )
}

/// Whether `lines` are the lines of `message` on a screen of `cols`
/// columns and `rows` rows: its text as the terminal takes it, wrapped to
/// half the columns and placed.
pub open spec fn message_shown(message: MessageView, cols: u16, rows: u16, lines: Seq<PlacedView>) -> bool {
    exists|painted: Seq<char>|
        shows(painted, message.text.text) && lines == #[trigger] placed(
            wrapped(painted, cols / 2),
            message.location,
            cols,
            rows,
        )
}

/// Keeps the messages and their timers.
pub struct MessageManager {
    messages: VecDeque<Message>,
}

impl View for MessageManager {
    type V = Seq<MessageView>;

    closed spec fn view(&self) -> Seq<MessageView> {
        Seq::new(self.messages@.len(), |i: int| self.messages@[i]@)
    }
}

impl Default for MessageManager {
    /// No messages.
    fn default() -> (manager: Self)
        ensures
            manager@ == Seq::<MessageView>::empty(),
    {
        let manager = Self { messages: VecDeque::new() };
        assert(manager@ =~= Seq::empty());
        manager
    }
}

impl MessageManager {
    /// Adds a message at the end of the queue.
    pub fn add_message(&mut self, message: Message)
        ensures
            final(self)@ == old(self)@.push(message@),
    {
        self.messages.push_back(message);
        assert(self@ =~= old(self)@.push(message@));
    }

    /// Lets `delta` milliseconds pass for the first message, and removes it
    /// when its time is up or `key` is `Enter`.
    pub fn update(&mut self, key: Key, delta: u32)
        ensures
            final(self)@ == after_tick(old(self)@, key, delta),
    {
        if let Some(first) = self.messages.pop_front() {
            let left = first.duration.saturating_sub(delta);
            let dismissed = match key {
                Key::Enter => true,
                _ => false,
            };
            if left == 0 || dismissed {
                assert(self@ =~= old(self)@.drop_first());
            } else {
                let first = Message { text: first.text, location: first.location, duration: left };
                self.messages.push_front(first);
                assert(self@ =~= old(self)@.update(
                    0,
                    MessageView { duration: left, ..old(self)@[0] },
                ));
            }
        } else {
            assert(self@ =~= old(self)@);
        }
    }

    /// The lines of the first message, each with its place on a screen of
    /// `cols` columns and `rows` rows; no lines, where there is no message.
    pub fn render_one(&self, cols: u16, rows: u16) -> (lines: Vec<Placed>)
        ensures
            self@.len() == 0 ==> lines@.len() == 0,
            self@.len() > 0 ==> message_shown(
                self@[0],
                cols,
                rows,
                views(lines@),
            ),
    {
        let mut lines: Vec<Placed> = Vec::new();
        if self.messages.len() > 0 {
            let message = &self.messages[0];
            let painted = paint(&message.text);
            let wrapped_lines = wrap(painted.as_str(), cols / 2);
            let n = wrapped_lines.len();
            let ghost all = wrapped(painted@, cols / 2);
            let ghost target = placed(all, message.location, cols, rows);
            for entry in it: wrapped_lines
                invariant
                    n == all.len(),
                    it.seq().len() == n,
                    forall|i: int|
                        0 <= i < n ==> (#[trigger] it.seq()[i]).0 == all[i].0 && it.seq()[i].1@
                            == all[i].1,
                    target == placed(all, message.location, cols, rows),
                    lines@.len() == it.index(),
                    forall|i: int| 0 <= i < lines@.len() ==> (#[trigger] lines@[i])@ == target[i],
            {
                let i = lines.len();
                let half: u16 = entry.0 / 2;
                let col = (cols / 2).saturating_sub(half);
                let row: u16 = match message.location {
                    TextLocation::Center => {
                        let at: u128 = (rows / 2) as u128 + i as u128;
                        if at > u16::MAX as u128 {
                            u16::MAX
                        } else {
                            at as u16
                        }
                    },
                    TextLocation::Bottom => {
                        let up: usize = n - i;
                        if up > rows as usize {
                            0
                        } else {
                            rows - up as u16
                        }
                    },
                };
                lines.push(Placed { col, row, text: entry.1 });
            }
            assert(views(lines@) =~= target);
        }
        lines
    }

    /// The message that is on screen, if there is one.
    pub fn front(&self) -> (first: Option<&Message>)
        ensures
            match first {
                Some(m) => self@.len() > 0 && m@ == self@[0],
                None => self@.len() == 0,
            },
    {
        if self.messages.len() > 0 {
            Some(&self.messages[0])
        } else {
            None
        }
    }

    /// Number of messages in the queue.
    pub fn len(&self) -> (n: usize)
        ensures
            n == self@.len(),
    {
        self.messages.len()
    }
}

} // verus!
