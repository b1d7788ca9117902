//! Conversions between keys, numbers and text.

use crate::state::Key;
use vstd::prelude::*;
use vstd::string::*;

verus! {

/// How a key is written in the menu.
pub open spec fn key_text(key: Key) -> Seq<char> {
    match key {
        Key::Char(c) => seq![c],
        Key::Esc => "Esc"@,
        Key::Left => "<-"@,
        Key::Right => "->"@,
        Key::Null => Seq::empty(),
        _ => "?"@,
    }
}

/// How a key is written in the menu.
pub fn get_string(key: Key) -> (text: String)
    ensures
        text@ == key_text(key),
{
    match key {
        Key::Char(c) => {
            let mut text = String::new();
            text.push(c);
            assert(text@ =~= seq![c]);
            text
        },
        Key::Esc => "Esc".to_owned(),
        Key::Left => "<-".to_owned(),
        Key::Right => "->".to_owned(),
        Key::Null => String::new(),
        _ => "?".to_owned(),
    }
}

/// The number that a decimal digit stands for.
pub open spec fn digit_value(c: char) -> Option<usize> {
    if c == '0' {
        Some(0)
    } else if c == '1' {
        Some(1)
    } else if c == '2' {
        Some(2)
    } else if c == '3' {
        Some(3)
    } else if c == '4' {
        Some(4)
    } else if c == '5' {
        Some(5)
    } else if c == '6' {
        Some(6)
    } else if c == '7' {
        Some(7)
    } else if c == '8' {
        Some(8)
    } else if c == '9' {
        Some(9)
    } else {
        None
    }
}

/// The number of a key: that of its digit, for the key of a decimal digit.
pub open spec fn key_number(key: Key) -> Option<usize> {
    match key {
        Key::Char(c) => digit_value(c),
        _ => None,
    }
}

/// The number of a key, for the key of a decimal digit.
pub fn to_number(c: Key) -> (number: Option<usize>)
    ensures
        number == key_number(c),
{
    match c {
        Key::Char(c) => match c {
            '0' => Some(0),
            '1' => Some(1),
            '2' => Some(2),
            '3' => Some(3),
            '4' => Some(4),
            '5' => Some(5),
            '6' => Some(6),
            '7' => Some(7),
            '8' => Some(8),
            '9' => Some(9),
            _ => None,
        },
        _ => None,
    }
}

/// Whether a character separates words: the white space of Unicode.
pub open spec fn is_space(c: char) -> bool {
    let code = c as u32;
    ||| 0x09 <= code <= 0x0d
    ||| code == 0x20
    ||| code == 0x85
    ||| code == 0xa0
    ||| code == 0x1680
    ||| 0x2000 <= code <= 0x200a
    ||| code == 0x2028
    ||| code == 0x2029
    ||| code == 0x202f
    ||| code == 0x205f
    ||| code == 0x3000
}

/// Whether a character separates words.
pub fn separates(c: char) -> (space: bool)
    ensures
        space == is_space(c),
{
    let code = c as u32;
    (0x09 <= code && code <= 0x0d) || code == 0x20 || code == 0x85 || code == 0xa0 || code
        == 0x1680 || (0x2000 <= code && code <= 0x200a) || code == 0x2028 || code == 0x2029
        || code == 0x202f || code == 0x205f || code == 0x3000
}

/// Reads `text` from the left: the words that are complete, and the word
/// that is still open at the end.
pub open spec fn scanned(text: Seq<char>) -> (Seq<Seq<char>>, Seq<char>)
    decreases text.len(),
{
    if text.len() == 0 {
        (Seq::empty(), Seq::empty())
    } else {
        let (done, open) = scanned(text.drop_last());
        if !is_space(text.last()) {
            (done, open.push(text.last()))
        } else if open.len() > 0 {
            (done.push(open), Seq::empty())
        } else {
            (done, open)
        }
    }
}

/// The words of a text: its longest pieces without white space, in order.
pub open spec fn words(text: Seq<char>) -> Seq<Seq<char>> {
    let (done, open) = scanned(text);
    if open.len() > 0 {
        done.push(open)
    } else {
        done
    }
}

/// `n` as a `u16`, or `u16::MAX` where `n` is larger.
pub open spec fn clamped(n: int) -> u16 {
    if n > u16::MAX {
        u16::MAX
    } else if n < 0 {
        0
    } else {
        n as u16
    }
}

/// Where filling lines stands: the lines that are full, and the length and
/// the text of the line that is being filled.
pub struct Filling {
    pub lines: Seq<(u16, Seq<char>)>,
    pub len: u16,
    pub line: Seq<char>,
}

/// Fills lines with words. A word that would make the line longer than
/// `width` starts a new line; each word is followed by one space, which
/// counts toward the length. Lengths are counted in characters and stop at
/// `u16::MAX`.
pub open spec fn filled(words: Seq<Seq<char>>, width: u16) -> Filling
    decreases words.len(),
{
    if words.len() == 0 {
        Filling { lines: Seq::empty(), len: 0, line: Seq::empty() }
    } else {
        let before = filled(words.drop_last(), width);
        let word = words.last();
        let start = if before.len + clamped(word.len() as int) > width {
            Filling { lines: before.lines.push((before.len, before.line)), len: 0, line: Seq::empty() }
        } else {
            before
        };
        Filling {
            lines: start.lines,
            len: clamped(start.len + clamped(word.len() as int) + 1),
            line: start.line + word + seq![' '],
        }
    }
}

/// `text` wrapped to `width`: the lines with their lengths.
pub open spec fn wrapped(text: Seq<char>, width: u16) -> Seq<(u16, Seq<char>)> {
    let end = filled(words(text), width);
    end.lines.push((end.len, end.line))
}

/// The words of a text.
pub fn split_words(text: &str) -> (found: Vec<String>)
    ensures
        found@.len() == words(text@).len(),
        forall|i: int| 0 <= i < found@.len() ==> (#[trigger] found@[i])@ == words(text@)[i],
{
    let mut found: Vec<String> = Vec::new();
    let mut word = String::new();
    let mut any = false;
    let chars = text.chars();
    proof {
        broadcast use axiom_spec_iter;

    }
    for c in it: chars
        invariant
            it.seq() == text@,
            any == (word@.len() > 0),
            word@ == scanned(text@.take(it.index())).1,
            found@.len() == scanned(text@.take(it.index())).0.len(),
            forall|i: int|
                0 <= i < found@.len() ==> (#[trigger] found@[i])@ == scanned(
                    text@.take(it.index()),
                ).0[i],
    {
        proof {
            assert(text@.take(it.index() + 1).drop_last() =~= text@.take(it.index()));
        }
        if !separates(c) {
            word.push(c);
            any = true;
        } else if any {
            found.push(word);
            word = String::new();
            any = false;
        }
    }
    proof {
        assert(text@.take(text@.len() as int) =~= text@);
    }
    if any {
        found.push(word);
    }
    found
}

/// Wraps a text to a width: the lines, each with its length.
pub fn wrap(text: &str, width: u16) -> (lines: Vec<(u16, String)>)
    ensures
        lines@.len() == wrapped(text@, width).len(),
        forall|i: int|
            0 <= i < lines@.len() ==> (#[trigger] lines@[i]).0 == wrapped(text@, width)[i].0
                && lines@[i].1@ == wrapped(text@, width)[i].1,
{
    let found = split_words(text);
    let ghost all = words(text@);
    let mut lines: Vec<(u16, String)> = Vec::new();
    let mut line = String::new();
    let mut len: u16 = 0;
    let mut k: usize = 0;
    while k < found.len()
        invariant
            k <= found@.len(),
            found@.len() == all.len(),
            forall|i: int| 0 <= i < found@.len() ==> (#[trigger] found@[i])@ == all[i],
            len == filled(all.take(k as int), width).len,
            line@ == filled(all.take(k as int), width).line,
            lines@.len() == filled(all.take(k as int), width).lines.len(),
            forall|i: int|
                0 <= i < lines@.len() ==> (#[trigger] lines@[i]).0 == filled(
                    all.take(k as int),
                    width,
                ).lines[i].0 && lines@[i].1@ == filled(all.take(k as int), width).lines[i].1,
        decreases found@.len() - k,
    {
        proof {
            assert(all.take(k + 1).drop_last() =~= all.take(k as int));
        }
        let word = found[k].as_str();
        let count = word.unicode_len();
        let n: u16 = if count > u16::MAX as usize {
            u16::MAX
        } else {
            count as u16
        };
        if len as u32 + n as u32 > width as u32 {
            lines.push((len, line));
            line = String::new();
            len = 0;
        }
        line.append(word);
        line.push(' ');
        len = len.saturating_add(n).saturating_add(1);
        k += 1;
    }
    proof {
        assert(all.take(all.len() as int) =~= all);
    }
    lines.push((len, line));
    lines
}

} // verus!
