//! Styled text: the library's own description of a style, and how the
//! terminal library shows it.

use crate::feature::inventory::Rarity;
use crossterm::style::{StyledContent, Stylize};
use vstd::prelude::*;

verus! {

/// A colour of the terminal.
#[derive(Clone, Copy, Debug, PartialEq, Eq)]
pub enum Tint {
    DarkGrey,
    Red,
    Green,
    Yellow,
    DarkYellow,
    Blue,
    Magenta,
    Cyan,
    White,
}

/// A text with the style in which it is shown.
pub struct Styled {
    pub text: String,
    pub tint: Option<Tint>,
    pub bold: bool,
    pub italic: bool,
    pub crossed_out: bool,
}

/// A styled text as a value.
pub struct StyledView {
    pub text: Seq<char>,
    pub tint: Option<Tint>,
    pub bold: bool,
    pub italic: bool,
    pub crossed_out: bool,
}

impl View for Styled {
    type V = StyledView;

    open spec fn view(&self) -> StyledView {
        StyledView {
            text: self.text@,
            tint: self.tint,
            bold: self.bold,
            italic: self.italic,
            crossed_out: self.crossed_out,
        }
    }
}

/// `text` without colour or emphasis.
pub open spec fn unstyled(text: Seq<char>) -> StyledView {
    StyledView { text, tint: None, bold: false, italic: false, crossed_out: false }
}

/// `text` in one colour.
pub open spec fn tinted(text: Seq<char>, tint: Tint) -> StyledView {
    StyledView { text, tint: Some(tint), bold: false, italic: false, crossed_out: false }
}

/// Whether `painted` holds `text` unchanged, with something before it and
/// something after it.
pub open spec fn shows(painted: Seq<char>, text: Seq<char>) -> bool {
    exists|before: Seq<char>, after: Seq<char>| painted == before + text + after
}

impl Styled {
    /// `text` without colour or emphasis.
    pub fn plain(text: String) -> (s: Styled)
        ensures
            s@ == unstyled(text@),
    {
        Styled { text, tint: None, bold: false, italic: false, crossed_out: false }
    }

    /// `text` in one colour.
    pub fn tinted(text: String, tint: Tint) -> (s: Styled)
        ensures
            s@ == tinted(text@, tint),
    {
        Styled { text, tint: Some(tint), bold: false, italic: false, crossed_out: false }
    }

    /// The same text, in bold.
    pub fn bold(self) -> (s: Styled)
        ensures
            s@ == (StyledView { bold: true, ..self@ }),
    {
        Styled { bold: true, ..self }
    }

    /// The same text, in italics.
    pub fn italic(self) -> (s: Styled)
        ensures
            s@ == (StyledView { italic: true, ..self@ }),
    {
        Styled { italic: true, ..self }
    }

    /// The same text, crossed out.
    pub fn crossed_out(self) -> (s: Styled)
        ensures
            s@ == (StyledView { crossed_out: true, ..self@ }),
    {
        Styled { crossed_out: true, ..self }
    }
}

/// `crossterm::style::StyledContent`: a content with the style in which
/// the terminal shows it. What is inside is told by the names below.
#[verifier::external_type_specification]
#[verifier::external_body]
#[verifier::reject_recursive_types(D)]
pub struct ExStyledContent<D: core::fmt::Display>(StyledContent<D>);

/// The text that a styled content of the terminal library carries.
pub uninterp spec fn styled_text(s: StyledContent<&str>) -> Seq<char>;

/// The foreground colour that a styled content carries, if it has one.
pub uninterp spec fn styled_tint(s: StyledContent<&str>) -> Option<Tint>;

/// Whether a styled content carries the bold attribute.
pub uninterp spec fn styled_bold(s: StyledContent<&str>) -> bool;

/// Whether a styled content carries the italic attribute.
pub uninterp spec fn styled_italic(s: StyledContent<&str>) -> bool;

/// Whether a styled content carries the crossed-out attribute.
pub uninterp spec fn styled_crossed_out(s: StyledContent<&str>) -> bool;

/// `Stylize::stylize` on a `&str`: a styled content that carries the text,
/// without a colour and without attributes.
#[verifier::external_body]
fn stylize<'a>(text: &'a str) -> (s: StyledContent<&'a str>)
    ensures
        styled_text(s) == text@,
        styled_tint(s) is None,
        !styled_bold(s),
        !styled_italic(s),
        !styled_crossed_out(s),
{
    text.stylize()
}

/// `Stylize::dark_grey` sets the foreground colour to dark grey and keeps the text
/// and the attributes.
#[verifier::external_body]
fn dark_grey<'a>(s: StyledContent<&'a str>) -> (r: StyledContent<&'a str>)
    ensures
        styled_text(r) == styled_text(s),
        styled_tint(r) == Some(Tint::DarkGrey),
        styled_bold(r) == styled_bold(s),
        styled_italic(r) == styled_italic(s),
        styled_crossed_out(r) == styled_crossed_out(s),
{
    s.dark_grey()
}

/// `Stylize::red` sets the foreground colour to red and keeps the text
/// and the attributes.
#[verifier::external_body]
fn red<'a>(s: StyledContent<&'a str>) -> (r: StyledContent<&'a str>)
    ensures
        styled_text(r) == styled_text(s),
        styled_tint(r) == Some(Tint::Red),
        styled_bold(r) == styled_bold(s),
        styled_italic(r) == styled_italic(s),
        styled_crossed_out(r) == styled_crossed_out(s),
{
    s.red()
}

/// `Stylize::green` sets the foreground colour to green and keeps the text
/// and the attributes.
#[verifier::external_body]
fn green<'a>(s: StyledContent<&'a str>) -> (r: StyledContent<&'a str>)
    ensures
        styled_text(r) == styled_text(s),
        styled_tint(r) == Some(Tint::Green),
        styled_bold(r) == styled_bold(s),
        styled_italic(r) == styled_italic(s),
        styled_crossed_out(r) == styled_crossed_out(s),
{
    s.green()
}

/// `Stylize::yellow` sets the foreground colour to yellow and keeps the text
/// and the attributes.
#[verifier::external_body]
fn yellow<'a>(s: StyledContent<&'a str>) -> (r: StyledContent<&'a str>)
    ensures
        styled_text(r) == styled_text(s),
        styled_tint(r) == Some(Tint::Yellow),
        styled_bold(r) == styled_bold(s),
        styled_italic(r) == styled_italic(s),
        styled_crossed_out(r) == styled_crossed_out(s),
{
    s.yellow()
}

/// `Stylize::dark_yellow` sets the foreground colour to dark yellow and keeps the text
/// and the attributes.
#[verifier::external_body]
fn dark_yellow<'a>(s: StyledContent<&'a str>) -> (r: StyledContent<&'a str>)
    ensures
        styled_text(r) == styled_text(s),
        styled_tint(r) == Some(Tint::DarkYellow),
        styled_bold(r) == styled_bold(s),
        styled_italic(r) == styled_italic(s),
        styled_crossed_out(r) == styled_crossed_out(s),
{
    s.dark_yellow()
}

/// `Stylize::blue` sets the foreground colour to blue and keeps the text
/// and the attributes.
#[verifier::external_body]
fn blue<'a>(s: StyledContent<&'a str>) -> (r: StyledContent<&'a str>)
    ensures
        styled_text(r) == styled_text(s),
        styled_tint(r) == Some(Tint::Blue),
        styled_bold(r) == styled_bold(s),
        styled_italic(r) == styled_italic(s),
        styled_crossed_out(r) == styled_crossed_out(s),
{
    s.blue()
}

/// `Stylize::magenta` sets the foreground colour to magenta and keeps the text
/// and the attributes.
#[verifier::external_body]
fn magenta<'a>(s: StyledContent<&'a str>) -> (r: StyledContent<&'a str>)
    ensures
        styled_text(r) == styled_text(s),
        styled_tint(r) == Some(Tint::Magenta),
        styled_bold(r) == styled_bold(s),
        styled_italic(r) == styled_italic(s),
        styled_crossed_out(r) == styled_crossed_out(s),
{
    s.magenta()
}

/// `Stylize::cyan` sets the foreground colour to cyan and keeps the text
/// and the attributes.
#[verifier::external_body]
fn cyan<'a>(s: StyledContent<&'a str>) -> (r: StyledContent<&'a str>)
    ensures
        styled_text(r) == styled_text(s),
        styled_tint(r) == Some(Tint::Cyan),
        styled_bold(r) == styled_bold(s),
        styled_italic(r) == styled_italic(s),
        styled_crossed_out(r) == styled_crossed_out(s),
{
    s.cyan()
}

/// `Stylize::white` sets the foreground colour to white and keeps the text
/// and the attributes.
#[verifier::external_body]
fn white<'a>(s: StyledContent<&'a str>) -> (r: StyledContent<&'a str>)
    ensures
        styled_text(r) == styled_text(s),
        styled_tint(r) == Some(Tint::White),
        styled_bold(r) == styled_bold(s),
        styled_italic(r) == styled_italic(s),
        styled_crossed_out(r) == styled_crossed_out(s),
{
    s.white()
}

/// `Stylize::bold` adds the bold attribute and keeps the text, the colour
/// and the other attributes.
#[verifier::external_body]
fn bold<'a>(s: StyledContent<&'a str>) -> (r: StyledContent<&'a str>)
    ensures
        styled_text(r) == styled_text(s),
        styled_tint(r) == styled_tint(s),
        styled_bold(r),
        styled_italic(r) == styled_italic(s),
        styled_crossed_out(r) == styled_crossed_out(s),
{
    s.bold()
}

/// `Stylize::italic` adds the italic attribute and keeps the text, the colour
/// and the other attributes.
#[verifier::external_body]
fn italic<'a>(s: StyledContent<&'a str>) -> (r: StyledContent<&'a str>)
    ensures
        styled_text(r) == styled_text(s),
        styled_tint(r) == styled_tint(s),
        styled_bold(r) == styled_bold(s),
        styled_italic(r),
        styled_crossed_out(r) == styled_crossed_out(s),
{
    s.italic()
}

/// `Stylize::crossed_out` adds the crossed-out attribute and keeps the text, the colour
/// and the other attributes.
#[verifier::external_body]
fn crossed_out<'a>(s: StyledContent<&'a str>) -> (r: StyledContent<&'a str>)
    ensures
        styled_text(r) == styled_text(s),
        styled_tint(r) == styled_tint(s),
        styled_bold(r) == styled_bold(s),
        styled_italic(r) == styled_italic(s),
        styled_crossed_out(r),
{
    s.crossed_out()
}

/// `to_string` of a styled content: the text as it is, between the escape
/// sequences that switch the style on and off. Which sequences these are
/// depends on the environment of the process, so no more is stated.
#[verifier::external_body]
fn written(s: &StyledContent<&str>) -> (r: String)
    ensures
        shows(r@, styled_text(*s)),
{
    s.to_string()
}

/// `styled` as a styled content of the terminal library: the same text,
/// colour and attributes.
pub fn to_terminal<'a>(styled: &'a Styled) -> (r: StyledContent<&'a str>)
    ensures
        styled_text(r) == styled.text@,
        styled_tint(r) == styled.tint,
        styled_bold(r) == styled.bold,
        styled_italic(r) == styled.italic,
        styled_crossed_out(r) == styled.crossed_out,
{
    let s = stylize(styled.text.as_str());
    let s = match styled.tint {
        None => s,
        Some(Tint::DarkGrey) => dark_grey(s),
        Some(Tint::Red) => red(s),
        Some(Tint::Green) => green(s),
        Some(Tint::Yellow) => yellow(s),
        Some(Tint::DarkYellow) => dark_yellow(s),
        Some(Tint::Blue) => blue(s),
        Some(Tint::Magenta) => magenta(s),
        Some(Tint::Cyan) => cyan(s),
        Some(Tint::White) => white(s),
    };
    let s = if styled.bold {
        bold(s)
    } else {
        s
    };
    let s = if styled.italic {
        italic(s)
    } else {
        s
    };
    if styled.crossed_out {
        crossed_out(s)
    } else {
        s
    }
}

/// `styled` as the terminal takes it: its text unchanged, between what
/// switches the style on and off.
pub fn paint(styled: &Styled) -> (r: String)
    ensures
        shows(r@, styled.text@),
{
    let s = to_terminal(styled);
    written(&s)
}

/// The colour of a rarity, and whether it is shown in bold: common is
/// white, uncommon green, rare blue, epic magenta, legendary yellow, and
/// mythic red and bold.
pub open spec fn rarity_look(rarity: Rarity) -> (Tint, bool) {
    match rarity {
        Rarity::Common => (Tint::White, false),
        Rarity::Uncommon => (Tint::Green, false),
        Rarity::Rare => (Tint::Blue, false),
        Rarity::Epic => (Tint::Magenta, false),
        Rarity::Legendary => (Tint::Yellow, false),
        Rarity::Mythic => (Tint::Red, true),
    }
}

/// `string` with the look of `rarity`, as a styled content of the terminal
/// library.
pub fn rarity_styled<'a>(rarity: Rarity, string: &'a str) -> (styled: StyledContent<&'a str>)
    ensures
        styled_text(styled) == string@,
        styled_tint(styled) == Some(rarity_look(rarity).0),
        styled_bold(styled) == rarity_look(rarity).1,
        !styled_italic(styled),
        !styled_crossed_out(styled),
{
    match rarity {
        Rarity::Common => white(stylize(string)),
        Rarity::Uncommon => green(stylize(string)),
        Rarity::Rare => blue(stylize(string)),
        Rarity::Epic => magenta(stylize(string)),
        Rarity::Legendary => yellow(stylize(string)),
        Rarity::Mythic => bold(red(stylize(string))),
    }
}

/// `string` with the look of `rarity`, as the terminal takes it: `string`
/// unchanged, between what switches the look on and off.
pub fn rarity_stylize(rarity: Rarity, string: &str) -> (r: String)
    ensures
        shows(r@, string@),
{
    let styled = rarity_styled(rarity, string);
    written(&styled)
}

} // verus!
