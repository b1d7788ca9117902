use crossterm::style::{Attribute, Color, Stylize};
use idlegame::feature::inventory::Rarity;
use idlegame::util::style::{paint, rarity_styled, rarity_stylize, to_terminal, Styled, Tint};

const RARITIES: [Rarity; 6] = [
    Rarity::Common,
    Rarity::Uncommon,
    Rarity::Rare,
    Rarity::Epic,
    Rarity::Legendary,
    Rarity::Mythic,
];

#[test]
fn the_look_of_each_rarity() {
    let looks = [
        (Color::White, false),
        (Color::Green, false),
        (Color::Blue, false),
        (Color::Magenta, false),
        (Color::Yellow, false),
        (Color::Red, true),
    ];
    for (rarity, (color, bold)) in RARITIES.iter().zip(looks) {
        let styled = rarity_styled(*rarity, "Sword");
        assert_eq!(*styled.content(), "Sword");
        assert_eq!(styled.style().foreground_color, Some(color));
        assert_eq!(styled.style().background_color, None);
        assert_eq!(styled.style().attributes.has(Attribute::Bold), bold);
        assert!(!styled.style().attributes.has(Attribute::Italic));
        assert!(!styled.style().attributes.has(Attribute::CrossedOut));
    }
}

#[test]
fn names_by_rarity_as_the_terminal_takes_them() {
    assert_eq!(rarity_stylize(Rarity::Common, "Gold"), "Gold".white().to_string());
    assert_eq!(rarity_stylize(Rarity::Uncommon, "XP"), "XP".green().to_string());
    assert_eq!(rarity_stylize(Rarity::Rare, "Gem"), "Gem".blue().to_string());
    assert_eq!(rarity_stylize(Rarity::Epic, "Gem"), "Gem".magenta().to_string());
    assert_eq!(rarity_stylize(Rarity::Legendary, "Gem"), "Gem".yellow().to_string());
    assert_eq!(rarity_stylize(Rarity::Mythic, "Gem"), "Gem".red().bold().to_string());
    for rarity in RARITIES {
        for name in ["", "Gold", "two words", "ünï"] {
            let painted = rarity_stylize(rarity, name);
            assert!(painted.contains(name));
            assert_ne!(painted, name);
        }
    }
}

#[test]
fn every_tint_has_its_colour() {
    let tints = [
        (Tint::DarkGrey, Color::DarkGrey),
        (Tint::Red, Color::Red),
        (Tint::Green, Color::Green),
        (Tint::Yellow, Color::Yellow),
        (Tint::DarkYellow, Color::DarkYellow),
        (Tint::Blue, Color::Blue),
        (Tint::Magenta, Color::Magenta),
        (Tint::Cyan, Color::Cyan),
        (Tint::White, Color::White),
    ];
    for (tint, color) in tints {
        let styled = Styled::tinted("text".to_string(), tint);
        let shown = to_terminal(&styled);
        assert_eq!(*shown.content(), "text");
        assert_eq!(shown.style().foreground_color, Some(color));
        assert!(shown.style().attributes.is_empty());
        assert_eq!(paint(&styled), "text".with(color).to_string());
    }
}

#[test]
fn attributes_reach_the_terminal() {
    let plain = Styled::plain("text".to_string());
    let shown = to_terminal(&plain);
    assert_eq!(shown.style().foreground_color, None);
    assert!(shown.style().attributes.is_empty());
    assert_eq!(paint(&plain), "text");

    let bold = Styled::plain("text".to_string()).bold();
    assert!(to_terminal(&bold).style().attributes.has(Attribute::Bold));
    assert!(!to_terminal(&bold).style().attributes.has(Attribute::Italic));
    assert_eq!(paint(&bold), "text".bold().to_string());

    let italic = Styled::tinted("text".to_string(), Tint::White).italic();
    assert!(to_terminal(&italic).style().attributes.has(Attribute::Italic));
    assert_eq!(paint(&italic), "text".italic().white().to_string());

    let crossed = Styled::tinted("text".to_string(), Tint::Red).crossed_out();
    assert!(to_terminal(&crossed).style().attributes.has(Attribute::CrossedOut));
    assert_eq!(paint(&crossed), "text".red().crossed_out().to_string());

    let all = Styled::tinted("text".to_string(), Tint::Cyan).bold().italic().crossed_out();
    let shown = to_terminal(&all);
    assert!(shown.style().attributes.has(Attribute::Bold));
    assert!(shown.style().attributes.has(Attribute::Italic));
    assert!(shown.style().attributes.has(Attribute::CrossedOut));
    assert_eq!(shown.style().foreground_color, Some(Color::Cyan));
    assert!(paint(&all).contains("text"));
}

#[test]
fn building_styled_text() {
    let s = Styled::plain("a".to_string());
    assert_eq!((s.text.as_str(), s.tint, s.bold, s.italic, s.crossed_out), ("a", None, false, false, false));
    let s = Styled::tinted("b".to_string(), Tint::Green);
    assert_eq!((s.text.as_str(), s.tint, s.bold, s.italic, s.crossed_out), ("b", Some(Tint::Green), false, false, false));
    let s = s.bold();
    assert_eq!((s.text.as_str(), s.tint, s.bold, s.italic, s.crossed_out), ("b", Some(Tint::Green), true, false, false));
    let s = s.italic();
    assert_eq!((s.tint, s.bold, s.italic, s.crossed_out), (Some(Tint::Green), true, true, false));
    let s = s.crossed_out();
    assert_eq!((s.tint, s.bold, s.italic, s.crossed_out), (Some(Tint::Green), true, true, true));
}
