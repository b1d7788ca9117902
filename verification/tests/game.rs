use idlegame::feature::fight::FightFlag;
use idlegame::feature::inventory::InventoryFlag;
use idlegame::game::{create_features, create_state, menu, process_input, render, step, Screen};
use idlegame::message::{Message, MessageManager, TextLocation};
use idlegame::state::{Key, State};
use idlegame::util::style::{Styled, Tint};

#[test]
fn the_start_of_a_game() {
    let state = create_state();
    assert_eq!(state.key, Key::Null);
    assert_eq!(state.selected_feature, None);
    assert!(!state.quit);
    assert_eq!(state.count, 0);
    assert_eq!(state.inventory.len(), 0);
    assert_eq!(state.inventory.max_size(), 10);
    assert_eq!(state.upgrades.contains("Damage"), None);
    assert_eq!(state.fight.floor, 0);
    let features = create_features();
    assert!(features.fight.flags.marked().is_empty());
    assert!(!features.inventory.flags.is_marked(&InventoryFlag::ShowDetailed));
    let keys: Vec<Key> = features.entries(&state).iter().map(|e| e.info.key).collect();
    assert_eq!(
        keys,
        vec![Key::Esc, Key::Char('c'), Key::Char('f'), Key::Char('i'), Key::Char('s')]
    );
}

#[test]
fn same_keys() {
    let keys = [
        Key::Char('a'),
        Key::Char('b'),
        Key::Left,
        Key::Right,
        Key::Esc,
        Key::Enter,
        Key::Null,
        Key::Other,
    ];
    for a in keys {
        for b in keys {
            assert_eq!(a.same(b), a == b);
        }
    }
}

#[test]
fn the_menu_opens_what_is_unlocked() {
    let features = create_features();
    let mut state = State::new();
    process_input(Key::Char('f'), &features, &mut state);
    assert_eq!(state.selected_feature, None);
    process_input(Key::Char('x'), &features, &mut state);
    assert_eq!(state.selected_feature, None);
    assert_eq!(state.key, Key::Null);
    process_input(Key::Char('c'), &features, &mut state);
    assert_eq!(state.selected_feature, Some(1));
    assert_eq!(state.key, Key::Null);

    let mut state = State::new();
    state.count = 10;
    process_input(Key::Char('f'), &features, &mut state);
    assert_eq!(state.selected_feature, Some(2));

    let mut state = State::new();
    state.count = 100;
    process_input(Key::Char('i'), &features, &mut state);
    assert_eq!(state.selected_feature, None);
    state.inventory.add("Gold", 1);
    process_input(Key::Char('i'), &features, &mut state);
    assert_eq!(state.selected_feature, Some(3));

    let mut state = State::new();
    state.count = 199;
    process_input(Key::Char('s'), &features, &mut state);
    assert_eq!(state.selected_feature, None);
    state.count = 200;
    process_input(Key::Char('s'), &features, &mut state);
    assert_eq!(state.selected_feature, Some(4));

    let mut state = State::new();
    process_input(Key::Esc, &features, &mut state);
    assert_eq!(state.selected_feature, Some(0));
}

#[test]
fn an_open_feature_gets_the_keys() {
    let features = create_features();
    let mut state = State::new();
    state.selected_feature = Some(1);
    process_input(Key::Char('c'), &features, &mut state);
    assert_eq!(state.key, Key::Char('c'));
    assert_eq!(state.selected_feature, Some(1));
    process_input(Key::Esc, &features, &mut state);
    assert_eq!(state.key, Key::Esc);
    assert_eq!(state.selected_feature, Some(1));
    process_input(Key::Char('q'), &features, &mut state);
    assert_eq!(state.selected_feature, None);
    assert_eq!(state.key, Key::Esc);
}

#[test]
fn a_step_ticks_the_open_feature() {
    let mut features = create_features();
    let mut state = State::new();
    let mut messages = MessageManager::default();
    step(100, &mut features, &mut state, &mut messages);
    assert_eq!(state.count, 0);
    assert_eq!(messages.len(), 0);

    state.selected_feature = Some(1);
    state.key = Key::Char('c');
    step(100, &mut features, &mut state, &mut messages);
    step(100, &mut features, &mut state, &mut messages);
    assert_eq!(state.count, 2);

    state.selected_feature = Some(2);
    state.key = Key::Right;
    step(100, &mut features, &mut state, &mut messages);
    assert_eq!(state.fight.floor, 1);
    assert_eq!(state.fight.respawn_timer, 2900);
    state.key = Key::Null;
    step(2900, &mut features, &mut state, &mut messages);
    assert!(features.fight.flags.is_marked(&FightFlag::Respawn));

    state.selected_feature = Some(3);
    state.key = Key::Char('d');
    step(100, &mut features, &mut state, &mut messages);
    assert!(features.inventory.flags.is_marked(&InventoryFlag::ShowDetailed));
    assert!(features.fight.flags.is_marked(&FightFlag::Respawn));

    state.selected_feature = Some(4);
    state.key = Key::Char('1');
    step(100, &mut features, &mut state, &mut messages);
    assert_eq!(messages.len(), 1);
    assert_eq!(messages.front().unwrap().text.text, "You don't have enough gold");
    // the message lost the time of the step in which it was said
    assert_eq!(messages.front().unwrap().duration, 2900);

    state.selected_feature = Some(0);
    step(100, &mut features, &mut state, &mut messages);
    assert!(state.quit);

    state.selected_feature = Some(9);
    let count = state.count;
    step(100, &mut features, &mut state, &mut messages);
    assert_eq!(state.count, count);
}

#[test]
fn a_step_lets_time_pass_for_the_first_message() {
    let mut features = create_features();
    let mut state = State::new();
    let mut messages = MessageManager::default();
    messages.add_message(Message {
        text: Styled::plain("hello".to_string()),
        location: TextLocation::Bottom,
        duration: 250,
    });
    step(100, &mut features, &mut state, &mut messages);
    assert_eq!(messages.front().unwrap().duration, 150);
    state.key = Key::Enter;
    step(100, &mut features, &mut state, &mut messages);
    assert_eq!(messages.len(), 0);
}

#[test]
fn the_welcome_of_the_counter_is_dismissed_by_enter() {
    let mut features = create_features();
    let mut state = State::new();
    let mut messages = MessageManager::default();
    state.selected_feature = Some(1);
    step(100, &mut features, &mut state, &mut messages);
    assert_eq!(state.count, 1);
    assert_eq!(messages.len(), 1);
    assert_eq!(messages.front().unwrap().duration, 9900);
    state.key = Key::Enter;
    step(100, &mut features, &mut state, &mut messages);
    assert_eq!(messages.len(), 0);
}

fn pieces(state: &State) -> Vec<(String, bool, Option<Tint>)> {
    menu(&create_features(), state).into_iter().map(|p| (p.text, p.crossed_out, p.tint)).collect()
}

#[test]
fn the_menu() {
    let open = |key: &str, name: &str, tint: Tint| {
        vec![
            (format!("[{key}]"), false, None),
            (name.to_string(), false, Some(tint)),
            (" ".to_string(), false, None),
        ]
    };
    let locked = |name: &str, tint: Tint| {
        vec![(name.to_string(), true, Some(tint)), (" ".to_string(), false, None)]
    };
    let mut state = State::new();
    let expected: Vec<_> = [
        open("Esc", "Quit", Tint::DarkGrey),
        open("c", "Counter", Tint::Cyan),
        locked("Fight", Tint::Red),
        locked("Inventory", Tint::White),
        locked("Shop", Tint::Yellow),
    ]
    .concat();
    assert_eq!(pieces(&state), expected);
    state.count = 250;
    let expected: Vec<_> = [
        open("Esc", "Quit", Tint::DarkGrey),
        open("c", "Counter", Tint::Cyan),
        open("f", "Fight", Tint::Red),
        locked("Inventory", Tint::White),
        open("s", "Shop", Tint::Yellow),
    ]
    .concat();
    assert_eq!(pieces(&state), expected);
    let bold: Vec<bool> = menu(&create_features(), &state).iter().map(|p| p.bold).collect();
    assert_eq!(bold.iter().filter(|b| **b).count(), 1);
}

#[test]
fn the_screen() {
    let features = create_features();
    let mut state = State::new();
    match render(&features, &state) {
        Screen::Menu(pieces) => assert_eq!(pieces.len(), 12),
        Screen::Feature { .. } => panic!("no feature is open"),
    }
    state.selected_feature = Some(7);
    assert!(matches!(render(&features, &state), Screen::Menu(_)));

    let expected = [
        ("Quit", 0, vec!["See you later!".to_string()]),
        ("Counter", 1, vec!["Count: 0".to_string(), String::new()]),
        (
            "Fight",
            3,
            vec![
                "Floor: 0 | Gold: 0 | Level: 1 | XP: 0/10".to_string(),
                "Respawn in 0.00".to_string(),
                "Player HP: 10.00/10.00 | Damage: 1.00 | Attack: 1.50".to_string(),
            ],
        ),
        ("Inventory", 2, vec![]),
        ("Shop", 2, vec![]),
    ];
    for (i, (title, bar, first_lines)) in expected.into_iter().enumerate() {
        state.selected_feature = Some(i);
        match render(&features, &state) {
            Screen::Feature { name, top_bar, lines } => {
                assert_eq!(name.text, title);
                assert_eq!(top_bar.len(), bar);
                let texts: Vec<String> = lines.into_iter().map(|l| l.text).collect();
                assert_eq!(texts[..first_lines.len()], first_lines[..]);
                if i == 1 {
                    assert_eq!(texts.len(), 3);
                }
                if i == 4 {
                    assert_eq!(texts.len(), 3);
                }
            }
            Screen::Menu(_) => panic!("feature {i} is open"),
        }
    }
}
