use idlegame::feature::fight::{
    get_enemy, level_up, process_input, regenerate, strike, update_timers, xp_increase_of,
    FightData, FightFeature, FightFlag, Living,
};
use idlegame::feature::Feature;
use idlegame::message::MessageManager;
use idlegame::state::{Key, State};
use idlegame::util::flag::{Flag, Flags};

fn enemy(health: u64) -> Living {
    Living { attack: 1000, defense: 0, health, max_health: 3000 }
}

/// A state on floor 1 with an enemy present and the respawn timer at rest.
fn fighting(enemy_health: u64) -> State {
    let mut state = State::new();
    state.fight.floor = 1;
    state.fight.enemy = Some(enemy(enemy_health));
    state.fight.respawn_timer = state.fight.respawn_max;
    state
}

fn tick(feature: &mut FightFeature, state: &mut State, key: Key, delta: u32) {
    let mut messages = MessageManager::default();
    state.key = key;
    feature.update(delta, state, &mut messages);
    assert_eq!(messages.len(), 0);
}

#[test]
fn default_data_is_the_start_of_a_game() {
    let data = FightData::default();
    assert_eq!(
        data.player,
        Living { attack: 1000, defense: 0, health: 10_000, max_health: 10_000 }
    );
    assert_eq!(data.enemy, None);
    assert_eq!((data.floor, data.max_floor), (0, 1));
    assert_eq!((data.enemy_count, data.enemy_required), (0, 10));
    assert_eq!((data.respawn_timer, data.respawn_max), (0, 3000));
    assert_eq!((data.attack_timer, data.attack_max), (1500, 1500));
    assert_eq!((data.enemy_timer, data.enemy_max), (2000, 2000));
    assert_eq!((data.xp_to_next_level, data.level, data.regen), (10, 1, 500));
}

#[test]
fn damage_is_attack_less_defense_and_never_negative() {
    let target = Living { attack: 0, defense: 400, health: 3000, max_health: 3000 };
    assert_eq!(strike(target, 1000).health, 2400);
    assert_eq!(strike(target, 400).health, 3000);
    assert_eq!(strike(target, 100).health, 3000);
    assert_eq!(strike(target, 3400).health, 0);
    assert_eq!(strike(target, 9000).health, 0);
    let hit = strike(target, 1000);
    assert_eq!((hit.attack, hit.defense, hit.max_health), (0, 400, 3000));
}

#[test]
fn enemy_scales_with_the_floor() {
    assert_eq!(
        get_enemy(1),
        Living { attack: 1000, defense: 0, health: 5000, max_health: 5000 }
    );
    assert_eq!(
        get_enemy(5),
        Living { attack: 1400, defense: 0, health: 13_000, max_health: 13_000 }
    );
    assert_eq!(
        get_enemy(7),
        Living { attack: 1600, defense: 200, health: 17_000, max_health: 17_000 }
    );
    assert_eq!(
        get_enemy(0),
        Living { attack: 900, defense: 0, health: 3000, max_health: 3000 }
    );
    let top = get_enemy(u32::MAX);
    assert_eq!(top.attack, 900 + 100 * u32::MAX as u64);
    assert_eq!(top.health, 3000 + 2000 * u32::MAX as u64);
}

#[test]
fn an_attack_wounds_the_enemy() {
    let mut state = fighting(3000);
    state.fight.attack_timer = 0;
    let mut feature = FightFeature::default();
    tick(&mut feature, &mut state, Key::Char('a'), 0);
    assert_eq!(state.fight.enemy.unwrap().health, 2000);
    assert_eq!(state.fight.attack_timer, state.fight.attack_max);
    assert!(!feature.flags.is_marked(&FightFlag::EnemyDead));
    assert!(!feature.flags.is_marked(&FightFlag::Attack));
}

#[test]
fn an_attack_by_the_handler_alone() {
    let mut state = fighting(3000);
    state.fight.attack_timer = 0;
    let mut sink: Flags<FightFlag, State> = Flags::new();
    FightFlag::Attack.handle(&mut sink, &mut state);
    assert_eq!(state.fight.enemy.unwrap().health, 2000);
    assert_eq!(state.fight.attack_timer, 1500);
    assert!(sink.marked().is_empty());
}

#[test]
fn the_enemy_dies_one_generation_later() {
    let mut state = fighting(1000);
    state.fight.attack_timer = 0;
    let mut feature = FightFeature::default();
    tick(&mut feature, &mut state, Key::Char('a'), 0);
    assert_eq!(state.fight.enemy.unwrap().health, 0);
    assert!(feature.flags.is_marked(&FightFlag::EnemyDead));
    assert_eq!(state.fight.enemy_count, 0);
    assert_eq!(state.inventory.get_amount("Gold"), 0);

    tick(&mut feature, &mut state, Key::Null, 0);
    assert_eq!(state.fight.enemy, None);
    assert_eq!(state.fight.enemy_count, 1);
    assert_eq!(state.inventory.get_amount("Gold"), 1);
    assert_eq!(state.inventory.get_amount("XP"), 1);
    assert_eq!(state.fight.enemy_timer, state.fight.enemy_max);
    assert!(feature.flags.marked().is_empty());
}

#[test]
fn the_player_dies_and_starts_over() {
    let mut state = fighting(3000);
    state.fight.player.health = 500;
    state.fight.enemy_timer = 100;
    state.inventory.add("Gold", 7);
    let mut feature = FightFeature::default();

    tick(&mut feature, &mut state, Key::Null, 100);
    assert_eq!(state.fight.enemy_timer, 0);
    assert!(feature.flags.is_marked(&FightFlag::EnemyAttack));
    assert_eq!(state.fight.player.health, 500);

    tick(&mut feature, &mut state, Key::Null, 100);
    assert_eq!(state.fight.player.health, 0);
    assert!(feature.flags.is_marked(&FightFlag::PlayerDead));
    assert_eq!(state.fight.floor, 1);

    tick(&mut feature, &mut state, Key::Null, 0);
    assert_eq!(state.fight.player.health, state.fight.player.max_health);
    assert_eq!(state.fight.floor, 0);
    assert_eq!(state.fight.enemy, None);
    assert_eq!(state.inventory.get_amount("Gold"), 3);
}

#[test]
fn rest_on_floor_zero() {
    let mut state = State::new();
    state.fight.player.health = 5000;
    let mut feature = FightFeature::default();
    tick(&mut feature, &mut state, Key::Null, 1000);
    assert_eq!(state.fight.player.health, 5500);
    assert!(feature.flags.marked().is_empty());
}

#[test]
fn rest_stops_at_full_health_and_needs_floor_zero() {
    let mut data = FightData::default();
    data.player.health = 9990;
    regenerate(100, &mut data);
    assert_eq!(data.player.health, 10_000);
    regenerate(u32::MAX, &mut data);
    assert_eq!(data.player.health, 10_000);

    data.player.health = 1000;
    data.regen = u64::MAX;
    regenerate(u32::MAX, &mut data);
    assert_eq!(data.player.health, 10_000);

    data.player.health = 1000;
    data.regen = 500;
    data.floor = 1;
    regenerate(1000, &mut data);
    assert_eq!(data.player.health, 1000);

    data.floor = 0;
    regenerate(100, &mut data);
    assert_eq!(data.player.health, 1050);
}

#[test]
fn experience_wraps_into_levels() {
    // thresholds: 10, then 10 + 11 = 21, then 21 + 13 = 34
    assert_eq!(level_up(9, 10, 1), (9, 10, 1));
    assert_eq!(level_up(10, 10, 1), (0, 21, 2));
    assert_eq!(level_up(30, 10, 1), (20, 21, 2));
    assert_eq!(level_up(31, 10, 1), (0, 34, 3));
    assert_eq!(level_up(40, 10, 1), (9, 34, 3));
    assert_eq!(level_up(40, 0, 1), (40, 0, 1));
    assert_eq!(level_up(u64::MAX, u64::MAX, u32::MAX), (0, u64::MAX, u32::MAX));
}

#[test]
fn experience_wraps_through_the_handler() {
    let mut state = State::new();
    state.fight.floor = 4;
    state.fight.max_floor = 4;
    state.inventory.add("XP", 28);
    let mut sink: Flags<FightFlag, State> = Flags::new();
    FightFlag::EnemyDead.handle(&mut sink, &mut state);
    // 28 + 4 = 32 crosses 10 and 21: two levels, one point left
    assert_eq!(state.inventory.get_amount("XP"), 1);
    assert_eq!(state.fight.level, 3);
    assert_eq!(state.fight.xp_to_next_level, 34);
    assert_eq!(state.inventory.get_amount("Gold"), 4);
    assert!(sink.marked().is_empty());
}

#[test]
fn experience_that_is_used_up_leaves_no_stack() {
    let mut state = State::new();
    state.fight.floor = 10;
    let mut sink: Flags<FightFlag, State> = Flags::new();
    FightFlag::EnemyDead.handle(&mut sink, &mut state);
    assert_eq!(state.inventory.get_amount("XP"), 0);
    assert_eq!(state.inventory.len(), 1);
    assert_eq!((state.fight.level, state.fight.xp_to_next_level), (2, 21));
}

#[test]
fn growth_of_the_threshold() {
    assert_eq!(xp_increase_of(0), 10);
    assert_eq!(xp_increase_of(1), 11);
    assert_eq!(xp_increase_of(2), 13);
    assert_eq!(xp_increase_of(3), 15);
    assert_eq!(xp_increase_of(4), 17);
    assert_eq!(xp_increase_of(10), 40);
    assert_eq!(xp_increase_of(1000), u64::MAX / 1000);
    assert_eq!(xp_increase_of(u32::MAX), u64::MAX / 1000);
}

#[test]
fn beating_the_required_number_unlocks_a_floor() {
    let mut state = State::new();
    state.fight.floor = 1;
    state.fight.enemy_count = 9;
    let mut sink: Flags<FightFlag, State> = Flags::new();
    FightFlag::EnemyDead.handle(&mut sink, &mut state);
    assert_eq!(state.fight.enemy_count, 0);
    assert_eq!(state.fight.enemy_required, 11);
    assert_eq!(state.fight.max_floor, 2);

    FightFlag::EnemyDead.handle(&mut sink, &mut state);
    assert_eq!(state.fight.enemy_count, 1);
    assert_eq!(state.fight.enemy_required, 11);
    assert_eq!(state.fight.max_floor, 2);
}

#[test]
fn counters_stop_at_their_limits() {
    let mut state = State::new();
    state.fight.max_floor = u32::MAX;
    state.fight.enemy_required = u32::MAX;
    state.fight.enemy_count = u32::MAX;
    state.fight.level = u32::MAX;
    state.fight.xp_to_next_level = 1;
    state.fight.floor = 1;
    let mut sink: Flags<FightFlag, State> = Flags::new();
    FightFlag::EnemyDead.handle(&mut sink, &mut state);
    assert_eq!(state.fight.max_floor, u32::MAX);
    assert_eq!(state.fight.enemy_required, u32::MAX);
    assert_eq!(state.fight.enemy_count, 0);
    assert_eq!(state.fight.level, u32::MAX);
}

#[test]
fn respawn_needs_a_floor_above_zero() {
    let mut state = State::new();
    let mut sink: Flags<FightFlag, State> = Flags::new();
    FightFlag::Respawn.handle(&mut sink, &mut state);
    assert_eq!(state.fight.enemy, None);
    state.fight.floor = 3;
    state.fight.enemy_timer = 5;
    FightFlag::Respawn.handle(&mut sink, &mut state);
    assert_eq!(state.fight.enemy, Some(get_enemy(3)));
    assert_eq!(state.fight.enemy_timer, 2000);
}

#[test]
fn attacks_without_an_enemy_do_nothing() {
    let mut state = State::new();
    state.fight.attack_timer = 0;
    state.fight.enemy_timer = 0;
    let mut sink: Flags<FightFlag, State> = Flags::new();
    FightFlag::Attack.handle(&mut sink, &mut state);
    FightFlag::EnemyAttack.handle(&mut sink, &mut state);
    assert_eq!(state.fight.attack_timer, 0);
    assert_eq!(state.fight.enemy_timer, 0);
    assert_eq!(state.fight.player.health, 10_000);
    assert!(sink.marked().is_empty());
}

#[test]
fn halving_gold_rounds_down() {
    for (before, after) in [(0u64, 0u64), (1, 0), (2, 1), (5, 2), (u64::MAX, u64::MAX / 2)] {
        let mut state = State::new();
        state.inventory.add("Gold", before);
        let mut sink: Flags<FightFlag, State> = Flags::new();
        FightFlag::PlayerDead.handle(&mut sink, &mut state);
        assert_eq!(state.inventory.get_amount("Gold"), after);
        assert!(after <= before);
    }
}

#[test]
fn floors_stay_within_bounds() {
    let mut feature = FightFeature::default();
    let mut data = FightData::default();
    process_input(&mut feature, Key::Left, &mut data);
    assert_eq!(data.floor, 0);
    process_input(&mut feature, Key::Right, &mut data);
    assert_eq!(data.floor, 1);
    process_input(&mut feature, Key::Right, &mut data);
    assert_eq!(data.floor, 1);
    process_input(&mut feature, Key::Left, &mut data);
    process_input(&mut feature, Key::Left, &mut data);
    assert_eq!(data.floor, 0);
}

#[test]
fn changing_floor_restarts_the_encounter() {
    let mut feature = FightFeature::default();
    let mut data = FightData::default();
    data.attack_timer = 3;
    data.enemy_timer = 4;
    process_input(&mut feature, Key::Right, &mut data);
    assert_eq!(
        (data.respawn_timer, data.attack_timer, data.enemy_timer),
        (3000, 1500, 2000)
    );
    data.enemy = Some(get_enemy(1));
    data.attack_timer = 3;
    // at the highest floor: no change of floor, nothing restarts
    process_input(&mut feature, Key::Right, &mut data);
    assert_eq!(data.enemy, Some(get_enemy(1)));
    assert_eq!(data.attack_timer, 3);
    process_input(&mut feature, Key::Left, &mut data);
    assert_eq!(data.enemy, None);
    assert_eq!(data.attack_timer, 1500);
}

#[test]
fn attack_is_rate_limited_and_other_keys_are_ignored() {
    let mut feature = FightFeature::default();
    let mut data = FightData::default();
    let before = data;
    process_input(&mut feature, Key::Char('a'), &mut data);
    assert_eq!(data, before);
    assert!(!feature.flags.is_marked(&FightFlag::Attack));
    for key in [Key::Char('x'), Key::Esc, Key::Enter, Key::Null, Key::Other] {
        process_input(&mut feature, key, &mut data);
        assert_eq!(data, before);
    }
    data.attack_timer = 0;
    process_input(&mut feature, Key::Char('a'), &mut data);
    assert_eq!(data.attack_timer, 1500);
    assert!(feature.flags.is_marked(&FightFlag::Attack));
}

#[test]
fn timers_run_only_when_they_should() {
    let mut feature = FightFeature::default();
    let mut data = FightData::default();
    data.respawn_timer = 3000;
    // floor 0: nothing runs
    update_timers(&mut feature, 100, &mut data);
    assert_eq!((data.respawn_timer, data.attack_timer, data.enemy_timer), (3000, 1500, 2000));
    data.floor = 1;
    update_timers(&mut feature, 100, &mut data);
    assert_eq!((data.respawn_timer, data.attack_timer, data.enemy_timer), (2900, 1500, 2000));
    update_timers(&mut feature, 2900, &mut data);
    assert_eq!(data.respawn_timer, 3000);
    assert!(feature.flags.is_marked(&FightFlag::Respawn));
    assert!(!feature.flags.is_marked(&FightFlag::EnemyAttack));

    data.enemy = Some(get_enemy(1));
    update_timers(&mut feature, 1600, &mut data);
    assert_eq!((data.respawn_timer, data.attack_timer, data.enemy_timer), (3000, 0, 400));
    update_timers(&mut feature, 500, &mut data);
    assert_eq!((data.attack_timer, data.enemy_timer), (0, 0));
    assert!(feature.flags.is_marked(&FightFlag::EnemyAttack));
}

#[test]
fn a_full_round_from_the_start() {
    let mut state = State::new();
    let mut feature = FightFeature::default();
    tick(&mut feature, &mut state, Key::Right, 100);
    assert_eq!(state.fight.floor, 1);
    assert_eq!(state.fight.respawn_timer, 2900);
    for _ in 0..29 {
        tick(&mut feature, &mut state, Key::Null, 100);
    }
    assert!(feature.flags.is_marked(&FightFlag::Respawn));
    assert_eq!(state.fight.enemy, None);
    tick(&mut feature, &mut state, Key::Null, 100);
    assert_eq!(state.fight.enemy.unwrap().max_health, 5000);
    // health and floor stay within their bounds throughout
    for step in 0..400 {
        let key = if step % 3 == 0 { Key::Char('a') } else { Key::Null };
        tick(&mut feature, &mut state, key, 100);
        assert!(state.fight.player.health <= state.fight.player.max_health);
        assert!(state.fight.floor <= state.fight.max_floor);
        if let Some(e) = state.fight.enemy {
            assert!(e.health <= e.max_health);
        }
    }
    assert!(state.fight.enemy_count > 0);
    assert!(state.inventory.get_amount("Gold") <= state.fight.enemy_count as u64);
}

#[test]
fn render_shows_three_lines() {
    let mut state = fighting(3000);
    state.inventory.add("Gold", 12);
    let feature = FightFeature::default();
    let lines = feature.render(&state, &Vec::new());
    let texts: Vec<&str> = lines.iter().map(|l| l.text.as_str()).collect();
    assert_eq!(
        texts,
        vec![
            "Floor: 1 | Gold: 12 | Level: 1 | XP: 0/10",
            "Enemy goal: 0/10 | Enemy HP: 3.00 | Enemy attack: 2.00",
            "Player HP: 10.00/10.00 | Damage: 1.00 | Attack: 1.50",
        ]
    );
    state.fight.enemy = Some(Living { attack: 1600, defense: 250, health: 16_999, max_health: 17_000 });
    let lines = feature.render(&state, &Vec::new());
    assert_eq!(
        lines[1].text,
        "Enemy goal: 0/10 | Enemy defense: 0.25 | Enemy HP: 16.99 | Enemy attack: 2.00"
    );
    state.fight.enemy = None;
    assert_eq!(feature.render(&state, &Vec::new())[1].text, "No enemy");
    state.fight.respawn_timer = 1250;
    assert_eq!(feature.render(&state, &Vec::new())[1].text, "Respawn in 1.25");
    assert!(lines.iter().all(|l| l.tint.is_none() && !l.bold && !l.italic));
}

#[test]
fn info_and_top_bar() {
    let feature = FightFeature::default();
    let info = feature.get_info();
    assert_eq!(info.key, Key::Char('f'));
    assert_eq!(info.name.text, "Fight");
    assert_eq!((info.visible_count, info.unlock_count), (0, 10));
    assert!(info.counter_string.is_none());
    let state = State::new();
    assert!(feature.is_unlocked(&state));
    let bar = feature.get_top_bar(&state);
    let texts: Vec<&str> = bar.iter().map(|l| l.text.as_str()).collect();
    assert_eq!(texts, vec![" [<]Go down a floor ", "[>]Go up a floor ", "[a]Attack"]);
}
