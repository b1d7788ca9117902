use idlegame::feature::fight::FightFlag;
use idlegame::feature::inventory::InventoryFlag;
use idlegame::state::State;
use idlegame::util::flag::{Flag, Flags, Variant};

const ALL: [FightFlag; 5] = [
    FightFlag::Attack,
    FightFlag::EnemyAttack,
    FightFlag::Respawn,
    FightFlag::EnemyDead,
    FightFlag::PlayerDead,
];

#[test]
fn new_queue_has_nothing_marked() {
    let q: Flags<FightFlag, State> = Flags::new();
    for f in ALL {
        assert!(!q.is_marked(&f));
    }
    assert!(q.marked().is_empty());
}

#[test]
fn variants_are_numbered_in_declaration_order() {
    assert_eq!(FightFlag::cardinality(), 5);
    for (i, f) in ALL.iter().enumerate() {
        assert_eq!(f.to_index(), i);
    }
    assert_eq!(InventoryFlag::cardinality(), 1);
    assert_eq!(InventoryFlag::ShowDetailed.to_index(), 0);
}

#[test]
fn marking_twice_is_marking_once() {
    let mut q: Flags<FightFlag, State> = Flags::new();
    q.mark(FightFlag::Respawn);
    q.mark(FightFlag::Respawn);
    q.mark(FightFlag::Respawn);
    assert!(q.is_marked(&FightFlag::Respawn));
    assert_eq!(q.marked(), vec![FightFlag::Respawn]);
    q.unmark(FightFlag::Respawn);
    assert!(!q.is_marked(&FightFlag::Respawn));
    assert!(q.marked().is_empty());
}

#[test]
fn marking_many_times_runs_the_handler_once() {
    let mut state = State::new();
    state.fight.floor = 2;
    let mut q: Flags<FightFlag, State> = Flags::new();
    for _ in 0..7 {
        q.mark(FightFlag::EnemyDead);
    }
    q.handle(&mut state);
    // one kill, one reward
    assert_eq!(state.fight.enemy_count, 1);
    assert_eq!(state.inventory.get_amount("Gold"), 2);
    assert!(q.marked().is_empty());
    q.handle(&mut state);
    assert_eq!(state.fight.enemy_count, 1);
    assert_eq!(state.inventory.get_amount("Gold"), 2);
}

#[test]
fn unmark_cancels_a_pending_mark() {
    let mut state = State::new();
    state.fight.floor = 2;
    let mut q: Flags<FightFlag, State> = Flags::new();
    q.mark(FightFlag::EnemyDead);
    q.mark(FightFlag::Respawn);
    q.unmark(FightFlag::EnemyDead);
    q.unmark(FightFlag::PlayerDead);
    assert_eq!(q.marked(), vec![FightFlag::Respawn]);
    q.handle(&mut state);
    assert_eq!(state.fight.enemy_count, 0);
    assert!(state.fight.enemy.is_some());
}

#[test]
fn handlers_run_in_declaration_order() {
    let orders: [[usize; 5]; 4] = [[0, 1, 2, 3, 4], [4, 3, 2, 1, 0], [2, 0, 4, 1, 3], [3, 4, 0, 2, 1]];
    for order in orders {
        let mut q: Flags<FightFlag, State> = Flags::new();
        for i in order {
            q.mark(ALL[i]);
        }
        assert_eq!(q.marked(), ALL.to_vec());
    }
    let mut q: Flags<FightFlag, State> = Flags::new();
    q.mark(FightFlag::PlayerDead);
    q.mark(FightFlag::EnemyAttack);
    assert_eq!(q.marked(), vec![FightFlag::EnemyAttack, FightFlag::PlayerDead]);
}

#[test]
fn order_of_handlers_shows_in_the_result() {
    // EnemyDead pays before PlayerDead halves, however they were marked
    for first in [FightFlag::EnemyDead, FightFlag::PlayerDead] {
        let second = if first == FightFlag::EnemyDead {
            FightFlag::PlayerDead
        } else {
            FightFlag::EnemyDead
        };
        let mut state = State::new();
        state.fight.floor = 3;
        state.fight.max_floor = 3;
        let mut q: Flags<FightFlag, State> = Flags::new();
        q.mark(first);
        q.mark(second);
        q.handle(&mut state);
        assert_eq!(state.inventory.get_amount("Gold"), 1);
        assert_eq!(state.fight.floor, 0);
    }
}

#[test]
fn raised_flags_wait_for_the_next_drain() {
    let mut state = State::new();
    state.fight.floor = 1;
    state.fight.enemy = Some(idlegame::feature::fight::Living {
        attack: 20_000,
        defense: 0,
        health: 500,
        max_health: 3000,
    });
    let mut q: Flags<FightFlag, State> = Flags::new();
    q.mark(FightFlag::Attack);
    q.mark(FightFlag::EnemyAttack);
    q.handle(&mut state);
    // both died, neither death was handled in this pass
    assert_eq!(state.fight.enemy.unwrap().health, 0);
    assert_eq!(state.fight.player.health, 0);
    assert_eq!(state.fight.enemy_count, 0);
    assert_eq!(state.fight.floor, 1);
    assert_eq!(q.marked(), vec![FightFlag::EnemyDead, FightFlag::PlayerDead]);
    q.handle(&mut state);
    assert_eq!(state.fight.enemy, None);
    assert_eq!(state.fight.enemy_count, 1);
    assert_eq!(state.fight.floor, 0);
    assert_eq!(state.fight.player.health, state.fight.player.max_health);
    assert!(q.marked().is_empty());
}

#[test]
fn a_flag_raised_while_marked_runs_again_next_time() {
    let mut state = State::new();
    state.fight.floor = 1;
    state.fight.enemy = Some(idlegame::feature::fight::get_enemy(1));
    state.fight.enemy.as_mut().unwrap().health = 1000;
    let mut q: Flags<FightFlag, State> = Flags::new();
    q.mark(FightFlag::Attack);
    q.mark(FightFlag::EnemyDead);
    q.handle(&mut state);
    // Attack ran first and raised EnemyDead; the EnemyDead that was marked ran in this pass
    assert_eq!(state.fight.enemy, None);
    assert_eq!(state.fight.enemy_count, 1);
    assert_eq!(q.marked(), vec![FightFlag::EnemyDead]);
    q.handle(&mut state);
    assert_eq!(state.fight.enemy_count, 2);
    assert!(q.marked().is_empty());
}

#[test]
fn draining_an_empty_queue_changes_nothing() {
    let mut state = State::new();
    state.fight.floor = 1;
    let before = state.fight;
    let mut q: Flags<FightFlag, State> = Flags::new();
    q.handle(&mut state);
    assert_eq!(state.fight, before);
    assert_eq!(state.inventory.len(), 0);
    assert!(q.marked().is_empty());
}

#[test]
fn the_inventory_flag_is_a_switch() {
    let mut state = State::new();
    let mut q: Flags<InventoryFlag, State> = Flags::new();
    q.mark(InventoryFlag::ShowDetailed);
    let mut sink: Flags<InventoryFlag, State> = Flags::new();
    InventoryFlag::ShowDetailed.handle(&mut sink, &mut state);
    assert!(sink.marked().is_empty());
    assert!(q.is_marked(&InventoryFlag::ShowDetailed));
    q.handle(&mut state);
    assert!(!q.is_marked(&InventoryFlag::ShowDetailed));
}
