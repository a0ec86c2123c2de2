use rpg_core::state::{BattleState, ATB_FULL};

fn fresh_state(agi: u32) -> BattleState {
    BattleState::new(1, 100, 10, 12, 7, 5, 3, 7, agi)
}

#[test]
fn reduce_hp_normal_damage() {
    let mut s = fresh_state(10);
    s.reduce_hp(30);
    assert_eq!(s.get_hp(), 70);
}

#[test]
fn reduce_hp_clamps_at_zero_on_overkill() {
    let mut s = fresh_state(10);
    s.reduce_hp(65535);
    assert_eq!(s.get_hp(), 0);
    s.reduce_hp(1);
    assert_eq!(s.get_hp(), 0);
}

#[test]
fn reduce_hp_exact_kill() {
    let mut s = fresh_state(10);
    s.reduce_hp(100);
    assert_eq!(s.get_hp(), 0);
}

#[test]
fn atb_saturates_at_exact_tick_count_for_agility_ten() {
    // 5 * 255 = 1275 agility points fill the meter; at 10 a tick that is
    // ceil(1275 / 10) = 128 ticks.
    let mut s = fresh_state(10);
    for tick in 1..=127u32 {
        s.update();
        assert!(!s.is_atb_full(), "meter full too early, tick {}", tick);
    }
    s.update();
    assert!(s.is_atb_full());
}

#[test]
fn atb_saturates_at_exact_tick_count_for_agility_seventeen() {
    // ceil(1275 / 17) = 75 ticks.
    let mut s = fresh_state(17);
    for _ in 0..74 {
        s.update();
        assert!(!s.is_atb_full());
    }
    s.update();
    assert!(s.is_atb_full());
}

#[test]
fn dead_combatants_never_accumulate_atb() {
    let mut s = fresh_state(200);
    s.reduce_hp(100);
    for _ in 0..1000 {
        s.update();
    }
    assert!(!s.is_atb_full());
    assert_eq!(s.atb, 0);
}

#[test]
fn full_meter_rolls_over_on_the_next_accumulation() {
    let mut s = fresh_state(10);
    for _ in 0..128 {
        s.update();
    }
    assert!(s.is_atb_full());
    s.update();
    assert!(!s.is_atb_full());
    assert_eq!(s.atb, 2);
}

#[test]
fn end_turn_resets_meter_and_carry_completely() {
    let mut s = fresh_state(13);
    for _ in 0..50 {
        s.update();
    }
    s.start_turn();
    assert!(s.is_turn_active());
    s.end_turn();
    assert!(!s.is_turn_active());
    assert_eq!(s.atb, 0);
    assert_eq!(s.atb_subtick, 0);
}

#[test]
fn add_experience_levels_up_through_thresholds() {
    // Threshold from level 1 is 150 - 100 = 50; from level 2 it is 500.
    let mut s = fresh_state(10);
    s.add_experience(500);
    assert_eq!(s.level, 2);
    assert_eq!(s.get_experience(), 450);
}

#[test]
fn add_experience_multi_level_jump_in_one_call() {
    // 50 + 500 = 550 spent reaching level 3; threshold there is 1250.
    let mut s = fresh_state(10);
    s.add_experience(1000);
    assert_eq!(s.level, 3);
    assert_eq!(s.get_experience(), 450);
}

#[test]
fn experience_in_one_lump_equals_many_small_batches() {
    let mut lump = fresh_state(10);
    lump.add_experience(500);
    let mut steps = fresh_state(10);
    for _ in 0..10 {
        steps.add_experience(50);
    }
    assert_eq!(lump.level, steps.level);
    assert_eq!(lump.get_experience(), steps.get_experience());
}

#[test]
fn experience_batching_holds_for_uneven_splits() {
    let mut lump = fresh_state(10);
    lump.add_experience(12345);
    let mut steps = fresh_state(10);
    steps.add_experience(1);
    steps.add_experience(11999);
    steps.add_experience(345);
    assert_eq!(lump.level, steps.level);
    assert_eq!(lump.get_experience(), steps.get_experience());
}
