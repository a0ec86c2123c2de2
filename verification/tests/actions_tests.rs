use rpg_core::actions::Action;
use rpg_core::notification::Notification;
use rpg_core::state::BattleState;

#[test]
fn physical_attack_computes_attack_times_draw() {
    let mut actor = BattleState::new(1, 100, 10, 12, 7, 5, 3, 7, 10);
    let mut n = Notification::new();
    let damage = Action::PhysicalAttack.compute(&mut actor, &mut n, 10);
    assert_eq!(damage, 120);
    assert_eq!(n.get_text(), "Attack");
    assert!(n.is_visible());
    // The actor itself is untouched.
    assert_eq!(actor.get_hp(), 100);
    assert_eq!(actor.get_attack_stat(), 12);
}

#[test]
fn physical_attack_draw_range_changes_damage() {
    let mut actor = BattleState::new(1, 100, 10, 12, 7, 5, 3, 7, 10);
    let mut n = Notification::new();
    assert_eq!(Action::PhysicalAttack.compute(&mut actor, &mut n, 9), 108);
    assert_eq!(Action::PhysicalAttack.compute(&mut actor, &mut n, 11), 132);
}

#[test]
fn applied_damage_scales_against_defence_and_truncates() {
    // floor((12 * 10 * 5) / 7) = floor(600 / 7) = 85.
    let mut target = BattleState::new(1, 200, 10, 9, 7, 5, 3, 7, 10);
    Action::PhysicalAttack.apply(&mut target, 120);
    assert_eq!(target.get_hp(), 200 - 85);
}

#[test]
fn applied_damage_is_capped() {
    let mut target = BattleState::new(1, 65535, 10, 9, 1, 5, 3, 7, 10);
    Action::PhysicalAttack.apply(&mut target, 1_000_000);
    assert_eq!(target.get_hp(), 65535 - 9999);
}

#[test]
fn applied_damage_clamps_hit_points_at_zero() {
    let mut target = BattleState::new(1, 10, 10, 9, 7, 5, 3, 7, 10);
    Action::PhysicalAttack.apply(&mut target, 120);
    assert_eq!(target.get_hp(), 0);
    Action::PhysicalAttack.apply(&mut target, 120);
    assert_eq!(target.get_hp(), 0);
}

#[test]
fn notification_counts_down_and_hides() {
    let mut n = Notification::new();
    assert!(!n.is_visible());
    n.set_notification("Attack".to_owned());
    for _ in 0..59 {
        n.update();
        assert!(n.is_visible());
    }
    n.update();
    assert!(!n.is_visible());
}
