use rpg_core::actions::Action;
use rpg_core::animation::Animation;
use rpg_core::battle_menus::none_menu;
use rpg_core::data::{darrel_deen, test_circle};
use rpg_core::enemy::{SIGNAL_AWARD_EXPERIENCE, SIGNAL_NONE, SIGNAL_RUN_SCRIPT, SIGNAL_TURN_OVER};
use rpg_core::print_damage::PrintDamage;
use rpg_core::sfx::SfxRequest;

#[test]
fn hurt_member_takes_damage_exactly_once_at_frame_twenty() {
    let mut member = darrel_deen(1);
    let mut menu = none_menu();
    let mut print_damage = PrintDamage::new();
    let mut sfx: Vec<SfxRequest> = Vec::new();
    // An incoming 120 against defence 7 lands 85 when the timeline reaches
    // its damage frame.
    member.receive_battle_action(Action::PhysicalAttack, 120);
    let mut hp_changes = 0;
    let mut last_hp = member.get_battle_state().get_hp();
    for _ in 0..40 {
        member.update(&mut menu, &mut print_damage, &mut sfx);
        let hp = member.get_battle_state().get_hp();
        if hp != last_hp {
            hp_changes += 1;
            assert_eq!(member.animation.get_frames_remaining(), 20);
            assert_eq!(hp, 9999 - 85);
            last_hp = hp;
        }
    }
    assert_eq!(hp_changes, 1);
    assert!(print_damage.is_visible());
    assert_eq!(print_damage.value, 120);
    assert_eq!(sfx, vec![SfxRequest::PhysicalHit]);
}

#[test]
fn member_turn_runs_start_menu_attack_end() {
    let mut member = darrel_deen(1);
    let mut menu = none_menu();
    let mut print_damage = PrintDamage::new();
    let mut sfx: Vec<SfxRequest> = Vec::new();
    member.start_turn();
    assert!(member.get_battle_state().is_turn_active());
    // The walk-in takes 12 ticks and then opens the action menu.
    for _ in 0..12 {
        assert!(!member.update(&mut menu, &mut print_damage, &mut sfx));
    }
    assert!(menu.is_open());
    assert_eq!(menu.selectables.len(), 6);
    // The attack chains into the end-of-turn walk, whose completion reports
    // the turn fully over.
    member.perform_battle_action();
    let mut turn_done = false;
    for _ in 0..50 {
        if member.update(&mut menu, &mut print_damage, &mut sfx) {
            turn_done = true;
            break;
        }
    }
    assert!(turn_done);
    assert!(!member.get_battle_state().is_turn_active());
    assert_eq!(member.get_battle_state().atb, 0);
}

#[test]
fn enemy_turn_signals_script_then_turn_over() {
    let mut enemy = test_circle(5);
    let mut print_damage = PrintDamage::new();
    let mut sfx: Vec<SfxRequest> = Vec::new();
    enemy.start_turn();
    let mut signals = Vec::new();
    for _ in 0..40 {
        let signal = enemy.update(700, 180, &mut print_damage, &mut sfx);
        if signal != SIGNAL_NONE {
            signals.push((enemy.animation.get_frames_remaining(), signal));
        }
    }
    // The behaviour script fires at the attack's action frame; the turn ends
    // with the timeline.
    assert_eq!(signals, vec![(24, SIGNAL_RUN_SCRIPT), (0, SIGNAL_TURN_OVER)]);
    assert!(!enemy.get_battle_state().is_turn_active());
}

#[test]
fn falling_enemy_signals_its_experience_exactly_once() {
    let mut enemy = test_circle(5);
    let mut print_damage = PrintDamage::new();
    let mut sfx: Vec<SfxRequest> = Vec::new();
    // 120 against defence 7 lands 85, past its 10 hit points.
    enemy.receive_battle_action(Action::PhysicalAttack, 120);
    let mut award_signals = 0;
    for _ in 0..40 {
        let signal = enemy.update(700, 180, &mut print_damage, &mut sfx);
        if signal == SIGNAL_AWARD_EXPERIENCE {
            award_signals += 1;
            assert_eq!(enemy.animation.get_frames_remaining(), 20);
            assert_eq!(enemy.get_battle_state().get_hp(), 0);
        }
    }
    assert_eq!(award_signals, 1);
    // After the hurt timeline plays out the enemy lies dead and fades.
    assert!(matches!(enemy.animation.get_current_animation(), Animation::Dead));
}

#[test]
fn self_damage_on_own_turn_plays_the_short_recoil() {
    let mut member = darrel_deen(1);
    member.start_turn();
    member.receive_battle_action(Action::PhysicalAttack, 10);
    assert!(matches!(
        member.animation.get_current_animation(),
        Animation::HurtSelf(Action::PhysicalAttack, 10)
    ));
    assert_eq!(member.animation.get_frames_remaining(), 24);
    let mut other = darrel_deen(2);
    other.receive_battle_action(Action::PhysicalAttack, 10);
    assert!(matches!(
        other.animation.get_current_animation(),
        Animation::Hurt(Action::PhysicalAttack, 10)
    ));
    assert_eq!(other.animation.get_frames_remaining(), 40);
}
