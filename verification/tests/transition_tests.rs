use rpg_core::battle::{Battle, FightingState};
use rpg_core::character::Character;
use rpg_core::data::darrel_deen;
use rpg_core::menu::MenuKind;
use rpg_core::menus::none_menu;
use rpg_core::transition::{Transition, TransitionEffect, TransitionStyle};

fn parts() -> (Vec<Character>, Battle, rpg_core::menu::MenuScreen) {
    (vec![darrel_deen(1)], Battle::new(), none_menu())
}

#[test]
fn idle_transitions_do_nothing() {
    let (mut party, mut battle, mut menu) = parts();
    let mut t = Transition::new();
    assert!(!t.is_transitioning());
    let effect = t.update(&mut party, &mut battle, &mut menu);
    assert_eq!(effect, TransitionEffect::NoEffect);
    assert_eq!(t.get_style(), TransitionStyle::Idle);
}

#[test]
fn fade_in_covers_in_five_ticks_then_fades_back_out() {
    let (mut party, mut battle, mut menu) = parts();
    let mut t = Transition::new();
    t.set(TransitionStyle::BlackIn);
    // Easing from clear: 270, 513, 731, 927, then capped at full cover.
    let expected_in = [270u32, 513, 731, 927, 1000];
    for o in expected_in {
        t.update(&mut party, &mut battle, &mut menu);
        assert_eq!(t.get_opacity_milli(), o);
    }
    assert_eq!(t.get_style(), TransitionStyle::BlackOut);
    // Easing back out: 825, 632, 420, 187, 0.
    let expected_out = [825u32, 632, 420, 187, 0];
    for o in expected_out {
        t.update(&mut party, &mut battle, &mut menu);
        assert_eq!(t.get_opacity_milli(), o);
    }
    assert_eq!(t.get_style(), TransitionStyle::Idle);
    assert!(!t.is_transitioning());
}

#[test]
fn battle_in_starts_the_fight_at_full_cover() {
    let (mut party, mut battle, mut menu) = parts();
    let mut t = Transition::new();
    t.set(TransitionStyle::BattleIn);
    for _ in 0..4 {
        t.update(&mut party, &mut battle, &mut menu);
        assert_eq!(battle.get_fighting_state(), FightingState::NotFighting);
    }
    t.update(&mut party, &mut battle, &mut menu);
    assert_eq!(battle.get_fighting_state(), FightingState::Fighting);
    assert_eq!(t.get_style(), TransitionStyle::BlackOut);
}

#[test]
fn battle_out_closes_the_menu_and_ends_the_fight() {
    let (mut party, mut battle, mut menu) = parts();
    battle.set_fighting_state(true);
    let mut t = Transition::new();
    t.set(TransitionStyle::BattleOut);
    for _ in 0..5 {
        t.update(&mut party, &mut battle, &mut menu);
    }
    assert_eq!(battle.get_fighting_state(), FightingState::NotFighting);
    assert!(!menu.is_open());
}

#[test]
fn scene_change_is_reported_exactly_at_full_cover() {
    let (mut party, mut battle, mut menu) = parts();
    let mut t = Transition::new();
    t.set(TransitionStyle::ChangeScene(rpg_core::transition::SceneKind::DebugRoom));
    for _ in 0..4 {
        let effect = t.update(&mut party, &mut battle, &mut menu);
        assert_eq!(effect, TransitionEffect::NoEffect);
    }
    let effect = t.update(&mut party, &mut battle, &mut menu);
    assert_eq!(
        effect,
        TransitionEffect::SceneChange(rpg_core::transition::SceneKind::DebugRoom)
    );
}

#[test]
fn menu_in_builds_the_named_screen_at_full_cover() {
    let (mut party, mut battle, mut menu) = parts();
    let mut t = Transition::new();
    t.set(TransitionStyle::MenuIn(MenuKind::MainMenu));
    for _ in 0..5 {
        t.update(&mut party, &mut battle, &mut menu);
    }
    assert!(menu.is_open());
    assert_eq!(menu.selectables.len(), 5);
}

#[test]
fn battle_end_screen_opens_the_experience_screen() {
    let (mut party, mut battle, mut menu) = parts();
    let mut t = Transition::new();
    t.set(TransitionStyle::BattleEndScreen(30));
    for _ in 0..5 {
        t.update(&mut party, &mut battle, &mut menu);
    }
    assert!(menu.is_open());
    assert_eq!(menu.unselectables[1].get_text(), "30");
}
