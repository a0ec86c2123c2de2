use rpg_core::battle::{Battle, FightingState};
use rpg_core::character::Character;
use rpg_core::data::{darrel_deen, nurse_seraphine, test_circle, TEST_CIRCLE_EXPERIENCE};
use rpg_core::enemy::Enemy;
use rpg_core::input::{InputSnapshot, TickRandom};
use rpg_core::notification::Notification;
use rpg_core::sfx::SfxRequest;
use rpg_core::transition::{Transition, TransitionStyle};

fn slow_enemy(id: usize) -> Enemy {
    // The scenario enemy: 10 hit points, defence 7, too slow to ever act.
    Enemy::new(
        "test-circle".to_owned(),
        "Circle".to_owned(),
        id,
        1,
        10,
        32,
        12,
        7,
        5,
        3,
        7,
        1,
        TEST_CIRCLE_EXPERIENCE,
        rpg_core::enemy::EnemyScript::AttackRandomPartyMember,
    )
}

fn tick(
    battle: &mut Battle,
    party: &mut Vec<Character>,
    transition: &mut Transition,
    notification: &mut Notification,
    input: &InputSnapshot,
    sfx: &mut Vec<SfxRequest>,
) {
    let rng = TickRandom::new(10, 0);
    battle.update(party, transition, notification, input, &rng, sfx);
}

/// A lone member with agility 10 against one slow enemy with 10 hit points
/// and defence 7: one mid-range physical attack deals floor((12*10*5)/7) = 85
/// damage, far past 10, so the enemy falls on the first turn, the fight
/// passes from Fighting to Victory, and the battle fades out to the
/// experience screen carrying the enemy's reward.
#[test]
fn lone_member_defeats_slow_enemy_and_wins() {
    let mut party = vec![darrel_deen(1)];
    let mut battle = Battle::new();
    battle.enemies = vec![vec![slow_enemy(5)]];
    battle.set_fighting_state(true);
    let mut transition = Transition::new();
    let mut notification = Notification::new();
    let mut sfx: Vec<SfxRequest> = Vec::new();
    let idle = InputSnapshot::idle();
    let mut confirm = InputSnapshot::idle();
    confirm.confirm = true;

    let mut saw_victory = false;
    let mut enemy_hp_after_hit: Option<u16> = None;
    let mut ticks = 0usize;
    loop {
        ticks += 1;
        assert!(ticks < 600, "battle did not resolve in time");
        // Press confirm whenever a menu is open (choose Attack, then the
        // enemy, whose targeting cursor already rests on it).
        let input = if battle.get_battle_menu().is_open() { &confirm } else { &idle };
        tick(&mut battle, &mut party, &mut transition, &mut notification, input, &mut sfx);
        if battle.enemies[0][0].get_battle_state().get_hp() == 0 && enemy_hp_after_hit.is_none() {
            enemy_hp_after_hit = Some(0);
        }
        if battle.get_fighting_state() == FightingState::Victory {
            saw_victory = true;
        }
        if matches!(transition.get_style(), TransitionStyle::BattleEndScreen(_)) {
            break;
        }
    }
    assert!(saw_victory);
    assert_eq!(enemy_hp_after_hit, Some(0));
    assert_eq!(notification.get_text(), "Attack");
    assert!(sfx.contains(&SfxRequest::PhysicalHit));
    assert!(matches!(
        transition.get_style(),
        TransitionStyle::BattleEndScreen(TEST_CIRCLE_EXPERIENCE)
    ));
    assert_eq!(battle.get_experience_gained(), TEST_CIRCLE_EXPERIENCE);

    // Ride the transition out to the experience screen and count the pot up:
    // the lone living member collects the whole reward.
    let mut screen = rpg_core::menus::none_menu();
    for _ in 0..10 {
        transition.update(&mut party, &mut battle, &mut screen);
        if screen.is_open() {
            break;
        }
    }
    assert!(screen.is_open());
    let mut grid: Vec<Vec<Enemy>> = vec![Vec::new()];
    screen.update(
        &confirm,
        &mut party,
        &mut grid,
        &mut transition,
        &mut notification,
        10,
        &mut sfx,
    );
    for _ in 0..TEST_CIRCLE_EXPERIENCE + 2 {
        screen.update(
            &idle,
            &mut party,
            &mut grid,
            &mut transition,
            &mut notification,
            10,
            &mut sfx,
        );
    }
    assert!(screen.get_mutation().is_none());
    assert_eq!(party[0].get_battle_state().get_experience(), TEST_CIRCLE_EXPERIENCE);
    assert_eq!(party[0].state.level, 1);
}

/// Combatants whose hit points are already zero never enter the turn queue
/// and never appear in targeting lists.
#[test]
fn the_fallen_never_queue_and_are_never_targetable() {
    let mut party = vec![darrel_deen(1), nurse_seraphine(2)];
    party[1].get_battle_state_mut().reduce_hp(60000);
    let mut battle = Battle::new();
    battle.enemies = vec![vec![test_circle(5), test_circle(6)]];
    battle.enemies[0][1].get_battle_state_mut().reduce_hp(60000);
    battle.set_fighting_state(true);
    let mut transition = Transition::new();
    let mut notification = Notification::new();
    let mut sfx: Vec<SfxRequest> = Vec::new();
    let idle = InputSnapshot::idle();
    let mut confirm = InputSnapshot::idle();
    confirm.confirm = true;

    let dead_ids = [2usize, 6];
    for _ in 0..400 {
        let input = if battle.get_battle_menu().is_open() { &confirm } else { &idle };
        tick(&mut battle, &mut party, &mut transition, &mut notification, input, &mut sfx);
        for id in dead_ids {
            assert!(
                !battle.get_active_turns().contains(&id),
                "dead combatant {} entered the queue",
                id
            );
            assert_ne!(battle.get_current_turn(), id);
        }
        // Whatever screen is open, no entry may target the fallen.
        for row in battle.get_battle_menu().selectables.iter() {
            for entry in row.iter() {
                if let rpg_core::menu::OnClickEvent::BattleAction(ids, _) = &entry.on_click {
                    for id in dead_ids {
                        assert!(!ids.contains(&id), "dead combatant {} offered as target", id);
                    }
                }
            }
        }
    }
}

#[test]
fn queue_assignment_pops_the_head_and_starts_that_turn() {
    let mut party = vec![darrel_deen(1)];
    let mut battle = Battle::new();
    battle.enemies = vec![vec![slow_enemy(5)]];
    battle.set_fighting_state(true);
    battle.active_turns = vec![1];
    let mut transition = Transition::new();
    let mut notification = Notification::new();
    let mut sfx: Vec<SfxRequest> = Vec::new();
    let idle = InputSnapshot::idle();
    tick(&mut battle, &mut party, &mut transition, &mut notification, &idle, &mut sfx);
    assert_eq!(battle.get_current_turn(), 1);
    assert!(battle.get_active_turns().is_empty());
    assert!(party[0].get_battle_state().is_turn_active());
}

#[test]
fn battle_starts_by_lining_up_the_party_and_fading_in() {
    let mut party = vec![darrel_deen(1), nurse_seraphine(2)];
    let mut battle = Battle::new();
    let mut transition = Transition::new();
    let formation = vec![vec![test_circle(5)]];
    battle.start_battle(&mut party, formation, &mut transition);
    assert_eq!(party[0].get_coords(), (100, 80));
    assert_eq!(party[1].get_coords(), (100, 160));
    assert_eq!(battle.get_experience_gained(), 0);
    assert!(matches!(transition.get_style(), TransitionStyle::BattleIn));
    assert_eq!(battle.enemies.len(), 1);
}

#[test]
fn not_fighting_battles_never_resolve() {
    let mut party = vec![darrel_deen(1)];
    let mut battle = Battle::new();
    battle.enemies = vec![vec![]];
    let mut transition = Transition::new();
    let mut notification = Notification::new();
    let mut sfx: Vec<SfxRequest> = Vec::new();
    let idle = InputSnapshot::idle();
    for _ in 0..50 {
        tick(&mut battle, &mut party, &mut transition, &mut notification, &idle, &mut sfx);
        assert_eq!(battle.get_fighting_state(), FightingState::NotFighting);
        assert!(!battle.is_in_battle());
    }
}
