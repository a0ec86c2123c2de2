use rpg_core::actions::{Action, BattleActionTargetStart};
use rpg_core::battle_menus::{main_battle_menu, none_menu, single_target_targeting_everyone};
use rpg_core::character::Character;
use rpg_core::data::{darrel_deen, nurse_seraphine, test_room_formation_1};
use rpg_core::enemy::Enemy;
use rpg_core::input::InputSnapshot;
use rpg_core::menu::{MenuItem, MenuMovement, MenuScreen, OnClickEvent};
use rpg_core::menus::battle_won;
use rpg_core::notification::Notification;
use rpg_core::sfx::SfxRequest;
use rpg_core::transition::Transition;

fn item(label: &str) -> MenuItem {
    MenuItem::new(label.to_owned(), 0, 0, OnClickEvent::NoEvent)
}

fn grid_menu() -> MenuScreen {
    let selectables = vec![
        vec![item("a"), item("b")],
        vec![item("c"), item("d")],
        vec![item("e")],
    ];
    MenuScreen::new(
        Vec::new(),
        selectables,
        Vec::new(),
        MenuMovement::Grid,
        0,
        0,
        OnClickEvent::NoEvent,
    )
}

fn press(down: bool, up: bool, left: bool, right: bool) -> InputSnapshot {
    let mut i = InputSnapshot::idle();
    i.down = down;
    i.up = up;
    i.left = left;
    i.right = right;
    i
}

fn tick_menu(menu: &mut MenuScreen, input: InputSnapshot) {
    let mut party: Vec<Character> = Vec::new();
    let mut enemies: Vec<Vec<Enemy>> = Vec::new();
    let mut transition = Transition::new();
    let mut notification = Notification::new();
    let mut sfx: Vec<SfxRequest> = Vec::new();
    menu.update(
        &input,
        &mut party,
        &mut enemies,
        &mut transition,
        &mut notification,
        10,
        &mut sfx,
    );
}

#[test]
fn grid_cursor_moves_within_bounds() {
    let mut m = grid_menu();
    tick_menu(&mut m, press(true, false, false, false));
    assert_eq!((m.cursor_x, m.cursor_y), (0, 1));
    tick_menu(&mut m, press(true, false, false, false));
    assert_eq!((m.cursor_x, m.cursor_y), (0, 2));
    // Row 3 does not exist: stays put.
    tick_menu(&mut m, press(true, false, false, false));
    assert_eq!((m.cursor_x, m.cursor_y), (0, 2));
    tick_menu(&mut m, press(false, true, false, false));
    assert_eq!((m.cursor_x, m.cursor_y), (0, 1));
    tick_menu(&mut m, press(false, false, false, true));
    assert_eq!((m.cursor_x, m.cursor_y), (1, 1));
    // Moving up into row 0 keeps column 1 because row 0 is wide enough.
    tick_menu(&mut m, press(false, true, false, false));
    assert_eq!((m.cursor_x, m.cursor_y), (1, 0));
    tick_menu(&mut m, press(false, false, true, false));
    assert_eq!((m.cursor_x, m.cursor_y), (0, 0));
}

#[test]
fn grid_cursor_refuses_rows_that_are_too_narrow() {
    let mut m = grid_menu();
    tick_menu(&mut m, press(false, false, false, true));
    tick_menu(&mut m, press(true, false, false, false));
    assert_eq!((m.cursor_x, m.cursor_y), (1, 1));
    // Row 2 has one entry; from column 1 the cursor cannot move down into it.
    tick_menu(&mut m, press(true, false, false, false));
    assert_eq!((m.cursor_x, m.cursor_y), (1, 1));
}

#[test]
fn empty_screen_is_closed_and_ignores_input() {
    let mut m = none_menu();
    assert!(!m.is_open());
    tick_menu(&mut m, press(true, false, false, false));
    assert_eq!((m.cursor_x, m.cursor_y), (0, 0));
}

#[test]
fn main_battle_menu_lists_the_abilities_in_order() {
    let c = darrel_deen(1);
    let m = main_battle_menu(&c);
    assert!(m.is_open());
    assert_eq!(m.selectables.len(), 6);
    assert_eq!(m.selectables[0][0].get_text(), "Attack");
    assert_eq!(m.selectables[1][0].get_text(), "Steal");
    assert_eq!(m.selectables[2][0].get_text(), "Flee");
    assert_eq!(m.selectables[3][0].get_text(), "Item");
    assert_eq!(m.selectables[4][0].get_text(), "Defend");
    assert_eq!(m.selectables[5][0].get_text(), "Row");
    assert!(matches!(
        m.selectables[0][0].on_click,
        OnClickEvent::ToTargetSelection(Action::PhysicalAttack, BattleActionTargetStart::Enemies)
    ));
}

#[test]
fn targeting_lists_never_offer_the_fallen() {
    let mut party = vec![darrel_deen(1), nurse_seraphine(2)];
    party[1].get_battle_state_mut().reduce_hp(60000);
    let mut enemies = test_room_formation_1();
    enemies[0][1].get_battle_state_mut().reduce_hp(60000);
    enemies[1][0].get_battle_state_mut().reduce_hp(60000);
    let living = [1usize, 5, 8];
    let dead = [2usize, 7, 6];
    let m = single_target_targeting_everyone(
        &party,
        &enemies,
        Action::PhysicalAttack,
        BattleActionTargetStart::Enemies,
    );
    let mut offered: Vec<usize> = Vec::new();
    for row in m.selectables.iter() {
        assert!(!row.is_empty());
        for entry in row.iter() {
            match &entry.on_click {
                OnClickEvent::BattleAction(ids, _) => offered.extend(ids.iter().copied()),
                _ => panic!("targeting entry without a battle action"),
            }
        }
    }
    for id in living {
        assert!(offered.contains(&id), "living id {} missing", id);
    }
    for id in dead {
        assert!(!offered.contains(&id), "dead id {} offered", id);
    }
}

#[test]
fn targeting_rows_with_no_survivors_are_dropped() {
    let party = vec![darrel_deen(1)];
    let mut enemies = test_room_formation_1();
    enemies[0][0].get_battle_state_mut().reduce_hp(60000);
    enemies[0][1].get_battle_state_mut().reduce_hp(60000);
    let m = single_target_targeting_everyone(
        &party,
        &enemies,
        Action::PhysicalAttack,
        BattleActionTargetStart::Enemies,
    );
    // One row for the party, one for the surviving enemy column.
    assert_eq!(m.selectables.len(), 2);
}

#[test]
fn battle_won_rounds_the_pot_to_the_living_count() {
    let mut party = vec![darrel_deen(1), nurse_seraphine(2), darrel_deen(3)];
    party[2].get_battle_state_mut().reduce_hp(60000);
    // Two living members and 31 experience: padded to 32.
    let m = battle_won(&party, 31);
    assert!(matches!(
        m.selectables[0][0].on_click,
        OnClickEvent::MutateMenu(rpg_core::menu::MenuMutationKind::BeginExperienceCount(32))
    ));
    assert_eq!(m.unselectables[1].get_text(), "32");
}

#[test]
fn experience_count_up_hands_out_one_point_per_tick() {
    let mut party = vec![darrel_deen(1), nurse_seraphine(2)];
    let mut menu = battle_won(&party, 6);
    let mut enemies: Vec<Vec<Enemy>> = Vec::new();
    let mut transition = Transition::new();
    let mut notification = Notification::new();
    let mut sfx: Vec<SfxRequest> = Vec::new();
    let mut confirm = InputSnapshot::idle();
    confirm.confirm = true;
    // Click continue: the count-up starts and already runs its first tick,
    // handing every living member one point.
    menu.update(
        &confirm,
        &mut party,
        &mut enemies,
        &mut transition,
        &mut notification,
        10,
        &mut sfx,
    );
    let m = menu.get_mutation().expect("count-up should be running");
    assert_eq!(m.remaining, 4);
    assert!(!m.finishing);
    assert_eq!(party[0].get_battle_state().get_experience(), 1);
    assert_eq!(party[1].get_battle_state().get_experience(), 1);
    // Each further idle tick hands out another point each.
    let idle = InputSnapshot::idle();
    menu.update(&idle, &mut party, &mut enemies, &mut transition, &mut notification, 10, &mut sfx);
    assert_eq!(menu.get_mutation().unwrap().remaining, 2);
    menu.update(&idle, &mut party, &mut enemies, &mut transition, &mut notification, 10, &mut sfx);
    assert_eq!(menu.get_mutation().unwrap().remaining, 0);
    assert_eq!(party[0].get_battle_state().get_experience(), 3);
    // The emptied pot ends the count-up on the next tick.
    menu.update(&idle, &mut party, &mut enemies, &mut transition, &mut notification, 10, &mut sfx);
    assert!(menu.get_mutation().is_none());
    assert!(sfx.contains(&SfxRequest::CounterTick));
}

#[test]
fn finishing_the_count_up_dumps_the_rest_at_once() {
    let mut party = vec![darrel_deen(1), nurse_seraphine(2)];
    let mut menu = battle_won(&party, 100);
    let mut enemies: Vec<Vec<Enemy>> = Vec::new();
    let mut transition = Transition::new();
    let mut notification = Notification::new();
    let mut sfx: Vec<SfxRequest> = Vec::new();
    let mut confirm = InputSnapshot::idle();
    confirm.confirm = true;
    menu.update(
        &confirm,
        &mut party,
        &mut enemies,
        &mut transition,
        &mut notification,
        10,
        &mut sfx,
    );
    assert_eq!(menu.get_mutation().unwrap().remaining, 98);
    assert_eq!(party[0].get_battle_state().get_experience(), 1);
    // A second click on continue asks to finish; the same tick splits the
    // rest evenly: 1 from the counting tick plus 98 / 2 = 49 each.
    menu.update(
        &confirm,
        &mut party,
        &mut enemies,
        &mut transition,
        &mut notification,
        10,
        &mut sfx,
    );
    assert_eq!(menu.get_mutation().unwrap().remaining, 0);
    // 50 earned: the level-1 member crosses its threshold of exactly 50 and
    // levels up with nothing left over; the level-2 member keeps all 50.
    assert_eq!(party[0].state.level, 2);
    assert_eq!(party[0].get_battle_state().get_experience(), 0);
    assert_eq!(party[1].state.level, 2);
    assert_eq!(party[1].get_battle_state().get_experience(), 50);
}
