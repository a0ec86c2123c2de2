//! The game's fixed menu screens outside battle, and the battle-won screen
//! with its experience count-up.

use vstd::prelude::*;

use crate::character::{alive_members_count, living_count, Character};
use crate::menu::{
    MenuContainer, MenuItem, MenuKind, MenuMovement, MenuMutationKind, MenuScreen, OnClickEvent,
};
use crate::strings::{decimal_chars, u32_to_string};
use crate::transition::{SceneKind, TransitionStyle};

verus! {

/// The title screen's shape.
pub open spec fn is_title_menu(m: MenuScreen) -> bool {
    &&& m.selectables@.len() == 3
    &&& m.selectables@[2]@[0].on_click == OnClickEvent::ChangeScene(SceneKind::DebugRoom)
    &&& m.cursor_x == 0
    &&& m.cursor_y == 2
    &&& m.return_action is NoEvent
    &&& m.mutation is None
}

/// The pause menu's shape.
pub open spec fn is_main_menu(m: MenuScreen) -> bool {
    &&& m.selectables@.len() == 5
    &&& m.selectables@[0]@[0].on_click == OnClickEvent::MenuTransition(
        TransitionStyle::MenuIn(MenuKind::ItemMenu),
    )
    &&& m.return_action == OnClickEvent::MenuTransition(TransitionStyle::MenuIn(MenuKind::NoMenu))
    &&& m.mutation is None
}

/// The item screen's shape.
pub open spec fn is_item_menu(m: MenuScreen) -> bool {
    &&& m.selectables@.len() == 0
    &&& m.containers@.len() == 1
    &&& m.return_action == OnClickEvent::MenuTransition(TransitionStyle::MenuIn(MenuKind::MainMenu))
    &&& m.mutation is None
}

/// What `build_menu` produces for each name.
pub open spec fn is_built_menu(kind: MenuKind, m: MenuScreen) -> bool {
    match kind {
        MenuKind::NoMenu => crate::battle_menus::is_none_menu(m),
        MenuKind::TitleMenu => is_title_menu(m),
        MenuKind::MainMenu => is_main_menu(m),
        MenuKind::ItemMenu => is_item_menu(m),
    }
}

pub fn none_menu() -> (m: MenuScreen)
    ensures
        m.wf(),
        crate::battle_menus::is_none_menu(m),
{
    crate::battle_menus::none_menu()
}

/// The title screen: new game, continue, and the debug room.
pub fn title_menu() -> (m: MenuScreen)
    ensures
        m.wf(),
        is_title_menu(m),
        m.selectables@.len() == 3,
        m.selectables@[2]@[0].on_click == OnClickEvent::ChangeScene(SceneKind::DebugRoom),
        m.cursor_x == 0,
        m.cursor_y == 2,
        m.return_action is NoEvent,
{
    let mut selectables: Vec<Vec<MenuItem>> = Vec::new();
    let mut row0: Vec<MenuItem> = Vec::new();
    row0.push(MenuItem::new("New Game".to_owned(), 476, 400, OnClickEvent::NoEvent));
    selectables.push(row0);
    let mut row1: Vec<MenuItem> = Vec::new();
    row1.push(MenuItem::new("Continue".to_owned(), 476, 432, OnClickEvent::NoEvent));
    selectables.push(row1);
    let mut row2: Vec<MenuItem> = Vec::new();
    row2.push(
        MenuItem::new(
            "Debug room".to_owned(),
            456,
            464,
            OnClickEvent::ChangeScene(SceneKind::DebugRoom),
        ),
    );
    selectables.push(row2);
    MenuScreen::new(
        Vec::new(),
        selectables,
        Vec::new(),
        MenuMovement::Grid,
        0,
        2,
        OnClickEvent::NoEvent,
    )
}

/// The pause menu: the item screen is reachable, the rest are stubs; backing
/// out fades the menu away.
pub fn main_menu() -> (m: MenuScreen)
    ensures
        m.wf(),
        is_main_menu(m),
        m.selectables@.len() == 5,
        m.selectables@[0]@[0].on_click == OnClickEvent::MenuTransition(
            TransitionStyle::MenuIn(MenuKind::ItemMenu),
        ),
        m.return_action == OnClickEvent::MenuTransition(TransitionStyle::MenuIn(MenuKind::NoMenu)),
{
    let mut containers: Vec<MenuContainer> = Vec::new();
    containers.push(MenuContainer::new(16, 16, 232, 256));
    containers.push(MenuContainer::new(256, 16, 1064, 704));
    let mut selectables: Vec<Vec<MenuItem>> = Vec::new();
    let mut row0: Vec<MenuItem> = Vec::new();
    row0.push(
        MenuItem::new(
            "Item".to_owned(),
            70,
            48,
            OnClickEvent::MenuTransition(TransitionStyle::MenuIn(MenuKind::ItemMenu)),
        ),
    );
    selectables.push(row0);
    let mut row1: Vec<MenuItem> = Vec::new();
    row1.push(MenuItem::new("Skill".to_owned(), 70, 80, OnClickEvent::NoEvent));
    selectables.push(row1);
    let mut row2: Vec<MenuItem> = Vec::new();
    row2.push(MenuItem::new("Equip".to_owned(), 70, 112, OnClickEvent::NoEvent));
    selectables.push(row2);
    let mut row3: Vec<MenuItem> = Vec::new();
    row3.push(MenuItem::new("Change".to_owned(), 70, 144, OnClickEvent::NoEvent));
    selectables.push(row3);
    let mut row4: Vec<MenuItem> = Vec::new();
    row4.push(MenuItem::new("Config".to_owned(), 70, 176, OnClickEvent::NoEvent));
    selectables.push(row4);
    MenuScreen::new(
        containers,
        selectables,
        Vec::new(),
        MenuMovement::Grid,
        0,
        0,
        OnClickEvent::MenuTransition(TransitionStyle::MenuIn(MenuKind::NoMenu)),
    )
}

/// The (empty) item screen; backing out returns to the pause menu.
pub fn item_menu() -> (m: MenuScreen)
    ensures
        m.wf(),
        is_item_menu(m),
        m.selectables@.len() == 0,
        m.containers@.len() == 1,
        m.return_action == OnClickEvent::MenuTransition(
            TransitionStyle::MenuIn(MenuKind::MainMenu),
        ),
{
    let mut containers: Vec<MenuContainer> = Vec::new();
    containers.push(MenuContainer::new(16, 16, 1064, 704));
    MenuScreen::new(
        containers,
        Vec::new(),
        Vec::new(),
        MenuMovement::Grid,
        0,
        0,
        OnClickEvent::MenuTransition(TransitionStyle::MenuIn(MenuKind::MainMenu)),
    )
}

/// Build the named menu screen.
pub fn build_menu(kind: MenuKind) -> (m: MenuScreen)
    ensures
        m.wf(),
        is_built_menu(kind, m),
{
    match kind {
        MenuKind::NoMenu => none_menu(),
        MenuKind::TitleMenu => title_menu(),
        MenuKind::MainMenu => main_menu(),
        MenuKind::ItemMenu => item_menu(),
    }
}

/// The experience pot padded up to the next multiple of the number of living
/// members, so the count-up lands on zero exactly.
pub open spec fn rounded_experience(experience: int, alive: int) -> int {
    if alive <= 0 {
        experience
    } else if experience % alive == 0 {
        experience
    } else {
        experience + alive - experience % alive
    }
}

/// The battle-won screen's shape: its continue entry starts the count-up
/// with the pot padded to the next multiple of the living count, and the pot
/// label shows that total.
pub open spec fn is_battle_won_screen(m: MenuScreen, party: Seq<Character>, experience: u32) -> bool {
    let total = if rounded_experience(experience as int, living_count(party)) <= u32::MAX {
        rounded_experience(experience as int, living_count(party))
    } else {
        experience as int
    };
    &&& m.selectables@.len() == 1
    &&& m.selectables@[0]@.len() == 1
    &&& m.selectables@[0]@[0].on_click == OnClickEvent::MutateMenu(
        MenuMutationKind::BeginExperienceCount(total as u32),
    )
    &&& m.unselectables@.len() >= 3
    &&& m.unselectables@[1].text@ == decimal_chars(total as nat)
    &&& m.mutation is None
    &&& m.return_action is NoEvent
}

/// The battle-won screen: the rounded experience pot, an item list stub, each
/// member's name and running total, and a continue entry that starts the
/// count-up.
pub fn battle_won(party: &Vec<Character>, experience: u32) -> (m: MenuScreen)
    ensures
        m.wf(),
        is_battle_won_screen(m, party@, experience),
{
    let alive = alive_members_count(party);
    let mut total: u32 = experience;
    if alive > 0 {
        let alive64 = alive as u64;
        let rem = (experience as u64) % alive64;
        if rem != 0 && alive64 - rem <= u32::MAX as u64 {
            let padded = experience as u64 + (alive64 - rem);
            if padded <= u32::MAX as u64 {
                total = padded as u32;
            }
        }
    }
    let mut containers: Vec<MenuContainer> = Vec::new();
    containers.push(MenuContainer::new(50, 10, 550, 110));
    containers.push(MenuContainer::new(10, 120, 1070, 360));
    containers.push(MenuContainer::new(50, 370, 250, 470));
    containers.push(MenuContainer::new(10, 480, 1070, 600));
    containers.push(MenuContainer::new(760, 610, 1040, 710));
    let mut selectables: Vec<Vec<MenuItem>> = Vec::new();
    let mut row0: Vec<MenuItem> = Vec::new();
    row0.push(
        MenuItem::new(
            "Continue".to_owned(),
            825,
            650,
            OnClickEvent::MutateMenu(MenuMutationKind::BeginExperienceCount(total)),
        ),
    );
    selectables.push(row0);
    let mut unselectables: Vec<MenuItem> = Vec::new();
    unselectables.push(MenuItem::new("Experience".to_owned(), 90, 50, OnClickEvent::NoEvent));
    unselectables.push(MenuItem::new(u32_to_string(total), 350, 50, OnClickEvent::NoEvent));
    unselectables.push(MenuItem::new("Items".to_owned(), 90, 410, OnClickEvent::NoEvent));
    let mut i: usize = 0;
    while i < party.len() && i < 4
        invariant
            i <= party@.len(),
            unselectables@.len() >= 3,
            unselectables@[1].text@ == decimal_chars(total as nat),
        decreases party@.len() - i,
    {
        let (x, y): (i64, i64) = if i == 0 {
            (50, 160)
        } else if i == 1 {
            (590, 160)
        } else if i == 2 {
            (50, 260)
        } else {
            (590, 260)
        };
        unselectables.push(MenuItem::new(party[i].get_name(), x, y, OnClickEvent::NoEvent));
        unselectables.push(
            MenuItem::new(
                u32_to_string(party[i].get_battle_state().get_experience()),
                x + 250,
                y,
                OnClickEvent::NoEvent,
            ),
        );
        i = i + 1;
    }
    MenuScreen::new(
        containers,
        selectables,
        unselectables,
        MenuMovement::Grid,
        0,
        0,
        OnClickEvent::NoEvent,
    )
}

} // verus!
