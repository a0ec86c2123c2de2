//! The battle-side menu screens: the empty placeholder, the action menu of
//! the member whose turn it is, and single-target selection over every living
//! combatant - plus the dispatch that turns a confirmed selection into the
//! action's compute/apply effects.

use vstd::prelude::*;

use crate::actions::{computed_damage, Action, BattleActionTargetStart};
use crate::animation::{character_started, enemy_started, Animation};
use crate::character::{party_wf, Character};
use crate::enemy::{enemies_wf, Enemy};
use crate::menu::{MenuContainer, MenuItem, MenuMovement, MenuScreen, OnClickEvent};
use crate::notification::{Notification, NOTIFICATION_SHOW_TICKS};

verus! {

/// The closed, empty menu screen.
pub open spec fn is_none_menu(m: MenuScreen) -> bool {
    &&& m.containers@.len() == 0
    &&& m.selectables@.len() == 0
    &&& m.unselectables@.len() == 0
    &&& m.movement is Grid
    &&& m.cursor_x == 0
    &&& m.cursor_y == 0
    &&& m.return_action is NoEvent
    &&& m.mutation is None
}

pub fn none_menu() -> (m: MenuScreen)
    ensures
        m.wf(),
        is_none_menu(m),
{
    MenuScreen::new(
        Vec::new(),
        Vec::new(),
        Vec::new(),
        MenuMovement::Grid,
        0,
        0,
        OnClickEvent::NoEvent,
    )
}

/// The action menu offered to `c` at the start of its turn: its three
/// abilities over the stock entries, in one column.
pub open spec fn is_main_battle_menu(m: MenuScreen, c: Character) -> bool {
    &&& m.containers@.len() == 1
    &&& m.containers@[0] == (MenuContainer { x1: 16, y1: 420, x2: 250, y2: 704 })
    &&& m.selectables@.len() == 6
    &&& forall|i: int| 0 <= i < 6 ==> (#[trigger] m.selectables@[i]@).len() == 1
    &&& m.selectables@[0]@[0].text == c.attack_ability.name
    &&& m.selectables@[0]@[0].on_click == OnClickEvent::ToTargetSelection(
        c.attack_ability.action,
        c.attack_ability.target_start,
    )
    &&& m.selectables@[1]@[0].text == c.primary_ability.name
    &&& m.selectables@[1]@[0].on_click is NoEvent
    &&& m.selectables@[2]@[0].text == c.secondary_ability.name
    &&& m.selectables@[2]@[0].on_click is NoEvent
    &&& m.selectables@[3]@[0].text@ == "Item"@
    &&& m.selectables@[4]@[0].text@ == "Defend"@
    &&& m.selectables@[5]@[0].text@ == "Row"@
    &&& m.selectables@[3]@[0].on_click is NoEvent
    &&& m.selectables@[4]@[0].on_click is NoEvent
    &&& m.selectables@[5]@[0].on_click is NoEvent
    &&& m.unselectables@.len() == 0
    &&& m.movement is Grid
    &&& m.cursor_x == 0
    &&& m.cursor_y == 0
    &&& m.return_action is NoEvent
    &&& m.mutation is None
}

pub fn main_battle_menu(character_in_turn: &Character) -> (m: MenuScreen)
    ensures
        m.wf(),
        is_main_battle_menu(m, *character_in_turn),
{
    let mut selectables: Vec<Vec<MenuItem>> = Vec::new();
    let mut row0: Vec<MenuItem> = Vec::new();
    row0.push(character_in_turn.get_attack_ability_as_menuitem());
    selectables.push(row0);
    let mut row1: Vec<MenuItem> = Vec::new();
    row1.push(character_in_turn.get_primary_ability_as_menuitem());
    selectables.push(row1);
    let mut row2: Vec<MenuItem> = Vec::new();
    row2.push(character_in_turn.get_secondary_ability_as_menuitem());
    selectables.push(row2);
    let mut row3: Vec<MenuItem> = Vec::new();
    row3.push(MenuItem::new("Item".to_owned(), 70, 564, OnClickEvent::NoEvent));
    selectables.push(row3);
    let mut row4: Vec<MenuItem> = Vec::new();
    row4.push(MenuItem::new("Defend".to_owned(), 70, 596, OnClickEvent::NoEvent));
    selectables.push(row4);
    let mut row5: Vec<MenuItem> = Vec::new();
    row5.push(MenuItem::new("Row".to_owned(), 70, 628, OnClickEvent::NoEvent));
    selectables.push(row5);
    let mut containers: Vec<MenuContainer> = Vec::new();
    containers.push(MenuContainer::new(16, 420, 250, 704));
    MenuScreen::new(
        containers,
        selectables,
        Vec::new(),
        MenuMovement::Grid,
        0,
        0,
        OnClickEvent::NoEvent,
    )
}

/// Whether `id` names a combatant of the battle that is still alive.
pub open spec fn living_target_id(
    party: Seq<Character>,
    enemies: Seq<Vec<Enemy>>,
    id: int,
) -> bool {
    ||| exists|i: int|
        0 <= i < party.len() && (#[trigger] party[i]).id == id && party[i].state.hp > 0
    ||| exists|i: int, j: int|
        0 <= i < enemies.len() && 0 <= j < enemies[i]@.len() && (#[trigger] enemies[i]@[j]).id
            == id && enemies[i]@[j].state.hp > 0
}

/// Every selectable entry of a targeting menu offers `action` against living
/// combatants only: the fallen never appear in targeting lists.
pub open spec fn targeting_items_sound(
    m: MenuScreen,
    party: Seq<Character>,
    enemies: Seq<Vec<Enemy>>,
    action: Action,
) -> bool {
    forall|r: int, k: int|
        0 <= r < m.selectables@.len() && 0 <= k < m.selectables@[r]@.len()
            ==> item_targets_living(#[trigger] m.selectables@[r]@[k], party, enemies, action)
}

/// One targeting entry: a battle action of the right kind whose targets are
/// all alive.
pub open spec fn item_targets_living(
    item: MenuItem,
    party: Seq<Character>,
    enemies: Seq<Vec<Enemy>>,
    action: Action,
) -> bool {
    item.on_click matches OnClickEvent::BattleAction(ids, a) ==> a == action && forall|t: int|
        0 <= t < ids@.len() ==> living_target_id(party, enemies, #[trigger] ids@[t] as int)
}

/// How many of the first `upto` enemies of a row are alive.
pub open spec fn living_in_row(row: Seq<Enemy>, upto: int) -> int
    decreases upto,
{
    if upto <= 0 {
        0
    } else {
        living_in_row(row, upto - 1) + (if row[upto - 1].state.hp > 0 {
            1int
        } else {
            0int
        })
    }
}

/// How many enemies of the first `rows` formation rows are alive.
pub open spec fn living_in_grid(g: Seq<Vec<Enemy>>, rows: int) -> int
    decreases rows,
{
    if rows <= 0 {
        0
    } else {
        living_in_grid(g, rows - 1) + living_in_row(g[rows - 1]@, g[rows - 1]@.len() as int)
    }
}

/// Total number of entries over the first `upto` rows of a selection grid.
pub open spec fn entries_count(s: Seq<Vec<MenuItem>>, upto: int) -> int
    decreases upto,
{
    if upto <= 0 {
        0
    } else {
        entries_count(s, upto - 1) + s[upto - 1]@.len()
    }
}

/// An entry offering `action` against exactly the single target `id`, shown
/// at (x, y).
pub open spec fn entry_offers(item: MenuItem, id: usize, action: Action, x: int, y: int) -> bool {
    &&& item.on_click matches OnClickEvent::BattleAction(ids, a) && a == action && ids@ == seq![id]
    &&& item.x == x
    &&& item.y == y
}

/// The pixel offset of a formation grid slot.
pub open spec fn grid_slot_offset(index: int) -> int {
    if index <= 100000 {
        index * 100
    } else {
        10000000
    }
}

/// Somewhere in the rows there is an entry offering `action` against exactly
/// `id` at (x, y).
pub open spec fn rows_have_entry_for(
    s: Seq<Vec<MenuItem>>,
    id: usize,
    action: Action,
    x: int,
    y: int,
) -> bool {
    exists|r: int, k: int|
        0 <= r < s.len() && 0 <= k < s[r]@.len() && entry_offers(
            #[trigger] s[r]@[k],
            id,
            action,
            x,
            y,
        )
}

/// Somewhere on the screen there is an entry offering `action` against
/// exactly `id` at (x, y).
pub open spec fn has_entry_for(m: MenuScreen, id: usize, action: Action, x: int, y: int) -> bool {
    rows_have_entry_for(m.selectables@, id, action, x, y)
}

/// Row grids that agree on a prefix count the same entries over it.
proof fn lemma_entries_count_prefix(s1: Seq<Vec<MenuItem>>, s2: Seq<Vec<MenuItem>>, upto: int)
    requires
        upto <= s1.len(),
        upto <= s2.len(),
        forall|r: int| 0 <= r < upto ==> #[trigger] s1[r] == s2[r],
    ensures
        entries_count(s1, upto) == entries_count(s2, upto),
    decreases upto,
{
    if upto > 0 {
        lemma_entries_count_prefix(s1, s2, upto - 1);
    }
}

/// The target-selection screen: one entry per living party member, then one
/// column per enemy formation row holding its living enemies; rows with no
/// survivors are dropped, so the fallen never appear.
pub fn single_target_targeting_everyone(
    party: &Vec<Character>,
    enemies: &Vec<Vec<Enemy>>,
    action_effects: Action,
    targeting_start_type: BattleActionTargetStart,
) -> (m: MenuScreen)
    ensures
        m.wf(),
        targeting_items_sound(m, party@, enemies@, action_effects),
        m.return_action is SetBattleMenu,
        m.mutation is None,
        // One entry per living combatant, each at its screen position: the
        // whole living roster is offered, and nothing else.
        entries_count(m.selectables@, m.selectables@.len() as int)
            == crate::character::living_count(party@) + living_in_grid(
            enemies@,
            enemies@.len() as int,
        ),
        forall|i: int|
            0 <= i < party@.len() && (#[trigger] party@[i]).state.hp > 0 ==> has_entry_for(
                m,
                party@[i].id,
                action_effects,
                party@[i].x as int,
                party@[i].y as int,
            ),
        forall|i: int, j: int|
            0 <= i < enemies@.len() && 0 <= j < enemies@[i]@.len() && (
            #[trigger] enemies@[i]@[j]).state.hp > 0 ==> has_entry_for(
                m,
                enemies@[i]@[j].id,
                action_effects,
                700 + grid_slot_offset(i),
                180 + grid_slot_offset(j),
            ),
{
    let mut selectables: Vec<Vec<MenuItem>> = Vec::new();
    push_party_to_selectables(&mut selectables, party, enemies, action_effects);
    let ghost party_stage = selectables@;
    push_enemies_to_selectables(&mut selectables, party, enemies, action_effects);
    proof {
        // The party entries survive the enemy rows being appended after them.
        assert forall|i: int|
            0 <= i < party@.len() && (#[trigger] party@[i]).state.hp > 0
                implies rows_have_entry_for(
            selectables@,
            party@[i].id,
            action_effects,
            party@[i].x as int,
            party@[i].y as int,
        ) by {
            let (r0, k0): (int, int) = choose|r0: int, k0: int|
                0 <= r0 < party_stage.len() && 0 <= k0 < party_stage[r0]@.len() && entry_offers(
                    #[trigger] party_stage[r0]@[k0],
                    party@[i].id,
                    action_effects,
                    party@[i].x as int,
                    party@[i].y as int,
                );
            assert(selectables@[r0]@[k0] == party_stage[r0]@[k0]);
            assert(entry_offers(
                selectables@[r0]@[k0],
                party@[i].id,
                action_effects,
                party@[i].x as int,
                party@[i].y as int,
            ));
        }
    }
    let wanted: (usize, usize) = match targeting_start_type {
        BattleActionTargetStart::Enemies => (0, 1),
        BattleActionTargetStart::Party => (0, 0),
        BattleActionTargetStart::Myself => {
            let mut own_id: usize = 0;
            let mut i: usize = 0;
            while i < party.len()
                invariant
                    i <= party@.len(),
                decreases party@.len() - i,
            {
                if party[i].get_battle_state().is_turn_active() {
                    own_id = party[i].get_id();
                }
                i = i + 1;
            }
            (own_id, 0)
        },
    };
    // Keep the cursor on an existing entry whatever the starting hint asked.
    let mut cursor_x: usize = 0;
    let mut cursor_y: usize = 0;
    if selectables.len() > 0 {
        cursor_y = if wanted.1 < selectables.len() {
            wanted.1
        } else {
            0
        };
        let row_len = selectables[cursor_y].len();
        cursor_x = if wanted.0 < row_len {
            wanted.0
        } else {
            0
        };
    }
    let mut containers: Vec<MenuContainer> = Vec::new();
    containers.push(MenuContainer::new(16, 420, 250, 704));
    MenuScreen::new(
        containers,
        selectables,
        Vec::new(),
        MenuMovement::RowOfColumns,
        cursor_x,
        cursor_y,
        OnClickEvent::SetBattleMenu,
    )
}

/// Append the row of living party members to a targeting screen.
fn push_party_to_selectables(
    selectables: &mut Vec<Vec<MenuItem>>,
    party: &Vec<Character>,
    enemies: &Vec<Vec<Enemy>>,
    action_effects: Action,
)
    requires
        forall|i: int|
            0 <= i < old(selectables)@.len() ==> (#[trigger] old(selectables)@[i]@).len() > 0,
        forall|r: int, k: int|
            0 <= r < old(selectables)@.len() && 0 <= k < old(selectables)@[r]@.len()
                ==> item_targets_living(
                #[trigger] old(selectables)@[r]@[k],
                party@,
                enemies@,
                action_effects,
            ),
    ensures
        forall|i: int|
            0 <= i < final(selectables)@.len() ==> (#[trigger] final(selectables)@[i]@).len() > 0,
        forall|r: int, k: int|
            0 <= r < final(selectables)@.len() && 0 <= k < final(selectables)@[r]@.len()
                ==> item_targets_living(
                #[trigger] final(selectables)@[r]@[k],
                party@,
                enemies@,
                action_effects,
            ),
        final(selectables)@.len() >= old(selectables)@.len(),
        forall|r: int|
            0 <= r < old(selectables)@.len() ==> #[trigger] final(selectables)@[r] == old(
                selectables,
            )@[r],
        entries_count(final(selectables)@, final(selectables)@.len() as int) == entries_count(
            old(selectables)@,
            old(selectables)@.len() as int,
        ) + crate::character::living_count(party@),
        forall|i: int|
            0 <= i < party@.len() && (#[trigger] party@[i]).state.hp > 0 ==> rows_have_entry_for(
                final(selectables)@,
                party@[i].id,
                action_effects,
                party@[i].x as int,
                party@[i].y as int,
            ),
{
    let mut row: Vec<MenuItem> = Vec::new();
    let mut i: usize = 0;
    while i < party.len()
        invariant
            i <= party@.len(),
            forall|k: int|
                0 <= k < row@.len() ==> item_targets_living(
                    #[trigger] row@[k],
                    party@,
                    enemies@,
                    action_effects,
                ),
            row@.len() as int == crate::character::living_count(party@.subrange(0, i as int)),
            forall|j: int|
                0 <= j < i && (#[trigger] party@[j]).state.hp > 0 ==> exists|k: int|
                    0 <= k < row@.len() && entry_offers(
                        #[trigger] row@[k],
                        party@[j].id,
                        action_effects,
                        party@[j].x as int,
                        party@[j].y as int,
                    ),
        decreases party@.len() - i,
    {
        proof {
            assert(party@.subrange(0, i + 1).drop_last() =~= party@.subrange(0, i as int));
            assert(party@.subrange(0, i + 1).last() == party@[i as int]);
        }
        if party[i].get_battle_state().get_hp() > 0 {
            let (x, y) = party[i].get_coords();
            let mut ids: Vec<usize> = Vec::new();
            ids.push(party[i].get_id());
            proof {
                assert(ids@ =~= seq![party@[i as int].id]);
            }
            let ghost row0 = row@;
            row.push(
                MenuItem::new(
                    String::new(),
                    x,
                    y,
                    OnClickEvent::BattleAction(ids, action_effects),
                ),
            );
            proof {
                assert forall|j: int|
                    0 <= j < i + 1 && (#[trigger] party@[j]).state.hp > 0 implies exists|k: int|
                    0 <= k < row@.len() && entry_offers(
                        #[trigger] row@[k],
                        party@[j].id,
                        action_effects,
                        party@[j].x as int,
                        party@[j].y as int,
                    ) by {
                    if j == i as int {
                        assert(entry_offers(
                            row@[row@.len() - 1],
                            party@[j].id,
                            action_effects,
                            party@[j].x as int,
                            party@[j].y as int,
                        ));
                    } else {
                        let k = choose|k: int|
                            0 <= k < row0.len() && entry_offers(
                                #[trigger] row0[k],
                                party@[j].id,
                                action_effects,
                                party@[j].x as int,
                                party@[j].y as int,
                            );
                        assert(row@[k] == row0[k]);
                    }
                }
            }
        }
        i = i + 1;
    }
    proof {
        assert(party@.subrange(0, party@.len() as int) =~= party@);
    }
    let ghost before = selectables@;
    let ghost rowsnap = row@;
    if row.len() > 0 {
        selectables.push(row);
        proof {
            lemma_entries_count_prefix(selectables@, before, before.len() as int);
            assert forall|j: int|
                0 <= j < party@.len() && (#[trigger] party@[j]).state.hp > 0
                    implies rows_have_entry_for(
                selectables@,
                party@[j].id,
                action_effects,
                party@[j].x as int,
                party@[j].y as int,
            ) by {
                let k = choose|k: int|
                    0 <= k < rowsnap.len() && entry_offers(
                        #[trigger] rowsnap[k],
                        party@[j].id,
                        action_effects,
                        party@[j].x as int,
                        party@[j].y as int,
                    );
                assert(selectables@[before.len() as int]@[k] == rowsnap[k]);
                assert(entry_offers(
                    selectables@[before.len() as int]@[k],
                    party@[j].id,
                    action_effects,
                    party@[j].x as int,
                    party@[j].y as int,
                ));
            }
        }
    }
}

/// Append one column per enemy formation row, holding its living enemies.
fn push_enemies_to_selectables(
    selectables: &mut Vec<Vec<MenuItem>>,
    party: &Vec<Character>,
    enemies: &Vec<Vec<Enemy>>,
    action_effects: Action,
)
    requires
        forall|i: int|
            0 <= i < old(selectables)@.len() ==> (#[trigger] old(selectables)@[i]@).len() > 0,
        forall|r: int, k: int|
            0 <= r < old(selectables)@.len() && 0 <= k < old(selectables)@[r]@.len()
                ==> item_targets_living(
                #[trigger] old(selectables)@[r]@[k],
                party@,
                enemies@,
                action_effects,
            ),
    ensures
        forall|i: int|
            0 <= i < final(selectables)@.len() ==> (#[trigger] final(selectables)@[i]@).len() > 0,
        forall|r: int, k: int|
            0 <= r < final(selectables)@.len() && 0 <= k < final(selectables)@[r]@.len()
                ==> item_targets_living(
                #[trigger] final(selectables)@[r]@[k],
                party@,
                enemies@,
                action_effects,
            ),
        final(selectables)@.len() >= old(selectables)@.len(),
        forall|r: int|
            0 <= r < old(selectables)@.len() ==> #[trigger] final(selectables)@[r] == old(
                selectables,
            )@[r],
        entries_count(final(selectables)@, final(selectables)@.len() as int) == entries_count(
            old(selectables)@,
            old(selectables)@.len() as int,
        ) + living_in_grid(enemies@, enemies@.len() as int),
        forall|i: int, j: int|
            0 <= i < enemies@.len() && 0 <= j < enemies@[i]@.len() && (
            #[trigger] enemies@[i]@[j]).state.hp > 0 ==> rows_have_entry_for(
                final(selectables)@,
                enemies@[i]@[j].id,
                action_effects,
                700 + grid_slot_offset(i),
                180 + grid_slot_offset(j),
            ),
{
    let ghost init = selectables@;
    let mut i: usize = 0;
    while i < enemies.len()
        invariant
            i <= enemies@.len(),
            init == old(selectables)@,
            selectables@.len() >= init.len(),
            forall|r: int| 0 <= r < init.len() ==> #[trigger] selectables@[r] == init[r],
            forall|r: int|
                0 <= r < selectables@.len() ==> (#[trigger] selectables@[r]@).len() > 0,
            forall|r: int, k: int|
                0 <= r < selectables@.len() && 0 <= k < selectables@[r]@.len()
                    ==> item_targets_living(
                    #[trigger] selectables@[r]@[k],
                    party@,
                    enemies@,
                    action_effects,
                ),
            entries_count(selectables@, selectables@.len() as int) == entries_count(
                init,
                init.len() as int,
            ) + living_in_grid(enemies@, i as int),
            forall|x: int, y: int|
                0 <= x < i && 0 <= y < enemies@[x]@.len() && (
                #[trigger] enemies@[x]@[y]).state.hp > 0 ==> rows_have_entry_for(
                    selectables@,
                    enemies@[x]@[y].id,
                    action_effects,
                    700 + grid_slot_offset(x),
                    180 + grid_slot_offset(y),
                ),
        decreases enemies@.len() - i,
    {
        let enemy_row = &enemies[i];
        let mut row: Vec<MenuItem> = Vec::new();
        let mut j: usize = 0;
        while j < enemy_row.len()
            invariant
                j <= enemy_row@.len(),
                enemy_row == enemies@[i as int],
                (i as int) < enemies@.len(),
                forall|k: int|
                    0 <= k < row@.len() ==> item_targets_living(
                        #[trigger] row@[k],
                        party@,
                        enemies@,
                        action_effects,
                    ),
                row@.len() as int == living_in_row(enemy_row@, j as int),
                forall|y: int|
                    0 <= y < j && (#[trigger] enemy_row@[y]).state.hp > 0 ==> exists|k: int|
                        0 <= k < row@.len() && entry_offers(
                            #[trigger] row@[k],
                            enemy_row@[y].id,
                            action_effects,
                            700 + grid_slot_offset(i as int),
                            180 + grid_slot_offset(y),
                        ),
            decreases enemy_row@.len() - j,
        {
            if enemy_row[j].get_battle_state().get_hp() > 0 {
                let mut ids: Vec<usize> = Vec::new();
                ids.push(enemy_row[j].get_id());
                proof {
                    assert(ids@ =~= seq![enemy_row@[j as int].id]);
                }
                let ghost row0 = row@;
                row.push(
                    MenuItem::new(
                        String::new(),
                        700 + grid_offset(i),
                        180 + grid_offset(j),
                        OnClickEvent::BattleAction(ids, action_effects),
                    ),
                );
                proof {
                    assert forall|y: int|
                        0 <= y < j + 1 && (#[trigger] enemy_row@[y]).state.hp > 0 implies exists|
                        k: int,
                    |
                        0 <= k < row@.len() && entry_offers(
                            #[trigger] row@[k],
                            enemy_row@[y].id,
                            action_effects,
                            700 + grid_slot_offset(i as int),
                            180 + grid_slot_offset(y),
                        ) by {
                        if y == j as int {
                            assert(entry_offers(
                                row@[row@.len() - 1],
                                enemy_row@[y].id,
                                action_effects,
                                700 + grid_slot_offset(i as int),
                                180 + grid_slot_offset(y),
                            ));
                        } else {
                            let k = choose|k: int|
                                0 <= k < row0.len() && entry_offers(
                                    #[trigger] row0[k],
                                    enemy_row@[y].id,
                                    action_effects,
                                    700 + grid_slot_offset(i as int),
                                    180 + grid_slot_offset(y),
                                );
                            assert(row@[k] == row0[k]);
                        }
                    }
                }
            }
            j = j + 1;
        }
        let ghost before = selectables@;
        let ghost rowsnap = row@;
        if row.len() > 0 {
            selectables.push(row);
            proof {
                lemma_entries_count_prefix(selectables@, before, before.len() as int);
            }
        }
        proof {
            assert forall|x: int, y: int|
                0 <= x < i + 1 && 0 <= y < enemies@[x]@.len() && (
            #[trigger] enemies@[x]@[y]).state.hp > 0 implies rows_have_entry_for(
                selectables@,
                enemies@[x]@[y].id,
                action_effects,
                700 + grid_slot_offset(x),
                180 + grid_slot_offset(y),
            ) by {
                if x == i as int {
                    let k = choose|k: int|
                        0 <= k < rowsnap.len() && entry_offers(
                            #[trigger] rowsnap[k],
                            enemies@[x]@[y].id,
                            action_effects,
                            700 + grid_slot_offset(x),
                            180 + grid_slot_offset(y),
                        );
                    assert(selectables@[before.len() as int]@[k] == rowsnap[k]);
                    assert(entry_offers(
                        selectables@[before.len() as int]@[k],
                        enemies@[x]@[y].id,
                        action_effects,
                        700 + grid_slot_offset(x),
                        180 + grid_slot_offset(y),
                    ));
                } else {
                    let (r0, k0): (int, int) = choose|r0: int, k0: int|
                        0 <= r0 < before.len() && 0 <= k0 < before[r0]@.len() && entry_offers(
                            #[trigger] before[r0]@[k0],
                            enemies@[x]@[y].id,
                            action_effects,
                            700 + grid_slot_offset(x),
                            180 + grid_slot_offset(y),
                        );
                    assert(selectables@[r0]@[k0] == before[r0]@[k0]);
                    assert(entry_offers(
                        selectables@[r0]@[k0],
                        enemies@[x]@[y].id,
                        action_effects,
                        700 + grid_slot_offset(x),
                        180 + grid_slot_offset(y),
                    ));
                }
            }
        }
        i = i + 1;
    }
}

/// Pixel offset of a formation grid slot; the screen layout stops growing
/// past a bound no real formation reaches.
pub(crate) fn grid_offset(index: usize) -> (r: i64)
    ensures
        r as int == grid_slot_offset(index as int),
        0 <= r <= 10000000,
{
    if index <= 100000 {
        (index as i64) * 100
    } else {
        10000000
    }
}

/// Index of the party member whose turn is active, if any: the first one in
/// roster order.
pub open spec fn is_first_active(party: Seq<Character>, i: int) -> bool {
    &&& 0 <= i < party.len()
    &&& party[i].state.is_turn_active
    &&& forall|j: int| 0 <= j < i ==> !(#[trigger] party[j]).state.is_turn_active
}

/// No member of the roster holds the turn.
pub open spec fn no_active_member(party: Seq<Character>) -> bool {
    forall|j: int| 0 <= j < party.len() ==> !(#[trigger] party[j]).state.is_turn_active
}

/// Below any active member there is a first one.
pub proof fn lemma_first_active_below(party: Seq<Character>, a: int)
    requires
        0 <= a < party.len(),
        party[a].state.is_turn_active,
    ensures
        exists|i: int| is_first_active(party, i),
    decreases a,
{
    if forall|j: int| 0 <= j < a ==> !(#[trigger] party[j]).state.is_turn_active {
        assert(is_first_active(party, a));
    } else {
        let j = choose|j: int| 0 <= j < a && (#[trigger] party[j]).state.is_turn_active;
        lemma_first_active_below(party, j);
    }
}

/// A member as it stands after launching its attack timeline.
pub open spec fn attack_started(c: Character) -> Character {
    Character { animation: character_started(c.animation, Animation::Attack), ..c }
}

/// A member as it stands after an action lands on it (the timeline carries
/// the effect until its damage frame).
pub open spec fn character_received(c: Character, action: Action, damage: u64) -> Character {
    Character {
        animation: character_started(
            c.animation,
            if c.state.is_turn_active {
                Animation::HurtSelf(action, damage)
            } else {
                Animation::Hurt(action, damage)
            },
        ),
        ..c
    }
}

/// An enemy as it stands after an action lands on it.
pub open spec fn enemy_received(e: Enemy, action: Action, damage: u64) -> Enemy {
    Enemy {
        animation: enemy_started(
            e.animation,
            if e.state.is_turn_active {
                Animation::HurtSelf(action, damage)
            } else {
                Animation::Hurt(action, damage)
            },
        ),
        ..e
    }
}

/// The full effect of a confirmed battle action on the rosters: with no
/// active member nothing happens; otherwise the first active member launches
/// its attack, the damage is computed once from its attack stat and the
/// draw, and exactly the listed targets receive it.
pub open spec fn battle_action_effects(
    target_ids: Seq<usize>,
    action: Action,
    p0: Seq<Character>,
    p1: Seq<Character>,
    e0: Seq<Vec<Enemy>>,
    e1: Seq<Vec<Enemy>>,
    draw: u8,
) -> bool {
    &&& p1.len() == p0.len()
    &&& e1.len() == e0.len()
    &&& no_active_member(p0) ==> p1 == p0 && e1 == e0
    &&& forall|ai: int|
        #[trigger] is_first_active(p0, ai) ==> ({
            let damage = computed_damage(action, p0[ai].state.att as int, draw as int) as u64;
            &&& forall|i: int|
                0 <= i < p0.len() ==> #[trigger] p1[i] == ({
                    let base = if i == ai {
                        attack_started(p0[i])
                    } else {
                        p0[i]
                    };
                    if target_ids.contains(p0[i].id) {
                        character_received(base, action, damage)
                    } else {
                        base
                    }
                })
            &&& forall|i: int| 0 <= i < e0.len() ==> (#[trigger] e1[i])@.len() == e0[i]@.len()
            &&& forall|i: int, j: int|
                0 <= i < e0.len() && 0 <= j < e0[i]@.len() ==> #[trigger] e1[i]@[j] == (
                if target_ids.contains(e0[i]@[j].id) {
                    enemy_received(e0[i]@[j], action, damage)
                } else {
                    e0[i]@[j]
                })
        })
}

/// Whether `ids` lists `id` as a target.
fn contains_id(ids: &Vec<usize>, id: usize) -> (r: bool)
    ensures
        r == ids@.contains(id),
{
    let mut i: usize = 0;
    while i < ids.len()
        invariant
            i <= ids@.len(),
            forall|j: int| 0 <= j < i ==> ids@[j] != id,
        decreases ids@.len() - i,
    {
        if ids[i] == id {
            return true;
        }
        i = i + 1;
    }
    false
}

/// A confirmed target selection: the acting member (the one whose turn is
/// active) launches its attack timeline, the outgoing damage is computed once
/// from its attack stat and the random draw, and every combatant whose id is
/// listed receives the action with that one value. With no active member
/// nothing happens.
pub fn perform_battle_action(
    party: &mut Vec<Character>,
    enemies: &mut Vec<Vec<Enemy>>,
    target_ids: &Vec<usize>,
    action: Action,
    notification: &mut Notification,
    draw: u8,
)
    requires
        9 <= draw <= 11,
        party_wf(old(party)@),
        enemies_wf(old(enemies)@),
    ensures
        party_wf(final(party)@),
        enemies_wf(final(enemies)@),
        final(party)@.len() == old(party)@.len(),
        final(enemies)@.len() == old(enemies)@.len(),
        battle_action_effects(
            target_ids@,
            action,
            old(party)@,
            final(party)@,
            old(enemies)@,
            final(enemies)@,
            draw,
        ),
        no_active_member(old(party)@) ==> final(party)@ == old(party)@ && final(enemies)@
            == old(enemies)@ && *final(notification) == *old(notification),
        forall|ai: int|
            is_first_active(old(party)@, ai) ==> ({
                let damage = computed_damage(
                    action,
                    old(party)@[ai].state.att as int,
                    draw as int,
                ) as u64;
                &&& final(notification).text@ == "Attack"@
                &&& final(notification).show_time_left == NOTIFICATION_SHOW_TICKS
                &&& forall|i: int|
                    0 <= i < old(party)@.len() ==> final(party)@[i] == ({
                        let base = if i == ai {
                            attack_started(old(party)@[i])
                        } else {
                            old(party)@[i]
                        };
                        if target_ids@.contains(old(party)@[i].id) {
                            character_received(base, action, damage)
                        } else {
                            base
                        }
                    })
                &&& forall|i: int|
                    0 <= i < old(enemies)@.len() ==> (#[trigger] final(enemies)@[i])@.len()
                        == old(enemies)@[i]@.len()
                &&& forall|i: int, j: int|
                    0 <= i < old(enemies)@.len() && 0 <= j < old(enemies)@[i]@.len()
                        ==> #[trigger] final(enemies)@[i]@[j] == if target_ids@.contains(
                        old(enemies)@[i]@[j].id,
                    ) {
                        enemy_received(old(enemies)@[i]@[j], action, damage)
                    } else {
                        old(enemies)@[i]@[j]
                    }
            }),
{
    let n = party.len();
    let mut found_idx: usize = n;
    let mut i: usize = 0;
    while i < n && found_idx == n
        invariant
            n == party@.len(),
            party@ == old(party)@,
            i <= n,
            found_idx <= n,
            found_idx == n ==> forall|j: int|
                0 <= j < i ==> !(#[trigger] party@[j]).state.is_turn_active,
            found_idx < n ==> is_first_active(party@, found_idx as int),
        decreases n - i, (if found_idx == n { 1int } else { 0int }),
    {
        if party[i].get_battle_state().is_turn_active() {
            found_idx = i;
        } else {
            i = i + 1;
        }
    }
    if found_idx == n {
        return ;
    }
    let ghost fa = found_idx as int;
    let damage: u64 = {
        let acting = &mut party[found_idx];
        acting.perform_battle_action();
        action.compute(acting.get_battle_state_mut(), notification, draw)
    };
    let ghost mid = party@;
    proof {
        assert(mid =~= old(party)@.update(fa, attack_started(old(party)@[fa])));
    }
    let mut i: usize = 0;
    while i < party.len()
        invariant
            party@.len() == mid.len(),
            mid.len() == old(party)@.len(),
            i <= mid.len(),
            0 <= fa < mid.len(),
            mid == old(party)@.update(fa, attack_started(old(party)@[fa])),
            forall|j: int| i <= j < mid.len() ==> party@[j] == mid[j],
            forall|j: int|
                0 <= j < i ==> party@[j] == if target_ids@.contains((#[trigger] mid[j]).id) {
                    character_received(mid[j], action, damage)
                } else {
                    mid[j]
                },
        decreases mid.len() - i,
    {
        let id = party[i].get_id();
        if contains_id(target_ids, id) {
            let member = &mut party[i];
            member.receive_battle_action(action, damage);
        }
        i = i + 1;
    }
    proof {
        assert forall|ai: int| is_first_active(old(party)@, ai) implies ai == fa by {
            if ai < fa {
                assert(!old(party)@[ai].state.is_turn_active);
            } else if ai > fa {
                assert(!old(party)@[fa].state.is_turn_active);
            }
        }
        assert forall|j: int| 0 <= j < old(party)@.len() implies party@[j] == ({
            let base = if j == fa {
                attack_started(old(party)@[j])
            } else {
                old(party)@[j]
            };
            if target_ids@.contains(old(party)@[j].id) {
                character_received(base, action, damage)
            } else {
                base
            }
        }) by {
            assert(mid[j] == if j == fa {
                attack_started(old(party)@[j])
            } else {
                old(party)@[j]
            });
        }
        assert forall|j: int| 0 <= j < party@.len() implies (#[trigger] party@[j]).wf() by {
            assert(old(party)@[j].wf());
        }
    }
    let ghost emid = enemies@;
    let mut r: usize = 0;
    while r < enemies.len()
        invariant
            emid == old(enemies)@,
            enemies@.len() == emid.len(),
            r <= emid.len(),
            forall|x: int| r <= x < emid.len() ==> enemies@[x] == emid[x],
            forall|x: int|
                0 <= x < r ==> (#[trigger] enemies@[x])@.len() == emid[x]@.len() && forall|y: int|
                    0 <= y < emid[x]@.len() ==> enemies@[x]@[y] == if target_ids@.contains(
                        emid[x]@[y].id,
                    ) {
                        enemy_received(emid[x]@[y], action, damage)
                    } else {
                        emid[x]@[y]
                    },
        decreases emid.len() - r,
    {
        let ghost rowsnap = enemies@[r as int]@;
        let row_len = enemies[r].len();
        let mut c: usize = 0;
        while c < row_len
            invariant
                enemies@.len() == emid.len(),
                (r as int) < emid.len(),
                row_len == rowsnap.len(),
                rowsnap == emid[r as int]@,
                c <= row_len,
                enemies@[r as int]@.len() == rowsnap.len(),
                forall|x: int| r < x < emid.len() ==> enemies@[x] == emid[x],
                forall|x: int|
                    0 <= x < r ==> (#[trigger] enemies@[x])@.len() == emid[x]@.len() && forall|
                        y: int,
                    |
                        0 <= y < emid[x]@.len() ==> enemies@[x]@[y] == if target_ids@.contains(
                            emid[x]@[y].id,
                        ) {
                            enemy_received(emid[x]@[y], action, damage)
                        } else {
                            emid[x]@[y]
                        },
                forall|y: int| c <= y < rowsnap.len() ==> enemies@[r as int]@[y] == rowsnap[y],
                forall|y: int|
                    0 <= y < c ==> enemies@[r as int]@[y] == if target_ids@.contains(
                        (#[trigger] rowsnap[y]).id,
                    ) {
                        enemy_received(rowsnap[y], action, damage)
                    } else {
                        rowsnap[y]
                    },
            decreases row_len - c,
        {
            let id = enemies[r][c].get_id();
            if contains_id(target_ids, id) {
                let target = &mut enemies[r][c];
                target.receive_battle_action(action, damage);
            }
            c = c + 1;
        }
        r = r + 1;
    }
    proof {
        assert forall|x: int, y: int|
            0 <= x < enemies@.len() && 0 <= y < enemies@[x]@.len() implies (#[trigger] enemies@[
            x
        ]@[y]).wf() by {
            assert(old(enemies)@[x]@[y].wf());
        }
    }
}

} // verus!
