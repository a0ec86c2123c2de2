//! Static configuration: the character templates, the test enemy, and the
//! debug-room enemy formation.

use vstd::prelude::*;

use crate::actions::{Action, BattleActionTargetStart};
use crate::character::{Ability, Character};
use crate::enemy::{Enemy, EnemyScript};

verus! {

/// The experience the test enemy pays out when it falls.
pub const TEST_CIRCLE_EXPERIENCE: u32 = 30;

pub fn darrel_deen(id: usize) -> (c: Character)
    requires
        1 <= id <= 4,
    ensures
        c.wf(),
        c.id == id,
        c.name@ == "Darrel"@,
        c.state.level == 1,
        c.state.hp == 9999,
        c.state.max_hp == 9999,
        c.state.mp == 999,
        c.state.att == 12,
        c.state.def == 7,
        c.state.mag == 5,
        c.state.intelligence == 3,
        c.state.res == 7,
        c.state.agi == 10,
        c.state.atb == 0,
        c.state.experience == 0,
        !c.state.is_turn_active,
        c.animation.remaining_frames == 0,
        c.attack_ability.action == Action::PhysicalAttack,
        c.attack_ability.target_start == BattleActionTargetStart::Enemies,
        c.attack_ability.name@ == "Attack"@,
        c.primary_ability.name@ == "Steal"@,
        c.secondary_ability.name@ == "Flee"@,
{
    Character::new(
        "Darrel".to_owned(),
        "Darrel_Deen".to_owned(),
        id,
        1,
        9999,
        999,
        12,
        7,
        5,
        3,
        7,
        10,
        Ability {
            name: "Attack".to_owned(),
            action: Action::PhysicalAttack,
            target_start: BattleActionTargetStart::Enemies,
        },
        Ability {
            name: "Steal".to_owned(),
            action: Action::PhysicalAttack,
            target_start: BattleActionTargetStart::Enemies,
        },
        Ability {
            name: "Flee".to_owned(),
            action: Action::PhysicalAttack,
            target_start: BattleActionTargetStart::Enemies,
        },
    )
}

pub fn nurse_seraphine(id: usize) -> (c: Character)
    requires
        1 <= id <= 4,
    ensures
        c.wf(),
        c.id == id,
        c.name@ == "Seraphine"@,
        c.state.level == 2,
        c.state.hp == 40,
        c.state.max_hp == 40,
        c.state.mp == 40,
        c.state.att == 9,
        c.state.def == 5,
        c.state.mag == 7,
        c.state.intelligence == 7,
        c.state.res == 8,
        c.state.agi == 8,
        c.state.atb == 0,
        c.state.experience == 0,
        !c.state.is_turn_active,
        c.animation.remaining_frames == 0,
        c.attack_ability.action == Action::PhysicalAttack,
        c.attack_ability.name@ == "Attack"@,
        c.primary_ability.name@ == "Medicine"@,
        c.secondary_ability.name@ == "Seduce"@,
{
    Character::new(
        "Seraphine".to_owned(),
        "Nurse_Seraphine".to_owned(),
        id,
        2,
        40,
        40,
        9,
        5,
        7,
        7,
        8,
        8,
        Ability {
            name: "Attack".to_owned(),
            action: Action::PhysicalAttack,
            target_start: BattleActionTargetStart::Enemies,
        },
        Ability {
            name: "Medicine".to_owned(),
            action: Action::PhysicalAttack,
            target_start: BattleActionTargetStart::Enemies,
        },
        Ability {
            name: "Seduce".to_owned(),
            action: Action::PhysicalAttack,
            target_start: BattleActionTargetStart::Enemies,
        },
    )
}

pub fn test_circle(id: usize) -> (e: Enemy)
    requires
        5 <= id,
    ensures
        e.wf(),
        e.id == id,
        e.name@ == "Circle"@,
        e.state.level == 1,
        e.state.hp == 10,
        e.state.max_hp == 10,
        e.state.mp == 32,
        e.state.att == 12,
        e.state.def == 7,
        e.state.mag == 5,
        e.state.intelligence == 3,
        e.state.res == 7,
        e.state.agi == 17,
        e.state.atb == 0,
        !e.state.is_turn_active,
        e.animation.remaining_frames == 0,
        e.battle_script == EnemyScript::AttackRandomPartyMember,
        e.experience_value == TEST_CIRCLE_EXPERIENCE,
{
    Enemy::new(
        "test-circle".to_owned(),
        "Circle".to_owned(),
        id,
        1,
        10,
        32,
        12,
        7,
        5,
        3,
        7,
        17,
        TEST_CIRCLE_EXPERIENCE,
        EnemyScript::AttackRandomPartyMember,
    )
}

/// The debug room's encounter: a two-by-two grid of test enemies, ids
/// assigned row-major from five.
pub fn test_room_formation_1() -> (f: Vec<Vec<Enemy>>)
    ensures
        crate::enemy::enemies_wf(f@),
        f@.len() == 2,
        f@[0]@.len() == 2,
        f@[1]@.len() == 2,
        f@[0]@[0].id == 5,
        f@[0]@[1].id == 7,
        f@[1]@[0].id == 6,
        f@[1]@[1].id == 8,
{
    let mut row0: Vec<Enemy> = Vec::new();
    row0.push(test_circle(5));
    row0.push(test_circle(7));
    let mut row1: Vec<Enemy> = Vec::new();
    row1.push(test_circle(6));
    row1.push(test_circle(8));
    let mut formation: Vec<Vec<Enemy>> = Vec::new();
    formation.push(row0);
    formation.push(row1);
    formation
}

} // verus!
