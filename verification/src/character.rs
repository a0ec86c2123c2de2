//! A party member in battle: an animation timeline plus combat state, with
//! the turn lifecycle (start turn, act, receive an action, end turn) driven
//! one tick at a time.

use vstd::prelude::*;

use crate::actions::{damaged, Action, BattleActionTargetStart};
use crate::animation::{
    character_advanced, character_started, stand_sprite, Animation, CharacterAnimation, Direction,
    DAMAGE_FRAME,
};
use crate::battle_menus;
use crate::menu::{MenuItem, MenuScreen, OnClickEvent};
use crate::print_damage::{PrintDamage, DAMAGE_SHOW_TICKS};
use crate::sfx::SfxRequest;
use crate::state::{atb_ticked, turn_ended, turn_started, BattleState};

verus! {

/// Saturating move along one axis; positions never wrap.
pub open spec fn moved_i64(x: int, delta: int) -> int {
    if x + delta < i64::MIN as int {
        i64::MIN as int
    } else if x + delta > i64::MAX as int {
        i64::MAX as int
    } else {
        x + delta
    }
}

/// One named ability of a character: the label shown in the battle menu, the
/// action it performs and where its target selection starts.
pub struct Ability {
    pub name: String,
    pub action: Action,
    pub target_start: BattleActionTargetStart,
}

pub struct Character {
    pub animation: CharacterAnimation,
    pub name: String,
    pub id: usize,
    pub x: i64,
    pub y: i64,
    pub state: BattleState,
    pub attack_ability: Ability,
    pub primary_ability: Ability,
    pub secondary_ability: Ability,
}

/// Every member of a party roster is well-formed.
pub open spec fn party_wf(party: Seq<Character>) -> bool {
    forall|i: int| 0 <= i < party.len() ==> (#[trigger] party[i]).wf()
}

/// How many members of the roster are alive.
pub open spec fn living_count(party: Seq<Character>) -> int
    decreases party.len(),
{
    if party.len() == 0 {
        0
    } else {
        living_count(party.drop_last()) + (if party.last().state.hp > 0 {
            1int
        } else {
            0int
        })
    }
}

/// A member after earning `amount` experience, level-ups included.
pub open spec fn with_experience(c: Character, amount: int) -> Character {
    let settled = crate::state::settled_level_experience(
        c.state.level as int,
        c.state.experience + amount,
    );
    Character {
        state: BattleState { level: settled.0 as u32, experience: settled.1 as u32, ..c.state },
        ..c
    }
}

/// A whole member one tick later: the meter accumulates, a running timeline
/// advances one frame, a finished attack or recoil chains into the
/// end-of-turn walk, a finished hurt that left no hit points starts the dead
/// pose, a finished end-of-turn resets the turn state, and the walk phases
/// move the member across the screen.
pub open spec fn char_ticked(c: Character) -> Character {
    let s1 = atb_ticked(c.state);
    if c.animation.remaining_frames == 0 {
        Character { state: s1, ..c }
    } else {
        let tag = c.animation.animation;
        let a1 = character_advanced(c.animation);
        Character {
            animation: if a1.remaining_frames == 0 && (tag is Attack || tag is HurtSelf) {
                character_started(a1, Animation::EndTurn)
            } else if a1.remaining_frames == 0 && tag is Hurt && s1.hp == 0 {
                character_started(a1, Animation::Dead)
            } else {
                a1
            },
            state: if a1.remaining_frames == 0 && tag is EndTurn {
                turn_ended(s1)
            } else if a1.remaining_frames == DAMAGE_FRAME {
                match tag {
                    Animation::Hurt(act, dmg) => damaged(s1, act, dmg as int),
                    Animation::HurtSelf(act, dmg) => damaged(s1, act, dmg as int),
                    _ => s1,
                }
            } else {
                s1
            },
            x: if a1.remaining_frames > 0 {
                if tag is StartTurn {
                    moved_i64(c.x as int, 5) as i64
                } else if tag is EndTurn {
                    moved_i64(c.x as int, -14) as i64
                } else if tag is Attack && a1.remaining_frames > 24 {
                    moved_i64(c.x as int, 5) as i64
                } else {
                    c.x
                }
            } else {
                c.x
            },
            ..c
        }
    }
}

/// Whether one tick of this member reports its turn fully over: the last
/// frame of the end-of-turn walk or of the victory celebration.
pub open spec fn char_tick_done(c: Character) -> bool {
    c.animation.remaining_frames == 1 && (c.animation.animation is EndTurn
        || c.animation.animation is Victory)
}

/// Count the living members of the roster.
pub fn alive_members_count(party: &Vec<Character>) -> (r: usize)
    ensures
        r as int == living_count(party@),
{
    let mut count: usize = 0;
    let mut i: usize = 0;
    while i < party.len()
        invariant
            i <= party@.len(),
            count <= i,
            count as int == living_count(party@.subrange(0, i as int)),
        decreases party@.len() - i,
    {
        proof {
            assert(party@.subrange(0, i + 1).drop_last() =~= party@.subrange(0, i as int));
            assert(party@.subrange(0, i + 1).last() == party@[i as int]);
        }
        if party[i].get_battle_state().get_hp() > 0 {
            count = count + 1;
        }
        i = i + 1;
    }
    proof {
        assert(party@.subrange(0, party@.len() as int) =~= party@);
    }
    count
}

impl Character {
    /// Party members occupy the fixed turn-id slots 1 through 4.
    pub open spec fn wf(&self) -> bool {
        &&& self.state.wf()
        &&& 1 <= self.id <= 4
    }

    pub fn new(
        name: String,
        sprite_folder: String,
        id: usize,
        level: u32,
        hp: u16,
        mp: u16,
        att: u32,
        def: u32,
        mag: u32,
        intelligence: u32,
        res: u32,
        agi: u32,
        attack_ability: Ability,
        primary_ability: Ability,
        secondary_ability: Ability,
    ) -> (c: Self)
        requires
            1 <= id <= 4,
            1 <= level,
            1 <= def,
        ensures
            c.wf(),
            c.name == name,
            c.id == id,
            c.x == 0,
            c.y == 0,
            c.animation.sprite_folder == sprite_folder,
            c.animation.remaining_frames == 0,
            c.state.level == level,
            c.state.hp == hp,
            c.state.max_hp == hp,
            c.state.mp == mp,
            c.state.att == att,
            c.state.def == def,
            c.state.mag == mag,
            c.state.intelligence == intelligence,
            c.state.res == res,
            c.state.agi == agi,
            c.state.atb == 0,
            c.state.experience == 0,
            !c.state.is_turn_active,
            c.attack_ability == attack_ability,
            c.primary_ability == primary_ability,
            c.secondary_ability == secondary_ability,
    {
        Self {
            animation: CharacterAnimation::new(sprite_folder),
            name,
            id,
            x: 0,
            y: 0,
            state: BattleState::new(level, hp, mp, att, def, mag, intelligence, res, agi),
            attack_ability,
            primary_ability,
            secondary_ability,
        }
    }

    /// One tick of this member: the ATB meter accumulates, then a running
    /// timeline advances one frame; its completion either opens the battle
    /// menu (start of turn), chains into the end-of-turn walk, or reports the
    /// turn fully over; at the damage frame of a hurt timeline the attached
    /// action lands on this member's own state.
    pub fn update(
        &mut self,
        battle_menu: &mut MenuScreen,
        print_damage: &mut PrintDamage,
        sfx: &mut Vec<SfxRequest>,
    ) -> (turn_done: bool)
        requires
            old(self).wf(),
        ensures
            final(self).wf(),
            *final(self) == char_ticked(*old(self)),
            turn_done == char_tick_done(*old(self)),
            final(self).name == old(self).name,
            final(self).id == old(self).id,
            final(self).y == old(self).y,
            // Idle timeline: nothing but the meter moves.
            old(self).animation.remaining_frames == 0 ==> {
                &&& !turn_done
                &&& *final(self) == (Character { state: atb_ticked(old(self).state), ..*old(self) })
                &&& *final(battle_menu) == *old(battle_menu)
                &&& *final(print_damage) == *old(print_damage)
                &&& final(sfx)@ == old(sfx)@
            },
            // Running timeline: exactly one frame elapses.
            old(self).animation.remaining_frames >= 1 ==> ({
                let tag = old(self).animation.animation;
                let a1 = character_advanced(old(self).animation);
                let s1 = atb_ticked(old(self).state);
                let hit = a1.remaining_frames == DAMAGE_FRAME && (tag is Hurt || tag is HurtSelf);
                &&& turn_done == (a1.remaining_frames == 0 && (tag is EndTurn || tag is Victory))
                &&& final(self).animation == if a1.remaining_frames == 0 && (tag is Attack
                    || tag is HurtSelf) {
                    character_started(a1, Animation::EndTurn)
                } else if a1.remaining_frames == 0 && tag is Hurt && s1.hp == 0 {
                    character_started(a1, Animation::Dead)
                } else {
                    a1
                }
                &&& final(self).state == if a1.remaining_frames == 0 && tag is EndTurn {
                    turn_ended(s1)
                } else if a1.remaining_frames == DAMAGE_FRAME {
                    match tag {
                        Animation::Hurt(act, dmg) => damaged(s1, act, dmg as int),
                        Animation::HurtSelf(act, dmg) => damaged(s1, act, dmg as int),
                        _ => s1,
                    }
                } else {
                    s1
                }
                &&& final(self).x == if a1.remaining_frames > 0 {
                    if tag is StartTurn {
                        moved_i64(old(self).x as int, 5)
                    } else if tag is EndTurn {
                        moved_i64(old(self).x as int, -14)
                    } else if tag is Attack && a1.remaining_frames > 24 {
                        moved_i64(old(self).x as int, 5)
                    } else {
                        old(self).x as int
                    }
                } else {
                    old(self).x as int
                }
                &&& (a1.remaining_frames == 0 && tag is StartTurn)
                    ==> battle_menus::is_main_battle_menu(*final(battle_menu), *old(self))
                        && final(battle_menu).wf()
                &&& !(a1.remaining_frames == 0 && tag is StartTurn) ==> *final(battle_menu)
                    == *old(battle_menu)
                &&& *final(print_damage) == if hit {
                    (PrintDamage {
                        value: match tag {
                            Animation::Hurt(_, dmg) => dmg,
                            Animation::HurtSelf(_, dmg) => dmg,
                            _ => 0,
                        },
                        x: moved_i64(old(self).x as int, 32) as i64,
                        y: moved_i64(old(self).y as int, 32) as i64,
                        show_time_left: DAMAGE_SHOW_TICKS,
                    })
                } else {
                    *old(print_damage)
                }
                &&& final(sfx)@ == if hit {
                    old(sfx)@.push(SfxRequest::PhysicalHit)
                } else {
                    old(sfx)@
                }
                &&& final(self).attack_ability == old(self).attack_ability
                &&& final(self).primary_ability == old(self).primary_ability
                &&& final(self).secondary_ability == old(self).secondary_ability
            }),
    {
        self.state.update();
        if self.animation.is_currently_animating() {
            let animation_done = self.animation.advance_animation();
            if animation_done {
                match self.animation.get_current_animation() {
                    Animation::StartTurn => {
                        battle_menu.set_menu(battle_menus::main_battle_menu(self));
                    },
                    Animation::EndTurn => {
                        self.state.end_turn();
                        return true;
                    },
                    Animation::Attack | Animation::HurtSelf(_, _) => {
                        self.animation.start_animation(Animation::EndTurn);
                    },
                    Animation::Victory => {
                        return true;
                    },
                    Animation::Hurt(_, _) => {
                        if self.state.get_hp() == 0 {
                            self.animation.start_animation(Animation::Dead);
                        }
                    },
                    _ => (),
                }
            } else {
                match self.animation.get_current_animation() {
                    Animation::StartTurn => {
                        self.x = add_position(self.x, 5);
                    },
                    Animation::EndTurn => {
                        self.x = add_position(self.x, -14);
                    },
                    Animation::Attack => {
                        if self.animation.get_frames_remaining() > 24 {
                            self.x = add_position(self.x, 5);
                        }
                    },
                    Animation::Hurt(action, incoming_damage)
                    | Animation::HurtSelf(action, incoming_damage) => {
                        if self.animation.get_frames_remaining() == DAMAGE_FRAME {
                            action.apply(&mut self.state, incoming_damage);
                            print_damage.set(
                                incoming_damage,
                                add_position(self.x, 32),
                                add_position(self.y, 32),
                            );
                            sfx.push(SfxRequest::PhysicalHit);
                        }
                    },
                    _ => (),
                };
            }
        }
        false
    }

    /// Take battle positions: the member lines up on the left, facing the
    /// enemies, or away from them when surprised.
    pub fn start_battle(&mut self, surprise: bool)
        requires
            old(self).wf(),
        ensures
            final(self).wf(),
            final(self).x == 100,
            final(self).y == old(self).id * 80,
            final(self).animation == (CharacterAnimation {
                sprite: stand_sprite(
                    if surprise {
                        Direction::Left
                    } else {
                        Direction::Right
                    },
                ),
                ..old(self).animation
            }),
            *final(self) == (Character {
                x: 100,
                y: final(self).y,
                animation: final(self).animation,
                ..*old(self)
            }),
    {
        self.x = 100;
        self.y = (self.id * 80) as i64;
        if surprise {
            self.animation.turn_character(Direction::Left);
        } else {
            self.animation.turn_character(Direction::Right);
        }
    }

    /// The scheduler assigned this member the turn: mark it active and walk
    /// in.
    pub fn start_turn(&mut self)
        ensures
            *final(self) == (Character {
                state: turn_started(old(self).state),
                animation: character_started(old(self).animation, Animation::StartTurn),
                ..*old(self)
            }),
    {
        self.state.start_turn();
        self.animation.start_animation(Animation::StartTurn);
    }

    /// Begin the attack timeline of this member's chosen action.
    pub fn perform_battle_action(&mut self)
        ensures
            *final(self) == (Character {
                animation: character_started(old(self).animation, Animation::Attack),
                ..*old(self)
            }),
    {
        self.animation.start_animation(Animation::Attack);
    }

    /// An action lands on this member: damage on one's own turn plays the
    /// shorter recoil timeline, damage on someone else's turn the full one.
    /// The effect and amount ride on the timeline until its damage frame.
    pub fn receive_battle_action(&mut self, action: Action, incoming_damage: u64)
        ensures
            *final(self) == (Character {
                animation: character_started(
                    old(self).animation,
                    if old(self).state.is_turn_active {
                        Animation::HurtSelf(action, incoming_damage)
                    } else {
                        Animation::Hurt(action, incoming_damage)
                    },
                ),
                ..*old(self)
            }),
    {
        if self.get_battle_state().is_turn_active() {
            self.animation.start_animation(Animation::HurtSelf(action, incoming_damage));
        } else {
            self.animation.start_animation(Animation::Hurt(action, incoming_damage));
        }
    }

    /// The battle is won: a living member celebrates; a fallen one stays down.
    pub fn battle_won(&mut self)
        ensures
            *final(self) == (Character {
                animation: if old(self).state.hp > 0 {
                    character_started(old(self).animation, Animation::Victory)
                } else {
                    old(self).animation
                },
                ..*old(self)
            }),
    {
        if self.get_battle_state().get_hp() > 0 {
            self.animation.start_animation(Animation::Victory);
        }
    }

    pub fn is_atb_full(&self) -> (r: bool)
        ensures
            r == (self.state.atb == crate::state::ATB_FULL),
    {
        self.state.is_atb_full()
    }

    pub fn get_name(&self) -> (r: String)
        ensures
            r == self.name,
    {
        self.name.clone()
    }

    pub fn get_id(&self) -> (r: usize)
        ensures
            r == self.id,
    {
        self.id
    }

    pub fn get_coords(&self) -> (r: (i64, i64))
        ensures
            r.0 == self.x,
            r.1 == self.y,
    {
        (self.x, self.y)
    }

    pub fn get_battle_state(&self) -> (r: &BattleState)
        ensures
            r == self.state,
    {
        &self.state
    }

    pub fn get_battle_state_mut(&mut self) -> (r: &mut BattleState)
        ensures
            *r == old(self).state,
            *final(self) == (Character { state: *final(r), ..*old(self) }),
    {
        &mut self.state
    }

    /// The attack ability as a battle-menu entry: clicking it opens target
    /// selection for its action.
    pub fn get_attack_ability_as_menuitem(&self) -> (m: MenuItem)
        ensures
            m.text == self.attack_ability.name,
            m.x == 70,
            m.y == 468,
            m.on_click == OnClickEvent::ToTargetSelection(
                self.attack_ability.action,
                self.attack_ability.target_start,
            ),
    {
        let on_click = OnClickEvent::ToTargetSelection(
            self.attack_ability.action,
            self.attack_ability.target_start,
        );
        MenuItem::new(self.attack_ability.name.clone(), 70, 468, on_click)
    }

    pub fn get_primary_ability_as_menuitem(&self) -> (m: MenuItem)
        ensures
            m.text == self.primary_ability.name,
            m.x == 70,
            m.y == 500,
            m.on_click is NoEvent,
    {
        MenuItem::new(self.primary_ability.name.clone(), 70, 500, OnClickEvent::NoEvent)
    }

    pub fn get_secondary_ability_as_menuitem(&self) -> (m: MenuItem)
        ensures
            m.text == self.secondary_ability.name,
            m.x == 70,
            m.y == 532,
            m.on_click is NoEvent,
    {
        MenuItem::new(self.secondary_ability.name.clone(), 70, 532, OnClickEvent::NoEvent)
    }
}

/// Saturating position arithmetic: offsets drift over turns and must never
/// wrap.
fn add_position(x: i64, delta: i64) -> (r: i64)
    ensures
        r as int == moved_i64(x as int, delta as int),
{
    if delta >= 0 {
        if x <= i64::MAX - delta {
            x + delta
        } else {
            i64::MAX
        }
    } else {
        if x >= i64::MIN - delta {
            x + delta
        } else {
            i64::MIN
        }
    }
}

} // verus!
