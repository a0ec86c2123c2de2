//! An enemy in battle: an animation timeline plus combat state, a fixed
//! behaviour script, and the experience it is worth. Its per-tick update
//! reports turn progression to the scheduler as a small signal code.

use vstd::prelude::*;

use crate::actions::{damaged, Action};
use crate::animation::{
    enemy_advanced, enemy_started, Animation, EnemyAnimation, ATTACK_POSE_FRAME, DAMAGE_FRAME,
};
use crate::character::moved_i64;
use crate::print_damage::{PrintDamage, DAMAGE_SHOW_TICKS};
use crate::sfx::SfxRequest;
use crate::state::{atb_ticked, turn_ended, turn_started, BattleState};

verus! {

/// The fixed behaviour scripts an enemy can run on its turn.
#[derive(Clone, Copy, PartialEq, Eq, Structural, Debug)]
pub enum EnemyScript {
    AttackRandomPartyMember,
}

/// Turn-progression signals an enemy reports to the scheduler.
pub const SIGNAL_NONE: u8 = 0;

/// The enemy's attack reached its action frame: run its behaviour script now.
pub const SIGNAL_RUN_SCRIPT: u8 = 1;

/// The enemy's turn is fully over: release the turn slot.
pub const SIGNAL_TURN_OVER: u8 = 2;

/// The enemy just fell: award its experience to the pending total.
pub const SIGNAL_AWARD_EXPERIENCE: u8 = 3;

pub struct Enemy {
    pub animation: EnemyAnimation,
    pub name: String,
    pub id: usize,
    pub state: BattleState,
    pub battle_script: EnemyScript,
    pub experience_value: u32,
}

/// Every enemy in the formation grid is well-formed.
pub open spec fn enemies_wf(enemies: Seq<Vec<Enemy>>) -> bool {
    forall|i: int, j: int|
        0 <= i < enemies.len() && 0 <= j < enemies[i]@.len() ==> (#[trigger] enemies[i]@[j]).wf()
}

/// The combatant state an enemy tick leaves behind: meter accumulation, the
/// damage landing at the hurt timeline's damage frame, and the full turn
/// reset when an attack or recoil finishes.
pub open spec fn enemy_ticked_state(e: Enemy) -> BattleState {
    let s1 = atb_ticked(e.state);
    if e.animation.remaining_frames == 0 {
        s1
    } else {
        let tag = e.animation.animation;
        let a1 = enemy_advanced(e.animation);
        let s2 = if a1.remaining_frames == DAMAGE_FRAME {
            match tag {
                Animation::Hurt(act, dmg) => damaged(s1, act, dmg as int),
                Animation::HurtSelf(act, dmg) => damaged(s1, act, dmg as int),
                _ => s1,
            }
        } else {
            s1
        };
        if a1.remaining_frames == 0 && (tag is Attack || tag is HurtSelf) {
            turn_ended(s1)
        } else {
            s2
        }
    }
}

/// A whole enemy one tick later.
pub open spec fn enemy_ticked(e: Enemy) -> Enemy {
    if e.animation.remaining_frames == 0 {
        Enemy { state: enemy_ticked_state(e), ..e }
    } else {
        let tag = e.animation.animation;
        let a1 = enemy_advanced(e.animation);
        Enemy {
            animation: if a1.remaining_frames == 0 && tag is Hurt && enemy_ticked_state(e).hp
                == 0 {
                enemy_started(a1, Animation::Dead)
            } else {
                a1
            },
            state: enemy_ticked_state(e),
            ..e
        }
    }
}

/// The turn-progression signal one tick of this enemy reports.
pub open spec fn enemy_tick_signal(e: Enemy) -> u8 {
    if e.animation.remaining_frames == 0 {
        SIGNAL_NONE
    } else {
        let tag = e.animation.animation;
        let a1 = enemy_advanced(e.animation);
        let s1 = atb_ticked(e.state);
        let hit = a1.remaining_frames == DAMAGE_FRAME && (tag is Hurt || tag is HurtSelf);
        if a1.remaining_frames == 0 && (tag is Attack || tag is HurtSelf) {
            SIGNAL_TURN_OVER
        } else if a1.remaining_frames == ATTACK_POSE_FRAME && tag is Attack {
            SIGNAL_RUN_SCRIPT
        } else if hit && s1.hp > 0 && enemy_ticked_state(e).hp == 0 {
            SIGNAL_AWARD_EXPERIENCE
        } else {
            SIGNAL_NONE
        }
    }
}

impl Enemy {
    /// Enemies occupy the turn-id space from 5 upward.
    pub open spec fn wf(&self) -> bool {
        &&& self.state.wf()
        &&& 5 <= self.id
    }

    pub fn new(
        sprite_key: String,
        name: String,
        id: usize,
        level: u32,
        hp: u16,
        mp: u16,
        att: u32,
        def: u32,
        mag: u32,
        intelligence: u32,
        res: u32,
        agi: u32,
        experience_value: u32,
        battle_script: EnemyScript,
    ) -> (e: Self)
        requires
            5 <= id,
            1 <= level,
            1 <= def,
        ensures
            e.wf(),
            e.name == name,
            e.id == id,
            e.animation.sprite_key == sprite_key,
            e.animation.remaining_frames == 0,
            e.animation.x_offset == 0,
            e.animation.opacity == 100,
            e.state.level == level,
            e.state.hp == hp,
            e.state.max_hp == hp,
            e.state.mp == mp,
            e.state.att == att,
            e.state.def == def,
            e.state.mag == mag,
            e.state.intelligence == intelligence,
            e.state.res == res,
            e.state.agi == agi,
            e.state.atb == 0,
            !e.state.is_turn_active,
            e.battle_script == battle_script,
            e.experience_value == experience_value,
    {
        Self {
            animation: EnemyAnimation::new(sprite_key),
            name,
            id,
            state: BattleState::new(level, hp, mp, att, def, mag, intelligence, res, agi),
            battle_script,
            experience_value,
        }
    }

    /// One tick of this enemy, drawn at screen position (x, y). The ATB meter
    /// accumulates, then a running timeline advances one frame. The signal
    /// reports: the attack's action frame was reached (run the script), the
    /// turn is fully over (release the slot), or the enemy just fell to the
    /// damage landing at the hurt timeline's damage frame (award its
    /// experience).
    pub fn update(
        &mut self,
        x: i64,
        y: i64,
        print_damage: &mut PrintDamage,
        sfx: &mut Vec<SfxRequest>,
    ) -> (signal: u8)
        requires
            old(self).wf(),
        ensures
            final(self).wf(),
            *final(self) == enemy_ticked(*old(self)),
            signal == enemy_tick_signal(*old(self)),
            final(self).name == old(self).name,
            final(self).id == old(self).id,
            final(self).battle_script == old(self).battle_script,
            final(self).experience_value == old(self).experience_value,
            // Idle timeline: nothing but the meter moves.
            old(self).animation.remaining_frames == 0 ==> {
                &&& signal == SIGNAL_NONE
                &&& *final(self) == (Enemy { state: atb_ticked(old(self).state), ..*old(self) })
                &&& *final(print_damage) == *old(print_damage)
                &&& final(sfx)@ == old(sfx)@
            },
            // Running timeline: exactly one frame elapses.
            old(self).animation.remaining_frames >= 1 ==> ({
                let tag = old(self).animation.animation;
                let a1 = enemy_advanced(old(self).animation);
                let s1 = atb_ticked(old(self).state);
                let hit = a1.remaining_frames == DAMAGE_FRAME && (tag is Hurt || tag is HurtSelf);
                let s2 = if hit {
                    match tag {
                        Animation::Hurt(act, dmg) => damaged(s1, act, dmg as int),
                        Animation::HurtSelf(act, dmg) => damaged(s1, act, dmg as int),
                        _ => s1,
                    }
                } else {
                    s1
                };
                let fell = hit && s1.hp > 0 && s2.hp == 0;
                &&& signal == if a1.remaining_frames == 0 && (tag is Attack || tag is HurtSelf) {
                    SIGNAL_TURN_OVER as int
                } else if a1.remaining_frames == ATTACK_POSE_FRAME && tag is Attack {
                    SIGNAL_RUN_SCRIPT as int
                } else if fell {
                    SIGNAL_AWARD_EXPERIENCE as int
                } else {
                    SIGNAL_NONE as int
                }
                &&& final(self).animation == if a1.remaining_frames == 0 && tag is Hurt && s2.hp
                    == 0 {
                    enemy_started(a1, Animation::Dead)
                } else {
                    a1
                }
                &&& final(self).state == if a1.remaining_frames == 0 && (tag is Attack
                    || tag is HurtSelf) {
                    turn_ended(s1)
                } else {
                    s2
                }
                &&& *final(print_damage) == if hit {
                    (PrintDamage {
                        value: match tag {
                            Animation::Hurt(_, dmg) => dmg,
                            Animation::HurtSelf(_, dmg) => dmg,
                            _ => 0,
                        },
                        x: moved_i64(x as int, -16) as i64,
                        y: moved_i64(y as int, 32) as i64,
                        show_time_left: DAMAGE_SHOW_TICKS,
                    })
                } else {
                    *old(print_damage)
                }
                &&& final(sfx)@ == if hit {
                    old(sfx)@.push(SfxRequest::PhysicalHit)
                } else {
                    old(sfx)@
                }
            }),
    {
        self.state.update();
        if self.animation.is_currently_animating() {
            let animation_done = self.animation.advance_animation();
            if animation_done {
                match self.animation.get_current_animation() {
                    Animation::Attack | Animation::HurtSelf(_, _) => {
                        self.state.end_turn();
                        return SIGNAL_TURN_OVER;
                    },
                    Animation::Hurt(_, _) => {
                        if self.state.get_hp() == 0 {
                            self.animation.start_animation(Animation::Dead);
                        }
                    },
                    _ => (),
                };
            } else {
                match self.animation.get_current_animation() {
                    Animation::Attack => {
                        if self.animation.get_frames_remaining() == ATTACK_POSE_FRAME {
                            return SIGNAL_RUN_SCRIPT;
                        }
                    },
                    Animation::Hurt(action, incoming_damage)
                    | Animation::HurtSelf(action, incoming_damage) => {
                        if self.animation.get_frames_remaining() == DAMAGE_FRAME {
                            let was_alive = self.state.get_hp() > 0;
                            action.apply(&mut self.state, incoming_damage);
                            print_damage.set(
                                incoming_damage,
                                sub_position(x, 16),
                                add_position_enemy(y, 32),
                            );
                            sfx.push(SfxRequest::PhysicalHit);
                            if was_alive && self.state.get_hp() == 0 {
                                return SIGNAL_AWARD_EXPERIENCE;
                            }
                        }
                    },
                    _ => (),
                };
            }
        }
        SIGNAL_NONE
    }

    /// The scheduler assigned this enemy the turn: mark it active and begin
    /// its scripted attack at once.
    pub fn start_turn(&mut self)
        ensures
            *final(self) == (Enemy {
                state: turn_started(old(self).state),
                animation: enemy_started(old(self).animation, Animation::Attack),
                ..*old(self)
            }),
    {
        self.state.start_turn();
        self.animation.start_animation(Animation::Attack);
    }

    /// An action lands on this enemy: recoil on its own turn, the full hurt
    /// timeline otherwise.
    pub fn receive_battle_action(&mut self, action: Action, incoming_damage: u64)
        ensures
            *final(self) == (Enemy {
                animation: enemy_started(
                    old(self).animation,
                    if old(self).state.is_turn_active {
                        Animation::HurtSelf(action, incoming_damage)
                    } else {
                        Animation::Hurt(action, incoming_damage)
                    },
                ),
                ..*old(self)
            }),
    {
        if self.get_battle_state().is_turn_active() {
            self.animation.start_animation(Animation::HurtSelf(action, incoming_damage));
        } else {
            self.animation.start_animation(Animation::Hurt(action, incoming_damage));
        }
    }

    pub fn is_atb_full(&self) -> (r: bool)
        ensures
            r == (self.state.atb == crate::state::ATB_FULL),
    {
        self.state.is_atb_full()
    }

    pub fn get_id(&self) -> (r: usize)
        ensures
            r == self.id,
    {
        self.id
    }

    pub fn get_name(&self) -> (r: String)
        ensures
            r == self.name,
    {
        self.name.clone()
    }

    pub fn get_battle_state(&self) -> (r: &BattleState)
        ensures
            r == self.state,
    {
        &self.state
    }

    pub fn get_battle_state_mut(&mut self) -> (r: &mut BattleState)
        ensures
            *r == old(self).state,
            *final(self) == (Enemy { state: *final(r), ..*old(self) }),
    {
        &mut self.state
    }

    pub fn get_battle_script(&self) -> (r: EnemyScript)
        ensures
            r == self.battle_script,
    {
        self.battle_script
    }

    /// The experience this enemy is worth when it falls.
    pub fn get_experience(&self) -> (r: u32)
        ensures
            r == self.experience_value,
    {
        self.experience_value
    }
}

/// Saturating position arithmetic for the damage-number anchor.
fn sub_position(x: i64, delta: i64) -> (r: i64)
    requires
        delta >= 0,
    ensures
        r as int == moved_i64(x as int, -delta as int),
{
    if x >= i64::MIN + delta {
        x - delta
    } else {
        i64::MIN
    }
}

fn add_position_enemy(x: i64, delta: i64) -> (r: i64)
    requires
        delta >= 0,
    ensures
        r as int == moved_i64(x as int, delta as int),
{
    if x <= i64::MAX - delta {
        x + delta
    } else {
        i64::MAX
    }
}

} // verus!
