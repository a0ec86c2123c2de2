//! Combat actions as pure data: an action is a pair of effects, one computed
//! once against the actor (producing a damage value) and one applied to each
//! target's state.

use vstd::prelude::*;

use crate::notification::{Notification, NOTIFICATION_SHOW_TICKS};
use crate::state::BattleState;

verus! {

/// Damage an applied action never exceeds.
pub const DAMAGE_CAP: u64 = 9999;

/// Closed set of combat actions; each variant is one compute/apply strategy.
#[derive(Clone, Copy, PartialEq, Eq, Structural, Debug)]
pub enum Action {
    PhysicalAttack,
}

/// Where the target-selection cursor starts when an action asks for a target.
#[derive(Clone, Copy, PartialEq, Eq, Structural, Debug)]
pub enum BattleActionTargetStart {
    Enemies,
    Party,
    Myself,
}

/// The outgoing damage an action computes against the actor: a physical
/// attack multiplies the attack stat by the random draw.
pub open spec fn computed_damage(action: Action, att: int, draw: int) -> int {
    match action {
        Action::PhysicalAttack => att * draw,
    }
}

/// What an incoming damage value takes off the target: scaled against the
/// target's defence and capped.
pub open spec fn applied_damage(action: Action, damage: int, def: int) -> int
    recommends
        def >= 1,
{
    match action {
        Action::PhysicalAttack => vstd::math::min(DAMAGE_CAP as int, damage * 5 / def),
    }
}

/// A combatant state after an incoming damage value has been applied.
pub open spec fn damaged(s: BattleState, action: Action, damage: int) -> BattleState {
    BattleState {
        hp: vstd::math::max(0, s.hp - applied_damage(action, damage, s.def as int)) as u16,
        ..s
    }
}

impl Action {
    /// Actor-side effect: posts the action's name and returns the outgoing
    /// damage computed from the actor's stats and the random draw. The draw
    /// is a uniform integer in 9..=11 handed in by the caller.
    pub fn compute(
        &self,
        actor: &mut BattleState,
        notification: &mut Notification,
        draw: u8,
    ) -> (damage: u64)
        requires
            9 <= draw <= 11,
        ensures
            damage as int == computed_damage(*self, old(actor).att as int, draw as int),
            *final(actor) == *old(actor),
            final(notification).text@ == "Attack"@,
            final(notification).show_time_left == NOTIFICATION_SHOW_TICKS,
    {
        match self {
            Action::PhysicalAttack => {
                notification.set_notification("Attack".to_owned());
                let att = actor.get_attack_stat();
                proof {
                    assert((att as int) * (draw as int) <= 0xffffffffint * 11)
                        by (nonlinear_arith)
                        requires
                            att as int <= 0xffffffff,
                            0 <= draw as int <= 11;
                }
                (att as u64) * (draw as u64)
            },
        }
    }

    /// Target-side effect: reduces the target's hit points by the incoming
    /// damage scaled against its defence, capped at `DAMAGE_CAP`, and clamped
    /// so hit points never go below zero.
    pub fn apply(&self, target: &mut BattleState, damage: u64)
        requires
            old(target).wf(),
        ensures
            final(target).wf(),
            *final(target) == damaged(*old(target), *self, damage as int),
            final(target).hp as int == vstd::math::max(
                0,
                old(target).hp - applied_damage(*self, damage as int, old(target).def as int),
            ),
    {
        match self {
            Action::PhysicalAttack => {
                let q: u128 = damage as u128 * 5 / (target.get_defence_stat() as u128);
                let amount: u16 = if q > DAMAGE_CAP as u128 {
                    DAMAGE_CAP as u16
                } else {
                    q as u16
                };
                target.reduce_hp(amount);
            },
        }
    }
}

} // verus!
