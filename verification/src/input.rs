//! What the outside world feeds into a tick: a snapshot of the player's keys
//! (computed once per frame by the input shell) and the random draws the
//! tick's combat decisions may consume.

use vstd::prelude::*;

verus! {

/// Edge-triggered key presses for one tick. `confirm` is the interact/accept
/// key, `cancel` the back/return key, `menu` opens the main menu.
#[derive(Clone, Copy, PartialEq, Eq, Structural, Debug)]
pub struct InputSnapshot {
    pub confirm: bool,
    pub cancel: bool,
    pub menu: bool,
    pub up: bool,
    pub down: bool,
    pub left: bool,
    pub right: bool,
}

impl InputSnapshot {
    /// A tick on which nothing is pressed.
    pub fn idle() -> (r: Self)
        ensures
            r == (InputSnapshot {
                confirm: false,
                cancel: false,
                menu: false,
                up: false,
                down: false,
                left: false,
                right: false,
            }),
    {
        InputSnapshot {
            confirm: false,
            cancel: false,
            menu: false,
            up: false,
            down: false,
            left: false,
            right: false,
        }
    }
}

/// Random draws for one tick, pre-drawn by the shell. `damage_draw` is the
/// uniform damage multiplier in 9..=11; `target_pick` is an arbitrary draw
/// reduced modulo the number of eligible targets when an enemy picks one.
#[derive(Clone, Copy, PartialEq, Eq, Structural, Debug)]
pub struct TickRandom {
    pub damage_draw: u8,
    pub target_pick: usize,
}

impl TickRandom {
    /// Whether the draws are in the ranges the combat formulas expect.
    pub open spec fn wf(&self) -> bool {
        9 <= self.damage_draw <= 11
    }

    pub fn new(damage_draw: u8, target_pick: usize) -> (r: Self)
        requires
            9 <= damage_draw <= 11,
        ensures
            r.wf(),
            r == (TickRandom { damage_draw, target_pick }),
    {
        TickRandom { damage_draw, target_pick }
    }
}

} // verus!
