//! Floating damage-number display: the core tracks the value, where it was
//! set and how many ticks it stays visible; the renderer animates the drift
//! and fade from that.

use vstd::prelude::*;

verus! {

/// How many ticks a freshly set damage number stays visible.
pub const DAMAGE_SHOW_TICKS: u8 = 60;

pub struct PrintDamage {
    pub value: u64,
    pub x: i64,
    pub y: i64,
    pub show_time_left: u8,
}

impl PrintDamage {
    pub fn new() -> (p: Self)
        ensures
            p.value == 0,
            p.x == 0,
            p.y == 0,
            p.show_time_left == 0,
    {
        Self { value: 0, x: 0, y: 0, show_time_left: 0 }
    }

    pub fn set(&mut self, value: u64, x: i64, y: i64)
        ensures
            final(self).value == value,
            final(self).x == x,
            final(self).y == y,
            final(self).show_time_left == DAMAGE_SHOW_TICKS,
    {
        self.value = value;
        self.x = x;
        self.y = y;
        self.show_time_left = DAMAGE_SHOW_TICKS;
    }

    /// One tick: the remaining show time counts down and stops at zero.
    pub fn update(&mut self)
        ensures
            final(self).show_time_left as int
                == vstd::math::max(0, old(self).show_time_left - 1),
            *final(self) == (PrintDamage {
                show_time_left: final(self).show_time_left,
                ..*old(self)
            }),
    {
        if self.show_time_left > 0 {
            self.show_time_left = self.show_time_left - 1;
        }
    }

    pub fn is_visible(&self) -> (r: bool)
        ensures
            r == (self.show_time_left > 0),
    {
        self.show_time_left > 0
    }
}

} // verus!
