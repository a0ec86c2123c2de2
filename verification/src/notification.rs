//! Short-lived message line: combat actions post a text that stays visible
//! for a fixed number of ticks.

use vstd::prelude::*;

verus! {

/// How many ticks a freshly posted notification stays visible.
pub const NOTIFICATION_SHOW_TICKS: u8 = 60;

pub struct Notification {
    pub text: String,
    pub show_time_left: u8,
}

impl Notification {
    pub fn new() -> (n: Self)
        ensures
            n.text@ == Seq::<char>::empty(),
            n.show_time_left == 0,
    {
        Self { text: String::new(), show_time_left: 0 }
    }

    /// One tick: the remaining show time counts down and stops at zero.
    pub fn update(&mut self)
        ensures
            final(self).show_time_left as int
                == vstd::math::max(0, old(self).show_time_left - 1),
            final(self).text == old(self).text,
    {
        if self.show_time_left > 0 {
            self.show_time_left = self.show_time_left - 1;
        }
    }

    pub fn set_notification(&mut self, text: String)
        ensures
            final(self).text == text,
            final(self).show_time_left == NOTIFICATION_SHOW_TICKS,
    {
        self.text = text;
        self.show_time_left = NOTIFICATION_SHOW_TICKS;
    }

    pub fn get_text(&self) -> (r: &String)
        ensures
            r == self.text,
    {
        &self.text
    }

    /// A notification is drawn while its show time has not run out.
    pub fn is_visible(&self) -> (r: bool)
        ensures
            r == (self.show_time_left > 0),
    {
        self.show_time_left > 0
    }
}

} // verus!
