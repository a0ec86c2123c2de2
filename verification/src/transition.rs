//! Screen transitions: a fade-in to full cover, one deferred effect performed
//! at full cover (entering battle, leaving battle, opening a menu, changing
//! scene), then a fade-out. Opacity is held in thousandths of full cover.

use vstd::prelude::*;

use crate::menu::MenuKind;

verus! {

/// Scenes the game can change to; the shell builds the matching map.
#[derive(Clone, Copy, PartialEq, Eq, Structural, Debug)]
pub enum SceneKind {
    Blank,
    DebugRoom,
}

/// What a running transition does once the screen is fully covered. The
/// experience total to show rides along on the battle-end screen.
#[derive(Clone, Copy, PartialEq, Eq, Structural, Debug)]
pub enum TransitionStyle {
    Idle,
    WhiteIn,
    BlackIn,
    BattleIn,
    BattleOut,
    BattleEndScreen(u32),
    MenuIn(MenuKind),
    ChangeScene(SceneKind),
    WhiteOut,
    BlackOut,
}

/// Full cover, in thousandths.
pub const OPACITY_FULL: u32 = 1000;

/// One easing step of a fade-in: approach full cover and stop there.
pub open spec fn fade_in_step(o: int) -> int {
    vstd::math::min(OPACITY_FULL as int, ((o + 300) * 9) / 10)
}

/// One easing step of a fade-out: approach clear and stop there.
pub open spec fn fade_out_step(o: int) -> int {
    if o <= 250 {
        0
    } else {
        vstd::math::max(0, ((o - 250) * 11) / 10)
    }
}

pub struct Transition {
    pub style: TransitionStyle,
    pub opacity_milli: u32,
}

impl Transition {
    pub open spec fn wf(&self) -> bool {
        self.opacity_milli <= OPACITY_FULL
    }

    pub fn new() -> (t: Self)
        ensures
            t.wf(),
            t.style == TransitionStyle::Idle,
            t.opacity_milli == 0,
    {
        Self { style: TransitionStyle::Idle, opacity_milli: 0 }
    }

    pub fn set(&mut self, transition: TransitionStyle)
        ensures
            *final(self) == (Transition { style: transition, ..*old(self) }),
    {
        self.style = transition;
    }

    pub fn is_transitioning(&self) -> (r: bool)
        ensures
            r == (self.style != TransitionStyle::Idle),
    {
        match self.style {
            TransitionStyle::Idle => false,
            _ => true,
        }
    }

    pub fn get_style(&self) -> (r: TransitionStyle)
        ensures
            r == self.style,
    {
        self.style
    }

    pub fn get_opacity_milli(&self) -> (r: u32)
        ensures
            r == self.opacity_milli,
    {
        self.opacity_milli
    }

    /// One easing step toward full cover; reports whether cover is reached.
    fn fade_in(&mut self) -> (covered: bool)
        requires
            old(self).wf(),
        ensures
            final(self).wf(),
            final(self).opacity_milli as int == fade_in_step(old(self).opacity_milli as int),
            final(self).style == old(self).style,
            covered == (final(self).opacity_milli == OPACITY_FULL),
    {
        let next: u32 = ((self.opacity_milli + 300) * 9) / 10;
        if next >= OPACITY_FULL {
            self.opacity_milli = OPACITY_FULL;
        } else {
            self.opacity_milli = next;
        }
        self.opacity_milli == OPACITY_FULL
    }

    /// One easing step toward clear; reports whether fully clear.
    fn fade_out(&mut self) -> (cleared: bool)
        requires
            old(self).wf(),
        ensures
            final(self).wf(),
            final(self).opacity_milli as int == fade_out_step(old(self).opacity_milli as int),
            final(self).style == old(self).style,
            cleared == (final(self).opacity_milli == 0),
    {
        if self.opacity_milli <= 250 {
            self.opacity_milli = 0;
        } else {
            self.opacity_milli = ((self.opacity_milli - 250) * 11) / 10;
        }
        self.opacity_milli == 0
    }
}

/// What the shell must do after a transition step: nothing, or build the new
/// scene's map.
#[derive(Clone, Copy, PartialEq, Eq, Structural, Debug)]
pub enum TransitionEffect {
    NoEffect,
    SceneChange(SceneKind),
}

impl Transition {
    /// One tick of a running transition: fade toward full cover, perform the
    /// style's deferred effect the moment cover is reached (enter or leave
    /// the fight, open the named menu or the battle-won screen, request the
    /// scene change), then fade back out and go idle.
    pub fn update(
        &mut self,
        party: &mut Vec<crate::character::Character>,
        battle: &mut crate::battle::Battle,
        menu: &mut crate::menu::MenuScreen,
    ) -> (effect: TransitionEffect)
        requires
            old(self).wf(),
            old(battle).wf(),
            crate::character::party_wf(old(party)@),
        ensures
            final(self).wf(),
            final(battle).wf(),
            crate::character::party_wf(final(party)@),
            final(party)@ == old(party)@,
            old(self).style is Idle ==> *final(self) == *old(self) && *final(battle) == *old(
                battle,
            ) && *final(menu) == *old(menu) && effect is NoEffect,
            ({
                let covered = fade_in_step(old(self).opacity_milli as int) == OPACITY_FULL as int;
                &&& !(old(self).style is Idle) && !(old(self).style is WhiteOut) && !(old(
                    self,
                ).style is BlackOut) ==> final(self).opacity_milli as int == fade_in_step(
                    old(self).opacity_milli as int,
                )
                &&& old(self).style is WhiteIn ==> final(self).style == (if covered {
                    TransitionStyle::WhiteOut
                } else {
                    TransitionStyle::WhiteIn
                }) && *final(battle) == *old(battle) && *final(menu) == *old(menu)
                &&& old(self).style is BlackIn ==> final(self).style == (if covered {
                    TransitionStyle::BlackOut
                } else {
                    TransitionStyle::BlackIn
                }) && *final(battle) == *old(battle) && *final(menu) == *old(menu)
                &&& old(self).style is BattleIn ==> {
                    &&& final(self).style == (if covered {
                        TransitionStyle::BlackOut
                    } else {
                        TransitionStyle::BattleIn
                    })
                    &&& *final(menu) == *old(menu)
                    &&& *final(battle) == (if covered {
                        crate::battle::Battle {
                            fighting_state: crate::battle::FightingState::Fighting,
                            ..*old(battle)
                        }
                    } else {
                        *old(battle)
                    })
                }
                &&& old(self).style is BattleOut ==> {
                    &&& final(self).style == (if covered {
                        TransitionStyle::BlackOut
                    } else {
                        TransitionStyle::BattleOut
                    })
                    &&& *final(battle) == (if covered {
                        crate::battle::Battle {
                            fighting_state: crate::battle::FightingState::NotFighting,
                            ..*old(battle)
                        }
                    } else {
                        *old(battle)
                    })
                    &&& covered ==> crate::battle_menus::is_none_menu(*final(menu))
                        && final(menu).wf()
                    &&& !covered ==> *final(menu) == *old(menu)
                }
                &&& old(self).style matches TransitionStyle::BattleEndScreen(exp) ==> {
                    &&& final(self).style == (if covered {
                        TransitionStyle::BlackOut
                    } else {
                        TransitionStyle::BattleEndScreen(exp)
                    })
                    &&& *final(battle) == *old(battle)
                    &&& covered ==> final(menu).wf() && crate::menus::is_battle_won_screen(
                        *final(menu),
                        old(party)@,
                        exp,
                    )
                    &&& !covered ==> *final(menu) == *old(menu)
                }
                &&& old(self).style matches TransitionStyle::MenuIn(kind) ==> {
                    &&& final(self).style == (if covered {
                        TransitionStyle::BlackOut
                    } else {
                        TransitionStyle::MenuIn(kind)
                    })
                    &&& *final(battle) == *old(battle)
                    &&& covered ==> final(menu).wf() && crate::menus::is_built_menu(
                        kind,
                        *final(menu),
                    )
                    &&& !covered ==> *final(menu) == *old(menu)
                }
                &&& old(self).style matches TransitionStyle::ChangeScene(kind) ==> {
                    &&& final(self).style == (if covered {
                        TransitionStyle::BlackOut
                    } else {
                        TransitionStyle::ChangeScene(kind)
                    })
                    &&& *final(battle) == *old(battle)
                    &&& covered ==> crate::battle_menus::is_none_menu(*final(menu)) && effect
                        == TransitionEffect::SceneChange(kind)
                    &&& !covered ==> *final(menu) == *old(menu) && effect is NoEffect
                }
                &&& (old(self).style is WhiteOut || old(self).style is BlackOut) ==> {
                    &&& final(self).opacity_milli as int == fade_out_step(
                        old(self).opacity_milli as int,
                    )
                    &&& final(self).style == (if fade_out_step(old(self).opacity_milli as int)
                        == 0 {
                        TransitionStyle::Idle
                    } else {
                        old(self).style
                    })
                    &&& *final(battle) == *old(battle)
                    &&& *final(menu) == *old(menu)
                    &&& effect is NoEffect
                }
            }),
            effect matches TransitionEffect::SceneChange(kind) ==> old(self).style
                == TransitionStyle::ChangeScene(kind),
    {
        match self.style {
            TransitionStyle::Idle => TransitionEffect::NoEffect,
            TransitionStyle::WhiteIn => {
                if self.fade_in() {
                    self.set(TransitionStyle::WhiteOut);
                }
                TransitionEffect::NoEffect
            },
            TransitionStyle::BlackIn => {
                if self.fade_in() {
                    self.set(TransitionStyle::BlackOut);
                }
                TransitionEffect::NoEffect
            },
            TransitionStyle::BattleIn => {
                if self.fade_in() {
                    battle.set_fighting_state(true);
                    self.set(TransitionStyle::BlackOut);
                }
                TransitionEffect::NoEffect
            },
            TransitionStyle::BattleOut => {
                if self.fade_in() {
                    menu.set_menu(crate::menus::none_menu());
                    battle.set_fighting_state(false);
                    self.set(TransitionStyle::BlackOut);
                }
                TransitionEffect::NoEffect
            },
            TransitionStyle::BattleEndScreen(experience) => {
                if self.fade_in() {
                    menu.set_menu(crate::menus::battle_won(party, experience));
                    self.set(TransitionStyle::BlackOut);
                }
                TransitionEffect::NoEffect
            },
            TransitionStyle::MenuIn(kind) => {
                if self.fade_in() {
                    menu.set_menu(crate::menus::build_menu(kind));
                    self.set(TransitionStyle::BlackOut);
                }
                TransitionEffect::NoEffect
            },
            TransitionStyle::ChangeScene(kind) => {
                if self.fade_in() {
                    menu.set_menu(crate::menus::none_menu());
                    self.set(TransitionStyle::BlackOut);
                    TransitionEffect::SceneChange(kind)
                } else {
                    TransitionEffect::NoEffect
                }
            },
            TransitionStyle::WhiteOut | TransitionStyle::BlackOut => {
                if self.fade_out() {
                    self.set(TransitionStyle::Idle);
                }
                TransitionEffect::NoEffect
            },
        }
    }
}

} // verus!
