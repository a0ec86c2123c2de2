//! The menu layer at its interface to the battle core: screens of selectable
//! items laid out in rows, a cursor whose movement depends on the screen's
//! movement scheme, and click events described as plain data that the click
//! dispatcher interprets.

use vstd::prelude::*;

use crate::actions::{Action, BattleActionTargetStart};
use crate::transition::TransitionStyle;

verus! {

/// How the cursor interprets the four directions on this screen.
#[derive(Clone, Copy, PartialEq, Eq, Structural, Debug)]
pub enum MenuMovement {
    Grid,
    ColumnOfRows,
    RowOfColumns,
}

/// The game's fixed menu screens, named so transitions can carry them as data.
#[derive(Clone, Copy, PartialEq, Eq, Structural, Debug)]
pub enum MenuKind {
    NoMenu,
    TitleMenu,
    MainMenu,
    ItemMenu,
}

/// Requests to start or finish the battle-won experience count-up.
#[derive(Clone, Copy, PartialEq, Eq, Structural, Debug)]
pub enum MenuMutationKind {
    BeginExperienceCount(u32),
    FinishExperienceCount,
}

/// Running state of the experience count-up on the battle-won screen: the
/// experience still to hand out, and whether the player asked to skip the
/// tick-by-tick count and dump the rest at once.
#[derive(Clone, Copy, PartialEq, Eq, Structural, Debug)]
pub struct ExperienceCount {
    pub remaining: u32,
    pub finishing: bool,
}

/// What clicking a menu item does, as plain data.
pub enum OnClickEvent {
    MenuTransition(TransitionStyle),
    MutateMenu(MenuMutationKind),
    SetBattleMenu,
    ToTargetSelection(Action, BattleActionTargetStart),
    BattleAction(Vec<usize>, Action),
    ChangeScene(crate::transition::SceneKind),
    NoEvent,
}

impl OnClickEvent {
    pub fn is_some(&self) -> (r: bool)
        ensures
            r == !(self is NoEvent),
    {
        match self {
            OnClickEvent::NoEvent => false,
            _ => true,
        }
    }
}

/// What the click dispatcher hands back to the owning screen.
pub enum ClickEventReturnType {
    NewMenu(MenuScreen),
    StartMutation(MenuMutationKind),
    NoAction,
}

/// A bordered box, by its two corners in pixels.
#[derive(Clone, Copy, PartialEq, Eq, Structural, Debug)]
pub struct MenuContainer {
    pub x1: i64,
    pub y1: i64,
    pub x2: i64,
    pub y2: i64,
}

impl MenuContainer {
    pub fn new(x1: i64, y1: i64, x2: i64, y2: i64) -> (c: Self)
        ensures
            c == (MenuContainer { x1, y1, x2, y2 }),
    {
        Self { x1, y1, x2, y2 }
    }
}

/// One labelled, clickable entry at a pixel position.
pub struct MenuItem {
    pub text: String,
    pub x: i64,
    pub y: i64,
    pub on_click: OnClickEvent,
}

impl MenuItem {
    pub fn new(text: String, x: i64, y: i64, on_click: OnClickEvent) -> (m: Self)
        ensures
            m.text == text,
            m.x == x,
            m.y == y,
            m.on_click == on_click,
    {
        Self { text, x, y, on_click }
    }

    pub fn set_text(&mut self, new_text: String)
        ensures
            final(self).text == new_text,
            final(self).x == old(self).x,
            final(self).y == old(self).y,
            final(self).on_click == old(self).on_click,
    {
        self.text = new_text;
    }

    pub fn get_text(&self) -> (r: String)
        ensures
            r == self.text,
    {
        self.text.clone()
    }

    pub fn get_coords(&self) -> (r: (i64, i64))
        ensures
            r.0 == self.x,
            r.1 == self.y,
    {
        (self.x, self.y)
    }

    pub fn set_click_event(&mut self, new_event: OnClickEvent)
        ensures
            final(self).on_click == new_event,
            final(self).text == old(self).text,
            final(self).x == old(self).x,
            final(self).y == old(self).y,
    {
        self.on_click = new_event;
    }
}

/// Cursor position after a press of up.
pub open spec fn cursor_after_up(m: MenuScreen) -> (int, int) {
    if m.selectables@.len() == 0 {
        (m.cursor_x as int, m.cursor_y as int)
    } else {
        match m.movement {
            MenuMovement::Grid => if m.cursor_y > 0 && (m.cursor_x as int)
                < m.selectables@[m.cursor_y - 1]@.len() {
                (m.cursor_x as int, m.cursor_y - 1)
            } else {
                (m.cursor_x as int, m.cursor_y as int)
            },
            MenuMovement::RowOfColumns => if m.cursor_x > 0 {
                (m.cursor_x - 1, m.cursor_y as int)
            } else {
                (0, m.cursor_y as int)
            },
            MenuMovement::ColumnOfRows => if m.cursor_y > 0 {
                (0, m.cursor_y - 1)
            } else {
                (m.cursor_x as int, m.cursor_y as int)
            },
        }
    }
}

/// Cursor position after a press of down.
pub open spec fn cursor_after_down(m: MenuScreen) -> (int, int) {
    if m.selectables@.len() == 0 {
        (m.cursor_x as int, m.cursor_y as int)
    } else {
        match m.movement {
            MenuMovement::Grid => if m.cursor_y + 1 < m.selectables@.len() && (m.cursor_x as int)
                < m.selectables@[m.cursor_y + 1]@.len() {
                (m.cursor_x as int, m.cursor_y + 1)
            } else {
                (m.cursor_x as int, m.cursor_y as int)
            },
            MenuMovement::RowOfColumns => (
                vstd::math::min(
                    m.cursor_x + 1,
                    m.selectables@[m.cursor_y as int]@.len() - 1,
                ),
                m.cursor_y as int,
            ),
            MenuMovement::ColumnOfRows => if m.cursor_y + 1 < m.selectables@.len() {
                (0, m.cursor_y + 1)
            } else {
                (m.cursor_x as int, m.cursor_y as int)
            },
        }
    }
}

/// Cursor position after a press of left.
pub open spec fn cursor_after_left(m: MenuScreen) -> (int, int) {
    if m.selectables@.len() == 0 {
        (m.cursor_x as int, m.cursor_y as int)
    } else {
        match m.movement {
            MenuMovement::Grid => if m.cursor_x > 0 {
                (m.cursor_x - 1, m.cursor_y as int)
            } else {
                (0, m.cursor_y as int)
            },
            MenuMovement::RowOfColumns => if m.cursor_y > 0 {
                (0, m.cursor_y - 1)
            } else {
                (m.cursor_x as int, m.cursor_y as int)
            },
            MenuMovement::ColumnOfRows => if m.cursor_x > 0 && (m.cursor_x - 1)
                < m.selectables@[0]@.len() {
                (m.cursor_x - 1, 0)
            } else {
                (m.cursor_x as int, m.cursor_y as int)
            },
        }
    }
}

/// Cursor position after a press of right.
pub open spec fn cursor_after_right(m: MenuScreen) -> (int, int) {
    if m.selectables@.len() == 0 {
        (m.cursor_x as int, m.cursor_y as int)
    } else {
        match m.movement {
            MenuMovement::Grid => if m.cursor_x + 1 < m.selectables@[m.cursor_y as int]@.len() {
                (m.cursor_x + 1, m.cursor_y as int)
            } else {
                (m.cursor_x as int, m.cursor_y as int)
            },
            MenuMovement::RowOfColumns => if m.cursor_y + 1 < m.selectables@.len() {
                (0, m.cursor_y + 1)
            } else {
                (m.cursor_x as int, m.cursor_y as int)
            },
            MenuMovement::ColumnOfRows => if m.cursor_x + 1
                < m.selectables@[m.cursor_y as int]@.len() && m.cursor_x + 1
                < m.selectables@[0]@.len() {
                (m.cursor_x + 1, 0)
            } else {
                (m.cursor_x as int, m.cursor_y as int)
            },
        }
    }
}

/// A screen of menu items: bordered boxes, a grid of selectable rows under a
/// cursor, free-standing labels, and a return action for the back key. An
/// optional experience count-up runs on it tick by tick.
pub struct MenuScreen {
    pub containers: Vec<MenuContainer>,
    pub selectables: Vec<Vec<MenuItem>>,
    pub unselectables: Vec<MenuItem>,
    pub movement: MenuMovement,
    pub cursor_x: usize,
    pub cursor_y: usize,
    pub return_action: OnClickEvent,
    pub mutation: Option<ExperienceCount>,
}

impl MenuScreen {
    /// Structural invariant: every selectable row has at least one item and
    /// the cursor rests on an item (or at the origin of an empty screen).
    pub open spec fn wf(&self) -> bool {
        &&& forall|i: int|
            0 <= i < self.selectables@.len() ==> #[trigger] self.selectables@[i]@.len() > 0
        &&& self.selectables@.len() > 0 ==> {
            &&& (self.cursor_y as int) < self.selectables@.len()
            &&& (self.cursor_x as int) < self.selectables@[self.cursor_y as int]@.len()
        }
        &&& self.selectables@.len() == 0 ==> self.cursor_x == 0 && self.cursor_y == 0
    }

    pub fn new(
        containers: Vec<MenuContainer>,
        selectables: Vec<Vec<MenuItem>>,
        unselectables: Vec<MenuItem>,
        movement: MenuMovement,
        cursor_x: usize,
        cursor_y: usize,
        return_action: OnClickEvent,
    ) -> (m: Self)
        requires
            forall|i: int| 0 <= i < selectables@.len() ==> #[trigger] selectables@[i]@.len() > 0,
            selectables@.len() > 0 ==> (cursor_y as int) < selectables@.len() && (cursor_x as int)
                < selectables@[cursor_y as int]@.len(),
            selectables@.len() == 0 ==> cursor_x == 0 && cursor_y == 0,
        ensures
            m.wf(),
            m.containers == containers,
            m.selectables == selectables,
            m.unselectables == unselectables,
            m.movement == movement,
            m.cursor_x == cursor_x,
            m.cursor_y == cursor_y,
            m.return_action == return_action,
            m.mutation is None,
    {
        Self {
            containers,
            selectables,
            unselectables,
            movement,
            cursor_x,
            cursor_y,
            return_action,
            mutation: None,
        }
    }

    /// Replace this screen wholesale with a freshly built one.
    pub fn set_menu(&mut self, new_menu: MenuScreen)
        ensures
            *final(self) == new_menu,
    {
        *self = new_menu;
    }

    /// Start or redirect the experience count-up.
    pub fn start_mutation(&mut self, kind: MenuMutationKind)
        ensures
            kind matches MenuMutationKind::BeginExperienceCount(total) ==> *final(self)
                == (MenuScreen {
                mutation: Some(ExperienceCount { remaining: total, finishing: false }),
                ..*old(self)
            }),
            kind is FinishExperienceCount ==> *final(self) == (MenuScreen {
                mutation: match old(self).mutation {
                    Some(m) => Some(ExperienceCount { finishing: true, ..m }),
                    None => None,
                },
                ..*old(self)
            }),
    {
        match kind {
            MenuMutationKind::BeginExperienceCount(total) => {
                self.mutation = Some(ExperienceCount { remaining: total, finishing: false });
            },
            MenuMutationKind::FinishExperienceCount => {
                if let Some(m) = &mut self.mutation {
                    m.finishing = true;
                }
            },
        }
    }

    pub fn end_mutation(&mut self)
        ensures
            *final(self) == (MenuScreen { mutation: None, ..*old(self) }),
    {
        self.mutation = None;
    }

    /// A screen is open when it has anything at all to show.
    pub open spec fn spec_is_open(&self) -> bool {
        self.containers@.len() > 0 || self.selectables@.len() > 0 || self.unselectables@.len() > 0
    }

    pub fn is_open(&self) -> (r: bool)
        ensures
            r == self.spec_is_open(),
    {
        self.containers.len() > 0 || self.selectables.len() > 0 || self.unselectables.len() > 0
    }

    pub fn get_selectable(&mut self, outer_index: usize, inner_index: usize) -> (r: &mut MenuItem)
        requires
            (outer_index as int) < old(self).selectables@.len(),
            (inner_index as int) < old(self).selectables@[outer_index as int]@.len(),
        ensures
            *r == old(self).selectables@[outer_index as int]@[inner_index as int],
            final(self).selectables@ == old(self).selectables@.update(
                outer_index as int,
                final(self).selectables@[outer_index as int],
            ),
            final(self).selectables@[outer_index as int]@ == old(self).selectables@[
                outer_index as int
            ]@.update(inner_index as int, *final(r)),
            *final(self) == (MenuScreen {
                selectables: final(self).selectables,
                ..*old(self)
            }),
    {
        &mut self.selectables[outer_index][inner_index]
    }

    pub fn get_unselectable(&mut self, index: usize) -> (r: &mut MenuItem)
        requires
            (index as int) < old(self).unselectables@.len(),
        ensures
            *r == old(self).unselectables@[index as int],
            final(self).unselectables@ == old(self).unselectables@.update(
                index as int,
                *final(r),
            ),
            *final(self) == (MenuScreen {
                unselectables: final(self).unselectables,
                ..*old(self)
            }),
    {
        &mut self.unselectables[index]
    }

    pub fn get_mutation(&self) -> (r: Option<ExperienceCount>)
        ensures
            r == self.mutation,
    {
        self.mutation
    }

    fn move_cursor_up(&mut self)
        requires
            old(self).wf(),
        ensures
            final(self).wf(),
            (final(self).cursor_x as int, final(self).cursor_y as int)
                == cursor_after_up(*old(self)),
            *final(self) == (MenuScreen {
                cursor_x: final(self).cursor_x,
                cursor_y: final(self).cursor_y,
                ..*old(self)
            }),
    {
        if self.selectables.len() == 0 {
            return ;
        }
        match self.movement {
            MenuMovement::Grid => {
                if self.cursor_y > 0 && self.cursor_x < self.selectables[self.cursor_y - 1].len() {
                    self.cursor_y = self.cursor_y - 1;
                }
            },
            MenuMovement::RowOfColumns => {
                if self.cursor_x > 0 {
                    self.cursor_x = self.cursor_x - 1;
                }
            },
            MenuMovement::ColumnOfRows => {
                if self.cursor_y > 0 {
                    self.cursor_x = 0;
                    self.cursor_y = self.cursor_y - 1;
                }
            },
        }
    }

    fn move_cursor_down(&mut self)
        requires
            old(self).wf(),
        ensures
            final(self).wf(),
            (final(self).cursor_x as int, final(self).cursor_y as int)
                == cursor_after_down(*old(self)),
            *final(self) == (MenuScreen {
                cursor_x: final(self).cursor_x,
                cursor_y: final(self).cursor_y,
                ..*old(self)
            }),
    {
        if self.selectables.len() == 0 {
            return ;
        }
        match self.movement {
            MenuMovement::Grid => {
                let rows = self.selectables.len();
                if self.cursor_y + 1 < rows && self.cursor_x
                    < self.selectables[self.cursor_y + 1].len() {
                    self.cursor_y = self.cursor_y + 1;
                }
            },
            MenuMovement::RowOfColumns => {
                let row_len = self.selectables[self.cursor_y].len();
                if self.cursor_x + 1 < row_len {
                    self.cursor_x = self.cursor_x + 1;
                } else {
                    self.cursor_x = row_len - 1;
                }
            },
            MenuMovement::ColumnOfRows => {
                let rows = self.selectables.len();
                if self.cursor_y + 1 < rows {
                    self.cursor_x = 0;
                    self.cursor_y = self.cursor_y + 1;
                }
            },
        }
    }

    fn move_cursor_left(&mut self)
        requires
            old(self).wf(),
        ensures
            final(self).wf(),
            (final(self).cursor_x as int, final(self).cursor_y as int)
                == cursor_after_left(*old(self)),
            *final(self) == (MenuScreen {
                cursor_x: final(self).cursor_x,
                cursor_y: final(self).cursor_y,
                ..*old(self)
            }),
    {
        if self.selectables.len() == 0 {
            return ;
        }
        match self.movement {
            MenuMovement::Grid => {
                if self.cursor_x > 0 {
                    self.cursor_x = self.cursor_x - 1;
                }
            },
            MenuMovement::RowOfColumns => {
                if self.cursor_y > 0 {
                    self.cursor_x = 0;
                    self.cursor_y = self.cursor_y - 1;
                }
            },
            MenuMovement::ColumnOfRows => {
                if self.cursor_x > 0 && self.cursor_x - 1 < self.selectables[0].len() {
                    self.cursor_x = self.cursor_x - 1;
                    self.cursor_y = 0;
                }
            },
        }
    }

    fn move_cursor_right(&mut self)
        requires
            old(self).wf(),
        ensures
            final(self).wf(),
            (final(self).cursor_x as int, final(self).cursor_y as int)
                == cursor_after_right(*old(self)),
            *final(self) == (MenuScreen {
                cursor_x: final(self).cursor_x,
                cursor_y: final(self).cursor_y,
                ..*old(self)
            }),
    {
        if self.selectables.len() == 0 {
            return ;
        }
        match self.movement {
            MenuMovement::Grid => {
                let row_len = self.selectables[self.cursor_y].len();
                if self.cursor_x + 1 < row_len {
                    self.cursor_x = self.cursor_x + 1;
                }
            },
            MenuMovement::RowOfColumns => {
                let rows = self.selectables.len();
                if self.cursor_y + 1 < rows {
                    self.cursor_x = 0;
                    self.cursor_y = self.cursor_y + 1;
                }
            },
            MenuMovement::ColumnOfRows => {
                let row_len = self.selectables[self.cursor_y].len();
                if self.cursor_x + 1 < row_len && self.cursor_x + 1 < self.selectables[0].len() {
                    self.cursor_x = self.cursor_x + 1;
                    self.cursor_y = 0;
                }
            },
        }
    }
}

/// Every living member whose total can take it has earned `amount`
/// experience; everyone else is untouched.
pub open spec fn experience_distributed(
    pre: Seq<crate::character::Character>,
    post: Seq<crate::character::Character>,
    amount: int,
) -> bool {
    &&& pre.len() == post.len()
    &&& forall|i: int|
        0 <= i < pre.len() ==> post[i] == (if (#[trigger] pre[i]).state.hp > 0
            && pre[i].state.experience + amount <= u32::MAX {
            crate::character::with_experience(pre[i], amount)
        } else {
            pre[i]
        })
}

/// One tick of the experience count-up, as seen from outside: an empty pot
/// ends it; with nobody alive the pot is dropped; otherwise every living
/// member whose total can take it earns one point a tick, or the whole
/// remainder split evenly once the player asked to finish.
pub open spec fn count_up_tick(
    m: ExperienceCount,
    p0: Seq<crate::character::Character>,
    p1: Seq<crate::character::Character>,
    mutation_after: Option<ExperienceCount>,
) -> bool {
    &&& m.remaining == 0 ==> mutation_after is None && p1 == p0
    &&& m.remaining > 0 && crate::character::living_count(p0) == 0 ==> mutation_after == Some(
        (ExperienceCount { remaining: 0, ..m }),
    ) && p1 == p0
    &&& m.remaining > 0 && crate::character::living_count(p0) > 0 && m.finishing
        ==> mutation_after == Some((ExperienceCount { remaining: 0, finishing: true }))
        && experience_distributed(p0, p1, m.remaining as int / crate::character::living_count(p0))
    &&& m.remaining > 0 && crate::character::living_count(p0) > 0 && !m.finishing
        ==> mutation_after == Some(
        (ExperienceCount {
            remaining: vstd::math::max(0, m.remaining - crate::character::living_count(p0)) as u32,
            finishing: false,
        }),
    ) && experience_distributed(p0, p1, 1)
}

/// The cursor after one tick's directional input, when nothing was clicked:
/// up beats down beats left beats right, as the keys are polled.
pub open spec fn cursor_after_input(m: MenuScreen, input: crate::input::InputSnapshot) -> (
    int,
    int,
) {
    if input.up {
        cursor_after_up(m)
    } else if input.down {
        cursor_after_down(m)
    } else if input.left {
        cursor_after_left(m)
    } else if input.right {
        cursor_after_right(m)
    } else {
        (m.cursor_x as int, m.cursor_y as int)
    }
}

impl MenuScreen {
    /// One tick of an open menu: a confirm press clicks the item under the
    /// cursor, a cancel press runs the screen's return action, a direction
    /// moves the cursor; afterwards a running experience count-up advances by
    /// one step.
    #[verifier::rlimit(100)]
    #[verifier::spinoff_prover]
    pub fn update(
        &mut self,
        input: &crate::input::InputSnapshot,
        party: &mut Vec<crate::character::Character>,
        enemies: &mut Vec<Vec<crate::enemy::Enemy>>,
        transition: &mut crate::transition::Transition,
        notification: &mut crate::notification::Notification,
        draw: u8,
        sfx: &mut Vec<crate::sfx::SfxRequest>,
    )
        requires
            old(self).wf(),
            9 <= draw <= 11,
            crate::character::party_wf(old(party)@),
            crate::enemy::enemies_wf(old(enemies)@),
        ensures
            final(self).wf(),
            crate::character::party_wf(final(party)@),
            crate::enemy::enemies_wf(final(enemies)@),
            final(party)@.len() == old(party)@.len(),
            final(enemies)@.len() == old(enemies)@.len(),
            // Menus never hand out a turn.
            forall|i: int|
                0 <= i < old(party)@.len() && final(party)@[i].state.is_turn_active ==> (
                #[trigger] old(party)@[i]).state.is_turn_active,
            forall|x: int, y: int|
                0 <= x < old(enemies)@.len() && 0 <= y < old(enemies)@[x]@.len() && (
                #[trigger] final(enemies)@[x]@[y]).state.is_turn_active
                    ==> old(enemies)@[x]@[y].state.is_turn_active,
            forall|x: int|
                0 <= x < old(enemies)@.len()
                    ==> (#[trigger] final(enemies)@[x])@.len() == old(enemies)@[x]@.len(),
            // A confirm press dispatches the item under the cursor and the
            // screen becomes what the dispatch left behind.
            old(self).mutation is None && input.confirm && old(self).selectables@.len() > 0
                ==> crate::click_event::click_applied(
                old(self).selectables@[old(self).cursor_y as int]@[old(self).cursor_x as int].on_click,
                *old(self),
                *final(self),
                old(party)@,
                final(party)@,
                old(enemies)@,
                final(enemies)@,
                *old(transition),
                *final(transition),
                draw,
            ),
            old(self).mutation is None && input.confirm && old(self).selectables@.len() == 0
                ==> *final(self) == *old(self) && final(party)@ == old(party)@ && final(enemies)@
                    == old(enemies)@ && *final(transition) == *old(transition),
            // A cancel press runs the screen's return action the same way.
            old(self).mutation is None && !input.confirm && input.cancel
                ==> crate::click_event::click_applied(
                old(self).return_action,
                *old(self),
                *final(self),
                old(party)@,
                final(party)@,
                old(enemies)@,
                final(enemies)@,
                *old(transition),
                *final(transition),
                draw,
            ),
            // A running count-up advances one step on an idle tick, after the
            // cursor has moved.
            old(self).mutation is Some && !input.confirm && !input.cancel ==> ({
                let m = old(self).mutation.unwrap();
                &&& (final(self).cursor_x as int, final(self).cursor_y as int)
                    == cursor_after_input(*old(self), *input)
                &&& count_up_tick(m, old(party)@, final(party)@, final(self).mutation)
                &&& final(enemies)@ == old(enemies)@
                &&& *final(transition) == *old(transition)
            }),
            // Confirming the continue entry of a running count-up asks it to
            // begin anew or to finish: finishing splits the rest of the pot
            // at once.
            old(self).mutation is Some && input.confirm && old(self).selectables@.len() > 0
                ==> ({
                let m = old(self).mutation.unwrap();
                let ev = old(self).selectables@[old(self).cursor_y as int]@[old(
                    self,
                ).cursor_x as int].on_click;
                ev matches OnClickEvent::MutateMenu(kind) ==> (match kind {
                    MenuMutationKind::BeginExperienceCount(total) => count_up_tick(
                        ExperienceCount { remaining: total, finishing: false },
                        old(party)@,
                        final(party)@,
                        final(self).mutation,
                    ),
                    MenuMutationKind::FinishExperienceCount => count_up_tick(
                        ExperienceCount { finishing: true, ..m },
                        old(party)@,
                        final(party)@,
                        final(self).mutation,
                    ),
                }) && final(enemies)@ == old(enemies)@ && *final(transition) == *old(transition)
            }),
            // A tick without clicks or a running count-up only moves the
            // cursor.
            !input.confirm && !input.cancel && old(self).mutation is None ==> {
                &&& (final(self).cursor_x as int, final(self).cursor_y as int)
                    == cursor_after_input(*old(self), *input)
                &&& *final(self) == (MenuScreen {
                    cursor_x: final(self).cursor_x,
                    cursor_y: final(self).cursor_y,
                    ..*old(self)
                })
                &&& final(party)@ == old(party)@
                &&& final(enemies)@ == old(enemies)@
                &&& *final(transition) == *old(transition)
                &&& *final(notification) == *old(notification)
                &&& final(sfx)@ == old(sfx)@
            },
    {
        if input.confirm {
            if self.return_action.is_some() {
                sfx.push(crate::sfx::SfxRequest::MenuClick);
            }
            if self.selectables.len() > 0 {
                let ret = self.selectables[self.cursor_y][self.cursor_x].click_item(
                    party,
                    enemies,
                    transition,
                    notification,
                    draw,
                );
                self.match_click_event_return_type(ret);
            }
        } else if input.cancel {
            if self.return_action.is_some() {
                sfx.push(crate::sfx::SfxRequest::MenuClick);
            }
            let ret = crate::click_event::match_click_event(
                &self.return_action,
                party,
                enemies,
                transition,
                notification,
                draw,
            );
            self.match_click_event_return_type(ret);
        } else if input.up {
            self.move_cursor_up();
        } else if input.down {
            self.move_cursor_down();
        } else if input.left {
            self.move_cursor_left();
        } else if input.right {
            self.move_cursor_right();
        }
        if self.mutation.is_some() {
            self.run_mutation(party, sfx);
        }
    }

    /// Run this screen's return action (the back key).
    pub fn perform_return_action(
        &mut self,
        party: &mut Vec<crate::character::Character>,
        enemies: &mut Vec<Vec<crate::enemy::Enemy>>,
        transition: &mut crate::transition::Transition,
        notification: &mut crate::notification::Notification,
        draw: u8,
        sfx: &mut Vec<crate::sfx::SfxRequest>,
    )
        requires
            old(self).wf(),
            9 <= draw <= 11,
            crate::character::party_wf(old(party)@),
            crate::enemy::enemies_wf(old(enemies)@),
        ensures
            final(self).wf(),
            crate::character::party_wf(final(party)@),
            crate::enemy::enemies_wf(final(enemies)@),
            final(party)@.len() == old(party)@.len(),
            final(enemies)@.len() == old(enemies)@.len(),
            forall|i: int|
                0 <= i < old(party)@.len() && final(party)@[i].state.is_turn_active ==> (
                #[trigger] old(party)@[i]).state.is_turn_active,
            forall|x: int, y: int|
                0 <= x < old(enemies)@.len() && 0 <= y < old(enemies)@[x]@.len() && (
                #[trigger] final(enemies)@[x]@[y]).state.is_turn_active
                    ==> old(enemies)@[x]@[y].state.is_turn_active,
            forall|x: int|
                0 <= x < old(enemies)@.len()
                    ==> (#[trigger] final(enemies)@[x])@.len() == old(enemies)@[x]@.len(),
    {
        if self.return_action.is_some() {
            sfx.push(crate::sfx::SfxRequest::MenuClick);
        }
        let ret = crate::click_event::match_click_event(
            &self.return_action,
            party,
            enemies,
            transition,
            notification,
            draw,
        );
        self.match_click_event_return_type(ret);
    }

    /// Absorb what a click dispatch handed back: become the new screen, or
    /// start the requested count-up.
    fn match_click_event_return_type(&mut self, click_event_return_type: ClickEventReturnType)
        requires
            old(self).wf(),
            click_event_return_type matches ClickEventReturnType::NewMenu(m) ==> m.wf(),
        ensures
            final(self).wf(),
            click_event_return_type matches ClickEventReturnType::NewMenu(m) ==> *final(self)
                == m,
            click_event_return_type matches ClickEventReturnType::StartMutation(kind)
                ==> *final(self) == ({
                let s = *old(self);
                match kind {
                    MenuMutationKind::BeginExperienceCount(total) => MenuScreen {
                        mutation: Some(ExperienceCount { remaining: total, finishing: false }),
                        ..s
                    },
                    MenuMutationKind::FinishExperienceCount => MenuScreen {
                        mutation: match s.mutation {
                            Some(m) => Some(ExperienceCount { finishing: true, ..m }),
                            None => None,
                        },
                        ..s
                    },
                }
            }),
            click_event_return_type is NoAction ==> *final(self) == *old(self),
    {
        match click_event_return_type {
            ClickEventReturnType::NewMenu(new_menu) => self.set_menu(new_menu),
            ClickEventReturnType::StartMutation(mutation_kind) => self.start_mutation(
                mutation_kind,
            ),
            ClickEventReturnType::NoAction => (),
        }
    }

    /// One tick of the experience count-up. While counting, every living
    /// member earns one point a tick and the pot shrinks by the number of
    /// living members; once asked to finish, the whole pot is split evenly at
    /// once; an empty pot ends the count-up. The labels showing the pot and
    /// each member's total are refreshed along the way.
    fn run_mutation(
        &mut self,
        party: &mut Vec<crate::character::Character>,
        sfx: &mut Vec<crate::sfx::SfxRequest>,
    )
        requires
            old(self).wf(),
            crate::character::party_wf(old(party)@),
        ensures
            final(self).wf(),
            crate::character::party_wf(final(party)@),
            final(party)@.len() == old(party)@.len(),
            final(self).cursor_x == old(self).cursor_x,
            final(self).cursor_y == old(self).cursor_y,
            final(self).movement == old(self).movement,
            final(self).containers == old(self).containers,
            final(self).return_action == old(self).return_action,
            forall|i: int|
                0 <= i < old(party)@.len() && final(party)@[i].state.is_turn_active ==> (
                #[trigger] old(party)@[i]).state.is_turn_active,
            old(self).mutation is None ==> *final(self) == *old(self) && final(party)@ == old(party)@ && final(sfx)@ == old(sfx)@,
            old(self).mutation matches Some(m) ==> {
                &&& m.remaining == 0 ==> final(self).mutation is None && final(party)@ == old(party)@ && final(sfx)@ == old(sfx)@
                &&& m.remaining > 0 && crate::character::living_count(old(party)@) == 0
                    ==> final(self).mutation == Some((ExperienceCount { remaining: 0, ..m }))
                        && final(party)@ == old(party)@
                &&& m.remaining > 0 && crate::character::living_count(old(party)@) > 0
                    && m.finishing ==> {
                    &&& final(self).mutation == Some(
                        (ExperienceCount { remaining: 0, finishing: true }),
                    )
                    &&& final(sfx)@ == old(sfx)@.push(crate::sfx::SfxRequest::CounterTick)
                    &&& experience_distributed(
                        old(party)@,
                        final(party)@,
                        m.remaining as int / crate::character::living_count(old(party)@),
                    )
                }
                &&& m.remaining > 0 && crate::character::living_count(old(party)@) > 0
                    && !m.finishing ==> {
                    &&& final(self).mutation == Some(
                        (ExperienceCount {
                            remaining: vstd::math::max(
                                0,
                                m.remaining - crate::character::living_count(old(party)@),
                            ) as u32,
                            finishing: false,
                        }),
                    )
                    &&& final(sfx)@ == old(sfx)@.push(crate::sfx::SfxRequest::CounterTick)
                    &&& experience_distributed(old(party)@, final(party)@, 1)
                }
            },
    {
        let m = match self.mutation {
            Some(m) => m,
            None => {
                return ;
            },
        };
        if m.remaining == 0 {
            self.end_mutation();
            self.retarget_continue_entry(OnClickEvent::MenuTransition(
                crate::transition::TransitionStyle::BattleOut,
            ));
            return ;
        }
        let alive = crate::character::alive_members_count(party);
        if alive == 0 {
            self.mutation = Some(ExperienceCount { remaining: 0, finishing: m.finishing });
            self.retarget_continue_entry(OnClickEvent::MenuTransition(
                crate::transition::TransitionStyle::BattleOut,
            ));
            return ;
        }
        sfx.push(crate::sfx::SfxRequest::CounterTick);
        if m.finishing {
            let amount: u32 = ((m.remaining as u64) / (alive as u64)) as u32;
            distribute_experience(party, amount);
            self.mutation = Some(ExperienceCount { remaining: 0, finishing: true });
            self.refresh_count_labels(party, 0);
            self.retarget_continue_entry(OnClickEvent::MenuTransition(
                crate::transition::TransitionStyle::BattleOut,
            ));
        } else {
            distribute_experience(party, 1);
            let new_remaining: u32 = if (alive as u64) <= (m.remaining as u64) {
                m.remaining - (alive as u32)
            } else {
                0
            };
            self.mutation = Some(ExperienceCount { remaining: new_remaining, finishing: false });
            self.refresh_count_labels(party, new_remaining);
            self.retarget_continue_entry(OnClickEvent::MutateMenu(
                MenuMutationKind::FinishExperienceCount,
            ));
        }
    }

    /// Point the screen's continue entry at a new click event, where the
    /// screen has one.
    fn retarget_continue_entry(&mut self, event: OnClickEvent)
        requires
            old(self).wf(),
        ensures
            final(self).wf(),
            *final(self) == (MenuScreen { selectables: final(self).selectables, ..*old(self) }),
            final(self).selectables@.len() == old(self).selectables@.len(),
            forall|i: int|
                0 <= i < old(self).selectables@.len()
                    ==> (#[trigger] final(self).selectables@[i]@).len()
                        == old(self).selectables@[i]@.len(),
    {
        if self.selectables.len() > 0 {
            let inner_len = self.selectables[0].len();
            if inner_len > 0 {
                let item = self.get_selectable(0, 0);
                item.set_click_event(event);
            }
        }
    }

    /// Refresh the pot label and each member's experience label on the
    /// battle-won screen.
    fn refresh_count_labels(&mut self, party: &Vec<crate::character::Character>, remaining: u32)
        requires
            old(self).wf(),
        ensures
            final(self).wf(),
            *final(self) == (MenuScreen {
                unselectables: final(self).unselectables,
                ..*old(self)
            }),
    {
        if self.unselectables.len() > 1 {
            let label = self.get_unselectable(1);
            label.set_text(crate::strings::u32_to_string(remaining));
        }
        let mut i: usize = 0;
        while i < party.len()
            invariant
                old(self).wf(),
                i <= party@.len(),
                *self == (MenuScreen { unselectables: self.unselectables, ..*old(self) }),
            decreases party@.len() - i,
        {
            let id = party[i].get_id();
            if id < 10000 {
                let slot = id * 2 + 2;
                if slot < self.unselectables.len() {
                    let text = crate::strings::u32_to_string(
                        party[i].get_battle_state().get_experience(),
                    );
                    let label = self.get_unselectable(slot);
                    label.set_text(text);
                }
            }
            i = i + 1;
        }
    }
}

/// Give `amount` experience to every living member (skipping any whose total
/// could not take it).
fn distribute_experience(party: &mut Vec<crate::character::Character>, amount: u32)
    requires
        crate::character::party_wf(old(party)@),
    ensures
        crate::character::party_wf(final(party)@),
        final(party)@.len() == old(party)@.len(),
        experience_distributed(old(party)@, final(party)@, amount as int),
{
    let mut i: usize = 0;
    while i < party.len()
        invariant
            party@.len() == old(party)@.len(),
            i <= party@.len(),
            crate::character::party_wf(party@),
            forall|j: int| i <= j < party@.len() ==> party@[j] == old(party)@[j],
            forall|j: int|
                0 <= j < i ==> party@[j] == (if (#[trigger] old(party)@[j]).state.hp > 0 && old(party)@[j].state.experience + amount <= u32::MAX {
                    crate::character::with_experience(old(party)@[j], amount as int)
                } else {
                    old(party)@[j]
                }),
        decreases party@.len() - i,
    {
        let alive = party[i].get_battle_state().get_hp() > 0;
        let room = party[i].get_battle_state().get_experience() <= u32::MAX - amount;
        if alive && room {
            let member = &mut party[i];
            let state = member.get_battle_state_mut();
            state.add_experience(amount);
        }
        i = i + 1;
    }
}

} // verus!
