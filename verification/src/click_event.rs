//! Interpreting a click event: translate the event's data into its effect on
//! the battle, the transition or the menu, and hand back what the owning
//! screen should become.

use vstd::prelude::*;

use crate::battle_menus::{
    self, is_first_active, is_main_battle_menu, is_none_menu, lemma_first_active_below,
    no_active_member, targeting_items_sound,
};
use crate::character::{party_wf, Character};
use crate::enemy::{enemies_wf, Enemy};
use crate::menu::{ClickEventReturnType, MenuItem, MenuScreen, OnClickEvent};
use crate::notification::Notification;
use crate::transition::{Transition, TransitionStyle};

verus! {

/// Dispatch one click event. Transition requests set the transition style;
/// menu mutations are handed back to the owning screen; battle events build
/// the follow-up screen or perform the selected action and close the menu.
pub fn match_click_event(
    event: &OnClickEvent,
    party: &mut Vec<Character>,
    enemies: &mut Vec<Vec<Enemy>>,
    transition: &mut Transition,
    notification: &mut Notification,
    draw: u8,
) -> (r: ClickEventReturnType)
    requires
        9 <= draw <= 11,
        party_wf(old(party)@),
        enemies_wf(old(enemies)@),
    ensures
        party_wf(final(party)@),
        enemies_wf(final(enemies)@),
        final(party)@.len() == old(party)@.len(),
        final(enemies)@.len() == old(enemies)@.len(),
        // No click ever hands out a turn: combat actions only start
        // animation timelines.
        forall|i: int|
            0 <= i < old(party)@.len() && final(party)@[i].state.is_turn_active ==> (
            #[trigger] old(party)@[i]).state.is_turn_active,
        forall|x: int, y: int|
            0 <= x < old(enemies)@.len() && 0 <= y < old(enemies)@[x]@.len() && (#[trigger] final(enemies)@[x]@[y]).state.is_turn_active ==> old(enemies)@[x]@[y].state.is_turn_active,
        forall|x: int|
            0 <= x < old(enemies)@.len() ==> (#[trigger] final(enemies)@[x])@.len() == old(enemies)@[x]@.len(),
        r matches ClickEventReturnType::NewMenu(m) ==> m.wf() && m.mutation is None,
        // Only a menu-mutation click ever starts a count-up.
        r matches ClickEventReturnType::StartMutation(kind) ==> event
            == OnClickEvent::MutateMenu(kind),
        event matches OnClickEvent::MenuTransition(style) ==> *final(transition) == (Transition {
            style: *style,
            ..*old(transition)
        }) && r is NoAction && final(party)@ == old(party)@ && final(enemies)@ == old(enemies)@,
        event matches OnClickEvent::ChangeScene(kind) ==> *final(transition) == (Transition {
            style: TransitionStyle::ChangeScene(*kind),
            ..*old(transition)
        }) && r is NoAction && final(party)@ == old(party)@ && final(enemies)@ == old(enemies)@,
        event matches OnClickEvent::MutateMenu(kind) ==> r
            == ClickEventReturnType::StartMutation(*kind) && final(party)@ == old(party)@
            && final(enemies)@ == old(enemies)@ && *final(transition) == *old(transition),
        event is SetBattleMenu ==> {
            &&& final(party)@ == old(party)@
            &&& final(enemies)@ == old(enemies)@
            &&& *final(transition) == *old(transition)
            &&& forall|ai: int|
                is_first_active(old(party)@, ai) ==> (r matches ClickEventReturnType::NewMenu(m)
                    && is_main_battle_menu(m, old(party)@[ai]))
            &&& no_active_member(old(party)@) ==> r is NoAction
        },
        event matches OnClickEvent::ToTargetSelection(action, start) ==> {
            &&& final(party)@ == old(party)@
            &&& final(enemies)@ == old(enemies)@
            &&& *final(transition) == *old(transition)
            &&& r matches ClickEventReturnType::NewMenu(m) && targeting_items_sound(
                m,
                old(party)@,
                old(enemies)@,
                *action,
            )
        },
        event matches OnClickEvent::BattleAction(ids, action) ==> {
            &&& *final(transition) == *old(transition)
            &&& battle_menus::battle_action_effects(
                ids@,
                *action,
                old(party)@,
                final(party)@,
                old(enemies)@,
                final(enemies)@,
                draw,
            )
            &&& r matches ClickEventReturnType::NewMenu(m) && is_none_menu(m)
        },
        event is NoEvent ==> r is NoAction && final(party)@ == old(party)@ && final(enemies)@
            == old(enemies)@ && *final(transition) == *old(transition),
{
    match event {
        OnClickEvent::MenuTransition(to_new_menu) => {
            transition.set(*to_new_menu);
            ClickEventReturnType::NoAction
        },
        OnClickEvent::MutateMenu(mutation_kind) => ClickEventReturnType::StartMutation(
            *mutation_kind,
        ),
        OnClickEvent::SetBattleMenu => {
            let n = party.len();
            let mut found_idx: usize = n;
            let mut i: usize = 0;
            while i < n && found_idx == n
                invariant
                    n == party@.len(),
                    i <= n,
                    found_idx <= n,
                    found_idx == n ==> forall|j: int|
                        0 <= j < i ==> !(#[trigger] party@[j]).state.is_turn_active,
                    found_idx < n ==> is_first_active(party@, found_idx as int),
                decreases n - i, (if found_idx == n { 1int } else { 0int }),
            {
                if party[i].get_battle_state().is_turn_active() {
                    found_idx = i;
                } else {
                    i = i + 1;
                }
            }
            if found_idx < n {
                ClickEventReturnType::NewMenu(battle_menus::main_battle_menu(&party[found_idx]))
            } else {
                ClickEventReturnType::NoAction
            }
        },
        OnClickEvent::ToTargetSelection(action_effects, targeting_start_type) => {
            ClickEventReturnType::NewMenu(
                battle_menus::single_target_targeting_everyone(
                    party,
                    enemies,
                    *action_effects,
                    *targeting_start_type,
                ),
            )
        },
        OnClickEvent::BattleAction(target_ids, action_effects) => {
            battle_menus::perform_battle_action(
                party,
                enemies,
                target_ids,
                *action_effects,
                notification,
                draw,
            );
            proof {
                if !no_active_member(old(party)@) {
                    let a = choose|i: int|
                        0 <= i < old(party)@.len() && (#[trigger] old(party)@[i]).state.is_turn_active;
                    battle_menus::lemma_first_active_below(old(party)@, a);
                }
            }
            ClickEventReturnType::NewMenu(battle_menus::none_menu())
        },
        OnClickEvent::ChangeScene(to_new_scene) => {
            transition.set(TransitionStyle::ChangeScene(*to_new_scene));
            ClickEventReturnType::NoAction
        },
        OnClickEvent::NoEvent => ClickEventReturnType::NoAction,
    }
}

/// What one confirmed click does, seen from the owning screen: the screen it
/// leaves behind and the effect on the rosters and the transition, by event.
pub open spec fn click_applied(
    ev: OnClickEvent,
    pre: MenuScreen,
    post: MenuScreen,
    p0: Seq<Character>,
    p1: Seq<Character>,
    e0: Seq<Vec<Enemy>>,
    e1: Seq<Vec<Enemy>>,
    t0: Transition,
    t1: Transition,
    draw: u8,
) -> bool {
    match ev {
        OnClickEvent::MenuTransition(style) => t1 == (Transition { style, ..t0 }) && post == pre
            && p1 == p0 && e1 == e0,
        OnClickEvent::ChangeScene(kind) => t1 == (Transition {
            style: TransitionStyle::ChangeScene(kind),
            ..t0
        }) && post == pre && p1 == p0 && e1 == e0,
        OnClickEvent::MutateMenu(kind) => t1 == t0 && e1 == e0 && (match kind {
            crate::menu::MenuMutationKind::BeginExperienceCount(total) => crate::menu::count_up_tick(
                crate::menu::ExperienceCount { remaining: total, finishing: false },
                p0,
                p1,
                post.mutation,
            ),
            crate::menu::MenuMutationKind::FinishExperienceCount => pre.mutation is None ==> post
                == pre && p1 == p0,
        }),
        OnClickEvent::SetBattleMenu => {
            &&& t1 == t0
            &&& p1 == p0
            &&& e1 == e0
            &&& no_active_member(p0) ==> post == pre
            &&& forall|ai: int|
                is_first_active(p0, ai) ==> is_main_battle_menu(post, #[trigger] p0[ai])
        },
        OnClickEvent::ToTargetSelection(action, _) => t1 == t0 && p1 == p0 && e1 == e0
            && targeting_items_sound(post, p0, e0, action),
        OnClickEvent::BattleAction(ids, action) => t1 == t0 && battle_menus::battle_action_effects(
            ids@,
            action,
            p0,
            p1,
            e0,
            e1,
            draw,
        ) && is_none_menu(post),
        OnClickEvent::NoEvent => post == pre && p1 == p0 && e1 == e0 && t1 == t0,
    }
}

impl MenuItem {
    /// Dispatch this item's click event.
    pub fn click_item(
        &self,
        party: &mut Vec<Character>,
        enemies: &mut Vec<Vec<Enemy>>,
        transition: &mut Transition,
        notification: &mut Notification,
        draw: u8,
    ) -> (r: ClickEventReturnType)
        requires
            9 <= draw <= 11,
            party_wf(old(party)@),
            enemies_wf(old(enemies)@),
        ensures
            party_wf(final(party)@),
            enemies_wf(final(enemies)@),
            final(party)@.len() == old(party)@.len(),
            final(enemies)@.len() == old(enemies)@.len(),
            forall|i: int|
                0 <= i < old(party)@.len() && final(party)@[i].state.is_turn_active ==> (
                #[trigger] old(party)@[i]).state.is_turn_active,
            forall|x: int, y: int|
                0 <= x < old(enemies)@.len() && 0 <= y < old(enemies)@[x]@.len() && (
                #[trigger] final(enemies)@[x]@[y]).state.is_turn_active ==> old(enemies)@[x]@[y].state.is_turn_active,
            forall|x: int|
                0 <= x < old(enemies)@.len() ==> (#[trigger] final(enemies)@[x])@.len() == old(enemies)@[x]@.len(),
            r matches ClickEventReturnType::NewMenu(m) ==> m.wf() && m.mutation is None,
            r matches ClickEventReturnType::StartMutation(kind) ==> self.on_click
                == OnClickEvent::MutateMenu(kind),
            self.on_click matches OnClickEvent::MenuTransition(style) ==> *final(transition)
                == (Transition { style, ..*old(transition) }) && r is NoAction && final(party)@
                == old(party)@ && final(enemies)@ == old(enemies)@,
            self.on_click matches OnClickEvent::ChangeScene(kind) ==> *final(transition)
                == (Transition { style: TransitionStyle::ChangeScene(kind), ..*old(transition) })
                && r is NoAction && final(party)@ == old(party)@ && final(enemies)@ == old(enemies)@,
            self.on_click matches OnClickEvent::MutateMenu(kind) ==> r
                == ClickEventReturnType::StartMutation(kind) && final(party)@ == old(party)@
                && final(enemies)@ == old(enemies)@ && *final(transition) == *old(transition),
            self.on_click is SetBattleMenu ==> {
                &&& final(party)@ == old(party)@
                &&& final(enemies)@ == old(enemies)@
                &&& *final(transition) == *old(transition)
                &&& forall|ai: int|
                    is_first_active(old(party)@, ai) ==> (r
                        matches ClickEventReturnType::NewMenu(m) && is_main_battle_menu(
                        m,
                        old(party)@[ai],
                    ))
                &&& no_active_member(old(party)@) ==> r is NoAction
            },
            self.on_click matches OnClickEvent::ToTargetSelection(action, start) ==> {
                &&& final(party)@ == old(party)@
                &&& final(enemies)@ == old(enemies)@
                &&& *final(transition) == *old(transition)
                &&& r matches ClickEventReturnType::NewMenu(m) && targeting_items_sound(
                    m,
                    old(party)@,
                    old(enemies)@,
                    action,
                )
            },
            self.on_click matches OnClickEvent::BattleAction(ids, action) ==> {
                &&& *final(transition) == *old(transition)
                &&& battle_menus::battle_action_effects(
                    ids@,
                    action,
                    old(party)@,
                    final(party)@,
                    old(enemies)@,
                    final(enemies)@,
                    draw,
                )
                &&& r matches ClickEventReturnType::NewMenu(m) && is_none_menu(m)
            },
            self.on_click is NoEvent ==> r is NoAction && final(party)@ == old(party)@ && final(enemies)@ == old(enemies)@ && *final(transition) == *old(transition),
    {
        match_click_event(&self.on_click, party, enemies, transition, notification, draw)
    }
}

} // verus!
