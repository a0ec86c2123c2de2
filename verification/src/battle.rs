//! The turn scheduler: it owns the enemy formation, the queue of combatants
//! whose meters have filled, the single active-turn slot and the battle
//! lifecycle. Each tick it assigns a free slot from the queue head, lets the
//! open menu or the meter scan run, advances every combatant one frame,
//! interprets enemy signals, and resolves the end of the battle.

use vstd::prelude::*;

use crate::actions::Action;
use crate::animation::{character_started, enemy_started, Animation};
use crate::battle_menus::{self, is_none_menu};
use crate::character::{char_tick_done, char_ticked, party_wf, Character};
use crate::enemy::{
    enemies_wf, Enemy, EnemyScript, SIGNAL_AWARD_EXPERIENCE, SIGNAL_RUN_SCRIPT, SIGNAL_TURN_OVER,
};

use crate::input::{InputSnapshot, TickRandom};
use crate::menu::MenuScreen;
use crate::notification::Notification;
use crate::print_damage::PrintDamage;
use crate::sfx::SfxRequest;
use crate::state::{turn_ended, turn_started, ATB_FULL};
use crate::transition::{Transition, TransitionStyle};

verus! {

/// The battle-level lifecycle, distinct from any per-combatant state.
#[derive(Clone, Copy, PartialEq, Eq, Structural, Debug)]
pub enum FightingState {
    Fighting,
    Victory,
    Flee,
    NotFighting,
}

/// Whether `id` names a living combatant whose meter is full: the only
/// combatants the scan may enqueue.
pub open spec fn full_living_id(
    party: Seq<Character>,
    enemies: Seq<Vec<Enemy>>,
    id: usize,
) -> bool {
    ||| exists|i: int|
        0 <= i < party.len() && (#[trigger] party[i]).id == id && party[i].state.hp > 0
            && party[i].state.atb == ATB_FULL
    ||| exists|i: int, j: int|
        0 <= i < enemies.len() && 0 <= j < enemies[i]@.len() && (#[trigger] enemies[i]@[j]).id
            == id && enemies[i]@[j].state.hp > 0 && enemies[i]@[j].state.atb == ATB_FULL
}

/// Party slots carry distinct turn ids.
pub open spec fn party_ids_unique(party: Seq<Character>) -> bool {
    forall|i: int, j: int|
        0 <= i < party.len() && 0 <= j < party.len() && i != j ==> (#[trigger] party[i]).id != (
        #[trigger] party[j]).id
}

/// When the turn slot is free and someone waits, the queue head must name a
/// combatant the roster actually holds: a party slot id names a member, a
/// higher id names an enemy of the formation, and the nobody-id never waits.
pub open spec fn queue_head_names_combatant(b: Battle, party: Seq<Character>) -> bool {
    b.active_turns@.len() > 0 && b.current_turn == 0 ==> ({
        let id = b.active_turns@[0];
        &&& id >= 1
        &&& 1 <= id <= 4 ==> exists|i: int|
            0 <= i < party.len() && (#[trigger] party[i]).id == id
        &&& id > 4 ==> exists|i: int, j: int|
            0 <= i < b.enemies@.len() && 0 <= j < b.enemies@[i]@.len() && (#[trigger] b.enemies@[
                i
            ]@[j]).id == id
    })
}

/// A member as it stands right after being handed the turn.
pub open spec fn character_turn_started(c: Character) -> Character {
    Character {
        state: turn_started(c.state),
        animation: character_started(c.animation, Animation::StartTurn),
        ..c
    }
}

/// An enemy as it stands right after being handed the turn.
pub open spec fn enemy_turn_started(e: Enemy) -> Enemy {
    Enemy {
        state: turn_started(e.state),
        animation: enemy_started(e.animation, Animation::Attack),
        ..e
    }
}

/// Some enemy in the formation is still alive.
pub open spec fn exists_living_enemy(enemies: Seq<Vec<Enemy>>) -> bool {
    exists|i: int, j: int|
        0 <= i < enemies.len() && 0 <= j < enemies[i]@.len() && (#[trigger] enemies[i]@[j]).state.hp
            > 0
}

/// Some member of the roster is still alive.
pub open spec fn any_living_member(party: Seq<Character>) -> bool {
    exists|i: int| 0 <= i < party.len() && (#[trigger] party[i]).state.hp > 0
}

/// The first living member in roster order.
pub open spec fn is_first_living(party: Seq<Character>, i: int) -> bool {
    &&& 0 <= i < party.len()
    &&& party[i].state.hp > 0
    &&& forall|j: int| 0 <= j < i ==> (#[trigger] party[j]).state.hp == 0
}

/// A member with its turn force-ended by the scheduler.
pub open spec fn turn_force_ended(c: Character) -> Character {
    Character { state: turn_ended(c.state), ..c }
}

/// A member passed by the win sweep: a living member's turn is force-ended,
/// and the one that carries the fight into victory starts its celebration;
/// the fallen are left untouched.
pub open spec fn win_swept_member(c: Character, celebrate: bool) -> Character {
    if c.state.hp == 0 {
        c
    } else {
        let ended = turn_force_ended(c);
        if celebrate {
            Character {
                animation: character_started(ended.animation, Animation::Victory),
                ..ended
            }
        } else {
            ended
        }
    }
}

/// Saturating add into the experience pot.
pub open spec fn pot_add(exp: int, award: int) -> int {
    if exp + award > u32::MAX {
        u32::MAX as int
    } else {
        exp + award
    }
}

/// What one ticked enemy pays into the pot: its reward the moment it falls.
pub open spec fn award_of(e: Enemy) -> int {
    if crate::enemy::enemy_tick_signal(e) == SIGNAL_AWARD_EXPERIENCE {
        e.experience_value as int
    } else {
        0
    }
}

/// The pot after the first `upto` enemies of a row have ticked.
pub open spec fn pot_after_row(exp: int, row: Seq<Enemy>, upto: int) -> int
    decreases upto,
{
    if upto <= 0 {
        exp
    } else {
        pot_add(pot_after_row(exp, row, upto - 1), award_of(row[upto - 1]))
    }
}

/// The pot after the first `rows` formation rows have fully ticked.
pub open spec fn pot_after_grid(exp: int, g: Seq<Vec<Enemy>>, rows: int) -> int
    decreases rows,
{
    if rows <= 0 {
        exp
    } else {
        pot_after_row(pot_after_grid(exp, g, rows - 1), g[rows - 1]@, g[rows - 1]@.len() as int)
    }
}

/// Whether a turn-over signal occurs among the first `upto` of a row.
pub open spec fn row_turn_over(row: Seq<Enemy>, upto: int) -> bool {
    exists|j: int|
        0 <= j < upto && crate::enemy::enemy_tick_signal(#[trigger] row[j]) == SIGNAL_TURN_OVER
}

/// Whether a turn-over signal occurs in the first `rows` rows.
pub open spec fn grid_turn_over(g: Seq<Vec<Enemy>>, rows: int) -> bool {
    exists|i: int| 0 <= i < rows && row_turn_over((#[trigger] g[i])@, g[i]@.len() as int)
}

/// No script signal among the first `upto` of a row.
pub open spec fn row_scriptless(row: Seq<Enemy>, upto: int) -> bool {
    forall|j: int|
        0 <= j < upto ==> crate::enemy::enemy_tick_signal(#[trigger] row[j]) != SIGNAL_RUN_SCRIPT
}

/// No script signal in the first `rows` rows.
pub open spec fn grid_scriptless(g: Seq<Vec<Enemy>>, rows: int) -> bool {
    forall|i: int| 0 <= i < rows ==> row_scriptless((#[trigger] g[i])@, g[i]@.len() as int)
}

/// Whether the scan would enqueue this member: alive, meter full, and not
/// already waiting.
pub open spec fn queue_after_member(q: Seq<usize>, c: Character) -> Seq<usize> {
    if c.state.hp > 0 && c.state.atb == ATB_FULL && !q.contains(c.id) {
        q.push(c.id)
    } else {
        q
    }
}

/// The queue after the scan has seen the first `upto` party members.
pub open spec fn queue_after_party_scan(q: Seq<usize>, party: Seq<Character>, upto: int) -> Seq<
    usize,
>
    decreases upto,
{
    if upto <= 0 {
        q
    } else {
        queue_after_member(queue_after_party_scan(q, party, upto - 1), party[upto - 1])
    }
}

/// Whether the scan would enqueue this enemy.
pub open spec fn queue_after_enemy(q: Seq<usize>, e: Enemy) -> Seq<usize> {
    if e.state.hp > 0 && e.state.atb == ATB_FULL && !q.contains(e.id) {
        q.push(e.id)
    } else {
        q
    }
}

/// The queue after the scan has seen the first `upto` enemies of a row.
pub open spec fn queue_after_row_scan(q: Seq<usize>, row: Seq<Enemy>, upto: int) -> Seq<usize>
    decreases upto,
{
    if upto <= 0 {
        q
    } else {
        queue_after_enemy(queue_after_row_scan(q, row, upto - 1), row[upto - 1])
    }
}

/// The queue after the scan has seen the first `rows` full formation rows.
pub open spec fn queue_after_grid_scan(q: Seq<usize>, g: Seq<Vec<Enemy>>, rows: int) -> Seq<usize>
    decreases rows,
{
    if rows <= 0 {
        q
    } else {
        queue_after_row_scan(
            queue_after_grid_scan(q, g, rows - 1),
            g[rows - 1]@,
            g[rows - 1]@.len() as int,
        )
    }
}

/// The scan reads only hit points, meter and id, so rosters that agree on
/// those scan identically.
proof fn lemma_party_scan_congruent(
    q: Seq<usize>,
    p1: Seq<Character>,
    p2: Seq<Character>,
    upto: int,
)
    requires
        p1.len() == p2.len(),
        forall|j: int|
            0 <= j < p1.len() ==> (#[trigger] p1[j]).state.hp == p2[j].state.hp && p1[j].state.atb
                == p2[j].state.atb && p1[j].id == p2[j].id,
        upto <= p1.len(),
    ensures
        queue_after_party_scan(q, p1, upto) == queue_after_party_scan(q, p2, upto),
    decreases upto,
{
    if upto > 0 {
        lemma_party_scan_congruent(q, p1, p2, upto - 1);
    }
}

proof fn lemma_row_scan_congruent(q: Seq<usize>, r1: Seq<Enemy>, r2: Seq<Enemy>, upto: int)
    requires
        r1.len() == r2.len(),
        forall|j: int|
            0 <= j < r1.len() ==> (#[trigger] r1[j]).state.hp == r2[j].state.hp && r1[j].state.atb
                == r2[j].state.atb && r1[j].id == r2[j].id,
        upto <= r1.len(),
    ensures
        queue_after_row_scan(q, r1, upto) == queue_after_row_scan(q, r2, upto),
    decreases upto,
{
    if upto > 0 {
        lemma_row_scan_congruent(q, r1, r2, upto - 1);
    }
}

proof fn lemma_grid_scan_congruent(
    q: Seq<usize>,
    g1: Seq<Vec<Enemy>>,
    g2: Seq<Vec<Enemy>>,
    rows: int,
)
    requires
        g1.len() == g2.len(),
        forall|i: int| 0 <= i < g1.len() ==> (#[trigger] g1[i])@.len() == g2[i]@.len(),
        forall|i: int, j: int|
            0 <= i < g1.len() && 0 <= j < g1[i]@.len() ==> (#[trigger] g1[i]@[j]).state.hp
                == g2[i]@[j].state.hp && g1[i]@[j].state.atb == g2[i]@[j].state.atb && g1[i]@[j].id
                == g2[i]@[j].id,
        rows <= g1.len(),
    ensures
        queue_after_grid_scan(q, g1, rows) == queue_after_grid_scan(q, g2, rows),
    decreases rows,
{
    if rows > 0 {
        lemma_grid_scan_congruent(q, g1, g2, rows - 1);
        lemma_row_scan_congruent(
            queue_after_grid_scan(q, g1, rows - 1),
            g1[rows - 1]@,
            g2[rows - 1]@,
            g1[rows - 1]@.len() as int,
        );
    }
}

pub struct Battle {
    pub soundtrack_file: String,
    pub battle_menu: MenuScreen,
    pub enemies: Vec<Vec<Enemy>>,
    pub active_turns: Vec<usize>,
    pub current_turn: usize,
    pub experience_gained: u32,
    pub fighting_state: FightingState,
    pub print_damage: PrintDamage,
}

impl Battle {
    pub open spec fn wf(&self) -> bool {
        &&& self.battle_menu.wf()
        &&& enemies_wf(self.enemies@)
    }

    pub fn new() -> (b: Self)
        ensures
            b.wf(),
            b.soundtrack_file@ == "battle_test_theme"@,
            is_none_menu(b.battle_menu),
            b.enemies@.len() == 1,
            b.enemies@[0]@.len() == 0,
            b.active_turns@.len() == 0,
            b.current_turn == 0,
            b.experience_gained == 0,
            b.fighting_state is NotFighting,
            b.print_damage.show_time_left == 0,
    {
        let mut enemies: Vec<Vec<Enemy>> = Vec::new();
        enemies.push(Vec::new());
        Self {
            soundtrack_file: "battle_test_theme".to_owned(),
            battle_menu: battle_menus::none_menu(),
            enemies,
            active_turns: Vec::new(),
            current_turn: 0,
            experience_gained: 0,
            fighting_state: FightingState::NotFighting,
            print_damage: PrintDamage::new(),
        }
    }

    /// One simulation tick, in fixed phase order: assign a free turn slot
    /// from the queue head; let the open menu handle input, otherwise scan
    /// the meters and enqueue the ready; advance every party member, then
    /// every enemy, running at most one enemy behaviour script; evaluate the
    /// end of the battle; advance the damage display. The queue only ever
    /// gains ids of combatants that were alive with a full meter when the
    /// scan saw them: the fallen never enter it.
    #[verifier::rlimit(100)]
    pub fn update(
        &mut self,
        party: &mut Vec<Character>,
        transition: &mut Transition,
        notification: &mut Notification,
        input: &InputSnapshot,
        rng: &TickRandom,
        sfx: &mut Vec<SfxRequest>,
    )
        requires
            old(self).wf(),
            party_wf(old(party)@),
            party_ids_unique(old(party)@),
            queue_head_names_combatant(*old(self), old(party)@),
            rng.wf(),
        ensures
            final(self).wf(),
            party_wf(final(party)@),
            final(party)@.len() == old(party)@.len(),
            final(self).enemies@.len() == old(self).enemies@.len(),
            // A combatant only ever becomes turn-active by being handed the
            // popped queue head while the slot was free.
            forall|i: int|
                0 <= i < old(party)@.len() && final(party)@[i].state.is_turn_active ==> (
                #[trigger] old(party)@[i]).state.is_turn_active || (old(self).current_turn == 0
                    && old(self).active_turns@.len() > 0 && old(party)@[i].id == old(
                self,
            ).active_turns@[0]),
            forall|r: int, c: int|
                0 <= r < old(self).enemies@.len() && 0 <= c < old(self).enemies@[r]@.len() && (
                #[trigger] final(self).enemies@[r]@[c]).state.is_turn_active ==> old(
                    self,
                ).enemies@[r]@[c].state.is_turn_active || (old(self).current_turn == 0 && old(
                    self,
                ).active_turns@.len() > 0 && old(self).enemies@[r]@[c].id == old(
                    self,
                ).active_turns@[0]),
            // With no menu open, the queue is exactly the popped queue plus
            // the scan's appointments (unless the end of the battle cleared
            // it): party first, then the formation row-major, the ready only.
            !old(self).battle_menu.spec_is_open() ==> final(self).active_turns@.len() == 0
                || final(self).active_turns@ == queue_after_grid_scan(
                queue_after_party_scan(
                    (if old(self).current_turn == 0 && old(self).active_turns@.len() > 0 {
                        old(self).active_turns@.drop_first()
                    } else {
                        old(self).active_turns@
                    }),
                    old(party)@,
                    old(party)@.len() as int,
                ),
                old(self).enemies@,
                old(self).enemies@.len() as int,
            ),
            // Only the living with a full meter ever join the queue.
            forall|k: int|
                0 <= k < final(self).active_turns@.len() ==> old(self).active_turns@.contains(
                    #[trigger] final(self).active_turns@[k],
                ) || full_living_id(
                    old(party)@,
                    old(self).enemies@,
                    final(self).active_turns@[k],
                ),
            // Victory is only ever entered from a fight; a battle that is not
            // running stays that way.
            final(self).fighting_state is Victory ==> old(self).fighting_state is Fighting || old(self).fighting_state is Victory,
            old(self).fighting_state is NotFighting ==> final(self).fighting_state
                is NotFighting,
            old(self).fighting_state is Flee ==> final(self).fighting_state is Flee,
            // The pending experience pot never shrinks during a tick.
            final(self).experience_gained >= old(self).experience_gained,
    {
        self.start_turn(party);
        let ghost queue_after_assign = self.active_turns@;
        let ghost p1 = party@;
        let ghost e1 = self.enemies@;
        proof {
            assert(self.battle_menu == old(self).battle_menu);
        }
        proof {
            // Whatever phase one left in the queue came from the original
            // queue: the head was popped, nothing was added.
            assert forall|k: int|
                0 <= k < queue_after_assign.len() implies old(self).active_turns@.contains(
                #[trigger] queue_after_assign[k],
            ) by {
                if old(self).active_turns@.len() > 0 && old(self).current_turn == 0 {
                    assert(old(self).active_turns@[k + 1] == queue_after_assign[k]);
                } else {
                    assert(old(self).active_turns@[k] == queue_after_assign[k]);
                }
            }
        }
        if self.battle_menu.is_open() {
            self.battle_menu.update(
                input,
                party,
                &mut self.enemies,
                transition,
                notification,
                rng.damage_draw,
                sfx,
            );
            proof {
                assert forall|k: int|
                    0 <= k < self.active_turns@.len() implies old(self).active_turns@.contains(
                    #[trigger] self.active_turns@[k],
                ) || full_living_id(old(party)@, old(self).enemies@, self.active_turns@[k]) by {
                    assert(queue_after_assign.contains(self.active_turns@[k]));
                }
            }
        } else {
            self.enqueue_ready(party);
            proof {
                assert forall|k: int|
                    0 <= k < self.active_turns@.len() implies old(self).active_turns@.contains(
                    #[trigger] self.active_turns@[k],
                ) || full_living_id(old(party)@, old(self).enemies@, self.active_turns@[k]) by {
                    let v = self.active_turns@[k];
                    if queue_after_assign.contains(v) {
                    } else {
                        // Freshly enqueued: alive with a full meter when the
                        // scan saw it, and phase one does not touch meters or
                        // hit points.
                        assert(full_living_id(party@, self.enemies@, v));
                        if exists|i: int|
                            0 <= i < party@.len() && (#[trigger] party@[i]).id == v
                                && party@[i].state.hp > 0 && party@[i].state.atb == ATB_FULL {
                            let i = choose|i: int|
                                0 <= i < party@.len() && (#[trigger] party@[i]).id == v
                                    && party@[i].state.hp > 0 && party@[i].state.atb == ATB_FULL;
                            assert(party@[i] == old(party)@[i] || party@[i]
                                == character_turn_started(old(party)@[i]));
                            assert(old(party)@[i].id == v && old(party)@[i].state.hp > 0 && old(party)@[i].state.atb == ATB_FULL);
                        } else {
                            let (i, j): (int, int) = choose|i: int, j: int|
                                0 <= i < self.enemies@.len() && 0 <= j < self.enemies@[i]@.len()
                                    && (#[trigger] self.enemies@[i]@[j]).id == v
                                    && self.enemies@[i]@[j].state.hp > 0
                                    && self.enemies@[i]@[j].state.atb == ATB_FULL;
                            assert(self.enemies@[i]@[j] == old(self).enemies@[i]@[j]
                                || self.enemies@[i]@[j] == enemy_turn_started(
                                old(self).enemies@[i]@[j],
                            ));
                            assert(old(self).enemies@[i]@[j].id == v && old(self).enemies@[i]@[j].state.hp > 0 && old(self).enemies@[i]@[j].state.atb
                                == ATB_FULL);
                        }
                    }
                }
                // The scan ran on the assigned roster, which agrees with the
                // original one on everything the scan reads.
                assert(queue_after_assign == (if old(self).current_turn == 0 && old(
                    self,
                ).active_turns@.len() > 0 {
                    old(self).active_turns@.drop_first()
                } else {
                    old(self).active_turns@
                }));
                assert forall|j: int|
                    0 <= j < party@.len() implies (#[trigger] party@[j]).state.hp == old(
                    party,
                )@[j].state.hp && party@[j].state.atb == old(party)@[j].state.atb && party@[j].id
                    == old(party)@[j].id by {}
                assert forall|x: int, y: int|
                    0 <= x < self.enemies@.len() && 0 <= y < self.enemies@[x]@.len() implies (
                #[trigger] self.enemies@[x]@[y]).state.hp == old(self).enemies@[x]@[y].state.hp
                    && self.enemies@[x]@[y].state.atb == old(self).enemies@[x]@[y].state.atb
                    && self.enemies@[x]@[y].id == old(self).enemies@[x]@[y].id by {}
                lemma_party_scan_congruent(
                    queue_after_assign,
                    party@,
                    old(party)@,
                    party@.len() as int,
                );
                lemma_grid_scan_congruent(
                    queue_after_party_scan(queue_after_assign, old(party)@, old(party)@.len() as int),
                    self.enemies@,
                    old(self).enemies@,
                    self.enemies@.len() as int,
                );
            }
        }
        let ghost queue_after_scan = self.active_turns@;
        proof {
            assert(forall|k: int|
                0 <= k < queue_after_scan.len() ==> old(self).active_turns@.contains(
                    #[trigger] queue_after_scan[k],
                ) || full_living_id(old(party)@, old(self).enemies@, queue_after_scan[k]));
            assert(!old(self).battle_menu.spec_is_open() ==> queue_after_scan
                == queue_after_grid_scan(
                queue_after_party_scan(
                    (if old(self).current_turn == 0 && old(self).active_turns@.len() > 0 {
                        old(self).active_turns@.drop_first()
                    } else {
                        old(self).active_turns@
                    }),
                    old(party)@,
                    old(party)@.len() as int,
                ),
                old(self).enemies@,
                old(self).enemies@.len() as int,
            ));
        }
        let ghost p2 = party@;
        let ghost e2 = self.enemies@;
        let ghost e2v = self.enemies;
        let mut i: usize = 0;
        while i < party.len()
            invariant
                party_wf(party@),
                party@.len() == old(party)@.len(),
                p2.len() == party@.len(),
                self.wf(),
                self.active_turns@ == queue_after_scan,
                self.enemies == e2v,
                self.enemies@ == e2,
                self.enemies@.len() == old(self).enemies@.len(),
                self.experience_gained >= old(self).experience_gained,
                self.fighting_state == old(self).fighting_state,
                i <= party@.len(),
                forall|j: int|
                    0 <= j < party@.len() && (#[trigger] party@[j]).state.is_turn_active
                        ==> p2[j].state.is_turn_active,
            decreases party@.len() - i,
        {
            let turn_done = {
                let member = &mut party[i];
                member.update(&mut self.battle_menu, &mut self.print_damage, sfx)
            };
            if turn_done {
                self.current_turn = 0;
            }
            i = i + 1;
        }
        let ghost p3 = party@;
        let possible_battle_script = self.handle_enemy_updates(sfx);
        let ghost e3 = self.enemies@;
        proof {
            // One enemy tick never hands out a turn.
            assert forall|x: int, y: int|
                0 <= x < e2.len() && 0 <= y < e2[x]@.len() && (
            #[trigger] e3[x]@[y]).state.is_turn_active implies e2[x]@[y].state.is_turn_active by {
                assert(e3[x]@[y] == crate::enemy::enemy_ticked(e2[x]@[y]) || e3[x]@[y] == e2[x]@[
                    y
                ]);
            }
        }
        if let Some(battle_script) = possible_battle_script {
            self.run_enemy_script(battle_script, party, notification, rng);
        }
        let ghost p4 = party@;
        let ghost e4 = self.enemies@;
        self.end_battle(party, transition, sfx);
        self.print_damage.update();
        proof {
            // A combatant is only ever activated by the assignment phase:
            // every later phase keeps or clears the flag.
            assert forall|i: int|
                0 <= i < old(party)@.len() && party@[i].state.is_turn_active implies (
            #[trigger] old(party)@[i]).state.is_turn_active || (old(self).current_turn == 0 && old(
                self,
            ).active_turns@.len() > 0 && old(party)@[i].id == old(self).active_turns@[0]) by {
                assert(party@[i] == p4[i] || party@[i] == win_swept_member(
                    p4[i],
                    old(self).current_turn == 0 && is_first_living(p4, i),
                ) || party@[i] == (if p4[i].state.hp > 0 {
                    char_ticked(turn_force_ended(p4[i]))
                } else {
                    p4[i]
                }));
                assert(p4[i].state.is_turn_active ==> p3[i].state.is_turn_active);
                assert(p3[i].state.is_turn_active ==> p2[i].state.is_turn_active);
                assert(p2[i].state.is_turn_active ==> p1[i].state.is_turn_active);
                assert(p1[i].state.is_turn_active ==> old(party)@[i].state.is_turn_active || (old(
                    self,
                ).current_turn == 0 && old(self).active_turns@.len() > 0 && old(party)@[i].id
                    == old(self).active_turns@[0]));
            }
            assert forall|r: int, c: int|
                0 <= r < old(self).enemies@.len() && 0 <= c < old(self).enemies@[r]@.len() && (
            #[trigger] self.enemies@[r]@[c]).state.is_turn_active implies old(self).enemies@[r]@[
                c
            ].state.is_turn_active || (old(self).current_turn == 0 && old(
                self,
            ).active_turns@.len() > 0 && old(self).enemies@[r]@[c].id == old(
                self,
            ).active_turns@[0]) by {
                assert(self.enemies@[r]@[c] == e4[r]@[c]);
                assert(e4[r]@[c] == e3[r]@[c] || (e3[r]@[c].state.hp > 0 && exists|d: u64|
                    e4[r]@[c] == battle_menus::enemy_received(e3[r]@[c], Action::PhysicalAttack, d))
                    || e4[r]@[c].state.is_turn_active == e3[r]@[c].state.is_turn_active);
                assert(e3[r]@[c].state.is_turn_active ==> e2[r]@[c].state.is_turn_active);
                assert(e2[r]@[c].state.is_turn_active ==> e1[r]@[c].state.is_turn_active);
                assert(e1[r]@[c].state.is_turn_active
                    ==> old(self).enemies@[r]@[c].state.is_turn_active || (old(self).current_turn
                    == 0 && old(self).active_turns@.len() > 0 && old(self).enemies@[r]@[c].id
                    == old(self).active_turns@[0]));
            }
        }
        proof {
            // The end-of-battle pass only ever shrinks the queue, so every
            // surviving entry traces back through the scan to the original
            // queue or to a living combatant with a full meter.
            assert forall|k: int|
                0 <= k < self.active_turns@.len() implies old(self).active_turns@.contains(
                #[trigger] self.active_turns@[k],
            ) || full_living_id(old(party)@, old(self).enemies@, self.active_turns@[k]) by {
                let v = self.active_turns@[k];
                assert(queue_after_scan.contains(v));
                let j = choose|j: int| 0 <= j < queue_after_scan.len() && queue_after_scan[j] == v;
                assert(old(self).active_turns@.contains(queue_after_scan[j]) || full_living_id(
                    old(party)@,
                    old(self).enemies@,
                    queue_after_scan[j],
                ));
            }
        }
    }

    /// Assign the turn slot when it is free and someone is waiting: pop the
    /// queue head and tell the matching combatant to start its turn.
    pub fn start_turn(&mut self, party: &mut Vec<Character>)
        requires
            old(self).wf(),
            party_wf(old(party)@),
            party_ids_unique(old(party)@),
            // A queue head that names nobody in the roster is a fatal
            // configuration error and is ruled out here.
            queue_head_names_combatant(*old(self), old(party)@),
        ensures
            final(self).wf(),
            party_wf(final(party)@),
            final(party)@.len() == old(party)@.len(),
            final(self).enemies@.len() == old(self).enemies@.len(),
            old(self).active_turns@.len() == 0 || old(self).current_turn != 0 ==> *final(self)
                == *old(self) && final(party)@ == old(party)@,
            old(self).active_turns@.len() > 0 && old(self).current_turn == 0 ==> ({
                let id = old(self).active_turns@[0];
                &&& final(self).current_turn == id
                &&& final(self).active_turns@ == old(self).active_turns@.drop_first()
                &&& forall|i: int|
                    0 <= i < old(party)@.len() ==> final(party)@[i] == (if 1 <= id <= 4 && (
                    #[trigger] old(party)@[i]).id == id {
                        character_turn_started(old(party)@[i])
                    } else {
                        old(party)@[i]
                    })
                &&& final(self).enemies@.len() == old(self).enemies@.len()
                &&& forall|r: int|
                    0 <= r < old(self).enemies@.len() ==> (#[trigger] final(self).enemies@[r])@.len() == old(self).enemies@[r]@.len()
                &&& forall|r: int, c: int|
                    0 <= r < old(self).enemies@.len() && 0 <= c < old(self).enemies@[r]@.len()
                        ==> #[trigger] final(self).enemies@[r]@[c] == (if id > 4 && old(self).enemies@[r]@[c].id == id {
                        enemy_turn_started(old(self).enemies@[r]@[c])
                    } else {
                        old(self).enemies@[r]@[c]
                    })
                &&& *final(self) == (Battle {
                    current_turn: final(self).current_turn,
                    active_turns: final(self).active_turns,
                    enemies: final(self).enemies,
                    ..*old(self)
                })
            }),
    {
        if self.active_turns.len() > 0 && self.current_turn == 0 {
            self.current_turn = self.active_turns.remove(0);
            proof {
                assert(self.active_turns@ =~= old(self).active_turns@.drop_first());
            }
            let id = self.current_turn;
            let ghost pre_loop = *self;
            if id > 0 && id < 5 {
                let mut i: usize = 0;
                let mut started: bool = false;
                #[verifier::loop_isolation(false)]
                while i < party.len()
                    invariant
                        party@.len() == old(party)@.len(),
                        party_wf(party@),
                        party_ids_unique(party@),
                        i <= party@.len(),
                        forall|j: int|
                            0 <= j < party@.len() ==> (#[trigger] party@[j]).id == old(party)@[j].id,
                        !started ==> forall|j: int|
                            0 <= j < party@.len() ==> party@[j] == old(party)@[j],
                        !started ==> forall|j: int|
                            0 <= j < i ==> (#[trigger] party@[j]).id != id,
                        started ==> forall|j: int|
                            0 <= j < party@.len() ==> party@[j] == (if (#[trigger] old(party)@[j]).id == id {
                                character_turn_started(old(party)@[j])
                            } else {
                                old(party)@[j]
                            }),
                    decreases party@.len() - i, (if started { 0int } else { 1int }),
                {
                    if !started && party[i].get_id() == id {
                        let member = &mut party[i];
                        member.start_turn();
                        started = true;
                    } else {
                        i = i + 1;
                    }
                }
            } else if id > 4 {
                let mut r: usize = 0;
                #[verifier::loop_isolation(false)]
                while r < self.enemies.len()
                    invariant
                        *self == (Battle { enemies: self.enemies, ..pre_loop }),
                        self.enemies@.len() == old(self).enemies@.len(),
                        enemies_wf(self.enemies@),
                        r <= self.enemies@.len(),
                        forall|x: int|
                            0 <= x < self.enemies@.len() ==> (#[trigger] self.enemies@[x])@.len()
                                == old(self).enemies@[x]@.len(),
                        forall|x: int, y: int|
                            r <= x < self.enemies@.len() && 0 <= y < self.enemies@[x]@.len()
                                ==> #[trigger] self.enemies@[x]@[y] == old(self).enemies@[x]@[y],
                        forall|x: int, y: int|
                            0 <= x < r && 0 <= y < self.enemies@[x]@.len()
                                ==> #[trigger] self.enemies@[x]@[y] == (if old(self).enemies@[x]@[y].id == id {
                                enemy_turn_started(old(self).enemies@[x]@[y])
                            } else {
                                old(self).enemies@[x]@[y]
                            }),
                    decreases self.enemies@.len() - r,
                {
                    let ghost rowsnap = self.enemies@[r as int]@;
                    let row_len = self.enemies[r].len();
                    let mut c: usize = 0;
                    #[verifier::loop_isolation(false)]
                    while c < row_len
                        invariant
                            *self == (Battle { enemies: self.enemies, ..pre_loop }),
                            self.enemies@.len() == old(self).enemies@.len(),
                            (r as int) < self.enemies@.len(),
                            enemies_wf(self.enemies@),
                            row_len == rowsnap.len(),
                            rowsnap == old(self).enemies@[r as int]@,
                            c <= row_len,
                            self.enemies@[r as int]@.len() == rowsnap.len(),
                            forall|x: int|
                                0 <= x < self.enemies@.len() ==> (#[trigger] self.enemies@[
                                    x
                                ])@.len() == old(self).enemies@[x]@.len(),
                            forall|x: int, y: int|
                                r < x < self.enemies@.len() && 0 <= y < self.enemies@[x]@.len()
                                    ==> #[trigger] self.enemies@[x]@[y] == old(self).enemies@[x]@[y],
                            forall|x: int, y: int|
                                0 <= x < r && 0 <= y < self.enemies@[x]@.len()
                                    ==> #[trigger] self.enemies@[x]@[y] == (if old(self).enemies@[x]@[y].id == id {
                                    enemy_turn_started(old(self).enemies@[x]@[y])
                                } else {
                                    old(self).enemies@[x]@[y]
                                }),
                            forall|y: int|
                                c <= y < rowsnap.len() ==> self.enemies@[r as int]@[y] == rowsnap[
                                    y
                                ],
                            forall|y: int|
                                0 <= y < c ==> self.enemies@[r as int]@[y] == (if (
                                #[trigger] rowsnap[y]).id == id {
                                    enemy_turn_started(rowsnap[y])
                                } else {
                                    rowsnap[y]
                                }),
                        decreases row_len - c,
                    {
                        if self.enemies[r][c].get_id() == id {
                            let target = &mut self.enemies[r][c];
                            target.start_turn();
                        }
                        c = c + 1;
                    }
                    r = r + 1;
                }
            }
        }
    }

    /// Scan the roster and formation; every living combatant with a full
    /// meter that is not already waiting joins the back of the queue, party
    /// first, then enemies row-major.
    fn enqueue_ready(&mut self, party: &Vec<Character>)
        requires
            old(self).wf(),
        ensures
            final(self).wf(),
            *final(self) == (Battle { active_turns: final(self).active_turns, ..*old(self) }),
            // Exactly the scan's result: every ready combatant joins once,
            // party first, then the formation row-major.
            final(self).active_turns@ == queue_after_grid_scan(
                queue_after_party_scan(old(self).active_turns@, party@, party@.len() as int),
                old(self).enemies@,
                old(self).enemies@.len() as int,
            ),
            forall|k: int|
                0 <= k < final(self).active_turns@.len() ==> old(self).active_turns@.contains(
                    #[trigger] final(self).active_turns@[k],
                ) || full_living_id(party@, old(self).enemies@, final(self).active_turns@[k]),
    {
        let ghost queue0 = self.active_turns@;
        let mut i: usize = 0;
        while i < party.len()
            invariant
                i <= party@.len(),
                *self == (Battle { active_turns: self.active_turns, ..*old(self) }),
                self.active_turns@ == queue_after_party_scan(queue0, party@, i as int),
                forall|k: int|
                    0 <= k < self.active_turns@.len() ==> queue0.contains(
                        #[trigger] self.active_turns@[k],
                    ) || full_living_id(party@, old(self).enemies@, self.active_turns@[k]),
            decreases party@.len() - i,
        {
            let member = &party[i];
            if member.get_battle_state().get_hp() > 0 && member.is_atb_full()
                && !self.queue_contains(member.get_id()) {
                let ghost before = self.active_turns@;
                self.active_turns.push(member.get_id());
                proof {
                    assert(full_living_id(party@, old(self).enemies@, party@[i as int].id));
                }
            }
            i = i + 1;
        }
        let ghost queue1 = self.active_turns@;
        let mut r: usize = 0;
        while r < self.enemies.len()
            invariant
                r <= self.enemies@.len(),
                *self == (Battle { active_turns: self.active_turns, ..*old(self) }),
                self.active_turns@ == queue_after_grid_scan(queue1, old(self).enemies@, r as int),
                queue1 == queue_after_party_scan(queue0, party@, party@.len() as int),
                queue0 == old(self).active_turns@,
                forall|k: int|
                    0 <= k < self.active_turns@.len() ==> queue0.contains(
                        #[trigger] self.active_turns@[k],
                    ) || full_living_id(party@, old(self).enemies@, self.active_turns@[k]),
            decreases self.enemies@.len() - r,
        {
            let row_len = self.enemies[r].len();
            let mut c: usize = 0;
            while c < row_len
                invariant
                    (r as int) < self.enemies@.len(),
                    row_len == self.enemies@[r as int]@.len(),
                    c <= row_len,
                    *self == (Battle { active_turns: self.active_turns, ..*old(self) }),
                    self.active_turns@ == queue_after_row_scan(
                        queue_after_grid_scan(queue1, old(self).enemies@, r as int),
                        old(self).enemies@[r as int]@,
                        c as int,
                    ),
                    queue1 == queue_after_party_scan(queue0, party@, party@.len() as int),
                    queue0 == old(self).active_turns@,
                    forall|k: int|
                        0 <= k < self.active_turns@.len() ==> queue0.contains(
                            #[trigger] self.active_turns@[k],
                        ) || full_living_id(party@, old(self).enemies@, self.active_turns@[k]),
                decreases row_len - c,
            {
                let alive = self.enemies[r][c].get_battle_state().get_hp() > 0;
                let ready = self.enemies[r][c].is_atb_full();
                let id = self.enemies[r][c].get_id();
                if alive && ready && !self.queue_contains(id) {
                    self.active_turns.push(id);
                    proof {
                        assert(full_living_id(
                            party@,
                            old(self).enemies@,
                            old(self).enemies@[r as int]@[c as int].id,
                        ));
                    }
                }
                c = c + 1;
            }
            r = r + 1;
        }
    }

    /// Whether an id is already waiting in the queue.
    fn queue_contains(&self, id: usize) -> (r: bool)
        ensures
            r == self.active_turns@.contains(id),
    {
        let mut i: usize = 0;
        while i < self.active_turns.len()
            invariant
                i <= self.active_turns@.len(),
                forall|j: int| 0 <= j < i ==> self.active_turns@[j] != id,
            decreases self.active_turns@.len() - i,
        {
            if self.active_turns[i] == id {
                return true;
            }
            i = i + 1;
        }
        false
    }

    /// Advance every enemy one tick and interpret its signal: the first one
    /// whose attack reached its action frame hands back its behaviour script
    /// (the rest of the formation waits a tick, as the script acts on the
    /// whole roster); a finished turn frees the slot; a fallen enemy pays its
    /// experience into the pot.
    #[verifier::rlimit(100)]
    #[verifier::spinoff_prover]
    pub fn handle_enemy_updates(&mut self, sfx: &mut Vec<SfxRequest>) -> (r: Option<EnemyScript>)
        requires
            old(self).wf(),
        ensures
            final(self).wf(),
            final(self).enemies@.len() == old(self).enemies@.len(),
            forall|i: int|
                0 <= i < old(self).enemies@.len() ==> (#[trigger] final(self).enemies@[i])@.len()
                    == old(self).enemies@[i]@.len(),
            final(self).active_turns@ == old(self).active_turns@,
            final(self).battle_menu == old(self).battle_menu,
            final(self).fighting_state == old(self).fighting_state,
            final(self).experience_gained >= old(self).experience_gained,
            final(self).current_turn == old(self).current_turn || final(self).current_turn == 0,
            // No script anywhere: the whole grid ticks; the slot clears
            // exactly when some enemy finished its turn; exactly the fallen
            // pay their rewards into the pot.
            r is None ==> ({
                let g = old(self).enemies@;
                &&& grid_scriptless(g, g.len() as int)
                &&& forall|i: int, j: int|
                    0 <= i < g.len() && 0 <= j < g[i]@.len() ==> #[trigger] final(self).enemies@[i]@[j] == crate::enemy::enemy_ticked(g[i]@[j])
                &&& final(self).current_turn == (if grid_turn_over(g, g.len() as int) {
                    0
                } else {
                    old(self).current_turn
                })
                &&& final(self).experience_gained == pot_after_grid(
                    old(self).experience_gained as int,
                    g,
                    g.len() as int,
                )
            }),
            // A script: the scan stops at the first enemy whose attack
            // reached its action frame; everything before it (row-major) has
            // ticked, everything after waits.
            r matches Some(script) ==> exists|ri: int, ci: int|
                #![trigger old(self).enemies@[ri]@[ci]]
                ({
                    let g = old(self).enemies@;
                    &&& 0 <= ri < g.len() && 0 <= ci < g[ri]@.len()
                    &&& crate::enemy::enemy_tick_signal(g[ri]@[ci]) == SIGNAL_RUN_SCRIPT
                    &&& script == g[ri]@[ci].battle_script
                    &&& grid_scriptless(g, ri) && row_scriptless(g[ri]@, ci)
                    &&& forall|i: int, j: int|
                        0 <= i < g.len() && 0 <= j < g[i]@.len() ==> #[trigger] final(self).enemies@[i]@[j] == (if i < ri || (i == ri && j <= ci) {
                            crate::enemy::enemy_ticked(g[i]@[j])
                        } else {
                            g[i]@[j]
                        })
                    &&& final(self).current_turn == (if grid_turn_over(g, ri) || row_turn_over(
                        g[ri]@,
                        ci,
                    ) {
                        0
                    } else {
                        old(self).current_turn
                    })
                    &&& final(self).experience_gained == pot_after_row(
                        pot_after_grid(old(self).experience_gained as int, g, ri),
                        g[ri]@,
                        ci,
                    )
                }),
    {
        let ghost g = self.enemies@;
        let mut r: usize = 0;
        while r < self.enemies.len()
            invariant
                g == old(self).enemies@,
                self.wf(),
                self.enemies@.len() == g.len(),
                forall|i: int|
                    0 <= i < g.len() ==> (#[trigger] self.enemies@[i])@.len() == g[i]@.len(),
                self.active_turns@ == old(self).active_turns@,
                self.battle_menu == old(self).battle_menu,
                self.fighting_state == old(self).fighting_state,
                self.soundtrack_file == old(self).soundtrack_file,
                self.experience_gained >= old(self).experience_gained,
                r <= g.len(),
                forall|i: int, j: int|
                    0 <= i < g.len() && 0 <= j < g[i]@.len() ==> #[trigger] self.enemies@[i]@[j]
                        == (if i < r {
                        crate::enemy::enemy_ticked(g[i]@[j])
                    } else {
                        g[i]@[j]
                    }),
                self.current_turn == (if grid_turn_over(g, r as int) {
                    0int
                } else {
                    old(self).current_turn as int
                }),
                self.experience_gained == pot_after_grid(
                    old(self).experience_gained as int,
                    g,
                    r as int,
                ),
                grid_scriptless(g, r as int),
            decreases g.len() - r,
        {
            let row_len = self.enemies[r].len();
            let mut c: usize = 0;
            while c < row_len
                invariant
                    g == old(self).enemies@,
                    self.wf(),
                    (r as int) < g.len(),
                    row_len == g[r as int]@.len(),
                    self.enemies@.len() == g.len(),
                    forall|i: int|
                        0 <= i < g.len() ==> (#[trigger] self.enemies@[i])@.len() == g[i]@.len(),
                    self.active_turns@ == old(self).active_turns@,
                    self.battle_menu == old(self).battle_menu,
                    self.fighting_state == old(self).fighting_state,
                    self.soundtrack_file == old(self).soundtrack_file,
                    self.experience_gained >= old(self).experience_gained,
                    c <= row_len,
                    forall|i: int, j: int|
                        0 <= i < g.len() && 0 <= j < g[i]@.len() ==> #[trigger] self.enemies@[i]@[
                            j
                        ] == (if i < r || (i == r && j < c) {
                            crate::enemy::enemy_ticked(g[i]@[j])
                        } else {
                            g[i]@[j]
                        }),
                    self.current_turn == (if grid_turn_over(g, r as int) || row_turn_over(
                        g[r as int]@,
                        c as int,
                    ) {
                        0int
                    } else {
                        old(self).current_turn as int
                    }),
                    self.experience_gained == pot_after_row(
                        pot_after_grid(old(self).experience_gained as int, g, r as int),
                        g[r as int]@,
                        c as int,
                    ),
                    grid_scriptless(g, r as int),
                    row_scriptless(g[r as int]@, c as int),
                decreases row_len - c,
            {
                let x = 700i64 + battle_menus::grid_offset(r);
                let y = 180i64 + battle_menus::grid_offset(c);
                let signal = {
                    let enemy = &mut self.enemies[r][c];
                    enemy.update(x, y, &mut self.print_damage, sfx)
                };
                if signal == SIGNAL_RUN_SCRIPT {
                    let script = self.enemies[r][c].get_battle_script();
                    proof {
                        let gi = r as int;
                        let gj = c as int;
                        assert(crate::enemy::enemy_ticked(g[gi]@[gj]).battle_script
                            == g[gi]@[gj].battle_script);
                        assert(crate::enemy::enemy_tick_signal(g[gi]@[gj]) == SIGNAL_RUN_SCRIPT);
                        assert forall|i: int, j: int|
                            0 <= i < g.len() && 0 <= j < g[i]@.len()
                                implies #[trigger] self.enemies@[i]@[j] == (if i < gi || (i == gi
                                && j <= gj) {
                                crate::enemy::enemy_ticked(g[i]@[j])
                            } else {
                                g[i]@[j]
                            }) by {}
                    }
                    return Some(script);
                } else if signal == SIGNAL_TURN_OVER {
                    self.current_turn = 0;
                } else if signal == SIGNAL_AWARD_EXPERIENCE {
                    let reward = self.enemies[r][c].get_experience();
                    if self.experience_gained <= u32::MAX - reward {
                        self.experience_gained = self.experience_gained + reward;
                    } else {
                        self.experience_gained = u32::MAX;
                    }
                }
                c = c + 1;
            }
            r = r + 1;
        }
        None
    }

    /// Run one enemy behaviour script: the acting enemy (the one whose turn
    /// is active) computes its attack once and a randomly picked living party
    /// member receives it. Only the living are ever targeted.
    fn run_enemy_script(
        &mut self,
        script: EnemyScript,
        party: &mut Vec<Character>,
        notification: &mut Notification,
        rng: &TickRandom,
    )
        requires
            old(self).wf(),
            party_wf(old(party)@),
            rng.wf(),
        ensures
            final(self).wf(),
            party_wf(final(party)@),
            final(party)@.len() == old(party)@.len(),
            *final(self) == (Battle { enemies: final(self).enemies, ..*old(self) }),
            final(self).enemies@.len() == old(self).enemies@.len(),
            forall|r: int|
                0 <= r < old(self).enemies@.len() ==> (#[trigger] final(self).enemies@[r])@.len()
                    == old(self).enemies@[r]@.len(),
            forall|r: int, c: int|
                0 <= r < old(self).enemies@.len() && 0 <= c < old(self).enemies@[r]@.len()
                    ==> #[trigger] final(self).enemies@[r]@[c] == old(self).enemies@[r]@[c],
            forall|i: int|
                0 <= i < old(party)@.len() ==> final(party)@[i] == old(party)@[i] || ((
                #[trigger] old(party)@[i]).state.hp > 0 && exists|d: u64|
                    final(party)@[i] == battle_menus::character_received(
                        old(party)@[i],
                        Action::PhysicalAttack,
                        d,
                    )),
    {
        match script {
            EnemyScript::AttackRandomPartyMember => {
                let (found, row, col) = self.find_active_enemy();
                if !found {
                    return ;
                }
                let damage: u64 = {
                    let acting = &mut self.enemies[row][col];
                    Action::PhysicalAttack.compute(
                        acting.get_battle_state_mut(),
                        notification,
                        rng.damage_draw,
                    )
                };
                let mut living: Vec<usize> = Vec::new();
                let mut i: usize = 0;
                while i < party.len()
                    invariant
                        i <= party@.len(),
                        forall|k: int|
                            0 <= k < living@.len() ==> 0 <= #[trigger] living@[k] < party@.len()
                                && party@[living@[k] as int].state.hp > 0,
                    decreases party@.len() - i,
                {
                    if party[i].get_battle_state().get_hp() > 0 {
                        living.push(i);
                    }
                    i = i + 1;
                }
                if living.len() == 0 {
                    return ;
                }
                let pick = living[rng.target_pick % living.len()];
                let target = &mut party[pick];
                target.receive_battle_action(Action::PhysicalAttack, damage);
                proof {
                    assert(party@[pick as int] == battle_menus::character_received(
                        old(party)@[pick as int],
                        Action::PhysicalAttack,
                        damage,
                    ));
                }
            },
        }
    }

    /// Locate the enemy whose turn is active, if any.
    fn find_active_enemy(&self) -> (r: (bool, usize, usize))
        ensures
            r.0 ==> (r.1 as int) < self.enemies@.len() && (r.2 as int) < self.enemies@[
                r.1 as int
            ]@.len(),
    {
        let mut ri: usize = 0;
        while ri < self.enemies.len()
            invariant
                ri <= self.enemies@.len(),
            decreases self.enemies@.len() - ri,
        {
            let row_len = self.enemies[ri].len();
            let mut ci: usize = 0;
            while ci < row_len
                invariant
                    (ri as int) < self.enemies@.len(),
                    row_len == self.enemies@[ri as int]@.len(),
                    ci <= row_len,
                decreases row_len - ci,
            {
                if self.enemies[ri][ci].get_battle_state().is_turn_active() {
                    return (true, ri, ci);
                }
                ci = ci + 1;
            }
            ri = ri + 1;
        }
        (false, 0, 0)
    }

    /// Open the battle: line the party up and fade into the fight.
    pub fn start_battle(
        &mut self,
        party: &mut Vec<Character>,
        enemies: Vec<Vec<Enemy>>,
        transition: &mut Transition,
    )
        requires
            old(self).wf(),
            party_wf(old(party)@),
            enemies_wf(enemies@),
        ensures
            final(self).wf(),
            party_wf(final(party)@),
            final(party)@.len() == old(party)@.len(),
            final(self).enemies == enemies,
            final(self).experience_gained == 0,
            final(transition).style == TransitionStyle::BattleIn,
            *final(self) == (Battle {
                enemies: final(self).enemies,
                experience_gained: 0,
                ..*old(self)
            }),
            // Every member lines up on the left at its slot height, facing
            // the enemies.
            forall|i: int|
                0 <= i < old(party)@.len() ==> final(party)@[i] == (Character {
                    x: 100,
                    y: (old(party)@[i].id * 80) as i64,
                    animation: (crate::animation::CharacterAnimation {
                        sprite: crate::animation::stand_sprite(crate::animation::Direction::Right),
                        ..old(party)@[i].animation
                    }),
                    ..old(party)@[i]
                }),
    {
        let mut i: usize = 0;
        while i < party.len()
            invariant
                party@.len() == old(party)@.len(),
                party_wf(party@),
                i <= party@.len(),
                forall|j: int| i <= j < party@.len() ==> party@[j] == old(party)@[j],
                forall|j: int|
                    0 <= j < i ==> #[trigger] party@[j] == (Character {
                        x: 100,
                        y: (old(party)@[j].id * 80) as i64,
                        animation: (crate::animation::CharacterAnimation {
                            sprite: crate::animation::stand_sprite(
                                crate::animation::Direction::Right,
                            ),
                            ..old(party)@[j].animation
                        }),
                        ..old(party)@[j]
                    }),
            decreases party@.len() - i,
        {
            let member = &mut party[i];
            member.start_battle(false);
            i = i + 1;
        }
        self.enemies = enemies;
        self.experience_gained = 0;
        transition.set(TransitionStyle::BattleIn);
    }

    /// Resolve the end of the battle. While fighting, the moment no enemy is
    /// left alive the queue clears, the menu closes, every living member's
    /// turn is force-ended, and the first member for whom the slot is already
    /// free celebrates and carries the fight into the victory state. During
    /// victory every living member's timeline plays out; the first to finish
    /// fades the battle out to the experience screen.
    fn end_battle(
        &mut self,
        party: &mut Vec<Character>,
        transition: &mut Transition,
        sfx: &mut Vec<SfxRequest>,
    )
        requires
            old(self).wf(),
            party_wf(old(party)@),
        ensures
            final(self).wf(),
            party_wf(final(party)@),
            final(party)@.len() == old(party)@.len(),
            final(self).enemies@.len() == old(self).enemies@.len(),
            final(self).experience_gained == old(self).experience_gained,
            final(self).fighting_state is Victory ==> old(self).fighting_state is Fighting || old(self).fighting_state is Victory,
            !(old(self).fighting_state is Fighting) ==> final(self).fighting_state == old(self).fighting_state,
            // A running fight with survivors on the other side changes nothing.
            old(self).fighting_state is Fighting && exists_living_enemy(old(self).enemies@)
                ==> *final(self) == *old(self) && final(party)@ == old(party)@
                    && *final(transition) == *old(transition) && final(sfx)@ == old(sfx)@,
            // The win: the moment no enemy is left, the queue clears, the menu
            // closes, every living member's turn is force-ended, and - if the
            // turn slot is free - the first living member celebrates and the
            // fight passes into victory.
            old(self).fighting_state is Fighting && !exists_living_enemy(old(self).enemies@)
                ==> ({
                let won = old(self).current_turn == 0 && any_living_member(old(party)@);
                &&& final(self).active_turns@.len() == 0
                &&& is_none_menu(final(self).battle_menu)
                &&& final(self).fighting_state == (if won {
                    FightingState::Victory
                } else {
                    FightingState::Fighting
                })
                &&& *final(self) == (Battle {
                    active_turns: final(self).active_turns,
                    battle_menu: final(self).battle_menu,
                    fighting_state: final(self).fighting_state,
                    ..*old(self)
                })
                &&& forall|i: int|
                    0 <= i < old(party)@.len() ==> final(party)@[i] == win_swept_member(
                        old(party)@[i],
                        old(self).current_turn == 0 && is_first_living(old(party)@, i),
                    )
                &&& *final(transition) == *old(transition)
                &&& final(sfx)@ == old(sfx)@
            }),
            // The victory phase: every living member's turn is force-ended and
            // its timeline advanced one tick; the battle fades out to the
            // experience screen, carrying the pot, exactly when one of them
            // reports its celebration complete.
            old(self).fighting_state is Victory ==> ({
                let done = exists|i: int|
                    0 <= i < old(party)@.len() && (#[trigger] old(party)@[i]).state.hp > 0
                        && char_tick_done(turn_force_ended(old(party)@[i]));
                &&& forall|i: int|
                    0 <= i < old(party)@.len() ==> final(party)@[i] == (if (#[trigger] old(party)@[i]).state.hp > 0 {
                        char_ticked(turn_force_ended(old(party)@[i]))
                    } else {
                        old(party)@[i]
                    })
                &&& *final(self) == (Battle {
                    battle_menu: final(self).battle_menu,
                    print_damage: final(self).print_damage,
                    ..*old(self)
                })
                &&& done ==> *final(transition) == (Transition {
                    style: TransitionStyle::BattleEndScreen(old(self).experience_gained),
                    ..*old(transition)
                })
                &&& !done ==> *final(transition) == *old(transition)
            }),
            old(self).fighting_state is Flee || old(self).fighting_state is NotFighting
                ==> *final(self) == *old(self) && final(party)@ == old(party)@
                    && *final(transition) == *old(transition) && final(sfx)@ == old(sfx)@,
            forall|k: int|
                0 <= k < final(self).active_turns@.len() ==> old(self).active_turns@.contains(
                    #[trigger] final(self).active_turns@[k],
                ),
    {
        match self.fighting_state {
            FightingState::Fighting => {
                if !self.any_enemy_alive() {
                    self.active_turns.clear();
                    self.battle_menu.set_menu(battle_menus::none_menu());
                    let mut entered: bool = false;
                    let mut i: usize = 0;
                    #[verifier::loop_isolation(false)]
                    while i < party.len()
                        invariant
                            party@.len() == old(party)@.len(),
                            party_wf(party@),
                            i <= party@.len(),
                            self.active_turns@.len() == 0,
                            is_none_menu(self.battle_menu),
                            self.battle_menu.wf(),
                            self.enemies == old(self).enemies,
                            self.current_turn == old(self).current_turn,
                            self.experience_gained == old(self).experience_gained,
                            self.print_damage == old(self).print_damage,
                            self.soundtrack_file == old(self).soundtrack_file,
                            entered == (old(self).current_turn == 0 && exists|k: int|
                                0 <= k < i && (#[trigger] old(party)@[k]).state.hp > 0),
                            self.fighting_state == (if entered {
                                FightingState::Victory
                            } else {
                                FightingState::Fighting
                            }),
                            forall|j: int|
                                0 <= j < i ==> party@[j] == win_swept_member(
                                    old(party)@[j],
                                    old(self).current_turn == 0 && is_first_living(old(party)@, j),
                                ),
                            forall|j: int| i <= j < party@.len() ==> party@[j] == old(party)@[j],
                        decreases party@.len() - i,
                    {
                        let alive = party[i].get_battle_state().get_hp() > 0;
                        if alive {
                            {
                                let member = &mut party[i];
                                let state = member.get_battle_state_mut();
                                state.end_turn();
                            }
                            if self.current_turn == 0 && !entered {
                                let member = &mut party[i];
                                member.battle_won();
                                self.fighting_state = FightingState::Victory;
                                entered = true;
                            }
                        }
                        i = i + 1;
                    }
                }
            },
            FightingState::Victory => {
                let mut i: usize = 0;
                #[verifier::loop_isolation(false)]
                while i < party.len()
                    invariant
                        party@.len() == old(party)@.len(),
                        party_wf(party@),
                        i <= party@.len(),
                        self.wf(),
                        self.enemies == old(self).enemies,
                        self.active_turns == old(self).active_turns,
                        self.current_turn == old(self).current_turn,
                        self.experience_gained == old(self).experience_gained,
                        self.soundtrack_file == old(self).soundtrack_file,
                        self.fighting_state is Victory,
                        forall|j: int|
                            0 <= j < i ==> party@[j] == (if (#[trigger] old(party)@[j]).state.hp > 0 {
                                char_ticked(turn_force_ended(old(party)@[j]))
                            } else {
                                old(party)@[j]
                            }),
                        forall|j: int| i <= j < party@.len() ==> party@[j] == old(party)@[j],
                        (exists|k: int|
                            0 <= k < i && (#[trigger] old(party)@[k]).state.hp > 0
                                && char_tick_done(turn_force_ended(old(party)@[k])))
                            ==> *transition == (Transition {
                            style: TransitionStyle::BattleEndScreen(old(self).experience_gained),
                            ..*old(transition)
                        }),
                        !(exists|k: int|
                            0 <= k < i && (#[trigger] old(party)@[k]).state.hp > 0
                                && char_tick_done(turn_force_ended(old(party)@[k])))
                            ==> *transition == *old(transition),
                    decreases party@.len() - i,
                {
                    let alive = party[i].get_battle_state().get_hp() > 0;
                    if alive {
                        {
                            let member = &mut party[i];
                            let state = member.get_battle_state_mut();
                            state.end_turn();
                        }
                        let animation_done = {
                            let member = &mut party[i];
                            member.update(&mut self.battle_menu, &mut self.print_damage, sfx)
                        };
                        if animation_done {
                            transition.set(TransitionStyle::BattleEndScreen(
                                self.experience_gained,
                            ));
                        }
                    }
                    i = i + 1;
                }
            },
            FightingState::Flee => (),
            FightingState::NotFighting => (),
        }
    }

    /// Whether any enemy in the formation is still alive.
    fn any_enemy_alive(&self) -> (r: bool)
        ensures
            r == exists_living_enemy(self.enemies@),
    {
        let mut i: usize = 0;
        while i < self.enemies.len()
            invariant
                i <= self.enemies@.len(),
                forall|x: int, y: int|
                    0 <= x < i && 0 <= y < self.enemies@[x]@.len() ==> (
                    #[trigger] self.enemies@[x]@[y]).state.hp == 0,
            decreases self.enemies@.len() - i,
        {
            let row_len = self.enemies[i].len();
            let mut j: usize = 0;
            while j < row_len
                invariant
                    (i as int) < self.enemies@.len(),
                    row_len == self.enemies@[i as int]@.len(),
                    j <= row_len,
                    forall|x: int, y: int|
                        0 <= x < i && 0 <= y < self.enemies@[x]@.len() ==> (
                        #[trigger] self.enemies@[x]@[y]).state.hp == 0,
                    forall|y: int|
                        0 <= y < j ==> (#[trigger] self.enemies@[i as int]@[y]).state.hp == 0,
                decreases row_len - j,
            {
                if self.enemies[i][j].get_battle_state().get_hp() > 0 {
                    return true;
                }
                j = j + 1;
            }
            i = i + 1;
        }
        false
    }

    /// Switch the lifecycle in or out of a fight.
    pub fn set_fighting_state(&mut self, in_battle: bool)
        ensures
            *final(self) == (Battle {
                fighting_state: if in_battle {
                    FightingState::Fighting
                } else {
                    FightingState::NotFighting
                },
                ..*old(self)
            }),
    {
        if in_battle {
            self.fighting_state = FightingState::Fighting;
        } else {
            self.fighting_state = FightingState::NotFighting;
        }
    }

    /// A battle is in progress in every state but `NotFighting`.
    pub fn is_in_battle(&self) -> (r: bool)
        ensures
            r == !(self.fighting_state is NotFighting),
    {
        match self.fighting_state {
            FightingState::NotFighting => false,
            _ => true,
        }
    }

    pub fn get_enemies(&mut self) -> (r: &mut Vec<Vec<Enemy>>)
        ensures
            *r == old(self).enemies,
            *final(self) == (Battle { enemies: *final(r), ..*old(self) }),
    {
        &mut self.enemies
    }

    pub fn get_fighting_state(&self) -> (r: FightingState)
        ensures
            r == self.fighting_state,
    {
        self.fighting_state
    }

    pub fn get_current_turn(&self) -> (r: usize)
        ensures
            r == self.current_turn,
    {
        self.current_turn
    }

    pub fn get_active_turns(&self) -> (r: &Vec<usize>)
        ensures
            r == self.active_turns,
    {
        &self.active_turns
    }

    pub fn get_experience_gained(&self) -> (r: u32)
        ensures
            r == self.experience_gained,
    {
        self.experience_gained
    }

    pub fn get_battle_menu(&self) -> (r: &MenuScreen)
        ensures
            r == self.battle_menu,
    {
        &self.battle_menu
    }

    pub fn get_print_damage(&self) -> (r: &PrintDamage)
        ensures
            r == self.print_damage,
    {
        &self.print_damage
    }

    pub fn get_soundtrack_file(&self) -> (r: &String)
        ensures
            r == self.soundtrack_file,
    {
        &self.soundtrack_file
    }
}

} // verus!
