//! Per-combatant battle bookkeeping: hit points, the active-time-bar meter
//! that fills with agility every tick, the turn-active flag, and experience
//! with its level-up rule.

use vstd::prelude::*;

verus! {

/// The meter value at which a combatant's turn becomes available.
pub const ATB_FULL: u8 = 255;

/// Experience a combatant must spend to advance from `level` to `level + 1`.
pub open spec fn level_threshold(level: int) -> int {
    150 * level * level - 100
}

/// Final (level, experience) once experience has been spent on level-ups
/// for as long as it reaches the current level's threshold.
pub open spec fn settled_level_experience(level: int, experience: int) -> (int, int)
    decreases experience
        when 1 <= level && 0 <= experience
        via settled_level_experience_decreases
{
    if level_threshold(level) <= experience {
        settled_level_experience(level + 1, experience - level_threshold(level))
    } else {
        (level, experience)
    }
}

#[via_fn]
proof fn settled_level_experience_decreases(level: int, experience: int) {
    if 1 <= level && 0 <= experience && level_threshold(level) <= experience {
        assert(150 * level * level >= 150) by (nonlinear_arith)
            requires 1 <= level;
    }
}

/// The meter value an update starts from: a full meter rolls over to zero
/// before this tick's accumulation.
pub open spec fn atb_meter_base(meter: int) -> int {
    if meter == ATB_FULL as int { 0 } else { meter }
}

/// The meter after one tick of accumulation from base meter `m` and carry
/// `sub`: every full step of 5 in the carry becomes one meter point, and the
/// meter saturates at `ATB_FULL`.
pub open spec fn atb_meter_step(m: int, sub: int, agi: int) -> int {
    vstd::math::min(ATB_FULL as int, m + (sub + agi) / 5)
}

/// The sub-tick carry left over after one tick of accumulation.
pub open spec fn atb_carry_step(sub: int, agi: int) -> int {
    (sub + agi) % 5
}

/// A whole combatant state after one tick: only living combatants accumulate
/// ATB, and nothing but the meter and its carry moves.
pub open spec fn atb_ticked(s: BattleState) -> BattleState {
    if s.hp > 0 {
        BattleState {
            atb: atb_meter_step(
                atb_meter_base(s.atb as int),
                s.atb_subtick as int,
                s.agi as int,
            ) as u8,
            atb_subtick: atb_carry_step(s.atb_subtick as int, s.agi as int) as u32,
            ..s
        }
    } else {
        s
    }
}

/// Exact threshold arithmetic for the level-up loop; `u128` leaves room for
/// any `u32` level.
fn level_threshold_exec(level: u32) -> (t: u128)
    requires
        1 <= level,
    ensures
        t as int == level_threshold(level as int),
        50 <= t,
{
    proof {
        assert(150 <= 150 * (level as int) * (level as int)
            && 150 * (level as int) * (level as int) < 0x10000000000000000000000)
            by (nonlinear_arith)
            requires 1 <= level as int <= 0xffffffff;
    }
    150u128 * (level as u128) * (level as u128) - 100
}

/// A combatant state right after `start_turn`.
pub open spec fn turn_started(s: BattleState) -> BattleState {
    BattleState { is_turn_active: true, ..s }
}

/// A combatant state right after `end_turn`: the flag clears and the meter
/// resets completely.
pub open spec fn turn_ended(s: BattleState) -> BattleState {
    BattleState { is_turn_active: false, atb: 0, atb_subtick: 0, ..s }
}

pub struct BattleState {
    pub level: u32,
    pub experience: u32,
    pub hp: u16,
    pub max_hp: u16,
    pub mp: u16,
    pub att: u32,
    pub def: u32,
    pub mag: u32,
    pub intelligence: u32,
    pub res: u32,
    pub agi: u32,
    pub atb: u8,
    pub atb_subtick: u32,
    pub is_turn_active: bool,
}

impl BattleState {
    /// Structural invariant: levels start at 1 (the threshold formula is only
    /// meaningful there), defence is nonzero (the damage formula divides by
    /// it), hit points never exceed their configured maximum, and the
    /// sub-tick carry is a settled remainder below one full step.
    pub open spec fn wf(&self) -> bool {
        &&& 1 <= self.level
        &&& 1 <= self.def
        &&& self.hp <= self.max_hp
        &&& self.atb_subtick <= 4
    }

    pub fn new(
        level: u32,
        hp: u16,
        mp: u16,
        att: u32,
        def: u32,
        mag: u32,
        intelligence: u32,
        res: u32,
        agi: u32,
    ) -> (s: Self)
        requires
            1 <= level,
            1 <= def,
        ensures
            s.wf(),
            s.level == level,
            s.experience == 0,
            s.hp == hp,
            s.max_hp == hp,
            s.mp == mp,
            s.att == att,
            s.def == def,
            s.mag == mag,
            s.intelligence == intelligence,
            s.res == res,
            s.agi == agi,
            s.atb == 0,
            s.atb_subtick == 0,
            !s.is_turn_active,
    {
        Self {
            level,
            experience: 0,
            hp,
            max_hp: hp,
            mp,
            att,
            def,
            mag,
            intelligence,
            res,
            agi,
            atb: 0,
            atb_subtick: 0,
            is_turn_active: false,
        }
    }

    /// One simulation tick: only living combatants accumulate ATB.
    pub fn update(&mut self)
        requires
            old(self).wf(),
        ensures
            final(self).wf(),
            *final(self) == atb_ticked(*old(self)),
    {
        if self.get_hp() > 0 {
            self.update_atb();
        }
    }

    /// Accumulate one tick of agility into the meter: a meter that is already
    /// full rolls over to zero, then the agility joins the sub-tick carry and
    /// every full step of 5 in the carry raises the meter by one, saturating
    /// at `ATB_FULL`.
    pub fn update_atb(&mut self)
        requires
            old(self).wf(),
        ensures
            final(self).wf(),
            final(self).atb as int == atb_meter_step(
                atb_meter_base(old(self).atb as int),
                old(self).atb_subtick as int,
                old(self).agi as int,
            ),
            final(self).atb_subtick as int == atb_carry_step(
                old(self).atb_subtick as int,
                old(self).agi as int,
            ),
            *final(self) == (BattleState {
                atb: final(self).atb,
                atb_subtick: final(self).atb_subtick,
                ..*old(self)
            }),
    {
        if self.is_atb_full() {
            self.atb = 0;
        }
        let mut sub: u64 = self.atb_subtick as u64 + self.agi as u64;
        let mut meter: u64 = self.atb as u64;
        let ghost sub0 = sub as int;
        let ghost m0 = meter as int;
        while sub > 4
            invariant
                meter <= ATB_FULL as int,
                sub <= sub0,
                (sub0 - sub) % 5 == 0,
                meter as int == vstd::math::min(ATB_FULL as int, m0 + (sub0 - sub) / 5),
                m0 <= ATB_FULL as int,
            decreases sub,
        {
            sub = sub - 5;
            if meter < ATB_FULL as u64 {
                meter = meter + 1;
            }
        }
        proof {
            vstd::arithmetic::div_mod::lemma_fundamental_div_mod_converse(
                sub0,
                5,
                (sub0 - sub as int) / 5,
                sub as int,
            );
        }
        self.atb = meter as u8;
        self.atb_subtick = sub as u32;
    }

    pub fn start_turn(&mut self)
        ensures
            *final(self) == (BattleState { is_turn_active: true, ..*old(self) }),
    {
        self.is_turn_active = true;
    }

    /// Ending a turn is a full reset of the meter: the combatant must refill
    /// from zero before it can act again.
    pub fn end_turn(&mut self)
        ensures
            *final(self) == (BattleState {
                is_turn_active: false,
                atb: 0,
                atb_subtick: 0,
                ..*old(self)
            }),
    {
        self.is_turn_active = false;
        self.atb = 0;
        self.atb_subtick = 0;
    }

    pub fn get_experience(&self) -> (r: u32)
        ensures
            r == self.experience,
    {
        self.experience
    }

    /// Add earned experience and spend it on level-ups while it reaches the
    /// current level's threshold; multi-level jumps happen in one call.
    pub fn add_experience(&mut self, experience: u32)
        requires
            old(self).wf(),
            old(self).experience + experience <= u32::MAX,
        ensures
            final(self).wf(),
            (final(self).level as int, final(self).experience as int)
                == settled_level_experience(
                    old(self).level as int,
                    old(self).experience + experience,
                ),
            final(self).level >= old(self).level,
            *final(self) == (BattleState {
                level: final(self).level,
                experience: final(self).experience,
                ..*old(self)
            }),
    {
        let mut lv: u32 = self.level;
        let mut exp: u32 = self.experience + experience;
        let ghost lv0 = lv as int;
        let ghost exp0 = exp as int;
        let mut threshold: u128 = level_threshold_exec(lv);
        while exp as u128 >= threshold
            invariant
                1 <= lv,
                lv0 <= lv,
                threshold as int == level_threshold(lv as int),
                50 <= threshold,
                settled_level_experience(lv0, exp0)
                    == settled_level_experience(lv as int, exp as int),
            decreases exp,
        {
            assert(threshold <= u32::MAX);
            exp = exp - threshold as u32;
            assert((lv as int) < 5351) by (nonlinear_arith)
                requires
                    150 * (lv as int) * (lv as int) - 100 <= 0xffffffff,
                    1 <= lv as int;
            lv = lv + 1;
            threshold = level_threshold_exec(lv);
        }
        self.level = lv;
        self.experience = exp;
    }

    pub fn is_turn_active(&self) -> (r: bool)
        ensures
            r == self.is_turn_active,
    {
        self.is_turn_active
    }

    pub fn is_atb_full(&self) -> (r: bool)
        ensures
            r == (self.atb == ATB_FULL),
    {
        self.atb == ATB_FULL
    }

    pub fn get_hp(&self) -> (r: u16)
        ensures
            r == self.hp,
    {
        self.hp
    }

    /// Damage clamps at zero: hit points never wrap or go negative, whatever
    /// the magnitude of the reduction.
    pub fn reduce_hp(&mut self, value: u16)
        ensures
            final(self).hp as int == vstd::math::max(0, old(self).hp - value),
            *final(self) == (BattleState { hp: final(self).hp, ..*old(self) }),
    {
        if let Some(new_hp) = self.hp.checked_sub(value) {
            self.hp = new_hp;
        } else {
            self.hp = 0;
        }
    }

    pub fn get_attack_stat(&self) -> (r: u32)
        ensures
            r == self.att,
    {
        self.att
    }

    pub fn get_defence_stat(&self) -> (r: u32)
        ensures
            r == self.def,
    {
        self.def
    }
}

/// Meter and carry after `k` accumulation ticks from a fresh combatant.
pub open spec fn atb_after_ticks(agi: int, k: nat) -> (int, int)
    decreases k,
{
    if k == 0 {
        (0, 0)
    } else {
        let prev = atb_after_ticks(agi, (k - 1) as nat);
        (atb_meter_step(atb_meter_base(prev.0), prev.1, agi), atb_carry_step(prev.1, agi))
    }
}

/// While no earlier tick could have filled the meter, the meter after `k`
/// ticks is exactly the accumulated agility in steps of five, capped at full,
/// and the carry is the leftover below one step.
pub proof fn lemma_atb_accumulation(agi: int, k: nat)
    requires
        1 <= agi,
        k >= 1 ==> (k - 1) * agi < 5 * ATB_FULL as int,
    ensures
        atb_after_ticks(agi, k).0 == vstd::math::min(ATB_FULL as int, k * agi / 5),
        atb_after_ticks(agi, k).1 == (k * agi) % 5,
    decreases k,
{
    if k == 0 {
        assert(0 * agi == 0);
    } else {
        assert((k - 2) * agi < (k - 1) * agi <= 5 * ATB_FULL as int) by (nonlinear_arith)
            requires 1 <= agi, 1 <= k, (k - 1) * agi < 5 * ATB_FULL as int;
        lemma_atb_accumulation(agi, (k - 1) as nat);
        let x = (k - 1) * agi;
        let prev = atb_after_ticks(agi, (k - 1) as nat);
        assert(prev.0 == vstd::math::min(ATB_FULL as int, x / 5));
        assert(x / 5 < ATB_FULL as int) by {
            vstd::arithmetic::div_mod::lemma_div_is_ordered(x, 5 * ATB_FULL as int - 1, 5);
            assert((5 * ATB_FULL as int - 1) / 5 == ATB_FULL as int - 1);
        }
        assert(prev.0 == x / 5);
        assert(atb_meter_base(prev.0) == prev.0);
        // One tick folds the carry and agility into the meter: with
        // x == 5*(x/5) + x%5, the new total x + agi splits as
        // 5*(x/5 + (x%5 + agi)/5) + (x%5 + agi)%5.
        vstd::arithmetic::div_mod::lemma_fundamental_div_mod(x, 5);
        vstd::arithmetic::div_mod::lemma_fundamental_div_mod(x % 5 + agi, 5);
        vstd::arithmetic::div_mod::lemma_fundamental_div_mod_converse(
            x + agi,
            5,
            x / 5 + (x % 5 + agi) / 5,
            (x % 5 + agi) % 5,
        );
        assert(k * agi == x + agi) by (nonlinear_arith)
            requires x == (k - 1) * agi, k >= 1;
    }
}

/// The meter first reports full exactly on the tick where the accumulated
/// agility passes five times the full meter: never earlier, and at that tick
/// whatever the overshoot.
pub proof fn lemma_atb_first_full(agi: int, k: nat)
    requires
        1 <= agi,
        k >= 1 ==> (k - 1) * agi < 5 * ATB_FULL as int,
    ensures
        (atb_after_ticks(agi, k).0 == ATB_FULL as int) <==> (k * agi >= 5 * ATB_FULL as int),
{
    lemma_atb_accumulation(agi, k);
    if k * agi >= 5 * ATB_FULL as int {
        vstd::arithmetic::div_mod::lemma_div_is_ordered(5 * ATB_FULL as int, k * agi, 5);
        assert((5 * ATB_FULL as int) / 5 == ATB_FULL as int);
    } else {
        vstd::arithmetic::div_mod::lemma_div_is_ordered(k * agi, 5 * ATB_FULL as int - 1, 5);
        assert((5 * ATB_FULL as int - 1) / 5 == ATB_FULL as int - 1);
    }
}

/// Adding experience in one lump or in any split into two batches settles to
/// the same final level and leftover experience.
pub proof fn lemma_experience_batching(level: int, experience: int, first: int, second: int)
    requires
        1 <= level,
        0 <= experience,
        0 <= first,
        0 <= second,
    ensures
        ({
            let (mid_level, mid_exp) = settled_level_experience(level, experience + first);
            settled_level_experience(mid_level, mid_exp + second)
                == settled_level_experience(level, experience + first + second)
        }),
    decreases experience + first,
{
    let e = experience + first;
    if level_threshold(level) <= e {
        assert(150 * level * level >= 150) by (nonlinear_arith)
            requires 1 <= level;
        lemma_experience_batching(level + 1, 0, e - level_threshold(level), second);
    }
}

} // verus!
