//! Countdown-driven animation timelines. Every combatant owns one: starting a
//! tag loads a fixed frame budget, each tick decrements it by exactly one,
//! and the visible sprite, offset and opacity are pure functions of the tag
//! and the frames left. Opacity is held in hundredths (100 = fully opaque).

use vstd::prelude::*;

use crate::actions::Action;

verus! {

#[derive(Clone, Copy, PartialEq, Eq, Structural, Debug)]
pub enum Direction {
    Up,
    Down,
    Left,
    Right,
}

/// Closed set of animation tags. Hurt and HurtSelf carry the action effect
/// and the incoming damage to apply at the hit frame.
#[derive(Clone, Copy, PartialEq, Eq, Structural, Debug)]
pub enum Animation {
    StartTurn,
    EndTurn,
    Attack,
    Hurt(Action, u64),
    HurtSelf(Action, u64),
    Dead,
    Flee,
    WalkTile(Direction),
    NpcWalkTile(Direction),
    Victory,
}

#[derive(Clone, Copy, PartialEq, Eq, Structural, Debug)]
pub enum Sprite {
    StandLeft,
    WalkLeft1,
    WalkLeft2,
    StandRight,
    WalkRight1,
    WalkRight2,
    StandUp,
    WalkUp1,
    WalkUp2,
    StandDown,
    WalkDown1,
    WalkDown2,
    Dead,
    Attack,
    Victory,
}

/// Fixed total duration, in ticks, of each animation tag.
pub open spec fn animation_duration(a: Animation) -> int {
    match a {
        Animation::StartTurn => 12,
        Animation::EndTurn => 10,
        Animation::Attack => 40,
        Animation::Hurt(_, _) => 40,
        Animation::HurtSelf(_, _) => 24,
        Animation::Dead => 20,
        Animation::Flee => 80,
        Animation::WalkTile(_) => 8,
        Animation::NpcWalkTile(_) => 32,
        Animation::Victory => 40,
    }
}

/// The frame inside Hurt/HurtSelf at which the attached damage is applied.
pub const DAMAGE_FRAME: usize = 20;

/// The frame inside Attack at which the sprite locks to the attack pose, and
/// at which an enemy reports that its behaviour script should run.
pub const ATTACK_POSE_FRAME: usize = 24;

pub open spec fn stand_sprite(d: Direction) -> Sprite {
    match d {
        Direction::Up => Sprite::StandUp,
        Direction::Down => Sprite::StandDown,
        Direction::Left => Sprite::StandLeft,
        Direction::Right => Sprite::StandRight,
    }
}

pub open spec fn walk1_sprite(d: Direction) -> Sprite {
    match d {
        Direction::Up => Sprite::WalkUp1,
        Direction::Down => Sprite::WalkDown1,
        Direction::Left => Sprite::WalkLeft1,
        Direction::Right => Sprite::WalkRight1,
    }
}

pub open spec fn walk2_sprite(d: Direction) -> Sprite {
    match d {
        Direction::Up => Sprite::WalkUp2,
        Direction::Down => Sprite::WalkDown2,
        Direction::Left => Sprite::WalkLeft2,
        Direction::Right => Sprite::WalkRight2,
    }
}

/// The deliberately uneven stand/step cadence of a walk: the first matching
/// modulus of the frames left wins, and an odd frame keeps the last sprite.
pub open spec fn walk_cycle_sprite(d: Direction, prev: Sprite, frames: int) -> Sprite {
    if frames % 8 == 0 {
        stand_sprite(d)
    } else if frames % 6 == 0 {
        walk1_sprite(d)
    } else if frames % 4 == 0 {
        stand_sprite(d)
    } else if frames % 2 == 0 {
        walk2_sprite(d)
    } else {
        prev
    }
}

/// Character sprite after a tick, as a function of the tag, the sprite shown
/// so far and the frames now left.
pub open spec fn character_sprite_step(tag: Animation, prev: Sprite, frames: int) -> Sprite {
    match tag {
        Animation::StartTurn => walk_cycle_sprite(Direction::Right, prev, frames),
        Animation::EndTurn => if frames == 0 {
            Sprite::StandRight
        } else {
            walk_cycle_sprite(Direction::Left, prev, frames)
        },
        Animation::Attack => if frames > ATTACK_POSE_FRAME as int {
            walk_cycle_sprite(Direction::Right, prev, frames)
        } else if frames == ATTACK_POSE_FRAME as int {
            Sprite::Attack
        } else if frames == 0 {
            Sprite::StandRight
        } else {
            prev
        },
        Animation::Hurt(_, _) => prev,
        Animation::HurtSelf(_, _) => prev,
        Animation::Dead => Sprite::Dead,
        Animation::Flee => walk_cycle_sprite(Direction::Left, prev, frames),
        Animation::WalkTile(d) => walk_cycle_sprite(d, prev, frames),
        Animation::NpcWalkTile(d) => walk_cycle_sprite(d, prev, frames),
        Animation::Victory => Sprite::Victory,
    }
}

/// The damage-flash blink during the last 24 frames of Hurt/HurtSelf: fully
/// opaque at multiples of 8, invisible at the remaining multiples of 4.
pub open spec fn flicker_opacity(prev: int, frames: int) -> int {
    if frames <= 24 {
        if frames % 8 == 0 {
            100
        } else if frames % 4 == 0 {
            0
        } else {
            prev
        }
    } else {
        prev
    }
}

/// Character opacity after a tick: only being hurt changes it.
pub open spec fn character_opacity_step(tag: Animation, prev: int, frames: int) -> int {
    match tag {
        Animation::Hurt(_, _) => flicker_opacity(prev, frames),
        Animation::HurtSelf(_, _) => flicker_opacity(prev, frames),
        _ => prev,
    }
}

/// Clamp to the `i32` range: offsets saturate instead of wrapping.
pub open spec fn clamp_i32(v: int) -> int {
    if v < i32::MIN as int {
        i32::MIN as int
    } else if v > i32::MAX as int {
        i32::MAX as int
    } else {
        v
    }
}

/// Enemy horizontal lunge during an attack: back, forward past the start,
/// back again and return, two pixels a tick.
pub open spec fn enemy_offset_step(tag: Animation, prev: int, frames: int) -> int {
    match tag {
        Animation::Attack => if frames > 36 {
            clamp_i32(prev - 2)
        } else if frames > 28 {
            clamp_i32(prev + 2)
        } else if frames > 20 {
            clamp_i32(prev - 2)
        } else if frames > 16 {
            clamp_i32(prev + 2)
        } else {
            prev
        },
        _ => prev,
    }
}

/// Enemy opacity after a tick: the hurt flicker, and a steady fade of 5
/// hundredths a tick while dead, stopping at fully transparent.
pub open spec fn enemy_opacity_step(tag: Animation, prev: int, frames: int) -> int {
    match tag {
        Animation::Hurt(_, _) => flicker_opacity(prev, frames),
        Animation::HurtSelf(_, _) => flicker_opacity(prev, frames),
        Animation::Dead => vstd::math::max(0, prev - 5),
        _ => prev,
    }
}

/// Sprite-sheet key for each character sprite, relative to the character's
/// sprite folder.
pub open spec fn sprite_key_chars(s: Sprite) -> Seq<char> {
    match s {
        Sprite::StandLeft => "standing_left"@,
        Sprite::WalkLeft1 => "walk_frame_1_left"@,
        Sprite::WalkLeft2 => "walk_frame_2_left"@,
        Sprite::StandRight => "standing_right"@,
        Sprite::WalkRight1 => "walk_frame_1_right"@,
        Sprite::WalkRight2 => "walk_frame_2_right"@,
        Sprite::StandUp => "standing_up"@,
        Sprite::WalkUp1 => "walk_frame_1_up"@,
        Sprite::WalkUp2 => "walk_frame_2_up"@,
        Sprite::StandDown => "standing_down"@,
        Sprite::WalkDown1 => "walk_frame_1_down"@,
        Sprite::WalkDown2 => "walk_frame_2_down"@,
        Sprite::Dead => "dead"@,
        Sprite::Attack => "attack"@,
        Sprite::Victory => "victory"@,
    }
}

pub struct CharacterAnimation {
    pub sprite_folder: String,
    pub animation: Animation,
    pub remaining_frames: usize,
    pub sprite: Sprite,
    pub opacity: u8,
}

/// A whole character timeline one tick later: the countdown drops by one and
/// the visible state follows the tag rules for the new countdown.
pub open spec fn character_advanced(a: CharacterAnimation) -> CharacterAnimation
    recommends
        a.remaining_frames >= 1,
{
    CharacterAnimation {
        remaining_frames: (a.remaining_frames - 1) as usize,
        sprite: character_sprite_step(a.animation, a.sprite, a.remaining_frames - 1),
        opacity: character_opacity_step(
            a.animation,
            a.opacity as int,
            a.remaining_frames - 1,
        ) as u8,
        ..a
    }
}

/// A character timeline right after `start_animation(tag)`.
pub open spec fn character_started(a: CharacterAnimation, tag: Animation) -> CharacterAnimation {
    CharacterAnimation {
        animation: tag,
        remaining_frames: animation_duration(tag) as usize,
        ..a
    }
}

impl CharacterAnimation {
    pub fn new(sprite_folder: String) -> (a: Self)
        ensures
            a.sprite_folder == sprite_folder,
            a.animation == Animation::Attack,
            a.remaining_frames == 0,
            a.sprite == Sprite::StandDown,
            a.opacity == 100,
    {
        Self {
            sprite_folder,
            animation: Animation::Attack,
            remaining_frames: 0,
            sprite: Sprite::StandDown,
            opacity: 100,
        }
    }

    /// Load the tag's full frame budget and remember the tag; the visible
    /// sprite and opacity only change on later ticks.
    pub fn start_animation(&mut self, animation: Animation)
        ensures
            *final(self) == character_started(*old(self), animation),
            final(self).remaining_frames as int == animation_duration(animation),
            final(self).remaining_frames > 0,
    {
        self.animation = animation;
        match self.animation {
            Animation::StartTurn => self.remaining_frames = 12,
            Animation::EndTurn => self.remaining_frames = 10,
            Animation::Attack => self.remaining_frames = 40,
            Animation::Hurt(_, _) => self.remaining_frames = 40,
            Animation::HurtSelf(_, _) => self.remaining_frames = 24,
            Animation::Dead => self.remaining_frames = 20,
            Animation::Flee => self.remaining_frames = 80,
            Animation::WalkTile(_) => self.remaining_frames = 8,
            Animation::NpcWalkTile(_) => self.remaining_frames = 32,
            Animation::Victory => self.remaining_frames = 40,
        };
    }

    /// One tick: the countdown drops by exactly one and the visible state is
    /// recomputed from the tag and the new countdown. Completion is reported
    /// exactly when the countdown reaches zero. Calling this on a finished
    /// timeline is a caller error, so it is ruled out.
    pub fn advance_animation(&mut self) -> (done: bool)
        requires
            old(self).remaining_frames >= 1,
        ensures
            *final(self) == character_advanced(*old(self)),
            final(self).remaining_frames == old(self).remaining_frames - 1,
            done == (final(self).remaining_frames == 0),
    {
        self.remaining_frames = self.remaining_frames - 1;
        match self.animation {
            Animation::StartTurn => {
                self.advance_walk_animation(Direction::Right);
                self.remaining_frames == 0
            },
            Animation::EndTurn => {
                self.advance_walk_animation(Direction::Left);
                if self.remaining_frames == 0 {
                    self.sprite = Sprite::StandRight;
                    true
                } else {
                    false
                }
            },
            Animation::Attack => {
                if self.remaining_frames > ATTACK_POSE_FRAME {
                    self.advance_walk_animation(Direction::Right);
                } else if self.remaining_frames == ATTACK_POSE_FRAME {
                    self.sprite = Sprite::Attack;
                } else if self.remaining_frames == 0 {
                    self.sprite = Sprite::StandRight;
                    return true;
                }
                false
            },
            Animation::Hurt(_, _) | Animation::HurtSelf(_, _) => {
                self.advance_flicker();
                self.remaining_frames == 0
            },
            Animation::Dead => {
                self.sprite = Sprite::Dead;
                self.remaining_frames == 0
            },
            Animation::Flee => {
                self.advance_walk_animation(Direction::Left);
                self.remaining_frames == 0
            },
            Animation::WalkTile(direction) | Animation::NpcWalkTile(direction) => {
                self.advance_walk_animation(direction);
                self.remaining_frames == 0
            },
            Animation::Victory => {
                self.sprite = Sprite::Victory;
                self.remaining_frames == 0
            },
        }
    }

    /// Face a direction without starting a timeline.
    pub fn turn_character(&mut self, direction: Direction)
        ensures
            *final(self) == (CharacterAnimation {
                sprite: stand_sprite(direction),
                ..*old(self)
            }),
    {
        match direction {
            Direction::Up => self.sprite = Sprite::StandUp,
            Direction::Down => self.sprite = Sprite::StandDown,
            Direction::Left => self.sprite = Sprite::StandLeft,
            Direction::Right => self.sprite = Sprite::StandRight,
        };
    }

    pub fn is_currently_animating(&self) -> (r: bool)
        ensures
            r == (self.remaining_frames > 0),
    {
        self.remaining_frames > 0
    }

    pub fn get_current_animation(&self) -> (r: Animation)
        ensures
            r == self.animation,
    {
        self.animation
    }

    pub fn get_frames_remaining(&self) -> (r: usize)
        ensures
            r == self.remaining_frames,
    {
        self.remaining_frames
    }

    pub fn get_sprite(&self) -> (r: Sprite)
        ensures
            r == self.sprite,
    {
        self.sprite
    }

    pub fn get_opacity(&self) -> (r: u8)
        ensures
            r == self.opacity,
    {
        self.opacity
    }

    pub fn get_sprite_folder(&self) -> (r: &String)
        ensures
            r == self.sprite_folder,
    {
        &self.sprite_folder
    }

    /// Sheet key of the current sprite, relative to the sprite folder.
    pub fn get_sprite_key(&self) -> (r: &'static str)
        ensures
            r@ == sprite_key_chars(self.sprite),
    {
        match self.sprite {
            Sprite::StandLeft => "standing_left",
            Sprite::WalkLeft1 => "walk_frame_1_left",
            Sprite::WalkLeft2 => "walk_frame_2_left",
            Sprite::StandRight => "standing_right",
            Sprite::WalkRight1 => "walk_frame_1_right",
            Sprite::WalkRight2 => "walk_frame_2_right",
            Sprite::StandUp => "standing_up",
            Sprite::WalkUp1 => "walk_frame_1_up",
            Sprite::WalkUp2 => "walk_frame_2_up",
            Sprite::StandDown => "standing_down",
            Sprite::WalkDown1 => "walk_frame_1_down",
            Sprite::WalkDown2 => "walk_frame_2_down",
            Sprite::Dead => "dead",
            Sprite::Attack => "attack",
            Sprite::Victory => "victory",
        }
    }

    fn advance_walk_animation(&mut self, direction: Direction)
        ensures
            *final(self) == (CharacterAnimation {
                sprite: walk_cycle_sprite(
                    direction,
                    old(self).sprite,
                    old(self).remaining_frames as int,
                ),
                ..*old(self)
            }),
    {
        let stand: Sprite;
        let walk_1: Sprite;
        let walk_2: Sprite;
        match direction {
            Direction::Up => {
                stand = Sprite::StandUp;
                walk_1 = Sprite::WalkUp1;
                walk_2 = Sprite::WalkUp2;
            },
            Direction::Down => {
                stand = Sprite::StandDown;
                walk_1 = Sprite::WalkDown1;
                walk_2 = Sprite::WalkDown2;
            },
            Direction::Left => {
                stand = Sprite::StandLeft;
                walk_1 = Sprite::WalkLeft1;
                walk_2 = Sprite::WalkLeft2;
            },
            Direction::Right => {
                stand = Sprite::StandRight;
                walk_1 = Sprite::WalkRight1;
                walk_2 = Sprite::WalkRight2;
            },
        };
        if self.remaining_frames % 8 == 0 {
            self.sprite = stand;
        } else if self.remaining_frames % 6 == 0 {
            self.sprite = walk_1;
        } else if self.remaining_frames % 4 == 0 {
            self.sprite = stand;
        } else if self.remaining_frames % 2 == 0 {
            self.sprite = walk_2;
        }
    }

    /// The hurt flash: recompute opacity from the frames left.
    fn advance_flicker(&mut self)
        ensures
            *final(self) == (CharacterAnimation {
                opacity: final(self).opacity,
                ..*old(self)
            }),
            final(self).opacity as int == flicker_opacity(
                old(self).opacity as int,
                old(self).remaining_frames as int,
            ),
    {
        if self.remaining_frames <= 24 {
            if self.remaining_frames % 8 == 0 {
                self.opacity = 100;
            } else if self.remaining_frames % 4 == 0 {
                self.opacity = 0;
            }
        }
    }
}

/// Two pixels of lunge, saturating at the integer bounds instead of wrapping.
fn nudge_offset(offset: i32, forward: bool) -> (r: i32)
    ensures
        forward ==> r as int == clamp_i32(offset + 2),
        !forward ==> r as int == clamp_i32(offset - 2),
{
    if forward {
        if offset <= i32::MAX - 2 {
            offset + 2
        } else {
            i32::MAX
        }
    } else {
        if offset >= i32::MIN + 2 {
            offset - 2
        } else {
            i32::MIN
        }
    }
}

pub struct EnemyAnimation {
    pub sprite_key: String,
    pub animation: Animation,
    pub remaining_frames: usize,
    pub x_offset: i32,
    pub opacity: u8,
}

/// A whole enemy timeline one tick later.
pub open spec fn enemy_advanced(a: EnemyAnimation) -> EnemyAnimation
    recommends
        a.remaining_frames >= 1,
{
    EnemyAnimation {
        remaining_frames: (a.remaining_frames - 1) as usize,
        x_offset: enemy_offset_step(
            a.animation,
            a.x_offset as int,
            a.remaining_frames - 1,
        ) as i32,
        opacity: enemy_opacity_step(
            a.animation,
            a.opacity as int,
            a.remaining_frames - 1,
        ) as u8,
        ..a
    }
}

/// An enemy timeline right after `start_animation(tag)`.
pub open spec fn enemy_started(a: EnemyAnimation, tag: Animation) -> EnemyAnimation {
    EnemyAnimation {
        animation: tag,
        remaining_frames: animation_duration(tag) as usize,
        ..a
    }
}

impl EnemyAnimation {
    pub fn new(sprite_key: String) -> (a: Self)
        ensures
            a.sprite_key == sprite_key,
            a.animation == Animation::Attack,
            a.remaining_frames == 0,
            a.x_offset == 0,
            a.opacity == 100,
    {
        Self {
            sprite_key,
            animation: Animation::Attack,
            remaining_frames: 0,
            x_offset: 0,
            opacity: 100,
        }
    }

    /// Load the tag's full frame budget and remember the tag.
    pub fn start_animation(&mut self, animation: Animation)
        ensures
            *final(self) == enemy_started(*old(self), animation),
            final(self).remaining_frames as int == animation_duration(animation),
            final(self).remaining_frames > 0,
    {
        self.animation = animation;
        match self.animation {
            Animation::StartTurn => self.remaining_frames = 12,
            Animation::EndTurn => self.remaining_frames = 10,
            Animation::Attack => self.remaining_frames = 40,
            Animation::Hurt(_, _) => self.remaining_frames = 40,
            Animation::HurtSelf(_, _) => self.remaining_frames = 24,
            Animation::Dead => self.remaining_frames = 20,
            Animation::Flee => self.remaining_frames = 80,
            Animation::WalkTile(_) => self.remaining_frames = 8,
            Animation::NpcWalkTile(_) => self.remaining_frames = 32,
            Animation::Victory => self.remaining_frames = 40,
        };
    }

    /// One tick of an enemy timeline: the countdown drops by one, the lunge
    /// offset and opacity follow their tag rules, and completion is reported
    /// exactly at zero. The lunge offset saturates at the integer bounds
    /// instead of wrapping.
    pub fn advance_animation(&mut self) -> (done: bool)
        requires
            old(self).remaining_frames >= 1,
        ensures
            *final(self) == enemy_advanced(*old(self)),
            final(self).remaining_frames == old(self).remaining_frames - 1,
            done == (final(self).remaining_frames == 0),
    {
        self.remaining_frames = self.remaining_frames - 1;
        match self.animation {
            Animation::Attack => {
                if self.remaining_frames > 36 {
                    self.x_offset = nudge_offset(self.x_offset, false);
                } else if self.remaining_frames > 28 {
                    self.x_offset = nudge_offset(self.x_offset, true);
                } else if self.remaining_frames > 20 {
                    self.x_offset = nudge_offset(self.x_offset, false);
                } else if self.remaining_frames > 16 {
                    self.x_offset = nudge_offset(self.x_offset, true);
                }
                self.remaining_frames == 0
            },
            Animation::Hurt(_, _) | Animation::HurtSelf(_, _) => {
                if self.remaining_frames <= 24 {
                    if self.remaining_frames % 8 == 0 {
                        self.opacity = 100;
                    } else if self.remaining_frames % 4 == 0 {
                        self.opacity = 0;
                    }
                }
                self.remaining_frames == 0
            },
            Animation::Dead => {
                if self.opacity >= 5 {
                    self.opacity = self.opacity - 5;
                } else {
                    self.opacity = 0;
                }
                self.remaining_frames == 0
            },
            _ => self.remaining_frames == 0,
        }
    }

    pub fn is_currently_animating(&self) -> (r: bool)
        ensures
            r == (self.remaining_frames > 0),
    {
        self.remaining_frames > 0
    }

    pub fn get_current_animation(&self) -> (r: Animation)
        ensures
            r == self.animation,
    {
        self.animation
    }

    pub fn get_frames_remaining(&self) -> (r: usize)
        ensures
            r == self.remaining_frames,
    {
        self.remaining_frames
    }

    pub fn get_x_offset(&self) -> (r: i32)
        ensures
            r == self.x_offset,
    {
        self.x_offset
    }

    pub fn get_opacity(&self) -> (r: u8)
        ensures
            r == self.opacity,
    {
        self.opacity
    }

    pub fn get_sprite_key(&self) -> (r: &String)
        ensures
            r == self.sprite_key,
    {
        &self.sprite_key
    }
}

/// A walking-forward frame: what the approach phase of an attack shows.
pub open spec fn is_walking_forward(s: Sprite) -> bool {
    s == Sprite::StandRight || s == Sprite::WalkRight1 || s == Sprite::WalkRight2
}

/// During the approach phase of an attack (39 frames left down to 25) the
/// sprite stays a walking-forward frame, provided the attack began on one.
pub proof fn lemma_attack_approach_walks_forward(prev: Sprite, frames: int)
    requires
        is_walking_forward(prev),
        25 <= frames <= 39,
    ensures
        is_walking_forward(character_sprite_step(Animation::Attack, prev, frames)),
{
}

/// At exactly 24 frames left an attack locks to the attack pose.
pub proof fn lemma_attack_pose_at_lock(prev: Sprite)
    ensures
        character_sprite_step(Animation::Attack, prev, 24) == Sprite::Attack,
{
}

/// A character timeline after `i` ticks.
pub open spec fn character_advanced_times(a: CharacterAnimation, i: nat) -> CharacterAnimation
    decreases i,
{
    if i == 0 {
        a
    } else {
        character_advanced(character_advanced_times(a, (i - 1) as nat))
    }
}

/// Each tick takes exactly one frame off the countdown and never changes the
/// tag.
pub proof fn lemma_run_counts_down(a: CharacterAnimation, i: nat)
    requires
        i <= a.remaining_frames,
    ensures
        character_advanced_times(a, i).remaining_frames == a.remaining_frames - i,
        character_advanced_times(a, i).animation == a.animation,
    decreases i,
{
    if i > 0 {
        lemma_run_counts_down(a, (i - 1) as nat);
    }
}

/// A freshly started timeline reports completion - the countdown reaching
/// zero - exactly on its duration-th advance and on no earlier one.
pub proof fn lemma_started_run_completes_exactly_once(
    a: CharacterAnimation,
    tag: Animation,
    i: nat,
)
    requires
        1 <= i <= animation_duration(tag),
    ensures
        (character_advanced_times(character_started(a, tag), i).remaining_frames == 0) <==> (
        i == animation_duration(tag)),
{
    lemma_run_counts_down(character_started(a, tag), i);
}

} // verus!
