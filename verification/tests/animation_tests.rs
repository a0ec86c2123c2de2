use rpg_core::actions::Action;
use rpg_core::animation::{Animation, CharacterAnimation, Direction, EnemyAnimation, Sprite};

fn char_anim() -> CharacterAnimation {
    CharacterAnimation::new("Darrel_Deen".to_owned())
}

fn all_tags() -> Vec<(Animation, usize)> {
    vec![
        (Animation::StartTurn, 12),
        (Animation::EndTurn, 10),
        (Animation::Attack, 40),
        (Animation::Hurt(Action::PhysicalAttack, 5), 40),
        (Animation::HurtSelf(Action::PhysicalAttack, 5), 24),
        (Animation::Dead, 20),
        (Animation::Flee, 80),
        (Animation::WalkTile(Direction::Down), 8),
        (Animation::NpcWalkTile(Direction::Up), 32),
        (Animation::Victory, 40),
    ]
}

#[test]
fn starting_any_tag_loads_its_table_duration() {
    for (tag, duration) in all_tags() {
        let mut a = char_anim();
        a.start_animation(tag);
        assert_eq!(a.get_frames_remaining(), duration);
        assert!(a.is_currently_animating());
    }
}

#[test]
fn advancing_completes_exactly_once_on_the_last_call() {
    for (tag, duration) in all_tags() {
        let mut a = char_anim();
        a.start_animation(tag);
        let mut completions = 0;
        for step in 1..=duration {
            let done = a.advance_animation();
            if done {
                completions += 1;
                assert_eq!(step, duration);
            }
        }
        assert_eq!(completions, 1);
        assert!(!a.is_currently_animating());
    }
}

#[test]
fn enemy_timeline_completes_exactly_once_too() {
    for (tag, duration) in all_tags() {
        let mut a = EnemyAnimation::new("test-circle".to_owned());
        a.start_animation(tag);
        let mut completions = 0;
        for step in 1..=duration {
            let done = a.advance_animation();
            if done {
                completions += 1;
                assert_eq!(step, duration);
            }
        }
        assert_eq!(completions, 1);
    }
}

#[test]
fn attack_walks_forward_then_locks_to_the_pose() {
    let mut a = char_anim();
    a.turn_character(Direction::Right);
    a.start_animation(Animation::Attack);
    // Frames 39 down to 25: the approach, always a walking-forward frame.
    for _ in 0..15 {
        a.advance_animation();
        let frames = a.get_frames_remaining();
        assert!(frames >= 25);
        let s = a.get_sprite();
        assert!(
            s == Sprite::StandRight || s == Sprite::WalkRight1 || s == Sprite::WalkRight2,
            "frame {} showed {:?}",
            frames,
            s
        );
    }
    // At exactly 24 the sprite locks to the attack pose.
    a.advance_animation();
    assert_eq!(a.get_frames_remaining(), 24);
    assert_eq!(a.get_sprite(), Sprite::Attack);
    // It stays there until the final frame returns to standing.
    for _ in 0..23 {
        a.advance_animation();
        assert_eq!(a.get_sprite(), Sprite::Attack);
    }
    let done = a.advance_animation();
    assert!(done);
    assert_eq!(a.get_sprite(), Sprite::StandRight);
}

#[test]
fn walk_cycle_uses_the_uneven_modulus_cadence() {
    let mut a = char_anim();
    a.turn_character(Direction::Down);
    a.start_animation(Animation::WalkTile(Direction::Down));
    let expected = [
        (7, Sprite::StandDown),  // odd frame keeps the previous sprite
        (6, Sprite::WalkDown1),  // 6 % 6 == 0
        (5, Sprite::WalkDown1),  // odd, kept
        (4, Sprite::StandDown),  // 4 % 4 == 0
        (3, Sprite::StandDown),  // odd, kept
        (2, Sprite::WalkDown2),  // 2 % 2 == 0
        (1, Sprite::WalkDown2),  // odd, kept
        (0, Sprite::StandDown),  // 0 % 8 == 0
    ];
    for (frames, sprite) in expected {
        a.advance_animation();
        assert_eq!(a.get_frames_remaining(), frames);
        assert_eq!(a.get_sprite(), sprite);
    }
}

#[test]
fn hurt_flicker_blinks_on_multiples_of_four_and_eight() {
    let mut a = char_anim();
    a.start_animation(Animation::Hurt(Action::PhysicalAttack, 9));
    // The first 16 frames (39 down to 24) leave opacity alone until 24.
    for _ in 0..16 {
        a.advance_animation();
    }
    assert_eq!(a.get_frames_remaining(), 24);
    assert_eq!(a.get_opacity(), 100); // 24 % 8 == 0
    for _ in 0..4 {
        a.advance_animation();
    }
    assert_eq!(a.get_frames_remaining(), 20);
    assert_eq!(a.get_opacity(), 0); // 20 % 4 == 0, not a multiple of 8
    for _ in 0..4 {
        a.advance_animation();
    }
    assert_eq!(a.get_opacity(), 100); // 16 % 8 == 0
}

#[test]
fn dead_enemy_fades_out_over_its_whole_timeline() {
    let mut a = EnemyAnimation::new("test-circle".to_owned());
    a.start_animation(Animation::Dead);
    let mut expected: u8 = 100;
    for _ in 0..20 {
        a.advance_animation();
        expected -= 5;
        assert_eq!(a.get_opacity(), expected);
    }
    assert_eq!(a.get_opacity(), 0);
}

#[test]
fn enemy_attack_lunge_returns_to_its_start() {
    let mut a = EnemyAnimation::new("test-circle".to_owned());
    a.start_animation(Animation::Attack);
    for _ in 0..40 {
        a.advance_animation();
    }
    // Two pixels a tick: 3 back, 8 forward, 8 back, 4 forward leaves +2.
    assert_eq!(a.get_x_offset(), 2);
}

#[test]
fn sprite_keys_match_the_sheet_names() {
    let mut a = char_anim();
    assert_eq!(a.get_sprite_key(), "standing_down");
    a.turn_character(Direction::Left);
    assert_eq!(a.get_sprite_key(), "standing_left");
    a.start_animation(Animation::Dead);
    a.advance_animation();
    assert_eq!(a.get_sprite_key(), "dead");
}
