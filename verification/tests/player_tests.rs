use tilegame::game_object::BaseGameObject;
use tilegame::geometry::Vec2i;
use tilegame::player::{normalize_direction, raw_direction, InputState, Player};

fn keys(up: bool, down: bool, left: bool, right: bool) -> InputState {
    InputState { up, down, left, right }
}

fn player_at(x: i64, y: i64) -> Player {
    Player::new(BaseGameObject::new(Vec2i::new(x, y)), 100, 200, 45, 39)
}

#[test]
fn raw_direction_sums_held_keys() {
    assert_eq!(raw_direction(keys(false, false, false, false)), (0, 0));
    assert_eq!(raw_direction(keys(false, false, false, true)), (1, 0));
    assert_eq!(raw_direction(keys(false, false, true, false)), (-1, 0));
    assert_eq!(raw_direction(keys(false, true, false, false)), (0, 1));
    assert_eq!(raw_direction(keys(true, false, false, false)), (0, -1));
    // opposite keys cancel
    assert_eq!(raw_direction(keys(true, true, true, true)), (0, 0));
    assert_eq!(raw_direction(keys(false, false, true, true)), (0, 0));
}

#[test]
fn up_and_right_normalizes_to_unit_diagonal() {
    // raw (1, -1), normalized to (0.707, -0.707) in thousandths
    let raw = raw_direction(keys(true, false, false, true));
    assert_eq!(raw, (1, -1));
    let n = normalize_direction(raw.0, raw.1);
    assert_eq!(n, (707, -707));
    assert!((n.0 as f64 / 1000.0 - 0.707).abs() < 1e-9);
    assert!((n.1 as f64 / 1000.0 + 0.707).abs() < 1e-9);
}

#[test]
fn direction_magnitude_is_zero_or_one() {
    // every key combination yields a direction of magnitude 0 (keys cancel)
    // or 1 to within fixed-point rounding - never an unnormalized diagonal
    for bits in 0..16u32 {
        let input = keys(bits & 1 != 0, bits & 2 != 0, bits & 4 != 0, bits & 8 != 0);
        let raw = raw_direction(input);
        let n = normalize_direction(raw.0, raw.1);
        let magnitude = ((n.0 * n.0 + n.1 * n.1) as f64).sqrt() / 1000.0;
        let cancels = (bits & 1 != 0) == (bits & 2 != 0) && (bits & 4 != 0) == (bits & 8 != 0);
        if cancels {
            assert_eq!(magnitude, 0.0);
        } else {
            assert!((magnitude - 1.0).abs() < 1e-3, "magnitude {}", magnitude);
        }
    }
}

#[test]
fn axis_directions_normalize_to_unit_length() {
    assert_eq!(normalize_direction(1, 0), (1000, 0));
    assert_eq!(normalize_direction(-1, 0), (-1000, 0));
    assert_eq!(normalize_direction(0, 1), (0, 1000));
    assert_eq!(normalize_direction(0, -1), (0, -1000));
    assert_eq!(normalize_direction(0, 0), (0, 0));
    assert_eq!(normalize_direction(-1, 1), (-707, 707));
}

#[test]
fn new_player_idles_with_both_clips() {
    let p = player_at(100_000, 100_000);
    assert_eq!(p.animator.current_name(), "idle");
    assert_eq!(p.animator.frame_index(), 0);
    assert_eq!(p.animator.elapsed_ms(), 0);
    let idle = p.animator.get_animation("idle").unwrap();
    assert_eq!(idle.frame_count, 4);
    assert_eq!(idle.frame_duration, 200);
    assert_eq!(idle.sprite_y, 0);
    let walk = p.animator.get_animation("walk").unwrap();
    assert_eq!(walk.frame_count, 6);
    assert_eq!(walk.frame_duration, 200);
    assert_eq!(walk.sprite_y, 39);
    assert_eq!(p.direction, Vec2i::new(0, 0));
}

#[test]
fn moving_selects_walk_and_integrates_position() {
    let mut p = player_at(100_000, 100_000);
    // one second straight right at 200 pixels per second
    p.update(keys(false, false, false, true), 1000);
    assert_eq!(p.animator.current_name(), "walk");
    assert_eq!(p.direction, Vec2i::new(1000, 0));
    assert_eq!(p.game_object.position, Vec2i::new(300_000, 100_000));
}

#[test]
fn diagonal_movement_uses_normalized_direction() {
    let mut p = player_at(0, 0);
    // one second up-and-right: 0.707 of 200 pixels on each axis
    p.update(keys(true, false, false, true), 1000);
    assert_eq!(p.direction, Vec2i::new(707, -707));
    assert_eq!(p.game_object.position, Vec2i::new(141_400, -141_400));
}

#[test]
fn no_input_idles_in_place() {
    let mut p = player_at(5_000, 6_000);
    p.update(keys(false, false, false, false), 16);
    assert_eq!(p.animator.current_name(), "idle");
    assert_eq!(p.direction, Vec2i::new(0, 0));
    assert_eq!(p.game_object.position, Vec2i::new(5_000, 6_000));
    // opposite keys cancel just like no input
    p.update(keys(true, true, true, true), 16);
    assert_eq!(p.animator.current_name(), "idle");
    assert_eq!(p.game_object.position, Vec2i::new(5_000, 6_000));
}

#[test]
fn switching_state_resets_the_walk_clock() {
    let mut p = player_at(0, 0);
    let right = keys(false, false, false, true);
    let none = keys(false, false, false, false);
    p.update(right, 200);
    assert_eq!(p.animator.current_name(), "walk");
    assert_eq!(p.animator.frame_index(), 1);
    p.update(none, 16);
    assert_eq!(p.animator.current_name(), "idle");
    // the switch reset the clock before the 16 ms tick
    assert_eq!(p.animator.frame_index(), 0);
    assert_eq!(p.animator.elapsed_ms(), 16);
    // the walk clip starts over on the next switch
    p.update(right, 16);
    assert_eq!(p.animator.frame_index(), 0);
    assert_eq!(p.animator.elapsed_ms(), 16);
}

#[test]
fn facing_left_flips_the_sprite() {
    let mut p = player_at(0, 0);
    p.update(keys(false, false, true, false), 16);
    let (pos, frame) = p.draw();
    assert_eq!(pos, p.game_object.position);
    assert!(frame.unwrap().flip_x);
    p.update(keys(false, false, false, true), 16);
    let (_, frame) = p.draw();
    assert!(!frame.unwrap().flip_x);
}

#[test]
fn ticking_advances_the_selected_clip() {
    let mut p = player_at(0, 0);
    let right = keys(false, false, false, true);
    // walk has 6 frames of 200 ms: seven full frames wrap to frame 1
    for _ in 0..7 {
        p.update(right, 200);
    }
    assert_eq!(p.animator.current_name(), "walk");
    assert_eq!(p.animator.frame_index(), 1);
}
