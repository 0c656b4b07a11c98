use tilegame::animation::{Animation, Animator, FrameDraw};

fn clip(frame_count: usize, frame_duration: u64, sprite_y: u32) -> Animation {
    Animation {
        frame_count,
        frame_duration,
        sprite_x: 0,
        sprite_y,
        sprite_width: 45,
        sprite_height: 39,
    }
}

#[test]
fn new_animator_is_empty() {
    let a = Animator::new();
    assert_eq!(a.animation_count(), 0);
    assert_eq!(a.current_name(), "");
    assert_eq!(a.frame_index(), 0);
    assert_eq!(a.elapsed_ms(), 0);
}

#[test]
fn frames_wrap_after_full_cycle() {
    // an "idle" clip of 4 frames at 0.2 s each, ticked 0.2 s at a time,
    // shows frames 1, 2, 3 and wraps back to 0
    let mut a = Animator::new();
    a.add_animation("idle", clip(4, 200, 0));
    assert!(a.set_animation("idle"));
    let mut frames = Vec::new();
    for _ in 0..4 {
        a.update(200);
        frames.push(a.frame_index());
    }
    assert_eq!(frames, vec![1, 2, 3, 0]);
}

#[test]
fn advances_count_total_time_over_uneven_ticks() {
    // five ticks of 100 ms against a 200 ms frame: 500 ms total gives
    // floor(500 / 200) = 2 advances and 100 ms left on the clock
    let mut a = Animator::new();
    a.add_animation("idle", clip(4, 200, 0));
    a.set_animation("idle");
    for _ in 0..5 {
        a.update(100);
    }
    assert_eq!(a.frame_index(), 2);
    assert_eq!(a.elapsed_ms(), 100);
}

#[test]
fn reselecting_current_name_is_idempotent() {
    let mut a = Animator::new();
    a.add_animation("idle", clip(4, 200, 0));
    a.set_animation("idle");
    a.update(250);
    a.update(50);
    let frame = a.frame_index();
    let elapsed = a.elapsed_ms();
    assert!(a.set_animation("idle"));
    assert_eq!(a.current_name(), "idle");
    assert_eq!(a.frame_index(), frame);
    assert_eq!(a.elapsed_ms(), elapsed);
}

#[test]
fn switching_to_other_name_resets_playback() {
    let mut a = Animator::new();
    a.add_animation("idle", clip(4, 200, 0));
    a.add_animation("walk", clip(6, 200, 39));
    a.set_animation("idle");
    a.update(200);
    a.update(70);
    assert_eq!(a.frame_index(), 1);
    assert_eq!(a.elapsed_ms(), 70);
    assert!(a.set_animation("walk"));
    assert_eq!(a.current_name(), "walk");
    assert_eq!(a.frame_index(), 0);
    assert_eq!(a.elapsed_ms(), 0);
}

#[test]
fn unknown_name_reports_and_changes_nothing() {
    let mut a = Animator::new();
    a.add_animation("idle", clip(4, 200, 0));
    a.set_animation("idle");
    a.update(200);
    a.update(30);
    let known = a.set_animation("run");
    assert!(!known);
    assert_eq!(a.current_name(), "idle");
    assert_eq!(a.frame_index(), 1);
    assert_eq!(a.elapsed_ms(), 30);
}

#[test]
fn overwriting_current_clip_keeps_playback() {
    let mut a = Animator::new();
    a.add_animation("idle", clip(4, 200, 0));
    a.set_animation("idle");
    a.update(200);
    a.update(90);
    a.add_animation("idle", clip(8, 400, 10));
    assert_eq!(a.current_name(), "idle");
    assert_eq!(a.frame_index(), 1);
    assert_eq!(a.elapsed_ms(), 90);
    let replaced = a.get_animation("idle").unwrap();
    assert_eq!(replaced.frame_count, 8);
    assert_eq!(replaced.frame_duration, 400);
    assert_eq!(replaced.sprite_y, 10);
}

#[test]
fn tick_without_registered_selection_is_a_no_op() {
    let mut a = Animator::new();
    a.update(500);
    assert_eq!(a.frame_index(), 0);
    assert_eq!(a.elapsed_ms(), 0);
    a.add_animation("idle", clip(4, 200, 0));
    // nothing selected yet: still a no-op
    a.update(500);
    assert_eq!(a.frame_index(), 0);
    assert_eq!(a.elapsed_ms(), 0);
}

#[test]
fn animate_reports_current_frame_cell() {
    let mut a = Animator::new();
    a.add_animation("walk", clip(6, 200, 39));
    a.set_animation("walk");
    a.update(200);
    let d = a.animate(true).unwrap();
    assert_eq!(
        d,
        FrameDraw {
            source_x: 45,
            source_y: 39,
            source_width: 45,
            source_height: 39,
            dest_width: 90,
            dest_height: 78,
            flip_x: true,
        }
    );
    let unflipped = a.animate(false).unwrap();
    assert!(!unflipped.flip_x);
}

#[test]
fn animate_without_selection_draws_nothing() {
    let a = Animator::new();
    assert!(a.animate(false).is_none());
}
