use tween_scene::input::InputState;
use tween_scene::input::Key;
use tween_scene::tween::AnimLens;
use tween_scene::zoom::camera_animate;
use tween_scene::zoom::camera_frame;
use tween_scene::zoom::zoom_2d;
use tween_scene::zoom::CameraState;
use tween_scene::zoom::CAMERA_MOVE_TIME;

fn idle_input() -> InputState {
    InputState { just_pressed_keys: vec![], held_keys: vec![] }
}

fn tap(k: Key) -> InputState {
    InputState { just_pressed_keys: vec![k], held_keys: vec![] }
}

fn hold(k: Key) -> InputState {
    InputState { just_pressed_keys: vec![], held_keys: vec![k] }
}

fn fresh_camera() -> CameraState {
    CameraState { scale: 1_000_000, tween: None }
}

fn tween_start(c: &CameraState) -> i64 {
    match c.tween.expect("a tween should be attached").lens {
        AnimLens::Projection { proj } => proj.start,
        AnimLens::Position { .. } => panic!("a scale tween was expected"),
    }
}

fn tween_end(c: &CameraState) -> i64 {
    match c.tween.expect("a tween should be attached").lens {
        AnimLens::Projection { proj } => proj.end,
        AnimLens::Position { .. } => panic!("a scale tween was expected"),
    }
}

#[test]
fn presets_set_the_scale_directly() {
    for (k, want) in [
        (Key::Key1, 900_000),
        (Key::Key2, 1_400_000),
        (Key::Key3, 1_300_000),
    ] {
        let mut cam = fresh_camera();
        zoom_2d(&mut cam, &tap(k));
        assert_eq!(cam.scale, want);
        assert!(cam.tween.is_none());
    }
}

#[test]
fn reset_key_restores_scale_one() {
    let mut cam = CameraState { scale: 3_333_333, tween: None };
    zoom_2d(&mut cam, &tap(Key::A));
    assert_eq!(cam.scale, 1_000_000);
}

#[test]
fn unrecognized_frames_change_nothing() {
    let mut cam = CameraState { scale: 777_777, tween: None };
    zoom_2d(&mut cam, &idle_input());
    assert_eq!(cam.scale, 777_777);
    assert!(cam.tween.is_none());
}

#[test]
fn trigger_attaches_tween_from_current_scale() {
    let mut cam = CameraState { scale: 2_000_000, tween: None };
    zoom_2d(&mut cam, &tap(Key::Key4));
    assert_eq!(cam.scale, 2_000_000);
    let t = cam.tween.expect("a tween should be attached");
    assert_eq!(t.duration_ms, CAMERA_MOVE_TIME);
    assert_eq!(t.elapsed_ms, 0);
    assert_eq!(tween_start(&cam), 2_000_000);
    assert_eq!(tween_end(&cam), 900_000);
}

#[test]
fn second_trigger_targets_scale_up() {
    let mut cam = fresh_camera();
    zoom_2d(&mut cam, &tap(Key::Key5));
    assert_eq!(tween_start(&cam), 1_000_000);
    assert_eq!(tween_end(&cam), 1_100_000);
}

#[test]
fn retrigger_starts_at_the_current_interpolated_value() {
    let mut cam = CameraState { scale: 2_000_000, tween: None };
    zoom_2d(&mut cam, &tap(Key::Key4));
    // Half the duration: quadratic in-out eases one half to one half,
    // so the written scale is halfway from two toward nine tenths.
    camera_animate(&mut cam, CAMERA_MOVE_TIME / 2);
    assert_eq!(cam.scale, 1_450_000);
    // Re-triggering replaces the tween; its start is the value on the
    // camera now, not the original two — no jump.
    zoom_2d(&mut cam, &tap(Key::Key4));
    assert_eq!(tween_start(&cam), 1_450_000);
    assert_eq!(tween_end(&cam), 900_000);
}

#[test]
fn animation_completes_at_the_end_value_and_detaches() {
    let mut cam = CameraState { scale: 2_000_000, tween: None };
    zoom_2d(&mut cam, &tap(Key::Key4));
    camera_animate(&mut cam, 33);
    camera_animate(&mut cam, 33);
    camera_animate(&mut cam, 35);
    assert_eq!(cam.scale, 900_000);
    assert!(cam.tween.is_none());
}

#[test]
fn held_zoom_out_damps_ten_frames() {
    // Ten frames at nine tenths from one: 0.9^10 of a unit, truncated a
    // little further by the fixed-point steps.
    let mut cam = fresh_camera();
    for _ in 0..10 {
        zoom_2d(&mut cam, &hold(Key::X));
    }
    assert_eq!(cam.scale, 348_677);
}

#[test]
fn held_zoom_in_grows() {
    let mut cam = fresh_camera();
    zoom_2d(&mut cam, &hold(Key::Z));
    assert_eq!(cam.scale, 1_100_000);
    zoom_2d(&mut cam, &hold(Key::Z));
    assert_eq!(cam.scale, 1_210_000);
}

#[test]
fn whole_frame_runs_keys_then_animation() {
    let mut cam = fresh_camera();
    camera_frame(&mut cam, &tap(Key::Key4), CAMERA_MOVE_TIME);
    // The tween was attached by the key phase and completed by the
    // animation phase of the same frame.
    assert_eq!(cam.scale, 900_000);
    assert!(cam.tween.is_none());
}
