use tween_scene::input::InputState;
use tween_scene::input::Key;
use tween_scene::lens::Vec3Fx;
use tween_scene::parent::parent_animate;
use tween_scene::parent::parent_frame;
use tween_scene::parent::update_parent;
use tween_scene::parent::ParentState;
use tween_scene::parent::PAN_MOVE_TIME;
use tween_scene::scene::initial_parent_translation;
use tween_scene::tween::AnimLens;

fn idle_input() -> InputState {
    InputState { just_pressed_keys: vec![], held_keys: vec![] }
}

fn fresh_parent() -> ParentState {
    ParentState { translation: initial_parent_translation(), tween: None }
}

#[test]
fn parent_drifts_down_one_unit_each_frame() {
    let mut p = fresh_parent();
    update_parent(&mut p, &idle_input());
    assert_eq!(p.translation, Vec3Fx { x: 0, y: -501_000_000, z: 0 });
    update_parent(&mut p, &idle_input());
    assert_eq!(p.translation.y, -502_000_000);
    assert!(p.tween.is_none());
}

#[test]
fn held_pan_keys_offset_the_drift() {
    let mut p = fresh_parent();
    let up = InputState { just_pressed_keys: vec![], held_keys: vec![Key::Y] };
    update_parent(&mut p, &up);
    // Nine units up less the one-unit drift.
    assert_eq!(p.translation.y, -492_000_000);

    let mut q = fresh_parent();
    let down = InputState { just_pressed_keys: vec![], held_keys: vec![Key::H] };
    update_parent(&mut q, &down);
    // Eight units down plus the one-unit drift.
    assert_eq!(q.translation.y, -509_000_000);

    let mut r = fresh_parent();
    let both = InputState { just_pressed_keys: vec![], held_keys: vec![Key::Y, Key::H] };
    update_parent(&mut r, &both);
    assert_eq!(r.translation.y, -500_000_000);
}

#[test]
fn pan_trigger_attaches_tween_from_current_translation() {
    let mut p = fresh_parent();
    let trig = InputState { just_pressed_keys: vec![Key::P], held_keys: vec![] };
    update_parent(&mut p, &trig);
    // The drift applies first; the tween starts where the parent now is.
    assert_eq!(p.translation.y, -501_000_000);
    let t = p.tween.expect("a tween should be attached");
    assert_eq!(t.duration_ms, PAN_MOVE_TIME);
    assert_eq!(t.elapsed_ms, 0);
    match t.lens {
        AnimLens::Position { pos } => {
            assert_eq!(pos.start, Vec3Fx { x: 0, y: -501_000_000, z: 0 });
            assert_eq!(pos.end, Vec3Fx { x: 0, y: -2_501_000_000, z: 0 });
        },
        AnimLens::Projection { .. } => panic!("a translation tween was expected"),
    }
}

#[test]
fn pan_passes_its_midpoint_and_ends_exactly() {
    let mut p = fresh_parent();
    let trig = InputState { just_pressed_keys: vec![Key::P], held_keys: vec![] };
    update_parent(&mut p, &trig);
    parent_animate(&mut p, PAN_MOVE_TIME / 2);
    // Quadratic in-out eases one half to one half exactly.
    assert_eq!(p.translation, Vec3Fx { x: 0, y: -1_501_000_000, z: 0 });
    parent_animate(&mut p, PAN_MOVE_TIME / 2);
    assert_eq!(p.translation, Vec3Fx { x: 0, y: -2_501_000_000, z: 0 });
    assert!(p.tween.is_none());
}

#[test]
fn split_pan_ticks_end_at_the_same_place() {
    let mut p = fresh_parent();
    let trig = InputState { just_pressed_keys: vec![Key::P], held_keys: vec![] };
    update_parent(&mut p, &trig);
    for _ in 0..5 {
        parent_animate(&mut p, PAN_MOVE_TIME / 5 + 7);
    }
    assert_eq!(p.translation, Vec3Fx { x: 0, y: -2_501_000_000, z: 0 });
    assert!(p.tween.is_none());
}

#[test]
fn pan_retrigger_starts_at_the_current_translation() {
    let mut p = fresh_parent();
    let trig = InputState { just_pressed_keys: vec![Key::P], held_keys: vec![] };
    update_parent(&mut p, &trig);
    parent_animate(&mut p, PAN_MOVE_TIME / 2);
    let halfway = p.translation;
    assert_eq!(halfway, Vec3Fx { x: 0, y: -1_501_000_000, z: 0 });
    // Re-triggering replaces the pan; its start is the drifted current
    // translation, not the original one — no jump.
    update_parent(&mut p, &trig);
    match p.tween.expect("a tween should be attached").lens {
        AnimLens::Position { pos } => {
            assert_eq!(pos.start, Vec3Fx { x: 0, y: halfway.y - 1_000_000, z: 0 });
            assert_eq!(pos.end, Vec3Fx { x: 0, y: halfway.y - 1_000_000 - 2_000_000_000, z: 0 });
        },
        AnimLens::Projection { .. } => panic!("a translation tween was expected"),
    }
}

#[test]
fn whole_frame_drifts_and_animates() {
    let mut p = fresh_parent();
    let trig = InputState { just_pressed_keys: vec![Key::P], held_keys: vec![] };
    parent_frame(&mut p, &trig, PAN_MOVE_TIME);
    assert_eq!(p.translation, Vec3Fx { x: 0, y: -2_501_000_000, z: 0 });
    assert!(p.tween.is_none());
}
