use gldemo::camera::{Camera, Movement, SENSITIVITY};
use gldemo::controls::{step_frame, FrameEvent, Keys};

fn no_keys() -> Keys {
    Keys { escape: false, forward: false, backward: false, left: false, right: false }
}

#[test]
fn wheel_events_zoom_then_mouse_turns() {
    let mut camera = Camera::new();
    let events = vec![FrameEvent::MouseWheel(3), FrameEvent::MouseWheel(-1)];
    let keys = Keys { forward: true, left: true, ..no_keys() };
    let moves = step_frame(&mut camera, &events, 4, -2, keys);
    assert_eq!(moves, Some(vec![Movement::Forward, Movement::Left]));
    assert_eq!(camera.zoom(), 3);
    assert_eq!(camera.yaw(), (4 * SENSITIVITY) as i128);
    assert_eq!(camera.pitch(), 2 * SENSITIVITY);
}

#[test]
fn quit_stops_before_later_events_and_motion() {
    let mut camera = Camera::new();
    let events = vec![FrameEvent::MouseWheel(5), FrameEvent::Quit, FrameEvent::MouseWheel(20)];
    let moves = step_frame(&mut camera, &events, 4, 4, no_keys());
    assert_eq!(moves, None);
    assert_eq!(camera.zoom(), 6);
    assert_eq!(camera.yaw(), 0);
    assert_eq!(camera.pitch(), 0);
}

#[test]
fn escape_stops_after_turning() {
    let mut camera = Camera::new();
    let keys = Keys { escape: true, forward: true, ..no_keys() };
    let moves = step_frame(&mut camera, &Vec::new(), 1, 0, keys);
    assert_eq!(moves, None);
    assert_eq!(camera.yaw(), SENSITIVITY as i128);
}

#[test]
fn all_keys_give_all_movements_in_order() {
    let mut camera = Camera::new();
    let keys = Keys { escape: false, forward: true, backward: true, left: true, right: true };
    let moves = step_frame(&mut camera, &Vec::new(), 0, 0, keys);
    assert_eq!(
        moves,
        Some(vec![Movement::Forward, Movement::Backward, Movement::Left, Movement::Right])
    );
}

#[test]
fn no_keys_give_no_movement() {
    let mut camera = Camera::new();
    let moves = step_frame(&mut camera, &Vec::new(), 0, 0, no_keys());
    assert_eq!(moves, Some(Vec::new()));
}
