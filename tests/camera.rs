use learn_opengl::camera::{Camera, Dispatch, InputEvent, Key, Movement};

#[test]
fn new_camera_looks_straight_with_widest_fov() {
    let c = Camera::new();
    assert_eq!(c.yaw_tenths(), 0);
    assert_eq!(c.pitch_tenths(), 0);
    assert_eq!(c.fov_degrees(), 45);
}

#[test]
fn large_motion_clamps_pitch_not_yaw() {
    let mut c = Camera::new();
    c.mouse_motion(10000, -10000);
    assert_eq!(c.yaw_tenths(), 10000);
    assert_eq!(c.pitch_tenths(), 890);
}

#[test]
fn motion_down_clamps_pitch_below() {
    let mut c = Camera::new();
    c.mouse_motion(-3, 5000);
    assert_eq!(c.yaw_tenths(), -3);
    assert_eq!(c.pitch_tenths(), -890);
}

#[test]
fn small_motions_add_a_tenth_per_pixel() {
    let mut c = Camera::new();
    c.mouse_motion(12, 7);
    c.mouse_motion(3, -2);
    assert_eq!(c.yaw_tenths(), 15);
    assert_eq!(c.pitch_tenths(), -5);
}

#[test]
fn pitch_stays_in_range_over_many_motions() {
    let mut c = Camera::new();
    let moves = [(5, 900), (1, -2000), (0, 17), (-40, -1), (9, 3000), (2, -889)];
    for (dx, dy) in moves {
        c.mouse_motion(dx, dy);
        assert!(c.pitch_tenths() >= -890 && c.pitch_tenths() <= 890);
    }
    assert_eq!(c.yaw_tenths(), -23);
    assert_eq!(c.pitch_tenths(), -1);
}

#[test]
fn wheel_clamps_fov() {
    let mut c = Camera::new();
    c.mouse_wheel(-10);
    assert_eq!(c.fov_degrees(), 45);
    c.mouse_wheel(10);
    assert_eq!(c.fov_degrees(), 35);
    c.mouse_wheel(100);
    assert_eq!(c.fov_degrees(), 1);
    c.mouse_wheel(-3);
    assert_eq!(c.fov_degrees(), 4);
}

#[test]
fn events_dispatch() {
    let mut c = Camera::new();
    assert_eq!(c.handle(InputEvent::Quit), Dispatch::Quit);
    assert_eq!(
        c.handle(InputEvent::Key { pressed: true, key: Key::W }),
        Dispatch::Move(Movement::Forward)
    );
    assert_eq!(
        c.handle(InputEvent::Key { pressed: true, key: Key::S }),
        Dispatch::Move(Movement::Backward)
    );
    assert_eq!(
        c.handle(InputEvent::Key { pressed: true, key: Key::A }),
        Dispatch::Move(Movement::Left)
    );
    assert_eq!(
        c.handle(InputEvent::Key { pressed: true, key: Key::D }),
        Dispatch::Move(Movement::Right)
    );
    assert_eq!(c.handle(InputEvent::Key { pressed: false, key: Key::W }), Dispatch::Ignore);
    assert_eq!(c.handle(InputEvent::Key { pressed: true, key: Key::Other }), Dispatch::Ignore);
    assert_eq!(c.handle(InputEvent::Other), Dispatch::Ignore);
    assert_eq!(c.yaw_tenths(), 0);
    assert_eq!(c.handle(InputEvent::MouseMotion { dx: 4, dy: -6 }), Dispatch::Look);
    assert_eq!(c.yaw_tenths(), 4);
    assert_eq!(c.pitch_tenths(), 6);
    assert_eq!(c.handle(InputEvent::MouseWheel { dy: 2 }), Dispatch::Zoom);
    assert_eq!(c.fov_degrees(), 43);
}
