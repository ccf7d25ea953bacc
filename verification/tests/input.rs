use amtf_engine::input::{handle_input, pointer_center, Keys, Pointer, PointerAction, Steering};

fn no_keys() -> Keys {
    Keys {
        w: false,
        s: false,
        a: false,
        d: false,
        q: false,
        e: false,
        up: false,
        down: false,
        left: false,
        right: false,
    }
}

#[test]
fn no_key_steers_nowhere() {
    assert_eq!(handle_input(&no_keys()), Steering { x: 0, y: 0, z: 0, yaw: 0, pitch: 0 });
}

#[test]
fn w_goes_along_negative_z_and_s_back() {
    assert_eq!(handle_input(&Keys { w: true, ..no_keys() }).z, -1);
    assert_eq!(handle_input(&Keys { s: true, ..no_keys() }).z, 1);
}

#[test]
fn a_and_q_go_negative_d_and_e_positive() {
    assert_eq!(handle_input(&Keys { a: true, ..no_keys() }).x, -1);
    assert_eq!(handle_input(&Keys { d: true, ..no_keys() }).x, 1);
    assert_eq!(handle_input(&Keys { q: true, ..no_keys() }).y, -1);
    assert_eq!(handle_input(&Keys { e: true, ..no_keys() }).y, 1);
}

#[test]
fn arrows_turn_the_camera() {
    assert_eq!(handle_input(&Keys { up: true, ..no_keys() }).pitch, 1);
    assert_eq!(handle_input(&Keys { down: true, ..no_keys() }).pitch, -1);
    assert_eq!(handle_input(&Keys { left: true, ..no_keys() }).yaw, 1);
    assert_eq!(handle_input(&Keys { right: true, ..no_keys() }).yaw, -1);
}

#[test]
fn of_two_opposed_keys_the_first_wins() {
    let all = Keys {
        w: true,
        s: true,
        a: true,
        d: true,
        q: true,
        e: true,
        up: true,
        down: true,
        left: true,
        right: true,
    };
    assert_eq!(handle_input(&all), Steering { x: -1, y: -1, z: -1, yaw: 1, pitch: 1 });
}

#[test]
fn first_frame_of_a_capture_reads_no_offset() {
    let mut pointer = Pointer::new();
    assert_eq!(pointer.step(true, false), PointerAction::Release);
    assert!(pointer.reset_mouse);
    assert_eq!(pointer.step(true, true), PointerAction::Capture { read_delta: false });
    assert_eq!(pointer.step(true, true), PointerAction::Capture { read_delta: true });
}

#[test]
fn pointer_is_released_when_capture_is_not_wanted() {
    let mut pointer = Pointer::new();
    assert_eq!(pointer.step(false, true), PointerAction::Release);
    assert_eq!(pointer.step(false, false), PointerAction::Release);
    assert!(pointer.reset_mouse);
}

#[test]
fn fresh_pointer_reads_the_first_offset() {
    let mut pointer = Pointer::new();
    assert_eq!(pointer.step(true, true), PointerAction::Capture { read_delta: true });
    assert!(!pointer.reset_mouse);
}

#[test]
fn center_is_half_the_size_rounded_down() {
    assert_eq!(pointer_center((1920, 1052)), (960, 526));
    assert_eq!(pointer_center((801, 601)), (400, 300));
    assert_eq!(pointer_center((0, 1)), (0, 0));
    assert_eq!(pointer_center((u32::MAX, u32::MAX)), (i32::MAX, i32::MAX));
}
