use game_engine::camera::{
    is_at_most, is_less, INFINITY, MAX_FOV, MAX_PITCH, MIN_FOV, MIN_PITCH, SIGN,
};
use game_engine::{
    accepts_scroll, clamp_fov, clamp_pitch, process_mouse, CursorGuard, Input, Keys, Movement,
    Update,
};

fn samples() -> Vec<f32> {
    let mut values = vec![
        0.0,
        -0.0,
        f32::MIN_POSITIVE,
        -f32::MIN_POSITIVE,
        f32::from_bits(1),
        f32::from_bits(0x8000_0001),
        f32::EPSILON,
        0.5,
        1.0,
        -1.0,
        f32::from_bits(0x3f7f_ffff),
        f32::from_bits(0x3f80_0001),
        44.999996,
        45.0,
        45.000004,
        88.99999,
        89.0,
        89.00001,
        -88.99999,
        -89.0,
        -89.00001,
        90.0,
        -90.0,
        360.0,
        1.0e30,
        -1.0e30,
        f32::MAX,
        f32::MIN,
        f32::INFINITY,
        f32::NEG_INFINITY,
        f32::NAN,
        -f32::NAN,
        f32::from_bits(0x7f80_0001),
        f32::from_bits(0xffff_ffff),
    ];
    let mut x = -100.0f32;
    while x <= 100.0 {
        values.push(x);
        x += 3.7;
    }
    values
}

fn same(a: f32, b: f32) -> bool {
    a.to_bits() == b.to_bits()
}

#[test]
fn bounds_are_the_bits_of_their_numbers() {
    assert_eq!(MAX_PITCH, 89.0f32.to_bits());
    assert_eq!(MIN_PITCH, (-89.0f32).to_bits());
    assert_eq!(MIN_FOV, 1.0f32.to_bits());
    assert_eq!(MAX_FOV, 45.0f32.to_bits());
    assert_eq!(INFINITY, f32::INFINITY.to_bits());
    assert_eq!(SIGN, (-0.0f32).to_bits());
}

#[test]
fn order_on_bits_is_the_order_of_the_numbers() {
    let values = samples();
    for a in &values {
        for b in &values {
            assert_eq!(is_less(a.to_bits(), b.to_bits()), a < b, "{} < {}", a, b);
            assert_eq!(is_at_most(a.to_bits(), b.to_bits()), a <= b, "{} <= {}", a, b);
        }
    }
}

#[test]
fn pitch_is_held_back_at_eighty_nine_degrees() {
    assert!(same(f32::from_bits(clamp_pitch(89.5f32.to_bits())), 89.0));
    assert!(same(f32::from_bits(clamp_pitch(1000.0f32.to_bits())), 89.0));
    assert!(same(f32::from_bits(clamp_pitch(f32::INFINITY.to_bits())), 89.0));
    assert!(same(f32::from_bits(clamp_pitch((-89.5f32).to_bits())), -89.0));
    assert!(same(f32::from_bits(clamp_pitch(f32::NEG_INFINITY.to_bits())), -89.0));
    assert!(same(f32::from_bits(clamp_pitch(89.0f32.to_bits())), 89.0));
    assert!(same(f32::from_bits(clamp_pitch((-89.0f32).to_bits())), -89.0));
    assert!(same(f32::from_bits(clamp_pitch(12.25f32.to_bits())), 12.25));
    assert!(same(f32::from_bits(clamp_pitch((-0.0f32).to_bits())), -0.0));
}

#[test]
fn clamped_pitch_is_what_two_comparisons_give() {
    for value in samples() {
        let mut pitch = value;
        if pitch > 89.0 {
            pitch = 89.0;
        }
        if pitch < -89.0 {
            pitch = -89.0;
        }
        let clamped = f32::from_bits(clamp_pitch(value.to_bits()));
        assert!(same(clamped, pitch), "{} gives {}", value, clamped);
        if !value.is_nan() {
            assert!((-89.0..=89.0).contains(&clamped));
        }
    }
}

#[test]
fn only_a_field_of_view_within_bounds_accepts_the_wheel() {
    for value in samples() {
        assert_eq!(accepts_scroll(value.to_bits()), value >= 1.0 && value <= 45.0, "{}", value);
    }
    assert!(accepts_scroll(1.0f32.to_bits()));
    assert!(accepts_scroll(45.0f32.to_bits()));
    assert!(accepts_scroll(30.0f32.to_bits()));
    assert!(!accepts_scroll(0.99f32.to_bits()));
    assert!(!accepts_scroll(45.01f32.to_bits()));
    assert!(!accepts_scroll(f32::NAN.to_bits()));
}

#[test]
fn field_of_view_is_held_back_at_one_and_forty_five_degrees() {
    assert!(same(f32::from_bits(clamp_fov(0.5f32.to_bits())), 1.0));
    assert!(same(f32::from_bits(clamp_fov((-3.0f32).to_bits())), 1.0));
    assert!(same(f32::from_bits(clamp_fov((-0.0f32).to_bits())), 1.0));
    assert!(same(f32::from_bits(clamp_fov(1.0f32.to_bits())), 1.0));
    assert!(same(f32::from_bits(clamp_fov(45.0f32.to_bits())), 45.0));
    assert!(same(f32::from_bits(clamp_fov(46.0f32.to_bits())), 45.0));
    assert!(same(f32::from_bits(clamp_fov(f32::INFINITY.to_bits())), 45.0));
    assert!(same(f32::from_bits(clamp_fov(44.0f32.to_bits())), 44.0));
    assert!(same(f32::from_bits(clamp_fov(1.5f32.to_bits())), 1.5));
}

#[test]
fn scrolling_keeps_the_field_of_view_within_bounds() {
    for start in samples() {
        for delta in [-100.0f32, -1.0, -0.25, 0.0, 0.25, 1.0, 44.0, 100.0, f32::INFINITY] {
            let mut expected = start;
            if expected >= 1.0 && expected <= 45.0 {
                expected -= delta;
            }
            if expected <= 1.0 {
                expected = 1.0;
            }
            if expected >= 45.0 {
                expected = 45.0;
            }

            let mut fov = start;
            if accepts_scroll(fov.to_bits()) {
                fov -= delta;
            }
            fov = f32::from_bits(clamp_fov(fov.to_bits()));

            assert!(same(fov, expected), "{} scrolled by {} gives {}", start, delta, fov);
            if !start.is_nan() {
                assert!((1.0..=45.0).contains(&fov));
            }
        }
    }
}

#[test]
fn a_nan_is_left_as_it_is() {
    for bits in [0x7fc0_0000u32, 0xffc0_0000, 0x7f80_0001, 0xffff_ffff] {
        assert_eq!(clamp_pitch(bits), bits);
        assert_eq!(clamp_fov(bits), bits);
        assert!(!accepts_scroll(bits));
    }
}

#[test]
fn the_first_cursor_position_is_latched() {
    let mut guard = CursorGuard::new();
    assert!(guard.first_mouse);
    assert_eq!(guard.process_event(Input::CursorPos), Update::Latch);
    assert!(!guard.first_mouse);
    assert_eq!(guard.process_event(Input::CursorPos), Update::Rotate);
    assert_eq!(guard.process_event(Input::CursorPos), Update::Rotate);
    assert!(!guard.first_mouse);
}

#[test]
fn scrolling_zooms_and_does_not_latch() {
    let mut guard = CursorGuard::new();
    assert_eq!(guard.process_event(Input::Scroll), Update::Zoom);
    assert!(guard.first_mouse);
    assert_eq!(guard.process_event(Input::Other), Update::Ignore);
    assert!(guard.first_mouse);
    assert_eq!(guard.process_event(Input::CursorPos), Update::Latch);
    assert_eq!(guard.process_event(Input::Scroll), Update::Zoom);
    assert_eq!(guard.process_event(Input::Other), Update::Ignore);
    assert_eq!(guard.process_event(Input::CursorPos), Update::Rotate);
}

#[test]
fn keys_move_in_the_order_w_s_d_a() {
    let all = Keys { w: true, s: true, d: true, a: true };
    assert_eq!(
        process_mouse(all),
        vec![Movement::Forward, Movement::Backward, Movement::Right, Movement::Left]
    );
    let none = Keys { w: false, s: false, d: false, a: false };
    assert!(process_mouse(none).is_empty());
}

#[test]
fn each_key_has_its_movement() {
    let none = Keys { w: false, s: false, d: false, a: false };
    assert_eq!(process_mouse(Keys { w: true, ..none }), vec![Movement::Forward]);
    assert_eq!(process_mouse(Keys { s: true, ..none }), vec![Movement::Backward]);
    assert_eq!(process_mouse(Keys { d: true, ..none }), vec![Movement::Right]);
    assert_eq!(process_mouse(Keys { a: true, ..none }), vec![Movement::Left]);
    assert_eq!(
        process_mouse(Keys { w: true, a: true, ..none }),
        vec![Movement::Forward, Movement::Left]
    );
}
