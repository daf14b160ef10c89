use imgui_renderer::input::{
    clamp_i32, AnalogAccumulator, InputTranslator, PadSample, TouchSample, BTN_CROSS, BTN_LEFT,
    POINTER_SLOWDOWN,
};

#[test]
fn accumulator_keeps_sub_divisor_residue() {
    let mut acc = AnalogAccumulator::new();
    let out = acc.absorb(100, -100);
    assert_eq!(out, (0, 0));
    assert_eq!(acc.hi_res_x, 100);
    assert_eq!(acc.hi_res_y, -100);
}

#[test]
fn repeated_small_deltas_eventually_pay_out() {
    // 21 frames of +100 cross the 2048 divisor once: no motion is lost.
    let mut acc = AnalogAccumulator::new();
    let mut total_x: i64 = 0;
    let mut saw_nonzero = false;
    for _ in 0..21 {
        let (dx, _) = acc.absorb(100, 0);
        total_x += dx as i64;
        if dx != 0 {
            saw_nonzero = true;
        }
    }
    assert!(saw_nonzero);
    assert_eq!(total_x, 1);
    assert_eq!(acc.hi_res_x, 21 * 100 - POINTER_SLOWDOWN as i64);
}

#[test]
fn truncating_division_on_negative_totals() {
    let mut acc = AnalogAccumulator::new();
    let out = acc.absorb(-5000, 0);
    assert_eq!(out.0, -2);
    assert_eq!(acc.hi_res_x, -904);
}

#[test]
fn clamp_on_both_sides() {
    assert_eq!(clamp_i32(-5, 0, 960), 0);
    assert_eq!(clamp_i32(9999, 0, 544), 544);
    assert_eq!(clamp_i32(300, 0, 960), 300);
    assert_eq!(clamp_i32(0, 0, 960), 0);
    assert_eq!(clamp_i32(960, 0, 960), 960);
}

#[test]
fn touch_pointer_is_clamped_into_display() {
    let mut tr = InputTranslator::new();
    let touch = TouchSample { x: -5, y: 9999, pressed: [true, false, false] };
    let (ptr, nav) = tr.sample(960, 544, Some(touch), None);
    assert_eq!(ptr.x, 0);
    assert_eq!(ptr.y, 544);
    assert_eq!(ptr.buttons, [true, false, false]);
    assert!(!nav.activate);
    assert_eq!(nav.lstick_right_num, 0);
}

#[test]
fn gamepad_buttons_become_navigation() {
    let mut tr = InputTranslator::new();
    let pad = PadSample { buttons: BTN_CROSS | BTN_LEFT, lx: 127, ly: 127 };
    let (_, nav) = tr.sample(960, 544, None, Some(pad));
    assert!(nav.activate);
    assert!(nav.dpad_left);
    assert!(!nav.cancel);
    assert!(!nav.dpad_right);
    assert!(!nav.focus_prev);
    // a centered stick is inside the dead zone: accumulator untouched
    assert_eq!(tr.accumulator.hi_res_x, 0);
    assert_eq!(tr.accumulator.hi_res_y, 0);
    assert_eq!(nav.lstick_left_num, 0);
    assert_eq!(nav.lstick_right_num, 0);
}

#[test]
fn full_stick_deflection_reports_magnitude() {
    let mut tr = InputTranslator::new();
    // lx = 255 recenters to (255-127)*256 = 32768: full deflection right,
    // rescaled to 32768 and divided by the 2048 slowdown: 16.
    let pad = PadSample { buttons: 0, lx: 255, ly: 127 };
    let (_, nav) = tr.sample(960, 544, None, Some(pad));
    assert_eq!(nav.lstick_right_num, 16);
    assert_eq!(nav.lstick_left_num, 0);
    assert_eq!(tr.accumulator.hi_res_x, 0);
}

#[test]
fn disabled_touch_keeps_previous_pointer() {
    let mut tr = InputTranslator::new();
    tr.touch_usage = false;
    tr.mx = 123;
    tr.my = 45;
    let touch = TouchSample { x: 500, y: 500, pressed: [true, true, true] };
    let (ptr, _) = tr.sample(960, 544, Some(touch), None);
    assert_eq!(ptr.x, 123);
    assert_eq!(ptr.y, 45);
    assert_eq!(ptr.buttons, [false, false, false]);
}
