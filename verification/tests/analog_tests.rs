use imgui_renderer::analog::{isqrt64, rescale, ANALOG_MAX, STICK_DEAD_ZONE};

#[test]
fn isqrt_exact_values() {
    assert_eq!(isqrt64(0), 0);
    assert_eq!(isqrt64(1), 1);
    assert_eq!(isqrt64(15), 3);
    assert_eq!(isqrt64(16), 4);
    assert_eq!(isqrt64(50_000_000), 7071);
    assert_eq!(isqrt64(0x3FFF_FFFF_FFFF_FFFF), 2147483647);
}

#[test]
fn inside_dead_zone_is_rest() {
    // magnitude ~141, far below the dead zone
    assert_eq!(rescale(100, 100, STICK_DEAD_ZONE, ANALOG_MAX), (0, 0));
    // magnitude 7071, still below 7680
    assert_eq!(rescale(5000, 5000, STICK_DEAD_ZONE, ANALOG_MAX), (0, 0));
    // just below the edge
    assert_eq!(rescale(7679, 0, STICK_DEAD_ZONE, ANALOG_MAX), (0, 0));
}

#[test]
fn outside_dead_zone_exact_rescale() {
    // magnitude 10000: 10000 * (10000-7680) * 32768 / (10000 * (32768-7680))
    assert_eq!(rescale(10000, 0, STICK_DEAD_ZONE, ANALOG_MAX), (3030, 0));
    assert_eq!(rescale(-10000, 0, STICK_DEAD_ZONE, ANALOG_MAX), (-3030, 0));
    assert_eq!(rescale(0, 10000, STICK_DEAD_ZONE, ANALOG_MAX), (0, 3030));
    assert_eq!(rescale(0, -10000, STICK_DEAD_ZONE, ANALOG_MAX), (0, -3030));
}

#[test]
fn rescaled_magnitude_stays_inside_range() {
    let (x, y) = rescale(20000, 0, STICK_DEAD_ZONE, ANALOG_MAX);
    assert_eq!((x, y), (16091, 0));
    assert!(x > 0 && (x as i64) < ANALOG_MAX as i64);

    // a diagonal deflection well outside the dead zone
    let (x, y) = rescale(15000, 15000, STICK_DEAD_ZONE, ANALOG_MAX);
    assert!(x > 0 && y > 0);
    let sq = (x as i64) * (x as i64) + (y as i64) * (y as i64);
    assert!(sq > 0);
    assert!(sq < (ANALOG_MAX as i64) * (ANALOG_MAX as i64));
}

#[test]
fn full_deflection_maps_to_itself() {
    // magnitude exactly the nominal maximum: the scale factor is one
    assert_eq!(rescale(32768, 0, STICK_DEAD_ZONE, ANALOG_MAX), (32768, 0));
}
