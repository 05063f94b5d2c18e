use inputshare_client::axis::saturate_to_i8;

#[test]
fn saturation_bounds() {
    assert_eq!(saturate_to_i8(0), 0);
    assert_eq!(saturate_to_i8(1), 1);
    assert_eq!(saturate_to_i8(-1), -1);
    assert_eq!(saturate_to_i8(127), 127);
    assert_eq!(saturate_to_i8(128), 127);
    assert_eq!(saturate_to_i8(-128), -128);
    assert_eq!(saturate_to_i8(-129), -128);
    assert_eq!(saturate_to_i8(-200), -128);
    assert_eq!(saturate_to_i8(i64::MAX), 127);
    assert_eq!(saturate_to_i8(i64::MIN), -128);
}

#[test]
fn quantizer_boundaries() {
    // the caller rounds to nearest with ties away from zero, then the
    // library saturates; these are the wire-format boundary cases
    assert_eq!(saturate_to_i8(127.4f32.round() as i64), 127);
    assert_eq!(saturate_to_i8(127.6f32.round() as i64), 127);
    assert_eq!(saturate_to_i8((-200.0f32).round() as i64), -128);
    assert_eq!(saturate_to_i8(0.5f32.round() as i64), 1);
    assert_eq!(saturate_to_i8((-0.5f32).round() as i64), -1);
    assert_eq!(saturate_to_i8(0.0f32.round() as i64), 0);
}
