use throttle_link::mapping::{map_throttle, REGISTER_FULL_SCALE};

#[test]
fn boundary_percentages_hit_exact_registers() {
    assert_eq!(map_throttle(0.0f32.to_bits()), 0);
    assert_eq!(map_throttle(50.0f32.to_bits()), 0x4000);
    assert_eq!(map_throttle(100.0f32.to_bits()), 0x8000);
    assert_eq!(map_throttle(100.0f32.to_bits()), REGISTER_FULL_SCALE);
    assert_eq!(map_throttle(25.0f32.to_bits()), 0x2000);
    assert_eq!(map_throttle(75.0f32.to_bits()), 0x6000);
}

#[test]
fn mapping_rounds_to_nearest() {
    // 0.01 percent of full scale is 3.2768 register steps: rounds down.
    assert_eq!(map_throttle(0.01f32.to_bits()), 3);
    // This percentage is exactly 163.5 register steps: halves round up.
    assert_eq!(map_throttle(0.49896240234375f32.to_bits()), 164);
    // 0.001 percent of full scale is 0.32768 register steps: rounds to zero.
    assert_eq!(map_throttle(0.001f32.to_bits()), 0);
}

#[test]
fn out_of_range_percentages_are_mapped_not_refused() {
    // No clamping of the percentage: above 100 the register value runs on
    // past full scale, saturating only at the register width itself.
    assert_eq!(map_throttle(150.0f32.to_bits()), 0xc000);
    assert_eq!(map_throttle(199.0f32.to_bits()), 0xfeb8);
    assert_eq!(map_throttle(200.0f32.to_bits()), 0xffff);
    assert_eq!(map_throttle(1.0e9f32.to_bits()), 0xffff);
    // Negative percentages (and negative zero) bottom out at zero.
    assert_eq!(map_throttle((-0.0f32).to_bits()), 0);
    assert_eq!(map_throttle((-1.0f32).to_bits()), 0);
    assert_eq!(map_throttle((-1.0e9f32).to_bits()), 0);
}

#[test]
fn every_bit_pattern_is_accepted() {
    assert_eq!(map_throttle(f32::NAN.to_bits()), 0);
    assert_eq!(map_throttle(f32::INFINITY.to_bits()), 0xffff);
    assert_eq!(map_throttle(f32::NEG_INFINITY.to_bits()), 0);
    assert_eq!(map_throttle(f32::MIN_POSITIVE.to_bits()), 0);
    // Subnormals are far below one register step.
    assert_eq!(map_throttle(1), 0);
    assert_eq!(map_throttle(0x007f_ffff), 0);
    assert_eq!(map_throttle(f32::MAX.to_bits()), 0xffff);
}

#[test]
fn mapping_agrees_with_float_reference() {
    // Cross-check against the floating-point definition on a spread of
    // in-range percentages (all are exact enough that rounding agrees).
    for i in 0..=1000u32 {
        let percent = i as f32 / 10.0;
        let reference = (percent as f64 / 100.0 * 0x8000 as f64).round() as u16;
        let got = map_throttle(percent.to_bits());
        assert!(
            (got as i32 - reference as i32).abs() <= 1,
            "percent {percent}: got {got}, reference {reference}"
        );
    }
}
