use i2c_master::timing::{Timing, CCR_MASK, MIN_CCR};

fn timing(pclk1: u32, freq: u32) -> Timing {
    Timing::try_new(pclk1, freq).expect("a valid request")
}

#[test]
fn standard_mode_on_8_mhz() {
    let t = Timing::new(8_000_000, 100_000);
    assert_eq!(t.freq_range, 8);
    assert_eq!(t.trise, 9);
    assert_eq!(t.ccr, 40);
}

#[test]
fn standard_mode_on_36_mhz() {
    let t = Timing::new(36_000_000, 100_000);
    assert_eq!(t.freq_range, 36);
    assert_eq!(t.trise, 37);
    assert_eq!(t.ccr, 180);
}

#[test]
fn half_speed_on_8_mhz() {
    let t = Timing::new(8_000_000, 50_000);
    assert_eq!(t.freq_range, 8);
    assert_eq!(t.trise, 9);
    assert_eq!(t.ccr, 80);
}

#[test]
fn fast_mode_uses_the_minimum_divider() {
    let t = Timing::new(36_000_000, 400_000);
    assert_eq!(t.freq_range, 36);
    // 36 * 300 / 1000 + 1
    assert_eq!(t.trise, 11);
    assert_eq!(t.ccr, 4);
}

#[test]
fn fast_mode_begins_above_100_khz() {
    assert_eq!(Timing::new(8_000_000, 100_000).trise, 9);
    // 8 * 300 / 1000 + 1
    assert_eq!(Timing::new(8_000_000, 100_001).trise, 3);
    assert_eq!(Timing::new(8_000_000, 100_001).ccr, 4);
}

#[test]
fn freq_range_rounds_down() {
    assert_eq!(Timing::new(2_999_999, 100_000).freq_range, 2);
    assert_eq!(Timing::new(50_999_999, 100_000).freq_range, 50);
}

#[test]
fn divider_is_kept_to_twelve_bits() {
    // 8_000_000 / (2 * 500) = 8000 = 4096 + 3904
    assert_eq!(Timing::new(8_000_000, 500).ccr, 3904);
    // 8_192_000 / (2 * 1000) = 4096, of which twelve bits keep 0
    assert_eq!(Timing::new(8_192_000, 1000).ccr, 4);
    // 8_190_000 / (2 * 1000) = 4095
    assert_eq!(Timing::new(8_190_000, 1000).ccr, 4095);
}

#[test]
fn try_new_agrees_with_new() {
    assert_eq!(Timing::try_new(8_000_000, 100_000), Some(Timing::new(8_000_000, 100_000)));
    assert_eq!(Timing::try_new(36_000_000, 400_000), Some(Timing::new(36_000_000, 400_000)));
}

#[test]
fn try_new_refuses_a_target_above_1_mhz() {
    assert_eq!(Timing::try_new(8_000_000, 1_000_001), None);
    assert!(Timing::try_new(8_000_000, 1_000_000).is_some());
}

#[test]
fn try_new_refuses_a_target_of_zero() {
    assert_eq!(Timing::try_new(8_000_000, 0), None);
    assert!(Timing::try_new(8_000_000, 1).is_some());
}

#[test]
fn try_new_refuses_a_clock_out_of_range() {
    assert_eq!(Timing::try_new(1_999_999, 100_000), None);
    assert!(Timing::try_new(2_000_000, 100_000).is_some());
    assert!(Timing::try_new(50_999_999, 100_000).is_some());
    assert_eq!(Timing::try_new(51_000_000, 100_000), None);
}

#[test]
fn values_fit_their_fields() {
    let clocks = [2_000_000u32, 2_190_000, 8_000_000, 36_000_000, 50_999_999];
    let targets = [1u32, 17, 500, 1000, 50_000, 100_000, 100_001, 400_000, 1_000_000];
    for &pclk1 in clocks.iter() {
        for &freq in targets.iter() {
            let t = timing(pclk1, freq);
            assert!(2 <= t.freq_range && t.freq_range <= 50);
            assert!(1 <= t.trise && t.trise <= 63);
            assert!(MIN_CCR <= t.ccr && t.ccr <= CCR_MASK);
        }
    }
}

#[test]
fn standard_mode_meets_the_target_within_five_percent() {
    // For each of these the clock is at least forty times the target.
    let requests = [(8_000_000u32, 100_000u32), (36_000_000, 100_000), (8_000_000, 50_000), (4_123_457, 99_999)];
    for &(pclk1, freq) in requests.iter() {
        let t = timing(pclk1, freq);
        let produced = pclk1 as f64 / (2.0 * t.ccr as f64);
        let target = freq as f64;
        assert!((produced - target).abs() <= target * 0.05);
    }
}

#[test]
fn a_slow_clock_can_miss_the_target() {
    // 2_190_000 / 200_000 leaves 190_000 over: the bus runs at 109.5 kHz.
    let t = timing(2_190_000, 100_000);
    assert_eq!(t.ccr, 10);
    let produced = 2_190_000f64 / (2.0 * t.ccr as f64);
    assert!((produced - 100_000.0).abs() > 100_000.0 * 0.05);
}
