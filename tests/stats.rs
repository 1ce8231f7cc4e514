use tasklite::stats::{memory_usage_ppm, SystemStats};

#[test]
fn zero_total_memory_gives_zero_percent() {
    let s = SystemStats::from_readings(0, 123_456_789, 0);
    assert_eq!(s.memory_usage_ppm, 0);
    assert_eq!(s.memory_used_bytes, 123_456_789);
    assert_eq!(s.memory_total_bytes, 0);
}

#[test]
fn quarter_of_memory_in_use() {
    let s = SystemStats::from_readings(50.0f32.to_bits(), 1 << 30, 4 << 30);
    assert_eq!(s.memory_usage_ppm, 250_000);
    assert_eq!(f32::from_bits(s.cpu_usage_bits), 50.0);
}

#[test]
fn usage_matches_float_formula() {
    let used: u64 = 6_123_456_789;
    let total: u64 = 16_000_000_000;
    let ppm = memory_usage_ppm(used, total);
    let expected = used as f64 / total as f64 * 100.0;
    let got = ppm as f64 / 10_000.0;
    assert!((got - expected).abs() < 1e-4);
    assert_eq!(ppm, 382_716);
}

#[test]
fn usage_rounds_down() {
    assert_eq!(memory_usage_ppm(1, 3), 333_333);
    assert_eq!(memory_usage_ppm(2, 3), 666_666);
}

#[test]
fn largest_readings_do_not_overflow() {
    assert_eq!(memory_usage_ppm(u64::MAX, u64::MAX), 1_000_000);
    assert_eq!(memory_usage_ppm(u64::MAX, 1), u64::MAX as u128 * 1_000_000);
    assert_eq!(memory_usage_ppm(0, u64::MAX), 0);
}
