use acolor::ulps::{ulps_apart, within_ulps, DEFAULT_MAX_ULPS};

#[test]
fn default_tolerance_is_four() {
    assert_eq!(DEFAULT_MAX_ULPS, 4);
}

#[test]
fn distance_is_the_absolute_difference() {
    assert_eq!(ulps_apart(10, 10), 0);
    assert_eq!(ulps_apart(10, 13), 3);
    assert_eq!(ulps_apart(13, 10), 3);
    assert_eq!(ulps_apart(0, u32::MAX), u32::MAX);
    assert_eq!(ulps_apart(u32::MAX, 0), u32::MAX);
}

#[test]
fn distance_between_neighbouring_floats_is_one() {
    let x = 0.1f32.to_bits();
    let next = f32::from_bits(x + 1);
    assert!(next > 0.1f32);
    assert_eq!(ulps_apart(x, next.to_bits()), 1);
    assert_eq!(ulps_apart(1.0f32.to_bits(), 1.0f32.to_bits()), 0);
}

#[test]
fn every_channel_has_to_be_within_the_tolerance() {
    let s = [100u32, 200, 300, 400];
    assert!(within_ulps(&s, &s, 0));
    assert!(within_ulps(&s, &[104, 196, 300, 404], 4));
    assert!(!within_ulps(&s, &[105, 200, 300, 400], 4));
    assert!(!within_ulps(&s, &[100, 195, 300, 400], 4));
    assert!(!within_ulps(&s, &[100, 200, 305, 400], 4));
    assert!(!within_ulps(&s, &[100, 200, 300, 405], 4));
}

#[test]
fn alpha_counts_as_a_channel() {
    let s = [1u32, 2, 3, 1000];
    let o = [1u32, 2, 3, 2000];
    assert!(!within_ulps(&s, &o, DEFAULT_MAX_ULPS));
    assert!(within_ulps(&s, &o, 1000));
    assert!(!within_ulps(&s, &o, 999));
}

#[test]
fn tolerance_is_symmetric_and_widens() {
    let s = [0u32, 10, u32::MAX, 7];
    let o = [3u32, 7, u32::MAX - 3, 10];
    assert!(within_ulps(&s, &o, 3));
    assert!(within_ulps(&o, &s, 3));
    assert!(within_ulps(&s, &o, u32::MAX));
    assert!(!within_ulps(&s, &o, 2));
    assert!(!within_ulps(&o, &s, 2));
}
