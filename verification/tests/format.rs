use block_stats::format_generic;

#[test]
fn formats_magnitudes() {
    assert_eq!(format_generic(999), "999");
    assert_eq!(format_generic(1000), "1.0K");
    assert_eq!(format_generic(1_500_000), "1.5M");
    assert_eq!(format_generic(2_000_000_000), "2.0B");
}

#[test]
fn small_values_are_written_as_they_are() {
    assert_eq!(format_generic(0), "0");
    assert_eq!(format_generic(7), "7");
    assert_eq!(format_generic(42), "42");
}

#[test]
fn the_unit_goes_by_the_value_before_rounding() {
    assert_eq!(format_generic(999_999), "1000.0K");
    assert_eq!(format_generic(1_000_000), "1.0M");
    assert_eq!(format_generic(999_999_999), "1000.0M");
    assert_eq!(format_generic(1_000_000_000), "1.0B");
}

#[test]
fn tenths_are_rounded_to_the_nearest() {
    assert_eq!(format_generic(1_049), "1.0K");
    assert_eq!(format_generic(1_050), "1.1K");
    assert_eq!(format_generic(1_949), "1.9K");
    assert_eq!(format_generic(1_950), "2.0K");
    assert_eq!(format_generic(523_294), "523.3K");
    assert_eq!(format_generic(15_000_000), "15.0M");
    assert_eq!(format_generic(30_000_000), "30.0M");
}

#[test]
fn quantities_beyond_32_bits_are_not_cut() {
    assert_eq!(format_generic(5_000_000_000), "5.0B");
    assert_eq!(format_generic(u64::MAX), "18446744073.7B");
}
