use memory_size_type::{Byte, SizeError, Unit, BYTES_IN_ONE_TEBIBYTE};

#[test]
fn printing_bytes_works_correctly() {
    let bytes_lower_limit = Byte::from(0);
    let bytes_middle = Byte::from(500);
    let bytes_upper_limit = Byte::from(999);

    assert_eq!(bytes_lower_limit.get_string_representation(), "0 B");
    assert_eq!(bytes_middle.get_string_representation(), "500 B");
    assert_eq!(bytes_upper_limit.get_string_representation(), "999 B");
}

#[test]
fn printing_kibibytes_works_correctly() {
    let kbytes_lower_limit = Byte::from(1_000);
    let kbytes_middle = Byte::from(500_000);
    let kbytes_upper_limit = Byte::from(999_999);

    assert_eq!(kbytes_lower_limit.get_string_representation(), "1 KiB");
    assert_eq!(kbytes_middle.get_string_representation(), "500 KiB");
    assert_eq!(kbytes_upper_limit.get_string_representation(), "999.999 KiB");
}

#[test]
fn printing_mebibytes_works_correctly() {
    let mbytes_lower_limit = Byte::from(1_000_000);
    let mbytes_middle = Byte::from(500_000_000);
    let mbytes_upper_limit = Byte::from(999_999_999);

    assert_eq!(mbytes_lower_limit.get_string_representation(), "1 MiB");
    assert_eq!(mbytes_middle.get_string_representation(), "500 MiB");
    assert_eq!(mbytes_upper_limit.get_string_representation(), "999.999999 MiB");
}

#[test]
fn printing_gibibytes_works_correctly() {
    let gbytes_lower_limit = Byte::from(1_000_000_000);
    let gbytes_middle = Byte::from(500_000_000_000);
    let gbytes_upper_limit = Byte::from(999_999_999_999);

    assert_eq!(gbytes_lower_limit.get_string_representation(), "1 GiB");
    assert_eq!(gbytes_middle.get_string_representation(), "500 GiB");
    assert_eq!(gbytes_upper_limit.get_string_representation(), "999.999999999 GiB");
}

#[test]
fn fractions_drop_trailing_zeros() {
    assert_eq!(Byte::construct(1_100).get_string_representation(), "1.1 KiB");
    assert_eq!(Byte::construct(1_050).get_string_representation(), "1.05 KiB");
    assert_eq!(Byte::construct(1_005).get_string_representation(), "1.005 KiB");
    assert_eq!(Byte::construct(2_000_500_000).get_string_representation(), "2.0005 GiB");
}

#[test]
fn formatting_decimal_ladder_scenario() {
    assert_eq!(Byte::construct(8123).get_string_representation(), "8.123 KiB");
}

#[test]
fn formatting_twice_yields_identical_text() {
    let size = Byte::construct(8123);
    assert_eq!(size.get_string_representation(), size.get_string_representation());
    let zero = Byte::construct(0);
    assert_eq!(zero.format().unwrap(), zero.format().unwrap());
}

#[test]
fn formatting_promotes_exactly_at_unit_boundaries() {
    assert_eq!(Byte::construct(999).get_string_representation(), "999 B");
    assert_eq!(Byte::construct(1_000).get_string_representation(), "1 KiB");
    assert_eq!(Byte::construct(999_999).get_string_representation(), "999.999 KiB");
    assert_eq!(Byte::construct(1_000_000).get_string_representation(), "1 MiB");
    assert_eq!(Byte::construct(999_999_999).get_string_representation(), "999.999999 MiB");
    assert_eq!(Byte::construct(1_000_000_000).get_string_representation(), "1 GiB");
}

#[test]
fn formatting_zero_stays_in_the_byte_unit() {
    assert_eq!(Byte::construct(0).format().unwrap(), "0 B");
}

#[test]
fn formatting_above_the_ladder_reports_unsupported_range() {
    let just_below = Byte::construct(BYTES_IN_ONE_TEBIBYTE - 1);
    assert_eq!(just_below.format().unwrap(), "999.999999999 GiB");

    let at_limit = Byte::construct(BYTES_IN_ONE_TEBIBYTE);
    assert_eq!(at_limit.format(), Err(SizeError::UnsupportedRange));

    let far_above = Byte::construct(u64::MAX);
    assert_eq!(far_above.format(), Err(SizeError::UnsupportedRange));
}

#[test]
fn one_kibibyte_formats_with_a_single_unit_word() {
    let one = Byte::construct_from_unit(1, Unit::Kibibyte).unwrap();
    let text = one.format().unwrap();
    assert_eq!(text, "1 KiB");
    assert_eq!(text.matches("KiB").count(), 1);
}

#[test]
fn as_unit_takes_the_floor() {
    let size = Byte::construct(2_500);
    assert_eq!(size.as_unit(Unit::Byte), 2_500);
    assert_eq!(size.as_unit(Unit::Kibibyte), 2);
    assert_eq!(size.as_unit(Unit::Mebibyte), 0);

    let small = Byte::construct(999);
    assert_eq!(small.as_unit(Unit::Kibibyte), 0);
}

#[test]
fn binary_count_scenario() {
    let size = Byte::construct(13 * 1024 * 1024);
    assert_eq!(size.as_bytes(), 13_631_488);
    assert_eq!(size.as_unit(Unit::Mebibyte), 13);
}

#[test]
fn construct_wraps_the_count_verbatim() {
    assert_eq!(Byte::construct(0).as_bytes(), 0);
    assert_eq!(Byte::construct(u64::MAX).as_bytes(), u64::MAX);
    assert_eq!(Byte::from(500).as_bytes(), 500);

    let alias: memory_size_type::Bytes = Byte::construct(7);
    assert_eq!(alias.as_bytes(), 7);
}

#[test]
fn construct_from_unit_round_trips() {
    let seven = Byte::construct_from_unit(7, Unit::Mebibyte).unwrap();
    assert_eq!(seven.as_bytes(), 7_000_000);
    assert_eq!(seven.as_unit(Unit::Mebibyte), 7);

    let zero = Byte::construct_from_unit(0, Unit::Gibibyte).unwrap();
    assert_eq!(zero.as_bytes(), 0);

    let max_in_bytes = Byte::construct_from_unit(u64::MAX, Unit::Byte).unwrap();
    assert_eq!(max_in_bytes.as_bytes(), u64::MAX);
}

#[test]
fn construct_from_unit_reports_overflow() {
    let too_big = Byte::construct_from_unit(u64::MAX, Unit::Gibibyte);
    assert_eq!(too_big, Err(SizeError::Overflow));

    let barely_too_big = Byte::construct_from_unit(u64::MAX / 1_000 + 1, Unit::Kibibyte);
    assert_eq!(barely_too_big, Err(SizeError::Overflow));

    let barely_fits = Byte::construct_from_unit(u64::MAX / 1_000, Unit::Kibibyte);
    assert!(barely_fits.is_ok());
}

#[test]
fn the_unit_ladder_is_consistent() {
    assert_eq!(Unit::Byte.bytes_per_unit(), 1);
    assert_eq!(Unit::Kibibyte.bytes_per_unit(), 1_000);
    assert_eq!(Unit::Mebibyte.bytes_per_unit(), 1_000_000);
    assert_eq!(Unit::Gibibyte.bytes_per_unit(), 1_000_000_000);
    assert_eq!(Unit::Tebibyte.bytes_per_unit(), 1_000_000_000_000);
}
