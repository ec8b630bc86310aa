use nu_plugin_rpm::text::{decimal_string, join_strings, signed_decimal_string};
use nu_plugin_rpm::time::{instant_or_epoch_of, to_instant, to_signed};

#[test]
fn decimal_of_small_and_large_numbers() {
    assert_eq!(decimal_string(0), "0");
    assert_eq!(decimal_string(7), "7");
    assert_eq!(decimal_string(10), "10");
    assert_eq!(decimal_string(1_203_405), "1203405");
    assert_eq!(decimal_string(u64::MAX), "18446744073709551615");
}

#[test]
fn signed_decimal_has_a_sign_only_for_negatives() {
    assert_eq!(signed_decimal_string(0), "0");
    assert_eq!(signed_decimal_string(42), "42");
    assert_eq!(signed_decimal_string(-42), "-42");
    assert_eq!(signed_decimal_string(i64::MIN), "-9223372036854775808");
    assert_eq!(signed_decimal_string(i64::MAX), "9223372036854775807");
}

#[test]
fn decimal_agrees_with_the_standard_rendering() {
    let samples: [i64; 6] = [0, 9, -9, 100, -65536, 2_147_483_647];
    for n in samples {
        assert_eq!(signed_decimal_string(n), n.to_string());
    }
}

#[test]
fn join_of_none_one_and_many() {
    assert_eq!(join_strings(&vec![], " | "), "");
    assert_eq!(join_strings(&vec!["A".to_string()], " | "), "A");
    assert_eq!(join_strings(&vec!["A".to_string(), "B".to_string(), "C".to_string()], " | "), "A | B | C");
    assert_eq!(join_strings(&vec!["".to_string(), "".to_string()], ","), ",");
}

#[test]
fn instants_with_a_calendar_date_are_kept() {
    assert_eq!(to_instant(0), 0);
    assert_eq!(to_instant(1_431_648_000), 1_431_648_000);
    assert_eq!(to_instant(-1), -1);
    assert_eq!(to_instant(8_210_266_876_799), 8_210_266_876_799);
}

#[test]
fn instants_without_a_calendar_date_become_the_epoch() {
    assert_eq!(to_instant(i64::MAX), 0);
    assert_eq!(to_instant(i64::MIN), 0);
    assert_eq!(to_instant(8_210_266_876_800), 0);
}

#[test]
fn unsigned_is_read_as_signed_bit_for_bit() {
    assert_eq!(to_signed(0), 0);
    assert_eq!(to_signed(i64::MAX as u64), i64::MAX);
    assert_eq!(to_signed((i64::MAX as u64) + 1), i64::MIN);
    assert_eq!(to_signed(u64::MAX), -1);
    assert_eq!(to_signed(u64::MAX - 41), -42);
}

#[test]
fn found_instant_is_kept_and_a_missing_one_is_the_epoch() {
    assert_eq!(instant_or_epoch_of(Some(1_431_648_000)), 1_431_648_000);
    assert_eq!(instant_or_epoch_of(Some(-5)), -5);
    assert_eq!(instant_or_epoch_of(Some(0)), 0);
    assert_eq!(instant_or_epoch_of(None), 0);
}

#[test]
fn every_unsigned_32_bit_count_is_kept() {
    assert_eq!(to_instant(0), 0);
    assert_eq!(to_instant(1), 1);
    assert_eq!(to_instant(0x7fff_ffff), 0x7fff_ffff);
    assert_eq!(to_instant(0x8000_0000), 0x8000_0000);
    assert_eq!(to_instant(0xffff_ffff), 0xffff_ffff);
}
