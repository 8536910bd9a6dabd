use ema::counter::is_valid_width;
use ema::counter::max_value_for_width;
use ema::counter::reading_fits;
use ema::counter::wrap_corrected_subtract;

#[test]
fn delta_without_wrap_is_plain_difference() {
    assert_eq!(wrap_corrected_subtract(150, 100, 32), 50);
    assert_eq!(wrap_corrected_subtract(100, 100, 32), 0);
    assert_eq!(wrap_corrected_subtract(u64::MAX, 0, 64), u64::MAX);
}

#[test]
fn delta_with_wrap_on_eight_bits() {
    // 250 -> 255 -> 0 -> 5: eleven steps on a counter with 256 values.
    assert_eq!(wrap_corrected_subtract(5, 250, 8), 11);
    assert_eq!(wrap_corrected_subtract(0, 255, 8), 1);
    assert_eq!(wrap_corrected_subtract(0, 1, 8), 255);
}

#[test]
fn delta_with_wrap_on_thirty_two_bits() {
    assert_eq!(wrap_corrected_subtract(10, 4_294_967_290, 32), 16);
    assert_eq!(wrap_corrected_subtract(0, 4_294_967_295, 32), 1);
}

#[test]
fn delta_with_wrap_on_full_width() {
    assert_eq!(wrap_corrected_subtract(4, u64::MAX - 5, 64), 10);
    assert_eq!(wrap_corrected_subtract(0, u64::MAX, 64), 1);
}

#[test]
fn delta_on_one_bit_counter() {
    assert_eq!(wrap_corrected_subtract(0, 1, 1), 1);
    assert_eq!(wrap_corrected_subtract(1, 0, 1), 1);
    assert_eq!(wrap_corrected_subtract(1, 1, 1), 0);
}

#[test]
fn delta_matches_formula_on_all_four_bit_pairs() {
    for snapshot in 0u64..16 {
        for current in 0u64..16 {
            let expected = if current >= snapshot { current - snapshot } else { 16 - snapshot + current };
            assert_eq!(wrap_corrected_subtract(current, snapshot, 4), expected);
        }
    }
}

#[test]
fn max_value_per_width() {
    assert_eq!(max_value_for_width(1), 1);
    assert_eq!(max_value_for_width(8), 255);
    assert_eq!(max_value_for_width(32), 4_294_967_295);
    assert_eq!(max_value_for_width(63), 9_223_372_036_854_775_807);
    assert_eq!(max_value_for_width(64), u64::MAX);
}

#[test]
fn width_validity_bounds() {
    assert!(!is_valid_width(0));
    assert!(is_valid_width(1));
    assert!(is_valid_width(64));
    assert!(!is_valid_width(65));
}

#[test]
fn reading_fits_its_width() {
    assert!(reading_fits(255, 8));
    assert!(!reading_fits(256, 8));
    assert!(reading_fits(u64::MAX, 64));
    assert!(!reading_fits(2, 1));
}
