use rpg_core::strings::u32_to_string;

#[test]
fn single_digits_render_directly() {
    assert_eq!(u32_to_string(0), "0");
    assert_eq!(u32_to_string(7), "7");
}

#[test]
fn multi_digit_values_render_most_significant_first() {
    assert_eq!(u32_to_string(10), "10");
    assert_eq!(u32_to_string(120), "120");
    assert_eq!(u32_to_string(4500), "4500");
    assert_eq!(u32_to_string(1275), "1275");
}

#[test]
fn the_largest_value_renders_exactly() {
    assert_eq!(u32_to_string(u32::MAX), "4294967295");
}
