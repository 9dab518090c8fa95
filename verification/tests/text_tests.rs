use rustcraft::text::{decimal_string, fill_template, format_u32, format_vertices};

#[test]
fn format_u32_doc_example() {
    assert_eq!(String::from("9,000,000"), format_u32(9000000));
}

#[test]
fn format_u32_small_numbers_have_no_comma() {
    assert_eq!(format_u32(7), "7");
    assert_eq!(format_u32(999), "999");
}

#[test]
fn format_u32_pads_groups_after_a_comma() {
    assert_eq!(format_u32(1000), "1,000");
    assert_eq!(format_u32(1005), "1,005");
    assert_eq!(format_u32(12_030_405), "12,030,405");
}

#[test]
fn format_u32_zero_is_a_single_digit() {
    assert_eq!(format_u32(0), "0");
}

#[test]
fn format_u32_largest_value() {
    assert_eq!(format_u32(u32::MAX), "4,294,967,295");
}

#[test]
fn format_u32_without_commas_is_decimal() {
    for n in [0u32, 1, 10, 999, 1000, 65_536, 1_000_001, 123_456_789, u32::MAX] {
        assert_eq!(format_u32(n).replace(',', ""), n.to_string());
    }
}

#[test]
fn format_vertices_does_not_pad_groups() {
    assert_eq!(format_vertices(1005), "1,5");
    assert_eq!(format_vertices(1_000_005), "1,0,5");
    assert_eq!(format_vertices(1_234_567), "1,234,567");
    assert_eq!(format_vertices(42), "42");
    assert_eq!(format_vertices(0), "");
}

#[test]
fn decimal_string_matches_display() {
    for n in [0u64, 9, 10, 1234, u64::MAX] {
        assert_eq!(decimal_string(n), n.to_string());
    }
}

#[test]
fn fill_template_replaces_every_placeholder() {
    assert_eq!(fill_template("{} FPS ", "60"), "60 FPS ");
    assert_eq!(fill_template("X: {}", "1.5"), "X: 1.5");
    assert_eq!(fill_template("{}/{}", "a"), "a/a");
    assert_eq!(fill_template("no placeholder", "a"), "no placeholder");
    assert_eq!(fill_template("{{}}", "x"), "{x}");
}
