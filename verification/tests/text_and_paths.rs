use rosemary::images::resize_to_max::{derivative_full_path, derivative_rel_path, file_stem, plan_dims, sort_widths_desc};
use rosemary::text::{decimal_string, parse_u8_decimal, str_eq, str_starts_with};

#[test]
fn decimal_strings() {
    assert_eq!(decimal_string(0), "0");
    assert_eq!(decimal_string(7), "7");
    assert_eq!(decimal_string(320), "320");
    assert_eq!(decimal_string(1024), "1024");
    assert_eq!(decimal_string(4294967295), "4294967295");
}

#[test]
fn string_comparisons() {
    assert!(str_eq("created", "created"));
    assert!(!str_eq("created", "create"));
    assert!(!str_eq("", "a"));
    assert!(str_eq("", ""));
    assert!(str_starts_with("Bearer abc", "Bearer"));
    assert!(!str_starts_with("Bear", "Bearer"));
    assert!(str_starts_with("anything", ""));
}

#[test]
fn parse_small_numbers() {
    assert_eq!(parse_u8_decimal("0"), Some(0));
    assert_eq!(parse_u8_decimal("7"), Some(7));
    assert_eq!(parse_u8_decimal("255"), Some(255));
    assert_eq!(parse_u8_decimal("256"), None);
    assert_eq!(parse_u8_decimal("+42"), Some(42));
    assert_eq!(parse_u8_decimal("+"), None);
    assert_eq!(parse_u8_decimal(""), None);
    assert_eq!(parse_u8_decimal("12a"), None);
    assert_eq!(parse_u8_decimal("00255"), Some(255));
    assert_eq!(parse_u8_decimal("999999999999"), None);
}

#[test]
fn derivative_paths() {
    assert_eq!(derivative_rel_path("photo", 320), "images/photo_320.jpeg");
    assert_eq!(
        derivative_full_path("/srv/static", "photo", 1024),
        "/srv/static/images/photo_1024.jpeg"
    );
}

#[test]
fn file_stems() {
    assert_eq!(file_stem("/uploads/picture.png"), "picture");
    assert_eq!(file_stem("picture.jpeg"), "picture");
    assert_eq!(file_stem("archive.tar.gz"), "archive.tar");
    assert_eq!(file_stem("no_extension"), "no_extension");
    assert_eq!(file_stem(".hidden"), ".hidden");
    assert_eq!(file_stem("dir/"), "");
    assert_eq!(file_stem(""), "");
}

#[test]
fn plans_round_to_nearest() {
    // 2000x1000 landscape: the height follows the half of the breakpoint.
    assert_eq!(plan_dims(2000, 1000, 1024), Some((1024, 512)));
    assert_eq!(plan_dims(2000, 1000, 640), Some((640, 320)));
    assert_eq!(plan_dims(2000, 1000, 320), Some((320, 160)));
    // 3x2 at 2 wide: 2 * 2 / 3 = 1.33 rounds to 1.
    assert_eq!(plan_dims(3, 2, 2), Some((2, 1)));
    // 1000x2000 portrait: the height is constrained instead.
    assert_eq!(plan_dims(1000, 2000, 500), Some((250, 500)));
    // A square constrains the width.
    assert_eq!(plan_dims(100, 100, 10), Some((10, 10)));
    // Nothing can be planned without a breakpoint or without pixels.
    assert_eq!(plan_dims(2000, 1000, 0), None);
    assert_eq!(plan_dims(0, 1000, 10), None);
    // A very wide strip rounds its height to zero: no plan.
    assert_eq!(plan_dims(10000, 1, 100), None);
}

#[test]
fn widths_sort_descending() {
    let sorted = sort_widths_desc(vec![320u32, 1920, 640, 1080]);
    assert_eq!(sorted, vec![1920u32, 1080, 640, 320]);
    let with_duplicates = sort_widths_desc(vec![640u32, 640, 320]);
    assert_eq!(with_duplicates, vec![640u32, 640, 320]);
    let empty = sort_widths_desc(vec![]);
    assert_eq!(empty.len(), 0);
}
