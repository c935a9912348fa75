use augment_split::color_values::ColorValues;

#[test]
fn luma_compare_matches_equal_value() {
    assert!(ColorValues::white_luma().compare([255]));
    assert!(!ColorValues::white_luma().compare([254]));
    assert!(ColorValues::luma([17]).compare([17]));
}

#[test]
fn rgb_never_compares_equal_to_a_luma_pixel() {
    assert!(!ColorValues::white_rgb().compare([255]));
    assert!(!ColorValues::black_rgb().compare([0]));
}

#[test]
fn named_colours_have_their_channels() {
    assert_eq!(ColorValues::black_rgb(), ColorValues::RGB([0, 0, 0]));
    assert_eq!(ColorValues::white_rgb(), ColorValues::RGB([255, 255, 255]));
    assert_eq!(ColorValues::black_luma(), ColorValues::LUMA([0]));
    assert_eq!(ColorValues::white_luma(), ColorValues::LUMA([255]));
    assert_eq!(ColorValues::rgb([1, 2, 3]), ColorValues::RGB([1, 2, 3]));
    assert_eq!(ColorValues::luma([9]), ColorValues::LUMA([9]));
}

#[test]
fn colours_are_equal_by_layout_and_channels() {
    assert_eq!(ColorValues::rgb([1, 2, 3]), ColorValues::rgb([1, 2, 3]));
    assert_ne!(ColorValues::rgb([1, 2, 3]), ColorValues::rgb([1, 2, 4]));
    assert_ne!(ColorValues::rgb([1, 2, 3]), ColorValues::rgb([0, 2, 3]));
    assert_ne!(ColorValues::luma([1]), ColorValues::luma([2]));
    assert_ne!(ColorValues::luma([0]), ColorValues::rgb([0, 0, 0]));
}
