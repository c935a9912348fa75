use augment_split::color_values::ColorValues;
use augment_split::raster::{PixelKind, Raster};
use augment_split::ratio::Ratio;
use augment_split::sampling::{foreground_points, oversample_points, sample_amount, select_points};

fn checker_mask() -> Raster {
    // 4 x 4, white where x + y is even
    let mut data = Vec::new();
    for y in 0..4u32 {
        for x in 0..4u32 {
            data.push(if (x + y) % 2 == 0 { 255 } else { 0 });
        }
    }
    Raster::new(4, 4, PixelKind::Luma8, data).unwrap()
}

#[test]
fn foreground_points_lists_matching_pixels_row_by_row() {
    let points = foreground_points(&checker_mask(), &ColorValues::white_luma()).unwrap();
    assert_eq!(points, vec![(0, 0), (2, 0), (1, 1), (3, 1), (0, 2), (2, 2), (1, 3), (3, 3)]);
}

#[test]
fn foreground_points_rejects_a_colour_of_another_layout() {
    assert!(foreground_points(&checker_mask(), &ColorValues::white_rgb()).is_none());
    let rgba = Raster::new(1, 1, PixelKind::Rgba8, vec![0; 4]).unwrap();
    assert!(foreground_points(&rgba, &ColorValues::white_luma()).is_none());
}

#[test]
fn sample_amount_rounds_to_nearest() {
    let two_fifths = Ratio::new(2, 5).unwrap();
    assert_eq!(sample_amount(&two_fifths, 8), 3); // 3.2
    assert_eq!(sample_amount(&two_fifths, 9), 4); // 3.6
    assert_eq!(sample_amount(&Ratio::new(1, 4).unwrap(), 10), 3); // 2.5 rounds up
    assert_eq!(sample_amount(&Ratio::new(1, 4).unwrap(), 9), 2); // 2.25
    assert_eq!(sample_amount(&Ratio::new(0, 1).unwrap(), 9), 0);
}

#[test]
fn sample_amount_never_exceeds_the_candidates() {
    assert_eq!(sample_amount(&Ratio::new(3, 1).unwrap(), 7), 7);
    assert_eq!(sample_amount(&Ratio::new(1, 1).unwrap(), 7), 7);
    assert_eq!(sample_amount(&Ratio::new(u64::MAX, 1).unwrap(), usize::MAX), usize::MAX);
}

#[test]
fn select_points_follows_the_picks() {
    let points = vec![(0, 0), (1, 0), (2, 0)];
    assert_eq!(select_points(&points, &vec![2, 0]), vec![(2, 0), (0, 0)]);
    assert_eq!(select_points(&points, &vec![]), vec![]);
}

#[test]
fn oversample_points_draws_distinct_foreground_pixels() {
    let mask = checker_mask();
    let half = Ratio::new(1, 2).unwrap();
    let drawn = oversample_points(&mask, &ColorValues::white_luma(), &half, 1337).unwrap();
    assert_eq!(drawn.len(), 4);
    for (i, p) in drawn.iter().enumerate() {
        assert_eq!((p.0 + p.1) % 2, 0);
        assert!(p.0 < 4 && p.1 < 4);
        for q in &drawn[i + 1..] {
            assert_ne!(p, q);
        }
    }
}

#[test]
fn oversample_points_is_reproducible_for_a_seed() {
    let mask = checker_mask();
    let half = Ratio::new(1, 2).unwrap();
    let first = oversample_points(&mask, &ColorValues::white_luma(), &half, 1337).unwrap();
    let second = oversample_points(&mask, &ColorValues::white_luma(), &half, 1337).unwrap();
    assert_eq!(first, second);
}

#[test]
fn oversample_points_with_all_candidates_is_a_permutation() {
    let mask = checker_mask();
    let all = Ratio::new(1, 1).unwrap();
    let mut drawn = oversample_points(&mask, &ColorValues::white_luma(), &all, 7).unwrap();
    drawn.sort();
    let mut expected = foreground_points(&mask, &ColorValues::white_luma()).unwrap();
    expected.sort();
    assert_eq!(drawn, expected);
}

#[test]
fn oversample_points_needs_a_comparable_colour() {
    let mask = checker_mask();
    let half = Ratio::new(1, 2).unwrap();
    assert!(oversample_points(&mask, &ColorValues::white_rgb(), &half, 1).is_none());
}
