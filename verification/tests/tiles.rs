use augment_split::label::Label;
use augment_split::raster::{PixelKind, Raster};
use augment_split::split_image::{clone_raster, turn_raster, SplitImage};

fn gray_raster(width: u32, height: u32, data: Vec<u8>) -> Raster {
    Raster::new(width, height, PixelKind::Luma8, data).unwrap()
}

fn sample_tile() -> SplitImage {
    let real = Raster::new(2, 1, PixelKind::Rgb8, vec![1, 2, 3, 4, 5, 6]).unwrap();
    let mask = gray_raster(2, 1, vec![0, 255]);
    SplitImage::new(&String::from("a.png"), real, mask, Label::Sick, (2, 1), 0, 10, 20)
}

#[test]
fn new_tile_carries_everything() {
    let t = sample_tile();
    assert_eq!(t.get_name(), "a.png");
    assert_eq!((t.get_x_dim(), t.get_y_dim()), (2, 1));
    assert_eq!((t.get_x_offset(), t.get_y_offset()), (10, 20));
    assert_eq!(t.get_rotation(), 0);
    assert_eq!(t.get_label(), Some(Label::Sick));
    assert_eq!(t.get_real().as_ref().unwrap().samples(), &vec![1, 2, 3, 4, 5, 6]);
    assert_eq!(t.get_mask().as_ref().unwrap().samples(), &vec![0, 255]);
}

#[test]
fn built_tile_is_empty() {
    let t = SplitImage::build(&String::from("b.tif"), 50, 40, 2, 3, 4);
    assert_eq!(t.get_name(), "b.tif");
    assert_eq!((t.get_x_dim(), t.get_y_dim()), (50, 40));
    assert_eq!((t.get_x_offset(), t.get_y_offset()), (3, 4));
    assert_eq!(t.get_rotation(), 2);
    assert!(t.get_real().is_none());
    assert!(t.get_mask().is_none());
    assert_eq!(t.get_label(), None);
}

#[test]
fn setters_replace_one_part() {
    let mut t = SplitImage::build(&String::from("b.tif"), 1, 1, 0, 0, 0);
    t.set_real(gray_raster(1, 1, vec![7]));
    assert_eq!(t.get_real().as_ref().unwrap().samples(), &vec![7]);
    assert!(t.get_mask().is_none());
    t.set_mask(gray_raster(1, 1, vec![8]));
    assert_eq!(t.get_mask().as_ref().unwrap().samples(), &vec![8]);
    assert_eq!(t.get_real().as_ref().unwrap().samples(), &vec![7]);
    t.set_rotation(3);
    assert_eq!(t.get_rotation(), 3);
    assert_eq!(t.get_name(), "b.tif");
}

#[test]
fn describe_tells_source_and_offset() {
    assert_eq!(sample_tile().describe(), "a.png\nx: 10, y: 20\n");
}

#[test]
fn clone_copies_the_tile() {
    let t = sample_tile();
    let c = t.clone();
    assert_eq!(c.get_name(), t.get_name());
    assert_eq!(c.get_real().as_ref().unwrap().samples(), t.get_real().as_ref().unwrap().samples());
    assert_eq!(c.get_mask().as_ref().unwrap().samples(), t.get_mask().as_ref().unwrap().samples());
    assert_eq!(c.get_label(), t.get_label());
    assert_eq!(c.get_rotation(), t.get_rotation());
}

#[test]
fn rotated_turns_both_rasters_and_stamps_the_index() {
    let t = sample_tile().rotated(1);
    assert_eq!(t.get_rotation(), 1);
    let real = t.get_real().as_ref().unwrap();
    assert_eq!(real.dimensions(), (1, 2));
    assert_eq!(real.samples(), &vec![1, 2, 3, 4, 5, 6]);
    let mask = t.get_mask().as_ref().unwrap();
    assert_eq!(mask.dimensions(), (1, 2));
    assert_eq!(mask.samples(), &vec![0, 255]);
    let h = sample_tile().rotated(2);
    assert_eq!(h.get_rotation(), 2);
    assert_eq!(h.get_real().as_ref().unwrap().samples(), &vec![4, 5, 6, 1, 2, 3]);
    assert_eq!(h.get_mask().as_ref().unwrap().samples(), &vec![255, 0]);
    // the geometry of the crop in its source stays
    assert_eq!((h.get_x_offset(), h.get_y_offset()), (10, 20));
    assert_eq!((h.get_x_dim(), h.get_y_dim()), (2, 1));
    assert_eq!(h.get_label(), Some(Label::Sick));
}

#[test]
fn rotations_add_up_modulo_four() {
    let t = sample_tile().rotated(3).rotated(3);
    assert_eq!(t.get_rotation(), 2);
    assert_eq!(t.get_real().as_ref().unwrap().samples(), &vec![4, 5, 6, 1, 2, 3]);
    let back = sample_tile().rotated(1).rotated(1).rotated(1).rotated(1);
    assert_eq!(back.get_rotation(), 0);
    assert_eq!(back.get_real().as_ref().unwrap().dimensions(), (2, 1));
    assert_eq!(back.get_real().as_ref().unwrap().samples(), &vec![1, 2, 3, 4, 5, 6]);
    assert_eq!(sample_tile().rotated(4).get_rotation(), 0);
    assert_eq!(sample_tile().rotated(7).get_rotation(), 3);
}

#[test]
fn rotated_turns_a_raster_that_stands_alone() {
    let mut t = SplitImage::build(&String::from("b.tif"), 2, 1, 0, 0, 0);
    t.set_mask(gray_raster(2, 1, vec![1, 2]));
    let r = t.rotated(2);
    assert!(r.get_real().is_none());
    assert_eq!(r.get_mask().as_ref().unwrap().samples(), &vec![2, 1]);
}

#[test]
fn draws_select_the_rotation() {
    assert!(sample_tile().rotated_by_draws(40, 1).is_none());
    assert!(sample_tile().rotated_by_draws(99, 0).is_none());
    assert!(sample_tile().rotated_by_draws(0, 3).is_none());
    assert!(sample_tile().rotated_by_draws(39, 4).is_none());
    for pick in 0..3u32 {
        let t = sample_tile().rotated_by_draws(39, pick).unwrap();
        assert_eq!(t.get_rotation() as u32, pick + 1);
    }
    let t = sample_tile().rotated_by_draws(0, 1).unwrap();
    assert_eq!(t.get_rotation(), 2);
    assert_eq!(t.get_real().as_ref().unwrap().samples(), &vec![4, 5, 6, 1, 2, 3]);
}

#[test]
fn random_rotation_is_reproducible_and_balanced() {
    let mut by_index = [0usize; 4];
    for seed in 0..2000u64 {
        let first = sample_tile().random_rotation(seed).map(|t| t.get_rotation());
        let second = sample_tile().random_rotation(seed).map(|t| t.get_rotation());
        assert_eq!(first, second);
        match first {
            None => by_index[0] += 1,
            Some(r) => {
                assert!((1..=3).contains(&r));
                by_index[r as usize] += 1;
            }
        }
    }
    // four tiles of ten get a variant, each rotation equally often
    let rotated = 2000 - by_index[0];
    assert!(rotated > 700 && rotated < 900);
    for r in 1..=3 {
        assert!(by_index[r] > 200 && by_index[r] < 340);
    }
}

#[test]
fn random_rotation_at_the_largest_seed() {
    let a = sample_tile().random_rotation(u64::MAX).map(|t| t.get_rotation());
    let b = sample_tile().random_rotation(u64::MAX).map(|t| t.get_rotation());
    assert_eq!(a, b);
}

#[test]
fn helpers_for_rasters_that_may_be_absent() {
    assert!(clone_raster(&None).is_none());
    assert!(turn_raster(&None, 1).is_none());
    let r = Some(gray_raster(2, 1, vec![1, 2]));
    assert_eq!(clone_raster(&r).unwrap().samples(), &vec![1, 2]);
    assert_eq!(turn_raster(&r, 0).unwrap().samples(), &vec![1, 2]);
    assert_eq!(turn_raster(&r, 2).unwrap().samples(), &vec![2, 1]);
    assert_eq!(turn_raster(&r, 6).unwrap().samples(), &vec![2, 1]);
    assert_eq!(turn_raster(&r, 3).unwrap().dimensions(), (1, 2));
}
