use augment_split::augment_split::{resolve_stride, AugmentSplit, ImageKind, RotationMode};
use augment_split::img_reader::{ImagePair, LabelType};
use augment_split::label::{Label, LabelScheme};
use augment_split::classifier::Split;
use augment_split::output::{code_mask, manifest_for, TileFile};
use augment_split::raster::{PixelKind, Raster};
use augment_split::ratio::Ratio;
use augment_split::return_type::{encode_samples, ImgFormat, ImgLayout, RasterFormat, ReturnType};
use augment_split::seeds::{derive_seed, OVERSAMPLE_SEED, SPLIT_SEED};
use augment_split::split_image::SplitImage;
use augment_split::split_offset::{SplitOffset, DEFAULT_OFFSET};
use augment_split::color_values::ColorValues;

fn gray(width: u32, height: u32, data: Vec<u8>) -> Raster {
    Raster::new(width, height, PixelKind::Luma8, data).unwrap()
}

fn output_config(rotation: RotationMode, masks: bool) -> AugmentSplit {
    AugmentSplit::build(
        String::from("data/images"),
        LabelType::FileName,
        Some((2, 1)),
        (Some(SplitOffset::Random), None),
        ImgFormat::Img(RasterFormat::Tiff),
        None,
        rotation,
        String::from("out/real"),
        if masks { Some(String::from("out/mask")) } else { None },
    )
}

fn labelled_tile(label: Label) -> SplitImage {
    let real = Raster::new(2, 1, PixelKind::Rgb8, vec![1, 2, 3, 4, 5, 6]).unwrap();
    SplitImage::new(&String::from("a.png"), real, gray(2, 1, vec![0, 9]), label, (2, 1), 0, 3, 4)
}

#[test]
fn mask_coding_by_label() {
    let mask = gray(3, 1, vec![0, 1, 255]);
    let three = LabelScheme::ThreeClass;
    assert_eq!(code_mask(&mask, Some(Label::Sick), three).samples(), &vec![0, 255, 255]);
    assert_eq!(code_mask(&mask, Some(Label::Fuzzy), three).samples(), &vec![0, 127, 127]);
    assert_eq!(code_mask(&mask, Some(Label::Healthy), three).samples(), &vec![0, 0, 0]);
    assert_eq!(code_mask(&mask, None, three).samples(), &vec![0, 0, 0]);
    let two = LabelScheme::TwoClass;
    assert_eq!(code_mask(&mask, Some(Label::Sick), two).samples(), &vec![0, 1, 1]);
    assert_eq!(code_mask(&mask, Some(Label::Fuzzy), two).samples(), &vec![0, 0, 0]);
    assert_eq!(code_mask(&mask, Some(Label::Healthy), two).samples(), &vec![0, 0, 0]);
    assert_eq!(code_mask(&mask, None, two).samples(), &vec![0, 0, 0]);
    let coded = code_mask(&mask, Some(Label::Sick), three);
    assert_eq!(coded.dimensions(), (3, 1));
    assert_eq!(coded.kind(), PixelKind::Luma8);
}

#[test]
fn tile_files_are_the_real_and_the_coded_mask() {
    let cfg = output_config(RotationMode::Fixed(0), true);
    let mut files = Vec::new();
    cfg.tile_files(&labelled_tile(Label::Fuzzy), &mut files);
    assert_eq!(files.len(), 2);
    assert_eq!(files[0].kind, ImageKind::Real);
    assert_eq!(files[0].name, "a_3_4_000deg_Fuzzy.tif");
    assert_eq!(files[0].raster.samples(), &vec![1, 2, 3, 4, 5, 6]);
    assert_eq!(files[1].kind, ImageKind::Mask);
    assert_eq!(files[1].name, "a_3_4_000deg_Fuzzy.tif");
    assert_eq!(files[1].raster.samples(), &vec![0, 127]);
}

#[test]
fn tile_files_write_binary_masks_for_two_classes() {
    let mut cfg = output_config(RotationMode::Fixed(0), true);
    assert_eq!(cfg.get_label_scheme(), LabelScheme::ThreeClass);
    cfg.set_label_scheme(LabelScheme::TwoClass);
    assert_eq!(cfg.get_label_scheme(), LabelScheme::TwoClass);
    let mut files = Vec::new();
    cfg.tile_files(&labelled_tile(Label::Sick), &mut files);
    assert_eq!(files[1].raster.samples(), &vec![0, 1]);
}

#[test]
fn tile_files_without_mask_output_leave_the_mask_out() {
    let cfg = output_config(RotationMode::Fixed(0), false);
    let mut files = Vec::new();
    cfg.tile_files(&labelled_tile(Label::Sick), &mut files);
    assert_eq!(files.len(), 1);
    assert_eq!(files[0].kind, ImageKind::Real);
}

#[test]
fn tile_files_skip_rasters_of_other_layouts() {
    let cfg = output_config(RotationMode::Fixed(0), true);
    let mut t = labelled_tile(Label::Sick);
    t.set_real(gray(2, 1, vec![1, 2]));
    t.set_mask(Raster::new(1, 1, PixelKind::Rgb8, vec![1, 2, 3]).unwrap());
    let mut files = Vec::new();
    cfg.tile_files(&t, &mut files);
    assert!(files.is_empty());
    let empty = SplitImage::build(&String::from("a.png"), 2, 1, 0, 0, 0);
    cfg.tile_files(&empty, &mut files);
    assert!(files.is_empty());
}

#[test]
fn tile_files_need_a_label_for_the_real_file() {
    let cfg = output_config(RotationMode::Fixed(0), true);
    let mut t = labelled_tile(Label::Sick);
    t.label = None;
    let mut files = Vec::new();
    cfg.tile_files(&t, &mut files);
    assert_eq!(files.len(), 1);
    assert_eq!(files[0].kind, ImageKind::Mask);
    assert_eq!(files[0].name, "a_3_4_000deg.tif");
    assert_eq!(files[0].raster.samples(), &vec![0, 0]);
}

#[test]
fn tile_files_append_to_what_is_there() {
    let cfg = output_config(RotationMode::Fixed(0), false);
    let mut files = Vec::new();
    cfg.tile_files(&labelled_tile(Label::Sick), &mut files);
    cfg.tile_files(&labelled_tile(Label::Healthy), &mut files);
    assert_eq!(files.len(), 2);
    assert_eq!(files[0].name, "a_3_4_000deg_Sick.tif");
    assert_eq!(files[1].name, "a_3_4_000deg_Healthy.tif");
}

#[test]
fn save_emits_the_fixed_rotations_in_order() {
    let cfg = output_config(RotationMode::Fixed(2), false);
    let mut files = Vec::new();
    cfg.save(labelled_tile(Label::Sick), 0, &mut files);
    let names: Vec<&str> = files.iter().map(|f| f.name.as_str()).collect();
    assert_eq!(names, vec!["a_3_4_000deg_Sick.tif", "a_3_4_090deg_Sick.tif", "a_3_4_180deg_Sick.tif"]);
    assert_eq!(files[2].raster.samples(), &vec![4, 5, 6, 1, 2, 3]);
}

#[test]
fn save_in_stochastic_mode_follows_the_draw() {
    let cfg = output_config(RotationMode::Stochastic, false);
    for seed in 0..50u64 {
        let mut files = Vec::new();
        cfg.save(labelled_tile(Label::Sick), seed, &mut files);
        let expected = labelled_tile(Label::Sick).random_rotation(seed);
        assert_eq!(files.len(), 1 + expected.is_some() as usize);
        if let Some(v) = expected {
            assert_eq!(files[1].name, cfg.create_name(&v));
            assert_eq!(files[1].raster.samples(), v.get_real().as_ref().unwrap().samples());
        }
    }
}

#[test]
fn create_name_uses_the_configured_format() {
    let cfg = output_config(RotationMode::Fixed(0), false);
    assert_eq!(cfg.create_name(&labelled_tile(Label::Healthy)), "a_3_4_000deg_Healthy.tif");
    assert_eq!(cfg.create_name(&labelled_tile(Label::Healthy).rotated(3)), "a_3_4_270deg_Healthy.tif");
}

#[test]
fn manifest_lists_the_real_files_only() {
    let files = vec![
        TileFile { kind: ImageKind::Real, name: String::from("a"), raster: gray(1, 1, vec![0]) },
        TileFile { kind: ImageKind::Mask, name: String::from("a"), raster: gray(1, 1, vec![0]) },
        TileFile { kind: ImageKind::Real, name: String::from("b"), raster: gray(1, 1, vec![0]) },
    ];
    assert_eq!(manifest_for(&files), "/a\n/b\n");
    assert_eq!(manifest_for(&vec![]), "");
}

#[test]
fn tile_at_builds_an_accepted_tile() {
    let cfg = output_config(RotationMode::Fixed(0), false);
    let pair = ImagePair {
        name: String::from("p.png"),
        real: Raster::new(3, 1, PixelKind::Rgb8, vec![5; 9]).unwrap(),
        mask: gray(3, 1, vec![0, 255, 255]),
    };
    let mut policy = Split { ratio: None };
    let t = cfg.tile_at(&pair, &mut policy, 1, 0).unwrap();
    assert_eq!(t.get_label(), Some(Label::Sick));
    assert_eq!((t.get_x_offset(), t.get_y_offset()), (1, 0));
    assert_eq!((t.get_x_dim(), t.get_y_dim()), (2, 1));
    assert_eq!(t.get_rotation(), 0);
    assert_eq!(t.get_mask().as_ref().unwrap().samples(), &vec![255, 255]);
    assert_eq!(policy.ratio.unwrap().num(), 2);
    assert_eq!(policy.ratio.unwrap().den(), 2);
    // half foreground: dropped by the policy
    assert!(cfg.tile_at(&pair, &mut policy, 0, 0).is_none());
    // reaches past the image: dropped before the policy is asked
    assert!(cfg.tile_at(&pair, &mut policy, 2, 0).is_none());
    assert_eq!(policy.ratio.unwrap().num(), 1);
}

#[test]
fn barrier_defaults_to_a_fifth_of_black() {
    let cfg = output_config(RotationMode::Fixed(0), false);
    let (color, share) = cfg.barrier();
    assert_eq!(color, ColorValues::black_rgb());
    assert_eq!((share.num(), share.den()), (1, 5));
    let custom = AugmentSplit::build(
        String::from("i"),
        LabelType::FileName,
        None,
        (None, None),
        ImgFormat::Binary { batch_size: 4 },
        Some(([1, 2, 3], Ratio::new(7, 20).unwrap())),
        RotationMode::Stochastic,
        String::from("o"),
        None,
    );
    let (color, share) = custom.barrier();
    assert_eq!(color, ColorValues::rgb([1, 2, 3]));
    assert_eq!((share.num(), share.den()), (7, 20));
    assert_eq!(custom.get_discard_barrier().unwrap().0, [1, 2, 3]);
}

#[test]
fn tile_size_falls_back_to_the_image() {
    let cfg = output_config(RotationMode::Fixed(0), false);
    assert_eq!(cfg.tile_size_for(&gray(7, 9, vec![0; 63])), (2, 1));
    let mut whole = AugmentSplit::build(
        String::from("i"),
        LabelType::FileName,
        None,
        (None, None),
        ImgFormat::Binary { batch_size: 4 },
        None,
        RotationMode::Stochastic,
        String::from("o"),
        None,
    );
    assert_eq!(whole.tile_size_for(&gray(7, 9, vec![0; 63])), (7, 9));
    whole.set_split_size(3, 4);
    assert_eq!(whole.get_split_size(), (3, 4));
    assert_eq!(whole.tile_size_for(&gray(7, 9, vec![0; 63])), (3, 4));
}

#[test]
fn strides_resolve_to_at_least_one() {
    assert_eq!(DEFAULT_OFFSET, 32);
    assert_eq!(SplitOffset::Random.get_value(), 32);
    assert_eq!(SplitOffset::Val(7).get_value(), 7);
    assert_eq!(SplitOffset::Val(0).get_value(), 0);
    assert_eq!(resolve_stride(&None), 32);
    assert_eq!(resolve_stride(&Some(SplitOffset::Random)), 32);
    assert_eq!(resolve_stride(&Some(SplitOffset::Val(5))), 5);
    assert_eq!(resolve_stride(&Some(SplitOffset::Val(0))), 32);
    let mut cfg = output_config(RotationMode::Fixed(0), false);
    assert_eq!(cfg.strides(), (32, 32));
    cfg.set_split_offset(Some(3), None);
    assert_eq!(cfg.strides(), (3, 32));
    cfg.set_split_offset(None, Some(9));
    assert_eq!(cfg.strides(), (32, 9));
    cfg.set_split_offset(Some(0), Some(2));
    assert_eq!(cfg.strides(), (32, 2));
}

#[test]
fn seeds_have_their_defaults_and_derive() {
    assert_eq!(SPLIT_SEED, 1776);
    assert_eq!(OVERSAMPLE_SEED, 1337);
    let cfg = output_config(RotationMode::Fixed(0), false);
    assert_eq!(cfg.seed_or(9), 9);
    assert_eq!(derive_seed(0, 0), 1442695040888963407);
    assert_eq!(derive_seed(0, 1), 1442695040888963409);
    assert_eq!(derive_seed(1, 0), 6364136223846793005 + 1442695040888963407);
    assert_eq!(
        derive_seed(u64::MAX, u64::MAX),
        u64::MAX
            .wrapping_mul(6364136223846793005)
            .wrapping_add(u64::MAX.wrapping_mul(2))
            .wrapping_add(1442695040888963407)
    );
    assert_ne!(derive_seed(5, 1), derive_seed(5, 2));
}

#[test]
fn samples_are_encoded_by_layout() {
    let r = Raster::new(2, 2, PixelKind::Rgb8, vec![1, 2, 3, 4, 5, 6, 7, 8, 9, 10, 11, 12]).unwrap();
    assert_eq!(
        encode_samples(&r, ImgLayout::ColorChannel),
        vec![1, 4, 7, 10, 2, 5, 8, 11, 3, 6, 9, 12]
    );
    assert_eq!(
        encode_samples(&r, ImgLayout::HumanReadable),
        vec![1, 2, 3, 4, 5, 6, 7, 8, 9, 10, 11, 12]
    );
    let l = gray(2, 1, vec![8, 9]);
    assert_eq!(encode_samples(&l, ImgLayout::ColorChannel), vec![8, 9]);
    let empty = Raster::new(0, 3, PixelKind::Rgba8, vec![]).unwrap();
    assert!(encode_samples(&empty, ImgLayout::ColorChannel).is_empty());
}

#[test]
fn return_type_holds_layout_and_format() {
    let t = ReturnType::new(ImgLayout::ColorChannel, ImgFormat::Binary { batch_size: 32 });
    assert_eq!(*t.get_layout(), ImgLayout::ColorChannel);
    assert_eq!(*t.get_format(), ImgFormat::Binary { batch_size: 32 });
}
