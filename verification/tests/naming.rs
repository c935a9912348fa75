use augment_split::label::{Label, LabelScheme};
use augment_split::naming::{push_decimal, push_manifest_line, stem_of, tile_file_name};
use augment_split::return_type::{ImgFormat, RasterFormat};

fn decimal(n: u32) -> String {
    let mut s = String::new();
    push_decimal(&mut s, n);
    s
}

#[test]
fn decimal_notation() {
    assert_eq!(decimal(0), "0");
    assert_eq!(decimal(7), "7");
    assert_eq!(decimal(10), "10");
    assert_eq!(decimal(1234567890), "1234567890");
    assert_eq!(decimal(u32::MAX), "4294967295");
    assert_eq!(decimal(1000), "1000");
}

#[test]
fn push_decimal_appends() {
    let mut s = String::from("x: ");
    push_decimal(&mut s, 42);
    assert_eq!(s, "x: 42");
}

#[test]
fn stem_ends_at_the_first_dot() {
    assert_eq!(stem_of("slide.png"), "slide");
    assert_eq!(stem_of("pat24_im1_ACHD.tif"), "pat24_im1_ACHD");
    assert_eq!(stem_of("a.b.c"), "a");
    assert_eq!(stem_of(".hidden"), "");
    assert_eq!(stem_of("noextension"), "noextension");
    assert_eq!(stem_of(""), "");
    assert_eq!(stem_of("größe.png"), "größe");
}

#[test]
fn tile_names_follow_the_scheme() {
    let png = ImgFormat::Img(RasterFormat::Png);
    assert_eq!(
        tile_file_name("pat24_im1_ACHD.tif", 100, 200, 0, Some(Label::Sick), &png),
        "pat24_im1_ACHD_100_200_000deg_Sick.png"
    );
    assert_eq!(tile_file_name("a.png", 0, 0, 1, Some(Label::Healthy), &png), "a_0_0_090deg_Healthy.png");
    assert_eq!(tile_file_name("a.png", 0, 0, 2, Some(Label::Fuzzy), &png), "a_0_0_180deg_Fuzzy.png");
    assert_eq!(tile_file_name("a.png", 5, 6, 3, None, &png), "a_5_6_270deg.png");
}

#[test]
fn tile_names_take_the_extension_of_the_format() {
    let name = |f: ImgFormat| tile_file_name("a.x", 1, 2, 0, None, &f);
    assert_eq!(name(ImgFormat::Img(RasterFormat::Png)), "a_1_2_000deg.png");
    assert_eq!(name(ImgFormat::Img(RasterFormat::Jpeg)), "a_1_2_000deg.jpg");
    assert_eq!(name(ImgFormat::Img(RasterFormat::Bmp)), "a_1_2_000deg.bmp");
    assert_eq!(name(ImgFormat::Img(RasterFormat::Tiff)), "a_1_2_000deg.tif");
    assert_eq!(name(ImgFormat::Img(RasterFormat::Other)), "a_1_2_000deg");
    assert_eq!(name(ImgFormat::Binary { batch_size: 10 }), "a_1_2_000deg");
}

#[test]
fn rotation_index_out_of_range_is_marked() {
    let png = ImgFormat::Img(RasterFormat::Png);
    assert_eq!(tile_file_name("a.png", 0, 0, 4, None, &png), "a_0_0_err.png");
    assert_eq!(tile_file_name("a.png", 0, 0, 255, None, &png), "a_0_0_err.png");
}

#[test]
fn manifest_lines_start_with_a_slash() {
    let mut m = String::new();
    push_manifest_line(&mut m, "a_0_0_000deg_Sick.png");
    push_manifest_line(&mut m, "b_1_2_090deg.png");
    assert_eq!(m, "/a_0_0_000deg_Sick.png\n/b_1_2_090deg.png\n");
}

#[test]
fn label_names_and_intensities() {
    assert_eq!(Label::Sick.name(), "Sick");
    assert_eq!(Label::Fuzzy.name(), "Fuzzy");
    assert_eq!(Label::Healthy.name(), "Healthy");
    assert_eq!(Label::Sick.intensity(LabelScheme::ThreeClass), 255);
    assert_eq!(Label::Fuzzy.intensity(LabelScheme::ThreeClass), 127);
    assert_eq!(Label::Healthy.intensity(LabelScheme::ThreeClass), 0);
    assert_eq!(Label::Sick.intensity(LabelScheme::TwoClass), 1);
    assert_eq!(Label::Fuzzy.intensity(LabelScheme::TwoClass), 0);
    assert_eq!(Label::Healthy.intensity(LabelScheme::TwoClass), 0);
}

#[test]
fn format_extensions() {
    assert_eq!(ImgFormat::Img(RasterFormat::Png).extension_str(), ".png");
    assert_eq!(ImgFormat::Img(RasterFormat::Jpeg).extension_str(), ".jpg");
    assert_eq!(ImgFormat::Img(RasterFormat::Bmp).extension_str(), ".bmp");
    assert_eq!(ImgFormat::Img(RasterFormat::Tiff).extension_str(), ".tif");
    assert_eq!(ImgFormat::Img(RasterFormat::Other).extension_str(), "");
    assert_eq!(ImgFormat::Binary { batch_size: 1 }.extension_str(), "");
}
