use augment_split::raster::{PixelKind, Raster};

fn luma_raster(width: u32, height: u32, data: Vec<u8>) -> Raster {
    Raster::new(width, height, PixelKind::Luma8, data).unwrap()
}

#[test]
fn raster_new_checks_buffer_length() {
    assert!(Raster::new(2, 2, PixelKind::Luma8, vec![0; 4]).is_some());
    assert!(Raster::new(2, 2, PixelKind::Luma8, vec![0; 5]).is_none());
    assert!(Raster::new(2, 2, PixelKind::Rgb8, vec![0; 12]).is_some());
    assert!(Raster::new(2, 2, PixelKind::Rgb8, vec![0; 4]).is_none());
    assert!(Raster::new(0, 7, PixelKind::Rgba8, vec![]).is_some());
}

#[test]
fn rotate90_moves_pixels_clockwise() {
    // 3 wide, 2 high:
    // 1 2 3
    // 4 5 6
    let r = luma_raster(3, 2, vec![1, 2, 3, 4, 5, 6]);
    let t = r.rotate90();
    // 2 wide, 3 high:
    // 4 1
    // 5 2
    // 6 3
    assert_eq!(t.dimensions(), (2, 3));
    assert_eq!(t.samples(), &vec![4, 1, 5, 2, 6, 3]);
}

#[test]
fn rotate180_reverses_pixels() {
    let r = luma_raster(3, 2, vec![1, 2, 3, 4, 5, 6]);
    let t = r.rotate180();
    assert_eq!(t.dimensions(), (3, 2));
    assert_eq!(t.samples(), &vec![6, 5, 4, 3, 2, 1]);
}

#[test]
fn rotate270_moves_pixels_counter_clockwise() {
    let r = luma_raster(3, 2, vec![1, 2, 3, 4, 5, 6]);
    let t = r.rotate270();
    // 3 6
    // 2 5
    // 1 4
    assert_eq!(t.dimensions(), (2, 3));
    assert_eq!(t.samples(), &vec![3, 6, 2, 5, 1, 4]);
}

#[test]
fn rotate_keeps_channels_together() {
    // two RGB pixels side by side
    let r = Raster::new(2, 1, PixelKind::Rgb8, vec![1, 2, 3, 4, 5, 6]).unwrap();
    let t = r.rotate180();
    assert_eq!(t.kind(), PixelKind::Rgb8);
    assert_eq!(t.samples(), &vec![4, 5, 6, 1, 2, 3]);
    let q = r.rotate90();
    assert_eq!(q.dimensions(), (1, 2));
    assert_eq!(q.samples(), &vec![1, 2, 3, 4, 5, 6]);
}

#[test]
fn quarter_turn_twice_is_half_turn() {
    let r = luma_raster(3, 2, vec![1, 2, 3, 4, 5, 6]);
    let twice = r.rotate90().rotate90();
    let half = r.rotate180();
    assert_eq!(twice.dimensions(), half.dimensions());
    assert_eq!(twice.samples(), half.samples());
}

#[test]
fn half_turn_twice_gives_the_raster_back() {
    let r = luma_raster(3, 2, vec![1, 2, 3, 4, 5, 6]);
    let back = r.rotate180().rotate180();
    assert_eq!(back.dimensions(), (3, 2));
    assert_eq!(back.samples(), r.samples());
}

#[test]
fn four_quarter_turns_give_the_raster_back() {
    let r = Raster::new(2, 3, PixelKind::Rgb8, (0u8..18).collect()).unwrap();
    let back = r.rotate90().rotate90().rotate90().rotate90();
    assert_eq!(back.dimensions(), (2, 3));
    assert_eq!(back.kind(), PixelKind::Rgb8);
    assert_eq!(back.samples(), r.samples());
}

#[test]
fn quarter_then_three_quarters_gives_the_raster_back() {
    let r = luma_raster(3, 2, vec![1, 2, 3, 4, 5, 6]);
    let back = r.rotate90().rotate270();
    assert_eq!(back.dimensions(), (3, 2));
    assert_eq!(back.samples(), r.samples());
}

#[test]
fn crop_cuts_out_a_rectangle() {
    // 1 2 3
    // 4 5 6
    // 7 8 9
    let r = luma_raster(3, 3, vec![1, 2, 3, 4, 5, 6, 7, 8, 9]);
    let c = r.crop(1, 1, 2, 2);
    assert_eq!(c.dimensions(), (2, 2));
    assert_eq!(c.samples(), &vec![5, 6, 8, 9]);
}

#[test]
fn crop_is_clipped_at_the_boundary() {
    let r = luma_raster(3, 3, vec![1, 2, 3, 4, 5, 6, 7, 8, 9]);
    let c = r.crop(2, 1, 2, 5);
    assert_eq!(c.dimensions(), (1, 2));
    assert_eq!(c.samples(), &vec![6, 9]);
    let outside = r.crop(7, 7, 2, 2);
    assert_eq!(outside.dimensions(), (0, 0));
    assert!(outside.samples().is_empty());
}

#[test]
fn sample_reads_one_channel() {
    let r = Raster::new(2, 2, PixelKind::Rgb8, (0u8..12).collect()).unwrap();
    assert_eq!(r.sample(1, 0, 2), 5);
    assert_eq!(r.sample(0, 1, 0), 6);
    assert_eq!(r.pixel_count(), 4);
}

fn numbered(width: u32, height: u32, kind: PixelKind) -> Raster {
    let n = (width * height) as usize * kind.channels();
    Raster::new(width, height, kind, (0..n).map(|i| (i % 251) as u8).collect()).unwrap()
}

fn all_kinds() -> [PixelKind; 4] {
    [PixelKind::Luma8, PixelKind::LumaA8, PixelKind::Rgb8, PixelKind::Rgba8]
}

#[test]
fn rotations_move_every_sample_of_every_layout() {
    for kind in all_kinds() {
        let r = numbered(5, 3, kind);
        let (w, h) = (5u32, 3u32);
        let q = r.rotate90();
        let half = r.rotate180();
        let t = r.rotate270();
        assert_eq!(q.dimensions(), (h, w));
        assert_eq!(half.dimensions(), (w, h));
        assert_eq!(t.dimensions(), (h, w));
        assert_eq!(q.kind(), kind);
        for k in 0..kind.channels() {
            for y in 0..h {
                for x in 0..w {
                    let s = r.sample(x, y, k);
                    assert_eq!(q.sample(h - 1 - y, x, k), s);
                    assert_eq!(half.sample(w - 1 - x, h - 1 - y, k), s);
                    assert_eq!(t.sample(y, w - 1 - x, k), s);
                }
            }
        }
    }
}

#[test]
fn crops_hold_the_samples_of_the_rectangle_for_every_layout() {
    for kind in all_kinds() {
        let r = numbered(6, 4, kind);
        for (x, y, w, h) in [(0, 0, 6, 4), (1, 2, 3, 2), (4, 1, 5, 5), (6, 4, 1, 1), (2, 0, 0, 3)] {
            let c = r.crop(x, y, w, h);
            let cw = w.min(6 - x.min(6));
            let ch = h.min(4 - y.min(4));
            assert_eq!(c.dimensions(), (cw, ch));
            assert_eq!(c.kind(), kind);
            assert_eq!(c.samples().len(), (cw * ch) as usize * kind.channels());
            for k in 0..kind.channels() {
                for j in 0..ch {
                    for i in 0..cw {
                        assert_eq!(c.sample(i, j, k), r.sample(x + i, y + j, k));
                    }
                }
            }
        }
    }
}

#[test]
fn empty_rasters_can_be_turned_and_cut() {
    let r = Raster::new(0, 3, PixelKind::Rgb8, vec![]).unwrap();
    assert_eq!(r.rotate90().dimensions(), (3, 0));
    assert_eq!(r.rotate180().dimensions(), (0, 3));
    assert_eq!(r.rotate270().dimensions(), (3, 0));
    assert_eq!(r.crop(0, 0, 2, 2).dimensions(), (0, 2));
    assert_eq!(r.pixel_count(), 0);
}

#[test]
fn clone_copies_a_raster() {
    let r = numbered(3, 2, PixelKind::Rgb8);
    let c = r.clone();
    assert_eq!(c.dimensions(), r.dimensions());
    assert_eq!(c.kind(), r.kind());
    assert_eq!(c.samples(), r.samples());
    assert_eq!((c.width(), c.height()), (3, 2));
}

#[test]
fn layouts_have_their_channel_counts() {
    assert_eq!(PixelKind::Luma8.channels(), 1);
    assert_eq!(PixelKind::LumaA8.channels(), 2);
    assert_eq!(PixelKind::Rgb8.channels(), 3);
    assert_eq!(PixelKind::Rgba8.channels(), 4);
}
