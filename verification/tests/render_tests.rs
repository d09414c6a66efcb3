use swiping_img::chunk::Chunk;
use swiping_img::color::Color;
use swiping_img::config::BigImgBuilder;
use swiping_img::error::Kind;
use swiping_img::imgbuf::Bitmap;
use swiping_img::render::{fill_rect, fit_text_size, line_slots, overlay_mask};

fn chunks(n: usize) -> Vec<Chunk> {
    let mut v = Vec::new();
    for i in 0..n {
        v.push(Chunk::new(format!("{i}.png"), vec![], vec![]).unwrap());
    }
    v
}

/// Screen 4x8, cells 2 wide: image band rows 2..4, upper caption rows 0..2,
/// lower caption rows 4..8.
fn small_config() -> swiping_img::config::BigImg {
    BigImgBuilder::new("work", chunks(5))
        .screen((4, 8))
        .width_chunk(2)
        .pic_h(2)
        .text_up_h(2)
        .step(3)
        .build()
        .unwrap()
}

fn solid(w: u32, h: u32, c: (u8, u8, u8, u8)) -> Bitmap {
    let mut data = Vec::new();
    for _ in 0..w * h {
        data.extend_from_slice(&[c.0, c.1, c.2, c.3]);
    }
    Bitmap::from_raw(w, h, data)
}

fn at(b: &Bitmap, x: u32, y: u32) -> (u8, u8, u8, u8) {
    let c = b.get(x, y);
    (c.r, c.g, c.b, c.a)
}

#[test]
fn raw_bytes_round_trip() {
    let b = solid(2, 2, (1, 2, 3, 4));
    assert_eq!(b.width(), 2);
    assert_eq!(b.height(), 2);
    assert_eq!(at(&b, 1, 1), (1, 2, 3, 4));
    let bytes = b.into_raw();
    assert_eq!(bytes.len(), 16);
    assert_eq!(&bytes[..4], &[1, 2, 3, 4]);
}

#[test]
fn fill_rect_paints_exactly_the_rectangle() {
    let mut b = Bitmap::new(4, 4);
    fill_rect(&mut b, 1, 1, 2, 2, Color::new(9, 8, 7, 6));
    assert_eq!(at(&b, 1, 1), (9, 8, 7, 6));
    assert_eq!(at(&b, 2, 2), (9, 8, 7, 6));
    assert_eq!(at(&b, 0, 0), (0, 0, 0, 0));
    assert_eq!(at(&b, 3, 1), (0, 0, 0, 0));
}

#[test]
fn overlay_mask_blends_by_coverage() {
    let mut b = Bitmap::new(2, 2);
    let mask = vec![vec![255u8, 0u8], vec![51u8, 255u8]];
    overlay_mask(&mut b, &mask, 2, 0, 0, Color::new(255, 255, 255, 255));
    assert_eq!(at(&b, 0, 0), (255, 255, 255, 255));
    assert_eq!(at(&b, 1, 0), (0, 0, 0, 0));
    // 255 * 51 / 255 == 51
    assert_eq!(at(&b, 0, 1), (51, 51, 51, 51));
    assert_eq!(at(&b, 1, 1), (255, 255, 255, 255));
}

#[test]
fn caption_size_fits_the_slot() {
    // measured 200 wide, 50 tall at size 100; slot 100 x 30
    assert_eq!(fit_text_size(100, 200, 50, 100, 30), 50);
    // degenerate slot still yields a drawable size
    assert_eq!(fit_text_size(10, 1000, 10, 1, 1), 1);
}

#[test]
fn line_slots_split_the_band_evenly() {
    assert_eq!(line_slots(10, 9, 3), vec![(10, 3), (13, 3), (16, 3)]);
    assert_eq!(line_slots(0, 7, 2), vec![(0, 3), (3, 3)]);
}

#[test]
fn render_cell_fills_the_three_bands() {
    let cfg = small_config();
    // a solid red source that fits the 2x2 image band exactly
    let cell = cfg.render_cell(&solid(2, 2, (200, 0, 0, 255)));
    assert_eq!(cell.width(), 2);
    assert_eq!(cell.height(), 8);
    // upper caption band: first background color
    assert_eq!(at(&cell, 0, 0), (23, 150, 235, 255));
    assert_eq!(at(&cell, 1, 1), (23, 150, 235, 255));
    // image band: the resampled source, here solid red
    assert_eq!(at(&cell, 0, 2), (200, 0, 0, 255));
    assert_eq!(at(&cell, 1, 3), (200, 0, 0, 255));
    // lower caption band: second background color
    assert_eq!(at(&cell, 0, 4), (44, 85, 153, 255));
    assert_eq!(at(&cell, 1, 7), (44, 85, 153, 255));
}

#[test]
fn render_cell_centers_a_narrow_image() {
    let cfg = small_config();
    // a 1x2 source: fits as 1x2, centered at column 0 of the 2-wide band
    let cell = cfg.render_cell(&solid(1, 2, (0, 200, 0, 255)));
    assert_eq!(at(&cell, 0, 2), (0, 200, 0, 255));
    assert_eq!(at(&cell, 0, 3), (0, 200, 0, 255));
    // the rest of the image band keeps the zeroed backdrop
    assert_eq!(at(&cell, 1, 2), (0, 0, 0, 0));
    assert_eq!(at(&cell, 1, 3), (0, 0, 0, 0));
}

#[test]
fn combain_chunk_concatenates_cells() {
    let cfg = small_config();
    let cells = vec![solid(2, 8, (10, 0, 0, 255)), solid(2, 8, (0, 20, 0, 255))];
    let img = cfg.combain_chunk(&cells).unwrap();
    assert_eq!(img.width(), 4);
    assert_eq!(img.height(), 8);
    assert_eq!(at(&img, 0, 0), (10, 0, 0, 255));
    assert_eq!(at(&img, 1, 7), (10, 0, 0, 255));
    assert_eq!(at(&img, 2, 0), (0, 20, 0, 255));
    assert_eq!(at(&img, 3, 7), (0, 20, 0, 255));
}

#[test]
fn combain_chunk_rejects_empty_input() {
    let cfg = small_config();
    let r = cfg.combain_chunk(&Vec::new());
    assert!(r.is_err());
    assert_eq!(r.unwrap_err().kind, Kind::Other);
}

#[test]
fn combain_chunk_rejects_overflowing_width() {
    let mut cfg = small_config();
    cfg.width_chunk = u32::MAX;
    let cells = vec![Bitmap::new(1, 1), Bitmap::new(1, 1)];
    let r = cfg.combain_chunk(&cells);
    assert_eq!(r.unwrap_err().kind, Kind::TryFrom);
}
