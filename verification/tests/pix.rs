use pdf_ocr::pix::{pack_rows, BITS_PER_PIXEL, PIXELS_PER_WORD};
use pdf_ocr::raster::GrayRaster;

/// Pixel `x` of a row, read from the words the way the bitmap is read: the
/// leftmost pixel of a word is its most significant byte.
fn pixel(row: &[u32], x: usize) -> u8 {
    (row[x / 4] >> (24 - 8 * (x % 4))) as u8
}

#[test]
fn a_word_of_the_bitmap_holds_four_pixels_of_eight_bits() {
    assert_eq!(BITS_PER_PIXEL, 8);
    assert_eq!(PIXELS_PER_WORD, 4);
}

#[test]
fn pack_rows_puts_the_first_pixel_in_the_top_byte() {
    let gray = GrayRaster::from_raw(2, 1, vec![1, 2]).unwrap();
    assert_eq!(pack_rows(&gray, 1), Some(vec![0x0102_0000]));
    let one = GrayRaster::from_raw(1, 1, vec![0xAB]).unwrap();
    assert_eq!(pack_rows(&one, 1), Some(vec![0xAB00_0000]));
}

#[test]
fn pack_rows_fills_each_row_up_to_whole_words() {
    let gray = GrayRaster::from_raw(3, 2, vec![1, 2, 3, 4, 5, 6]).unwrap();
    assert_eq!(pack_rows(&gray, 1), Some(vec![0x0102_0300, 0x0405_0600]));
}

#[test]
fn pack_rows_adds_nothing_to_rows_that_fill_their_words() {
    let gray = GrayRaster::from_raw(4, 2, vec![1, 2, 3, 4, 5, 6, 7, 8]).unwrap();
    assert_eq!(pack_rows(&gray, 1), Some(vec![0x0102_0304, 0x0506_0708]));
    let bright = GrayRaster::from_raw(4, 1, vec![0xFF, 0x80, 0x7F, 0x01]).unwrap();
    assert_eq!(pack_rows(&bright, 1), Some(vec![0xFF80_7F01]));
}

#[test]
fn pack_rows_follows_a_longer_stride() {
    let gray = GrayRaster::from_raw(5, 2, vec![1, 2, 3, 4, 5, 6, 7, 8, 9, 10]).unwrap();
    assert_eq!(
        pack_rows(&gray, 3),
        Some(vec![0x0102_0304, 0x0500_0000, 0, 0x0607_0809, 0x0A00_0000, 0])
    );
}

#[test]
fn pack_rows_refuses_rows_shorter_than_a_line() {
    let gray = GrayRaster::from_raw(5, 1, vec![1, 2, 3, 4, 5]).unwrap();
    assert_eq!(pack_rows(&gray, 1), None);
    assert_eq!(pack_rows(&gray, 0), None);
    assert_eq!(pack_rows(&gray, 2), Some(vec![0x0102_0304, 0x0500_0000]));
}

#[test]
fn pack_rows_refuses_a_negative_stride() {
    let gray = GrayRaster::from_raw(1, 1, vec![7]).unwrap();
    assert_eq!(pack_rows(&gray, -1), None);
    assert_eq!(pack_rows(&gray, i32::MIN), None);
    let empty = GrayRaster::from_raw(0, 0, Vec::new()).unwrap();
    assert_eq!(pack_rows(&empty, -1), None);
}

#[test]
fn pack_rows_of_an_empty_raster() {
    let empty = GrayRaster::from_raw(0, 0, Vec::new()).unwrap();
    assert_eq!(pack_rows(&empty, 0), Some(Vec::new()));
    assert_eq!(pack_rows(&empty, 2), Some(Vec::new()));
    let no_columns = GrayRaster::from_raw(0, 3, Vec::new()).unwrap();
    assert_eq!(pack_rows(&no_columns, 0), Some(Vec::new()));
    assert_eq!(pack_rows(&no_columns, 1), Some(vec![0; 3]));
}

#[test]
fn pack_rows_keeps_every_pixel_at_its_place() {
    let width: usize = 7;
    let height: usize = 5;
    let data: Vec<u8> = (0..(width * height) as u8).map(|i| i + 1).collect();
    let gray = GrayRaster::from_raw(width as u32, height as u32, data.clone()).unwrap();
    let rows = pack_rows(&gray, 2).unwrap();
    assert_eq!(rows.len(), 2 * height);
    for y in 0..height {
        let row = &rows[2 * y..2 * y + 2];
        for x in 0..8 {
            let expected = if x < width { data[y * width + x] } else { 0 };
            assert_eq!(pixel(row, x), expected);
        }
    }
}

#[test]
fn the_words_read_the_same_on_every_byte_order() {
    let gray = GrayRaster::from_raw(4, 1, vec![0x11, 0x22, 0x33, 0x44]).unwrap();
    let rows = pack_rows(&gray, 1).unwrap();
    assert_eq!(rows[0].to_be_bytes(), [0x11, 0x22, 0x33, 0x44]);
    assert_eq!(rows[0].to_le_bytes(), [0x44, 0x33, 0x22, 0x11]);
}
