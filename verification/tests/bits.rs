use pdf_ocr::bits::{u32_as_i32, usize_as_i32};

#[test]
fn u32_as_i32_keeps_small_values() {
    assert_eq!(u32_as_i32(0), 0);
    assert_eq!(u32_as_i32(1), 1);
    assert_eq!(u32_as_i32(300), 300);
    assert_eq!(u32_as_i32(0x7FFF_FFFF), i32::MAX);
}

#[test]
fn u32_as_i32_turns_large_values_negative() {
    assert_eq!(u32_as_i32(0x8000_0000), i32::MIN);
    assert_eq!(u32_as_i32(0x8000_0001), i32::MIN + 1);
    assert_eq!(u32_as_i32(0xFFFF_FFFE), -2);
    assert_eq!(u32_as_i32(u32::MAX), -1);
}

#[test]
fn u32_as_i32_agrees_with_the_cast() {
    let mut v: u32 = 1;
    for _ in 0..200 {
        assert_eq!(u32_as_i32(v), v as i32);
        v = v.wrapping_mul(2_654_435_761).wrapping_add(12_345);
    }
}

#[test]
fn usize_as_i32_keeps_counts_that_fit() {
    assert_eq!(usize_as_i32(0), 0);
    assert_eq!(usize_as_i32(5), 5);
    assert_eq!(usize_as_i32(0x7FFF_FFFF), i32::MAX);
}

#[test]
fn usize_as_i32_reads_the_low_bits_only() {
    assert_eq!(usize_as_i32(0x8000_0000), i32::MIN);
    assert_eq!(usize_as_i32(0xFFFF_FFFF), -1);
    let above = (u32::MAX as usize).wrapping_add(6);
    assert_eq!(usize_as_i32(above), 5);
    assert_eq!(usize_as_i32(usize::MAX), -1);
}
