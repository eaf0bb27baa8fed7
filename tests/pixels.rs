use rasteriser::pixels::{clear_pixels, empty_pixels, set_pixel};

#[test]
fn empty_buffer_is_zero_and_sized() {
    let p = empty_pixels(4, 3);
    assert_eq!(p.len(), 4 * 3 * 3);
    assert!(p.iter().all(|&b| b == 0));
    assert!(empty_pixels(0, 5).is_empty());
}

#[test]
fn set_pixel_writes_three_bytes_at_offset() {
    let mut p = empty_pixels(4, 3);
    set_pixel(&mut p, 2, 1, 4, 3, (9, 8, 7));
    let o = (1 * 4 + 2) * 3;
    assert_eq!(&p[o..o + 3], &[9, 8, 7]);
    let changed = p.iter().filter(|&&b| b != 0).count();
    assert_eq!(changed, 3);
}

#[test]
fn set_pixel_out_of_bounds_is_ignored() {
    let mut p = empty_pixels(4, 3);
    set_pixel(&mut p, 4, 0, 4, 3, (1, 1, 1));
    set_pixel(&mut p, 0, 3, 4, 3, (1, 1, 1));
    set_pixel(&mut p, usize::MAX, usize::MAX, 4, 3, (1, 1, 1));
    assert_eq!(p, vec![0u8; 36]);
}

#[test]
fn set_pixel_corners() {
    let mut p = empty_pixels(2, 2);
    set_pixel(&mut p, 0, 0, 2, 2, (1, 2, 3));
    set_pixel(&mut p, 1, 1, 2, 2, (4, 5, 6));
    assert_eq!(p, vec![1, 2, 3, 0, 0, 0, 0, 0, 0, 4, 5, 6]);
}

#[test]
fn clear_fills_every_pixel() {
    let p = clear_pixels(3, 2, (10, 20, 30));
    assert_eq!(p.len(), 18);
    for chunk in p.chunks(3) {
        assert_eq!(chunk, &[10, 20, 30]);
    }
    assert_eq!(clear_pixels(3, 2, (0, 0, 0)), empty_pixels(3, 2));
}

#[test]
fn set_pixel_out_of_range_ignores_buffer_size() {
    let mut short = vec![7u8; 2];
    set_pixel(&mut short, 5, 0, 4, 3, (1, 1, 1));
    set_pixel(&mut short, 0, 9, 4, 3, (1, 1, 1));
    assert_eq!(short, vec![7, 7]);
}

#[test]
fn set_pixel_on_longer_buffer_writes_same_offset() {
    let mut p = vec![0u8; 4 * 3 * 3 + 5];
    set_pixel(&mut p, 3, 2, 4, 3, (4, 5, 6));
    let o = (2 * 4 + 3) * 3;
    assert_eq!(&p[o..o + 3], &[4, 5, 6]);
    assert_eq!(p.len(), 41);
    assert_eq!(p.iter().filter(|&&b| b != 0).count(), 3);
}

#[test]
fn empty_pixels_twice_gives_equal_buffers() {
    assert_eq!(empty_pixels(7, 5), empty_pixels(7, 5));
}
