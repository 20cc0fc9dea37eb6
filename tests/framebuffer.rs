use ctru::framebuffer::rotate_image_to_screen;

fn image(width: usize, height: usize) -> Vec<u8> {
    let mut v = Vec::new();
    for p in 0..width * height {
        v.push((p * 2) as u8);
        v.push((p * 2 + 1) as u8);
    }
    v
}

#[test]
fn rotation_places_every_pixel() {
    let (w, h) = (3usize, 2usize);
    let src = image(w, h);
    let mut dst = vec![0xEEu8; w * h * 2];
    rotate_image_to_screen(&src, &mut dst, w, h);
    for j in 0..h {
        for i in 0..w {
            let from = (j * w + i) * 2;
            let to = (i * h + (h - 1 - j)) * 2;
            assert_eq!(dst[to], src[from]);
            assert_eq!(dst[to + 1], src[from + 1]);
        }
    }
    assert_eq!(dst, vec![6, 7, 0, 1, 8, 9, 2, 3, 10, 11, 4, 5]);
}

#[test]
fn rotation_leaves_bytes_past_the_image() {
    let src = image(2, 2);
    let mut dst = vec![0xAAu8; 12];
    rotate_image_to_screen(&src, &mut dst, 2, 2);
    assert_eq!(&dst[8..], &[0xAA, 0xAA, 0xAA, 0xAA]);
    assert_eq!(&dst[..8], &[4, 5, 0, 1, 6, 7, 2, 3]);
}

#[test]
fn four_rotations_give_the_image_back() {
    let (w, h) = (4usize, 3usize);
    let src = image(w, h);
    let mut a = vec![0u8; w * h * 2];
    let mut b = vec![0u8; w * h * 2];
    rotate_image_to_screen(&src, &mut a, w, h);
    assert_ne!(a, src);
    rotate_image_to_screen(&a, &mut b, h, w);
    rotate_image_to_screen(&b, &mut a, w, h);
    rotate_image_to_screen(&a, &mut b, h, w);
    assert_eq!(b, src);
}

#[test]
fn rotation_of_empty_image_writes_nothing() {
    let mut dst = vec![9u8; 4];
    rotate_image_to_screen(&[], &mut dst, 0, 5);
    assert_eq!(dst, vec![9, 9, 9, 9]);
}

#[test]
fn top_screen_first_pixel_lands_at_478() {
    let (w, h) = (400usize, 240usize);
    let mut src = vec![0u8; w * h * 2];
    src[0] = 0x12;
    src[1] = 0x34;
    let mut dst = vec![0u8; w * h * 2];
    rotate_image_to_screen(&src, &mut dst, w, h);
    assert_eq!(dst[478], 0x12);
    assert_eq!(dst[479], 0x34);
}
