use mac_connect_client::framebuffer::Framebuffer;

fn pixels(fb: &Framebuffer) -> Vec<u8> {
    fb.to_frame().data
}

/// A `w` by `h` screen whose pixel `i` is `[i, i, i, i]`.
fn numbered(w: u16, h: u16) -> Framebuffer {
    let mut fb = Framebuffer::new(w, h);
    let mut data = Vec::new();
    for i in 0..(w as u32 * h as u32) {
        data.extend_from_slice(&[i as u8, i as u8, i as u8, 9]);
    }
    fb.apply_raw(0, 0, w, h, &data);
    fb
}

fn pixel(fb: &Framebuffer, i: usize) -> [u8; 4] {
    let p = pixels(fb);
    [p[4 * i], p[4 * i + 1], p[4 * i + 2], p[4 * i + 3]]
}

#[test]
fn new_screen_is_opaque_white() {
    let fb = Framebuffer::new(3, 2);
    assert_eq!((fb.width(), fb.height()), (3, 2));
    let f = fb.to_frame();
    assert_eq!((f.width, f.height), (3, 2));
    assert_eq!(f.data, vec![255u8; 24]);
}

#[test]
fn raw_rectangle_is_drawn_with_opaque_alpha() {
    let mut fb = Framebuffer::new(3, 2);
    fb.apply_raw(1, 0, 2, 1, &[1, 2, 3, 4, 5, 6, 7, 8]);
    let p = pixels(&fb);
    assert_eq!(&p[0..4], &[255, 255, 255, 255]);
    assert_eq!(&p[4..8], &[1, 2, 3, 255]);
    assert_eq!(&p[8..12], &[5, 6, 7, 255]);
    assert_eq!(&p[12..24], &[255u8; 12][..]);
}

#[test]
fn raw_rectangle_is_clipped_at_the_edges() {
    let mut fb = Framebuffer::new(3, 2);
    let data: Vec<u8> = (1..=16).collect();
    assert!(fb.raw_fits(2, 1, 2, 2));
    fb.apply_raw(2, 1, 2, 2, &data);
    let p = pixels(&fb);
    assert_eq!(&p[0..20], &[255u8; 20][..]);
    assert_eq!(&p[20..24], &[1, 2, 3, 255]);
}

#[test]
fn raw_rectangle_right_of_the_screen() {
    let mut fb = Framebuffer::new(3, 2);
    assert!(fb.raw_fits(6, 0, 1, 1));
    fb.apply_raw(6, 0, 1, 1, &[1, 2, 3, 4]);
    assert_eq!(pixels(&fb), vec![255u8; 24]);
    assert!(!fb.raw_fits(7, 0, 1, 1));
    assert!(fb.raw_fits(7, 0, 1, 0));
    assert!(fb.raw_fits(7, 2, 1, 1));
    assert!(fb.raw_fits(0, 5, 3, 3));
}

#[test]
fn copy_rect_moves_pixels() {
    let mut fb = numbered(3, 2);
    assert!(fb.copy_fits(0, 1, 2, 1, 1, 0));
    fb.apply_copy_rect(0, 1, 2, 1, 1, 0);
    assert_eq!(pixel(&fb, 3), [1, 1, 1, 255]);
    assert_eq!(pixel(&fb, 4), [2, 2, 2, 255]);
    assert_eq!(pixel(&fb, 5), [5, 5, 5, 255]);
    assert_eq!(pixel(&fb, 0), [0, 0, 0, 255]);
}

#[test]
fn copy_rect_upwards_moves_old_pixels() {
    let mut fb = numbered(1, 3);
    fb.apply_copy_rect(0, 0, 1, 2, 0, 1);
    assert_eq!(pixel(&fb, 0), [1, 1, 1, 255]);
    assert_eq!(pixel(&fb, 1), [2, 2, 2, 255]);
    assert_eq!(pixel(&fb, 2), [2, 2, 2, 255]);
}

#[test]
fn copy_rect_downwards_copies_row_by_row() {
    let mut fb = numbered(1, 3);
    fb.apply_copy_rect(0, 1, 1, 2, 0, 0);
    assert_eq!(pixel(&fb, 0), [0, 0, 0, 255]);
    assert_eq!(pixel(&fb, 1), [0, 0, 0, 255]);
    assert_eq!(pixel(&fb, 2), [0, 0, 0, 255]);
}

#[test]
fn copy_rect_stops_at_the_bottom() {
    let mut fb = numbered(2, 2);
    assert!(fb.copy_fits(0, 1, 2, 5, 0, 0));
    fb.apply_copy_rect(0, 1, 2, 5, 0, 0);
    assert_eq!(pixel(&fb, 2), [0, 0, 0, 255]);
    assert_eq!(pixel(&fb, 3), [1, 1, 1, 255]);
}

#[test]
fn copy_rect_past_the_end_does_not_fit() {
    let fb = numbered(2, 2);
    assert!(!fb.copy_fits(1, 1, 2, 1, 0, 0));
    assert!(!fb.copy_fits(0, 0, 1, 1, 2, 1));
    assert!(fb.copy_fits(0, 0, 1, 1, 0, 2));
}
