use spoolbuddy::display::{
    flush_area, lighten_color, lv_color_hex, panel_size, put_pixel, Area, COLOR_ACCENT, COLOR_BG,
    HEIGHT, WIDTH,
};

#[test]
fn rgb888_to_rgb565() {
    assert_eq!(lv_color_hex(0xFFFFFF), 0xFFFF);
    assert_eq!(lv_color_hex(0x000000), 0x0000);
    assert_eq!(lv_color_hex(COLOR_ACCENT), 0x07E0);
    assert_eq!(lv_color_hex(0xFF0000), 0xF800);
    assert_eq!(lv_color_hex(0x0000FF), 0x001F);
    assert_eq!(lv_color_hex(COLOR_BG), (3 << 11) | (6 << 5) | 3);
    // The byte above the colour is ignored.
    assert_eq!(lv_color_hex(0xAB00FF00), 0x07E0);
}

#[test]
fn lighten_saturates_per_channel() {
    assert_eq!(lighten_color(0x1A1A1A, 0x10), 0x2A2A2A);
    assert_eq!(lighten_color(0xF0F0F0, 0x20), 0xFFFFFF);
    assert_eq!(lighten_color(0x12F034, 0x20), 0x32FF54);
    assert_eq!(lighten_color(0xFF123456, 0), 0x123456);
    assert_eq!(lighten_color(0x000000, 255), 0xFFFFFF);
}

#[test]
fn flush_copies_only_the_area() {
    let mut fb = vec![7u16; WIDTH * HEIGHT];
    let area = Area { x1: 10, y1: 20, x2: 12, y2: 21 };
    let src = [1u16, 2, 3, 4, 5, 6];
    flush_area(&mut fb, area, &src);
    assert_eq!(&fb[20 * WIDTH + 10..20 * WIDTH + 13], &[1, 2, 3]);
    assert_eq!(&fb[21 * WIDTH + 10..21 * WIDTH + 13], &[4, 5, 6]);
    assert_eq!(fb[20 * WIDTH + 9], 7);
    assert_eq!(fb[20 * WIDTH + 13], 7);
    assert_eq!(fb[22 * WIDTH + 10], 7);
    assert_eq!(fb.iter().filter(|p| **p == 7).count(), WIDTH * HEIGHT - 6);
}

#[test]
fn flush_full_screen_and_corner() {
    let mut fb = vec![0u16; WIDTH * HEIGHT];
    let src: Vec<u16> = (0..(WIDTH * HEIGHT) as u32).map(|i| (i % 65536) as u16).collect();
    flush_area(&mut fb, Area { x1: 0, y1: 0, x2: 799, y2: 479 }, &src);
    assert_eq!(fb, src);
    flush_area(&mut fb, Area { x1: 799, y1: 479, x2: 799, y2: 479 }, &[0xABCD]);
    assert_eq!(fb[WIDTH * HEIGHT - 1], 0xABCD);
}

#[test]
fn put_pixel_ignores_points_off_display() {
    let mut fb = vec![0u16; WIDTH * HEIGHT];
    put_pixel(&mut fb, 3, 2, 0x1234);
    assert_eq!(fb[2 * WIDTH + 3], 0x1234);
    put_pixel(&mut fb, -1, 0, 0xFFFF);
    put_pixel(&mut fb, 800, 0, 0xFFFF);
    put_pixel(&mut fb, 0, 480, 0xFFFF);
    put_pixel(&mut fb, 0, -5, 0xFFFF);
    assert_eq!(fb.iter().filter(|p| **p != 0).count(), 1);
    put_pixel(&mut fb, 799, 479, 9);
    assert_eq!(fb[WIDTH * HEIGHT - 1], 9);
    assert_eq!(panel_size(), (800, 480));
}
