use spoolbuddy::bmp::{push_bmp_header, push_i32_le, push_u16_le, push_u32_le, BMP_HEADER_LEN};
use spoolbuddy::http_screenshot::{
    create_bmp_from_rgb565, raw_framebuffer, rgb565_to_bgr888, screenshot_reply, ScreenshotRoute,
    HEIGHT, NO_FRAMEBUFFER_BODY, VIEWER_HTML, WIDTH,
};

fn read_u32(b: &[u8], at: usize) -> u32 {
    u32::from_le_bytes([b[at], b[at + 1], b[at + 2], b[at + 3]])
}

fn read_i32(b: &[u8], at: usize) -> i32 {
    i32::from_le_bytes([b[at], b[at + 1], b[at + 2], b[at + 3]])
}

#[test]
fn little_endian_pushes() {
    let mut v = vec![7u8];
    push_u32_le(&mut v, 0x1234_5678);
    assert_eq!(v, vec![7, 0x78, 0x56, 0x34, 0x12]);
    push_u16_le(&mut v, 0xABCD);
    assert_eq!(&v[5..], &[0xCD, 0xAB]);
    push_i32_le(&mut v, -480);
    assert_eq!(&v[7..], &(-480i32).to_le_bytes());
}

#[test]
fn bmp_header_fields() {
    let mut h = Vec::new();
    push_bmp_header(&mut h, 800, 480, 1_152_000);
    assert_eq!(h.len(), BMP_HEADER_LEN as usize);
    assert_eq!(&h[0..2], b"BM");
    assert_eq!(read_u32(&h, 2), 1_152_054);
    assert_eq!(read_u32(&h, 6), 0);
    assert_eq!(read_u32(&h, 10), 54);
    assert_eq!(read_u32(&h, 14), 40);
    assert_eq!(read_i32(&h, 18), 800);
    assert_eq!(read_i32(&h, 22), -480);
    assert_eq!(u16::from_le_bytes([h[26], h[27]]), 1);
    assert_eq!(u16::from_le_bytes([h[28], h[29]]), 24);
    assert_eq!(read_u32(&h, 30), 0);
    assert_eq!(read_u32(&h, 34), 1_152_000);
    assert_eq!(read_u32(&h, 38), 2835);
    assert_eq!(read_u32(&h, 42), 2835);
    assert_eq!(read_u32(&h, 46), 0);
    assert_eq!(read_u32(&h, 50), 0);
}

#[test]
fn rgb565_pixel_conversion() {
    assert_eq!(rgb565_to_bgr888(0xFFFF), (255, 255, 255));
    assert_eq!(rgb565_to_bgr888(0x0000), (0, 0, 0));
    assert_eq!(rgb565_to_bgr888(0xF800), (0, 0, 255));
    assert_eq!(rgb565_to_bgr888(0x07E0), (0, 255, 0));
    assert_eq!(rgb565_to_bgr888(0x001F), (255, 0, 0));
    // r = 0b10000 -> 0b10000100, g = 0b100000 -> 0b10000010, b = 1 -> 0b00001000
    assert_eq!(rgb565_to_bgr888(0b10000_100000_00001), (0b0000_1000, 0b1000_0010, 0b1000_0100));
}

#[test]
fn screenshot_bmp_layout() {
    let mut fb = vec![0u16; WIDTH * HEIGHT];
    fb[0] = 0xF800;
    fb[1] = 0x07E0;
    fb[WIDTH * HEIGHT - 1] = 0x001F;
    let bmp = create_bmp_from_rgb565(&fb);
    assert_eq!(bmp.len(), 54 + WIDTH * HEIGHT * 3);
    assert_eq!(read_u32(&bmp, 2) as usize, bmp.len());
    assert_eq!(&bmp[54..57], &[0, 0, 255]);
    assert_eq!(&bmp[57..60], &[0, 255, 0]);
    assert_eq!(&bmp[60..63], &[0, 0, 0]);
    assert_eq!(&bmp[bmp.len() - 3..], &[255, 0, 0]);
}

#[test]
fn raw_framebuffer_is_little_endian() {
    assert_eq!(raw_framebuffer(&[0x1234, 0xF800]), vec![0x34, 0x12, 0x00, 0xF8]);
    assert!(raw_framebuffer(&[]).is_empty());
}

#[test]
fn screenshot_routes() {
    let viewer = screenshot_reply(ScreenshotRoute::Viewer, None);
    assert_eq!(viewer.status, 200);
    assert!(viewer.headers.is_empty());
    assert_eq!(viewer.body, VIEWER_HTML.as_bytes());
    assert!(String::from_utf8(viewer.body).unwrap().contains("<img id=\"display\" src=\"/screenshot\""));

    for route in [ScreenshotRoute::Screenshot, ScreenshotRoute::Raw] {
        let missing = screenshot_reply(route, None);
        assert_eq!(missing.status, 500);
        assert!(missing.headers.is_empty());
        assert_eq!(missing.body, NO_FRAMEBUFFER_BODY.as_bytes());
        assert_eq!(NO_FRAMEBUFFER_BODY, "Framebuffer not available");
    }

    let fb = vec![0xFFFFu16; WIDTH * HEIGHT];
    let shot = screenshot_reply(ScreenshotRoute::Screenshot, Some(&fb));
    assert_eq!(shot.status, 200);
    assert_eq!(shot.headers, vec![("Content-Type", "image/bmp"), ("Cache-Control", "no-cache")]);
    assert_eq!(shot.body.len(), 54 + WIDTH * HEIGHT * 3);
    assert_eq!(shot.body[54], 255);

    let raw = screenshot_reply(ScreenshotRoute::Raw, Some(&fb));
    assert_eq!(raw.status, 200);
    assert_eq!(
        raw.headers,
        vec![
            ("Content-Type", "application/octet-stream"),
            ("X-Width", "800"),
            ("X-Height", "480"),
            ("X-Format", "RGB565"),
        ]
    );
    assert_eq!(raw.body.len(), WIDTH * HEIGHT * 2);
    assert!(raw.body.iter().all(|b| *b == 0xFF));
}
