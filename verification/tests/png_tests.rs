use spoolbuddy::png::{adler32_of, crc32_of, encode_png, zlib_store};
use spoolbuddy::simulator::{display_scanlines, encode_display_png};

fn reference_crc(data: &[u8]) -> u32 {
    let mut c: u32 = 0xFFFF_FFFF;
    for &b in data {
        c ^= b as u32;
        for _ in 0..8 {
            c = if c & 1 == 1 { (c >> 1) ^ 0xEDB8_8320 } else { c >> 1 };
        }
    }
    !c
}

fn reference_adler(data: &[u8]) -> u32 {
    let (mut a, mut b) = (1u32, 0u32);
    for &x in data {
        a = (a + x as u32) % 65521;
        b = (b + a) % 65521;
    }
    (b << 16) | a
}

fn be(b: &[u8], at: usize) -> u32 {
    u32::from_be_bytes([b[at], b[at + 1], b[at + 2], b[at + 3]])
}

/// Splits a PNG into (type, data) chunks, checking each chunk's CRC.
fn chunks(png: &[u8]) -> Vec<([u8; 4], Vec<u8>)> {
    assert_eq!(&png[..8], &[137, 80, 78, 71, 13, 10, 26, 10]);
    let mut out = Vec::new();
    let mut at = 8;
    while at < png.len() {
        let len = be(png, at) as usize;
        let ty = [png[at + 4], png[at + 5], png[at + 6], png[at + 7]];
        let data = png[at + 8..at + 8 + len].to_vec();
        let crc = be(png, at + 8 + len);
        assert_eq!(crc, reference_crc(&png[at + 4..at + 8 + len]));
        out.push((ty, data));
        at += 12 + len;
    }
    assert_eq!(at, png.len());
    out
}

/// Reads a zlib stream made of stored blocks back into its data, checking
/// the block headers and the Adler-32.
fn unstore(z: &[u8]) -> Vec<u8> {
    assert_eq!(&z[..2], &[0x78, 0x01]);
    let mut data = Vec::new();
    let mut at = 2;
    loop {
        let last = z[at];
        let len = u16::from_le_bytes([z[at + 1], z[at + 2]]);
        let nlen = u16::from_le_bytes([z[at + 3], z[at + 4]]);
        assert_eq!(nlen, !len);
        data.extend_from_slice(&z[at + 5..at + 5 + len as usize]);
        at += 5 + len as usize;
        if last == 1 {
            break;
        }
        assert_eq!(last, 0);
        assert_eq!(len, 65535);
    }
    assert_eq!(be(z, at), reference_adler(&data));
    assert_eq!(at + 4, z.len());
    data
}

#[test]
fn crc32_check_value() {
    assert_eq!(crc32_of(b"123456789"), 0xCBF4_3926);
    assert_eq!(crc32_of(b""), 0);
    assert_eq!(crc32_of(b"IEND"), 0xAE42_6082);
}

#[test]
fn adler32_check_value() {
    assert_eq!(adler32_of(b"Wikipedia"), 0x11E6_0398);
    assert_eq!(adler32_of(b""), 1);
    let big = vec![0xFFu8; 100_000];
    assert_eq!(adler32_of(&big), reference_adler(&big));
}

#[test]
fn zlib_store_empty_and_small() {
    assert_eq!(zlib_store(&[]), vec![0x78, 0x01, 0x01, 0x00, 0x00, 0xFF, 0xFF, 0, 0, 0, 1]);
    let d = [1u8, 2, 3];
    let z = zlib_store(&d);
    assert_eq!(z.len(), 6 + 5 + 3);
    assert_eq!(unstore(&z), d.to_vec());
}

#[test]
fn zlib_store_splits_long_data() {
    let d: Vec<u8> = (0..200_000u32).map(|i| (i * 7 % 251) as u8).collect();
    let z = zlib_store(&d);
    // three full blocks of 65535 bytes and a final one of 3395
    assert_eq!(z.len(), 6 + 4 * 5 + 200_000);
    assert_eq!(unstore(&z), d);
    let exact = vec![9u8; 65535];
    let z = zlib_store(&exact);
    assert_eq!(z[2], 1);
    assert_eq!(z.len(), 6 + 5 + 65535);
}

#[test]
fn png_of_one_pixel() {
    let png = encode_png(1, 1, &[0, 10, 20, 30]);
    let c = chunks(&png);
    assert_eq!(c.len(), 3);
    assert_eq!(&c[0].0, b"IHDR");
    assert_eq!(c[0].1, vec![0, 0, 0, 1, 0, 0, 0, 1, 8, 2, 0, 0, 0]);
    assert_eq!(&c[1].0, b"IDAT");
    assert_eq!(unstore(&c[1].1), vec![0, 10, 20, 30]);
    assert_eq!(&c[2].0, b"IEND");
    assert!(c[2].1.is_empty());
    assert_eq!(&png[png.len() - 12..], &[0, 0, 0, 0, 0x49, 0x45, 0x4E, 0x44, 0xAE, 0x42, 0x60, 0x82]);
}

#[test]
fn display_scanlines_scale_channels() {
    let px = [0xFFFFu16, 0x0000, 0xF800, 0x07E0, 0x001F, 0x8410];
    let lines = display_scanlines(3, 2, &px);
    assert_eq!(
        lines,
        vec![
            0, 255, 255, 255, 0, 0, 0, 255, 0, 0, //
            0, 0, 255, 0, 0, 0, 255, 131, 129, 131,
        ]
    );
}

#[test]
fn display_png_round_trip() {
    let px = [0xFFFFu16, 0x0000, 0xF800, 0x07E0, 0x001F, 0x8410];
    let png = encode_display_png(3, 2, &px);
    let c = chunks(&png);
    assert_eq!(c[0].1, vec![0, 0, 0, 3, 0, 0, 0, 2, 8, 2, 0, 0, 0]);
    assert_eq!(unstore(&c[1].1), display_scanlines(3, 2, &px));
}

#[test]
fn display_png_of_full_display() {
    let px: Vec<u16> = (0..800u32 * 480).map(|i| (i % 65536) as u16).collect();
    let png = encode_display_png(800, 480, &px);
    let c = chunks(&png);
    assert_eq!(be(&c[0].1, 0), 800);
    assert_eq!(be(&c[0].1, 4), 480);
    let data = unstore(&c[1].1);
    assert_eq!(data.len(), 2401 * 480);
    let expected = display_scanlines(800, 480, &px);
    assert_eq!(data, expected);
    // pixel (5, 7) sits after row 7's filter byte
    let p = px[7 * 800 + 5];
    let at = 7 * 2401 + 1 + 5 * 3;
    let r = ((p >> 11) & 0x1F) as u32 * 255 / 31;
    let g = ((p >> 5) & 0x3F) as u32 * 255 / 63;
    let b = (p & 0x1F) as u32 * 255 / 31;
    assert_eq!(&data[at..at + 3], &[r as u8, g as u8, b as u8]);
}
