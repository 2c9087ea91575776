//! Windows BMP (BITMAPINFOHEADER, 24 bits per pixel, top-down) encoding
//! shared by the device screenshot endpoint and the desktop simulator, and
//! the RGB565 channel layout both of them read pixels in.

use vstd::prelude::*;

verus! {

/// Size of the BMP file header plus the BITMAPINFOHEADER, which is also the
/// offset of the first pixel byte.
pub const BMP_HEADER_LEN: u32 = 54;

/// Little-endian bytes of a `u16`.
pub open spec fn le_u16(v: u16) -> Seq<u8> {
    seq![(v & 0xFF) as u8, ((v >> 8u16) & 0xFF) as u8]
}

/// Little-endian bytes of a `u32`.
pub open spec fn le_u32(v: u32) -> Seq<u8> {
    seq![
        (v & 0xFF) as u8,
        ((v >> 8u32) & 0xFF) as u8,
        ((v >> 16u32) & 0xFF) as u8,
        ((v >> 24u32) & 0xFF) as u8,
    ]
}

/// Little-endian bytes of an `i32` (two's complement).
pub open spec fn le_i32(v: i32) -> Seq<u8> {
    le_u32(v as u32)
}

/// The `u32` stored little-endian at `at` in `s`.
pub open spec fn read_le_u32(s: Seq<u8>, at: int) -> u32 {
    (s[at] as u32) | ((s[at + 1] as u32) << 8u32) | ((s[at + 2] as u32) << 16u32) | ((s[at + 3]
        as u32) << 24u32)
}

/// The 54 header bytes of a 24-bit top-down BMP of `width` x `height`
/// pixels whose pixel array takes `pixel_data_size` bytes.
pub open spec fn bmp_header(width: i32, height: i32, pixel_data_size: u32) -> Seq<u8> {
    // BITMAPFILEHEADER
    seq![0x42u8, 0x4Du8]  // "BM"
     + le_u32((54 + pixel_data_size) as u32)  // file size
     + seq![0u8, 0u8, 0u8, 0u8]  // reserved
     + le_u32(54)  // pixel data offset
    // BITMAPINFOHEADER
     + le_u32(40)  // header size
     + le_i32(width) + le_i32((-height) as i32)  // negative height: top-down rows
     + le_u16(1)  // colour planes
     + le_u16(24)  // bits per pixel
     + le_u32(0)  // no compression
     + le_u32(pixel_data_size) + le_u32(2835)  // horizontal pixels per metre
     + le_u32(2835)  // vertical pixels per metre
     + le_u32(0)  // colours in palette
     + le_u32(0)  // important colours

}

/// Red channel (5 bits) of an RGB565 value.
pub open spec fn rgb565_red(p: u16) -> u8 {
    ((p >> 11u16) & 0x1F) as u8
}

/// Green channel (6 bits) of an RGB565 value.
pub open spec fn rgb565_green(p: u16) -> u8 {
    ((p >> 5u16) & 0x3F) as u8
}

/// Blue channel (5 bits) of an RGB565 value.
pub open spec fn rgb565_blue(p: u16) -> u8 {
    (p & 0x1F) as u8
}

/// Appends the little-endian bytes of `v`.
pub fn push_u32_le(out: &mut Vec<u8>, v: u32)
    ensures
        final(out)@ == old(out)@ + le_u32(v),
{
    out.push((v & 0xFF) as u8);
    out.push(((v >> 8u32) & 0xFF) as u8);
    out.push(((v >> 16u32) & 0xFF) as u8);
    out.push(((v >> 24u32) & 0xFF) as u8);
    assert(out@ =~= old(out)@ + le_u32(v));
}

/// Appends the little-endian bytes of `v`.
pub fn push_u16_le(out: &mut Vec<u8>, v: u16)
    ensures
        final(out)@ == old(out)@ + le_u16(v),
{
    out.push((v & 0xFF) as u8);
    out.push(((v >> 8u16) & 0xFF) as u8);
    assert(out@ =~= old(out)@ + le_u16(v));
}

/// Appends the little-endian (two's complement) bytes of `v`.
pub fn push_i32_le(out: &mut Vec<u8>, v: i32)
    ensures
        final(out)@ == old(out)@ + le_i32(v),
{
    push_u32_le(out, v as u32);
}

/// Appends the 54-byte header of a 24-bit top-down BMP.
pub fn push_bmp_header(out: &mut Vec<u8>, width: i32, height: i32, pixel_data_size: u32)
    requires
        height > i32::MIN,
        pixel_data_size + 54 <= u32::MAX,
    ensures
        final(out)@ == old(out)@ + bmp_header(width, height, pixel_data_size),
{
    let ghost start = out@;
    let file_size: u32 = BMP_HEADER_LEN + pixel_data_size;
    // BITMAPFILEHEADER
    out.push(0x42u8);
    out.push(0x4Du8);
    push_u32_le(out, file_size);
    out.push(0u8);
    out.push(0u8);
    out.push(0u8);
    out.push(0u8);
    push_u32_le(out, BMP_HEADER_LEN);
    // BITMAPINFOHEADER
    push_u32_le(out, 40);
    push_i32_le(out, width);
    push_i32_le(out, -height);
    push_u16_le(out, 1);
    push_u16_le(out, 24);
    push_u32_le(out, 0);
    push_u32_le(out, pixel_data_size);
    push_u32_le(out, 2835);
    push_u32_le(out, 2835);
    push_u32_le(out, 0);
    push_u32_le(out, 0);
    assert(out@ =~= start + bmp_header(width, height, pixel_data_size));
}

/// Reading back the four bytes written for a `u32` gives the `u32`.
pub proof fn lemma_le_u32_roundtrip(v: u32)
    ensures
        read_le_u32(le_u32(v), 0) == v,
{
    let b0 = (v & 0xFF) as u8;
    let b1 = ((v >> 8u32) & 0xFF) as u8;
    let b2 = ((v >> 16u32) & 0xFF) as u8;
    let b3 = ((v >> 24u32) & 0xFF) as u8;
    assert(((b0 as u32) | ((b1 as u32) << 8u32) | ((b2 as u32) << 16u32) | ((b3 as u32) << 24u32))
        == v) by (bit_vector)
        requires
            b0 == (v & 0xFF) as u8,
            b1 == ((v >> 8u32) & 0xFF) as u8,
            b2 == ((v >> 16u32) & 0xFF) as u8,
            b3 == ((v >> 24u32) & 0xFF) as u8,
    ;
}

/// Every BMP header is 54 bytes long, and its size and offset fields record
/// the file length and the start of the pixel array.
pub proof fn lemma_bmp_header_fields(width: i32, height: i32, pixel_data_size: u32)
    requires
        pixel_data_size + 54 <= u32::MAX,
    ensures
        bmp_header(width, height, pixel_data_size).len() == 54,
        read_le_u32(bmp_header(width, height, pixel_data_size), 2) == 54 + pixel_data_size,
        read_le_u32(bmp_header(width, height, pixel_data_size), 10) == 54,
        read_le_u32(bmp_header(width, height, pixel_data_size), 34) == pixel_data_size,
{
    let h = bmp_header(width, height, pixel_data_size);
    let fs = (54 + pixel_data_size) as u32;
    lemma_le_u32_roundtrip(fs);
    lemma_le_u32_roundtrip(54);
    lemma_le_u32_roundtrip(pixel_data_size);
    assert(h.subrange(2, 6) =~= le_u32(fs));
    assert(h.subrange(10, 14) =~= le_u32(54));
    assert(h.subrange(34, 38) =~= le_u32(pixel_data_size));
    assert(h[2] == le_u32(fs)[0] && h[3] == le_u32(fs)[1] && h[4] == le_u32(fs)[2] && h[5]
        == le_u32(fs)[3]);
    assert(h[10] == le_u32(54)[0] && h[11] == le_u32(54)[1] && h[12] == le_u32(54)[2] && h[13]
        == le_u32(54)[3]);
    assert(h[34] == le_u32(pixel_data_size)[0] && h[35] == le_u32(pixel_data_size)[1] && h[36]
        == le_u32(pixel_data_size)[2] && h[37] == le_u32(pixel_data_size)[3]);
}

} // verus!
