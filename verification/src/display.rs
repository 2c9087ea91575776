//! Panel side of the device display: colour helpers of the UI, copying
//! rendered areas into the RGB565 panel framebuffer, and plotting pixels.

use vstd::prelude::*;

verus! {

/// Display width in pixels.
pub const WIDTH: usize = 800;

/// Display height in pixels.
pub const HEIGHT: usize = 480;

// Colour constants of the UI (RGB888).
pub const COLOR_BG: u32 = 0x1A1A1A;
pub const COLOR_CARD: u32 = 0x2D2D2D;
pub const COLOR_BORDER: u32 = 0x3D3D3D;
pub const COLOR_ACCENT: u32 = 0x00FF00;
pub const COLOR_WHITE: u32 = 0xFFFFFF;
pub const COLOR_GRAY: u32 = 0x808080;
pub const COLOR_TEXT_MUTED: u32 = 0x707070;
pub const COLOR_STATUS_BAR: u32 = 0x1F1F1F;

/// Red byte of an RGB888 value.
pub open spec fn red8(hex: u32) -> u8 {
    ((hex >> 16u32) & 0xFF) as u8
}

/// Green byte of an RGB888 value.
pub open spec fn green8(hex: u32) -> u8 {
    ((hex >> 8u32) & 0xFF) as u8
}

/// Blue byte of an RGB888 value.
pub open spec fn blue8(hex: u32) -> u8 {
    (hex & 0xFF) as u8
}

/// RGB565 value of an RGB888 colour: the top 5, 6 and 5 bits of red, green
/// and blue.
pub open spec fn rgb565_of(hex: u32) -> u16 {
    ((((red8(hex) >> 3u8) as u16) << 11u16) | (((green8(hex) >> 2u8) as u16) << 5u16) | ((blue8(
        hex,
    ) >> 3u8) as u16))
}

/// `a + b`, capped at 255.
pub open spec fn sat_add(a: u8, b: u8) -> u8 {
    if a + b > 255 {
        255
    } else {
        (a + b) as u8
    }
}

/// RGB888 value made of three channel bytes.
pub open spec fn rgb888(r: u8, g: u8, b: u8) -> u32 {
    ((r as u32) << 16u32) | ((g as u32) << 8u32) | (b as u32)
}

/// Helper to create a panel colour from hex: RGB888 to RGB565.
pub fn lv_color_hex(hex: u32) -> (c: u16)
    ensures
        c == rgb565_of(hex),
{
    let r = ((hex >> 16u32) & 0xFF) as u8;
    let g = ((hex >> 8u32) & 0xFF) as u8;
    let b = (hex & 0xFF) as u8;
    let r5 = (r >> 3u8) as u16;
    let g6 = (g >> 2u8) as u16;
    let b5 = (b >> 3u8) as u16;
    (r5 << 11u16) | (g6 << 5u16) | b5
}

proof fn lemma_rgb888_channels(r: u8, g: u8, b: u8)
    ensures
        red8(rgb888(r, g, b)) == r,
        green8(rgb888(r, g, b)) == g,
        blue8(rgb888(r, g, b)) == b,
        rgb888(r, g, b) <= 0xFF_FFFF,
{
    assert(((((r as u32) << 16u32) | ((g as u32) << 8u32) | (b as u32)) >> 16u32) & 0xFF == r as u32)
        by (bit_vector);
    assert(((((r as u32) << 16u32) | ((g as u32) << 8u32) | (b as u32)) >> 8u32) & 0xFF == g as u32)
        by (bit_vector);
    assert((((r as u32) << 16u32) | ((g as u32) << 8u32) | (b as u32)) & 0xFF == b as u32) by (bit_vector);
    assert((((r as u32) << 16u32) | ((g as u32) << 8u32) | (b as u32)) <= 0xFF_FFFF) by (bit_vector);
}

/// Lightens each channel of an RGB888 colour by `amount`, saturating at 255.
pub fn lighten_color(color: u32, amount: u8) -> (lighter: u32)
    ensures
        lighter == rgb888(
            sat_add(red8(color), amount),
            sat_add(green8(color), amount),
            sat_add(blue8(color), amount),
        ),
        red8(lighter) == sat_add(red8(color), amount),
        green8(lighter) == sat_add(green8(color), amount),
        blue8(lighter) == sat_add(blue8(color), amount),
        lighter <= 0xFF_FFFF,
{
    let r = ((color >> 16u32) & 0xFF) as u8;
    let g = ((color >> 8u32) & 0xFF) as u8;
    let b = (color & 0xFF) as u8;
    let r = r.saturating_add(amount);
    let g = g.saturating_add(amount);
    let b = b.saturating_add(amount);
    proof {
        lemma_rgb888_channels(r, g, b);
    }
    ((r as u32) << 16u32) | ((g as u32) << 8u32) | (b as u32)
}

/// A rectangle of the display, corners included.
#[derive(Debug, Clone, Copy)]
pub struct Area {
    pub x1: i16,
    pub y1: i16,
    pub x2: i16,
    pub y2: i16,
}

/// The area lies inside the display.
pub open spec fn area_on_display(a: Area) -> bool {
    0 <= a.x1 <= a.x2 < WIDTH && 0 <= a.y1 <= a.y2 < HEIGHT
}

/// Width of an area.
pub open spec fn area_width(a: Area) -> int {
    a.x2 - a.x1 + 1
}

/// Height of an area.
pub open spec fn area_height(a: Area) -> int {
    a.y2 - a.y1 + 1
}

/// Pixel `(x, y)` of the display lies in the area.
pub open spec fn in_area(a: Area, x: int, y: int) -> bool {
    a.x1 <= x <= a.x2 && a.y1 <= y <= a.y2
}

/// The framebuffer after copying `src` (the area's pixels, row by row) into
/// `area`: pixels outside the area keep their value.
pub open spec fn flushed(fb: Seq<u16>, a: Area, src: Seq<u16>) -> Seq<u16> {
    Seq::new(
        fb.len(),
        |i: int|
            if in_area(a, i % (WIDTH as int), i / (WIDTH as int)) {
                src[(i / (WIDTH as int) - a.y1) * area_width(a) + (i % (WIDTH as int) - a.x1)]
            } else {
                fb[i]
            },
    )
}

proof fn lemma_index_bounds(w: int, h: int, row: int, col: int)
    requires
        0 <= row < h,
        0 <= col < w,
    ensures
        0 <= row * w + col < w * h,
{
    assert(0 <= row * w + col < w * h) by (nonlinear_arith)
        requires
            0 <= row < h,
            0 <= col < w,
    ;
}

proof fn lemma_split_index(i: int)
    requires
        0 <= i,
    ensures
        i == (i / (WIDTH as int)) * (WIDTH as int) + i % (WIDTH as int),
        0 <= i % (WIDTH as int) < WIDTH,
{
}

/// Copies the rendered pixels of `area` (given row by row in `src`) into the
/// panel framebuffer.
pub fn flush_area(fb: &mut [u16], area: Area, src: &[u16])
    requires
        old(fb)@.len() == WIDTH * HEIGHT,
        area_on_display(area),
        src@.len() >= area_width(area) * area_height(area),
    ensures
        final(fb)@ == flushed(old(fb)@, area, src@),
{
    let x1 = area.x1 as usize;
    let y1 = area.y1 as usize;
    let x2 = area.x2 as usize;
    let y2 = area.y2 as usize;
    let width = x2 - x1 + 1;
    let height = y2 - y1 + 1;
    let ghost a = area;
    let ghost old_fb = fb@;
    let mut row: usize = 0;
    while row < height
        invariant
            area_on_display(a),
            x1 == a.x1,
            y1 == a.y1,
            width == area_width(a),
            height == area_height(a),
            src@.len() >= width * height,
            old_fb.len() == WIDTH * HEIGHT,
            fb@.len() == WIDTH * HEIGHT,
            row <= height,
            forall|i: int|
                0 <= i < WIDTH * HEIGHT ==> #[trigger] fb@[i] == if in_area(
                    a,
                    i % (WIDTH as int),
                    i / (WIDTH as int),
                ) && i / (WIDTH as int) < y1 + row {
                    src@[(i / (WIDTH as int) - y1) * width + (i % (WIDTH as int) - x1)]
                } else {
                    old_fb[i]
                },
        decreases height - row,
    {
        proof {
            lemma_index_bounds(width as int, height as int, row as int, 0);
            assert(row * width <= width * height) by (nonlinear_arith)
                requires
                    row < height,
            ;
            assert(width * height <= WIDTH * HEIGHT) by (nonlinear_arith)
                requires
                    width <= WIDTH,
                    height <= HEIGHT,
            ;
        }
        let src_offset = row * width;
        let dst_offset = (y1 + row) * WIDTH + x1;
        let mut col: usize = 0;
        while col < width
            invariant
                area_on_display(a),
                x1 == a.x1,
                y1 == a.y1,
                width == area_width(a),
                height == area_height(a),
                src@.len() >= width * height,
                old_fb.len() == WIDTH * HEIGHT,
                fb@.len() == WIDTH * HEIGHT,
                row < height,
                src_offset == row * width,
                dst_offset == (y1 + row) * WIDTH + x1,
                col <= width,
                forall|i: int|
                    0 <= i < WIDTH * HEIGHT ==> #[trigger] fb@[i] == if in_area(
                        a,
                        i % (WIDTH as int),
                        i / (WIDTH as int),
                    ) && (i / (WIDTH as int) < y1 + row || (i / (WIDTH as int) == y1 + row && i
                        % (WIDTH as int) < x1 + col)) {
                        src@[(i / (WIDTH as int) - y1) * width + (i % (WIDTH as int) - x1)]
                    } else {
                        old_fb[i]
                    },
            decreases width - col,
        {
            proof {
                lemma_index_bounds(width as int, height as int, row as int, col as int);
                assert(width * height <= WIDTH * HEIGHT) by (nonlinear_arith)
                    requires
                        width <= WIDTH,
                        height <= HEIGHT,
                ;
            }
            let v = src[src_offset + col];
            let ghost before = fb@;
            let ghost d = (dst_offset + col) as int;
            proof {
                lemma_split_index(d);
                assert(d / (WIDTH as int) == y1 + row);
                assert(d % (WIDTH as int) == x1 + col);
            }
            fb[dst_offset + col] = v;
            proof {
                assert forall|i: int| 0 <= i < WIDTH * HEIGHT implies #[trigger] fb@[i] == if in_area(
                    a,
                    i % (WIDTH as int),
                    i / (WIDTH as int),
                ) && (i / (WIDTH as int) < y1 + row || (i / (WIDTH as int) == y1 + row && i
                    % (WIDTH as int) < x1 + col + 1)) {
                    src@[(i / (WIDTH as int) - y1) * width + (i % (WIDTH as int) - x1)]
                } else {
                    old_fb[i]
                } by {
                    if i != d {
                        lemma_split_index(i);
                        assert(before[i] == fb@[i]);
                    }
                }
            }
            col = col + 1;
        }
        row = row + 1;
    }
    proof {
        assert forall|i: int| 0 <= i < WIDTH * HEIGHT implies fb@[i] == flushed(old_fb, a, src@)[i] by {
            lemma_split_index(i);
        }
        assert(fb@ =~= flushed(old_fb, a, src@));
    }
}

/// Writes `color` at pixel `(x, y)` of the framebuffer; points off the
/// display are ignored.
pub fn put_pixel(fb: &mut [u16], x: i32, y: i32, color: u16)
    requires
        old(fb)@.len() == WIDTH * HEIGHT,
    ensures
        0 <= x < WIDTH && 0 <= y < HEIGHT ==> final(fb)@ == old(fb)@.update(y * WIDTH + x, color),
        !(0 <= x < WIDTH && 0 <= y < HEIGHT) ==> final(fb)@ == old(fb)@,
{
    if x >= 0 && x < WIDTH as i32 && y >= 0 && y < HEIGHT as i32 {
        let idx = (y as usize) * WIDTH + (x as usize);
        fb[idx] = color;
    }
}

/// Size of the panel framebuffer as (width, height).
pub fn panel_size() -> (size: (u32, u32))
    ensures
        size == (WIDTH as u32, HEIGHT as u32),
{
    (WIDTH as u32, HEIGHT as u32)
}

/// The panel colour of an RGB888 value keeps the top 5, 6 and 5 bits of its
/// red, green and blue bytes.
pub proof fn lemma_rgb565_keeps_top_bits(hex: u32)
    ensures
        crate::bmp::rgb565_red(rgb565_of(hex)) == red8(hex) >> 3u8,
        crate::bmp::rgb565_green(rgb565_of(hex)) == green8(hex) >> 2u8,
        crate::bmp::rgb565_blue(rgb565_of(hex)) == blue8(hex) >> 3u8,
{
    let r = red8(hex);
    let g = green8(hex);
    let b = blue8(hex);
    let c = rgb565_of(hex);
    assert(c == ((((r >> 3u8) as u16) << 11u16) | (((g >> 2u8) as u16) << 5u16) | ((b >> 3u8) as u16)));
    assert(((((((r >> 3u8) as u16) << 11u16) | (((g >> 2u8) as u16) << 5u16) | ((b >> 3u8) as u16))
        >> 11u16) & 0x1F) as u8 == r >> 3u8) by (bit_vector);
    assert(((((((r >> 3u8) as u16) << 11u16) | (((g >> 2u8) as u16) << 5u16) | ((b >> 3u8) as u16))
        >> 5u16) & 0x3F) as u8 == g >> 2u8) by (bit_vector);
    assert((((((r >> 3u8) as u16) << 11u16) | (((g >> 2u8) as u16) << 5u16) | ((b >> 3u8) as u16))
        & 0x1F) as u8 == b >> 3u8) by (bit_vector);
}

/// Lightening by nothing only drops the bits above the 24 colour bits, and
/// lightening never darkens a channel.
pub proof fn lemma_lighten_properties(color: u32, amount: u8)
    ensures
        rgb888(sat_add(red8(color), 0), sat_add(green8(color), 0), sat_add(blue8(color), 0)) == color
            & 0xFF_FFFF,
        sat_add(red8(color), amount) >= red8(color),
        sat_add(green8(color), amount) >= green8(color),
        sat_add(blue8(color), amount) >= blue8(color),
{
    let r = red8(color);
    let g = green8(color);
    let b = blue8(color);
    assert(sat_add(r, 0) == r && sat_add(g, 0) == g && sat_add(b, 0) == b);
    assert(((((color >> 16u32) & 0xFF) as u8 as u32) << 16u32) | ((((color >> 8u32) & 0xFF) as u8
        as u32) << 8u32) | ((color & 0xFF) as u8 as u32) == color & 0xFF_FFFF) by (bit_vector);
}

} // verus!
