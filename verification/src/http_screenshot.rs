//! HTTP screenshot endpoint of the device: what each route answers, and the
//! BMP image made from the RGB565 panel framebuffer.
//!
//! Routes: `/` (viewer page), `/screenshot` (BMP image) and `/raw` (the
//! framebuffer as it lies in memory).

use vstd::prelude::*;
use vstd::string::{StringSliceAdditionalSpecFns, StrSliceExecFns};
use crate::bmp::{bmp_header, push_bmp_header, rgb565_red, rgb565_green, rgb565_blue};

verus! {

/// Display width in pixels.
pub const WIDTH: usize = 800;

/// Display height in pixels.
pub const HEIGHT: usize = 480;

/// Simple viewer page with auto-refresh.
pub const VIEWER_HTML: &'static str = "<!DOCTYPE html>
<html>
<head>
    <title>SpoolBuddy Display</title>
    <style>
        body { background: #1a1a2e; margin: 0; display: flex; flex-direction: column; align-items: center; justify-content: center; min-height: 100vh; font-family: system-ui; }
        h1 { color: #eee; margin-bottom: 20px; }
        img { border: 2px solid #333; border-radius: 8px; max-width: 100%; height: auto; }
        .controls { margin-top: 20px; }
        button { background: #4a4a6a; color: white; border: none; padding: 10px 20px; border-radius: 4px; cursor: pointer; margin: 0 5px; }
        button:hover { background: #5a5a7a; }
        .info { color: #888; margin-top: 10px; font-size: 14px; }
    </style>
</head>
<body>
    <h1>SpoolBuddy Display</h1>
    <img id=\"display\" src=\"/screenshot\" alt=\"Display\">
    <div class=\"controls\">
        <button onclick=\"refresh()\">Refresh</button>
        <button onclick=\"toggleAuto()\">Auto-refresh: <span id=\"autoStatus\">OFF</span></button>
    </div>
    <div class=\"info\">800x480 RGB565 | Click refresh or enable auto-refresh</div>
    <script>
        let autoRefresh = false;
        let interval = null;
        function refresh() {
            document.getElementById('display').src = '/screenshot?' + Date.now();
        }
        function toggleAuto() {
            autoRefresh = !autoRefresh;
            document.getElementById('autoStatus').textContent = autoRefresh ? 'ON' : 'OFF';
            if (autoRefresh) {
                interval = setInterval(refresh, 1000);
            } else {
                clearInterval(interval);
            }
        }
    </script>
</body>
</html>";

/// Body of the error reply when no framebuffer has been registered.
pub const NO_FRAMEBUFFER_BODY: &'static str = "Framebuffer not available";

/// Widens a 5-bit channel to 8 bits by repeating its top bits.
pub open spec fn expand5(c: u8) -> u8 {
    (c << 3u8) | (c >> 2u8)
}

/// Widens a 6-bit channel to 8 bits by repeating its top bits.
pub open spec fn expand6(c: u8) -> u8 {
    (c << 2u8) | (c >> 4u8)
}

/// The three BMP bytes (blue, green, red) of one RGB565 pixel.
pub open spec fn screenshot_pixel(p: u16) -> Seq<u8> {
    seq![expand5(rgb565_blue(p)), expand6(rgb565_green(p)), expand5(rgb565_red(p))]
}

/// Pixel array of the screenshot: three bytes per pixel, row-major.
pub open spec fn screenshot_pixels(fb: Seq<u16>) -> Seq<u8> {
    Seq::new(3 * fb.len(), |k: int| screenshot_pixel(fb[k / 3])[k % 3])
}

/// The whole BMP file of a display-sized framebuffer.
pub open spec fn screenshot_bmp(fb: Seq<u16>) -> Seq<u8> {
    bmp_header(WIDTH as i32, HEIGHT as i32, (WIDTH * HEIGHT * 3) as u32) + screenshot_pixels(fb)
}

/// Converts one RGB565 pixel to 8-bit blue, green and red.
pub fn rgb565_to_bgr888(rgb565: u16) -> (bgr: (u8, u8, u8))
    ensures
        seq![bgr.0, bgr.1, bgr.2] == screenshot_pixel(rgb565),
{
    let r = ((rgb565 >> 11u16) & 0x1F) as u8;
    let g = ((rgb565 >> 5u16) & 0x3F) as u8;
    let b = (rgb565 & 0x1F) as u8;
    let r8 = (r << 3u8) | (r >> 2u8);
    let g8 = (g << 2u8) | (g >> 4u8);
    let b8 = (b << 3u8) | (b >> 2u8);
    (b8, g8, r8)
}

/// Creates a BMP file from the RGB565 framebuffer (`fb` holds the
/// `WIDTH * HEIGHT` pixels row by row).
pub fn create_bmp_from_rgb565(fb: &[u16]) -> (bmp: Vec<u8>)
    requires
        fb@.len() == WIDTH * HEIGHT,
    ensures
        bmp@ == screenshot_bmp(fb@),
{
    let pixel_data_size: usize = WIDTH * HEIGHT * 3;
    let file_size: usize = 54 + pixel_data_size;
    let mut bmp: Vec<u8> = Vec::with_capacity(file_size);
    push_bmp_header(&mut bmp, WIDTH as i32, HEIGHT as i32, pixel_data_size as u32);
    let ghost header = bmp@;
    let n = fb.len();
    let mut idx: usize = 0;
    while idx < n
        invariant
            n == fb@.len(),
            n == WIDTH * HEIGHT,
            idx <= n,
            header == bmp_header(WIDTH as i32, HEIGHT as i32, (WIDTH * HEIGHT * 3) as u32),
            bmp@ == header + Seq::new(3 * idx as nat, |k: int| screenshot_pixel(fb@[k / 3])[k % 3]),
        decreases n - idx,
    {
        let (b8, g8, r8) = rgb565_to_bgr888(fb[idx]);
        let ghost before = bmp@;
        bmp.push(b8);
        bmp.push(g8);
        bmp.push(r8);
        assert(bmp@ =~= header + Seq::new(
            3 * (idx + 1) as nat,
            |k: int| screenshot_pixel(fb@[k / 3])[k % 3],
        )) by {
            let f = |k: int| screenshot_pixel(fb@[k / 3])[k % 3];
            let s = Seq::new(3 * (idx + 1) as nat, f);
            assert(seq![b8, g8, r8] == screenshot_pixel(fb@[idx as int]));
            assert forall|k: int| 3 * idx <= k < 3 * (idx + 1) implies #[trigger] s[k]
                == seq![b8, g8, r8][k - 3 * idx] by {
                assert(k / 3 == idx as int);
                assert(k % 3 == k - 3 * idx);
            }
        }
        idx = idx + 1;
    }
    assert(screenshot_pixels(fb@) =~= Seq::new(
        3 * n as nat,
        |k: int| screenshot_pixel(fb@[k / 3])[k % 3],
    ));
    bmp
}

/// Routes served by the screenshot server.
#[derive(Debug, Clone, Copy, PartialEq, Eq, Structural)]
pub enum ScreenshotRoute {
    /// `/`: the viewer page.
    Viewer,
    /// `/screenshot`: the display as a BMP image.
    Screenshot,
    /// `/raw`: the raw RGB565 framebuffer.
    Raw,
}

/// What a route answers: status, headers and body.
pub struct HttpReply {
    pub status: u16,
    pub headers: Vec<(&'static str, &'static str)>,
    pub body: Vec<u8>,
}

/// Framebuffer bytes as they lie in the device's (little-endian) memory.
pub open spec fn raw_framebuffer_bytes(fb: Seq<u16>) -> Seq<u8> {
    Seq::new(2 * fb.len(), |k: int| crate::bmp::le_u16(fb[k / 2])[k % 2])
}

/// Headers of the BMP screenshot reply.
pub open spec fn screenshot_headers() -> Seq<(&'static str, &'static str)> {
    seq![("Content-Type", "image/bmp"), ("Cache-Control", "no-cache")]
}

/// Headers of the raw framebuffer reply.
pub open spec fn raw_headers() -> Seq<(&'static str, &'static str)> {
    seq![
        ("Content-Type", "application/octet-stream"),
        ("X-Width", "800"),
        ("X-Height", "480"),
        ("X-Format", "RGB565"),
    ]
}

/// The little-endian bytes of every pixel of the framebuffer.
pub fn raw_framebuffer(fb: &[u16]) -> (bytes: Vec<u8>)
    requires
        fb@.len() * 2 <= usize::MAX,
    ensures
        bytes@ == raw_framebuffer_bytes(fb@),
{
    let n = fb.len();
    let mut out: Vec<u8> = Vec::with_capacity(n * 2);
    let mut idx: usize = 0;
    while idx < n
        invariant
            n == fb@.len(),
            idx <= n,
            out@ == Seq::new(2 * idx as nat, |k: int| crate::bmp::le_u16(fb@[k / 2])[k % 2]),
        decreases n - idx,
    {
        let p = fb[idx];
        out.push((p & 0xFF) as u8);
        out.push(((p >> 8u16) & 0xFF) as u8);
        assert(out@ =~= Seq::new(
            2 * (idx + 1) as nat,
            |k: int| crate::bmp::le_u16(fb@[k / 2])[k % 2],
        )) by {
            let s = Seq::new(
                2 * (idx + 1) as nat,
                |k: int| crate::bmp::le_u16(fb@[k / 2])[k % 2],
            );
            assert forall|k: int| 2 * idx <= k < 2 * (idx + 1) implies #[trigger] s[k]
                == crate::bmp::le_u16(p)[k - 2 * idx] by {
                assert(k / 2 == idx as int);
                assert(k % 2 == k - 2 * idx);
            }
        }
        idx = idx + 1;
    }
    out
}

/// The reply of `route`, given the registered framebuffer (`None` while no
/// framebuffer has been registered).
pub fn screenshot_reply(route: ScreenshotRoute, framebuffer: Option<&[u16]>) -> (reply: HttpReply)
    requires
        framebuffer matches Some(fb) ==> fb@.len() == WIDTH * HEIGHT,
    ensures
        route == ScreenshotRoute::Viewer ==> {
            &&& reply.status == 200
            &&& reply.headers@.len() == 0
            &&& reply.body@ == VIEWER_HTML.spec_bytes()
        },
        route != ScreenshotRoute::Viewer && framebuffer is None ==> {
            &&& reply.status == 500
            &&& reply.headers@.len() == 0
            &&& reply.body@ == NO_FRAMEBUFFER_BODY.spec_bytes()
        },
        route == ScreenshotRoute::Screenshot && framebuffer is Some ==> {
            &&& reply.status == 200
            &&& reply.headers@ == screenshot_headers()
            &&& reply.body@ == screenshot_bmp(framebuffer.unwrap()@)
        },
        route == ScreenshotRoute::Raw && framebuffer is Some ==> {
            &&& reply.status == 200
            &&& reply.headers@ == raw_headers()
            &&& reply.body@ == raw_framebuffer_bytes(framebuffer.unwrap()@)
        },
{
    match route {
        ScreenshotRoute::Viewer => HttpReply {
            status: 200,
            headers: Vec::new(),
            body: VIEWER_HTML.as_bytes_vec(),
        },
        _ => match framebuffer {
            None => HttpReply {
                status: 500,
                headers: Vec::new(),
                body: NO_FRAMEBUFFER_BODY.as_bytes_vec(),
            },
            Some(fb) => {
                if route == ScreenshotRoute::Screenshot {
                    let mut headers: Vec<(&'static str, &'static str)> = Vec::new();
                    headers.push(("Content-Type", "image/bmp"));
                    headers.push(("Cache-Control", "no-cache"));
                    assert(headers@ =~= screenshot_headers());
                    HttpReply { status: 200, headers, body: create_bmp_from_rgb565(fb) }
                } else {
                    let mut headers: Vec<(&'static str, &'static str)> = Vec::new();
                    headers.push(("Content-Type", "application/octet-stream"));
                    headers.push(("X-Width", "800"));
                    headers.push(("X-Height", "480"));
                    headers.push(("X-Format", "RGB565"));
                    assert(headers@ =~= raw_headers());
                    HttpReply { status: 200, headers, body: raw_framebuffer(fb) }
                }
            },
        },
    }
}

/// Widening a channel to 8 bits keeps the channel in the top bits.
pub proof fn lemma_expand_keeps_channel(c5: u8, c6: u8)
    requires
        c5 < 32,
        c6 < 64,
    ensures
        expand5(c5) >> 3u8 == c5,
        expand6(c6) >> 2u8 == c6,
        c5 == 31 ==> expand5(c5) == 255,
        c6 == 63 ==> expand6(c6) == 255,
        c5 == 0 ==> expand5(c5) == 0,
        c6 == 0 ==> expand6(c6) == 0,
{
    assert(c5 < 32 ==> ((c5 << 3u8) | (c5 >> 2u8)) >> 3u8 == c5) by (bit_vector);
    assert(c6 < 64 ==> ((c6 << 2u8) | (c6 >> 4u8)) >> 2u8 == c6) by (bit_vector);
    assert(c5 == 31 ==> ((c5 << 3u8) | (c5 >> 2u8)) == 255) by (bit_vector);
    assert(c6 == 63 ==> ((c6 << 2u8) | (c6 >> 4u8)) == 255) by (bit_vector);
    assert(c5 == 0 ==> ((c5 << 3u8) | (c5 >> 2u8)) == 0) by (bit_vector);
    assert(c6 == 0 ==> ((c6 << 2u8) | (c6 >> 4u8)) == 0) by (bit_vector);
}

/// A UI colour drawn on the panel shows in the screenshot with the top
/// 5, 6 and 5 bits of its red, green and blue bytes.
pub proof fn lemma_screenshot_shows_ui_color(hex: u32)
    ensures
        screenshot_pixel(crate::display::rgb565_of(hex))[0] >> 3u8 == crate::display::blue8(hex) >> 3u8,
        screenshot_pixel(crate::display::rgb565_of(hex))[1] >> 2u8 == crate::display::green8(hex) >> 2u8,
        screenshot_pixel(crate::display::rgb565_of(hex))[2] >> 3u8 == crate::display::red8(hex) >> 3u8,
{
    let p = crate::display::rgb565_of(hex);
    crate::display::lemma_rgb565_keeps_top_bits(hex);
    let r = rgb565_red(p);
    let g = rgb565_green(p);
    let b = rgb565_blue(p);
    let x = crate::display::blue8(hex);
    let y = crate::display::green8(hex);
    let z = crate::display::red8(hex);
    assert(x >> 3u8 < 32 && y >> 2u8 < 64 && z >> 3u8 < 32) by (bit_vector);
    lemma_expand_keeps_channel(b, g);
    lemma_expand_keeps_channel(r, g);
}

/// Pixel `i` of the framebuffer is the three bytes at `54 + 3 * i` of the
/// screenshot, and the screenshot is exactly header plus pixels long.
pub proof fn lemma_screenshot_layout(fb: Seq<u16>, i: int)
    requires
        fb.len() == WIDTH * HEIGHT,
        0 <= i < fb.len(),
    ensures
        screenshot_bmp(fb).len() == 54 + 3 * WIDTH * HEIGHT,
        screenshot_bmp(fb).subrange(54 + 3 * i, 54 + 3 * i + 3) == screenshot_pixel(fb[i]),
{
    crate::bmp::lemma_bmp_header_fields(WIDTH as i32, HEIGHT as i32, (WIDTH * HEIGHT * 3) as u32);
    let s = screenshot_bmp(fb);
    assert forall|j: int| 0 <= j < 3 implies #[trigger] s[54 + 3 * i + j] == screenshot_pixel(fb[i])[j] by {
        assert((3 * i + j) / 3 == i);
        assert((3 * i + j) % 3 == j);
    }
    assert(s.subrange(54 + 3 * i, 54 + 3 * i + 3) =~= screenshot_pixel(fb[i]));
}

/// A pixel plotted on the panel shows in the next screenshot: the three
/// bytes of pixel `(x, y)` are the BMP bytes of the plotted colour.
pub proof fn lemma_plotted_pixel_in_screenshot(fb: Seq<u16>, x: int, y: int, color: u16)
    requires
        fb.len() == WIDTH * HEIGHT,
        0 <= x < WIDTH,
        0 <= y < HEIGHT,
    ensures
        ({
            let i = y * WIDTH + x;
            screenshot_bmp(fb.update(i, color)).subrange(54 + 3 * i, 54 + 3 * i + 3)
                == screenshot_pixel(color)
        }),
{
    let i = y * WIDTH + x;
    assert(0 <= i < WIDTH * HEIGHT) by (nonlinear_arith)
        requires
            0 <= x < WIDTH,
            0 <= y < HEIGHT,
            i == y * WIDTH + x,
    ;
    lemma_screenshot_layout(fb.update(i, color), i);
}

/// The `/raw` body is the framebuffer as it lies in little-endian memory:
/// pixel `i` is the two bytes at `2 * i`, low byte first, and reading them
/// back gives the pixel.
pub proof fn lemma_raw_bytes_little_endian(fb: Seq<u16>, i: int)
    requires
        0 <= i < fb.len(),
    ensures
        raw_framebuffer_bytes(fb).len() == 2 * fb.len(),
        raw_framebuffer_bytes(fb)[2 * i] == (fb[i] & 0xFF) as u8,
        raw_framebuffer_bytes(fb)[2 * i + 1] == (fb[i] >> 8u16) as u8,
        (raw_framebuffer_bytes(fb)[2 * i] as u16) | ((raw_framebuffer_bytes(fb)[2 * i + 1] as u16)
            << 8u16) == fb[i],
{
    let s = raw_framebuffer_bytes(fb);
    assert((2 * i) / 2 == i && (2 * i) % 2 == 0);
    assert((2 * i + 1) / 2 == i && (2 * i + 1) % 2 == 1);
    let v = fb[i];
    assert(s[2 * i] == (v & 0xFF) as u8);
    assert(s[2 * i + 1] == ((v >> 8u16) & 0xFF) as u8);
    assert(((v >> 8u16) & 0xFF) as u8 == (v >> 8u16) as u8) by (bit_vector);
    assert((((v & 0xFF) as u8) as u16) | ((((v >> 8u16) as u8) as u16) << 8u16) == v)
        by (bit_vector);
}

} // verus!
