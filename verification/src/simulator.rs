//! Desktop simulator: the snapshots of the simulated display (PNG files in
//! headless mode, BMP as well) and the keyboard controls of the interactive
//! window.

use vstd::prelude::*;
use vstd::string::StringExecFns;
use crate::bmp::{bmp_header, push_bmp_header, rgb565_red, rgb565_green, rgb565_blue};
use crate::png::{encode_png, png_file, zlib_len};

verus! {

/// Scales a 5-bit channel to 0..=255.
pub open spec fn scale5(c: u8) -> u8 {
    ((c as u32 * 255) / 31) as u8
}

/// Scales a 6-bit channel to 0..=255.
pub open spec fn scale6(c: u8) -> u8 {
    ((c as u32 * 255) / 63) as u8
}

/// Bytes of one BMP row of `width` pixels: rows are padded to a multiple of
/// four bytes.
pub open spec fn bmp_row_size(width: nat) -> nat {
    ((width * 3 + 3) / 4) * 4
}

/// The three BMP bytes (blue, green, red) of one RGB565 display pixel.
pub open spec fn display_pixel(p: u16) -> Seq<u8> {
    seq![scale5(rgb565_blue(p)), scale6(rgb565_green(p)), scale5(rgb565_red(p))]
}

/// The first `x` pixels of row `y`, three bytes each.
pub open spec fn display_row_prefix(px: Seq<u16>, width: nat, y: nat, x: nat) -> Seq<u8> {
    Seq::new(3 * x, |k: int| display_pixel(px[y * width + k / 3])[k % 3])
}

/// Row `y` of the pixel array, padding included.
pub open spec fn display_row(px: Seq<u16>, width: nat, y: nat) -> Seq<u8> {
    display_row_prefix(px, width, y, width) + Seq::new(
        (bmp_row_size(width) - width * 3) as nat,
        |k: int| 0u8,
    )
}

/// The first `rows` rows of the pixel array, top row first.
pub open spec fn display_rows(px: Seq<u16>, width: nat, rows: nat) -> Seq<u8>
    decreases rows,
{
    if rows == 0 {
        Seq::empty()
    } else {
        display_rows(px, width, (rows - 1) as nat) + display_row(px, width, (rows - 1) as nat)
    }
}

/// The BMP file of a `width` x `height` display.
pub open spec fn display_bmp(width: nat, height: nat, px: Seq<u16>) -> Seq<u8> {
    bmp_header(width as i32, height as i32, (bmp_row_size(width) * height) as u32) + display_rows(
        px,
        width,
        height,
    )
}

/// Sizes whose header fields and row arithmetic fit their integer types.
pub open spec fn display_size_ok(width: u32, height: u32) -> bool {
    &&& width <= i32::MAX
    &&& height <= i32::MAX
    &&& width * 3 + 3 <= u32::MAX
    &&& bmp_row_size(width as nat) * height + 54 <= u32::MAX
}

proof fn lemma_row_size_bounds(width: nat)
    ensures
        width * 3 <= bmp_row_size(width),
        bmp_row_size(width) < width * 3 + 4,
        bmp_row_size(width) % 4 == 0,
{
}

proof fn lemma_pixel_index(width: nat, height: nat, x: nat, y: nat)
    requires
        x < width,
        y < height,
    ensures
        y * width + x < width * height,
        0 <= y * width,
{
    assert(y * width + x < width * height) by (nonlinear_arith)
        requires
            x < width,
            y < height,
    ;
}

/// Encodes the `width` x `height` display (`pixels` are its RGB565 values,
/// row by row) as a 24-bit top-down BMP with rows padded to four bytes.
pub fn encode_display_bmp(width: u32, height: u32, pixels: &[u16]) -> (bmp: Vec<u8>)
    requires
        display_size_ok(width, height),
        pixels@.len() == width * height,
    ensures
        bmp@ == display_bmp(width as nat, height as nat, pixels@),
{
    let row_size: u32 = ((width * 3 + 3) / 4) * 4;
    proof {
        lemma_row_size_bounds(width as nat);
        assert(row_size as nat == bmp_row_size(width as nat));
        assert(row_size * height <= u32::MAX) by (nonlinear_arith)
            requires
                row_size as nat * height as nat + 54 <= u32::MAX,
        ;
    }
    let pixel_data_size: u32 = row_size * height;
    let mut out: Vec<u8> = Vec::new();
    push_bmp_header(&mut out, width as i32, height as i32, pixel_data_size);
    let ghost header = out@;
    let padding: usize = (row_size - width * 3) as usize;
    let n: usize = pixels.len();
    let mut y: u32 = 0;
    while y < height
        invariant
            display_size_ok(width, height),
            pixels@.len() == width * height,
            n == pixels@.len(),
            row_size as nat == bmp_row_size(width as nat),
            padding as nat == bmp_row_size(width as nat) - width * 3,
            y <= height,
            header == bmp_header(width as i32, height as i32, (bmp_row_size(width as nat) * height) as u32),
            out@ == header + display_rows(pixels@, width as nat, y as nat),
        decreases height - y,
    {
        let ghost row_start = out@;
        let mut x: u32 = 0;
        while x < width
            invariant
                pixels@.len() == width * height,
                n == pixels@.len(),
                y < height,
                x <= width,
                out@ == row_start + display_row_prefix(pixels@, width as nat, y as nat, x as nat),
            decreases width - x,
        {
            proof {
                lemma_pixel_index(width as nat, height as nat, x as nat, y as nat);
            }
            let idx: usize = (y as usize) * (width as usize) + (x as usize);
            let color = pixels[idx];
            let r = (((color >> 11u16) & 0x1F) as u8 as u32 * 255 / 31) as u8;
            let g = (((color >> 5u16) & 0x3F) as u8 as u32 * 255 / 63) as u8;
            let b = ((color & 0x1F) as u8 as u32 * 255 / 31) as u8;
            out.push(b);
            out.push(g);
            out.push(r);
            proof {
                let s = display_row_prefix(pixels@, width as nat, y as nat, (x + 1) as nat);
                assert(seq![b, g, r] == display_pixel(pixels@[idx as int]));
                assert forall|k: int| 3 * x <= k < 3 * (x + 1) implies #[trigger] s[k]
                    == seq![b, g, r][k - 3 * x] by {
                    assert(k / 3 == x as int);
                    assert(k % 3 == k - 3 * x);
                }
                assert(out@ =~= row_start + s);
            }
            x = x + 1;
        }
        let mut j: usize = 0;
        while j < padding
            invariant
                j <= padding,
                out@ == row_start + display_row_prefix(pixels@, width as nat, y as nat, width as nat)
                    + Seq::new(j as nat, |k: int| 0u8),
            decreases padding - j,
        {
            out.push(0u8);
            proof {
                assert(Seq::new(j as nat, |k: int| 0u8).push(0u8) =~= Seq::new(
                    (j + 1) as nat,
                    |k: int| 0u8,
                ));
                assert(out@ =~= row_start + display_row_prefix(
                    pixels@,
                    width as nat,
                    y as nat,
                    width as nat,
                ) + Seq::new((j + 1) as nat, |k: int| 0u8));
            }
            j = j + 1;
        }
        proof {
            assert(out@ =~= header + display_rows(pixels@, width as nat, (y + 1) as nat));
        }
        y = y + 1;
    }
    out
}

/// The three PNG bytes (red, green, blue) of one RGB565 display pixel.
pub open spec fn png_pixel(p: u16) -> Seq<u8> {
    seq![scale5(rgb565_red(p)), scale6(rgb565_green(p)), scale5(rgb565_blue(p))]
}

/// The first `x` pixels of row `y`, three bytes each.
pub open spec fn png_row_prefix(px: Seq<u16>, width: nat, y: nat, x: nat) -> Seq<u8> {
    Seq::new(3 * x, |k: int| png_pixel(px[y * width + k / 3])[k % 3])
}

/// Scanline `y`: filter type 0 (none), then the row's pixels.
pub open spec fn png_row(px: Seq<u16>, width: nat, y: nat) -> Seq<u8> {
    seq![0u8] + png_row_prefix(px, width, y, width)
}

/// The first `rows` scanlines, top row first.
pub open spec fn png_rows(px: Seq<u16>, width: nat, rows: nat) -> Seq<u8>
    decreases rows,
{
    if rows == 0 {
        Seq::empty()
    } else {
        png_rows(px, width, (rows - 1) as nat) + png_row(px, width, (rows - 1) as nat)
    }
}

/// The PNG file of a `width` x `height` display.
pub open spec fn display_png(width: u32, height: u32, px: Seq<u16>) -> Seq<u8> {
    png_file(width, height, png_rows(px, width as nat, height as nat))
}

/// Every scanline takes one filter byte and three bytes per pixel.
pub proof fn lemma_png_rows_len(px: Seq<u16>, width: nat, rows: nat)
    ensures
        png_rows(px, width, rows).len() == (3 * width + 1) * rows,
    decreases rows,
{
    if rows > 0 {
        lemma_png_rows_len(px, width, (rows - 1) as nat);
        assert((3 * width + 1) * (rows - 1) + (3 * width + 1) == (3 * width + 1) * rows)
            by (nonlinear_arith);
    } else {
        assert((3 * width + 1) * rows == 0) by (nonlinear_arith)
            requires
                rows == 0,
        ;
    }
}

/// The filtered scanlines of the `width` x `height` display (`pixels` are
/// its RGB565 values, row by row), each channel scaled to eight bits.
pub fn display_scanlines(width: u32, height: u32, pixels: &[u16]) -> (lines: Vec<u8>)
    requires
        pixels@.len() == width * height,
    ensures
        lines@ == png_rows(pixels@, width as nat, height as nat),
{
    let mut out: Vec<u8> = Vec::new();
    let n: usize = pixels.len();
    let mut y: u32 = 0;
    while y < height
        invariant
            pixels@.len() == width * height,
            n == pixels@.len(),
            y <= height,
            out@ == png_rows(pixels@, width as nat, y as nat),
        decreases height - y,
    {
        let ghost rows_before = out@;
        out.push(0u8);
        let ghost row_start = out@;
        let mut x: u32 = 0;
        while x < width
            invariant
                pixels@.len() == width * height,
                n == pixels@.len(),
                y < height,
                x <= width,
                out@ == row_start + png_row_prefix(pixels@, width as nat, y as nat, x as nat),
            decreases width - x,
        {
            proof {
                lemma_pixel_index(width as nat, height as nat, x as nat, y as nat);
            }
            let idx: usize = (y as usize) * (width as usize) + (x as usize);
            let color = pixels[idx];
            let r = (((color >> 11u16) & 0x1F) as u8 as u32 * 255 / 31) as u8;
            let g = (((color >> 5u16) & 0x3F) as u8 as u32 * 255 / 63) as u8;
            let b = ((color & 0x1F) as u8 as u32 * 255 / 31) as u8;
            out.push(r);
            out.push(g);
            out.push(b);
            proof {
                let s = png_row_prefix(pixels@, width as nat, y as nat, (x + 1) as nat);
                assert(seq![r, g, b] == png_pixel(pixels@[idx as int]));
                assert forall|k: int| 3 * x <= k < 3 * (x + 1) implies #[trigger] s[k]
                    == seq![r, g, b][k - 3 * x] by {
                    assert(k / 3 == x as int);
                    assert(k % 3 == k - 3 * x);
                }
                assert(out@ =~= row_start + s);
            }
            x = x + 1;
        }
        proof {
            assert(out@ =~= rows_before + png_row(pixels@, width as nat, y as nat));
            assert(out@ =~= png_rows(pixels@, width as nat, (y + 1) as nat));
        }
        y = y + 1;
    }
    out
}

/// Encodes the `width` x `height` display (`pixels` are its RGB565 values,
/// row by row) as an 8-bit RGB PNG.
pub fn encode_display_png(width: u32, height: u32, pixels: &[u16]) -> (png: Vec<u8>)
    requires
        pixels@.len() == width * height,
        zlib_len((3 * width + 1) * height) <= u32::MAX,
    ensures
        png@ == display_png(width, height, pixels@),
{
    let lines = display_scanlines(width, height, pixels);
    proof {
        lemma_png_rows_len(pixels@, width as nat, height as nat);
    }
    encode_png(width, height, lines.as_slice())
}

/// Screens of the simulated UI.
#[derive(Debug, Clone, Copy, PartialEq, Eq, Structural)]
pub enum SimScreen {
    Home,
    SpoolInfo,
    AmsSelect,
    Settings,
    Calibration,
    WifiSetup,
}

/// Keys the interactive simulator reacts to.
#[derive(Debug, Clone, Copy, PartialEq, Eq, Structural)]
pub enum SimKey {
    Q,
    Escape,
    Num1,
    Num2,
    Num3,
    Num4,
    Num5,
    Num6,
    W,
    S,
    Space,
    P,
    /// Any other key.
    Other,
}

/// Window events of the interactive simulator.
#[derive(Debug, Clone, Copy, PartialEq, Eq, Structural)]
pub enum SimEvent {
    /// The window was closed.
    Quit,
    KeyDown(SimKey),
    MouseButtonDown { x: i32, y: i32 },
    MouseButtonUp { x: i32, y: i32 },
    MouseMove { x: i32, y: i32 },
    /// Any other event.
    Other,
}

/// What the simulator does in answer to an event.
#[derive(Debug, Clone, Copy, PartialEq, Eq, Structural)]
pub enum SimAction {
    /// Leave the main loop.
    Quit,
    /// Show a screen.
    Navigate(SimScreen),
    /// Add 10 g to the weight, keeping the stable flag.
    IncreaseWeight,
    /// Take 10 g off the weight (not below zero), keeping the stable flag.
    DecreaseWeight,
    /// Flip the weight-stable flag, keeping the weight.
    ToggleStable,
    /// Load the demo spool.
    LoadDemoSpool,
    /// Touch pressed at a display position.
    TouchPress { x: u16, y: u16 },
    /// Touch released at a display position.
    TouchRelease { x: u16, y: u16 },
    /// Nothing to do.
    Ignore,
}

/// The action bound to a key.
pub open spec fn key_binding(key: SimKey) -> SimAction {
    match key {
        SimKey::Q | SimKey::Escape => SimAction::Quit,
        SimKey::Num1 => SimAction::Navigate(SimScreen::Home),
        SimKey::Num2 => SimAction::Navigate(SimScreen::SpoolInfo),
        SimKey::Num3 => SimAction::Navigate(SimScreen::AmsSelect),
        SimKey::Num4 => SimAction::Navigate(SimScreen::Settings),
        SimKey::Num5 => SimAction::Navigate(SimScreen::Calibration),
        SimKey::Num6 => SimAction::Navigate(SimScreen::WifiSetup),
        SimKey::W => SimAction::IncreaseWeight,
        SimKey::S => SimAction::DecreaseWeight,
        SimKey::Space => SimAction::ToggleStable,
        SimKey::P => SimAction::LoadDemoSpool,
        SimKey::Other => SimAction::Ignore,
    }
}

/// The action of a window event; mouse positions are taken modulo 2^16 as
/// display coordinates.
pub open spec fn event_binding(event: SimEvent) -> SimAction {
    match event {
        SimEvent::Quit => SimAction::Quit,
        SimEvent::KeyDown(key) => key_binding(key),
        SimEvent::MouseButtonDown { x, y } => SimAction::TouchPress { x: x as u16, y: y as u16 },
        SimEvent::MouseButtonUp { x, y } => SimAction::TouchRelease { x: x as u16, y: y as u16 },
        SimEvent::MouseMove { .. } => SimAction::Ignore,
        SimEvent::Other => SimAction::Ignore,
    }
}

/// The action bound to a key of the interactive simulator.
pub fn key_action(key: SimKey) -> (action: SimAction)
    ensures
        action == key_binding(key),
{
    match key {
        SimKey::Q | SimKey::Escape => SimAction::Quit,
        SimKey::Num1 => SimAction::Navigate(SimScreen::Home),
        SimKey::Num2 => SimAction::Navigate(SimScreen::SpoolInfo),
        SimKey::Num3 => SimAction::Navigate(SimScreen::AmsSelect),
        SimKey::Num4 => SimAction::Navigate(SimScreen::Settings),
        SimKey::Num5 => SimAction::Navigate(SimScreen::Calibration),
        SimKey::Num6 => SimAction::Navigate(SimScreen::WifiSetup),
        SimKey::W => SimAction::IncreaseWeight,
        SimKey::S => SimAction::DecreaseWeight,
        SimKey::Space => SimAction::ToggleStable,
        SimKey::P => SimAction::LoadDemoSpool,
        SimKey::Other => SimAction::Ignore,
    }
}

/// The action of a window event of the interactive simulator.
pub fn event_action(event: SimEvent) -> (action: SimAction)
    ensures
        action == event_binding(event),
{
    match event {
        SimEvent::Quit => SimAction::Quit,
        SimEvent::KeyDown(key) => key_action(key),
        SimEvent::MouseButtonDown { x, y } => SimAction::TouchPress { x: x as u16, y: y as u16 },
        SimEvent::MouseButtonUp { x, y } => SimAction::TouchRelease { x: x as u16, y: y as u16 },
        SimEvent::MouseMove { .. } => SimAction::Ignore,
        SimEvent::Other => SimAction::Ignore,
    }
}

/// The screens the headless mode renders, in order, with the names of their
/// snapshot files.
pub open spec fn headless_plan() -> Seq<(SimScreen, &'static str)> {
    seq![
        (SimScreen::Home, "home"),
        (SimScreen::SpoolInfo, "spool_info"),
        (SimScreen::AmsSelect, "ams_select"),
        (SimScreen::Settings, "settings"),
        (SimScreen::Calibration, "calibration"),
        (SimScreen::WifiSetup, "wifi_setup"),
    ]
}

/// The screens the headless mode renders, in order, with the names of their
/// snapshot files.
pub fn headless_screens() -> (screens: Vec<(SimScreen, &'static str)>)
    ensures
        screens@ == headless_plan(),
{
    let mut screens: Vec<(SimScreen, &'static str)> = Vec::new();
    screens.push((SimScreen::Home, "home"));
    screens.push((SimScreen::SpoolInfo, "spool_info"));
    screens.push((SimScreen::AmsSelect, "ams_select"));
    screens.push((SimScreen::Settings, "settings"));
    screens.push((SimScreen::Calibration, "calibration"));
    screens.push((SimScreen::WifiSetup, "wifi_setup"));
    assert(screens@ =~= headless_plan());
    screens
}

/// The entries among the first `n` of `plan` whose render succeeded
/// (`ok[i]`), in order.
pub open spec fn rendered_entries(
    plan: Seq<(SimScreen, &'static str)>,
    ok: Seq<bool>,
    n: nat,
) -> Seq<(SimScreen, &'static str)>
    decreases n,
{
    if n == 0 {
        Seq::empty()
    } else if ok[n - 1] {
        rendered_entries(plan, ok, (n - 1) as nat).push(plan[n - 1])
    } else {
        rendered_entries(plan, ok, (n - 1) as nat)
    }
}

/// The screens whose snapshots the headless mode saves, given which renders
/// succeeded (`render_ok[i]` for the i-th screen of the plan): a screen whose
/// render failed is skipped and the others are still saved, in plan order.
pub fn headless_saved(render_ok: &[bool]) -> (saved: Vec<(SimScreen, &'static str)>)
    requires
        render_ok@.len() == headless_plan().len(),
    ensures
        saved@ == rendered_entries(headless_plan(), render_ok@, headless_plan().len()),
{
    let plan = headless_screens();
    let mut saved: Vec<(SimScreen, &'static str)> = Vec::new();
    let mut i: usize = 0;
    while i < plan.len()
        invariant
            plan@ == headless_plan(),
            render_ok@.len() == plan@.len(),
            i <= plan@.len(),
            saved@ == rendered_entries(plan@, render_ok@, i as nat),
        decreases plan@.len() - i,
    {
        if render_ok[i] {
            saved.push(plan[i]);
        }
        i = i + 1;
    }
    saved
}

/// Every screen whose render succeeded is saved, whatever happened to the
/// others.
pub proof fn lemma_rendered_screens_saved(
    plan: Seq<(SimScreen, &'static str)>,
    ok: Seq<bool>,
    n: nat,
    i: int,
)
    requires
        0 <= i < n,
        n <= plan.len(),
        n <= ok.len(),
        ok[i],
    ensures
        rendered_entries(plan, ok, n).contains(plan[i]),
    decreases n,
{
    if i == n - 1 {
        let s = rendered_entries(plan, ok, (n - 1) as nat).push(plan[i]);
        assert(s[s.len() - 1] == plan[i]);
    } else {
        lemma_rendered_screens_saved(plan, ok, (n - 1) as nat, i);
        let prev = rendered_entries(plan, ok, (n - 1) as nat);
        let j = choose|j: int| 0 <= j < prev.len() && prev[j] == plan[i];
        if ok[n - 1] {
            assert(prev.push(plan[n - 1])[j] == plan[i]);
        }
    }
}

/// A failed render leaves nothing behind: only rendered screens are saved.
pub proof fn lemma_saved_screens_rendered(
    plan: Seq<(SimScreen, &'static str)>,
    ok: Seq<bool>,
    n: nat,
    k: int,
)
    requires
        n <= plan.len(),
        n <= ok.len(),
        0 <= k < rendered_entries(plan, ok, n).len(),
    ensures
        exists|i: int| 0 <= i < n && ok[i] && plan[i] == rendered_entries(plan, ok, n)[k],
    decreases n,
{
    let prev = rendered_entries(plan, ok, (n - 1) as nat);
    if ok[n - 1] && k == prev.len() {
        assert(0 <= n - 1 < n && ok[n - 1] && plan[n - 1] == rendered_entries(plan, ok, n)[k]);
    } else {
        lemma_saved_screens_rendered(plan, ok, (n - 1) as nat, k);
        let i = choose|i: int| 0 <= i < n - 1 && ok[i] && plan[i] == prev[k];
        assert(0 <= i < n && ok[i] && plan[i] == rendered_entries(plan, ok, n)[k]);
    }
}

/// Path of the PNG snapshot file of a screen: `screenshots/<name>.png`.
pub fn snapshot_path(name: &str) -> (path: String)
    ensures
        path@ == "screenshots/"@ + name@ + ".png"@,
{
    let mut path = String::from_str("screenshots/");
    path.append(name);
    path.append(".png");
    path
}

/// Every row of the snapshot takes `bmp_row_size(width)` bytes, a multiple
/// of four, so the pixel array is exactly as long as the header announces.
pub proof fn lemma_display_rows_len(px: Seq<u16>, width: nat, rows: nat)
    ensures
        display_rows(px, width, rows).len() == bmp_row_size(width) * rows,
        bmp_row_size(width) % 4 == 0,
    decreases rows,
{
    lemma_row_size_bounds(width);
    if rows > 0 {
        lemma_display_rows_len(px, width, (rows - 1) as nat);
        assert(display_row(px, width, (rows - 1) as nat).len() == bmp_row_size(width));
        assert(bmp_row_size(width) * (rows - 1) + bmp_row_size(width) == bmp_row_size(width) * rows)
            by (nonlinear_arith);
    } else {
        assert(bmp_row_size(width) * rows == 0) by (nonlinear_arith)
            requires
                rows == 0,
        ;
    }
}

/// Full-scale channels come out as 255 and empty channels as 0: white stays
/// white and black stays black in the snapshots.
pub proof fn lemma_display_pixel_extremes()
    ensures
        display_pixel(0xFFFF) == seq![255u8, 255u8, 255u8],
        display_pixel(0) == seq![0u8, 0u8, 0u8],
{
    assert(rgb565_red(0xFFFF) == 31 && rgb565_green(0xFFFF) == 63 && rgb565_blue(0xFFFF) == 31)
        by (bit_vector);
    assert(rgb565_red(0) == 0 && rgb565_green(0) == 0 && rgb565_blue(0) == 0) by (bit_vector);
}

/// Byte `j` of row `y` of the pixel array is byte `j` of that row's spec.
proof fn lemma_display_rows_index(px: Seq<u16>, width: nat, rows: nat, y: nat, j: int)
    requires
        y < rows,
        0 <= j < bmp_row_size(width),
    ensures
        display_rows(px, width, rows)[y * bmp_row_size(width) + j] == display_row(px, width, y)[j],
    decreases rows,
{
    let r = bmp_row_size(width);
    lemma_display_rows_len(px, width, (rows - 1) as nat);
    if y == rows - 1 {
        assert(y * r == r * (rows - 1)) by (nonlinear_arith)
            requires
                y == rows - 1,
        ;
    } else {
        lemma_display_rows_index(px, width, (rows - 1) as nat, y, j);
        assert(y * r + j < r * (rows - 1)) by (nonlinear_arith)
            requires
                y < rows - 1,
                0 <= j < r,
        ;
    }
}

/// Pixel (x, y) of the display is the three bytes at
/// `54 + y * row_size + 3 * x` of its BMP snapshot: the blue, green and red
/// channels of `pixels[y * width + x]`, widened to eight bits; the bytes
/// after the last pixel of a row, up to the row size, are zero.
pub proof fn lemma_display_bmp_pixel(width: u32, height: u32, px: Seq<u16>, x: int, y: int)
    requires
        display_size_ok(width, height),
        px.len() == width * height,
        0 <= x < width,
        0 <= y < height,
    ensures
        ({
            let f = display_bmp(width as nat, height as nat, px);
            let row = bmp_row_size(width as nat);
            let at = 54 + y * row + 3 * x;
            let p = px[y * width + x];
            &&& f.len() == 54 + row * height
            &&& f[at] == scale5(rgb565_blue(p))
            &&& f[at + 1] == scale6(rgb565_green(p))
            &&& f[at + 2] == scale5(rgb565_red(p))
            &&& forall|j: int| 3 * width <= j < row ==> #[trigger] f[54 + y * row + j] == 0
        }),
{
    let w = width as nat;
    let row = bmp_row_size(w);
    lemma_row_size_bounds(w);
    lemma_display_rows_len(px, w, height as nat);
    crate::bmp::lemma_bmp_header_fields(
        width as i32,
        height as i32,
        (row * height) as u32,
    );
    let f = display_bmp(w, height as nat, px);
    let rows = display_rows(px, w, height as nat);
    let header = bmp_header(width as i32, height as i32, (row * height) as u32);
    assert(f == header + rows);
    lemma_pixel_index(w, height as nat, x as nat, y as nat);
    assert forall|j: int| 0 <= j < row implies #[trigger] f[54 + y * row + j] == display_row(
        px,
        w,
        y as nat,
    )[j] by {
        lemma_display_rows_index(px, w, height as nat, y as nat, j);
        assert(y * row + j < row * height) by (nonlinear_arith)
            requires
                0 <= y < height,
                0 <= j < row,
        ;
    }
    assert forall|c: int| 0 <= c < 3 implies #[trigger] display_row(px, w, y as nat)[3 * x + c]
        == display_pixel(px[y * width + x])[c] by {
        assert((3 * x + c) / 3 == x);
        assert((3 * x + c) % 3 == c);
    }
    assert(f[54 + y * row + (3 * x + 0)] == display_row(px, w, y as nat)[3 * x + 0]);
    assert(f[54 + y * row + (3 * x + 1)] == display_row(px, w, y as nat)[3 * x + 1]);
    assert(f[54 + y * row + (3 * x + 2)] == display_row(px, w, y as nat)[3 * x + 2]);
}

/// Byte `j` of scanline `y` is byte `j` of that scanline's spec.
proof fn lemma_png_rows_index(px: Seq<u16>, width: nat, rows: nat, y: nat, j: int)
    requires
        y < rows,
        0 <= j < 3 * width + 1,
    ensures
        png_rows(px, width, rows)[y * (3 * width + 1) + j] == png_row(px, width, y)[j],
    decreases rows,
{
    let r = 3 * width + 1;
    lemma_png_rows_len(px, width, (rows - 1) as nat);
    if y == rows - 1 {
        assert(y * r == r * (rows - 1)) by (nonlinear_arith)
            requires
                y == rows - 1,
        ;
    } else {
        lemma_png_rows_index(px, width, (rows - 1) as nat, y, j);
        assert(y * r + j < r * (rows - 1)) by (nonlinear_arith)
            requires
                y < rows - 1,
                0 <= j < r,
        ;
    }
}

/// Scanline `y` of the PNG image data starts at `y * (3 * width + 1)` with
/// filter type 0, and pixel (x, y) follows at `+ 1 + 3 * x`: the red, green
/// and blue channels of `pixels[y * width + x]`, widened to eight bits.
pub proof fn lemma_png_scanline_pixel(width: u32, height: u32, px: Seq<u16>, x: int, y: int)
    requires
        px.len() == width * height,
        0 <= x < width,
        0 <= y < height,
    ensures
        ({
            let d = png_rows(px, width as nat, height as nat);
            let at = y * (3 * width + 1);
            let p = px[y * width + x];
            &&& d.len() == (3 * width + 1) * height
            &&& d[at] == 0
            &&& d[at + 1 + 3 * x] == scale5(rgb565_red(p))
            &&& d[at + 2 + 3 * x] == scale6(rgb565_green(p))
            &&& d[at + 3 + 3 * x] == scale5(rgb565_blue(p))
        }),
{
    let w = width as nat;
    lemma_png_rows_len(px, w, height as nat);
    let d = png_rows(px, w, height as nat);
    let r = 3 * w + 1;
    lemma_pixel_index(w, height as nat, x as nat, y as nat);
    assert forall|j: int| 0 <= j < r implies #[trigger] d[y * r + j] == png_row(px, w, y as nat)[j] by {
        lemma_png_rows_index(px, w, height as nat, y as nat, j);
    }
    assert forall|c: int| 0 <= c < 3 implies #[trigger] png_row(px, w, y as nat)[1 + 3 * x + c]
        == png_pixel(px[y * width + x])[c] by {
        assert((3 * x + c) / 3 == x);
        assert((3 * x + c) % 3 == c);
    }
    assert(d[y * r + 0] == png_row(px, w, y as nat)[0]);
    assert(d[y * r + (1 + 3 * x + 0)] == png_row(px, w, y as nat)[1 + 3 * x + 0]);
    assert(d[y * r + (1 + 3 * x + 1)] == png_row(px, w, y as nat)[1 + 3 * x + 1]);
    assert(d[y * r + (1 + 3 * x + 2)] == png_row(px, w, y as nat)[1 + 3 * x + 2]);
}

} // verus!
