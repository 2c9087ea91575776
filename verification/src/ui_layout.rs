//! Placement and styling decisions of the device UI widgets: where the
//! spools of an AMS unit, the colour squares of a slot and the catalog cards
//! go, and which colours the slot, pill and badge widgets take.
//!
//! Positions are `i16` pixels, computed with the same integer arithmetic
//! (division truncating toward zero) as the widget code.

use vstd::prelude::*;
use crate::display::{COLOR_ACCENT, COLOR_TEXT_MUTED, COLOR_WHITE};
use crate::text::str_equal;

verus! {

/// Colour shown for an empty slot (colour value 0).
pub const COLOR_EMPTY_SWATCH: u32 = 0x505050;

/// The value fits an `i16`.
pub open spec fn fits_i16(v: int) -> bool {
    i16::MIN <= v <= i16::MAX
}

/// Integer division truncating toward zero, as `i16` division does.
pub open spec fn trunc_div(a: int, b: int) -> int {
    if a >= 0 {
        a / b
    } else {
        -((-a) / b)
    }
}

/// Swatch colour of a slot: its filament colour, grey when empty.
pub open spec fn swatch(color: u32) -> u32 {
    if color == 0 {
        COLOR_EMPTY_SWATCH
    } else {
        color
    }
}

/// Swatch colour of a slot: its filament colour, grey when empty.
pub fn swatch_color(color: u32) -> (c: u32)
    ensures
        c == swatch(color),
{
    if color == 0 {
        COLOR_EMPTY_SWATCH
    } else {
        color
    }
}

/// Colour of a settings-row status: accent for "green", muted otherwise.
pub fn status_dot_color(status: &str) -> (c: u32)
    ensures
        c == (if status@ == "green"@ {
            COLOR_ACCENT
        } else {
            COLOR_TEXT_MUTED
        }),
{
    if str_equal(status, "green") {
        COLOR_ACCENT
    } else {
        COLOR_TEXT_MUTED
    }
}

/// Colour of the slot number drawn on a filled spool: black on the light
/// filaments (white, light grey, lime), white on the others.
pub fn slot_number_color(color: u32) -> (c: u32)
    ensures
        c == (if color != 0xFFFFFF && color != 0xECEFF1 && color != 0xCDDC39 {
            COLOR_WHITE
        } else {
            0x000000
        }),
{
    if color != 0xFFFFFF && color != 0xECEFF1 && color != 0xCDDC39 {
        COLOR_WHITE
    } else {
        0x000000
    }
}

/// Look of an AMS slot of the home screen.
#[derive(Debug, Clone, Copy, PartialEq, Eq, Structural)]
pub struct SlotStyle {
    pub bg_color: u32,
    pub border_color: u32,
    pub border_width: i16,
    /// Whether the slot glows in the accent colour.
    pub glow: bool,
}

/// Look of an AMS slot: the selected slot is highlighted.
pub fn ams_slot_style(selected: bool) -> (s: SlotStyle)
    ensures
        selected ==> s == (SlotStyle {
            bg_color: 0x1A2A1A,
            border_color: COLOR_ACCENT,
            border_width: 2,
            glow: true,
        }),
        !selected ==> s == (SlotStyle {
            bg_color: 0x2A2A2A,
            border_color: 0x3D3D3D,
            border_width: 1,
            glow: false,
        }),
{
    if selected {
        SlotStyle { bg_color: 0x1A2A1A, border_color: COLOR_ACCENT, border_width: 2, glow: true }
    } else {
        SlotStyle { bg_color: 0x2A2A2A, border_color: 0x3D3D3D, border_width: 1, glow: false }
    }
}

/// Horizontal offset of colour square `i` inside a 72-pixel-wide AMS slot:
/// four 14-pixel squares, 2 pixels apart, centred.
pub fn four_color_square_x(i: usize) -> (x: i16)
    requires
        i < 4,
    ensures
        x == 5 + 16 * i,
{
    let square_size: i16 = 14;
    let square_gap: i16 = 2;
    let total_width = square_size * 4 + square_gap * 3;
    let start_x = (72 - total_width) / 2;
    start_x + (i as i16) * (square_size + square_gap)
}

/// Look of a catalog filter pill.
#[derive(Debug, Clone, Copy, PartialEq, Eq, Structural)]
pub struct PillStyle {
    pub width: i16,
    pub bg_color: u32,
    pub border_width: i16,
    /// Border colour; none on the active pill.
    pub border_color: Option<u32>,
    pub text_color: u32,
}

/// Look of a filter pill whose label takes `text_len` bytes.
pub fn filter_pill_style(text_len: usize, active: bool) -> (s: PillStyle)
    ensures
        s.width == (if text_len > 8 {
            75i16
        } else {
            50i16
        }),
        active ==> s.bg_color == COLOR_ACCENT && s.border_width == 0 && s.border_color is None
            && s.text_color == 0x000000,
        !active ==> s.bg_color == 0x2D2D2D && s.border_width == 1 && s.border_color == Some(
            0x505050u32,
        ) && s.text_color == COLOR_WHITE,
{
    let width: i16 = if text_len > 8 {
        75
    } else {
        50
    };
    if active {
        PillStyle {
            width,
            bg_color: COLOR_ACCENT,
            border_width: 0,
            border_color: None,
            text_color: 0x000000,
        }
    } else {
        PillStyle {
            width,
            bg_color: 0x2D2D2D,
            border_width: 1,
            border_color: Some(0x505050),
            text_color: COLOR_WHITE,
        }
    }
}

/// Position of catalog card `i`: four cards of 180 x 110 per row, 12 pixels
/// apart, starting at (16, 100).
pub open spec fn catalog_position(i: int) -> (int, int) {
    (16 + (i % 4) * 192, 100 + (i / 4) * 122)
}

/// Position of catalog card `i` of the spool grid.
pub fn catalog_card_position(i: usize) -> (pos: (i16, i16))
    requires
        fits_i16(catalog_position(i as int).1),
    ensures
        pos.0 == catalog_position(i as int).0,
        pos.1 == catalog_position(i as int).1,
{
    let grid_y: i16 = 100;
    let card_w: i16 = 180;
    let card_h: i16 = 110;
    let gap: i16 = 12;
    assert(i / 4 <= 267);
    let col = (i % 4) as i16;
    let row = (i / 4) as i16;
    assert(col == i % 4 && row == i / 4);
    assert(col * (card_w + gap) == col * 192 && row * (card_h + gap) == row * 122);
    let x = 16 + col * (card_w + gap);
    let y = grid_y + row * (card_h + gap);
    (x, y)
}

/// Number of spools laid out in a row of a compact AMS unit (at most four).
pub open spec fn laid_out(slot_count: int) -> int {
    if slot_count < 4 {
        slot_count
    } else {
        4
    }
}

/// Left edge of the first spool of a compact AMS unit: the row of spools
/// (40 pixels wide, 42 apart) is centred in the housing, 4 pixels to the
/// left.
pub open spec fn compact_spool_start(housing_w: int, slot_count: int) -> int {
    trunc_div(housing_w - (40 + (laid_out(slot_count) - 1) * 42), 2) - 4
}

/// The arithmetic of the spool row stays within `i16`.
pub open spec fn compact_row_fits(housing_w: i16, slot_count: usize) -> bool {
    &&& slot_count <= i16::MAX
    &&& fits_i16(housing_w - (40 + (laid_out(slot_count as int) - 1) * 42))
    &&& slot_count > 0 ==> fits_i16((slot_count - 1) * 42)
    &&& slot_count > 0 ==> fits_i16(
        compact_spool_start(housing_w as int, slot_count as int) + (slot_count - 1) * 42,
    )
}

/// Left edges of the spools of a compact AMS unit whose housing is
/// `housing_w` wide, one per slot.
pub fn compact_spool_xs(housing_w: i16, slot_count: usize) -> (xs: Vec<i16>)
    requires
        compact_row_fits(housing_w, slot_count),
    ensures
        xs@.len() == slot_count,
        forall|i: int|
            0 <= i < slot_count ==> #[trigger] xs@[i] == compact_spool_start(
                housing_w as int,
                slot_count as int,
            ) + i * 42,
{
    let num_slots: i16 = if slot_count < 4 {
        slot_count as i16
    } else {
        4
    };
    let spool_w: i16 = 40;
    let spool_step: i16 = 42;
    let spool_row_w = spool_w + (num_slots - 1) * spool_step;
    let start_x: i16 = (housing_w - spool_row_w) / 2 - 4;
    assert(start_x == compact_spool_start(housing_w as int, slot_count as int));
    let mut xs: Vec<i16> = Vec::new();
    let mut i: usize = 0;
    while i < slot_count
        invariant
            compact_row_fits(housing_w, slot_count),
            start_x == compact_spool_start(housing_w as int, slot_count as int),
            spool_step == 42,
            i <= slot_count,
            xs@.len() == i,
            forall|k: int| 0 <= k < i ==> #[trigger] xs@[k] == start_x + k * 42,
        decreases slot_count - i,
    {
        assert(i * 42 <= (slot_count - 1) * 42);
        assert(start_x + i * 42 <= start_x + (slot_count - 1) * 42);
        xs.push(start_x + (i as i16) * spool_step);
        i = i + 1;
    }
    xs
}

/// Size of the inner housing of a compact unit of `w` x `h` pixels: the
/// unit pads 6 pixels on each side and the housing starts 18 pixels down.
pub fn compact_housing(w: i16, h: i16) -> (size: (i16, i16))
    requires
        fits_i16(w - 12),
        fits_i16(h - 30),
    ensures
        size == ((w - 12) as i16, (h - 30) as i16),
{
    let housing_y: i16 = 18;
    (w - 12, h - 12 - housing_y)
}

/// Left edge that centres an item of width `item` in a container of width
/// `container`.
pub fn centered_x(container: i16, item: i16) -> (x: i16)
    requires
        fits_i16(container - item),
    ensures
        x == trunc_div(container - item, 2),
{
    (container - item) / 2
}

/// Left edge of the nozzle badge after a unit name of `name_len` bytes:
/// `char_w` pixels per byte plus `pad`.
pub fn name_badge_x(name_len: usize, char_w: i16, pad: i16) -> (x: i16)
    requires
        name_len <= i16::MAX,
        fits_i16(name_len * char_w),
        fits_i16(name_len * char_w + pad),
    ensures
        x == name_len * char_w + pad,
{
    (name_len as i16) * char_w + pad
}

/// Pixels per byte of a unit name in the 12-point header font.
pub const NAME_CHAR_WIDTH: i16 = 7;

/// Gap between the unit name's start and the nozzle badge, beyond the name.
pub const NAME_BADGE_PAD: i16 = 12;

/// Top offset of the nozzle badge inside a unit's header row.
pub const NOZZLE_BADGE_Y: i16 = 3;

/// Position of the nozzle badge ("L" / "R") after a unit name of
/// `name_len` bytes: seven pixels per byte plus twelve, three pixels down.
pub fn nozzle_badge_position(name_len: usize) -> (pos: (i16, i16))
    requires
        name_len * 7 + 12 <= i16::MAX,
    ensures
        pos == ((name_len * 7 + 12) as i16, 3i16),
        pos.0 == name_len * NAME_CHAR_WIDTH + NAME_BADGE_PAD,
        pos.1 == NOZZLE_BADGE_Y,
{
    let x = name_badge_x(name_len, NAME_CHAR_WIDTH, NAME_BADGE_PAD);
    (x, NOZZLE_BADGE_Y)
}

/// Border colour of an AMS unit panel: accent for the active unit, dark
/// grey for the others.
pub fn unit_border_color(active: bool) -> (c: u32)
    ensures
        c == (if active {
            COLOR_ACCENT
        } else {
            0x404040u32
        }),
{
    if active {
        COLOR_ACCENT
    } else {
        0x404040
    }
}

/// Look of the slot badge under a spool of a compact unit.
#[derive(Debug, Clone, Copy, PartialEq, Eq, Structural)]
pub struct BadgeStyle {
    pub bg_color: u32,
    /// Background opacity, when not opaque.
    pub bg_opa: Option<u8>,
    pub text_color: u32,
}

/// The active slot's badge is accent with dark text; the others are
/// translucent black with white text.
pub fn slot_badge_style(active: bool) -> (s: BadgeStyle)
    ensures
        active ==> s == (BadgeStyle { bg_color: COLOR_ACCENT, bg_opa: None, text_color: 0x1A1A1A }),
        !active ==> s == (BadgeStyle { bg_color: 0x000000, bg_opa: Some(153u8), text_color: COLOR_WHITE }),
{
    if active {
        BadgeStyle { bg_color: COLOR_ACCENT, bg_opa: None, text_color: 0x1A1A1A }
    } else {
        BadgeStyle { bg_color: 0x000000, bg_opa: Some(153), text_color: COLOR_WHITE }
    }
}

/// Which labels of a compact-unit slot show their text (the others show
/// "--"): the material when the slot holds a spool, the fill level when it
/// holds one and the level is known.
pub fn slot_label_shown(color: u32, fill_known: bool) -> (shown: (bool, bool))
    ensures
        shown == (color != 0, color != 0 && fill_known),
{
    (color != 0, color != 0 && fill_known)
}

/// Top-left corner of the colour tint over a spool image drawn at (x, y):
/// the image is zoomed by 320/256, which moves it by (-4, -5), and the
/// visible core starts 11 pixels right and 6 pixels down.
pub fn spool_tint_origin(x: i16, y: i16) -> (origin: (i16, i16))
    requires
        fits_i16(x + 7),
        fits_i16(y + 1),
        fits_i16(x - 4),
        fits_i16(y - 5),
    ensures
        origin == ((x + 7) as i16, (y + 1) as i16),
{
    let zoom_offset_x: i16 = -4;
    let zoom_offset_y: i16 = -5;
    let inner_left: i16 = 11;
    let inner_top: i16 = 6;
    (x + zoom_offset_x + inner_left, y + zoom_offset_y + inner_top)
}

/// Consecutive spools of a compact AMS unit are 42 pixels apart and the row
/// is centred: the space left of the first spool and right of the last one
/// differ by at most one pixel, before the 4-pixel shift.
pub proof fn lemma_compact_row_centred(housing_w: int, slot_count: int)
    requires
        1 <= slot_count <= 4,
        housing_w >= 40 + (slot_count - 1) * 42,
    ensures
        ({
            let start = compact_spool_start(housing_w, slot_count) + 4;
            let end = start + 40 + (slot_count - 1) * 42;
            let left = start;
            let right = housing_w - end;
            0 <= right - left <= 1
        }),
{
}

} // verus!
