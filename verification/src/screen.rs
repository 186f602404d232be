//! Screen geometry and the fixed-point numbers that positions are held in.

use vstd::prelude::*;

verus! {

/// Positions, distances and deltas are fixed-point numbers held in an `i64`:
/// a count of sub-pixel units, of which this many make one device pixel.
pub const SUBPIXELS: i64 = 65536;

/// The fixed-point value of a whole number of pixels.
pub open spec fn px(pixels: int) -> int {
    pixels * 65536
}

/// `v` limited to the range from `lo` to `hi`.
pub open spec fn clamp(v: int, lo: int, hi: int) -> int {
    if v < lo {
        lo
    } else if v > hi {
        hi
    } else {
        v
    }
}

/// The whole pixel that a fixed-point value lies in, counted towards zero.
pub open spec fn whole_pixels(v: int) -> int {
    if v >= 0 {
        v / 65536
    } else {
        -((-v) / 65536)
    }
}

/// The fixed-point value of `pixels` whole pixels.
pub fn from_pixels(pixels: i32) -> (v: i64)
    ensures
        v == px(pixels as int),
{
    (pixels as i64) * SUBPIXELS
}

/// The whole pixel that `v` lies in, counted towards zero and limited to what
/// an `i32` holds.
pub fn to_pixels(v: i64) -> (pixels: i32)
    ensures
        pixels == clamp(whole_pixels(v as int), i32::MIN as int, i32::MAX as int),
{
    let whole: i64 = if v >= 0 {
        v / SUBPIXELS
    } else if v == i64::MIN {
        -(i64::MAX / SUBPIXELS) - 1
    } else {
        -((-v) / SUBPIXELS)
    };
    if whole < i32::MIN as i64 {
        i32::MIN
    } else if whole > i32::MAX as i64 {
        i32::MAX
    } else {
        whole as i32
    }
}

/// Identifies one screen of a device.
#[derive(Debug, Clone, Copy, PartialEq, Eq, Hash, Structural)]
pub struct ScreenId(pub u32);

/// A point on a screen, in fixed-point device pixels.
#[derive(Debug, Clone, Copy, PartialEq, Eq, Structural)]
pub struct ScreenPosition {
    pub x: i64,
    pub y: i64,
}

/// A side of a screen.
#[derive(Debug, Clone, Copy, PartialEq, Eq, Hash, Structural)]
pub enum Edge {
    Top,
    Bottom,
    Left,
    Right,
}

/// A screen's place and size in device pixels.
#[derive(Debug, Clone, Copy, PartialEq, Eq, Structural)]
pub struct ScreenRect {
    pub x: i32,
    pub y: i32,
    pub width: u32,
    pub height: u32,
}

/// What a device tells its peer about one of its screens.
#[derive(Debug, Clone, PartialEq, Eq)]
pub struct ScreenInfo {
    pub id: ScreenId,
    pub name: String,
    pub rect: ScreenRect,
    pub is_primary: bool,
}

/// A `ScreenInfo` as a mathematical value.
pub struct ScreenInfoView {
    pub id: ScreenId,
    pub name: Seq<char>,
    pub rect: ScreenRect,
    pub is_primary: bool,
}

impl View for ScreenInfo {
    type V = ScreenInfoView;

    open spec fn view(&self) -> ScreenInfoView {
        ScreenInfoView {
            id: self.id,
            name: self.name@,
            rect: self.rect,
            is_primary: self.is_primary,
        }
    }
}

/// The name of the one screen that a device announces.
pub open spec fn primary_name() -> Seq<char> {
    "primary"@
}

/// The one screen that a device with a screen of `width` by `height`
/// pixels announces in its handshake.
pub open spec fn primary_screen(width: u32, height: u32) -> ScreenInfoView {
    ScreenInfoView {
        id: ScreenId(0),
        name: primary_name(),
        rect: ScreenRect { x: 0, y: 0, width, height },
        is_primary: true,
    }
}

/// The one screen that a device with a screen of `width` by `height`
/// pixels announces in its handshake.
pub fn primary_screen_info(width: u32, height: u32) -> (info: ScreenInfo)
    ensures
        info@ == primary_screen(width, height),
{
    ScreenInfo {
        id: ScreenId(0),
        name: "primary".to_owned(),
        rect: ScreenRect { x: 0, y: 0, width, height },
        is_primary: true,
    }
}

} // verus!
