use vstd::prelude::*;

verus! {

/// Supersampling rate of a still camera.
pub const STATIC_SAMPLES: i32 = 1;

/// Finest downsampling factor while the camera moves (one traced pixel per
/// pixel).
pub const MOTION_MIN_SAMPLES: i32 = -1;

/// Coarsest downsampling factor while the camera moves (one traced pixel per
/// 8 × 8 block).
pub const MOTION_MAX_SAMPLES: i32 = -8;

/// Reflection bound of a still camera.
pub const STATIC_REFLECTIONS: u32 = 15;

/// Reflection bound while the camera moves.
pub const MOTION_REFLECTIONS: u32 = 4;

/// Reflection bound of a screenshot.
pub const SCREENSHOT_REFLECTIONS: u32 = 20;

/// A moving frame rendered faster than this (in nanoseconds) makes the next
/// one finer.
pub const MIN_MOTION_FRAME_TIME_NS: u64 = 10_000_000;

/// A moving frame rendered slower than this (in nanoseconds) makes the next
/// one coarser.
pub const MAX_MOTION_FRAME_TIME_NS: u64 = 20_000_000;

/// A chunk rendered in fewer milliseconds than this doubles the next one.
pub const MIN_CHUNK_RENDER_TIME_MS: u64 = 5;

/// A chunk rendered in more milliseconds than this halves the next one.
pub const MAX_CHUNK_RENDER_TIME_MS: u64 = 20;

/// Control flag: turn left.
pub const TURN_LEFT_MASK: u32 = 0x1;

/// Control flag: turn right.
pub const TURN_RIGHT_MASK: u32 = 0x2;

/// Control flag: turn up.
pub const TURN_UP_MASK: u32 = 0x4;

/// Control flag: turn down.
pub const TURN_DOWN_MASK: u32 = 0x8;

/// Control flag: move left.
pub const SHIFT_LEFT_MASK: u32 = 0x40;

/// Control flag: move right.
pub const SHIFT_RIGHT_MASK: u32 = 0x80;

/// Control flag: move up.
pub const SHIFT_UP_MASK: u32 = 0x100;

/// Control flag: move down.
pub const SHIFT_DOWN_MASK: u32 = 0x200;

/// Control flag: move forward.
pub const SHIFT_FORWARD_MASK: u32 = 0x400;

/// Control flag: move back.
pub const SHIFT_BACK_MASK: u32 = 0x800;

/// Number of entries in each screenshot option table.
pub const SCREENSHOT_OPTIONS: usize = 9;

/// Width of the screenshot resolution at `index` of the table.
pub open spec fn resolution_width(index: int) -> u32 {
    if index == 0 {
        800
    } else if index == 1 {
        1024
    } else if index == 2 || index == 3 || index == 6 {
        1280
    } else if index == 4 {
        1680
    } else if index == 5 || index == 7 {
        1920
    } else {
        7680
    }
}

/// Height of the screenshot resolution at `index` of the table.
pub open spec fn resolution_height(index: int) -> u32 {
    if index == 0 {
        600
    } else if index == 1 {
        768
    } else if index == 2 {
        960
    } else if index == 3 {
        800
    } else if index == 4 {
        1050
    } else if index == 5 {
        1200
    } else if index == 6 {
        720
    } else if index == 7 {
        1080
    } else {
        4320
    }
}

/// Supersampling rate at `index` of the table: `2^index`.
pub open spec fn supersample_rate(index: int) -> i32 {
    if index == 0 {
        1
    } else if index == 1 {
        2
    } else if index == 2 {
        4
    } else if index == 3 {
        8
    } else if index == 4 {
        16
    } else if index == 5 {
        32
    } else if index == 6 {
        64
    } else if index == 7 {
        128
    } else {
        256
    }
}

/// The screenshot resolution at `index` of the table.
pub fn resolution(index: usize) -> (r: (u32, u32))
    requires
        index < SCREENSHOT_OPTIONS,
    ensures
        r.0 == resolution_width(index as int),
        r.1 == resolution_height(index as int),
{
    match index {
        0 => (800, 600),
        1 => (1024, 768),
        2 => (1280, 960),
        3 => (1280, 800),
        4 => (1680, 1050),
        5 => (1920, 1200),
        6 => (1280, 720),
        7 => (1920, 1080),
        _ => (7680, 4320),
    }
}

/// The note shown beside the screenshot resolution at `index`.
pub open spec fn resolution_tip_text(index: int) -> Seq<char> {
    if index <= 2 {
        "(4:3)"@
    } else if index <= 5 {
        "(16:10)"@
    } else if index == 6 {
        "(HD)"@
    } else if index == 7 {
        "(Full HD)"@
    } else {
        "(Super Hi Vision 16:9)"@
    }
}

/// The note shown beside the supersampling rate at `index`.
pub open spec fn sampling_tip_text(index: int) -> Seq<char> {
    if index == 0 {
        "(fast but rough)"@
    } else if index == 8 {
        "(slow but smooth)"@
    } else {
        ""@
    }
}

/// The aspect note shown beside the screenshot resolution at `index`.
pub fn resolution_tip(index: usize) -> (r: &'static str)
    requires
        index < SCREENSHOT_OPTIONS,
    ensures
        r@ == resolution_tip_text(index as int),
{
    match index {
        0 | 1 | 2 => "(4:3)",
        3 | 4 | 5 => "(16:10)",
        6 => "(HD)",
        7 => "(Full HD)",
        _ => "(Super Hi Vision 16:9)",
    }
}

/// The supersampling rate at `index` of the table.
pub fn sampling_rate(index: usize) -> (r: i32)
    requires
        index < SCREENSHOT_OPTIONS,
    ensures
        r == supersample_rate(index as int),
{
    match index {
        0 => 1,
        1 => 2,
        2 => 4,
        3 => 8,
        4 => 16,
        5 => 32,
        6 => 64,
        7 => 128,
        _ => 256,
    }
}

/// The note shown beside the supersampling rate at `index`.
pub fn sampling_tip(index: usize) -> (r: &'static str)
    requires
        index < SCREENSHOT_OPTIONS,
    ensures
        r@ == sampling_tip_text(index as int),
{
    match index {
        0 => "(fast but rough)",
        8 => "(slow but smooth)",
        _ => "",
    }
}

} // verus!
