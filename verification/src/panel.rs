//! Sizes that follow the monitor's DPI, and a rectangle's inner frame.

use crate::geometry::Rect;
use vstd::prelude::*;

verus! {

/// `value` pixels at 96 DPI, in pixels at `dpi`, rounded to the nearest; a `dpi` of 0 stands for
/// 96. A negative size rounds as its division does, towards zero.
pub open spec fn scaled(value: int, dpi: int) -> int {
    let dots = value * (if dpi == 0 { 96 } else { dpi }) + 48;
    if dots >= 0 {
        dots / 96
    } else {
        -((-dots) / 96)
    }
}

/// The largest DPI that layouts accept.
pub const MAX_DPI: u32 = 0x1_0000;

/// Scales a size at 96 DPI to `dpi`. A result past `i32` keeps its low 32 bits.
pub fn scale(value: i32, dpi: u32) -> (pixels: i32)
    ensures
        pixels == scaled(value as int, dpi as int) as i32,
        i32::MIN <= scaled(value as int, dpi as int) <= i32::MAX ==> pixels == scaled(
            value as int,
            dpi as int,
        ),
{
    let dpi: u32 = if dpi == 0 {
        96
    } else {
        dpi
    };
    assert(-0x8000_0000 * 0xffff_ffff <= value * dpi <= 0x7fff_ffff * 0xffff_ffff) by (nonlinear_arith)
        requires
            -0x8000_0000 <= value <= 0x7fff_ffff,
            0 < dpi <= 0xffff_ffff,
    ;
    ((value as i64 * dpi as i64 + 48) / 96) as i32
}

/// A size that layouts use scales to at least 0 pixels and stays far below `MAX_COORDINATE`.
pub proof fn scaled_is_bounded(value: int, dpi: int)
    requires
        0 <= value <= 1000,
        0 <= dpi <= MAX_DPI,
    ensures
        0 <= scaled(value, dpi) <= 0x10_0000,
{
    let d = if dpi == 0 {
        96
    } else {
        dpi
    };
    assert(0 <= value * d <= 1000 * 0x1_0000) by (nonlinear_arith)
        requires
            0 <= value <= 1000,
            0 <= d <= 0x1_0000,
    ;
}

/// At 96 DPI a size is its own number of pixels.
pub proof fn sizes_are_pixels_at_96_dpi(value: int)
    requires
        0 <= value,
    ensures
        scaled(value, 96) == value,
        scaled(value, 0) == value,
{
}

/// A larger size never scales to fewer pixels, and neither does a higher DPI.
pub proof fn scaling_is_monotone(small: int, large: int, low: int, high: int)
    requires
        0 <= small <= large,
        0 < low <= high,
    ensures
        scaled(small, low) <= scaled(large, high),
{
    assert(small * low <= large * high) by (nonlinear_arith)
        requires
            0 <= small <= large,
            0 < low <= high,
    ;
    assert(0 <= small * low) by (nonlinear_arith)
        requires
            0 <= small,
            0 < low,
    ;
    vstd::arithmetic::div_mod::lemma_div_is_ordered(small * low + 48, large * high + 48, 96);
}

/// What is left of `rect` inside an edge `by` pixels wide.
pub open spec fn within(rect: Rect, by: int) -> Rect {
    Rect {
        left: (rect.left + by) as i32,
        top: (rect.top + by) as i32,
        right: (rect.right - by) as i32,
        bottom: (rect.bottom - by) as i32,
    }
}

/// `rect` with every edge moved `by` pixels inwards.
pub fn inset(rect: Rect, by: i32) -> (inner: Rect)
    requires
        i32::MIN <= rect.left + by <= i32::MAX,
        i32::MIN <= rect.top + by <= i32::MAX,
        i32::MIN <= rect.right - by <= i32::MAX,
        i32::MIN <= rect.bottom - by <= i32::MAX,
    ensures
        inner == within(rect, by as int),
{
    Rect {
        left: rect.left + by,
        top: rect.top + by,
        right: rect.right - by,
        bottom: rect.bottom - by,
    }
}

} // verus!
