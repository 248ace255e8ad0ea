//! The window messages and virtual keys that the views read, and what their parameters hold.

use crate::geometry::Point;
use vstd::prelude::*;

verus! {

pub const WM_SETTEXT: u32 = 0x000C;

pub const WM_PAINT: u32 = 0x000F;

pub const WM_CONTEXTMENU: u32 = 0x007B;

pub const EM_UNDO: u32 = 0x00C7;

pub const EM_REPLACESEL: u32 = 0x00C2;

pub const WM_KEYDOWN: u32 = 0x0100;

pub const WM_CHAR: u32 = 0x0102;

pub const WM_SYSKEYDOWN: u32 = 0x0104;

pub const WM_SYSCHAR: u32 = 0x0106;

pub const WM_TIMER: u32 = 0x0113;

pub const WM_MOUSEMOVE: u32 = 0x0200;

pub const WM_LBUTTONDOWN: u32 = 0x0201;

pub const WM_LBUTTONUP: u32 = 0x0202;

pub const WM_LBUTTONDBLCLK: u32 = 0x0203;

pub const WM_RBUTTONDOWN: u32 = 0x0204;

pub const WM_RBUTTONUP: u32 = 0x0205;

pub const WM_MBUTTONDOWN: u32 = 0x0207;

pub const WM_MBUTTONUP: u32 = 0x0208;

pub const WM_MOUSEWHEEL: u32 = 0x020A;

pub const WM_CAPTURECHANGED: u32 = 0x0215;

pub const WM_MOUSELEAVE: u32 = 0x02A3;

pub const WM_CUT: u32 = 0x0300;

pub const WM_PASTE: u32 = 0x0302;

pub const WM_CLEAR: u32 = 0x0303;

pub const WM_UNDO: u32 = 0x0304;

pub const VK_BACK: u32 = 0x08;

pub const VK_TAB: u32 = 0x09;

pub const VK_RETURN: u32 = 0x0D;

pub const VK_ESCAPE: u32 = 0x1B;

pub const VK_SPACE: u32 = 0x20;

pub const VK_LEFT: u32 = 0x25;

pub const VK_RIGHT: u32 = 0x27;

pub const VK_DELETE: u32 = 0x2E;

pub const VK_APPS: u32 = 0x5D;

pub const VK_F2: u32 = 0x71;

pub const VK_F10: u32 = 0x79;

/// A 16-bit word read as a signed number.
pub open spec fn signed(word: int) -> int {
    if word < 0x8000 {
        word
    } else {
        word - 0x1_0000
    }
}

fn signed_word(word: u16) -> (value: i32)
    ensures
        value == signed(word as int),
{
    assert((word as i16) == (if word < 0x8000 {
        word as int
    } else {
        word - 0x1_0000
    })) by (bit_vector);
    word as i16 as i32
}

/// The signed point in a mouse message's `lParam`: its low word and its high word.
pub open spec fn point_in(lparam: isize) -> Point {
    let words = (lparam as u32) as int;
    Point { x: signed(words % 0x1_0000) as i32, y: signed(words / 0x1_0000) as i32 }
}

/// The signed client or screen point in a mouse message's `lParam`.
pub fn point_of(lparam: isize) -> (point: Point)
    ensures
        point == point_in(lparam),
        -0x8000 <= point.x < 0x8000,
        -0x8000 <= point.y < 0x8000,
{
    let words: u32 = lparam as u32;
    Point {
        x: signed_word((words % 0x1_0000) as u16),
        y: signed_word((words / 0x1_0000) as u16),
    }
}

/// The signed high word of a wheel message's `wParam`: how far the wheel turned.
pub open spec fn wheel_turn(wparam: usize) -> int {
    signed(((wparam as u32) as int) / 0x1_0000)
}

pub fn wheel_delta(wparam: usize) -> (delta: i32)
    ensures
        delta == wheel_turn(wparam),
{
    let words: u32 = wparam as u32;
    signed_word((words / 0x1_0000) as u16)
}

/// The low word of a parameter: a key message's virtual key.
pub open spec fn low_word(wparam: usize) -> u32 {
    ((wparam as u32) % 0x1_0000) as u32
}

pub fn key_of(wparam: usize) -> (key: u32)
    ensures
        key == low_word(wparam),
        key < 0x1_0000,
{
    (wparam as u32) % 0x1_0000
}

/// A number's low word, as a message holds it.
pub open spec fn unsigned(value: int) -> int {
    if value < 0 {
        value + 0x1_0000
    } else {
        value
    }
}

fn word_of(value: i32) -> (word: u16)
    requires
        -0x8000 <= value < 0x8000,
    ensures
        word == unsigned(value as int),
{
    if value < 0 {
        (value + 0x1_0000) as u16
    } else {
        value as u16
    }
}

/// The two words of a mouse message's `lParam` for a client point.
pub fn words_of(point: Point) -> (words: u32)
    requires
        -0x8000 <= point.x < 0x8000,
        -0x8000 <= point.y < 0x8000,
    ensures
        words == unsigned(point.y as int) * 0x1_0000 + unsigned(point.x as int),
{
    word_of(point.y) as u32 * 0x1_0000 + word_of(point.x) as u32
}

/// A point put into a message's words is read back as it was.
pub proof fn a_packed_point_is_read_back(point: Point)
    requires
        -0x8000 <= point.x < 0x8000,
        -0x8000 <= point.y < 0x8000,
    ensures
        ({
            let words = unsigned(point.y as int) * 0x1_0000 + unsigned(point.x as int);
            signed(words % 0x1_0000) == point.x && signed(words / 0x1_0000) == point.y
        }),
{
}

} // verus!
