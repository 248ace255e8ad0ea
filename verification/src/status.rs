//! The painted status line. It is only shown while notifications are pending, so the editor keeps
//! its full height in the common case.

use crate::notification::NotificationCenter;
use crate::text::decimal_text;
use crate::theme::SystemTheme;
use vstd::prelude::*;
use vstd::string::*;

verus! {

pub const STATUS_HEIGHT_AT_96_DPI: i64 = 22;

/// How tall the status line is.
pub open spec fn line_height(dpi: int) -> int {
    crate::panel::scaled(STATUS_HEIGHT_AT_96_DPI as int, vstd::math::max(dpi, 96))
}

/// The status line's height at `dpi`, at least that of 96 DPI.
pub fn status_height(dpi: u32) -> (pixels: i32)
    ensures
        pixels == line_height(dpi as int),
{
    let dots: u32 = dpi.max(96);
    ((STATUS_HEIGHT_AT_96_DPI * dots as i64 + 48) / 96) as i32
}

#[derive(Clone, Copy, Debug, PartialEq, Eq, Structural)]
pub struct StatusModel {
    pub theme: SystemTheme,
}

impl StatusModel {
    pub fn new(theme: SystemTheme) -> (model: Self)
        ensures
            model.theme == theme,
    {
        StatusModel { theme }
    }
}

/// What the status line reads for messages waiting in order: the first, and how many more there
/// are. Without any there is no status line.
pub open spec fn status_line(pending: Seq<crate::notification::Notification>) -> Option<Seq<char>> {
    if pending.len() == 0 {
        None
    } else if pending.len() == 1 {
        Some(pending[0].message@ + " (click to dismiss)"@)
    } else {
        Some(
            pending[0].message@ + " (+"@ + crate::text::decimal((pending.len() - 1) as nat)
                + " more, click to dismiss)"@,
        )
    }
}

pub fn status_text(notifications: &NotificationCenter) -> (text: Option<String>)
    ensures
        crate::text::maybe(text) == status_line(notifications@),
{
    let pending = notifications.pending();
    if pending.len() == 0 {
        return None;
    }
    let mut text = pending[0].message.clone();
    if pending.len() == 1 {
        text.append(" (click to dismiss)");
    } else {
        text.append(" (+");
        text.append(decimal_text((pending.len() - 1) as u64).as_str());
        text.append(" more, click to dismiss)");
    }
    Some(text)
}

/// The status line is shown exactly while notifications are pending, and dismissing them hides it.
pub proof fn the_status_line_follows_the_notifications(
    pending: Seq<crate::notification::Notification>,
)
    ensures
        status_line(pending) is Some <==> pending.len() > 0,
        status_line(Seq::empty()) is None,
{
}

} // verus!
