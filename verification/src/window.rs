//! The window wrapper itself: the handle type, title-bar style
//! arithmetic, the title-query decision, and the deferred-positioning
//! request that a resize issues.

use vstd::prelude::*;
use crate::geometry::Rect;
use crate::utf16::decode;
use crate::utf16::decode_utf16;

verus! {

/// Style bits that make up the title-bar frame: caption, borders, system
/// menu and the minimize/maximize boxes.
pub const TITLE_BAR_STYLE_MASK: i32 = 0xce0000;

/// The z-order target that stacks a window above all non-topmost windows.
pub const HWND_TOP: isize = 0;

/// Positioning flag that asks the platform to show the window.
pub const SWP_SHOWWINDOW: u32 = 0x40;

/// True when the style value has any title-bar bit set.
pub open spec fn spec_has_title_bar(style: i32) -> bool {
    style & TITLE_BAR_STYLE_MASK != 0
}

/// Tests a queried style value for a title bar: any overlap with the
/// title-bar mask counts.
pub fn style_has_title_bar(style: i32) -> (r: bool)
    ensures
        r == spec_has_title_bar(style),
{
    style & TITLE_BAR_STYLE_MASK != 0
}

/// Clears every title-bar bit of a style value and keeps all other bits
/// unchanged; the result never reports a title bar.
pub fn strip_title_bar(style: i32) -> (r: i32)
    ensures
        r == style & !TITLE_BAR_STYLE_MASK,
        r & !TITLE_BAR_STYLE_MASK == style & !TITLE_BAR_STYLE_MASK,
        !spec_has_title_bar(r),
{
    proof {
        assert((style & !0xce0000i32) & 0xce0000i32 == 0) by (bit_vector);
        assert((style & !0xce0000i32) & !0xce0000i32 == style & !0xce0000i32) by (bit_vector);
    }
    style & !TITLE_BAR_STYLE_MASK
}

/// One deferred-positioning request: everything the platform's batched
/// repositioning is handed for a single window.
#[derive(Debug, PartialEq, Eq, Structural, Clone, Copy)]
pub struct PosRequest {
    pub hwnd: isize,
    pub insert_after: isize,
    pub x: i32,
    pub y: i32,
    pub cx: i32,
    pub cy: i32,
    pub flags: u32,
}

/// A native window identifier. The wrapper only holds the identifier:
/// the window itself is owned and managed by the platform, and must be
/// manipulated from the thread that created it.
#[derive(Debug)]
pub struct Window {
    pub hwnd: isize,
}

impl Window {
    pub fn new(hwnd: isize) -> (w: Window)
        ensures
            w.hwnd == hwnd,
    {
        Window { hwnd }
    }

    /// What the title query makes of the platform's answers: a reported
    /// length of zero is treated as absence — a window with an empty
    /// title is indistinguishable from a failed query. Otherwise exactly
    /// `len` units of the fetched buffer are decoded, leaving any
    /// terminator behind them out.
    pub fn title_from_buffer(len: usize, buf: &[u16]) -> (r: Option<String>)
        requires
            len <= buf@.len(),
        ensures
            len == 0 <==> r is None,
            len > 0 ==> (r matches Some(s) && s@ == decode_utf16(buf@.take(len as int))),
    {
        if len == 0 {
            None
        } else {
            let prefix: &[u16] = &buf[0..len];
            proof {
                assert(prefix@ =~= buf@.take(len as int));
            }
            Some(decode(prefix))
        }
    }

    /// The single deferred-position request that repositioning issues:
    /// the window is moved to `rect.pos`, sized to `rect.size`, stacked
    /// at the top of the z-order and shown. The rectangle passes through
    /// as it is, degenerate or not.
    pub fn resize(&self, rect: Rect) -> (req: PosRequest)
        ensures
            req.hwnd == self.hwnd,
            req.insert_after == HWND_TOP,
            req.x == rect.pos.x,
            req.y == rect.pos.y,
            req.cx == rect.size.x,
            req.cy == rect.size.y,
            req.flags == SWP_SHOWWINDOW,
    {
        PosRequest {
            hwnd: self.hwnd,
            insert_after: HWND_TOP,
            x: rect.pos.x,
            y: rect.pos.y,
            cx: rect.size.x,
            cy: rect.size.y,
            flags: SWP_SHOWWINDOW,
        }
    }
}

} // verus!
