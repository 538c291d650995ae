//! Vertical scrolling of the settings page's checkbox panel: the position a
//! scroll request leads to, the scrollbar range after a resize, and how mouse
//! wheel turns become scroll requests.

use vstd::prelude::*;
use crate::layout::fits_i32;

verus! {

/// A scrollbar request (`SB_*` of `WM_VSCROLL`).
#[derive(Debug, Clone, Copy, PartialEq, Eq, Structural)]
pub enum ScrollRequest {
    LineUp,
    LineDown,
    PageUp,
    PageDown,
    ThumbTrack,
    ThumbPosition,
    Top,
    Bottom,
    /// Any other request, such as `SB_ENDSCROLL`.
    Other,
}

/// Line height for scrolling at 96 DPI.
pub const SCROLL_LINE_HEIGHT: i32 = 20;

/// The state of a scrollbar as `SCROLLINFO` reports it.
#[derive(Debug, Clone, Copy, PartialEq, Eq, Structural)]
pub struct ScrollInfo {
    /// `nPos`.
    pub position: i32,
    /// `nMax`.
    pub maximum: i32,
    /// `nPage`.
    pub page: u32,
}

/// `nPage` as the `i32` that `nPage as i32` gives.
pub open spec fn page_as_i32(page: u32) -> int {
    if page <= i32::MAX {
        page as int
    } else {
        page - 0x1_0000_0000
    }
}

/// The furthest the content can be scrolled: `nMax - nPage`, at least zero.
pub open spec fn scroll_limit(info: ScrollInfo) -> int {
    let limit = info.maximum - page_as_i32(info.page);
    if limit < 0 {
        0
    } else {
        limit
    }
}

fn page_to_i32(page: u32) -> (result: i32)
    ensures
        result == page_as_i32(page),
{
    if page <= 0x7fff_ffff {
        page as i32
    } else {
        (page as i64 - 0x1_0000_0000) as i32
    }
}

/// The position after a scroll request, as the scrollbar handler computes
/// it; `line_height` is the scaled line height.
pub open spec fn scrolled_position(request: ScrollRequest, info: ScrollInfo, thumb: u16, line_height: int) -> int {
    let old = info.position as int;
    let limit = scroll_limit(info);
    let page = page_as_i32(info.page);
    match request {
        ScrollRequest::LineUp => if old - line_height < 0 { 0 } else { old - line_height },
        ScrollRequest::LineDown => if old + line_height > limit { limit } else { old + line_height },
        ScrollRequest::PageUp => if old - page < 0 { 0 } else { old - page },
        ScrollRequest::PageDown => if old + page > limit { limit } else { old + page },
        ScrollRequest::ThumbTrack | ScrollRequest::ThumbPosition => if thumb > limit { limit } else { thumb as int },
        ScrollRequest::Top => 0,
        ScrollRequest::Bottom => limit,
        ScrollRequest::Other => old,
    }
}

/// Whether the arithmetic of a scroll request stays within `i32`.
pub open spec fn scroll_fits(request: ScrollRequest, info: ScrollInfo, line_height: int) -> bool {
    &&& fits_i32(info.maximum - page_as_i32(info.page))
    &&& (request == ScrollRequest::LineUp ==> fits_i32(info.position - line_height))
    &&& (request == ScrollRequest::LineDown ==> fits_i32(info.position + line_height))
    &&& (request == ScrollRequest::PageUp ==> fits_i32(info.position - page_as_i32(info.page)))
    &&& (request == ScrollRequest::PageDown ==> fits_i32(info.position + page_as_i32(info.page)))
}

/// Translates a scroll request into the new scroll position: lines and pages
/// move by the line height and the page size, the thumb goes where it is
/// dragged, and the result stays between zero and the scroll limit.
pub fn next_scroll_position(request: ScrollRequest, info: ScrollInfo, thumb: u16, line_height: i32) -> (result: i32)
    requires
        scroll_fits(request, info, line_height as int),
    ensures
        result == scrolled_position(request, info, thumb, line_height as int),
        0 <= info.position <= scroll_limit(info) && line_height >= 0 && page_as_i32(info.page) >= 0 ==> 0 <= result
            <= scroll_limit(info),
{
    let old = info.position;
    let page = page_to_i32(info.page);
    let raw_limit = info.maximum - page;
    let limit = if raw_limit < 0 { 0 } else { raw_limit };
    match request {
        ScrollRequest::LineUp => {
            let p = old - line_height;
            if p < 0 { 0 } else { p }
        },
        ScrollRequest::LineDown => {
            let p = old + line_height;
            if p > limit { limit } else { p }
        },
        ScrollRequest::PageUp => {
            let p = old - page;
            if p < 0 { 0 } else { p }
        },
        ScrollRequest::PageDown => {
            let p = old + page;
            if p > limit { limit } else { p }
        },
        ScrollRequest::ThumbTrack | ScrollRequest::ThumbPosition => {
            let p = thumb as i32;
            if p > limit { limit } else { p }
        },
        ScrollRequest::Top => 0,
        ScrollRequest::Bottom => limit,
        ScrollRequest::Other => old,
    }
}

/// The position the content moves to after a scroll request, or `None`
/// when the request leaves the position where it is.
pub fn scroll_target(request: ScrollRequest, info: ScrollInfo, thumb: u16, line_height: i32) -> (result: Option<i32>)
    requires
        scroll_fits(request, info, line_height as int),
    ensures
        result == if scrolled_position(request, info, thumb, line_height as int) == info.position {
            None::<i32>
        } else {
            Some(scrolled_position(request, info, thumb, line_height as int) as i32)
        },
{
    let new_position = next_scroll_position(request, info, thumb, line_height);
    if new_position == info.position {
        None
    } else {
        Some(new_position)
    }
}

/// Where each scroll request leads, with the page size read as `nPage as i32`
/// and the scroll limit `nMax - nPage`, at least zero: a line or a page up
/// or down, stopping at zero and at the limit; the thumb where it is dragged
/// or released, stopping at the limit; the top; the bottom (the limit); and
/// any other request leaves the position where it is.
pub proof fn lemma_scroll_requests(request: ScrollRequest, info: ScrollInfo, thumb: u16, line_height: int)
    ensures
        ({
            let page: int = if info.page <= 0x7fff_ffff { info.page as int } else { info.page - 0x1_0000_0000 };
            let limit: int = if info.maximum - page < 0 { 0 } else { info.maximum - page };
            let pos = info.position as int;
            let result = scrolled_position(request, info, thumb, line_height);
            &&& request == ScrollRequest::LineUp ==> result == (if pos - line_height < 0 { 0 } else { pos - line_height })
            &&& request == ScrollRequest::LineDown ==> result == (if pos + line_height > limit { limit } else { pos + line_height })
            &&& request == ScrollRequest::PageUp ==> result == (if pos - page < 0 { 0 } else { pos - page })
            &&& request == ScrollRequest::PageDown ==> result == (if pos + page > limit { limit } else { pos + page })
            &&& (request == ScrollRequest::ThumbTrack || request == ScrollRequest::ThumbPosition) ==> {
                &&& 0 <= result <= limit
                &&& thumb <= limit ==> result == thumb
                &&& thumb > limit ==> result == limit
            }
            &&& request == ScrollRequest::Top ==> result == 0
            &&& request == ScrollRequest::Bottom ==> result == limit
            &&& request == ScrollRequest::Other ==> result == pos
        }),
{
}

/// `v as u32` for an `i32`: two's complement wrapping.
pub open spec fn i32_as_u32(v: int) -> int {
    if v >= 0 {
        v
    } else {
        v + 0x1_0000_0000
    }
}

fn wrap_to_u32(v: i32) -> (result: u32)
    ensures
        result == i32_as_u32(v as int),
{
    if v >= 0 {
        v as u32
    } else {
        (v as i64 + 0x1_0000_0000) as u32
    }
}

/// The scrollbar range: `nMax` and `nPage` (`nMin` is zero).
#[derive(Debug, Clone, Copy, PartialEq, Eq, Structural)]
pub struct ScrollRange {
    pub maximum: i32,
    pub page: u32,
}

/// What to do with the scrollbar after the content or the panel is resized.
#[derive(Debug, Clone, Copy, PartialEq, Eq, Structural)]
pub struct ScrollbarPlan {
    /// Whether the scrollbar is shown.
    pub show_scrollbar: bool,
    /// The new range, when the scrollbar is shown.
    pub range: Option<ScrollRange>,
    /// The scroll position to apply.
    pub position: i32,
}

/// The scrollbar plan for content `total_height` high in a panel
/// `visible_height` high, scrolled to `old_position`: the scrollbar shows only
/// when the content is taller than the panel, and the position is kept within
/// the new limit, or reset to zero when there is nothing to scroll.
pub open spec fn spec_scrollbar_plan(visible_height: int, total_height: int, old_position: int) -> ScrollbarPlan {
    if total_height > visible_height {
        let limit = if total_height - visible_height < 0 { 0 } else { total_height - visible_height };
        let below_limit = if old_position < limit { old_position } else { limit };
        ScrollbarPlan {
            show_scrollbar: true,
            range: Some(ScrollRange { maximum: (total_height - 1) as i32, page: i32_as_u32(visible_height) as u32 }),
            position: (if below_limit < 0 { 0 } else { below_limit }) as i32,
        }
    } else {
        ScrollbarPlan { show_scrollbar: false, range: None, position: 0 }
    }
}

/// Decides the scrollbar's visibility, range and position after a resize.
pub fn scrollbar_plan(visible_height: i32, total_height: i32, old_position: i32) -> (result: ScrollbarPlan)
    requires
        total_height > visible_height ==> fits_i32(total_height - visible_height),
    ensures
        result == spec_scrollbar_plan(visible_height as int, total_height as int, old_position as int),
        result.show_scrollbar ==> 0 <= result.position <= total_height - visible_height,
        !result.show_scrollbar ==> result.position == 0,
{
    if total_height > visible_height {
        let difference = total_height - visible_height;
        let limit = if difference < 0 { 0 } else { difference };
        let below_limit = if old_position < limit { old_position } else { limit };
        let position = if below_limit < 0 { 0 } else { below_limit };
        ScrollbarPlan {
            show_scrollbar: true,
            range: Some(ScrollRange { maximum: total_height - 1, page: wrap_to_u32(visible_height) }),
            position,
        }
    } else {
        ScrollbarPlan { show_scrollbar: false, range: None, position: 0 }
    }
}

/// The vertical offset of the content panel for a scroll position.
pub fn content_offset(scroll_position: i32) -> (result: i32)
    requires
        scroll_position != i32::MIN,
    ensures
        result == -scroll_position,
{
    -scroll_position
}

// ---------------------------------------------------------------------------
// Mouse wheel
// ---------------------------------------------------------------------------

/// `WHEEL_PAGESCROLL`: the system setting for scrolling a page per notch.
pub const WHEEL_PAGESCROLL: u32 = 0xffff_ffff;

/// Lines per wheel notch from the `SPI_GETWHEELSCROLLLINES` query: `None`
/// means whole pages; a failed query counts as three lines.
pub fn wheel_scroll_lines(query_result: Option<u32>) -> (result: Option<u32>)
    ensures
        result == match query_result {
            Some(lines) => if lines == WHEEL_PAGESCROLL { None } else { Some(lines) },
            None => Some(3u32),
        },
{
    match query_result {
        Some(lines) => if lines == WHEEL_PAGESCROLL { None } else { Some(lines) },
        None => Some(3),
    }
}

/// `raw as i16` for a `u16`.
pub open spec fn u16_as_i16(raw: u16) -> int {
    if raw <= 0x7fff {
        raw as int
    } else {
        raw - 0x1_0000
    }
}

/// The wheel distance of a `WM_MOUSEWHEEL` message: the reported distance,
/// or, when that reads zero, the high word carried in the key state.
pub fn wheel_distance(reported_distance: i16, raw_keys: u16) -> (result: i16)
    ensures
        result == if reported_distance != 0 { reported_distance as int } else { u16_as_i16(raw_keys) },
{
    if reported_distance != 0 {
        reported_distance
    } else if raw_keys <= 0x7fff {
        raw_keys as i16
    } else {
        (raw_keys as i32 - 0x1_0000) as i16
    }
}

/// The number of wheel notches in a distance: at least one.
pub open spec fn wheel_notches(distance: int) -> int {
    let magnitude = if distance < 0 { -distance } else { distance };
    if magnitude / 120 < 1 {
        1
    } else {
        magnitude / 120
    }
}

/// The scroll requests a wheel turn becomes: line steps (notches times lines
/// per notch) or page steps, up when the distance is positive.
pub fn wheel_scroll_plan(distance: i16, lines_per_notch: Option<u32>) -> (result: (ScrollRequest, u32))
    requires
        distance != i16::MIN,
        lines_per_notch matches Some(lines) ==> wheel_notches(distance as int) * lines <= u32::MAX,
    ensures
        result.0 == match lines_per_notch {
            Some(_) => if distance > 0 { ScrollRequest::LineUp } else { ScrollRequest::LineDown },
            None => if distance > 0 { ScrollRequest::PageUp } else { ScrollRequest::PageDown },
        },
        result.1 == match lines_per_notch {
            Some(lines) => wheel_notches(distance as int) * lines,
            None => wheel_notches(distance as int),
        },
{
    let is_scrolling_up = distance > 0;
    let magnitude: i16 = if distance < 0 { -distance } else { distance };
    let quotient = magnitude / 120;
    let notches: u32 = if quotient < 1 { 1 } else { quotient as u32 };
    match lines_per_notch {
        Some(lines) => {
            let request = if is_scrolling_up { ScrollRequest::LineUp } else { ScrollRequest::LineDown };
            (request, notches * lines)
        },
        None => {
            let request = if is_scrolling_up { ScrollRequest::PageUp } else { ScrollRequest::PageDown };
            (request, notches)
        },
    }
}

} // verus!
