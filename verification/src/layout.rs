//! DPI-aware layout of the settings page, the process page and the main
//! window. Raw pixel constants are given at 96 DPI and scaled the way
//! `MulDiv(value, dpi, 96)` scales them.

use vstd::prelude::*;

verus! {

/// A position in pixels.
#[derive(Debug, Clone, Copy, PartialEq, Eq, Structural)]
pub struct Point {
    pub x: i32,
    pub y: i32,
}

/// A size in pixels.
#[derive(Debug, Clone, Copy, PartialEq, Eq, Structural)]
pub struct Size {
    pub cx: i32,
    pub cy: i32,
}

/// Whether `v` is a value of `i32`.
pub open spec fn fits_i32(v: int) -> bool {
    i32::MIN <= v <= i32::MAX
}

/// `v` clamped to zero from below.
pub open spec fn clamp_non_negative(v: int) -> int {
    if v < 0 {
        0
    } else {
        v
    }
}

/// Clamps a dimension to zero when it is negative.
pub fn non_negative(value: i32) -> (result: i32)
    ensures
        result == clamp_non_negative(value as int),
{
    if value < 0 {
        0
    } else {
        value
    }
}

// ---------------------------------------------------------------------------
// DPI scaling
// ---------------------------------------------------------------------------

/// `MulDiv(value, dpi, 96)`: the product divided by 96, rounded half away
/// from zero, or -1 when the result does not fit.
pub open spec fn dpi_scaled(value: int, dpi: int) -> int {
    let product = value * dpi;
    let rounded = if product >= 0 {
        (product + 48) / 96
    } else {
        -((-product + 48) / 96)
    };
    if rounded > 2147483647 || rounded < -2147483647 {
        -1
    } else {
        rounded
    }
}

/// Scales a 96-DPI pixel value to the display DPI `dpi`.
pub fn scale_for_dpi(value: i32, dpi: i32) -> (result: i32)
    ensures
        result == dpi_scaled(value as int, dpi as int),
{
    let v = value as i64;
    let d = dpi as i64;
    assert(-0x4000_0000_0000_0000 <= v * d <= 0x4000_0000_0000_0000) by (nonlinear_arith)
        requires
            -0x8000_0000 <= v <= 0x7fff_ffff,
            -0x8000_0000 <= d <= 0x7fff_ffff,
    ;
    let product: i64 = v * d;
    let rounded: i64 = if product >= 0 {
        (product + 48) / 96
    } else {
        -((-product + 48) / 96)
    };
    if rounded > 2147483647 || rounded < -2147483647 {
        -1
    } else {
        rounded as i32
    }
}

// ---------------------------------------------------------------------------
// Settings page: checkbox list
// ---------------------------------------------------------------------------

/// Height of one checkbox at 96 DPI.
pub const CHECKBOX_HEIGHT: i32 = 22;
/// Vertical gap between checkboxes at 96 DPI.
pub const CHECKBOX_VERTICAL_GAP: i32 = 10;
/// Left margin of the checkbox column at 96 DPI.
pub const CHECKBOX_LEFT_MARGIN: i32 = 20;
/// Right margin of the checkbox column at 96 DPI.
pub const CHECKBOX_RIGHT_MARGIN: i32 = 20;
/// Margin above the first checkbox at 96 DPI.
pub const CHECKBOX_TOP_MARGIN: i32 = 10;
/// Margin below the last checkbox at 96 DPI.
pub const CHECKBOX_BOTTOM_MARGIN: i32 = 16;
/// The narrowest a checkbox is made, in pixels.
pub const CHECKBOX_MIN_WIDTH: i32 = 100;

/// Positions and sizes of checkboxes in the content panel, with every metric
/// scaled to the display DPI once.
#[derive(Debug, Clone, Copy, PartialEq, Eq)]
pub struct CheckboxLayoutCalculator {
    checkbox_height: i32,
    checkbox_vertical_gap: i32,
    checkbox_left_margin: i32,
    checkbox_right_margin: i32,
    checkbox_top_margin: i32,
    checkbox_bottom_margin: i32,
}

impl CheckboxLayoutCalculator {
    /// The scaled checkbox height.
    pub closed spec fn height(&self) -> int {
        self.checkbox_height as int
    }

    /// The scaled gap between checkboxes.
    pub closed spec fn gap(&self) -> int {
        self.checkbox_vertical_gap as int
    }

    /// The scaled left margin.
    pub closed spec fn left(&self) -> int {
        self.checkbox_left_margin as int
    }

    /// The scaled right margin.
    pub closed spec fn right(&self) -> int {
        self.checkbox_right_margin as int
    }

    /// The scaled top margin.
    pub closed spec fn top(&self) -> int {
        self.checkbox_top_margin as int
    }

    /// The scaled bottom margin.
    pub closed spec fn bottom(&self) -> int {
        self.checkbox_bottom_margin as int
    }

    /// A calculator whose metrics are scaled to `dpi`.
    pub fn new(dpi: i32) -> (result: Self)
        ensures
            result.height() == dpi_scaled(CHECKBOX_HEIGHT as int, dpi as int),
            result.gap() == dpi_scaled(CHECKBOX_VERTICAL_GAP as int, dpi as int),
            result.left() == dpi_scaled(CHECKBOX_LEFT_MARGIN as int, dpi as int),
            result.right() == dpi_scaled(CHECKBOX_RIGHT_MARGIN as int, dpi as int),
            result.top() == dpi_scaled(CHECKBOX_TOP_MARGIN as int, dpi as int),
            result.bottom() == dpi_scaled(CHECKBOX_BOTTOM_MARGIN as int, dpi as int),
    {
        CheckboxLayoutCalculator {
            checkbox_height: scale_for_dpi(CHECKBOX_HEIGHT, dpi),
            checkbox_vertical_gap: scale_for_dpi(CHECKBOX_VERTICAL_GAP, dpi),
            checkbox_left_margin: scale_for_dpi(CHECKBOX_LEFT_MARGIN, dpi),
            checkbox_right_margin: scale_for_dpi(CHECKBOX_RIGHT_MARGIN, dpi),
            checkbox_top_margin: scale_for_dpi(CHECKBOX_TOP_MARGIN, dpi),
            checkbox_bottom_margin: scale_for_dpi(CHECKBOX_BOTTOM_MARGIN, dpi),
        }
    }

    /// The distance between the tops of consecutive checkboxes.
    pub open spec fn stride(&self) -> int {
        self.height() + self.gap()
    }

    /// Whether the position of the checkbox at `index` can be computed in
    /// `i32` (the index is taken as `index as i32`).
    pub open spec fn position_fits(&self, index: usize) -> bool {
        &&& fits_i32(self.stride())
        &&& fits_i32((index as i32) * self.stride())
        &&& fits_i32(self.top() + (index as i32) * self.stride())
    }

    /// The top of the checkbox at `index` (the index is taken as `index as i32`).
    pub open spec fn checkbox_top(&self, index: usize) -> int {
        self.top() + (index as i32) * self.stride()
    }

    /// Returns the top-left position of the checkbox at the zero-based `index`.
    pub fn calculate_checkbox_position(&self, index: usize) -> (result: Point)
        requires
            self.position_fits(index),
        ensures
            result.x == self.left(),
            result.y == self.checkbox_top(index),
    {
        let stride = self.checkbox_height + self.checkbox_vertical_gap;
        let row = index as i32;
        Point { x: self.checkbox_left_margin, y: self.checkbox_top_margin + row * stride }
    }

    /// The width of a checkbox in a panel of width `content_panel_width`.
    pub open spec fn checkbox_width(&self, content_panel_width: int) -> int {
        let width = content_panel_width - self.left() - self.right();
        if width < CHECKBOX_MIN_WIDTH {
            CHECKBOX_MIN_WIDTH as int
        } else {
            width
        }
    }

    /// Returns the checkbox width that fills the content panel minus side
    /// margins, and at least 100 pixels so the text is never fully clipped.
    pub fn calculate_checkbox_width(&self, content_panel_width: i32) -> (result: i32)
        requires
            fits_i32(content_panel_width - self.left()),
            fits_i32(content_panel_width - self.left() - self.right()),
        ensures
            result == self.checkbox_width(content_panel_width as int),
            result >= CHECKBOX_MIN_WIDTH,
    {
        let width = content_panel_width - self.checkbox_left_margin - self.checkbox_right_margin;
        if width < CHECKBOX_MIN_WIDTH {
            CHECKBOX_MIN_WIDTH
        } else {
            width
        }
    }

    /// Returns the scaled checkbox height.
    pub fn checkbox_height(&self) -> (result: i32)
        ensures
            result == self.height(),
    {
        self.checkbox_height
    }

    /// The height needed for `count` checkboxes: the margins, the
    /// checkboxes and the gaps between them; nothing for no checkbox.
    pub open spec fn total_content_height(&self, count: usize) -> int {
        if count == 0 {
            0
        } else {
            self.top() + (count as i32) * self.stride() - self.gap() + self.bottom()
        }
    }

    /// Whether [`Self::total_content_height`] can be computed in `i32`.
    pub open spec fn total_height_fits(&self, count: usize) -> bool {
        count != 0 ==> {
            &&& fits_i32(self.stride())
            &&& fits_i32((count as i32) * self.stride())
            &&& fits_i32(self.top() + (count as i32) * self.stride())
            &&& fits_i32(self.top() + (count as i32) * self.stride() - self.gap())
            &&& fits_i32(self.top() + (count as i32) * self.stride() - self.gap() + self.bottom())
        }
    }

    /// Returns the total pixel height needed to display `checkbox_count`
    /// checkboxes, including top and bottom margins and the gaps between them.
    pub fn calculate_total_content_height(&self, checkbox_count: usize) -> (result: i32)
        requires
            self.total_height_fits(checkbox_count),
        ensures
            result == self.total_content_height(checkbox_count),
    {
        if checkbox_count == 0 {
            return 0;
        }
        let stride = self.checkbox_height + self.checkbox_vertical_gap;
        let rows = checkbox_count as i32;
        self.checkbox_top_margin + rows * stride - self.checkbox_vertical_gap + self.checkbox_bottom_margin
    }
}

/// At a DPI of 3 or more, the calculator that [`CheckboxLayoutCalculator::new`]
/// gives has a positive stride: its checkboxes are at least a pixel high.
/// (At a DPI of 2 or less the scaled height and gap round to 0.)
pub proof fn lemma_stride_positive(c: CheckboxLayoutCalculator, dpi: int)
    requires
        3 <= dpi <= i32::MAX,
        c.height() == dpi_scaled(CHECKBOX_HEIGHT as int, dpi),
        c.gap() == dpi_scaled(CHECKBOX_VERTICAL_GAP as int, dpi),
    ensures
        c.height() >= 1,
        c.gap() >= 0,
        c.stride() > 0,
{
    let h = 22 * dpi;
    let g = 10 * dpi;
    assert(66 <= h <= 22 * 2147483647) by (nonlinear_arith)
        requires
            3 <= dpi <= 2147483647,
            h == 22 * dpi,
    ;
    assert(30 <= g <= 10 * 2147483647) by (nonlinear_arith)
        requires
            3 <= dpi <= 2147483647,
            g == 10 * dpi,
    ;
    assert(1 <= (h + 48) / 96 <= 2147483647) by (nonlinear_arith)
        requires
            66 <= h <= 22 * 2147483647,
    ;
    assert(0 <= (g + 48) / 96 <= 2147483647) by (nonlinear_arith)
        requires
            30 <= g <= 10 * 2147483647,
    ;
}

/// Consecutive checkboxes never overlap: each starts one gap below the end
/// of the one before it, at the same left margin.
pub proof fn lemma_consecutive_checkboxes(c: CheckboxLayoutCalculator, index: usize)
    requires
        index < i32::MAX,
    ensures
        c.checkbox_top(index) + c.height() + c.gap() == c.checkbox_top((index + 1) as usize),
        c.gap() >= 0 ==> c.checkbox_top(index) + c.height() <= c.checkbox_top((index + 1) as usize),
{
    let i: int = index as int;
    let s: int = c.stride();
    assert((index as i32) as int == i);
    assert(((index + 1) as usize as i32) as int == i + 1);
    assert((i + 1) * s == i * s + s) by (nonlinear_arith);
}

/// The content ends a bottom margin below the last checkbox, holds nothing
/// without checkboxes, and grows by one stride with each further checkbox.
pub proof fn lemma_total_height_ends_below_last_checkbox(c: CheckboxLayoutCalculator, count: usize)
    requires
        1 <= count <= i32::MAX,
    ensures
        c.total_content_height(0) == 0,
        c.total_content_height(count) == c.checkbox_top((count - 1) as usize) + c.height() + c.bottom(),
        count >= 2 ==> c.total_content_height(count) == c.total_content_height((count - 1) as usize) + c.stride(),
        count >= 2 && c.stride() > 0 ==> c.total_content_height(count) > c.total_content_height((count - 1) as usize),
{
    let n: int = count as int;
    let s: int = c.stride();
    assert((count as i32) as int == n);
    assert(((count - 1) as usize as i32) as int == n - 1);
    assert(n * s == (n - 1) * s + s) by (nonlinear_arith);
}

// ---------------------------------------------------------------------------
// Settings page
// ---------------------------------------------------------------------------

/// Margin around the group box at 96 DPI.
pub const GROUP_BOX_MARGIN: i32 = 10;
/// Height of the group box title bar at 96 DPI.
pub const GROUP_BOX_TITLE_BAR_HEIGHT: i32 = 20;
/// Padding inside the group box at 96 DPI.
pub const GROUP_BOX_INTERNAL_PADDING: i32 = 6;
/// Button width at 96 DPI.
pub const BUTTON_WIDTH: i32 = 75;
/// Button height at 96 DPI.
pub const BUTTON_HEIGHT: i32 = 25;
/// Gap between the two buttons at 96 DPI.
pub const BUTTON_HORIZONTAL_GAP: i32 = 5;

/// Positions and sizes of every control on the settings page.
#[derive(Debug, Clone, Copy, PartialEq, Eq, Structural)]
pub struct SettingsPageLayout {
    pub group_box_position: Point,
    pub group_box_size: Size,
    pub scrollable_panel_position: Point,
    pub scrollable_panel_size: Size,
    pub button_apply_position: Point,
    pub button_apply_size: Size,
    pub button_select_all_toggle_position: Point,
    pub button_select_all_toggle_size: Size,
}

/// The scaled metrics of the settings page at `dpi`.
pub struct SettingsMetrics {
    pub margin: int,
    pub button_width: int,
    pub button_height: int,
    pub button_gap: int,
    pub title_bar_height: int,
    pub padding: int,
}

/// The settings page metrics scaled to `dpi`.
pub open spec fn settings_metrics(dpi: int) -> SettingsMetrics {
    SettingsMetrics {
        margin: dpi_scaled(GROUP_BOX_MARGIN as int, dpi),
        button_width: dpi_scaled(BUTTON_WIDTH as int, dpi),
        button_height: dpi_scaled(BUTTON_HEIGHT as int, dpi),
        button_gap: dpi_scaled(BUTTON_HORIZONTAL_GAP as int, dpi),
        title_bar_height: dpi_scaled(GROUP_BOX_TITLE_BAR_HEIGHT as int, dpi),
        padding: dpi_scaled(GROUP_BOX_INTERNAL_PADDING as int, dpi),
    }
}

/// The group box width for a page `width` wide.
pub open spec fn group_box_width(m: SettingsMetrics, width: int) -> int {
    width - 2 * m.margin
}

/// The group box height for a page `height` high: the page less the two
/// margins around the box, the button row and the margin below it.
pub open spec fn group_box_height(m: SettingsMetrics, height: int) -> int {
    height - 2 * m.margin - m.button_height - m.margin
}

/// The x of the Apply button, right-aligned with a margin.
pub open spec fn apply_button_x(m: SettingsMetrics, width: int) -> int {
    width - m.margin - m.button_width
}

/// The y of the button row, a margin below the group box.
pub open spec fn button_row_y(m: SettingsMetrics, height: int) -> int {
    m.margin + group_box_height(m, height) + m.margin
}

/// Whether every intermediate value of the settings page layout fits in
/// `i32`, for a page of the given size at `dpi`.
pub open spec fn settings_layout_fits(width: int, height: int, dpi: int) -> bool {
    let m = settings_metrics(dpi);
    let gbw = group_box_width(m, width);
    let gbh = group_box_height(m, height);
    &&& fits_i32(2 * m.margin)
    &&& fits_i32(gbw)
    &&& fits_i32(height - 2 * m.margin)
    &&& fits_i32(height - 2 * m.margin - m.button_height)
    &&& fits_i32(gbh)
    &&& fits_i32(m.margin + m.padding)
    &&& fits_i32(m.margin + m.title_bar_height)
    &&& fits_i32(2 * m.padding)
    &&& fits_i32(gbw - 2 * m.padding)
    &&& fits_i32(gbh - m.title_bar_height)
    &&& fits_i32(gbh - m.title_bar_height - m.padding)
    &&& fits_i32(m.margin + gbh)
    &&& fits_i32(button_row_y(m, height))
    &&& fits_i32(width - m.margin)
    &&& fits_i32(apply_button_x(m, width))
    &&& fits_i32(apply_button_x(m, width) - m.button_gap)
    &&& fits_i32(apply_button_x(m, width) - m.button_gap - m.button_width)
}

impl SettingsPageLayout {
    /// The layout of a settings page `width` by `height` pixels at `dpi`.
    pub open spec fn spec_calculate(width: int, height: int, dpi: int) -> SettingsPageLayout {
        let m = settings_metrics(dpi);
        let gbw = group_box_width(m, width);
        let gbh = group_box_height(m, height);
        let apply_x = apply_button_x(m, width);
        let row_y = button_row_y(m, height);
        SettingsPageLayout {
            group_box_position: Point { x: m.margin as i32, y: m.margin as i32 },
            group_box_size: Size { cx: gbw as i32, cy: gbh as i32 },
            scrollable_panel_position: Point {
                x: (m.margin + m.padding) as i32,
                y: (m.margin + m.title_bar_height) as i32,
            },
            scrollable_panel_size: Size {
                cx: (gbw - 2 * m.padding) as i32,
                cy: (gbh - m.title_bar_height - m.padding) as i32,
            },
            button_apply_position: Point { x: apply_x as i32, y: row_y as i32 },
            button_apply_size: Size { cx: m.button_width as i32, cy: m.button_height as i32 },
            button_select_all_toggle_position: Point {
                x: (apply_x - m.button_gap - m.button_width) as i32,
                y: row_y as i32,
            },
            button_select_all_toggle_size: Size { cx: m.button_width as i32, cy: m.button_height as i32 },
        }
    }

    /// Calculates the full page layout from the tab page's client size: a
    /// group box with margins all round above a right-aligned row of two
    /// buttons, and the scrollable panel inside the group box.
    pub fn calculate(tab_page_client_width: i32, tab_page_client_height: i32, dpi: i32) -> (result: Self)
        requires
            settings_layout_fits(tab_page_client_width as int, tab_page_client_height as int, dpi as int),
        ensures
            result == Self::spec_calculate(tab_page_client_width as int, tab_page_client_height as int, dpi as int),
    {
        let group_box_margin = scale_for_dpi(GROUP_BOX_MARGIN, dpi);
        let button_width = scale_for_dpi(BUTTON_WIDTH, dpi);
        let button_height = scale_for_dpi(BUTTON_HEIGHT, dpi);
        let button_horizontal_gap = scale_for_dpi(BUTTON_HORIZONTAL_GAP, dpi);
        let group_box_title_bar_height = scale_for_dpi(GROUP_BOX_TITLE_BAR_HEIGHT, dpi);
        let group_box_internal_padding = scale_for_dpi(GROUP_BOX_INTERNAL_PADDING, dpi);

        let group_box_width = tab_page_client_width - 2 * group_box_margin;
        let group_box_height = tab_page_client_height - (2 * group_box_margin) - button_height - group_box_margin;

        let scrollable_panel_position = Point {
            x: group_box_margin + group_box_internal_padding,
            y: group_box_margin + group_box_title_bar_height,
        };
        let scrollable_panel_size = Size {
            cx: group_box_width - 2 * group_box_internal_padding,
            cy: group_box_height - group_box_title_bar_height - group_box_internal_padding,
        };

        let button_vertical_position = group_box_margin + group_box_height + group_box_margin;
        let button_apply_horizontal_position = tab_page_client_width - group_box_margin - button_width;
        let button_select_all_toggle_horizontal_position = button_apply_horizontal_position
            - button_horizontal_gap - button_width;

        SettingsPageLayout {
            group_box_position: Point { x: group_box_margin, y: group_box_margin },
            group_box_size: Size { cx: group_box_width, cy: group_box_height },
            scrollable_panel_position,
            scrollable_panel_size,
            button_apply_position: Point { x: button_apply_horizontal_position, y: button_vertical_position },
            button_apply_size: Size { cx: button_width, cy: button_height },
            button_select_all_toggle_position: Point {
                x: button_select_all_toggle_horizontal_position,
                y: button_vertical_position,
            },
            button_select_all_toggle_size: Size { cx: button_width, cy: button_height },
        }
    }
}

/// Every metric of the settings page is its 96-DPI size scaled with
/// `MulDiv(value, dpi, 96)`: a 10-pixel margin round the group box, 75 by 25
/// pixel buttons 5 pixels apart, a 20-pixel title bar and 6 pixels of padding
/// inside the group box. The buttons sit right-aligned one margin above the
/// bottom of the page, the group box fills the rest, and the scrollable
/// panel fills the group box below its title.
pub proof fn lemma_settings_layout_scaled(width: int, height: int, dpi: int)
    ensures
        ({
            let l = SettingsPageLayout::spec_calculate(width, height, dpi);
            let m = dpi_scaled(10, dpi);
            let bw = dpi_scaled(75, dpi);
            let bh = dpi_scaled(25, dpi);
            let gap = dpi_scaled(5, dpi);
            let title = dpi_scaled(20, dpi);
            let pad = dpi_scaled(6, dpi);
            &&& l.group_box_position == Point { x: m as i32, y: m as i32 }
            &&& l.group_box_size == Size { cx: (width - 2 * m) as i32, cy: (height - 3 * m - bh) as i32 }
            &&& l.scrollable_panel_position == Point { x: (m + pad) as i32, y: (m + title) as i32 }
            &&& l.scrollable_panel_size == Size {
                cx: (width - 2 * m - 2 * pad) as i32,
                cy: (height - 3 * m - bh - title - pad) as i32,
            }
            &&& l.button_apply_size == Size { cx: bw as i32, cy: bh as i32 }
            &&& l.button_select_all_toggle_size == Size { cx: bw as i32, cy: bh as i32 }
            &&& l.button_apply_position == Point { x: (width - m - bw) as i32, y: (height - m - bh) as i32 }
            &&& l.button_select_all_toggle_position == Point {
                x: (width - m - bw - gap - bw) as i32,
                y: (height - m - bh) as i32,
            }
        }),
{
}

// ---------------------------------------------------------------------------
// Window visual styles page
// ---------------------------------------------------------------------------

/// Margin around the page's controls at 96 DPI.
pub const PAGE_MARGIN: i32 = 10;
/// Gap between the edit control and the list view at 96 DPI.
pub const CONTROL_VERTICAL_GAP: i32 = 10;
/// The least height of the edit control at 96 DPI.
pub const EDIT_MIN_HEIGHT: i32 = 25;

/// Positions and sizes of the controls on the window visual styles page.
#[derive(Debug, Clone, Copy, PartialEq, Eq, Structural)]
pub struct WindowVisualStylesPageLayout {
    pub edit_position: Point,
    pub edit_size: Size,
    pub listview_position: Point,
    pub listview_size: Size,
}

/// Whether every intermediate value of the process page layout fits in `i32`.
pub open spec fn visual_styles_layout_fits(width: int, height: int, edit_height: int, dpi: int) -> bool {
    let m = dpi_scaled(PAGE_MARGIN as int, dpi);
    let gap = dpi_scaled(CONTROL_VERTICAL_GAP as int, dpi);
    &&& fits_i32(m * 2)
    &&& fits_i32(width - m * 2)
    &&& fits_i32(m + edit_height)
    &&& fits_i32(m + edit_height + gap)
    &&& fits_i32(m + edit_height + gap + m)
    &&& fits_i32(height - (m + edit_height + gap + m))
}

impl WindowVisualStylesPageLayout {
    /// The layout of a process page `width` by `height` pixels at `dpi`.
    pub open spec fn spec_calculate(width: int, height: int, edit_height: int, dpi: int) -> WindowVisualStylesPageLayout {
        let m = dpi_scaled(PAGE_MARGIN as int, dpi);
        let gap = dpi_scaled(CONTROL_VERTICAL_GAP as int, dpi);
        WindowVisualStylesPageLayout {
            edit_position: Point { x: m as i32, y: m as i32 },
            edit_size: Size { cx: clamp_non_negative(width - m * 2) as i32, cy: edit_height as i32 },
            listview_position: Point { x: m as i32, y: (m + edit_height + gap) as i32 },
            listview_size: Size {
                cx: clamp_non_negative(width - m * 2) as i32,
                cy: clamp_non_negative(height - (m + edit_height + gap + m)) as i32,
            },
        }
    }

    /// Calculates the page layout: the edit control across the top, the list
    /// view filling the rest, with margins all round; no size below zero.
    pub fn calculate(tab_page_client_width: i32, tab_page_client_height: i32, edit_height: i32, dpi: i32) -> (result:
        Self)
        requires
            visual_styles_layout_fits(tab_page_client_width as int, tab_page_client_height as int, edit_height as int, dpi as int),
        ensures
            result == Self::spec_calculate(
                tab_page_client_width as int,
                tab_page_client_height as int,
                edit_height as int,
                dpi as int,
            ),
    {
        let page_margin = scale_for_dpi(PAGE_MARGIN, dpi);
        let control_vertical_gap = scale_for_dpi(CONTROL_VERTICAL_GAP, dpi);

        let edit_position = Point { x: page_margin, y: page_margin };
        let edit_size = Size { cx: non_negative(tab_page_client_width - page_margin * 2), cy: edit_height };

        let listview_position = Point { x: page_margin, y: page_margin + edit_height + control_vertical_gap };
        let listview_height = non_negative(
            tab_page_client_height - (page_margin + edit_height + control_vertical_gap + page_margin),
        );
        let listview_size = Size { cx: non_negative(tab_page_client_width - page_margin * 2), cy: listview_height };

        WindowVisualStylesPageLayout { edit_position, edit_size, listview_position, listview_size }
    }
}

/// Every metric of the process page is its 96-DPI size scaled with
/// `MulDiv(value, dpi, 96)`: the edit sits a 10-pixel margin from the top
/// left and spans the width less both margins; the list view starts a
/// 10-pixel gap below it and fills the rest of the page above the bottom
/// margin, never with a negative size.
pub proof fn lemma_visual_styles_layout_scaled(width: int, height: int, edit_height: int, dpi: int)
    ensures
        ({
            let l = WindowVisualStylesPageLayout::spec_calculate(width, height, edit_height, dpi);
            let m = dpi_scaled(10, dpi);
            let gap = dpi_scaled(10, dpi);
            let inner_width = if width - 2 * m < 0 { 0 } else { width - 2 * m };
            let list_height = height - 2 * m - edit_height - gap;
            &&& l.edit_position == Point { x: m as i32, y: m as i32 }
            &&& l.edit_size == Size { cx: inner_width as i32, cy: edit_height as i32 }
            &&& l.listview_position == Point { x: m as i32, y: (m + edit_height + gap) as i32 }
            &&& l.listview_size == Size {
                cx: inner_width as i32,
                cy: (if list_height < 0 { 0 } else { list_height }) as i32,
            }
        }),
{
}

/// The height an edit control needs: its font's line height plus two edges,
/// and at least the scaled minimum height.
pub open spec fn edit_ideal_height(font_height: int, external_leading: int, edge_height: int, dpi: int) -> int {
    let needed = font_height + external_leading + edge_height * 2;
    let minimum = dpi_scaled(EDIT_MIN_HEIGHT as int, dpi);
    if needed >= minimum {
        needed
    } else {
        minimum
    }
}

/// Calculates the ideal height of a single-line edit control from its font
/// metrics (`tmHeight`, `tmExternalLeading`) and the system edge height.
pub fn calculate_edit_ideal_height(font_height: i32, external_leading: i32, edge_height: i32, dpi: i32) -> (result:
    i32)
    requires
        fits_i32(font_height + external_leading),
        fits_i32(edge_height * 2),
        fits_i32(font_height + external_leading + edge_height * 2),
    ensures
        result == edit_ideal_height(font_height as int, external_leading as int, edge_height as int, dpi as int),
{
    let needed = font_height + external_leading + (edge_height * 2);
    let minimum = scale_for_dpi(EDIT_MIN_HEIGHT, dpi);
    if needed >= minimum {
        needed
    } else {
        minimum
    }
}

// ---------------------------------------------------------------------------
// Process list view columns
// ---------------------------------------------------------------------------

/// Widths of the two columns of the process list view.
#[derive(Debug, Clone, Copy, PartialEq, Eq, Structural)]
pub struct ProcessListViewColumnWidths {
    pub process_name_column_width: i32,
    pub process_id_column_width: i32,
}

/// The width left for columns: the client width less a vertical scrollbar's
/// width when none is shown yet (it will appear), never below zero, and zero
/// when the client area is unknown.
pub open spec fn usable_column_width(client_width: Option<i32>, scrollbar_visible: bool, scrollbar_width: int) -> int {
    match client_width {
        None => 0,
        Some(w) => clamp_non_negative(
            if scrollbar_visible {
                w as int
            } else {
                w - scrollbar_width
            },
        ),
    }
}

/// Calculates the client width usable by list view columns without causing
/// a horizontal scrollbar.
pub fn calculate_listview_usable_column_width(
    client_width: Option<i32>,
    scrollbar_visible: bool,
    vertical_scrollbar_width: i32,
) -> (result: i32)
    requires
        client_width matches Some(w) ==> fits_i32(w - vertical_scrollbar_width),
    ensures
        result == usable_column_width(client_width, scrollbar_visible, vertical_scrollbar_width as int),
{
    match client_width {
        None => 0,
        Some(width) => {
            let mut available_width = width;
            if !scrollbar_visible {
                available_width = available_width - vertical_scrollbar_width;
            }
            non_negative(available_width)
        },
    }
}

/// Calculates proportional column widths: 70% of the usable width for the
/// process name, the rest for the process id.
pub fn calculate_process_listview_column_widths(usable_width: i32) -> (result: ProcessListViewColumnWidths)
    requires
        clamp_non_negative(usable_width as int) * 70 <= i32::MAX,
    ensures
        result.process_name_column_width == clamp_non_negative(usable_width as int) * 70 / 100,
        result.process_id_column_width == clamp_non_negative(
            clamp_non_negative(usable_width as int) - clamp_non_negative(usable_width as int) * 70 / 100,
        ),
{
    let usable_width = non_negative(usable_width);
    let process_name_column_width = (usable_width * 70) / 100;
    let process_id_column_width = non_negative(usable_width - process_name_column_width);
    ProcessListViewColumnWidths { process_name_column_width, process_id_column_width }
}

/// The two columns share the usable width exactly, with nothing negative.
pub proof fn lemma_column_widths_partition(usable_width: int)
    requires
        usable_width >= 0,
    ensures
        0 <= usable_width * 70 / 100 <= usable_width,
        clamp_non_negative(usable_width - usable_width * 70 / 100) + usable_width * 70 / 100 == usable_width,
{
}

// ---------------------------------------------------------------------------
// Main window
// ---------------------------------------------------------------------------

/// The height left for the tab container above the status bar.
pub fn tab_container_height(client_height: i32, status_bar_height: i32) -> (result: i32)
    requires
        fits_i32(client_height - status_bar_height),
    ensures
        result == client_height - status_bar_height,
{
    client_height - status_bar_height
}

} // verus!
