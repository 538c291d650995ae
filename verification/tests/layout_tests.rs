use toolbox::layout::{
    CheckboxLayoutCalculator, Point, SettingsPageLayout, Size, WindowVisualStylesPageLayout,
    calculate_edit_ideal_height, calculate_listview_usable_column_width, calculate_process_listview_column_widths,
    non_negative, scale_for_dpi, tab_container_height,
};

#[test]
fn clamps_negative_dimensions() {
    assert_eq!(non_negative(-5), 0);
    assert_eq!(non_negative(0), 0);
    assert_eq!(non_negative(17), 17);
}

#[test]
fn scales_like_muldiv() {
    assert_eq!(scale_for_dpi(10, 96), 10);
    assert_eq!(scale_for_dpi(25, 144), 38);
    assert_eq!(scale_for_dpi(22, 120), 28);
    assert_eq!(scale_for_dpi(5, 120), 6);
    assert_eq!(scale_for_dpi(-5, 120), -6);
    assert_eq!(scale_for_dpi(1, 48), 1);
    assert_eq!(scale_for_dpi(i32::MAX, 192), -1);
    assert_eq!(scale_for_dpi(0, 0), 0);
}

#[test]
fn checkbox_layout_at_96_dpi() {
    let calculator = CheckboxLayoutCalculator::new(96);
    assert_eq!(calculator.checkbox_height(), 22);
    assert_eq!(calculator.calculate_checkbox_position(0), Point { x: 20, y: 10 });
    assert_eq!(calculator.calculate_checkbox_position(3), Point { x: 20, y: 106 });
    assert_eq!(calculator.calculate_checkbox_width(400), 360);
    assert_eq!(calculator.calculate_checkbox_width(50), 100);
    assert_eq!(calculator.calculate_total_content_height(0), 0);
    assert_eq!(calculator.calculate_total_content_height(1), 48);
    assert_eq!(calculator.calculate_total_content_height(13), 10 + 13 * 32 - 10 + 16);
}

#[test]
fn checkbox_layout_at_144_dpi() {
    let calculator = CheckboxLayoutCalculator::new(144);
    assert_eq!(calculator.checkbox_height(), 33);
    assert_eq!(calculator.calculate_checkbox_position(2), Point { x: 30, y: 15 + 2 * (33 + 15) });
}

#[test]
fn settings_page_layout() {
    let layout = SettingsPageLayout::calculate(600, 400, 96);
    assert_eq!(layout.group_box_position, Point { x: 10, y: 10 });
    assert_eq!(layout.group_box_size, Size { cx: 580, cy: 345 });
    assert_eq!(layout.scrollable_panel_position, Point { x: 16, y: 30 });
    assert_eq!(layout.scrollable_panel_size, Size { cx: 568, cy: 319 });
    assert_eq!(layout.button_apply_position, Point { x: 515, y: 365 });
    assert_eq!(layout.button_apply_size, Size { cx: 75, cy: 25 });
    assert_eq!(layout.button_select_all_toggle_position, Point { x: 435, y: 365 });
    assert_eq!(layout.button_select_all_toggle_size, Size { cx: 75, cy: 25 });
}

#[test]
fn visual_styles_page_layout() {
    let layout = WindowVisualStylesPageLayout::calculate(500, 300, 25, 96);
    assert_eq!(layout.edit_position, Point { x: 10, y: 10 });
    assert_eq!(layout.edit_size, Size { cx: 480, cy: 25 });
    assert_eq!(layout.listview_position, Point { x: 10, y: 45 });
    assert_eq!(layout.listview_size, Size { cx: 480, cy: 245 });
    let tiny = WindowVisualStylesPageLayout::calculate(5, 20, 25, 96);
    assert_eq!(tiny.edit_size, Size { cx: 0, cy: 25 });
    assert_eq!(tiny.listview_size, Size { cx: 0, cy: 0 });
}

#[test]
fn edit_height_has_a_minimum() {
    assert_eq!(calculate_edit_ideal_height(16, 0, 2, 96), 25);
    assert_eq!(calculate_edit_ideal_height(22, 1, 2, 96), 27);
    assert_eq!(calculate_edit_ideal_height(16, 0, 2, 192), 50);
}

#[test]
fn column_widths_split_seventy_thirty() {
    let widths = calculate_process_listview_column_widths(400);
    assert_eq!(widths.process_name_column_width, 280);
    assert_eq!(widths.process_id_column_width, 120);
    let widths = calculate_process_listview_column_widths(333);
    assert_eq!(widths.process_name_column_width + widths.process_id_column_width, 333);
    let widths = calculate_process_listview_column_widths(-10);
    assert_eq!((widths.process_name_column_width, widths.process_id_column_width), (0, 0));
}

#[test]
fn usable_width_reserves_scrollbar() {
    assert_eq!(calculate_listview_usable_column_width(None, false, 17), 0);
    assert_eq!(calculate_listview_usable_column_width(Some(300), false, 17), 283);
    assert_eq!(calculate_listview_usable_column_width(Some(300), true, 17), 300);
    assert_eq!(calculate_listview_usable_column_width(Some(10), false, 17), 0);
}

#[test]
fn tab_container_leaves_room_for_status_bar() {
    assert_eq!(tab_container_height(500, 22), 478);
    assert_eq!(tab_container_height(500, 0), 500);
}

#[test]
fn checkboxes_follow_each_other_and_the_content_ends_below_the_last() {
    for dpi in [96, 120, 144, 192] {
        let c = CheckboxLayoutCalculator::new(dpi);
        let gap = scale_for_dpi(10, dpi);
        let bottom = scale_for_dpi(16, dpi);
        assert_eq!(c.calculate_total_content_height(0), 0);
        for index in 0..12usize {
            let this = c.calculate_checkbox_position(index);
            let next = c.calculate_checkbox_position(index + 1);
            assert_eq!(this.x, next.x);
            assert_eq!(this.y + c.checkbox_height() + gap, next.y);
        }
        for count in 1..=13usize {
            let last = c.calculate_checkbox_position(count - 1);
            assert_eq!(c.calculate_total_content_height(count), last.y + c.checkbox_height() + bottom);
            if count >= 2 {
                assert!(c.calculate_total_content_height(count) > c.calculate_total_content_height(count - 1));
            }
        }
    }
}
