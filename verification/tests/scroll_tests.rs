use toolbox::scroll::{
    ScrollInfo, ScrollRange, ScrollRequest, ScrollbarPlan, content_offset, next_scroll_position, scroll_target, scrollbar_plan,
    wheel_distance, wheel_scroll_lines, wheel_scroll_plan,
};

fn info(position: i32, maximum: i32, page: u32) -> ScrollInfo {
    ScrollInfo { position, maximum, page }
}

#[test]
fn scroll_requests_move_within_range() {
    let i = info(50, 499, 200);
    assert_eq!(next_scroll_position(ScrollRequest::LineUp, i, 0, 20), 30);
    assert_eq!(next_scroll_position(ScrollRequest::LineUp, info(10, 499, 200), 0, 20), 0);
    assert_eq!(next_scroll_position(ScrollRequest::LineDown, i, 0, 20), 70);
    assert_eq!(next_scroll_position(ScrollRequest::LineDown, info(290, 499, 200), 0, 20), 299);
    assert_eq!(next_scroll_position(ScrollRequest::PageUp, i, 0, 20), 0);
    assert_eq!(next_scroll_position(ScrollRequest::PageDown, i, 0, 20), 250);
    assert_eq!(next_scroll_position(ScrollRequest::PageDown, info(250, 499, 200), 0, 20), 299);
    assert_eq!(next_scroll_position(ScrollRequest::ThumbTrack, i, 123, 20), 123);
    assert_eq!(next_scroll_position(ScrollRequest::ThumbPosition, i, 1000, 20), 299);
    assert_eq!(next_scroll_position(ScrollRequest::Top, i, 0, 20), 0);
    assert_eq!(next_scroll_position(ScrollRequest::Bottom, i, 0, 20), 299);
    assert_eq!(next_scroll_position(ScrollRequest::Other, i, 0, 20), 50);
    assert_eq!(next_scroll_position(ScrollRequest::Bottom, info(0, 100, 300), 0, 20), 0);
}

#[test]
fn scrollbar_shown_only_when_needed() {
    assert_eq!(
        scrollbar_plan(300, 200, 40),
        ScrollbarPlan { show_scrollbar: false, range: None, position: 0 }
    );
    assert_eq!(
        scrollbar_plan(200, 500, 40),
        ScrollbarPlan { show_scrollbar: true, range: Some(ScrollRange { maximum: 499, page: 200 }), position: 40 }
    );
    assert_eq!(scrollbar_plan(200, 500, 1000).position, 300);
    assert_eq!(scrollbar_plan(200, 500, -5).position, 0);
}

#[test]
fn content_moves_opposite_to_scroll() {
    assert_eq!(content_offset(120), -120);
    assert_eq!(content_offset(0), 0);
}

#[test]
fn wheel_lines_setting() {
    assert_eq!(wheel_scroll_lines(Some(3)), Some(3));
    assert_eq!(wheel_scroll_lines(Some(u32::MAX)), None);
    assert_eq!(wheel_scroll_lines(None), Some(3));
}

#[test]
fn wheel_distance_falls_back_to_key_word() {
    assert_eq!(wheel_distance(120, 0), 120);
    assert_eq!(wheel_distance(0, 0xff88), -120);
    assert_eq!(wheel_distance(0, 240), 240);
}

#[test]
fn wheel_turns_become_requests() {
    assert_eq!(wheel_scroll_plan(120, Some(3)), (ScrollRequest::LineUp, 3));
    assert_eq!(wheel_scroll_plan(-240, Some(3)), (ScrollRequest::LineDown, 6));
    assert_eq!(wheel_scroll_plan(30, Some(3)), (ScrollRequest::LineUp, 3));
    assert_eq!(wheel_scroll_plan(-360, None), (ScrollRequest::PageDown, 3));
    assert_eq!(wheel_scroll_plan(0, None), (ScrollRequest::PageDown, 1));
}

#[test]
fn content_moves_only_when_the_position_changes() {
    let info = ScrollInfo { position: 0, maximum: 399, page: 100 };
    assert_eq!(scroll_target(ScrollRequest::LineUp, info, 0, 20), None);
    assert_eq!(scroll_target(ScrollRequest::Top, info, 0, 20), None);
    assert_eq!(scroll_target(ScrollRequest::LineDown, info, 0, 20), Some(20));
    assert_eq!(scroll_target(ScrollRequest::Bottom, info, 0, 20), Some(299));
    let at_end = ScrollInfo { position: 299, maximum: 399, page: 100 };
    assert_eq!(scroll_target(ScrollRequest::PageDown, at_end, 0, 20), None);
    assert_eq!(scroll_target(ScrollRequest::PageUp, at_end, 0, 20), Some(199));
}
