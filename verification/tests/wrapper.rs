use winwrap::geometry::Point;
use winwrap::geometry::Rect;
use winwrap::geometry::WinRect;
use winwrap::utf16::decode;
use winwrap::window::Window;
use winwrap::window::style_has_title_bar;
use winwrap::window::strip_title_bar;
use winwrap::window::HWND_TOP;
use winwrap::window::SWP_SHOWWINDOW;

#[test]
fn decode_empty() {
    assert_eq!(decode(&[]), String::new());
}

#[test]
fn decode_ascii() {
    assert_eq!(decode(&[0x0041, 0x0042]), "AB".to_string());
}

#[test]
fn decode_lone_high_surrogate() {
    assert_eq!(decode(&[0xd800]), "\u{fffd}".to_string());
}

#[test]
fn decode_lone_low_surrogate() {
    assert_eq!(decode(&[0xdc00]), "\u{fffd}".to_string());
}

#[test]
fn decode_surrogate_pair() {
    assert_eq!(decode(&[0xd83d, 0xde00]), "\u{1f600}".to_string());
}

#[test]
fn decode_high_surrogate_before_ordinary_unit() {
    assert_eq!(decode(&[0xd800, 0x0041]), "\u{fffd}A".to_string());
}

#[test]
fn decode_high_surrogate_before_pair() {
    assert_eq!(decode(&[0xd800, 0xd83d, 0xde00]), "\u{fffd}\u{1f600}".to_string());
}

#[test]
fn decode_never_longer_than_input() {
    let units = [0x0041, 0xd800, 0xdc00, 0x0042, 0xdc00];
    let text = decode(&units);
    assert!(text.chars().count() <= units.len());
    assert_eq!(text, "A\u{10000}B\u{fffd}".to_string());
}

#[test]
fn rect_conversion() {
    let r = Rect::from_win_rect(WinRect { left: 10, top: 20, right: 110, bottom: 70 });
    assert_eq!(r.pos, Point { x: 10, y: 20 });
    assert_eq!(r.size, Point { x: 100, y: 50 });
}

#[test]
fn rect_conversion_negative_size_passes_through() {
    let r = Rect::from_win_rect(WinRect { left: 10, top: 20, right: 4, bottom: 2 });
    assert_eq!(r.pos, Point { x: 10, y: 20 });
    assert_eq!(r.size, Point { x: -6, y: -18 });
}

#[test]
fn rect_conversion_zero_size() {
    let r = Rect::from_win_rect(WinRect { left: 5, top: 5, right: 5, bottom: 5 });
    assert_eq!(r.size, Point { x: 0, y: 0 });
}

#[test]
fn rect_query_failure_is_absence() {
    let r = Rect::from_query(false, WinRect { left: 1, top: 2, right: 3, bottom: 4 });
    assert_eq!(r, None);
}

#[test]
fn rect_query_success_converts() {
    let r = Rect::from_query(true, WinRect { left: 1, top: 2, right: 3, bottom: 6 });
    assert_eq!(
        r,
        Some(Rect { pos: Point { x: 1, y: 2 }, size: Point { x: 2, y: 4 } })
    );
}

#[test]
fn screen_size_maps_width_to_x() {
    let p = Point::scren_size(1920, 1080);
    assert_eq!(p, Point { x: 1920, y: 1080 });
}

#[test]
fn title_bar_mask_zero_style() {
    assert!(!style_has_title_bar(0x00000000));
}

#[test]
fn title_bar_mask_full_overlap() {
    assert!(style_has_title_bar(0x00ce0000));
}

#[test]
fn title_bar_mask_partial_overlap() {
    assert!(style_has_title_bar(0x00020000));
}

#[test]
fn title_bar_mask_outside_mask() {
    assert!(!style_has_title_bar(0x00100000));
    assert!(!style_has_title_bar(0x00010000));
}

#[test]
fn strip_clears_only_the_mask() {
    let stripped = strip_title_bar(0x00cf0001);
    assert_eq!(stripped, 0x00010001);
    assert!(!style_has_title_bar(stripped));
}

#[test]
fn strip_keeps_unrelated_bits() {
    let stripped = strip_title_bar(0x10100000);
    assert_eq!(stripped, 0x10100000);
}

#[test]
fn empty_title_is_absence() {
    let buf = [0u16; 1];
    assert_eq!(Window::title_from_buffer(0, &buf), None);
}

#[test]
fn title_decodes_reported_length_only() {
    // Two units of text followed by the terminator the platform wrote.
    let buf = [0x0041, 0x0042, 0x0000];
    assert_eq!(Window::title_from_buffer(2, &buf), Some("AB".to_string()));
}

#[test]
fn resize_issues_one_top_show_request() {
    let w = Window::new(42);
    let rect = Rect { pos: Point { x: 7, y: 8 }, size: Point { x: 640, y: 480 } };
    let req = w.resize(rect);
    assert_eq!(req.hwnd, 42);
    assert_eq!(req.insert_after, HWND_TOP);
    assert_eq!(req.x, 7);
    assert_eq!(req.y, 8);
    assert_eq!(req.cx, 640);
    assert_eq!(req.cy, 480);
    assert_eq!(req.flags, SWP_SHOWWINDOW);
}

#[test]
fn resize_passes_degenerate_rect_through() {
    let w = Window::new(1);
    let rect = Rect { pos: Point { x: 0, y: 0 }, size: Point { x: -5, y: 0 } };
    let req = w.resize(rect);
    assert_eq!(req.cx, -5);
    assert_eq!(req.cy, 0);
    assert_eq!(req.flags, SWP_SHOWWINDOW);
}

#[test]
fn window_holds_its_handle() {
    let w = Window::new(1234);
    assert_eq!(w.hwnd, 1234);
}
