use buttery_taskbar::geometry::{
    at_bottom_edge_of, hotkey_field_placement, menu_placement, point_from_wparam, MenuPlacement,
    Placement, Point, ScreenRect,
};
use buttery_taskbar::words::{hiword, loword, rgb};

#[test]
fn word_halves() {
    assert_eq!(loword(0x1234_5678), 0x5678);
    assert_eq!(hiword(0x1234_5678), 0x1234);
    assert_eq!(hiword(0xFFFF_0000) * 0x10000 + loword(0xFFFF_0000), 0xFFFF_0000);
    assert_eq!(rgb(255, 255, 220), 0x00DC_FFFF);
    assert_eq!(rgb(1, 2, 3), 0x0003_0201);
}

#[test]
fn points_are_signed() {
    assert_eq!(point_from_wparam(0x0020_0010), Point { x: 0x10, y: 0x20 });
    assert_eq!(point_from_wparam(0xFFFF_FFF6), Point { x: -10, y: -1 });
    assert_eq!(point_from_wparam(0x8000_7FFF), Point { x: 32767, y: -32768 });
}

#[test]
fn bottom_edge_band_is_two_pixels() {
    let m = ScreenRect { left: -1920, top: 0, right: 0, bottom: 1080 };
    assert!(at_bottom_edge_of(-1920, 1078, m));
    assert!(at_bottom_edge_of(-1, 1079, m));
    assert!(!at_bottom_edge_of(0, 1079, m));
    assert!(!at_bottom_edge_of(-5, 1077, m));
    assert!(!at_bottom_edge_of(-5, 1080, m));
}

#[test]
fn menu_stays_in_work_area() {
    let work = ScreenRect { left: 0, top: 0, right: 1920, bottom: 1040 };
    assert_eq!(menu_placement(100, 200, work), MenuPlacement { x: 100, y: 200, flags: 0x182 });
    assert_eq!(menu_placement(1900, 1070, work), MenuPlacement { x: 1900, y: 1039, flags: 0x1A2 });
    assert_eq!(menu_placement(5000, 1039, work), MenuPlacement { x: 1919, y: 1039, flags: 0x1AA });
    assert_eq!(menu_placement(-20, -5, work), MenuPlacement { x: 0, y: 0, flags: 0x182 });
}

#[test]
#[allow(clippy::identity_op)]
fn hotkey_field_sits_left_of_clear_button() {
    let p = hotkey_field_placement(150, Point { x: 315, y: 15 }, Point { x: 345, y: 39 });
    assert_eq!(p, Placement { x: 150, y: 15, width: 161, height: 24 });
}
