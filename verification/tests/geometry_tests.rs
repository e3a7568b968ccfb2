use window_shell::geometry::{
    calculate_client_rect, calculate_window_rect, DeviceBounds, DevicePoint, DeviceSize,
    NativeRect, WindowBorderOffset,
};

fn bounds(x: i32, y: i32, width: i32, height: i32) -> DeviceBounds {
    DeviceBounds { origin: DevicePoint { x, y }, size: DeviceSize { width, height } }
}

#[test]
fn window_rect_splits_even_offset_symmetrically() {
    let offset = WindowBorderOffset { width_offset: 16, height_offset: 8 };
    let rect = calculate_window_rect(bounds(100, 200, 640, 480), offset);
    assert_eq!(rect, NativeRect { left: 92, top: 196, right: 748, bottom: 684 });
}

#[test]
fn window_rect_gives_odd_remainder_to_right_and_bottom() {
    let offset = WindowBorderOffset { width_offset: 7, height_offset: 39 };
    let rect = calculate_window_rect(bounds(0, 0, 100, 100), offset);
    // Left takes 3 of 7, right the remaining 4; top 19 of 39, bottom 20.
    assert_eq!(rect, NativeRect { left: -3, top: -19, right: 104, bottom: 120 });
}

#[test]
fn round_trip_is_exact_for_even_offsets() {
    let offset = WindowBorderOffset { width_offset: 16, height_offset: 38 };
    let original = bounds(-50, 75, 800, 600);
    let rect = calculate_window_rect(original, offset);
    assert_eq!(calculate_client_rect(rect, offset), original);
}

#[test]
fn round_trip_is_exact_for_odd_offsets() {
    let offset = WindowBorderOffset { width_offset: 7, height_offset: 39 };
    let original = bounds(10, 20, 301, 201);
    let rect = calculate_window_rect(original, offset);
    assert_eq!(calculate_client_rect(rect, offset), original);
}

#[test]
fn client_rect_recovers_interior() {
    let offset = WindowBorderOffset { width_offset: 16, height_offset: 39 };
    let rect = NativeRect { left: 92, top: 181, right: 748, bottom: 700 };
    let client = calculate_client_rect(rect, offset);
    assert_eq!(client, bounds(100, 200, 640, 480));
}

#[test]
fn zero_offset_changes_nothing() {
    let offset = WindowBorderOffset { width_offset: 0, height_offset: 0 };
    let original = bounds(1, 2, 3, 4);
    let rect = calculate_window_rect(original, offset);
    assert_eq!(rect, NativeRect { left: 1, top: 2, right: 4, bottom: 6 });
    assert_eq!(calculate_client_rect(rect, offset), original);
}

#[test]
fn border_offset_update_measures_frame_delta() {
    let mut offset = WindowBorderOffset { width_offset: 0, height_offset: 0 };
    let window_rect = NativeRect { left: 92, top: 181, right: 748, bottom: 700 };
    let client_rect = NativeRect { left: 0, top: 0, right: 640, bottom: 480 };
    offset.update(window_rect, client_rect);
    assert_eq!(offset.width_offset, 16);
    assert_eq!(offset.height_offset, 39);
}
