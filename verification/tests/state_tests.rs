use window_shell::click::DoubleClickMetrics;
use window_shell::creation::CreationError;
use window_shell::geometry::{DeviceBounds, DevicePoint, DeviceSize, NativeRect, WindowBorderOffset};
use window_shell::state::{
    CallbackId, CreateParams, DisplayInfo, InputHandlerId, RendererId, StyleAndBounds,
    WindowAppearance, WindowBounds, WindowOpenState, WindowOpenStatus, WindowPlacement,
    WindowsWindowState, FULLSCREEN_STYLE_MASK, SW_SHOWMAXIMIZED, WS_CAPTION, WS_MAXIMIZEBOX,
    WS_MINIMIZEBOX, WS_SYSMENU, WS_THICKFRAME,
};

fn display() -> DisplayInfo {
    DisplayInfo {
        physical_bounds: DeviceBounds {
            origin: DevicePoint { x: 0, y: 0 },
            size: DeviceSize { width: 1920, height: 1080 },
        },
        default_bounds: DeviceBounds {
            origin: DevicePoint { x: 480, y: 270 },
            size: DeviceSize { width: 960, height: 540 },
        },
    }
}

fn fresh_state() -> WindowsWindowState {
    WindowsWindowState::new(
        7001,
        CreateParams { x: 100, y: 200, cx: 640, cy: 480 },
        None,
        display(),
        None,
        WindowAppearance::Dark,
        96,
        Ok(RendererId(1)),
        DoubleClickMetrics { width: 4, height: 4, interval_ms: 500 },
        0,
    )
    .unwrap()
}

fn placement(show_cmd: u32) -> WindowPlacement {
    WindowPlacement {
        show_cmd,
        rc_normal_position: NativeRect { left: 92, top: 181, right: 748, bottom: 700 },
    }
}

#[test]
fn construction_records_creation_rectangle() {
    let state = fresh_state();
    assert_eq!(state.origin, DevicePoint { x: 100, y: 200 });
    assert_eq!(state.physical_size, DeviceSize { width: 640, height: 480 });
    assert_eq!(state.fullscreen_restore_bounds.origin, DevicePoint { x: 100, y: 200 });
    assert_eq!(state.border_offset, WindowBorderOffset { width_offset: 0, height_offset: 0 });
    assert!(state.fullscreen.is_none());
    assert!(state.initial_placement.is_none());
    assert!(!state.is_fullscreen());
    assert_eq!(state.content_size(), DeviceSize { width: 640, height: 480 });
    assert_eq!(
        state.bounds(),
        DeviceBounds {
            origin: DevicePoint { x: 100, y: 200 },
            size: DeviceSize { width: 640, height: 480 },
        }
    );
}

#[test]
fn construction_propagates_renderer_failure() {
    let result = WindowsWindowState::new(
        7001,
        CreateParams { x: 0, y: 0, cx: 1, cy: 1 },
        None,
        display(),
        None,
        WindowAppearance::Light,
        96,
        Err(0x8007000E),
        DoubleClickMetrics { width: 4, height: 4, interval_ms: 500 },
        0,
    );
    assert_eq!(result.unwrap_err(), CreationError::Renderer(0x8007000E));
}

#[test]
fn maximized_means_zoomed_and_not_fullscreen() {
    let mut state = fresh_state();
    assert!(!state.is_maximized(false));
    assert!(state.is_maximized(true));
    state.fullscreen = Some(StyleAndBounds { style: 0, x: 0, y: 0, cx: 0, cy: 0 });
    assert!(state.is_fullscreen());
    assert!(!state.is_maximized(true));
}

#[test]
fn calculate_window_bounds_recovers_client_rect() {
    let mut state = fresh_state();
    state.border_offset = WindowBorderOffset { width_offset: 16, height_offset: 39 };
    let (bounds, maximized) = state.calculate_window_bounds(placement(1));
    assert_eq!(
        bounds,
        DeviceBounds {
            origin: DevicePoint { x: 100, y: 200 },
            size: DeviceSize { width: 640, height: 480 },
        }
    );
    assert!(!maximized);
    let (_, maximized) = state.calculate_window_bounds(placement(SW_SHOWMAXIMIZED));
    assert!(maximized);
}

#[test]
fn window_bounds_reports_canonical_variant() {
    let mut state = fresh_state();
    state.border_offset = WindowBorderOffset { width_offset: 16, height_offset: 39 };
    let client = DeviceBounds {
        origin: DevicePoint { x: 100, y: 200 },
        size: DeviceSize { width: 640, height: 480 },
    };

    assert_eq!(state.window_bounds(placement(1)), WindowBounds::Windowed(client));
    assert_eq!(state.window_bounds(placement(SW_SHOWMAXIMIZED)), WindowBounds::Maximized(client));

    state.fullscreen = Some(StyleAndBounds { style: 0, x: 0, y: 0, cx: 0, cy: 0 });
    assert_eq!(
        state.window_bounds(placement(SW_SHOWMAXIMIZED)),
        WindowBounds::Fullscreen(state.fullscreen_restore_bounds)
    );
}

#[test]
fn toggle_fullscreen_strips_frame_and_covers_monitor() {
    let mut state = fresh_state();
    state.border_offset = WindowBorderOffset { width_offset: 16, height_offset: 39 };
    let style = WS_THICKFRAME | WS_SYSMENU | WS_MAXIMIZEBOX | WS_MINIMIZEBOX | WS_CAPTION | 0x1;
    let window_rect = NativeRect { left: 92, top: 181, right: 748, bottom: 700 };

    let apply = state.toggle_fullscreen(style, window_rect, placement(1));

    assert_eq!(apply.style, style & !FULLSCREEN_STYLE_MASK);
    assert_eq!(apply.style, 0x1);
    assert_eq!((apply.x, apply.y, apply.cx, apply.cy), (0, 0, 1920, 1080));
    assert_eq!(
        state.fullscreen,
        Some(StyleAndBounds { style, x: 92, y: 181, cx: 656, cy: 519 })
    );
    assert_eq!(
        state.fullscreen_restore_bounds,
        DeviceBounds {
            origin: DevicePoint { x: 100, y: 200 },
            size: DeviceSize { width: 640, height: 480 },
        }
    );
}

#[test]
fn toggle_fullscreen_twice_restores_captured_style_and_rect() {
    let mut state = fresh_state();
    state.border_offset = WindowBorderOffset { width_offset: 16, height_offset: 39 };
    let style = WS_THICKFRAME | WS_SYSMENU | WS_CAPTION;
    let window_rect = NativeRect { left: 92, top: 181, right: 748, bottom: 700 };

    let _ = state.toggle_fullscreen(style, window_rect, placement(1));
    assert!(state.is_fullscreen());

    // The arguments of the second call describe the fullscreen window; the
    // restore record must win over them.
    let restored = state.toggle_fullscreen(0, NativeRect { left: 0, top: 0, right: 1920, bottom: 1080 }, placement(1));
    assert!(!state.is_fullscreen());
    assert_eq!(restored, StyleAndBounds { style, x: 92, y: 181, cx: 656, cy: 519 });
}

#[test]
fn set_window_placement_without_deferred_state_is_a_no_op() {
    let mut state = fresh_state();
    assert_eq!(state.set_window_placement(), None);
}

#[test]
fn set_window_placement_consumes_deferred_state_once() {
    let mut state = fresh_state();
    state.initial_placement = Some(WindowOpenStatus {
        placement: placement(1),
        state: WindowOpenState::Maximized,
    });
    let commands = state.set_window_placement().unwrap();
    assert_eq!(commands.placement, placement(1));
    assert!(commands.show_maximized);
    assert!(!commands.enter_fullscreen);
    // One-shot: consumed.
    assert!(state.initial_placement.is_none());
    assert_eq!(state.set_window_placement(), None);
}

#[test]
fn set_window_placement_maps_each_intent() {
    for (intent, maximize, fullscreen) in [
        (WindowOpenState::Windowed, false, false),
        (WindowOpenState::Maximized, true, false),
        (WindowOpenState::Fullscreen, false, true),
    ] {
        let mut state = fresh_state();
        state.initial_placement = Some(WindowOpenStatus { placement: placement(1), state: intent });
        let commands = state.set_window_placement().unwrap();
        assert_eq!(commands.show_maximized, maximize);
        assert_eq!(commands.enter_fullscreen, fullscreen);
    }
}

#[test]
fn zoom_on_visible_window_maximizes_natively() {
    let mut state = fresh_state();
    assert!(state.zoom(true));
    assert!(state.initial_placement.is_none());
}

#[test]
fn zoom_before_first_show_overwrites_pending_intent() {
    let mut state = fresh_state();
    state.initial_placement = Some(WindowOpenStatus {
        placement: placement(1),
        state: WindowOpenState::Windowed,
    });
    assert!(!state.zoom(false));
    assert_eq!(state.initial_placement.unwrap().state, WindowOpenState::Maximized);
}

#[test]
fn fullscreen_request_before_first_show_overwrites_pending_intent() {
    let mut state = fresh_state();
    state.initial_placement = Some(WindowOpenStatus {
        placement: placement(1),
        state: WindowOpenState::Windowed,
    });
    assert!(!state.request_fullscreen(false));
    assert_eq!(state.initial_placement.unwrap().state, WindowOpenState::Fullscreen);

    let mut visible = fresh_state();
    assert!(visible.request_fullscreen(true));
}

#[test]
fn resize_plan_grows_by_border_offset_and_keeps_origin() {
    let mut state = fresh_state();
    state.border_offset = WindowBorderOffset { width_offset: 16, height_offset: 39 };
    let plan = state.resize_plan(DeviceSize { width: 800, height: 600 });
    assert_eq!(plan.x, 100);
    assert_eq!(plan.y, 200);
    assert_eq!(plan.cx, 816);
    assert_eq!(plan.cy, 639);
}

#[test]
fn input_handler_is_a_single_replaceable_slot() {
    let mut state = fresh_state();
    assert_eq!(state.take_input_handler(), None);
    state.set_input_handler(InputHandlerId(5));
    state.set_input_handler(InputHandlerId(6));
    assert_eq!(state.take_input_handler(), Some(InputHandlerId(6)));
    assert_eq!(state.take_input_handler(), None);
}

#[test]
fn callback_slots_are_independent_and_replaceable() {
    let mut state = fresh_state();
    state.on_request_frame(CallbackId(1));
    state.on_input(CallbackId(2));
    state.on_should_close(CallbackId(3));
    state.on_should_close(CallbackId(4));
    assert_eq!(state.callbacks.request_frame, Some(CallbackId(1)));
    assert_eq!(state.callbacks.input, Some(CallbackId(2)));
    assert_eq!(state.callbacks.should_close, Some(CallbackId(4)));
    assert_eq!(state.callbacks.close, None);
}

#[test]
fn dispatch_put_back_overwrites_reentrant_registration() {
    let mut state = fresh_state();
    state.on_input(CallbackId(1));
    let taken = state.take_input_callback().unwrap();
    assert_eq!(state.callbacks.input, None);
    // The callback registers a replacement while it runs...
    state.on_input(CallbackId(9));
    // ...but the put-back overwrites it: the reentrant registration is lost.
    state.restore_input_callback(taken);
    assert_eq!(state.callbacks.input, Some(CallbackId(1)));
}

#[test]
fn is_active_compares_native_handles() {
    let state = fresh_state();
    assert!(state.is_active(7001));
    assert!(!state.is_active(7002));
}
