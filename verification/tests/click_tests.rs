use window_shell::click::{ClickState, DoubleClickMetrics, MouseButton};
use window_shell::geometry::DevicePoint;

fn metrics() -> DoubleClickMetrics {
    DoubleClickMetrics { width: 4, height: 4, interval_ms: 500 }
}

fn point(x: i32, y: i32) -> DevicePoint {
    DevicePoint { x, y }
}

#[test]
fn test_double_click_interval() {
    let mut state = ClickState::new(metrics(), 0);
    assert_eq!(state.update(MouseButton::Left, point(0, 0), 0), 1);
    assert_eq!(state.update(MouseButton::Right, point(0, 0), 0), 1);
    assert_eq!(state.update(MouseButton::Left, point(0, 0), 0), 1);
    assert_eq!(state.update(MouseButton::Left, point(0, 0), 0), 2);
    // 700 ms pass: more than the 500 ms interval, so the run resets.
    assert_eq!(state.update(MouseButton::Left, point(0, 0), 700), 1);
}

#[test]
fn test_double_click_spatial_tolerance() {
    let mut state = ClickState::new(metrics(), 0);
    assert_eq!(state.update(MouseButton::Left, point(-3, 0), 0), 1);
    assert_eq!(state.update(MouseButton::Left, point(0, 3), 0), 2);
    assert_eq!(state.update(MouseButton::Right, point(3, 2), 0), 1);
    assert_eq!(state.update(MouseButton::Right, point(10, 0), 0), 1);
}

#[test]
fn button_change_resets_regardless_of_position_and_time() {
    let mut state = ClickState::new(metrics(), 0);
    assert_eq!(state.update(MouseButton::Left, point(0, 0), 0), 1);
    assert_eq!(state.update(MouseButton::Left, point(0, 0), 1), 2);
    // Same position, no time passed, but another button: a new run.
    assert_eq!(state.update(MouseButton::Middle, point(0, 0), 1), 1);
    assert_eq!(
        state.update(
            MouseButton::Navigate(window_shell::click::NavigationDirection::Back),
            point(0, 0),
            1,
        ),
        1
    );
}

#[test]
fn tolerated_clicks_increment_by_one() {
    let mut state = ClickState::new(metrics(), 0);
    assert_eq!(state.update(MouseButton::Left, point(0, 0), 0), 1);
    assert_eq!(state.update(MouseButton::Left, point(4, -4), 100), 2);
    assert_eq!(state.update(MouseButton::Left, point(1, 0), 300), 3);
    assert_eq!(state.update(MouseButton::Left, point(1, 0), 799), 4);
}

#[test]
fn elapsed_interval_resets_even_for_identical_click() {
    let mut state = ClickState::new(metrics(), 0);
    assert_eq!(state.update(MouseButton::Left, point(5, 5), 0), 1);
    assert_eq!(state.update(MouseButton::Left, point(5, 5), 100), 2);
    // Exactly the interval is already too late: the comparison is strict.
    assert_eq!(state.update(MouseButton::Left, point(5, 5), 600), 1);
}

#[test]
fn system_update_replaces_only_the_named_metric() {
    let mut state = ClickState::new(metrics(), 0);
    let fresh = DoubleClickMetrics { width: 10, height: 11, interval_ms: 900 };

    state.system_update(29, fresh);
    assert_eq!(state.double_click_spatial_tolerance_width, 10);
    assert_eq!(state.double_click_spatial_tolerance_height, 4);
    assert_eq!(state.double_click_interval_ms, 500);

    state.system_update(30, fresh);
    assert_eq!(state.double_click_spatial_tolerance_height, 11);
    assert_eq!(state.double_click_interval_ms, 500);

    state.system_update(32, fresh);
    assert_eq!(state.double_click_interval_ms, 900);
}

#[test]
fn system_update_ignores_unrecognized_ids() {
    let mut state = ClickState::new(metrics(), 0);
    let before = state;
    let fresh = DoubleClickMetrics { width: 10, height: 11, interval_ms: 900 };
    state.system_update(0, fresh);
    state.system_update(31, fresh);
    state.system_update(usize::MAX, fresh);
    assert_eq!(state, before);
}

#[test]
fn widened_tolerance_takes_effect_on_the_next_click() {
    let mut state = ClickState::new(metrics(), 0);
    assert_eq!(state.update(MouseButton::Left, point(0, 0), 0), 1);
    // 10 pixels away: outside the default tolerance of 4.
    assert_eq!(state.update(MouseButton::Left, point(10, 0), 10), 1);
    state.system_update(29, DoubleClickMetrics { width: 20, height: 4, interval_ms: 500 });
    assert_eq!(state.update(MouseButton::Left, point(0, 0), 20), 2);
}
