//! Double/triple-click classification.
//!
//! Each button-down is compared with the previous one: the same button,
//! pressed again within the temporal tolerance and within the spatial
//! tolerance on both axes, continues the click run; anything else starts a
//! new run of one.  The tolerances mirror the operating system's double-click
//! metrics and are re-read when the system broadcasts a change to them; the
//! caller queries the metrics and the clock and passes them in as plain
//! values.

use vstd::prelude::*;
use crate::geometry::DevicePoint;

verus! {

#[derive(Clone, Copy, Debug, PartialEq, Eq, Structural)]
pub enum NavigationDirection {
    Back,
    Forward,
}

#[derive(Clone, Copy, Debug, PartialEq, Eq, Structural)]
pub enum MouseButton {
    Left,
    Right,
    Middle,
    Navigate(NavigationDirection),
}

/// The operating system's double-click metrics: spatial tolerance in device
/// pixels on each axis, temporal tolerance in milliseconds.
#[derive(Clone, Copy, Debug, PartialEq, Eq, Structural)]
pub struct DoubleClickMetrics {
    pub width: i32,
    pub height: i32,
    pub interval_ms: u64,
}

/// System-setting identifiers whose broadcast makes the classifier re-read
/// one of its tolerances.
pub const SETTING_DOUBLE_CLICK_WIDTH: usize = 29;

pub const SETTING_DOUBLE_CLICK_HEIGHT: usize = 30;

pub const SETTING_DOUBLE_CLICK_TIME: usize = 32;

/// The click classifier: the last click's button, time and position, the
/// current tolerances, and the running count.
#[derive(Clone, Copy, Debug, PartialEq, Eq, Structural)]
pub struct ClickState {
    pub button: MouseButton,
    pub last_click_ms: u64,
    pub last_position: DevicePoint,
    pub double_click_spatial_tolerance_width: i32,
    pub double_click_spatial_tolerance_height: i32,
    pub double_click_interval_ms: u64,
    pub current_count: usize,
}

impl ClickState {
    /// Milliseconds since the last recorded click.  A clock reading earlier
    /// than the last click counts as no time passed, as a monotonic clock's
    /// saturating difference does.
    pub open spec fn spec_elapsed_ms(self, now_ms: u64) -> int {
        if now_ms >= self.last_click_ms {
            now_ms - self.last_click_ms
        } else {
            0
        }
    }

    pub open spec fn spec_abs(v: int) -> int {
        if v < 0 {
            -v
        } else {
            v
        }
    }

    /// Whether a press of `button` at `position` at time `now_ms` continues
    /// the previous click run: same button, within the temporal tolerance,
    /// and within the spatial tolerance on both axes.
    pub open spec fn spec_is_double_click(
        self,
        button: MouseButton,
        position: DevicePoint,
        now_ms: u64,
    ) -> bool {
        &&& self.button == button
        &&& self.spec_elapsed_ms(now_ms) < self.double_click_interval_ms
        &&& Self::spec_abs(self.last_position.x - position.x)
            <= self.double_click_spatial_tolerance_width
        &&& Self::spec_abs(self.last_position.y - position.y)
            <= self.double_click_spatial_tolerance_height
    }

    /// The classifier after one press: the count grows by one on a continued
    /// run (saturating at the top of `usize`) and resets to one otherwise;
    /// button, time and position are always re-recorded.
    pub open spec fn spec_updated(
        self,
        button: MouseButton,
        position: DevicePoint,
        now_ms: u64,
    ) -> ClickState {
        ClickState {
            button,
            last_click_ms: now_ms,
            last_position: position,
            current_count: if self.spec_is_double_click(button, position, now_ms) {
                if self.current_count < usize::MAX {
                    (self.current_count + 1) as usize
                } else {
                    usize::MAX
                }
            } else {
                1
            },
            ..self
        }
    }

    pub open spec fn spec_count(self) -> usize {
        self.current_count
    }

    pub open spec fn spec_metrics(self) -> DoubleClickMetrics {
        DoubleClickMetrics {
            width: self.double_click_spatial_tolerance_width,
            height: self.double_click_spatial_tolerance_height,
            interval_ms: self.double_click_interval_ms,
        }
    }

    /// A fresh classifier, with the metrics the caller read from the system
    /// and the clock reading at construction.
    pub fn new(metrics: DoubleClickMetrics, now_ms: u64) -> (state: ClickState)
        ensures
            state == (ClickState {
                button: MouseButton::Left,
                last_click_ms: now_ms,
                last_position: DevicePoint { x: 0, y: 0 },
                double_click_spatial_tolerance_width: metrics.width,
                double_click_spatial_tolerance_height: metrics.height,
                double_click_interval_ms: metrics.interval_ms,
                current_count: 0,
            }),
    {
        ClickState {
            button: MouseButton::Left,
            last_click_ms: now_ms,
            last_position: DevicePoint { x: 0, y: 0 },
            double_click_spatial_tolerance_width: metrics.width,
            double_click_spatial_tolerance_height: metrics.height,
            double_click_interval_ms: metrics.interval_ms,
            current_count: 0,
        }
    }

    /// Record one press and return the click count it belongs to.
    pub fn update(&mut self, button: MouseButton, new_position: DevicePoint, now_ms: u64) -> (count:
        usize)
        ensures
            *final(self) == old(self).spec_updated(button, new_position, now_ms),
            count == final(self).spec_count(),
            count >= 1,
    {
        if self.button == button && self.is_double_click(new_position, now_ms) {
            if self.current_count < usize::MAX {
                self.current_count = self.current_count + 1;
            }
        } else {
            self.current_count = 1;
        }
        self.last_click_ms = now_ms;
        self.last_position = new_position;
        self.button = button;

        self.current_count
    }

    /// React to a broadcast system-setting change: the identifiers for the
    /// double-click width, height and time each replace the matching
    /// tolerance with the freshly read metric; any other identifier is
    /// ignored.
    pub fn system_update(&mut self, wparam: usize, metrics: DoubleClickMetrics)
        ensures
            wparam == SETTING_DOUBLE_CLICK_WIDTH ==> *final(self) == (ClickState {
                double_click_spatial_tolerance_width: metrics.width,
                ..*old(self)
            }),
            wparam == SETTING_DOUBLE_CLICK_HEIGHT ==> *final(self) == (ClickState {
                double_click_spatial_tolerance_height: metrics.height,
                ..*old(self)
            }),
            wparam == SETTING_DOUBLE_CLICK_TIME ==> *final(self) == (ClickState {
                double_click_interval_ms: metrics.interval_ms,
                ..*old(self)
            }),
            wparam != SETTING_DOUBLE_CLICK_WIDTH && wparam != SETTING_DOUBLE_CLICK_HEIGHT && wparam
                != SETTING_DOUBLE_CLICK_TIME ==> *final(self) == *old(self),
    {
        if wparam == SETTING_DOUBLE_CLICK_WIDTH {
            self.double_click_spatial_tolerance_width = metrics.width;
        } else if wparam == SETTING_DOUBLE_CLICK_HEIGHT {
            self.double_click_spatial_tolerance_height = metrics.height;
        } else if wparam == SETTING_DOUBLE_CLICK_TIME {
            self.double_click_interval_ms = metrics.interval_ms;
        }
    }

    fn is_double_click(&self, new_position: DevicePoint, now_ms: u64) -> (matched: bool)
        ensures
            matched == (self.spec_elapsed_ms(now_ms) < self.double_click_interval_ms
                && Self::spec_abs(self.last_position.x - new_position.x)
                <= self.double_click_spatial_tolerance_width && Self::spec_abs(
                self.last_position.y - new_position.y,
            ) <= self.double_click_spatial_tolerance_height),
    {
        let elapsed: u64 = if now_ms >= self.last_click_ms {
            now_ms - self.last_click_ms
        } else {
            0
        };
        let dx: i64 = self.last_position.x as i64 - new_position.x as i64;
        let dy: i64 = self.last_position.y as i64 - new_position.y as i64;
        let adx: i64 = if dx < 0 {
            -dx
        } else {
            dx
        };
        let ady: i64 = if dy < 0 {
            -dy
        } else {
            dy
        };

        elapsed < self.double_click_interval_ms
            && adx <= self.double_click_spatial_tolerance_width as i64
            && ady <= self.double_click_spatial_tolerance_height as i64
    }
}

/// Pressing a different button than the previous press always starts a new
/// run: the count is one, whatever the position and time.
pub proof fn lemma_button_change_resets_count(
    state: ClickState,
    button: MouseButton,
    position: DevicePoint,
    now_ms: u64,
)
    requires
        state.button != button,
    ensures
        state.spec_updated(button, position, now_ms).spec_count() == 1,
{
}

/// A press of the same button within both tolerances increments the count by
/// exactly one (short of the top of `usize`).
pub proof fn lemma_tolerated_click_increments_count(
    state: ClickState,
    button: MouseButton,
    position: DevicePoint,
    now_ms: u64,
)
    requires
        state.button == button,
        state.spec_elapsed_ms(now_ms) < state.double_click_interval_ms,
        ClickState::spec_abs(state.last_position.x - position.x)
            <= state.double_click_spatial_tolerance_width,
        ClickState::spec_abs(state.last_position.y - position.y)
            <= state.double_click_spatial_tolerance_height,
        state.spec_count() < usize::MAX,
    ensures
        state.spec_updated(button, position, now_ms).spec_count() == state.spec_count() + 1,
{
}

/// Once more time than the temporal tolerance has passed since the last
/// click, the count resets to one even for an identical button and position.
pub proof fn lemma_elapsed_interval_resets_count(
    state: ClickState,
    button: MouseButton,
    position: DevicePoint,
    now_ms: u64,
)
    requires
        state.spec_elapsed_ms(now_ms) > state.double_click_interval_ms,
    ensures
        state.spec_updated(button, position, now_ms).spec_count() == 1,
{
}

} // verus!
