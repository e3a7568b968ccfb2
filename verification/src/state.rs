//! The per-window mutable state record and its state machines.
//!
//! One value of [`WindowsWindowState`] holds everything the shell tracks for
//! a live native window: client geometry in device pixels, the DPI the
//! geometry is scaled by, the measured border offset, the click classifier,
//! the registered callback slots, and the two one-shot records that drive
//! the fullscreen toggle and the deferred first-show placement.  Methods
//! that in the end need a native call return the call's arguments as plain
//! data; the caller performs the call after the borrow of the state ends,
//! so no native callback can re-enter a live borrow.

use vstd::prelude::*;
use crate::click::ClickState;
use crate::creation::CreationError;
use crate::geometry::DeviceBounds;
use crate::geometry::DevicePoint;
use crate::geometry::DeviceSize;
use crate::geometry::NativeRect;
use crate::geometry::WindowBorderOffset;
use crate::geometry::calculate_client_rect;
use crate::geometry::client_rect_fits;

verus! {

/// Baseline DPI: a window on a monitor at this DPI has a scale factor of
/// one, so logical and device pixels coincide.
pub const USER_DEFAULT_SCREEN_DPI: u32 = 96;

/// Native show command that reports a maximized window in a placement
/// record.
pub const SW_SHOWMAXIMIZED: u32 = 3;

/// Native style bits for a resizable framed window.
pub const WS_THICKFRAME: u32 = 0x0004_0000;

pub const WS_SYSMENU: u32 = 0x0008_0000;

pub const WS_MAXIMIZEBOX: u32 = 0x0001_0000;

pub const WS_MINIMIZEBOX: u32 = 0x0002_0000;

pub const WS_CAPTION: u32 = 0x00C0_0000;

/// The frame decorations stripped from a window's style while it is
/// fullscreen.  The mask is fixed; windows created with other style
/// combinations (popups) keep whatever of these bits they never had.
pub const FULLSCREEN_STYLE_MASK: u32 = WS_THICKFRAME | WS_SYSMENU | WS_MAXIMIZEBOX
    | WS_MINIMIZEBOX | WS_CAPTION;

/// Opaque ticket for a renderer owned outside the verified core.
#[derive(Clone, Copy, Debug, PartialEq, Eq, Structural)]
pub struct RendererId(pub u64);

/// Opaque ticket for a registered callback closure held outside the
/// verified core.
#[derive(Clone, Copy, Debug, PartialEq, Eq, Structural)]
pub struct CallbackId(pub u64);

/// Opaque ticket for the platform input handler.
#[derive(Clone, Copy, Debug, PartialEq, Eq, Structural)]
pub struct InputHandlerId(pub u64);

/// Opaque ticket for a native cursor.
#[derive(Clone, Copy, Debug, PartialEq, Eq, Structural)]
pub struct CursorId(pub u64);

#[derive(Clone, Copy, Debug, PartialEq, Eq, Structural)]
pub enum WindowAppearance {
    Light,
    VibrantLight,
    Dark,
    VibrantDark,
}

#[derive(Clone, Copy, Debug, PartialEq, Eq, Structural)]
pub struct Modifiers {
    pub control: bool,
    pub alt: bool,
    pub shift: bool,
    pub platform: bool,
    pub function: bool,
}

#[derive(Clone, Copy, Debug, PartialEq, Eq, Structural)]
pub struct Capslock {
    pub on: bool,
}

/// The display the window lives on, reduced to what the shell reads of it:
/// the monitor's physical bounds and the default bounds used when a
/// requested rectangle misses the display.
#[derive(Clone, Copy, Debug, PartialEq, Eq, Structural)]
pub struct DisplayInfo {
    pub physical_bounds: DeviceBounds,
    pub default_bounds: DeviceBounds,
}

impl DisplayInfo {
    pub open spec fn wf(self) -> bool {
        self.physical_bounds.wf() && self.default_bounds.wf()
    }
}

/// A native placement record: the outer rectangle the window returns to
/// when neither maximized nor minimized, and the show command.
#[derive(Clone, Copy, Debug, PartialEq, Eq, Structural)]
pub struct WindowPlacement {
    pub show_cmd: u32,
    pub rc_normal_position: NativeRect,
}

/// A captured native style and outer rectangle, kept while the window is
/// fullscreen so that leaving fullscreen restores both in one update.
#[derive(Clone, Copy, Debug, PartialEq, Eq, Structural)]
pub struct StyleAndBounds {
    pub style: u32,
    pub x: i32,
    pub y: i32,
    pub cx: i32,
    pub cy: i32,
}

/// The state a hidden window should take when it is first shown.
#[derive(Clone, Copy, Debug, PartialEq, Eq, Structural)]
pub enum WindowOpenState {
    Maximized,
    Fullscreen,
    Windowed,
}

/// A deferred placement: captured when an operation arrives before the
/// window is visible, consumed exactly once at first show.
#[derive(Clone, Copy, Debug, PartialEq, Eq, Structural)]
pub struct WindowOpenStatus {
    pub placement: WindowPlacement,
    pub state: WindowOpenState,
}

/// What the caller must do to honour a consumed deferred placement: apply
/// the placement, then optionally maximize or enter fullscreen.
#[derive(Clone, Copy, Debug, PartialEq, Eq, Structural)]
pub struct PlacementCommands {
    pub placement: WindowPlacement,
    pub show_maximized: bool,
    pub enter_fullscreen: bool,
}

/// The size and position update that realises a resize request, handed to
/// the native move/size call.
#[derive(Clone, Copy, Debug, PartialEq, Eq, Structural)]
pub struct SetWindowPosPlan {
    pub x: i32,
    pub y: i32,
    pub cx: i32,
    pub cy: i32,
}

/// The canonical description of where a window stands: fullscreen with the
/// bounds to restore on exit, maximized, or plainly windowed.
#[derive(Clone, Copy, Debug, PartialEq, Eq, Structural)]
pub enum WindowBounds {
    Windowed(DeviceBounds),
    Maximized(DeviceBounds),
    Fullscreen(DeviceBounds),
}

/// The nine independently settable callback slots, one ticket each; an
/// empty slot means no-op.
#[derive(Clone, Copy, Debug, PartialEq, Eq, Structural, Default)]
pub struct Callbacks {
    pub request_frame: Option<CallbackId>,
    pub input: Option<CallbackId>,
    pub active_status_change: Option<CallbackId>,
    pub hovered_status_change: Option<CallbackId>,
    pub resize: Option<CallbackId>,
    pub moved: Option<CallbackId>,
    pub should_close: Option<CallbackId>,
    pub close: Option<CallbackId>,
    pub hit_test_window_control: Option<CallbackId>,
    pub appearance_changed: Option<CallbackId>,
}

/// Construction parameters the native side reports when the window is about
/// to be created: the requested origin and size in device pixels.
#[derive(Clone, Copy, Debug, PartialEq, Eq, Structural)]
pub struct CreateParams {
    pub x: i32,
    pub y: i32,
    pub cx: i32,
    pub cy: i32,
}

/// The per-window mutable record.
#[derive(Debug)]
pub struct WindowsWindowState {
    pub origin: DevicePoint,
    pub physical_size: DeviceSize,
    pub min_size: Option<DeviceSize>,
    pub fullscreen_restore_bounds: DeviceBounds,
    pub border_offset: WindowBorderOffset,
    pub appearance: WindowAppearance,
    pub dpi: u32,
    pub restore_from_minimized: Option<CallbackId>,
    pub callbacks: Callbacks,
    pub input_handler: Option<InputHandlerId>,
    pub pending_surrogate: Option<u16>,
    pub last_reported_modifiers: Option<Modifiers>,
    pub last_reported_capslock: Option<Capslock>,
    pub system_key_handled: bool,
    pub hovered: bool,
    pub renderer: RendererId,
    pub click_state: ClickState,
    pub current_cursor: Option<CursorId>,
    pub nc_button_pressed: Option<u32>,
    pub display: DisplayInfo,
    pub fullscreen: Option<StyleAndBounds>,
    pub initial_placement: Option<WindowOpenStatus>,
    pub hwnd: u64,
}

impl WindowsWindowState {
    /// Well-formedness: the scale-giving DPI is positive, sizes are
    /// non-negative, and the border offset is a measured (non-negative)
    /// delta.
    pub open spec fn wf(self) -> bool {
        &&& self.dpi > 0
        &&& self.physical_size.wf()
        &&& self.fullscreen_restore_bounds.wf()
        &&& self.border_offset.wf()
        &&& self.display.wf()
        &&& (self.min_size matches Some(s) ==> s.wf())
    }

    /// The state as constructed from the creation context and what the
    /// native side reported, as a value: the creation rectangle becomes
    /// both the current and the fullscreen-restore bounds, the border
    /// offset starts unmeasured, every slot starts empty, and the click
    /// classifier starts fresh with the given metrics.
    pub open spec fn spec_new_state(
        hwnd: u64,
        cs: CreateParams,
        current_cursor: Option<CursorId>,
        display: DisplayInfo,
        min_size: Option<DeviceSize>,
        appearance: WindowAppearance,
        dpi: u32,
        renderer_id: RendererId,
        click_metrics: crate::click::DoubleClickMetrics,
        now_ms: u64,
    ) -> WindowsWindowState {
        WindowsWindowState {
            origin: DevicePoint { x: cs.x, y: cs.y },
            physical_size: DeviceSize { width: cs.cx, height: cs.cy },
            min_size,
            fullscreen_restore_bounds: DeviceBounds {
                origin: DevicePoint { x: cs.x, y: cs.y },
                size: DeviceSize { width: cs.cx, height: cs.cy },
            },
            border_offset: WindowBorderOffset { width_offset: 0, height_offset: 0 },
            appearance,
            dpi,
            restore_from_minimized: None,
            callbacks: Callbacks {
                request_frame: None,
                input: None,
                active_status_change: None,
                hovered_status_change: None,
                resize: None,
                moved: None,
                should_close: None,
                close: None,
                hit_test_window_control: None,
                appearance_changed: None,
            },
            input_handler: None,
            pending_surrogate: None,
            last_reported_modifiers: None,
            last_reported_capslock: None,
            system_key_handled: false,
            hovered: false,
            renderer: renderer_id,
            click_state: ClickState {
                button: crate::click::MouseButton::Left,
                last_click_ms: now_ms,
                last_position: DevicePoint { x: 0, y: 0 },
                double_click_spatial_tolerance_width: click_metrics.width,
                double_click_spatial_tolerance_height: click_metrics.height,
                double_click_interval_ms: click_metrics.interval_ms,
                current_count: 0,
            },
            current_cursor,
            nc_button_pressed: None,
            display,
            fullscreen: None,
            initial_placement: None,
            hwnd,
        }
    }

    /// Build the state from the construction context and what the native
    /// side reported: the creation rectangle, the window's DPI, and the
    /// outcome of creating the renderer.  A renderer failure is the one
    /// construction failure and is propagated; nothing of the state
    /// survives it.
    pub fn new(
        hwnd: u64,
        cs: CreateParams,
        current_cursor: Option<CursorId>,
        display: DisplayInfo,
        min_size: Option<DeviceSize>,
        appearance: WindowAppearance,
        dpi: u32,
        renderer: Result<RendererId, u32>,
        click_metrics: crate::click::DoubleClickMetrics,
        now_ms: u64,
    ) -> (result: Result<WindowsWindowState, CreationError>)
        requires
            dpi > 0,
            cs.cx >= 0,
            cs.cy >= 0,
            display.wf(),
            (min_size matches Some(s) ==> s.wf()),
        ensures
            renderer matches Err(code) ==> result == Result::<
                WindowsWindowState,
                CreationError,
            >::Err(CreationError::Renderer(code)),
            renderer matches Ok(renderer_id) ==> (result matches Ok(state) && state
                == Self::spec_new_state(
                hwnd,
                cs,
                current_cursor,
                display,
                min_size,
                appearance,
                dpi,
                renderer_id,
                click_metrics,
                now_ms,
            ) && state.wf()),
    {
        let renderer_id = match renderer {
            Ok(id) => id,
            Err(code) => {
                return Err(CreationError::Renderer(code));
            },
        };
        let origin = DevicePoint { x: cs.x, y: cs.y };
        let physical_size = DeviceSize { width: cs.cx, height: cs.cy };
        Ok(
            WindowsWindowState {
                origin,
                physical_size,
                min_size,
                fullscreen_restore_bounds: DeviceBounds { origin, size: physical_size },
                border_offset: WindowBorderOffset { width_offset: 0, height_offset: 0 },
                appearance,
                dpi,
                restore_from_minimized: None,
                callbacks: Callbacks {
                    request_frame: None,
                    input: None,
                    active_status_change: None,
                    hovered_status_change: None,
                    resize: None,
                    moved: None,
                    should_close: None,
                    close: None,
                    hit_test_window_control: None,
                    appearance_changed: None,
                },
                input_handler: None,
                pending_surrogate: None,
                last_reported_modifiers: None,
                last_reported_capslock: None,
                system_key_handled: false,
                hovered: false,
                renderer: renderer_id,
                click_state: crate::click::ClickState::new(click_metrics, now_ms),
                current_cursor,
                nc_button_pressed: None,
                display,
                fullscreen: None,
                initial_placement: None,
                hwnd,
            },
        )
    }

    pub fn is_fullscreen(&self) -> (r: bool)
        ensures
            r == (self.fullscreen is Some),
    {
        self.fullscreen.is_some()
    }

    /// Maximized means: not fullscreen, and the native zoom flag (queried by
    /// the caller) is set.
    pub fn is_maximized(&self, native_zoomed: bool) -> (r: bool)
        ensures
            r == (!(self.fullscreen is Some) && native_zoomed),
    {
        !self.is_fullscreen() && native_zoomed
    }

    pub fn bounds(&self) -> (r: DeviceBounds)
        ensures
            r == (DeviceBounds { origin: self.origin, size: self.physical_size }),
    {
        DeviceBounds { origin: self.origin, size: self.physical_size }
    }

    /// The size of the drawable area.  Mouse hit-testing works on this,
    /// scaled by [`Self::dpi`]; a DPI change alone does not perturb it
    /// without a matching resize.
    pub fn content_size(&self) -> (r: DeviceSize)
        ensures
            r == self.physical_size,
    {
        self.physical_size
    }

    pub fn is_active(&self, active_hwnd: u64) -> (r: bool)
        ensures
            r == (self.hwnd == active_hwnd),
    {
        self.hwnd == active_hwnd
    }

    pub fn is_hovered(&self) -> (r: bool)
        ensures
            r == self.hovered,
    {
        self.hovered
    }

    /// The bounds used for saving, recovered from a freshly queried native
    /// placement record, and whether that record reports the window
    /// maximized.
    pub fn calculate_window_bounds(&self, placement: WindowPlacement) -> (r: (DeviceBounds, bool))
        requires
            placement.rc_normal_position.wf(),
            self.border_offset.wf(),
            client_rect_fits(placement.rc_normal_position, self.border_offset),
        ensures
            r.0 == crate::geometry::spec_client_bounds(
                placement.rc_normal_position,
                self.border_offset,
            ),
            r.0.left() == placement.rc_normal_position.left + self.border_offset.left_inset(),
            r.0.top() == placement.rc_normal_position.top + self.border_offset.top_inset(),
            r.0.size.width == placement.rc_normal_position.width()
                - self.border_offset.width_offset,
            r.0.size.height == placement.rc_normal_position.height()
                - self.border_offset.height_offset,
            r.0.wf(),
            r.1 == (placement.show_cmd == SW_SHOWMAXIMIZED),
    {
        (
            calculate_client_rect(placement.rc_normal_position, self.border_offset),
            placement.show_cmd == SW_SHOWMAXIMIZED,
        )
    }

    /// The canonical variant: fullscreen reports the bounds to restore to,
    /// a maximized placement reports the recovered normal bounds as
    /// maximized, anything else is windowed.
    pub fn window_bounds(&self, placement: WindowPlacement) -> (r: WindowBounds)
        requires
            placement.rc_normal_position.wf(),
            self.border_offset.wf(),
            client_rect_fits(placement.rc_normal_position, self.border_offset),
        ensures
            self.fullscreen is Some ==> r == WindowBounds::Fullscreen(
                self.fullscreen_restore_bounds,
            ),
            !(self.fullscreen is Some) && placement.show_cmd == SW_SHOWMAXIMIZED ==> r
                == WindowBounds::Maximized(
                crate::geometry::spec_client_bounds(
                    placement.rc_normal_position,
                    self.border_offset,
                ),
            ),
            !(self.fullscreen is Some) && placement.show_cmd != SW_SHOWMAXIMIZED ==> r
                == WindowBounds::Windowed(
                crate::geometry::spec_client_bounds(
                    placement.rc_normal_position,
                    self.border_offset,
                ),
            ),
    {
        let (bounds, maximized) = self.calculate_window_bounds(placement);
        if self.is_fullscreen() {
            WindowBounds::Fullscreen(self.fullscreen_restore_bounds)
        } else if maximized {
            WindowBounds::Maximized(bounds)
        } else {
            WindowBounds::Windowed(bounds)
        }
    }

    /// Toggle fullscreen.  With a restore record present, pop it: the
    /// result is the exact style and rectangle captured on entry.  Without
    /// one, capture the current style and outer rectangle (queried by the
    /// caller) as the restore record, remember the current client bounds,
    /// and return the frameless style together with the monitor's full
    /// physical bounds.  The caller issues the native style and position
    /// writes after this borrow ends.
    pub fn toggle_fullscreen(
        &mut self,
        current_style: u32,
        window_rect: NativeRect,
        placement: WindowPlacement,
    ) -> (apply: StyleAndBounds)
        requires
            window_rect.wf(),
            window_rect.width() <= i32::MAX,
            window_rect.height() <= i32::MAX,
            placement.rc_normal_position.wf(),
            old(self).border_offset.wf(),
            client_rect_fits(placement.rc_normal_position, old(self).border_offset),
        ensures
            old(self).fullscreen matches Some(restore) ==> {
                &&& apply == restore
                &&& *final(self) == (WindowsWindowState { fullscreen: None, ..*old(self) })
            },
            old(self).fullscreen is None ==> {
                &&& apply == (StyleAndBounds {
                    style: current_style & !FULLSCREEN_STYLE_MASK,
                    x: old(self).display.physical_bounds.origin.x,
                    y: old(self).display.physical_bounds.origin.y,
                    cx: old(self).display.physical_bounds.size.width,
                    cy: old(self).display.physical_bounds.size.height,
                })
                &&& final(self).fullscreen matches Some(captured) && captured == (StyleAndBounds {
                    style: current_style,
                    x: window_rect.left,
                    y: window_rect.top,
                    cx: (window_rect.right - window_rect.left) as i32,
                    cy: (window_rect.bottom - window_rect.top) as i32,
                })
                &&& final(self).fullscreen_restore_bounds == crate::geometry::spec_client_bounds(
                    placement.rc_normal_position,
                    old(self).border_offset,
                )
                &&& *final(self) == (WindowsWindowState {
                    fullscreen: final(self).fullscreen,
                    fullscreen_restore_bounds: final(self).fullscreen_restore_bounds,
                    ..*old(self)
                })
            },
    {
        match self.fullscreen.take() {
            Some(restore) => restore,
            None => {
                let (window_bounds, _) = self.calculate_window_bounds(placement);
                self.fullscreen_restore_bounds = window_bounds;
                self.fullscreen = Some(
                    StyleAndBounds {
                        style: current_style,
                        x: window_rect.left,
                        y: window_rect.top,
                        cx: window_rect.right - window_rect.left,
                        cy: window_rect.bottom - window_rect.top,
                    },
                );
                StyleAndBounds {
                    style: current_style & !FULLSCREEN_STYLE_MASK,
                    x: self.display.physical_bounds.origin.x,
                    y: self.display.physical_bounds.origin.y,
                    cx: self.display.physical_bounds.size.width,
                    cy: self.display.physical_bounds.size.height,
                }
            },
        }
    }

    /// Consume the deferred placement, if any: a one-shot.  The commands say
    /// what to do for the recorded intent — apply the placement, then
    /// maximize for a deferred maximize, or run the fullscreen toggle for a
    /// deferred fullscreen.  With nothing deferred there is nothing to do.
    pub fn set_window_placement(&mut self) -> (r: Option<PlacementCommands>)
        ensures
            old(self).initial_placement is None ==> {
                &&& r is None
                &&& *final(self) == *old(self)
            },
            old(self).initial_placement matches Some(status) ==> {
                &&& *final(self) == (WindowsWindowState { initial_placement: None, ..*old(self) })
                &&& r matches Some(commands) && commands == (PlacementCommands {
                    placement: status.placement,
                    show_maximized: status.state is Maximized,
                    enter_fullscreen: status.state is Fullscreen,
                })
            },
    {
        match self.initial_placement.take() {
            None => None,
            Some(status) => Some(
                PlacementCommands {
                    placement: status.placement,
                    show_maximized: matches!(status.state, WindowOpenState::Maximized),
                    enter_fullscreen: matches!(status.state, WindowOpenState::Fullscreen),
                },
            ),
        }
    }

    /// A maximize request.  On a visible window the caller issues the
    /// asynchronous native maximize (the result says so); on a window not
    /// yet shown the deferred placement's intent is overwritten instead.
    pub fn zoom(&mut self, visible: bool) -> (show_maximized: bool)
        ensures
            visible ==> show_maximized && *final(self) == *old(self),
            !visible ==> !show_maximized,
            !visible && old(self).initial_placement is None ==> *final(self) == *old(self),
            !visible ==> (old(self).initial_placement matches Some(status) ==> *final(self)
                == (WindowsWindowState {
                initial_placement: Some(
                    WindowOpenStatus { state: WindowOpenState::Maximized, placement: status.placement },
                ),
                ..*old(self)
            })),
    {
        if visible {
            true
        } else {
            if let Some(status) = &mut self.initial_placement {
                status.state = WindowOpenState::Maximized;
            }
            false
        }
    }

    /// A fullscreen request, with the same visibility split as [`Self::zoom`]:
    /// the result says whether the caller should run the toggle now.
    pub fn request_fullscreen(&mut self, visible: bool) -> (toggle_now: bool)
        ensures
            visible ==> toggle_now && *final(self) == *old(self),
            !visible ==> !toggle_now,
            !visible && old(self).initial_placement is None ==> *final(self) == *old(self),
            !visible ==> (old(self).initial_placement matches Some(status) ==> *final(self)
                == (WindowsWindowState {
                initial_placement: Some(
                    WindowOpenStatus { state: WindowOpenState::Fullscreen, placement: status.placement },
                ),
                ..*old(self)
            })),
    {
        if visible {
            true
        } else {
            if let Some(status) = &mut self.initial_placement {
                status.state = WindowOpenState::Fullscreen;
            }
            false
        }
    }

    /// The native move/size arguments realising a resize to `size`: the
    /// window keeps its origin, and each dimension grows by the border
    /// offset so that the client area comes out at exactly `size`.
    pub fn resize_plan(&self, size: DeviceSize) -> (plan: SetWindowPosPlan)
        requires
            size.wf(),
            self.border_offset.wf(),
            size.width + self.border_offset.width_offset <= i32::MAX,
            size.height + self.border_offset.height_offset <= i32::MAX,
        ensures
            plan.x == self.origin.x,
            plan.y == self.origin.y,
            plan.cx == size.width + self.border_offset.width_offset,
            plan.cy == size.height + self.border_offset.height_offset,
    {
        SetWindowPosPlan {
            x: self.origin.x,
            y: self.origin.y,
            cx: size.width + self.border_offset.width_offset,
            cy: size.height + self.border_offset.height_offset,
        }
    }

    pub fn set_input_handler(&mut self, input_handler: InputHandlerId)
        ensures
            *final(self) == (WindowsWindowState {
                input_handler: Some(input_handler),
                ..*old(self)
            }),
    {
        self.input_handler = Some(input_handler);
    }

    pub fn take_input_handler(&mut self) -> (r: Option<InputHandlerId>)
        ensures
            r == old(self).input_handler,
            *final(self) == (WindowsWindowState { input_handler: None, ..*old(self) }),
    {
        self.input_handler.take()
    }

    /// Take the input callback out of its slot for dispatch, leaving the
    /// slot empty so the callback may re-borrow the state.
    pub fn take_input_callback(&mut self) -> (r: Option<CallbackId>)
        ensures
            r == old(self).callbacks.input,
            *final(self) == (WindowsWindowState {
                callbacks: Callbacks { input: None, ..old(self).callbacks },
                ..*old(self)
            }),
    {
        let r = self.callbacks.input;
        self.callbacks.input = None;
        r
    }

    /// Put a dispatched input callback back.  The put-back overwrites the
    /// slot unconditionally: a handler the callback itself registered
    /// during dispatch is lost.
    pub fn restore_input_callback(&mut self, callback: CallbackId)
        ensures
            *final(self) == (WindowsWindowState {
                callbacks: Callbacks { input: Some(callback), ..old(self).callbacks },
                ..*old(self)
            }),
    {
        self.callbacks.input = Some(callback);
    }

    pub fn on_request_frame(&mut self, callback: CallbackId)
        ensures
            *final(self) == (WindowsWindowState {
                callbacks: Callbacks { request_frame: Some(callback), ..old(self).callbacks },
                ..*old(self)
            }),
    {
        self.callbacks.request_frame = Some(callback);
    }

    pub fn on_input(&mut self, callback: CallbackId)
        ensures
            *final(self) == (WindowsWindowState {
                callbacks: Callbacks { input: Some(callback), ..old(self).callbacks },
                ..*old(self)
            }),
    {
        self.callbacks.input = Some(callback);
    }

    pub fn on_active_status_change(&mut self, callback: CallbackId)
        ensures
            *final(self) == (WindowsWindowState {
                callbacks: Callbacks {
                    active_status_change: Some(callback),
                    ..old(self).callbacks
                },
                ..*old(self)
            }),
    {
        self.callbacks.active_status_change = Some(callback);
    }

    pub fn on_hover_status_change(&mut self, callback: CallbackId)
        ensures
            *final(self) == (WindowsWindowState {
                callbacks: Callbacks {
                    hovered_status_change: Some(callback),
                    ..old(self).callbacks
                },
                ..*old(self)
            }),
    {
        self.callbacks.hovered_status_change = Some(callback);
    }

    pub fn on_resize(&mut self, callback: CallbackId)
        ensures
            *final(self) == (WindowsWindowState {
                callbacks: Callbacks { resize: Some(callback), ..old(self).callbacks },
                ..*old(self)
            }),
    {
        self.callbacks.resize = Some(callback);
    }

    pub fn on_moved(&mut self, callback: CallbackId)
        ensures
            *final(self) == (WindowsWindowState {
                callbacks: Callbacks { moved: Some(callback), ..old(self).callbacks },
                ..*old(self)
            }),
    {
        self.callbacks.moved = Some(callback);
    }

    pub fn on_should_close(&mut self, callback: CallbackId)
        ensures
            *final(self) == (WindowsWindowState {
                callbacks: Callbacks { should_close: Some(callback), ..old(self).callbacks },
                ..*old(self)
            }),
    {
        self.callbacks.should_close = Some(callback);
    }

    pub fn on_close(&mut self, callback: CallbackId)
        ensures
            *final(self) == (WindowsWindowState {
                callbacks: Callbacks { close: Some(callback), ..old(self).callbacks },
                ..*old(self)
            }),
    {
        self.callbacks.close = Some(callback);
    }

    pub fn on_hit_test_window_control(&mut self, callback: CallbackId)
        ensures
            *final(self) == (WindowsWindowState {
                callbacks: Callbacks {
                    hit_test_window_control: Some(callback),
                    ..old(self).callbacks
                },
                ..*old(self)
            }),
    {
        self.callbacks.hit_test_window_control = Some(callback);
    }

    pub fn on_appearance_changed(&mut self, callback: CallbackId)
        ensures
            *final(self) == (WindowsWindowState {
                callbacks: Callbacks { appearance_changed: Some(callback), ..old(self).callbacks },
                ..*old(self)
            }),
    {
        self.callbacks.appearance_changed = Some(callback);
    }
}

} // verus!
