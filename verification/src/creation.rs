//! The two-phase window-creation protocol.
//!
//! The native creation call does not return a handle until after it has
//! invoked the creation callback, yet the callback needs the full context
//! to build the owned state, and the state must know its own handle.  So a
//! context record travels through the native call's opaque parameter: the
//! callback builds the state from it and writes the construction `Result`
//! into the context's output slot, and the caller reads that slot *before*
//! looking at the native call's own result — a construction failure is the
//! root cause and is the error reported.

use vstd::prelude::*;
use vstd::pervasive::unreached;
use crate::click::DoubleClickMetrics;
use crate::registry::MessageRouter;
use crate::state::CreateParams;
use crate::state::CursorId;
use crate::state::DisplayInfo;
use crate::state::RendererId;
use crate::state::WindowAppearance;
use crate::state::WindowOpenState;
use crate::state::WindowOpenStatus;
use crate::state::WindowPlacement;
use crate::state::WindowsWindowState;
use crate::state::WS_MAXIMIZEBOX;
use crate::state::WS_MINIMIZEBOX;
use crate::state::WS_SYSMENU;
use crate::state::WS_THICKFRAME;
use crate::geometry::DeviceBounds;
use crate::geometry::DeviceSize;
use crate::geometry::WindowBorderOffset;
use crate::geometry::calculate_window_rect;
use crate::geometry::window_rect_fits;

verus! {

/// Why a window failed to open: the renderer could not be created while the
/// state was being constructed, or a native call failed, each with the
/// native error code.
#[derive(Clone, Copy, Debug, PartialEq, Eq, Structural)]
pub enum CreationError {
    Renderer(u32),
    NativeWindow(u32),
}

/// Extended style bit for a window kept out of the taskbar.
pub const WS_EX_TOOLWINDOW: u32 = 0x0000_0080;

/// Extended style bit for an ordinary application window.
pub const WS_EX_APPWINDOW: u32 = 0x0004_0000;

/// Extended style bit that lets the compositor draw the window directly.
pub const WS_EX_NOREDIRECTIONBITMAP: u32 = 0x0020_0000;

#[derive(Clone, Copy, Debug, PartialEq, Eq, Structural)]
pub enum WindowKind {
    Normal,
    PopUp,
}

/// The style pair handed to the native creation call: a popup becomes a
/// frameless tool window, anything else a framed, resizable application
/// window; unless direct composition is disabled, the window also opts out
/// of redirection bitmaps.
pub fn creation_styles(kind: WindowKind, disable_direct_composition: bool) -> (styles: (u32, u32))
    ensures
        styles.0 == ({
            let base: u32 = if kind is PopUp {
                WS_EX_TOOLWINDOW
            } else {
                WS_EX_APPWINDOW
            };
            if disable_direct_composition {
                base
            } else {
                base | WS_EX_NOREDIRECTIONBITMAP
            }
        }),
        styles.1 == (if kind is PopUp {
            0u32
        } else {
            WS_THICKFRAME | WS_SYSMENU | WS_MAXIMIZEBOX | WS_MINIMIZEBOX
        }),
{
    let dwexstyle: u32 = match kind {
        WindowKind::PopUp => WS_EX_TOOLWINDOW,
        WindowKind::Normal => WS_EX_APPWINDOW,
    };
    let dwstyle: u32 = match kind {
        WindowKind::PopUp => 0,
        WindowKind::Normal => WS_THICKFRAME | WS_SYSMENU | WS_MAXIMIZEBOX | WS_MINIMIZEBOX,
    };
    let dwexstyle = if disable_direct_composition {
        dwexstyle
    } else {
        dwexstyle | WS_EX_NOREDIRECTIONBITMAP
    };
    (dwexstyle, dwstyle)
}

/// Whether the title bar should be hidden: yes for a transparent titlebar,
/// and yes when no titlebar options were given at all.
pub fn hide_title_bar(titlebar_transparent: Option<bool>) -> (r: bool)
    ensures
        r == (match titlebar_transparent {
            Some(appears_transparent) => appears_transparent,
            None => true,
        }),
{
    match titlebar_transparent {
        Some(appears_transparent) => appears_transparent,
        None => true,
    }
}

/// The context record threaded through the native creation call's opaque
/// parameter: every input the creation callback needs to build the state,
/// plus the output slot the callback fills.
pub struct WindowCreateContext {
    pub inner: Option<Result<WindowsWindowState, CreationError>>,
    pub handle: u64,
    pub hide_title_bar: bool,
    pub display: DisplayInfo,
    pub is_movable: bool,
    pub min_size: Option<DeviceSize>,
    pub current_cursor: Option<CursorId>,
    pub validation_number: u64,
    pub appearance: WindowAppearance,
    pub disable_direct_composition: bool,
}

/// Phase two of the creation protocol, run when the "about to create"
/// message arrives: build the state from the now-available handle and the
/// context, register the handle (its weak reference upgradable) on
/// success, and write the construction result into the context's output
/// slot.  Native construction proceeds in either case; on failure nothing
/// is registered and the output slot carries the error.
pub fn on_nc_create(
    context: &mut WindowCreateContext,
    router: &mut MessageRouter,
    hwnd: u64,
    cs: CreateParams,
    dpi: u32,
    renderer: Result<RendererId, u32>,
    click_metrics: DoubleClickMetrics,
    now_ms: u64,
)
    requires
        dpi > 0,
        cs.cx >= 0,
        cs.cy >= 0,
        old(context).display.wf(),
        (old(context).min_size matches Some(s) ==> s.wf()),
        !old(router)@.contains_key(hwnd),
    ensures
        renderer matches Err(code) ==> {
            &&& final(context).inner == Some(
                Result::<WindowsWindowState, CreationError>::Err(CreationError::Renderer(code)),
            )
            &&& final(router)@ == old(router)@
        },
        renderer matches Ok(renderer_id) ==> {
            &&& final(context).inner matches Some(inner) && inner matches Ok(state) && state
                == WindowsWindowState::spec_new_state(
                hwnd,
                cs,
                old(context).current_cursor,
                old(context).display,
                old(context).min_size,
                old(context).appearance,
                dpi,
                renderer_id,
                click_metrics,
                now_ms,
            )
            &&& final(router)@ == old(router)@.insert(hwnd, true)
        },
        final(context).handle == old(context).handle,
        final(context).hide_title_bar == old(context).hide_title_bar,
        final(context).display == old(context).display,
        final(context).is_movable == old(context).is_movable,
        final(context).min_size == old(context).min_size,
        final(context).current_cursor == old(context).current_cursor,
        final(context).validation_number == old(context).validation_number,
        final(context).appearance == old(context).appearance,
        final(context).disable_direct_composition == old(context).disable_direct_composition,
{
    let result = WindowsWindowState::new(
        hwnd,
        cs,
        context.current_cursor,
        context.display,
        context.min_size,
        context.appearance,
        dpi,
        renderer,
        click_metrics,
        now_ms,
    );
    if result.is_ok() {
        router.register(hwnd);
    }
    context.inner = Some(result);
}

/// The creation result the caller reports, as a value: the output slot is
/// read first, so a construction error wins over whatever the native call
/// returned; only a construction that succeeded can surface a native
/// error.
pub open spec fn spec_creation_report(
    slot: Result<WindowsWindowState, CreationError>,
    native: Result<u64, u32>,
) -> Result<WindowsWindowState, CreationError> {
    match slot {
        Result::Err(e) => Result::Err(e),
        Result::Ok(state) => match native {
            Result::Err(code) => Result::Err(CreationError::NativeWindow(code)),
            Result::Ok(_) => Result::Ok(state),
        },
    }
}

/// After the native creation call returns: combine the context's output
/// slot with the native call's own result.  The slot must have been
/// filled — the callback runs before the native call returns.
pub fn finish_window_creation(
    slot: Option<Result<WindowsWindowState, CreationError>>,
    native: Result<u64, u32>,
) -> (report: Result<WindowsWindowState, CreationError>)
    requires
        slot is Some,
    ensures
        slot matches Some(filled) ==> report == spec_creation_report(filled, native),
{
    let filled = match slot {
        Some(filled) => filled,
        None => unreached(),
    };
    match filled {
        Err(e) => Err(e),
        Ok(state) => match native {
            Err(code) => Err(CreationError::NativeWindow(code)),
            Ok(_) => Ok(state),
        },
    }
}

/// If state construction failed, the reported error is the construction
/// error — never a native-call error, whatever the native call returned.
pub proof fn lemma_construction_error_reported_first(
    slot: Result<WindowsWindowState, CreationError>,
    native: Result<u64, u32>,
)
    requires
        slot is Err,
    ensures
        spec_creation_report(slot, native) == slot,
{
}

/// The bounds a new window is actually placed at: the requested bounds if
/// the display says they intersect it, else the display's default bounds.
pub open spec fn spec_chosen_bounds(
    bounds_on_display: bool,
    requested: DeviceBounds,
    display: DisplayInfo,
) -> DeviceBounds {
    if bounds_on_display {
        requested
    } else {
        display.default_bounds
    }
}

/// Recompute a freshly queried placement record for the requested logical
/// bounds: the record round-trips unchanged except for its normal
/// rectangle, which becomes the outer rectangle for the chosen client
/// bounds.  `bounds_on_display` is the display collaborator's answer
/// whether the requested bounds intersect it.
pub fn retrieve_window_placement(
    current: WindowPlacement,
    display: DisplayInfo,
    requested_bounds: DeviceBounds,
    border_offset: WindowBorderOffset,
    bounds_on_display: bool,
) -> (placement: WindowPlacement)
    requires
        requested_bounds.wf(),
        display.wf(),
        border_offset.wf(),
        window_rect_fits(
            spec_chosen_bounds(bounds_on_display, requested_bounds, display),
            border_offset,
        ),
    ensures
        placement.show_cmd == current.show_cmd,
        placement.rc_normal_position == crate::geometry::spec_window_rect(
            spec_chosen_bounds(bounds_on_display, requested_bounds, display),
            border_offset,
        ),
{
    let bounds = if bounds_on_display {
        requested_bounds
    } else {
        display.default_bounds
    };
    WindowPlacement {
        show_cmd: current.show_cmd,
        rc_normal_position: calculate_window_rect(bounds, border_offset),
    }
}

/// The last creation step: a window created visible gets its placement
/// applied at once (the caller issues the native call); a window created
/// hidden stashes it as the deferred windowed placement instead, to be
/// consumed at first show.
pub fn initial_placement_decision(
    state: &mut WindowsWindowState,
    placement: WindowPlacement,
    show: bool,
) -> (apply_now: Option<WindowPlacement>)
    ensures
        show ==> apply_now == Some(placement) && *final(state) == *old(state),
        !show ==> apply_now is None && *final(state) == (WindowsWindowState {
            initial_placement: Some(
                WindowOpenStatus { placement, state: WindowOpenState::Windowed },
            ),
            ..*old(state)
        }),
{
    if show {
        Some(placement)
    } else {
        state.initial_placement = Some(
            WindowOpenStatus { placement, state: WindowOpenState::Windowed },
        );
        None
    }
}

} // verus!
