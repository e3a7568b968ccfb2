//! Drag-drop decisions.
//!
//! The native OLE protocol calls arrive with a cursor position and, for the
//! enter call, whatever the caller could extract of a dragged file list.
//! The functions here turn each call into the drop effect reported back to
//! the native stack and the toolkit event to dispatch; the caller converts
//! the cursor to client coordinates, extracts the paths, and forwards every
//! call to the visual drag-image helper, none of which changes these
//! decisions.

use vstd::prelude::*;
use crate::geometry::DevicePoint;

verus! {

/// The drop effect reported back to the native drag-drop stack.
#[derive(Clone, Copy, Debug, PartialEq, Eq, Structural)]
pub enum DropEffect {
    /// The drag carries a file list this window would accept as a copy.
    CopyDrop,
    /// The drag carries no usable file list; nothing will be dropped here.
    NoDrop,
}

/// What the caller found in the dragged data object.
#[derive(Clone, Debug, PartialEq, Eq)]
pub enum DragEnterData {
    /// The data object offers no file-list format.
    NoFileList,
    /// A file list is offered but its data could not be fetched; the drag
    /// still shows as a copy, but no event carries it.
    Unavailable,
    /// The extracted paths, best-effort: entries that did not parse were
    /// dropped silently.
    Files(Vec<String>),
}

/// The toolkit-level file-drop event.
#[derive(Clone, Debug, PartialEq, Eq)]
pub enum FileDropEvent {
    Entered { position: DevicePoint, paths: Vec<String> },
    Pending { position: DevicePoint },
    Submit { position: DevicePoint },
    Exited,
}

/// Drag-enter: a present file list makes the drag a copy and announces the
/// files at the cursor; an offered-but-unavailable list is a copy with no
/// event; anything else signals that no drop will happen.
pub fn drag_enter_plan(data: DragEnterData, position: DevicePoint) -> (plan: (
    DropEffect,
    Option<FileDropEvent>,
))
    ensures
        data is NoFileList ==> plan == (DropEffect::NoDrop, Option::<FileDropEvent>::None),
        data is Unavailable ==> plan == (DropEffect::CopyDrop, Option::<FileDropEvent>::None),
        data matches DragEnterData::Files(paths) ==> plan == (
            DropEffect::CopyDrop,
            Some(FileDropEvent::Entered { position, paths }),
        ),
{
    match data {
        DragEnterData::NoFileList => (DropEffect::NoDrop, None),
        DragEnterData::Unavailable => (DropEffect::CopyDrop, None),
        DragEnterData::Files(paths) => (
            DropEffect::CopyDrop,
            Some(FileDropEvent::Entered { position, paths }),
        ),
    }
}

/// Drag-over: always a copy, announcing the pending drop at the cursor.
pub fn drag_over_plan(position: DevicePoint) -> (plan: (DropEffect, FileDropEvent))
    ensures
        plan == (DropEffect::CopyDrop, FileDropEvent::Pending { position }),
{
    (DropEffect::CopyDrop, FileDropEvent::Pending { position })
}

/// Drop: always a copy, submitting the files at the cursor.
pub fn drop_plan(position: DevicePoint) -> (plan: (DropEffect, FileDropEvent))
    ensures
        plan == (DropEffect::CopyDrop, FileDropEvent::Submit { position }),
{
    (DropEffect::CopyDrop, FileDropEvent::Submit { position })
}

/// Drag-leave: the drag left the window.
pub fn drag_leave_event() -> (event: FileDropEvent)
    ensures
        event == FileDropEvent::Exited,
{
    FileDropEvent::Exited
}

} // verus!
