use window_shell::dragdrop::{
    drag_enter_plan, drag_leave_event, drag_over_plan, drop_plan, DragEnterData, DropEffect,
    FileDropEvent,
};
use window_shell::geometry::DevicePoint;

fn cursor() -> DevicePoint {
    DevicePoint { x: 40, y: 60 }
}

#[test]
fn enter_with_files_copies_and_announces_them() {
    let paths = vec!["C:\\a.txt".to_string(), "C:\\b.txt".to_string()];
    let (effect, event) = drag_enter_plan(DragEnterData::Files(paths.clone()), cursor());
    assert_eq!(effect, DropEffect::CopyDrop);
    assert_eq!(event, Some(FileDropEvent::Entered { position: cursor(), paths }));
}

#[test]
fn enter_without_file_list_refuses_the_drop() {
    let (effect, event) = drag_enter_plan(DragEnterData::NoFileList, cursor());
    assert_eq!(effect, DropEffect::NoDrop);
    assert_eq!(event, None);
}

#[test]
fn enter_with_unavailable_data_copies_but_stays_silent() {
    let (effect, event) = drag_enter_plan(DragEnterData::Unavailable, cursor());
    assert_eq!(effect, DropEffect::CopyDrop);
    assert_eq!(event, None);
}

#[test]
fn over_and_drop_report_the_cursor() {
    assert_eq!(
        drag_over_plan(cursor()),
        (DropEffect::CopyDrop, FileDropEvent::Pending { position: cursor() })
    );
    assert_eq!(
        drop_plan(cursor()),
        (DropEffect::CopyDrop, FileDropEvent::Submit { position: cursor() })
    );
}

#[test]
fn leave_exits_without_position() {
    assert_eq!(drag_leave_event(), FileDropEvent::Exited);
}
