use buttery_taskbar::dialog::{dialog_command, DialogCommand};
use buttery_taskbar::geometry::Point;
use buttery_taskbar::messages::{
    key_message, mouse_message, tray_callback, window_event, KeyMessage, MenuAnchor, MouseMessage,
    WindowEvent,
};

const TASKBAR_CREATED: u32 = 0xC0F1;

#[test]
fn window_messages() {
    assert_eq!(window_event(0x0001, 0, TASKBAR_CREATED), WindowEvent::Create);
    assert_eq!(window_event(0x0002, 0, TASKBAR_CREATED), WindowEvent::Destroy);
    assert_eq!(window_event(0x8001, 0, TASKBAR_CREATED), WindowEvent::TrayCallback);
    assert_eq!(window_event(0x8002, 0, TASKBAR_CREATED), WindowEvent::OpenSettings);
    assert_eq!(window_event(TASKBAR_CREATED, 0, TASKBAR_CREATED), WindowEvent::TaskbarCreated);
    assert_eq!(window_event(0x0312, 1, TASKBAR_CREATED), WindowEvent::ToggleShortcut);
    assert_eq!(window_event(0x0312, 2, TASKBAR_CREATED), WindowEvent::OtherShortcut);
    assert_eq!(window_event(0x000F, 0, TASKBAR_CREATED), WindowEvent::Default);
    // Fixed messages take precedence over the shell's registered one.
    assert_eq!(window_event(0x0001, 0, 0x0001), WindowEvent::Create);
}

#[test]
fn tray_callbacks() {
    assert_eq!(tray_callback(false, 0, 0x0205), Some(MenuAnchor::Cursor));
    assert_eq!(tray_callback(false, 0, 0x0200), None);
    assert_eq!(tray_callback(false, 0, 0x0001_0205), None);
    assert_eq!(
        tray_callback(true, 0x0400_0300, 0x0001_007B),
        Some(MenuAnchor::At(Point { x: 0x300, y: 0x400 }))
    );
    assert_eq!(tray_callback(true, 0, 0x0001_0400), Some(MenuAnchor::At(Point { x: 0, y: 0 })));
    assert_eq!(tray_callback(true, 0, 0x0001_0401), Some(MenuAnchor::At(Point { x: 0, y: 0 })));
    assert_eq!(tray_callback(true, 0, 0x0202), Some(MenuAnchor::At(Point { x: 0, y: 0 })));
    assert_eq!(tray_callback(true, 0, 0x0204), Some(MenuAnchor::At(Point { x: 0, y: 0 })));
    assert_eq!(tray_callback(true, 0, 0x0201), None);
}

#[test]
fn hook_messages() {
    assert_eq!(key_message(0x100), KeyMessage::Down);
    assert_eq!(key_message(0x104), KeyMessage::Down);
    assert_eq!(key_message(0x101), KeyMessage::Up);
    assert_eq!(key_message(0x105), KeyMessage::Up);
    assert_eq!(key_message(0x102), KeyMessage::Other);
    assert_eq!(mouse_message(0x200), MouseMessage::Move);
    assert_eq!(mouse_message(0x20A), MouseMessage::Wheel);
    assert_eq!(mouse_message(0x201), MouseMessage::Other);
}

#[test]
fn dialog_commands() {
    assert_eq!(dialog_command(102), DialogCommand::ClearShortcut);
    assert_eq!(dialog_command(0x0001_0001), DialogCommand::Accept);
    assert_eq!(dialog_command(2), DialogCommand::Cancel);
    assert_eq!(dialog_command(101), DialogCommand::Other);
}
