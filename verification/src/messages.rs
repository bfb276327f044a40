//! What the messages reaching the program's windows and hooks stand for.

use vstd::prelude::*;
use crate::geometry::{point_from_wparam, point_of_word, Point};
use crate::words::{loword, low_word};

verus! {

pub const WM_CREATE: u32 = 0x0001;
pub const WM_DESTROY: u32 = 0x0002;
pub const WM_CONTEXTMENU: u32 = 0x007B;
pub const WM_KEYDOWN: u32 = 0x0100;
pub const WM_KEYUP: u32 = 0x0101;
pub const WM_SYSKEYDOWN: u32 = 0x0104;
pub const WM_SYSKEYUP: u32 = 0x0105;
pub const WM_MOUSEMOVE: u32 = 0x0200;
pub const WM_LBUTTONUP: u32 = 0x0202;
pub const WM_RBUTTONDOWN: u32 = 0x0204;
pub const WM_RBUTTONUP: u32 = 0x0205;
pub const WM_MOUSEWHEEL: u32 = 0x020A;
pub const WM_HOTKEY: u32 = 0x0312;
pub const WM_APP: u32 = 0x8000;
/// The message the tray icon reports its events with.
pub const TRAY_CALLBACK_MESSAGE: u32 = 0x8001;
/// The message that asks the main window to open the settings dialog.
pub const OPEN_SETTINGS_MESSAGE: u32 = 0x8002;
/// The identifier the toggle shortcut is registered under.
pub const HOTKEY_ID_TOGGLE: usize = 1;
/// The tray icon was selected with the mouse.
pub const NIN_SELECT: u32 = 0x0400;
/// The tray icon was selected with the keyboard.
pub const NIN_KEYSELECT: u32 = 0x0401;

/// What a message to the main window calls for.
#[derive(Clone, Copy, Debug, PartialEq, Eq, Structural)]
pub enum WindowEvent {
    /// The window was created: add the tray icon, register the shortcut.
    Create,
    /// The window is going away: drop the shortcut, clean up, quit.
    Destroy,
    /// The tray icon reports an event.
    TrayCallback,
    /// Open the settings dialog.
    OpenSettings,
    /// The shell restarted: add the tray icon again.
    TaskbarCreated,
    /// The toggle shortcut was pressed.
    ToggleShortcut,
    /// Some other registered shortcut was pressed; nothing to do.
    OtherShortcut,
    /// Leave the message to the default window procedure.
    Default,
}

/// The event a message stands for. `taskbar_created` is the message number
/// the shell announces its restart with; the fixed messages are looked at
/// first.
pub open spec fn window_event_of(msg: u32, wparam: usize, taskbar_created: u32) -> WindowEvent {
    if msg == WM_CREATE {
        WindowEvent::Create
    } else if msg == WM_DESTROY {
        WindowEvent::Destroy
    } else if msg == TRAY_CALLBACK_MESSAGE {
        WindowEvent::TrayCallback
    } else if msg == OPEN_SETTINGS_MESSAGE {
        WindowEvent::OpenSettings
    } else if msg == taskbar_created {
        WindowEvent::TaskbarCreated
    } else if msg == WM_HOTKEY {
        if wparam == HOTKEY_ID_TOGGLE {
            WindowEvent::ToggleShortcut
        } else {
            WindowEvent::OtherShortcut
        }
    } else {
        WindowEvent::Default
    }
}

pub fn window_event(msg: u32, wparam: usize, taskbar_created: u32) -> (e: WindowEvent)
    ensures
        e == window_event_of(msg, wparam, taskbar_created),
{
    if msg == WM_CREATE {
        WindowEvent::Create
    } else if msg == WM_DESTROY {
        WindowEvent::Destroy
    } else if msg == TRAY_CALLBACK_MESSAGE {
        WindowEvent::TrayCallback
    } else if msg == OPEN_SETTINGS_MESSAGE {
        WindowEvent::OpenSettings
    } else if msg == taskbar_created {
        WindowEvent::TaskbarCreated
    } else if msg == WM_HOTKEY {
        if wparam == HOTKEY_ID_TOGGLE {
            WindowEvent::ToggleShortcut
        } else {
            WindowEvent::OtherShortcut
        }
    } else {
        WindowEvent::Default
    }
}

/// The tray event in a callback: with the version-4 protocol it is the low
/// half word of the second parameter, otherwise the whole of it.
pub open spec fn tray_event_of(uses_version_4: bool, lparam: isize) -> u32 {
    if uses_version_4 {
        low_word(lparam as u32)
    } else {
        lparam as u32
    }
}

/// Selecting the icon, asking for its context menu, or clicking it opens
/// the tray menu.
pub open spec fn opens_menu(event: u32) -> bool {
    event == NIN_SELECT || event == NIN_KEYSELECT || event == WM_CONTEXTMENU || event
        == WM_RBUTTONUP || event == WM_RBUTTONDOWN || event == WM_LBUTTONUP
}

/// Where the tray menu is to open.
#[derive(Clone, Copy, Debug, PartialEq, Eq, Structural)]
pub enum MenuAnchor {
    /// At the point the callback carries.
    At(Point),
    /// At the mouse pointer.
    Cursor,
}

/// What a tray callback calls for: `None` when it does not open the menu.
/// With the version-4 protocol the menu opens where the callback says,
/// otherwise at the mouse pointer.
pub open spec fn tray_callback_of(uses_version_4: bool, wparam: usize, lparam: isize) -> Option<MenuAnchor> {
    if opens_menu(tray_event_of(uses_version_4, lparam)) {
        if uses_version_4 {
            Some(MenuAnchor::At(point_of_word(wparam)))
        } else {
            Some(MenuAnchor::Cursor)
        }
    } else {
        None
    }
}

pub fn tray_callback(uses_version_4: bool, wparam: usize, lparam: isize) -> (a: Option<MenuAnchor>)
    ensures
        a == tray_callback_of(uses_version_4, wparam, lparam),
{
    let event = if uses_version_4 {
        loword(lparam as u32)
    } else {
        lparam as u32
    };
    if event == NIN_SELECT || event == NIN_KEYSELECT || event == WM_CONTEXTMENU || event
        == WM_RBUTTONUP || event == WM_RBUTTONDOWN || event == WM_LBUTTONUP {
        if uses_version_4 {
            Some(MenuAnchor::At(point_from_wparam(wparam)))
        } else {
            Some(MenuAnchor::Cursor)
        }
    } else {
        None
    }
}

/// What a low-level keyboard hook event is.
#[derive(Clone, Copy, Debug, PartialEq, Eq, Structural)]
pub enum KeyMessage {
    Down,
    Up,
    Other,
}

pub open spec fn key_message_of(wparam: usize) -> KeyMessage {
    let m = wparam as u32;
    if m == WM_KEYDOWN || m == WM_SYSKEYDOWN {
        KeyMessage::Down
    } else if m == WM_KEYUP || m == WM_SYSKEYUP {
        KeyMessage::Up
    } else {
        KeyMessage::Other
    }
}

pub fn key_message(wparam: usize) -> (k: KeyMessage)
    ensures
        k == key_message_of(wparam),
{
    let m = wparam as u32;
    if m == WM_KEYDOWN || m == WM_SYSKEYDOWN {
        KeyMessage::Down
    } else if m == WM_KEYUP || m == WM_SYSKEYUP {
        KeyMessage::Up
    } else {
        KeyMessage::Other
    }
}

/// What a low-level mouse hook event is.
#[derive(Clone, Copy, Debug, PartialEq, Eq, Structural)]
pub enum MouseMessage {
    Move,
    Wheel,
    Other,
}

pub open spec fn mouse_message_of(wparam: usize) -> MouseMessage {
    let m = wparam as u32;
    if m == WM_MOUSEMOVE {
        MouseMessage::Move
    } else if m == WM_MOUSEWHEEL {
        MouseMessage::Wheel
    } else {
        MouseMessage::Other
    }
}

pub fn mouse_message(wparam: usize) -> (k: MouseMessage)
    ensures
        k == mouse_message_of(wparam),
{
    let m = wparam as u32;
    if m == WM_MOUSEMOVE {
        MouseMessage::Move
    } else if m == WM_MOUSEWHEEL {
        MouseMessage::Wheel
    } else {
        MouseMessage::Other
    }
}

} // verus!
