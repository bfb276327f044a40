//! The literal Win32 values the library uses agree with the SDK bindings.

use buttery_taskbar::{dialog, geometry, keys, messages, taskbar, tray};
use windows_sys::Win32::UI::Input::KeyboardAndMouse as kbd;
use windows_sys::Win32::UI::Shell as shell;
use windows_sys::Win32::UI::WindowsAndMessaging as wm;

#[test]
fn virtual_keys_match_sdk() {
    let pairs = [
        (keys::VK_BACK, kbd::VK_BACK),
        (keys::VK_TAB, kbd::VK_TAB),
        (keys::VK_RETURN, kbd::VK_RETURN),
        (keys::VK_SHIFT, kbd::VK_SHIFT),
        (keys::VK_CONTROL, kbd::VK_CONTROL),
        (keys::VK_MENU, kbd::VK_MENU),
        (keys::VK_ESCAPE, kbd::VK_ESCAPE),
        (keys::VK_SPACE, kbd::VK_SPACE),
        (keys::VK_PRIOR, kbd::VK_PRIOR),
        (keys::VK_NEXT, kbd::VK_NEXT),
        (keys::VK_END, kbd::VK_END),
        (keys::VK_HOME, kbd::VK_HOME),
        (keys::VK_LEFT, kbd::VK_LEFT),
        (keys::VK_UP, kbd::VK_UP),
        (keys::VK_RIGHT, kbd::VK_RIGHT),
        (keys::VK_DOWN, kbd::VK_DOWN),
        (keys::VK_INSERT, kbd::VK_INSERT),
        (keys::VK_DELETE, kbd::VK_DELETE),
        (keys::VK_LWIN, kbd::VK_LWIN),
        (keys::VK_RWIN, kbd::VK_RWIN),
        (keys::VK_F1, kbd::VK_F1),
        (keys::VK_F11, kbd::VK_F11),
        (keys::VK_F24, kbd::VK_F24),
        (keys::VK_LSHIFT, kbd::VK_LSHIFT),
        (keys::VK_RSHIFT, kbd::VK_RSHIFT),
        (keys::VK_LCONTROL, kbd::VK_LCONTROL),
        (keys::VK_RCONTROL, kbd::VK_RCONTROL),
        (keys::VK_LMENU, kbd::VK_LMENU),
        (keys::VK_RMENU, kbd::VK_RMENU),
    ];
    for (ours, sdk) in pairs {
        assert_eq!(ours, sdk);
    }
}

#[test]
fn hotkey_flags_match_sdk() {
    assert_eq!(keys::MOD_ALT, kbd::MOD_ALT);
    assert_eq!(keys::MOD_CONTROL, kbd::MOD_CONTROL);
    assert_eq!(keys::MOD_SHIFT, kbd::MOD_SHIFT);
    assert_eq!(keys::MOD_WIN, kbd::MOD_WIN);
    assert_eq!(keys::MOD_NOREPEAT, kbd::MOD_NOREPEAT);
}

#[test]
fn messages_match_sdk() {
    assert_eq!(messages::WM_CREATE, wm::WM_CREATE);
    assert_eq!(messages::WM_DESTROY, wm::WM_DESTROY);
    assert_eq!(messages::WM_CONTEXTMENU, wm::WM_CONTEXTMENU);
    assert_eq!(messages::WM_KEYDOWN, wm::WM_KEYDOWN);
    assert_eq!(messages::WM_KEYUP, wm::WM_KEYUP);
    assert_eq!(messages::WM_SYSKEYDOWN, wm::WM_SYSKEYDOWN);
    assert_eq!(messages::WM_SYSKEYUP, wm::WM_SYSKEYUP);
    assert_eq!(messages::WM_MOUSEMOVE, wm::WM_MOUSEMOVE);
    assert_eq!(messages::WM_LBUTTONUP, wm::WM_LBUTTONUP);
    assert_eq!(messages::WM_RBUTTONDOWN, wm::WM_RBUTTONDOWN);
    assert_eq!(messages::WM_RBUTTONUP, wm::WM_RBUTTONUP);
    assert_eq!(messages::WM_MOUSEWHEEL, wm::WM_MOUSEWHEEL);
    assert_eq!(messages::WM_HOTKEY, wm::WM_HOTKEY);
    assert_eq!(messages::WM_APP, wm::WM_APP);
    assert_eq!(messages::TRAY_CALLBACK_MESSAGE, wm::WM_APP + 1);
    assert_eq!(messages::OPEN_SETTINGS_MESSAGE, wm::WM_APP + 2);
    assert_eq!(messages::NIN_SELECT, shell::NIN_SELECT);
    assert_eq!(messages::NIN_KEYSELECT, shell::NIN_SELECT | 1);
}

#[test]
fn menu_flags_match_sdk() {
    assert_eq!(tray::MF_STRING, wm::MF_STRING);
    assert_eq!(tray::MF_GRAYED, wm::MF_GRAYED);
    assert_eq!(tray::MF_CHECKED, wm::MF_CHECKED);
    assert_eq!(tray::MF_UNCHECKED, wm::MF_UNCHECKED);
    assert_eq!(tray::MF_SEPARATOR, wm::MF_SEPARATOR);
    assert_eq!(geometry::TPM_RIGHTBUTTON, wm::TPM_RIGHTBUTTON);
    assert_eq!(geometry::TPM_RIGHTALIGN, wm::TPM_RIGHTALIGN);
    assert_eq!(geometry::TPM_BOTTOMALIGN, wm::TPM_BOTTOMALIGN);
    assert_eq!(geometry::TPM_NONOTIFY, wm::TPM_NONOTIFY);
    assert_eq!(geometry::TPM_RETURNCMD, wm::TPM_RETURNCMD);
    assert_eq!(taskbar::ABS_AUTOHIDE, shell::ABS_AUTOHIDE as isize);
}

#[test]
fn dialog_styles_match_sdk() {
    assert_eq!(dialog::WS_CHILD, wm::WS_CHILD);
    assert_eq!(dialog::WS_VISIBLE, wm::WS_VISIBLE);
    assert_eq!(dialog::WS_CAPTION, wm::WS_CAPTION);
    assert_eq!(dialog::WS_SYSMENU, wm::WS_SYSMENU);
    assert_eq!(dialog::WS_TABSTOP, wm::WS_TABSTOP);
    assert_eq!(dialog::DS_SETFONT, wm::DS_SETFONT as u32);
    assert_eq!(dialog::DS_MODALFRAME, wm::DS_MODALFRAME as u32);
    assert_eq!(dialog::DS_CENTER, wm::DS_CENTER as u32);
    assert_eq!(dialog::DS_SHELLFONT, (wm::DS_SETFONT | 0x0008 | 0x0010) as u32);
}
