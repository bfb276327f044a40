//! The names the program goes by, and the texts built from them for the tray
//! tooltip, the shell's relaunch data and the log-in registration.

use vstd::prelude::*;
use crate::text::{decimal_text, push_decimal, same_text};

verus! {

pub const APP_NAME: &'static str = "Buttery Taskbar";
pub const APP_USER_MODEL_ID: &'static str = "melody0709.ButteryTaskbar_Rust";
pub const RELEASES_URL: &'static str = "https://github.com/melody0709/ButteryTaskbar_Rust/releases";
pub const WINDOW_CLASS_NAME: &'static str = "BUTTERY_TASKBAR_RS";
pub const HOTKEY_EDIT_CLASS_NAME: &'static str = "Buttery.HotkeyEdit";
/// The registry key, under the current user, that lists programs started at
/// log-in.
pub const RUN_KEY_PATH: &'static str = "Software\\Microsoft\\Windows\\CurrentVersion\\Run";
/// The resource identifier of the program icon.
pub const APP_ICON_RESOURCE_ID: u16 = 32512;

/// A text between double quotes.
pub open spec fn quoted_text(s: Seq<char>) -> Seq<char> {
    seq!['"'] + s + seq!['"']
}

/// The tooltip of the tray icon: the program name and its version.
pub open spec fn tray_tip_text(version: Seq<char>) -> Seq<char> {
    APP_NAME@ + seq![' '] + version
}

/// The command the log-in registration holds: the quoted path of the
/// executable, or the quoted program name when that path is unknown.
pub open spec fn launch_command_text(exe_path: Option<Seq<char>>) -> Seq<char> {
    match exe_path {
        Some(p) => quoted_text(p),
        None => quoted_text(APP_NAME@),
    }
}

/// The shell's relaunch icon: the executable and the negated resource
/// identifier of the icon.
pub open spec fn relaunch_icon_text(exe_path: Seq<char>) -> Seq<char> {
    exe_path + seq![',', '-'] + decimal_text(APP_ICON_RESOURCE_ID as nat)
}

/// A text between double quotes.
pub fn quoted(s: &str) -> (q: String)
    ensures
        q@ == quoted_text(s@),
{
    let mut q = String::from_str("\"");
    q.append(s);
    q.append("\"");
    proof {
        reveal_strlit("\"");
        assert(q@ =~= quoted_text(s@));
    }
    q
}

/// The tooltip of the tray icon.
pub fn tray_tip(version: &str) -> (tip: String)
    ensures
        tip@ == tray_tip_text(version@),
{
    let mut tip = String::from_str(APP_NAME);
    tip.append(" ");
    tip.append(version);
    proof {
        reveal_strlit(" ");
        assert(tip@ =~= tray_tip_text(version@));
    }
    tip
}

/// The command to register for start at log-in.
pub fn quoted_exe_path(exe_path: Option<&str>) -> (cmd: String)
    ensures
        cmd@ == launch_command_text(
            match exe_path {
                Some(p) => Some(p@),
                None => None,
            },
        ),
{
    match exe_path {
        Some(p) => quoted(p),
        None => quoted(APP_NAME),
    }
}

/// The shell's relaunch command: the quoted executable path.
pub fn relaunch_command(exe_path: &str) -> (cmd: String)
    ensures
        cmd@ == quoted_text(exe_path@),
{
    quoted(exe_path)
}

/// The shell's relaunch icon resource.
pub fn relaunch_icon_resource(exe_path: &str) -> (res: String)
    ensures
        res@ == relaunch_icon_text(exe_path@),
{
    let mut res = String::from_str(exe_path);
    res.append(",-");
    push_decimal(&mut res, APP_ICON_RESOURCE_ID as u32);
    proof {
        reveal_strlit(",-");
        assert(res@ =~= relaunch_icon_text(exe_path@));
    }
    res
}

/// Whether the program counts as registered to start at log-in: the
/// registry value exists and holds exactly the expected command.
pub fn auto_launch_matches(registered: Option<&str>, expected: &str) -> (res: bool)
    ensures
        res == match registered {
            Some(v) => v@ == expected@,
            None => false,
        },
{
    match registered {
        Some(v) => same_text(v, expected),
        None => false,
    }
}

} // verus!
