use buttery_taskbar::identity::{
    auto_launch_matches, quoted, quoted_exe_path, relaunch_command, relaunch_icon_resource,
    tray_tip,
};
use buttery_taskbar::text::same_text;
use buttery_taskbar::wide::{fill_wide_buffer, to_wide};

#[test]
fn wide_text_ends_in_zero() {
    assert_eq!(to_wide(""), vec![0u16]);
    assert_eq!(to_wide("Ab"), vec![0x41, 0x62, 0]);
    assert_eq!(to_wide("é€"), vec![0xE9, 0x20AC, 0]);
    assert_eq!(to_wide("😀"), vec![0xD83D, 0xDE00, 0]);
    let s = "mixed 😀 text ü";
    let mut expected: Vec<u16> = s.encode_utf16().collect();
    expected.push(0);
    assert_eq!(to_wide(s), expected);
}

#[test]
fn wide_buffer_is_cut_and_terminated() {
    let mut buf = [7u16; 5];
    fill_wide_buffer(&mut buf, "ab");
    assert_eq!(buf, [0x61, 0x62, 0, 7, 7]);
    let mut buf = [7u16; 4];
    fill_wide_buffer(&mut buf, "abcdef");
    assert_eq!(buf, [0x61, 0x62, 0x63, 0]);
    let mut buf = [7u16; 1];
    fill_wide_buffer(&mut buf, "abc");
    assert_eq!(buf, [0]);
    let mut buf = [7u16; 128];
    fill_wide_buffer(&mut buf, "Buttery Taskbar 2.5.1");
    assert_eq!(&buf[..22], &to_wide("Buttery Taskbar 2.5.1")[..]);
    assert_eq!(buf[22], 7);
}

#[test]
fn program_texts() {
    assert_eq!(quoted("C:\\x.exe"), "\"C:\\x.exe\"");
    assert_eq!(quoted_exe_path(Some("C:\\a b\\t.exe")), "\"C:\\a b\\t.exe\"");
    assert_eq!(quoted_exe_path(None), "\"Buttery Taskbar\"");
    assert_eq!(relaunch_command("C:\\t.exe"), "\"C:\\t.exe\"");
    assert_eq!(relaunch_icon_resource("C:\\t.exe"), "C:\\t.exe,-32512");
    assert_eq!(tray_tip("2.5.1"), "Buttery Taskbar 2.5.1");
}

#[test]
fn registration_matching() {
    assert!(auto_launch_matches(Some("\"C:\\t.exe\""), "\"C:\\t.exe\""));
    assert!(!auto_launch_matches(Some("C:\\t.exe"), "\"C:\\t.exe\""));
    assert!(!auto_launch_matches(None, "\"C:\\t.exe\""));
    assert!(same_text("", ""));
    assert!(!same_text("a", "ab"));
}
