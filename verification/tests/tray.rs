use buttery_taskbar::config::Config;
use buttery_taskbar::tray::menu_entries;

#[test]
fn menu_lists_entries_in_order() {
    let mut c = Config::default_with_system_state(false);
    c.auto_launch_enabled = true;
    let entries = menu_entries(&c, "2.5.1");
    let seen: Vec<(u32, usize, Option<String>)> =
        entries.into_iter().map(|e| (e.flags, e.command, e.label)).collect();
    let expected: Vec<(u32, usize, Option<String>)> = vec![
        (8, 1001, Some("Enabled".to_string())),
        (0, 1002, Some("Settings...".to_string())),
        (8, 1003, Some("Scroll to open Start".to_string())),
        (0, 1004, Some("Keep auto-hide when disabled".to_string())),
        (8, 1005, Some("Start at log-in (non-admin)".to_string())),
        (0x800, 0, None),
        (0, 1006, Some("Open releases page".to_string())),
        (0x800, 0, None),
        (1, 0, Some("buttery-taskbar_v2.5.1".to_string())),
        (0, 1999, Some("Quit".to_string())),
    ];
    assert_eq!(seen, expected);
}
