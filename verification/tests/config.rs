use buttery_taskbar::config::{
    hotkey_registration, menu_command, warn_shortcut_conflict, Config, Followups,
    HotkeyRegistration, MenuAction, MenuCommand, CMD_OPEN_RELEASES, CMD_QUIT, CMD_SETTINGS,
    CMD_TOGGLE_AUTOHIDE, CMD_TOGGLE_ENABLED, CMD_TOGGLE_SCROLL, CMD_TOGGLE_STARTUP,
};
use buttery_taskbar::hotkey::HotkeyConfig;

#[test]
fn defaults_follow_system_autohide() {
    let c = Config::default_with_system_state(true);
    assert_eq!(c.version, 1);
    assert!(c.enabled);
    assert!(c.scroll_activation_enabled);
    assert_eq!(c.toggle_shortcut, HotkeyConfig::default_toggle());
    assert!(!c.auto_launch_enabled);
    assert!(c.autohide_when_disabled);
    assert!(!Config::default_with_system_state(false).autohide_when_disabled);
}

#[test]
fn loaded_settings_win_over_defaults() {
    let mut stored = Config::default_with_system_state(false);
    stored.enabled = false;
    assert_eq!(Config::loaded_or_default(Some(stored), true), stored);
    assert_eq!(Config::loaded_or_default(None, true), Config::default_with_system_state(true));
}

#[test]
fn toggle_enabled_twice_restores() {
    let start = Config::default_with_system_state(false);
    let mut c = start;
    let off = c.toggle_enabled();
    assert!(!c.enabled);
    assert_eq!(
        off,
        Followups {
            save_config: true,
            refresh_foreground: false,
            force_show: true,
            update_hooks: true,
            signal_refresh: true
        }
    );
    let on = c.toggle_enabled();
    assert!(on.refresh_foreground && !on.force_show);
    assert_eq!(c, start);
}

#[test]
fn menu_commands_map_to_actions() {
    let mut c = Config::default_with_system_state(false);
    assert!(matches!(c.handle_menu_command(CMD_TOGGLE_SCROLL), MenuAction::Apply(f) if f.update_hooks && !f.signal_refresh));
    assert!(!c.scroll_activation_enabled);
    assert!(matches!(c.handle_menu_command(CMD_TOGGLE_AUTOHIDE), MenuAction::Apply(f) if !f.update_hooks && f.signal_refresh));
    assert!(c.autohide_when_disabled);
    assert_eq!(c.handle_menu_command(CMD_TOGGLE_STARTUP), MenuAction::SetAutoLaunch(true));
    assert_eq!(c.handle_menu_command(CMD_SETTINGS), MenuAction::OpenSettings);
    assert_eq!(c.handle_menu_command(CMD_OPEN_RELEASES), MenuAction::OpenReleases);
    assert_eq!(c.handle_menu_command(CMD_QUIT), MenuAction::Quit);
    assert_eq!(c.handle_menu_command(0), MenuAction::Nothing);
    assert_eq!(c.handle_menu_command(1007), MenuAction::Nothing);
    assert!(matches!(c.handle_menu_command(CMD_TOGGLE_ENABLED), MenuAction::Apply(_)));
    assert!(!c.enabled);
}

#[test]
fn menu_ids_round_trip() {
    assert_eq!(menu_command(1001), Some(MenuCommand::ToggleEnabled));
    assert_eq!(menu_command(1002), Some(MenuCommand::Settings));
    assert_eq!(menu_command(1003), Some(MenuCommand::ToggleScroll));
    assert_eq!(menu_command(1004), Some(MenuCommand::ToggleAutohide));
    assert_eq!(menu_command(1005), Some(MenuCommand::ToggleStartup));
    assert_eq!(menu_command(1006), Some(MenuCommand::OpenReleases));
    assert_eq!(menu_command(1999), Some(MenuCommand::Quit));
    assert_eq!(menu_command(1000), None);
}

#[test]
fn auto_launch_result_is_recorded() {
    let mut c = Config::default_with_system_state(false);
    assert!(c.apply_auto_launch_result(Some(true)));
    assert!(c.auto_launch_enabled);
    assert!(!c.apply_auto_launch_result(None));
    assert!(c.auto_launch_enabled);
    assert!(c.apply_auto_launch_result(Some(false)));
    assert!(!c.auto_launch_enabled);
}

#[test]
fn shortcut_commit_and_registration() {
    let mut c = Config::default_with_system_state(false);
    let h = HotkeyConfig { win: false, ctrl: false, shift: true, alt: false, key: 0x42 };
    assert_eq!(c.commit_shortcut(h), HotkeyRegistration::Register { modifiers: 0x4004, key: 0x42 });
    assert_eq!(c.toggle_shortcut, h);
    assert_eq!(c.commit_shortcut(HotkeyConfig::default()), HotkeyRegistration::UnregisterOnly);
    assert!(c.toggle_shortcut.is_empty());
    assert_eq!(
        hotkey_registration(&HotkeyConfig::default_toggle()),
        HotkeyRegistration::Register { modifiers: 0x400A, key: 0x7A }
    );
}

#[test]
fn conflict_warning_only_for_taken_shortcut() {
    assert!(warn_shortcut_conflict(false, 1409));
    assert!(!warn_shortcut_conflict(false, 5));
    assert!(!warn_shortcut_conflict(true, 1409));
}
