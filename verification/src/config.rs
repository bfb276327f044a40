//! The persisted settings and what the tray menu, the toggle shortcut and the
//! settings dialog do to them.

use vstd::prelude::*;
use crate::hotkey::{modifier_flags, toggle_default, HotkeyConfig};

verus! {

/// The settings kept in the configuration file.
#[derive(Clone, Copy, Debug, PartialEq, Eq, Structural)]
pub struct Config {
    pub version: u32,
    /// Whether the taskbar is being hidden at all.
    pub enabled: bool,
    /// Whether scrolling at the bottom screen edge opens Start.
    pub scroll_activation_enabled: bool,
    /// The global shortcut that toggles `enabled`.
    pub toggle_shortcut: HotkeyConfig,
    /// Whether the program is registered to start at log-in.
    pub auto_launch_enabled: bool,
    /// Whether Windows' own auto-hide stays on while `enabled` is off.
    pub autohide_when_disabled: bool,
}

/// The settings of a fresh installation. Auto-hide when disabled follows what
/// the system had when the program first ran.
pub open spec fn default_config(system_autohide: bool) -> Config {
    Config {
        version: 1,
        enabled: true,
        scroll_activation_enabled: true,
        toggle_shortcut: toggle_default(),
        auto_launch_enabled: false,
        autohide_when_disabled: system_autohide,
    }
}

/// The work that follows a change of the settings.
#[derive(Clone, Copy, Debug, PartialEq, Eq, Structural)]
pub struct Followups {
    /// Write the settings to the configuration file.
    pub save_config: bool,
    /// Recompute whether the foreground window needs the taskbar.
    pub refresh_foreground: bool,
    /// Mark the taskbar as needed, whatever the foreground window is.
    pub force_show: bool,
    /// Install or remove the keyboard and mouse hooks to match the settings.
    pub update_hooks: bool,
    /// Wake the worker that shows and hides the taskbar.
    pub signal_refresh: bool,
}

/// The entries of the tray menu that carry a command.
#[derive(Clone, Copy, Debug, PartialEq, Eq, Structural)]
pub enum MenuCommand {
    ToggleEnabled,
    Settings,
    ToggleScroll,
    ToggleAutohide,
    ToggleStartup,
    OpenReleases,
    Quit,
}

pub const CMD_TOGGLE_ENABLED: usize = 1001;
pub const CMD_SETTINGS: usize = 1002;
pub const CMD_TOGGLE_SCROLL: usize = 1003;
pub const CMD_TOGGLE_AUTOHIDE: usize = 1004;
pub const CMD_TOGGLE_STARTUP: usize = 1005;
pub const CMD_OPEN_RELEASES: usize = 1006;
pub const CMD_QUIT: usize = 1999;

/// The identifier a menu entry is created with.
pub open spec fn command_id_of(c: MenuCommand) -> usize {
    match c {
        MenuCommand::ToggleEnabled => CMD_TOGGLE_ENABLED,
        MenuCommand::Settings => CMD_SETTINGS,
        MenuCommand::ToggleScroll => CMD_TOGGLE_SCROLL,
        MenuCommand::ToggleAutohide => CMD_TOGGLE_AUTOHIDE,
        MenuCommand::ToggleStartup => CMD_TOGGLE_STARTUP,
        MenuCommand::OpenReleases => CMD_OPEN_RELEASES,
        MenuCommand::Quit => CMD_QUIT,
    }
}

/// The command a menu selection stands for, if any.
pub open spec fn command_of_id(id: usize) -> Option<MenuCommand> {
    if id == CMD_TOGGLE_ENABLED {
        Some(MenuCommand::ToggleEnabled)
    } else if id == CMD_SETTINGS {
        Some(MenuCommand::Settings)
    } else if id == CMD_TOGGLE_SCROLL {
        Some(MenuCommand::ToggleScroll)
    } else if id == CMD_TOGGLE_AUTOHIDE {
        Some(MenuCommand::ToggleAutohide)
    } else if id == CMD_TOGGLE_STARTUP {
        Some(MenuCommand::ToggleStartup)
    } else if id == CMD_OPEN_RELEASES {
        Some(MenuCommand::OpenReleases)
    } else if id == CMD_QUIT {
        Some(MenuCommand::Quit)
    } else {
        None
    }
}

/// What the program does after a menu selection, once the settings have been
/// updated.
#[derive(Clone, Copy, Debug, PartialEq, Eq, Structural)]
pub enum MenuAction {
    /// The settings changed; carry out the follow-up work.
    Apply(Followups),
    /// Open the settings dialog.
    OpenSettings,
    /// Change the log-in registration to the given value, then report back
    /// with `apply_auto_launch_result`.
    SetAutoLaunch(bool),
    /// Open the releases page in the browser.
    OpenReleases,
    /// Quit the program.
    Quit,
    /// The selection was not a known command.
    Nothing,
}

/// The follow-up work after `enabled` was switched: when it is switched on,
/// the foreground window decides again whether the taskbar is needed; when it
/// is switched off, the taskbar is simply shown.
pub open spec fn enabled_followups(now_enabled: bool) -> Followups {
    Followups {
        save_config: true,
        refresh_foreground: now_enabled,
        force_show: !now_enabled,
        update_hooks: true,
        signal_refresh: true,
    }
}

/// The settings after a menu command, and what follows.
pub open spec fn after_menu_command(c: Config, id: usize) -> (Config, MenuAction) {
    match command_of_id(id) {
        Some(MenuCommand::ToggleEnabled) => (
            Config { enabled: !c.enabled, ..c },
            MenuAction::Apply(enabled_followups(!c.enabled)),
        ),
        Some(MenuCommand::Settings) => (c, MenuAction::OpenSettings),
        Some(MenuCommand::ToggleScroll) => (
            Config { scroll_activation_enabled: !c.scroll_activation_enabled, ..c },
            MenuAction::Apply(
                Followups {
                    save_config: true,
                    refresh_foreground: false,
                    force_show: false,
                    update_hooks: true,
                    signal_refresh: false,
                },
            ),
        ),
        Some(MenuCommand::ToggleAutohide) => (
            Config { autohide_when_disabled: !c.autohide_when_disabled, ..c },
            MenuAction::Apply(
                Followups {
                    save_config: true,
                    refresh_foreground: false,
                    force_show: false,
                    update_hooks: false,
                    signal_refresh: true,
                },
            ),
        ),
        Some(MenuCommand::ToggleStartup) => (c, MenuAction::SetAutoLaunch(!c.auto_launch_enabled)),
        Some(MenuCommand::OpenReleases) => (c, MenuAction::OpenReleases),
        Some(MenuCommand::Quit) => (c, MenuAction::Quit),
        None => (c, MenuAction::Nothing),
    }
}

/// How the toggle shortcut is to be registered with the system.
#[derive(Clone, Copy, Debug, PartialEq, Eq, Structural)]
pub enum HotkeyRegistration {
    /// Drop any earlier registration and register these flags and key.
    Register { modifiers: u32, key: u32 },
    /// Drop any earlier registration and register nothing.
    UnregisterOnly,
}

/// A shortcut with no key is never registered.
pub open spec fn registration_of(h: HotkeyConfig) -> HotkeyRegistration {
    if h.key == 0 {
        HotkeyRegistration::UnregisterOnly
    } else {
        HotkeyRegistration::Register { modifiers: modifier_flags(h), key: h.key }
    }
}

/// The system error `RegisterHotKey` reports when another program holds the
/// shortcut.
pub const ERROR_HOTKEY_ALREADY_REGISTERED: u32 = 1409;

/// The registration of a shortcut.
pub fn hotkey_registration(h: &HotkeyConfig) -> (r: HotkeyRegistration)
    ensures
        r == registration_of(*h),
{
    if h.is_empty() {
        HotkeyRegistration::UnregisterOnly
    } else {
        HotkeyRegistration::Register { modifiers: h.modifiers(), key: h.key }
    }
}

/// Whether the user is told that the shortcut is taken: only when the
/// registration failed because another program holds it.
pub fn warn_shortcut_conflict(registered: bool, last_error: u32) -> (res: bool)
    ensures
        res == (!registered && last_error == ERROR_HOTKEY_ALREADY_REGISTERED),
{
    !registered && last_error == ERROR_HOTKEY_ALREADY_REGISTERED
}

/// The command behind a menu identifier.
pub fn menu_command(id: usize) -> (c: Option<MenuCommand>)
    ensures
        c == command_of_id(id),
{
    if id == CMD_TOGGLE_ENABLED {
        Some(MenuCommand::ToggleEnabled)
    } else if id == CMD_SETTINGS {
        Some(MenuCommand::Settings)
    } else if id == CMD_TOGGLE_SCROLL {
        Some(MenuCommand::ToggleScroll)
    } else if id == CMD_TOGGLE_AUTOHIDE {
        Some(MenuCommand::ToggleAutohide)
    } else if id == CMD_TOGGLE_STARTUP {
        Some(MenuCommand::ToggleStartup)
    } else if id == CMD_OPEN_RELEASES {
        Some(MenuCommand::OpenReleases)
    } else if id == CMD_QUIT {
        Some(MenuCommand::Quit)
    } else {
        None
    }
}

impl Config {
    pub fn default_with_system_state(system_autohide: bool) -> (c: Self)
        ensures
            c == default_config(system_autohide),
    {
        Config {
            version: 1,
            enabled: true,
            scroll_activation_enabled: true,
            toggle_shortcut: HotkeyConfig::default_toggle(),
            auto_launch_enabled: false,
            autohide_when_disabled: system_autohide,
        }
    }

    /// The settings read from the configuration file, or the defaults when
    /// the file was missing or could not be read.
    pub fn loaded_or_default(loaded: Option<Config>, system_autohide: bool) -> (c: Self)
        ensures
            c == match loaded {
                Some(l) => l,
                None => default_config(system_autohide),
            },
    {
        let mut config = Config::default_with_system_state(system_autohide);
        if let Some(l) = loaded {
            config = l;
        }
        config
    }

    /// Switches `enabled`, as the toggle shortcut and the menu entry do.
    pub fn toggle_enabled(&mut self) -> (f: Followups)
        ensures
            *final(self) == (Config { enabled: !old(self).enabled, ..*old(self) }),
            f == enabled_followups(final(self).enabled),
            f.save_config && f.update_hooks && f.signal_refresh,
            f.refresh_foreground == final(self).enabled,
            f.force_show == !final(self).enabled,
    {
        self.enabled = !self.enabled;
        Followups {
            save_config: true,
            refresh_foreground: self.enabled,
            force_show: !self.enabled,
            update_hooks: true,
            signal_refresh: true,
        }
    }

    /// Carries out a menu selection on the settings.
    pub fn handle_menu_command(&mut self, id: usize) -> (action: MenuAction)
        ensures
            (*final(self), action) == after_menu_command(*old(self), id),
    {
        match menu_command(id) {
            Some(MenuCommand::ToggleEnabled) => MenuAction::Apply(self.toggle_enabled()),
            Some(MenuCommand::Settings) => MenuAction::OpenSettings,
            Some(MenuCommand::ToggleScroll) => {
                self.scroll_activation_enabled = !self.scroll_activation_enabled;
                MenuAction::Apply(
                    Followups {
                        save_config: true,
                        refresh_foreground: false,
                        force_show: false,
                        update_hooks: true,
                        signal_refresh: false,
                    },
                )
            },
            Some(MenuCommand::ToggleAutohide) => {
                self.autohide_when_disabled = !self.autohide_when_disabled;
                MenuAction::Apply(
                    Followups {
                        save_config: true,
                        refresh_foreground: false,
                        force_show: false,
                        update_hooks: false,
                        signal_refresh: true,
                    },
                )
            },
            Some(MenuCommand::ToggleStartup) => MenuAction::SetAutoLaunch(!self.auto_launch_enabled),
            Some(MenuCommand::OpenReleases) => MenuAction::OpenReleases,
            Some(MenuCommand::Quit) => MenuAction::Quit,
            None => MenuAction::Nothing,
        }
    }

    /// Records what the log-in registration turned out to be after a change
    /// was asked for. `actual` is `None` when the registry could not be
    /// opened; the settings are then left alone. Returns whether the settings
    /// are to be saved.
    pub fn apply_auto_launch_result(&mut self, actual: Option<bool>) -> (save: bool)
        ensures
            save == actual is Some,
            *final(self) == match actual {
                Some(a) => Config { auto_launch_enabled: a, ..*old(self) },
                None => *old(self),
            },
    {
        match actual {
            Some(a) => {
                self.auto_launch_enabled = a;
                true
            },
            None => false,
        }
    }

    /// Stores the shortcut chosen in the settings dialog and says how to
    /// register it.
    pub fn commit_shortcut(&mut self, hotkey: HotkeyConfig) -> (r: HotkeyRegistration)
        ensures
            *final(self) == (Config { toggle_shortcut: hotkey, ..*old(self) }),
            r == registration_of(hotkey),
    {
        self.toggle_shortcut = hotkey;
        hotkey_registration(&hotkey)
    }
}

/// A menu identifier names the command it was made for.
pub proof fn lemma_command_ids_round_trip(c: MenuCommand)
    ensures
        command_of_id(command_id_of(c)) == Some(c),
{
}

/// Switching `enabled` twice gives back the settings one started with.
pub proof fn lemma_toggle_enabled_twice(c: Config)
    ensures
        after_menu_command(after_menu_command(c, CMD_TOGGLE_ENABLED).0, CMD_TOGGLE_ENABLED).0 == c,
{
}

/// Every toggle entry of the menu changes exactly its own setting and leaves
/// the shortcut alone; commands that open something change nothing.
pub proof fn lemma_menu_changes_one_setting(c: Config, id: usize)
    ensures
        ({
            let n = after_menu_command(c, id).0;
            &&& n.version == c.version
            &&& n.toggle_shortcut == c.toggle_shortcut
            &&& n.auto_launch_enabled == c.auto_launch_enabled
            &&& (n.enabled != c.enabled ==> id == CMD_TOGGLE_ENABLED)
            &&& (n.scroll_activation_enabled != c.scroll_activation_enabled ==> id
                == CMD_TOGGLE_SCROLL)
            &&& (n.autohide_when_disabled != c.autohide_when_disabled ==> id
                == CMD_TOGGLE_AUTOHIDE)
        }),
{
}

/// Every menu switch saves the settings. Switching `enabled`, in either
/// direction, updates the hooks (the keyboard hook follows it) and wakes the
/// taskbar worker; switching it on looks at the foreground window again,
/// switching it off shows the taskbar. Switching scrolling at the edge
/// updates the hooks (the mouse hook follows it); switching auto-hide when
/// disabled wakes the worker (the shell's auto-hide state follows it).
pub proof fn lemma_switch_followups(c: Config)
    ensures
        ({
            let (n, a) = after_menu_command(c, CMD_TOGGLE_ENABLED);
            &&& a matches MenuAction::Apply(f)
            &&& f.save_config && f.update_hooks && f.signal_refresh
            &&& f.refresh_foreground == n.enabled
            &&& f.force_show == !n.enabled
            &&& n.enabled != c.enabled
        }),
        ({
            let (n, a) = after_menu_command(c, CMD_TOGGLE_SCROLL);
            &&& a matches MenuAction::Apply(f)
            &&& f.save_config && f.update_hooks
            &&& n.scroll_activation_enabled != c.scroll_activation_enabled
        }),
        ({
            let (n, a) = after_menu_command(c, CMD_TOGGLE_AUTOHIDE);
            &&& a matches MenuAction::Apply(f)
            &&& f.save_config && f.signal_refresh
            &&& n.autohide_when_disabled != c.autohide_when_disabled
        }),
        enabled_followups(true).update_hooks && enabled_followups(false).update_hooks,
        enabled_followups(true).refresh_foreground && !enabled_followups(true).force_show,
        enabled_followups(false).force_show && !enabled_followups(false).refresh_foreground,
{
}

/// The shortcut is registered exactly when it has a key.
pub proof fn lemma_registered_iff_key(h: HotkeyConfig)
    ensures
        (registration_of(h) is UnregisterOnly) <==> h.key == 0,
{
}

} // verus!
