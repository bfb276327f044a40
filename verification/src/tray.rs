//! The tray menu: its entries, in order, with their flags and commands, and
//! the texts the tray icon and the shell show for the program.

use vstd::prelude::*;
use crate::config::{
    after_menu_command, command_of_id, Config, MenuAction, CMD_OPEN_RELEASES, CMD_QUIT, CMD_SETTINGS, CMD_TOGGLE_AUTOHIDE,
    CMD_TOGGLE_ENABLED, CMD_TOGGLE_SCROLL, CMD_TOGGLE_STARTUP,
};

verus! {

pub const MF_STRING: u32 = 0x0000;
pub const MF_GRAYED: u32 = 0x0001;
pub const MF_UNCHECKED: u32 = 0x0000;
pub const MF_CHECKED: u32 = 0x0008;
pub const MF_SEPARATOR: u32 = 0x0800;

/// One entry of the tray menu: its `AppendMenuW` flags, its command (zero
/// for entries that carry none) and its label (none for a separator).
pub struct MenuEntry {
    pub flags: u32,
    pub command: usize,
    pub label: Option<String>,
}

impl View for MenuEntry {
    type V = (u32, usize, Option<Seq<char>>);

    open spec fn view(&self) -> (u32, usize, Option<Seq<char>>) {
        (
            self.flags,
            self.command,
            match self.label {
                Some(s) => Some(s@),
                None => None,
            },
        )
    }
}

/// The flags of a check-box entry.
pub open spec fn check_flags(checked: bool) -> u32 {
    if checked {
        MF_CHECKED
    } else {
        MF_UNCHECKED
    }
}

/// The text of the grayed entry that shows the version.
pub open spec fn version_label(version: Seq<char>) -> Seq<char> {
    "buttery-taskbar_v"@ + version
}

/// The tray menu for the given settings: the four check boxes show the
/// settings they switch, then the releases link, the version and Quit.
pub open spec fn menu_model(c: Config, version: Seq<char>) -> Seq<(u32, usize, Option<Seq<char>>)> {
    seq![
        (check_flags(c.enabled), CMD_TOGGLE_ENABLED, Some("Enabled"@)),
        (MF_STRING, CMD_SETTINGS, Some("Settings..."@)),
        (check_flags(c.scroll_activation_enabled), CMD_TOGGLE_SCROLL, Some("Scroll to open Start"@)),
        (check_flags(c.autohide_when_disabled), CMD_TOGGLE_AUTOHIDE, Some("Keep auto-hide when disabled"@)),
        (check_flags(c.auto_launch_enabled), CMD_TOGGLE_STARTUP, Some("Start at log-in (non-admin)"@)),
        (MF_SEPARATOR, 0usize, None),
        (MF_STRING, CMD_OPEN_RELEASES, Some("Open releases page"@)),
        (MF_SEPARATOR, 0usize, None),
        ((MF_STRING + MF_GRAYED) as u32, 0usize, Some(version_label(version))),
        (MF_STRING, CMD_QUIT, Some("Quit"@)),
    ]
}

fn check_entry(command: usize, label: &str, checked: bool) -> (e: MenuEntry)
    ensures
        e@ == (check_flags(checked), command, Some(label@)),
{
    let flags = MF_STRING | if checked {
        MF_CHECKED
    } else {
        MF_UNCHECKED
    };
    assert(0u32 | 8u32 == 8u32 && 0u32 | 0u32 == 0u32) by (bit_vector);
    MenuEntry { flags, command, label: Some(String::from_str(label)) }
}

fn text_entry(command: usize, label: &str) -> (e: MenuEntry)
    ensures
        e@ == (MF_STRING, command, Some(label@)),
{
    MenuEntry { flags: MF_STRING, command, label: Some(String::from_str(label)) }
}

fn separator() -> (e: MenuEntry)
    ensures
        e@ == (MF_SEPARATOR, 0usize, None::<Seq<char>>),
{
    MenuEntry { flags: MF_SEPARATOR, command: 0, label: None }
}

/// The entries of the tray menu, top to bottom.
pub fn menu_entries(config: &Config, version: &str) -> (entries: Vec<MenuEntry>)
    ensures
        entries@.map_values(|e: MenuEntry| e@) == menu_model(*config, version@),
{
    let mut entries: Vec<MenuEntry> = Vec::new();
    entries.push(check_entry(CMD_TOGGLE_ENABLED, "Enabled", config.enabled));
    entries.push(text_entry(CMD_SETTINGS, "Settings..."));
    entries.push(
        check_entry(CMD_TOGGLE_SCROLL, "Scroll to open Start", config.scroll_activation_enabled),
    );
    entries.push(
        check_entry(
            CMD_TOGGLE_AUTOHIDE,
            "Keep auto-hide when disabled",
            config.autohide_when_disabled,
        ),
    );
    entries.push(
        check_entry(CMD_TOGGLE_STARTUP, "Start at log-in (non-admin)", config.auto_launch_enabled),
    );
    entries.push(separator());
    entries.push(text_entry(CMD_OPEN_RELEASES, "Open releases page"));
    entries.push(separator());
    let mut label = String::from_str("buttery-taskbar_v");
    label.append(version);
    assert(MF_STRING | MF_GRAYED == 1u32) by (bit_vector);
    entries.push(MenuEntry { flags: MF_STRING | MF_GRAYED, command: 0, label: Some(label) });
    entries.push(text_entry(CMD_QUIT, "Quit"));
    proof {
        assert(entries@.map_values(|e: MenuEntry| e@) =~= menu_model(*config, version@));
    }
    entries
}

/// Every entry that carries a command carries one the menu handler knows,
/// and the check boxes show the settings their commands switch.
pub proof fn lemma_menu_commands_known(c: Config, version: Seq<char>, i: int)
    requires
        0 <= i < menu_model(c, version).len(),
    ensures
        menu_model(c, version)[i].1 != 0 ==> command_of_id(menu_model(c, version)[i].1) is Some,
        (menu_model(c, version)[i].0 == MF_CHECKED) == (
        (i == 0 && c.enabled) || (i == 2 && c.scroll_activation_enabled) || (i == 3
            && c.autohide_when_disabled) || (i == 4 && c.auto_launch_enabled)),
{
}

/// Choosing one of the first three check boxes flips the check it shows the
/// next time the menu opens; choosing the log-in check box asks for the
/// opposite registration, and once the registry reports that, its check
/// flips too.
pub proof fn lemma_choosing_a_check_box_flips_it(c: Config, version: Seq<char>, i: int)
    requires
        0 <= i <= 4,
        i != 1,
    ensures
        ({
            let before = menu_model(c, version);
            let (next, action) = after_menu_command(c, before[i].1);
            if i == 4 {
                &&& action == MenuAction::SetAutoLaunch(!c.auto_launch_enabled)
                &&& menu_model(Config { auto_launch_enabled: !c.auto_launch_enabled, ..next }, version)[i].0
                    != before[i].0
            } else {
                menu_model(next, version)[i].0 != before[i].0
            }
        }),
{
}

} // verus!
