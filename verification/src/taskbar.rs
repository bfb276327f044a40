//! When the taskbar is to be visible. The state here is what the hooks and
//! the tray menu learn about the user; the decisions are what the program
//! does about it: which hooks run, how the shell's auto-hide is set, and how
//! the worker that shows and hides the taskbar windows goes on.

use vstd::prelude::*;
use crate::geometry::{at_bottom_edge, at_bottom_edge_of, ScreenRect};
use crate::keys::{is_win_key, VK_LWIN, VK_RWIN};
use crate::text::same_text;

verus! {

/// How long the taskbar stays up after the Windows key is let go, in
/// milliseconds.
pub const WIN_KEY_LINGER_MS: u64 = 400;

/// What is known about the user and the shell that bears on the taskbar.
#[derive(Clone, Copy, Debug, PartialEq, Eq, Structural)]
pub struct TaskbarFlags {
    /// The tray menu is open.
    pub menu_active: bool,
    /// The program is shutting down.
    pub is_finalizing: bool,
    /// The foreground window, or a touch of the bottom edge, calls for the
    /// taskbar.
    pub should_show_due_to_focus: bool,
    /// The tick count (ms) before which the taskbar stays up after the
    /// Windows key was let go.
    pub should_stay_visible_before: u64,
    /// A Windows key is held.
    pub is_win_key_down: bool,
    /// A press of the Windows key is to be sent, to open Start.
    pub win_key_press_requested: bool,
}

/// The taskbar is shown while the tray menu is open, while the foreground
/// window needs it, while a Windows key is held, and for a short while after
/// the Windows key was let go.
pub open spec fn taskbar_wanted(f: TaskbarFlags, now: u64) -> bool {
    f.menu_active || f.should_show_due_to_focus || f.is_win_key_down || now
        < f.should_stay_visible_before
}

/// The window classes of shell surfaces that need the taskbar: Start and
/// search, the taskbars themselves, and the tray overflow.
pub open spec fn is_shell_surface(class_name: Seq<char>) -> bool {
    ||| class_name == "Windows.UI.Core.CoreWindow"@
    ||| class_name == "Shell_TrayWnd"@
    ||| class_name == "Shell_SecondaryTrayWnd"@
    ||| class_name == "TopLevelWindowForOverflowXamlIsland"@
    ||| class_name == "XamlExplorerHostIslandWindow"@
    ||| class_name == "NotifyIconOverflowWindow"@
}

/// Whether the keyboard and the mouse hook are to run.
#[derive(Clone, Copy, Debug, PartialEq, Eq, Structural)]
pub struct HookPlan {
    pub keyboard: bool,
    pub mouse: bool,
}

/// The keyboard hook runs while the program is enabled, the mouse hook while
/// scrolling at the edge is on; neither runs while the tray menu is open or
/// the program is shutting down.
pub open spec fn hook_plan_for(f: TaskbarFlags, enabled: bool, scroll_enabled: bool) -> HookPlan {
    HookPlan {
        keyboard: !f.is_finalizing && !f.menu_active && enabled,
        mouse: !f.is_finalizing && !f.menu_active && scroll_enabled,
    }
}

/// What to do with one hook.
#[derive(Clone, Copy, Debug, PartialEq, Eq, Structural)]
pub enum HookChange {
    Install,
    Remove,
    Keep,
}

/// A hook is installed when it is wanted and absent, removed when it is
/// present and not wanted.
pub open spec fn hook_change_for(installed: bool, wanted: bool) -> HookChange {
    if wanted && !installed {
        HookChange::Install
    } else if !wanted && installed {
        HookChange::Remove
    } else {
        HookChange::Keep
    }
}

/// Windows' own auto-hide is on while the program hides the taskbar (and is
/// not shutting down), and also while it is disabled if the user asked to
/// keep auto-hide then.
pub open spec fn autohide_wanted(enabled: bool, finalizing: bool, autohide_when_disabled: bool) -> bool {
    (enabled && !finalizing) || autohide_when_disabled
}

/// The `ABS_AUTOHIDE` state of an application bar.
pub const ABS_AUTOHIDE: isize = 1;

/// Whether a key counts as down by the state word `GetKeyState` returns, as
/// this program reads it: any of bits 4 to 7 set.
pub open spec fn key_state_down(state: i16) -> bool {
    (state as u16) % 0x100 >= 0x10
}

impl TaskbarFlags {
    /// The flags when the program starts: the taskbar is wanted until the
    /// foreground window has been looked at.
    pub fn new() -> (f: Self)
        ensures
            f == (TaskbarFlags {
                menu_active: false,
                is_finalizing: false,
                should_show_due_to_focus: true,
                should_stay_visible_before: 0,
                is_win_key_down: false,
                win_key_press_requested: false,
            }),
    {
        TaskbarFlags {
            menu_active: false,
            is_finalizing: false,
            should_show_due_to_focus: true,
            should_stay_visible_before: 0,
            is_win_key_down: false,
            win_key_press_requested: false,
        }
    }

    /// Whether the taskbar is to be visible at tick count `now`.
    pub fn should_show_taskbar(&self, now: u64) -> (res: bool)
        ensures
            res == taskbar_wanted(*self, now),
    {
        self.menu_active || self.should_show_due_to_focus || self.is_win_key_down || now
            < self.should_stay_visible_before
    }

    /// Takes in a new foreground window. `shell_surface` tells whether it is
    /// a shell surface that needs the taskbar; with the menu open or the
    /// program disabled the taskbar is wanted regardless.
    pub fn refresh_for_foreground(&mut self, enabled: bool, shell_surface: bool)
        ensures
            *final(self) == (TaskbarFlags {
                should_show_due_to_focus: old(self).menu_active || !enabled || shell_surface,
                ..*old(self)
            }),
    {
        let should_show = if self.menu_active {
            true
        } else if !enabled {
            true
        } else {
            shell_surface
        };
        self.should_show_due_to_focus = should_show;
    }

    /// Marks the taskbar as wanted, as when the program is switched off or
    /// the taskbar is restored.
    pub fn force_show(&mut self)
        ensures
            *final(self) == (TaskbarFlags { should_show_due_to_focus: true, ..*old(self) }),
    {
        self.should_show_due_to_focus = true;
    }

    pub fn set_menu_active(&mut self, active: bool)
        ensures
            *final(self) == (TaskbarFlags { menu_active: active, ..*old(self) }),
    {
        self.menu_active = active;
    }

    /// A key went down. A Windows key, while the program is enabled, marks
    /// the key as held; the result tells whether that is news, so that the
    /// taskbar worker must be woken.
    pub fn handle_key_down(&mut self, vk: u32, enabled: bool) -> (signal: bool)
        ensures
            signal == (is_win_key(vk) && enabled && !old(self).is_win_key_down),
            *final(self) == if is_win_key(vk) && enabled {
                TaskbarFlags { is_win_key_down: true, ..*old(self) }
            } else {
                *old(self)
            },
    {
        if vk == VK_LWIN as u32 || vk == VK_RWIN as u32 {
            if enabled {
                let was_down = self.is_win_key_down;
                self.is_win_key_down = true;
                return !was_down;
            }
        }
        false
    }

    /// A key went up at tick count `now`. For a Windows key, while the
    /// program is enabled, the key stays held only if the other Windows key
    /// still is, and the taskbar lingers for a short while; the result tells
    /// whether the taskbar worker must be woken.
    pub fn handle_key_up(&mut self, vk: u32, enabled: bool, other_still_down: bool, now: u64) -> (signal: bool)
        requires
            now + WIN_KEY_LINGER_MS <= u64::MAX,
        ensures
            signal == (is_win_key(vk) && enabled),
            *final(self) == if is_win_key(vk) && enabled {
                TaskbarFlags {
                    is_win_key_down: other_still_down,
                    should_stay_visible_before: (now + WIN_KEY_LINGER_MS) as u64,
                    ..*old(self)
                }
            } else {
                *old(self)
            },
    {
        if vk == VK_LWIN as u32 || vk == VK_RWIN as u32 {
            if enabled {
                self.is_win_key_down = other_still_down;
                self.should_stay_visible_before = now + WIN_KEY_LINGER_MS;
                return true;
            }
        }
        false
    }

    /// The pointer moved at tick count `now`. Touching the bottom edge of the
    /// primary monitor, while scrolling at the edge is on and the taskbar is
    /// not wanted yet, makes it wanted; the result tells whether the taskbar
    /// worker must be woken.
    pub fn handle_mouse_move(&mut self, x: i32, y: i32, monitor: ScreenRect, scroll_enabled: bool, now: u64) -> (signal: bool)
        requires
            monitor.bottom >= i32::MIN + 2,
        ensures
            signal == (scroll_enabled && at_bottom_edge(x, y, monitor) && !taskbar_wanted(
                *old(self),
                now,
            )),
            *final(self) == if signal {
                TaskbarFlags { should_show_due_to_focus: true, ..*old(self) }
            } else {
                *old(self)
            },
    {
        if !scroll_enabled {
            return false;
        }
        if at_bottom_edge_of(x, y, monitor) && !self.should_show_taskbar(now) {
            self.should_show_due_to_focus = true;
            return true;
        }
        false
    }

    /// The wheel turned. At the bottom edge of the primary monitor, while
    /// scrolling at the edge is on, a press of the Windows key is requested
    /// (to open Start) and the wheel event is swallowed; the result tells
    /// whether it was, and then the taskbar worker must be woken.
    pub fn handle_mouse_scroll(&mut self, x: i32, y: i32, monitor: ScreenRect, scroll_enabled: bool) -> (swallow: bool)
        requires
            monitor.bottom >= i32::MIN + 2,
        ensures
            swallow == (scroll_enabled && at_bottom_edge(x, y, monitor)),
            *final(self) == if swallow {
                TaskbarFlags { win_key_press_requested: true, ..*old(self) }
            } else {
                *old(self)
            },
    {
        if !scroll_enabled {
            return false;
        }
        if at_bottom_edge_of(x, y, monitor) {
            self.win_key_press_requested = true;
            return true;
        }
        false
    }

    /// Takes the request for a Windows key press, if there is one.
    pub fn take_win_key_press_request(&mut self) -> (requested: bool)
        ensures
            requested == old(self).win_key_press_requested,
            *final(self) == (TaskbarFlags { win_key_press_requested: false, ..*old(self) }),
    {
        let requested = self.win_key_press_requested;
        self.win_key_press_requested = false;
        requested
    }

    /// Starts shutting down. Only the first request does anything: it closes
    /// the menu state and returns true; later ones return false.
    pub fn begin_quit(&mut self) -> (proceed: bool)
        ensures
            proceed == !old(self).is_finalizing,
            *final(self) == if proceed {
                TaskbarFlags { is_finalizing: true, menu_active: false, ..*old(self) }
            } else {
                *old(self)
            },
    {
        if self.is_finalizing {
            return false;
        }
        self.is_finalizing = true;
        self.menu_active = false;
        true
    }

    /// Which hooks are to run.
    pub fn hook_plan(&self, enabled: bool, scroll_enabled: bool) -> (p: HookPlan)
        ensures
            p == hook_plan_for(*self, enabled, scroll_enabled),
            p.keyboard == (!self.is_finalizing && !self.menu_active && enabled),
            p.mouse == (!self.is_finalizing && !self.menu_active && scroll_enabled),
    {
        let keyboard = !self.is_finalizing && !self.menu_active && enabled;
        let mouse = !self.is_finalizing && !self.menu_active && scroll_enabled;
        HookPlan { keyboard, mouse }
    }
}

/// Whether a window of this class needs the taskbar.
pub fn is_shell_surface_class(class_name: &str) -> (res: bool)
    ensures
        res == is_shell_surface(class_name@),
{
    same_text(class_name, "Windows.UI.Core.CoreWindow") || same_text(class_name, "Shell_TrayWnd")
        || same_text(class_name, "Shell_SecondaryTrayWnd") || same_text(
        class_name,
        "TopLevelWindowForOverflowXamlIsland",
    ) || same_text(class_name, "XamlExplorerHostIslandWindow") || same_text(
        class_name,
        "NotifyIconOverflowWindow",
    )
}

/// Whether the foreground window needs the taskbar; `None` stands for no
/// foreground window, which does not.
pub fn should_show_taskbar_for_foreground(class_name: Option<&str>) -> (res: bool)
    ensures
        res == match class_name {
            Some(name) => is_shell_surface(name@),
            None => false,
        },
{
    match class_name {
        Some(name) => is_shell_surface_class(name),
        None => false,
    }
}

/// What to do with a hook.
pub fn hook_change(installed: bool, wanted: bool) -> (c: HookChange)
    ensures
        c == hook_change_for(installed, wanted),
{
    if wanted {
        if !installed {
            HookChange::Install
        } else {
            HookChange::Keep
        }
    } else if installed {
        HookChange::Remove
    } else {
        HookChange::Keep
    }
}

/// The auto-hide state to give the primary taskbar's application bar.
pub fn appbar_state(enabled: bool, finalizing: bool, autohide_when_disabled: bool) -> (state: isize)
    ensures
        state == if autohide_wanted(enabled, finalizing, autohide_when_disabled) {
            ABS_AUTOHIDE
        } else {
            0
        },
        enabled && !finalizing ==> state == ABS_AUTOHIDE,
        autohide_when_disabled ==> state == ABS_AUTOHIDE,
        (!enabled || finalizing) && !autohide_when_disabled ==> state == 0,
{
    if (enabled && !finalizing) || autohide_when_disabled {
        ABS_AUTOHIDE
    } else {
        0
    }
}

/// Auto-hide is on whenever the program is enabled and running, whatever
/// the user chose for the disabled state; it is on whenever the user asked
/// to keep it while disabled; and it is off only when neither holds.
pub proof fn lemma_autohide_table(enabled: bool, finalizing: bool, keep_when_disabled: bool)
    ensures
        enabled && !finalizing ==> autohide_wanted(enabled, finalizing, keep_when_disabled),
        keep_when_disabled ==> autohide_wanted(enabled, finalizing, keep_when_disabled),
        !autohide_wanted(enabled, finalizing, keep_when_disabled) ==> (!enabled || finalizing)
            && !keep_when_disabled,
        autohide_wanted(true, false, false),
        autohide_wanted(false, false, true),
        !autohide_wanted(false, false, false),
        !autohide_wanted(true, true, false),
{
}

/// Each hook serves its own setting: the keyboard hook follows `enabled`
/// and does not depend on scrolling at the edge, the mouse hook follows
/// that setting and does not depend on `enabled`; with the menu closed and
/// the program running each runs exactly when its setting is on, and with
/// the menu open neither runs.
pub proof fn lemma_hook_plan_roles(
    f: TaskbarFlags,
    enabled: bool,
    scroll_enabled: bool,
    other_enabled: bool,
    other_scroll: bool,
)
    ensures
        hook_plan_for(f, enabled, scroll_enabled).keyboard == hook_plan_for(
            f,
            enabled,
            other_scroll,
        ).keyboard,
        hook_plan_for(f, enabled, scroll_enabled).mouse == hook_plan_for(
            f,
            other_enabled,
            scroll_enabled,
        ).mouse,
        !f.menu_active && !f.is_finalizing ==> hook_plan_for(f, enabled, scroll_enabled).keyboard
            == enabled && hook_plan_for(f, enabled, scroll_enabled).mouse == scroll_enabled,
        f.menu_active ==> !hook_plan_for(f, enabled, scroll_enabled).keyboard && !hook_plan_for(
            f,
            enabled,
            scroll_enabled,
        ).mouse,
{
}

/// Whether the other Windows key is still down, from its `GetKeyState` word.
pub fn key_state_is_down(state: i16) -> (res: bool)
    ensures
        res == key_state_down(state),
{
    let bits = state as u16;
    assert((bits & 0xF0u16 > 0) == (bits % 0x100 >= 0x10)) by (bit_vector);
    (bits & 0xF0) > 0
}

/// Whether the `ABM_GETSTATE` answer of the shell reports auto-hide.
pub fn autohide_state_set(state: usize) -> (res: bool)
    ensures
        res == (state % 2 == 1),
{
    assert((state & 1usize != 0) == (state % 2 == 1)) by (bit_vector);
    (state & (ABS_AUTOHIDE as usize)) != 0
}

/// After a Windows key is let go, the taskbar stays wanted until the linger
/// time is over.
pub proof fn lemma_win_key_lingers(f: TaskbarFlags, vk: u32, other_still_down: bool, now: u64, later: u64)
    requires
        is_win_key(vk),
        now + WIN_KEY_LINGER_MS <= u64::MAX,
        later < now + WIN_KEY_LINGER_MS,
    ensures
        taskbar_wanted(
            TaskbarFlags {
                is_win_key_down: other_still_down,
                should_stay_visible_before: (now + WIN_KEY_LINGER_MS) as u64,
                ..f
            },
            later,
        ),
{
}

/// While the tray menu is open, or the program is disabled, any foreground
/// window leaves the taskbar wanted.
pub proof fn lemma_menu_or_disabled_shows(f: TaskbarFlags, enabled: bool, shell_surface: bool, now: u64)
    requires
        f.menu_active || !enabled,
    ensures
        taskbar_wanted(
            TaskbarFlags { should_show_due_to_focus: f.menu_active || !enabled || shell_surface, ..f },
            now,
        ),
{
}

/// No hook runs once shutting down has begun.
pub proof fn lemma_no_hooks_after_quit(f: TaskbarFlags, enabled: bool, scroll_enabled: bool)
    requires
        f.is_finalizing,
    ensures
        hook_plan_for(f, enabled, scroll_enabled) == (HookPlan { keyboard: false, mouse: false }),
{
}

/// Applying the hook change makes a hook's presence match whether it is
/// wanted.
pub proof fn lemma_hook_change_reaches_plan(installed: bool, wanted: bool)
    ensures
        (match hook_change_for(installed, wanted) {
            HookChange::Install => true,
            HookChange::Remove => false,
            HookChange::Keep => installed,
        }) == wanted,
{
}

} // verus!
