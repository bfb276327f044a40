//! The shortcut-capturing field of the settings dialog: what focus changes,
//! key presses and the clear button do to the shortcut being edited, and what
//! the field shows.

use vstd::prelude::*;
use crate::hotkey::{display_text, empty_hotkey, is_modifier_key, is_modifier_vk, HotkeyConfig};
use crate::keys::{VK_BACK, VK_DELETE, VK_ESCAPE};
use crate::words::{colour_value, rgb};

verus! {

/// The shortcut being edited, the one it had when the field took the focus,
/// and whether the field is capturing keys.
pub struct HotkeyEditState {
    pub hotkey: HotkeyConfig,
    pub original: HotkeyConfig,
    pub capturing: bool,
}

/// Which modifier keys were held when a key went down.
#[derive(Clone, Copy, Debug, PartialEq, Eq, Structural)]
pub struct HeldModifiers {
    pub ctrl: bool,
    pub alt: bool,
    pub shift: bool,
    pub win: bool,
}

/// What the field asks of its window after a key press.
#[derive(Clone, Copy, Debug, PartialEq, Eq, Structural)]
pub enum EditKeyAction {
    /// Nothing changed; the key is swallowed.
    Ignore,
    /// The shortcut changed; the field must be repainted.
    Repaint,
    /// Editing was cancelled; repaint and hand the focus back to the dialog.
    RepaintAndReturnFocus,
}

/// The key a pressed key is recorded as. `mapped_char` is what the keyboard
/// layout maps the key to (zero when it maps to no character); a mapped
/// lower-case letter is recorded as its upper-case key code.
pub open spec fn recorded_key(vk: u32, mapped_char: u32) -> u32 {
    if mapped_char != 0 {
        let k = mapped_char % 0x100;
        if ('a' as u32) <= k <= ('z' as u32) {
            (k - 32) as u32
        } else {
            k
        }
    } else {
        vk
    }
}

/// The shortcut recorded from a key press. A key pressed with no modifier is
/// recorded with Alt, so that a bare key never becomes a global shortcut.
pub open spec fn captured_hotkey(vk: u32, held: HeldModifiers, mapped_char: u32) -> HotkeyConfig {
    let any = held.ctrl || held.alt || held.shift || held.win;
    HotkeyConfig {
        win: held.win,
        ctrl: held.ctrl,
        shift: held.shift,
        alt: held.alt || !any,
        key: recorded_key(vk, mapped_char),
    }
}

/// The field after it takes the focus: it captures, and remembers the
/// shortcut to go back to.
pub open spec fn focused(s: HotkeyEditState) -> HotkeyEditState {
    HotkeyEditState { hotkey: s.hotkey, original: s.hotkey, capturing: true }
}

/// The field after it loses the focus.
pub open spec fn unfocused(s: HotkeyEditState) -> HotkeyEditState {
    HotkeyEditState { capturing: false, ..s }
}

/// The field after a key press: Escape restores the remembered shortcut and
/// stops capturing, Backspace and Delete clear the shortcut, a modifier key
/// alone changes nothing, any other key is recorded with the held modifiers.
pub open spec fn after_key(
    s: HotkeyEditState,
    vk: u32,
    held: HeldModifiers,
    mapped_char: u32,
) -> HotkeyEditState {
    if vk == VK_ESCAPE {
        HotkeyEditState { hotkey: s.original, original: s.original, capturing: false }
    } else if vk == VK_BACK || vk == VK_DELETE {
        HotkeyEditState { hotkey: empty_hotkey(), ..s }
    } else if is_modifier_key(vk) {
        s
    } else {
        HotkeyEditState { hotkey: captured_hotkey(vk, held, mapped_char), ..s }
    }
}

/// The field after the clear button of the dialog was pressed.
pub open spec fn cleared(s: HotkeyEditState) -> HotkeyEditState {
    HotkeyEditState { hotkey: empty_hotkey(), ..s }
}

/// Something that happens to the field.
#[derive(Clone, Copy, Debug, PartialEq, Eq, Structural)]
pub enum EditEvent {
    /// The field takes the focus.
    Focus,
    /// The field loses the focus.
    FocusLost,
    /// A key goes down, with the modifiers held and the character the layout
    /// maps it to.
    Key(u32, HeldModifiers, u32),
    /// The clear button is pressed.
    Clear,
}

/// The field after one event.
pub open spec fn after_event(s: HotkeyEditState, e: EditEvent) -> HotkeyEditState {
    match e {
        EditEvent::Focus => focused(s),
        EditEvent::FocusLost => unfocused(s),
        EditEvent::Key(vk, held, mapped_char) => after_key(s, vk, held, mapped_char),
        EditEvent::Clear => cleared(s),
    }
}

/// The field after a sequence of events, in order.
pub open spec fn after_events(s: HotkeyEditState, events: Seq<EditEvent>) -> HotkeyEditState
    decreases events.len(),
{
    if events.len() == 0 {
        s
    } else {
        after_events(after_event(s, events[0]), events.drop_first())
    }
}

/// What the window does after a key press.
pub open spec fn key_action(vk: u32) -> EditKeyAction {
    if vk == VK_ESCAPE {
        EditKeyAction::RepaintAndReturnFocus
    } else if vk == VK_BACK || vk == VK_DELETE {
        EditKeyAction::Repaint
    } else if is_modifier_key(vk) {
        EditKeyAction::Ignore
    } else {
        EditKeyAction::Repaint
    }
}

/// The text the field shows.
pub open spec fn caption_text(s: HotkeyEditState) -> Seq<char> {
    if s.capturing && s.hotkey.key == 0 {
        "Press shortcut..."@
    } else {
        display_text(s.hotkey)
    }
}

/// The background colour of the field: pale yellow while capturing, the
/// system window colour otherwise.
pub open spec fn background_colour(s: HotkeyEditState, window_colour: u32) -> u32 {
    if s.capturing {
        colour_value(255, 255, 220)
    } else {
        window_colour
    }
}

/// Whether a key is held, from the state word that `GetAsyncKeyState`
/// returns: its top bit.
pub fn key_is_held(state: i16) -> (res: bool)
    ensures
        res == (state < 0),
{
    let bits = state as u16;
    assert((bits & 0x8000u16 != 0) == (state < 0)) by (bit_vector)
        requires
            bits == state as u16,
    ;
    (bits & 0x8000) != 0
}

impl HotkeyEditState {
    /// A field that starts out showing `hotkey`, not yet capturing.
    pub fn new(hotkey: HotkeyConfig) -> (s: Self)
        ensures
            s == (HotkeyEditState { hotkey, original: empty_hotkey(), capturing: false }),
    {
        HotkeyEditState { hotkey, original: HotkeyConfig::default(), capturing: false }
    }

    pub fn on_focus(&mut self)
        ensures
            *final(self) == focused(*old(self)),
    {
        self.capturing = true;
        self.original = self.hotkey;
    }

    pub fn on_focus_lost(&mut self)
        ensures
            *final(self) == unfocused(*old(self)),
    {
        self.capturing = false;
    }

    pub fn on_key_down(&mut self, vk: u32, held: HeldModifiers, mapped_char: u32) -> (action:
        EditKeyAction)
        ensures
            *final(self) == after_key(*old(self), vk, held, mapped_char),
            action == key_action(vk),
    {
        if vk == VK_ESCAPE as u32 {
            self.hotkey = self.original;
            self.capturing = false;
            return EditKeyAction::RepaintAndReturnFocus;
        }
        if vk == VK_BACK as u32 || vk == VK_DELETE as u32 {
            self.hotkey = HotkeyConfig::default();
            return EditKeyAction::Repaint;
        }
        if is_modifier_vk(vk) {
            return EditKeyAction::Ignore;
        }
        self.hotkey = capture_hotkey(vk, held, mapped_char);
        EditKeyAction::Repaint
    }

    /// The clear button of the dialog empties the shortcut.
    pub fn clear(&mut self)
        ensures
            *final(self) == cleared(*old(self)),
    {
        self.hotkey = HotkeyConfig::default();
    }

    pub fn caption(&self) -> (text: String)
        ensures
            text@ == caption_text(*self),
    {
        if self.capturing && self.hotkey.is_empty() {
            String::from_str("Press shortcut...")
        } else {
            self.hotkey.to_display_string()
        }
    }

    pub fn background(&self, window_colour: u32) -> (colour: u32)
        ensures
            colour == background_colour(*self, window_colour),
    {
        if self.capturing {
            rgb(255, 255, 220)
        } else {
            window_colour
        }
    }
}

/// The shortcut recorded from a key press.
pub fn capture_hotkey(vk: u32, held: HeldModifiers, mapped_char: u32) -> (h: HotkeyConfig)
    ensures
        h == captured_hotkey(vk, held, mapped_char),
        h.ctrl == held.ctrl,
        h.shift == held.shift,
        h.win == held.win,
        h.alt == (held.alt || !(held.ctrl || held.shift || held.win)),
        mapped_char == 0 ==> h.key == vk,
{
    let mut hk = HotkeyConfig::default();
    hk.ctrl = held.ctrl;
    hk.alt = held.alt;
    hk.shift = held.shift;
    hk.win = held.win;
    if mapped_char != 0 {
        hk.key = mapped_char & 0xFF;
        assert(mapped_char & 0xFF == mapped_char % 0x100) by (bit_vector);
        if hk.key >= 'a' as u32 && hk.key <= 'z' as u32 {
            hk.key = hk.key - 32;
        }
    } else {
        hk.key = vk;
    }
    if !hk.ctrl && !hk.alt && !hk.shift && !hk.win {
        hk.alt = true;
    }
    hk
}

/// A recorded shortcut holds exactly the modifiers that were held, adding
/// Alt only when none was; its key is the pressed key when the layout maps
/// it to no character, the mapped character otherwise, with a lower-case
/// letter recorded as its upper-case key.
pub proof fn lemma_capture_keeps_held(vk: u32, held: HeldModifiers, mapped_char: u32)
    ensures
        ({
            let h = captured_hotkey(vk, held, mapped_char);
            &&& h.ctrl == held.ctrl
            &&& h.shift == held.shift
            &&& h.win == held.win
            &&& held.alt ==> h.alt
            &&& (held.ctrl || held.shift || held.win) ==> h.alt == held.alt
            &&& mapped_char == 0 ==> h.key == vk
            &&& (0 < mapped_char < 0x100 && !(('a' as u32) <= mapped_char <= ('z' as u32))) ==> h.key
                == mapped_char
            &&& (('a' as u32) <= mapped_char <= ('z' as u32)) ==> h.key == mapped_char - 32
        }),
{
}

/// A recorded shortcut always holds at least one modifier.
pub proof fn lemma_capture_has_modifier(vk: u32, held: HeldModifiers, mapped_char: u32)
    ensures
        ({
            let h = captured_hotkey(vk, held, mapped_char);
            h.ctrl || h.alt || h.shift || h.win
        }),
{
}

/// Events other than taking the focus never change the remembered
/// shortcut.
pub proof fn lemma_events_keep_remembered(s: HotkeyEditState, events: Seq<EditEvent>)
    requires
        forall|i: int| 0 <= i < events.len() ==> #[trigger] events[i] != EditEvent::Focus,
    ensures
        after_events(s, events).original == s.original,
    decreases events.len(),
{
    if events.len() > 0 {
        let rest = events.drop_first();
        assert forall|i: int| 0 <= i < rest.len() implies #[trigger] rest[i] != EditEvent::Focus by {
            assert(rest[i] == events[i + 1]);
        }
        assert(events[0] != EditEvent::Focus);
        lemma_events_keep_remembered(after_event(s, events[0]), rest);
    }
}

/// Escape gives back the shortcut the field had when it took the focus,
/// whatever keys, clears and focus losses came in between, as long as the
/// field did not take the focus again; and capturing stops.
pub proof fn lemma_escape_restores(
    s: HotkeyEditState,
    events: Seq<EditEvent>,
    escape_held: HeldModifiers,
    escape_mapped: u32,
)
    requires
        forall|i: int| 0 <= i < events.len() ==> #[trigger] events[i] != EditEvent::Focus,
    ensures
        ({
            let edited = after_events(focused(s), events);
            let cancelled = after_key(edited, VK_ESCAPE as u32, escape_held, escape_mapped);
            &&& cancelled.hotkey == s.hotkey
            &&& cancelled.original == s.hotkey
            &&& !cancelled.capturing
        }),
{
    lemma_events_keep_remembered(focused(s), events);
}

/// Backspace and Delete leave the field with no shortcut.
pub proof fn lemma_delete_clears(s: HotkeyEditState, held: HeldModifiers, mapped_char: u32)
    ensures
        after_key(s, VK_BACK as u32, held, mapped_char).hotkey.key == 0,
        after_key(s, VK_DELETE as u32, held, mapped_char).hotkey.key == 0,
{
}

/// A modifier key pressed alone changes nothing.
pub proof fn lemma_modifier_alone_ignored(
    s: HotkeyEditState,
    vk: u32,
    held: HeldModifiers,
    mapped_char: u32,
)
    requires
        is_modifier_key(vk),
    ensures
        after_key(s, vk, held, mapped_char) == s,
{
    assert(vk != VK_ESCAPE && vk != VK_BACK && vk != VK_DELETE);
}

} // verus!
