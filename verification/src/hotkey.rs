//! The global toggle shortcut: a virtual key together with the modifier keys
//! that must be held, its registration flags and its text for the user.

use vstd::prelude::*;
use crate::keys::{
    MOD_ALT, MOD_CONTROL, MOD_NOREPEAT, MOD_SHIFT, MOD_WIN, VK_BACK, VK_CONTROL, VK_DELETE, VK_DOWN,
    VK_END, VK_ESCAPE, VK_F1, VK_F11, VK_F24, VK_HOME, VK_INSERT, VK_LCONTROL, VK_LEFT, VK_LMENU,
    VK_LSHIFT, VK_LWIN, VK_MENU, VK_NEXT, VK_PRIOR, VK_RCONTROL, VK_RETURN, VK_RIGHT, VK_RMENU,
    VK_RSHIFT, VK_RWIN, VK_SHIFT, VK_SPACE, VK_TAB, VK_UP,
};
use crate::text::{decimal_text, hex_text_two, push_decimal, push_hex_two, push_char};

verus! {

/// A keyboard shortcut. `key` is a virtual-key code; zero means that no
/// shortcut is set.
#[derive(Clone, Copy, Debug, PartialEq, Eq, Structural)]
pub struct HotkeyConfig {
    pub win: bool,
    pub ctrl: bool,
    pub shift: bool,
    pub alt: bool,
    pub key: u32,
}

/// The shortcut that is set to nothing.
pub open spec fn empty_hotkey() -> HotkeyConfig {
    HotkeyConfig { win: false, ctrl: false, shift: false, alt: false, key: 0 }
}

/// The shortcut a fresh installation uses: Ctrl + Win + F11.
pub open spec fn toggle_default() -> HotkeyConfig {
    HotkeyConfig { win: true, ctrl: true, shift: false, alt: false, key: VK_F11 as u32 }
}

/// The `RegisterHotKey` modifier flags of a shortcut. The no-repeat flag is
/// always present, so that holding the keys does not toggle again and again.
pub open spec fn modifier_flags(h: HotkeyConfig) -> u32 {
    ((if h.win { MOD_WIN } else { 0 }) + (if h.ctrl { MOD_CONTROL } else { 0 }) + (if h.shift {
        MOD_SHIFT
    } else {
        0
    }) + (if h.alt { MOD_ALT } else { 0 }) + MOD_NOREPEAT) as u32
}

/// Whether `vk`, read as a 16-bit key code, is one of the modifier keys
/// (Ctrl, Alt, Shift or Win, left, right or either).
pub open spec fn is_modifier_key(vk: u32) -> bool {
    let v = vk % 0x10000;
    v == VK_CONTROL || v == VK_LCONTROL || v == VK_RCONTROL || v == VK_MENU || v == VK_LMENU
        || v == VK_RMENU || v == VK_SHIFT || v == VK_LSHIFT || v == VK_RSHIFT || v == VK_LWIN
        || v == VK_RWIN
}

/// The name of a named key (by its 16-bit code), if it has one.
pub open spec fn named_key(v: u32) -> Option<Seq<char>> {
    if v == VK_SPACE {
        Some("Space"@)
    } else if v == VK_TAB {
        Some("Tab"@)
    } else if v == VK_RETURN {
        Some("Enter"@)
    } else if v == VK_ESCAPE {
        Some("Esc"@)
    } else if v == VK_BACK {
        Some("Backspace"@)
    } else if v == VK_DELETE {
        Some("Delete"@)
    } else if v == VK_INSERT {
        Some("Insert"@)
    } else if v == VK_HOME {
        Some("Home"@)
    } else if v == VK_END {
        Some("End"@)
    } else if v == VK_PRIOR {
        Some("Page Up"@)
    } else if v == VK_NEXT {
        Some("Page Down"@)
    } else if v == VK_LEFT {
        Some("Left"@)
    } else if v == VK_UP {
        Some("Up"@)
    } else if v == VK_RIGHT {
        Some("Right"@)
    } else if v == VK_DOWN {
        Some("Down"@)
    } else {
        None
    }
}

/// How a key is written: a letter or digit as itself, a function key as `F`
/// and its number, a few keys by name, anything else as its code in hex.
pub open spec fn key_text(vk: u32) -> Seq<char> {
    if ('A' as u32) <= vk <= ('Z' as u32) || ('0' as u32) <= vk <= ('9' as u32) {
        seq![vk as char]
    } else if (VK_F1 as u32) <= vk <= (VK_F24 as u32) {
        seq!['F'] + decimal_text((vk - VK_F1 + 1) as nat)
    } else {
        match named_key(vk % 0x10000) {
            Some(name) => name,
            None => "0x"@ + hex_text_two(vk as nat),
        }
    }
}

/// How a shortcut is shown: "(None)" when it is empty, else the held
/// modifiers in the order Ctrl, Alt, Shift, Win and then the key, joined by
/// " + ".
pub open spec fn display_text(h: HotkeyConfig) -> Seq<char> {
    if h.key == 0 {
        "(None)"@
    } else {
        (if h.ctrl { "Ctrl + "@ } else { Seq::empty() }) + (if h.alt {
            "Alt + "@
        } else {
            Seq::empty()
        }) + (if h.shift { "Shift + "@ } else { Seq::empty() }) + (if h.win {
            "Win + "@
        } else {
            Seq::empty()
        }) + key_text(h.key)
    }
}

impl Default for HotkeyConfig {
    fn default() -> (h: Self)
        ensures
            h == empty_hotkey(),
    {
        HotkeyConfig { win: false, ctrl: false, shift: false, alt: false, key: 0 }
    }
}

impl HotkeyConfig {
    /// Whether no shortcut is set.
    pub fn is_empty(&self) -> (res: bool)
        ensures
            res == (self.key == 0),
    {
        self.key == 0
    }

    pub fn default_toggle() -> (h: Self)
        ensures
            h == toggle_default(),
    {
        HotkeyConfig { win: true, ctrl: true, shift: false, alt: false, key: VK_F11 as u32 }
    }

    /// The modifier flags to register this shortcut with.
    pub fn modifiers(&self) -> (flags: u32)
        ensures
            flags == modifier_flags(*self),
    {
        let w: u32 = if self.win { MOD_WIN } else { 0 };
        let c: u32 = if self.ctrl { MOD_CONTROL } else { 0 };
        let s: u32 = if self.shift { MOD_SHIFT } else { 0 };
        let a: u32 = if self.alt { MOD_ALT } else { 0 };
        let flags = w | c | s | a | MOD_NOREPEAT;
        assert(w | c | s | a | 0x4000u32 == w + c + s + a + 0x4000u32) by (bit_vector)
            requires
                w == 0 || w == 8,
                c == 0 || c == 2,
                s == 0 || s == 4,
                a == 0 || a == 1,
        ;
        flags
    }

    /// The shortcut as the settings dialog shows it.
    pub fn to_display_string(&self) -> (text: String)
        ensures
            text@ == display_text(*self),
            self.key == 0 ==> text@ == "(None)"@,
            self.key != 0 && !self.ctrl && !self.alt && !self.shift && !self.win ==> text@
                == key_text(self.key),
    {
        if self.is_empty() {
            return String::from_str("(None)");
        }
        let mut text = String::new();
        if self.ctrl {
            text.append("Ctrl + ");
        }
        if self.alt {
            text.append("Alt + ");
        }
        if self.shift {
            text.append("Shift + ");
        }
        if self.win {
            text.append("Win + ");
        }
        let key = vk_to_string(self.key);
        text.append(key.as_str());
        proof {
            assert(text@ =~= display_text(*self));
        }
        text
    }
}

/// Whether `vk` is a modifier key, which alone does not make a shortcut.
pub fn is_modifier_vk(vk: u32) -> (res: bool)
    ensures
        res == is_modifier_key(vk),
{
    let v = vk as u16;
    assert(v == vk % 0x10000) by (bit_vector)
        requires
            v == vk as u16,
    ;
    v == VK_CONTROL || v == VK_LCONTROL || v == VK_RCONTROL || v == VK_MENU || v == VK_LMENU
        || v == VK_RMENU || v == VK_SHIFT || v == VK_LSHIFT || v == VK_RSHIFT || v == VK_LWIN
        || v == VK_RWIN
}

fn named_key_text(v: u16) -> (res: Option<String>)
    ensures
        match res {
            Some(s) => named_key(v as u32) == Some(s@),
            None => named_key(v as u32) is None,
        },
{
    let name = if v == VK_SPACE {
        "Space"
    } else if v == VK_TAB {
        "Tab"
    } else if v == VK_RETURN {
        "Enter"
    } else if v == VK_ESCAPE {
        "Esc"
    } else if v == VK_BACK {
        "Backspace"
    } else if v == VK_DELETE {
        "Delete"
    } else if v == VK_INSERT {
        "Insert"
    } else if v == VK_HOME {
        "Home"
    } else if v == VK_END {
        "End"
    } else if v == VK_PRIOR {
        "Page Up"
    } else if v == VK_NEXT {
        "Page Down"
    } else if v == VK_LEFT {
        "Left"
    } else if v == VK_UP {
        "Up"
    } else if v == VK_RIGHT {
        "Right"
    } else if v == VK_DOWN {
        "Down"
    } else {
        return None;
    };
    Some(String::from_str(name))
}

/// The text of a single key.
pub fn vk_to_string(vk: u32) -> (text: String)
    ensures
        text@ == key_text(vk),
{
    if (vk >= 'A' as u32 && vk <= 'Z' as u32) || (vk >= '0' as u32 && vk <= '9' as u32) {
        let mut text = String::new();
        push_char(&mut text, (vk as u8) as char);
        proof {
            assert(text@ =~= key_text(vk));
        }
        return text;
    }
    if vk >= VK_F1 as u32 && vk <= VK_F24 as u32 {
        let mut text = String::new();
        push_char(&mut text, 'F');
        push_decimal(&mut text, vk - VK_F1 as u32 + 1);
        proof {
            assert(text@ =~= key_text(vk));
        }
        return text;
    }
    let v = vk as u16;
    assert(v == vk % 0x10000) by (bit_vector)
        requires
            v == vk as u16,
    ;
    match named_key_text(v) {
        Some(name) => name,
        None => {
            let mut text = String::from_str("0x");
            push_hex_two(&mut text, vk);
            text
        },
    }
}

/// A shortcut with a single modifier is written as that modifier's name and
/// the key; with all four they come in the order Ctrl, Alt, Shift, Win.
pub proof fn lemma_display_names_each_modifier(key: u32)
    requires
        key != 0,
    ensures
        display_text(HotkeyConfig { win: false, ctrl: true, shift: false, alt: false, key })
            == "Ctrl + "@ + key_text(key),
        display_text(HotkeyConfig { win: false, ctrl: false, shift: false, alt: true, key })
            == "Alt + "@ + key_text(key),
        display_text(HotkeyConfig { win: false, ctrl: false, shift: true, alt: false, key })
            == "Shift + "@ + key_text(key),
        display_text(HotkeyConfig { win: true, ctrl: false, shift: false, alt: false, key })
            == "Win + "@ + key_text(key),
        display_text(HotkeyConfig { win: false, ctrl: false, shift: false, alt: false, key })
            == key_text(key),
        display_text(HotkeyConfig { win: true, ctrl: true, shift: true, alt: true, key })
            == "Ctrl + "@ + "Alt + "@ + "Shift + "@ + "Win + "@ + key_text(key),
{
    assert(display_text(HotkeyConfig { win: false, ctrl: true, shift: false, alt: false, key })
        =~= "Ctrl + "@ + key_text(key));
    assert(display_text(HotkeyConfig { win: false, ctrl: false, shift: false, alt: true, key })
        =~= "Alt + "@ + key_text(key));
    assert(display_text(HotkeyConfig { win: false, ctrl: false, shift: true, alt: false, key })
        =~= "Shift + "@ + key_text(key));
    assert(display_text(HotkeyConfig { win: true, ctrl: false, shift: false, alt: false, key })
        =~= "Win + "@ + key_text(key));
    assert(display_text(HotkeyConfig { win: false, ctrl: false, shift: false, alt: false, key })
        =~= key_text(key));
}

/// Adding a modifier to a shortcut inserts that modifier's name into its
/// text, after the names of the modifiers that come before it (Ctrl, Alt,
/// Shift, Win) and before the rest; the key's text always ends the text.
pub proof fn lemma_display_adding_modifier(h: HotkeyConfig)
    requires
        h.key != 0,
    ensures
        !h.ctrl ==> display_text(HotkeyConfig { ctrl: true, ..h }) == "Ctrl + "@ + display_text(h),
        !h.alt && !h.ctrl ==> display_text(HotkeyConfig { alt: true, ..h }) == "Alt + "@
            + display_text(h),
        !h.shift && !h.ctrl && !h.alt ==> display_text(HotkeyConfig { shift: true, ..h })
            == "Shift + "@ + display_text(h),
        !h.win && !h.ctrl && !h.alt && !h.shift ==> display_text(HotkeyConfig { win: true, ..h })
            == "Win + "@ + display_text(h),
        ({
            let t = display_text(h);
            let k = key_text(h.key);
            t.len() >= k.len() && t.subrange(t.len() - k.len(), t.len() as int) == k
        }),
{
    let e = Seq::<char>::empty();
    let a = if h.alt { "Alt + "@ } else { e };
    let s = if h.shift { "Shift + "@ } else { e };
    let w = if h.win { "Win + "@ } else { e };
    let c = if h.ctrl { "Ctrl + "@ } else { e };
    let k = key_text(h.key);
    assert(display_text(h) =~= c + a + s + w + k);
    assert(display_text(HotkeyConfig { ctrl: true, ..h }) =~= "Ctrl + "@ + a + s + w + k);
    assert(display_text(HotkeyConfig { alt: true, ..h }) =~= c + "Alt + "@ + s + w + k);
    assert(display_text(HotkeyConfig { shift: true, ..h }) =~= c + a + "Shift + "@ + w + k);
    assert(display_text(HotkeyConfig { win: true, ..h }) =~= c + a + s + "Win + "@ + k);
    if !h.ctrl {
        assert("Ctrl + "@ + a + s + w + k =~= "Ctrl + "@ + (c + a + s + w + k));
    }
    if !h.alt && !h.ctrl {
        assert(c + "Alt + "@ + s + w + k =~= "Alt + "@ + (c + a + s + w + k));
    }
    if !h.shift && !h.ctrl && !h.alt {
        assert(c + a + "Shift + "@ + w + k =~= "Shift + "@ + (c + a + s + w + k));
    }
    if !h.win && !h.ctrl && !h.alt && !h.shift {
        assert(c + a + s + "Win + "@ + k =~= "Win + "@ + (c + a + s + w + k));
    }
    let t = display_text(h);
    assert(t.subrange(t.len() - k.len(), t.len() as int) =~= k);
}

/// Every registration carries the no-repeat flag.
pub proof fn lemma_no_repeat_always_set(h: HotkeyConfig)
    ensures
        modifier_flags(h) & MOD_NOREPEAT == MOD_NOREPEAT,
        modifier_flags(h) & 0xF == (if h.win { MOD_WIN } else { 0 }) + (if h.ctrl {
            MOD_CONTROL
        } else {
            0
        }) + (if h.shift { MOD_SHIFT } else { 0 }) + (if h.alt { MOD_ALT } else { 0 }),
{
    let low: u32 = ((if h.win { MOD_WIN } else { 0 }) + (if h.ctrl { MOD_CONTROL } else { 0 }) + (
    if h.shift {
        MOD_SHIFT
    } else {
        0
    }) + (if h.alt { MOD_ALT } else { 0 })) as u32;
    let v = modifier_flags(h);
    assert(v == low + 0x4000);
    assert(v & 0x4000u32 == 0x4000u32 && v & 0xFu32 == low) by (bit_vector)
        requires
            low < 16,
            v == low + 0x4000,
    ;
}

} // verus!
