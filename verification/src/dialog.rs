//! The settings dialog: the in-memory `DLGTEMPLATE` it is created from, and
//! what its buttons stand for.

use vstd::prelude::*;
use crate::wide::{to_wide, wide_text};
use crate::words::{loword, low_word};

verus! {

pub const WS_CHILD: u32 = 0x4000_0000;
pub const WS_VISIBLE: u32 = 0x1000_0000;
pub const WS_CAPTION: u32 = 0x00C0_0000;
pub const WS_SYSMENU: u32 = 0x0008_0000;
pub const WS_TABSTOP: u32 = 0x0001_0000;
pub const DS_SETFONT: u32 = 0x40;
pub const DS_MODALFRAME: u32 = 0x80;
pub const DS_CENTER: u32 = 0x800;
/// `DS_SETFONT | DS_FIXEDSYS | DS_3DLOOK`: the dialog names its own font.
pub const DS_SHELLFONT: u32 = 0x58;

/// The control identifier of the OK button.
pub const IDC_OK: u16 = 1;
/// The control identifier of the Cancel button.
pub const IDC_CANCEL: u16 = 2;
/// The control identifier of the shortcut field.
pub const IDC_TOGGLE_HOTKEY_EDIT: u16 = 101;
/// The control identifier of the button that clears the shortcut.
pub const IDC_TOGGLE_HOTKEY_CLEAR: u16 = 102;

/// The predefined window class atoms of dialog controls.
pub const BUTTON_CLASS_ATOM: u16 = 0x0080;
pub const STATIC_CLASS_ATOM: u16 = 0x0082;

/// The style of the dialog box itself.
pub const DIALOG_STYLE: u32 = 0x10C8_08D8;
/// The style of the static label.
pub const LABEL_STYLE: u32 = 0x5000_0000;
/// The style of the buttons.
pub const BUTTON_STYLE: u32 = 0x5001_0000;

/// A 16-bit value in little-endian byte order.
pub open spec fn le16(v: u16) -> Seq<u8> {
    seq![(v % 0x100) as u8, (v / 0x100) as u8]
}

/// A 32-bit value in little-endian byte order.
pub open spec fn le32(v: u32) -> Seq<u8> {
    seq![
        (v % 0x100) as u8,
        ((v / 0x100) % 0x100) as u8,
        ((v / 0x10000) % 0x100) as u8,
        (v / 0x1000000) as u8,
    ]
}

/// UTF-16 units in little-endian byte order.
pub open spec fn units_le(units: Seq<u16>) -> Seq<u8>
    decreases units.len(),
{
    if units.len() == 0 {
        Seq::empty()
    } else {
        units_le(units.drop_last()) + le16(units.last())
    }
}

/// The zero bytes that bring a length up to a multiple of four.
pub open spec fn padding(len: nat) -> Seq<u8> {
    Seq::new(((4 - len % 4) % 4) as nat, |i: int| 0u8)
}

/// Bytes followed by zeros up to the next four-byte boundary.
pub open spec fn aligned(b: Seq<u8>) -> Seq<u8> {
    b + padding(b.len())
}

/// One control of a dialog template: style, extended style, position and
/// size in dialog units, identifier, the class as a predefined atom, the
/// title, and an empty block of creation data.
pub open spec fn item_bytes(
    style: u32,
    x: u16,
    y: u16,
    cx: u16,
    cy: u16,
    id: u16,
    class_atom: u16,
    title: Seq<u16>,
) -> Seq<u8> {
    le32(style) + le32(0) + le16(x) + le16(y) + le16(cx) + le16(cy) + le16(id) + le16(0xFFFF)
        + le16(class_atom) + units_le(title) + le16(0)
}

/// The dialog header: style, no extended style, four controls, position and
/// size, no menu, the default class, the title, and the font.
pub open spec fn header_bytes() -> Seq<u8> {
    le32(DIALOG_STYLE) + le32(0) + le16(4) + le16(0) + le16(0) + le16(240) + le16(80) + le16(0)
        + le16(0) + units_le(wide_text("Settings - Shortcuts"@)) + le16(10) + units_le(
        wide_text("Segoe UI"@),
    )
}

/// The whole template of the settings dialog: the header, then a label, the
/// clear button, OK and Cancel, each starting on a four-byte boundary.
pub open spec fn settings_template() -> Seq<u8> {
    let b0 = aligned(header_bytes());
    let b1 = aligned(b0) + item_bytes(
        LABEL_STYLE,
        10,
        12,
        80,
        12,
        0,
        STATIC_CLASS_ATOM,
        wide_text("Toggle shortcut:"@),
    );
    let b2 = aligned(b1) + item_bytes(
        BUTTON_STYLE,
        210,
        10,
        20,
        16,
        IDC_TOGGLE_HOTKEY_CLEAR,
        BUTTON_CLASS_ATOM,
        wide_text("X"@),
    );
    let b3 = aligned(b2) + item_bytes(
        BUTTON_STYLE,
        120,
        55,
        50,
        14,
        IDC_OK,
        BUTTON_CLASS_ATOM,
        wide_text("OK"@),
    );
    aligned(b3) + item_bytes(
        BUTTON_STYLE,
        180,
        55,
        50,
        14,
        IDC_CANCEL,
        BUTTON_CLASS_ATOM,
        wide_text("Cancel"@),
    )
}

fn write_u16(buffer: &mut Vec<u8>, val: u16)
    ensures
        final(buffer)@ == old(buffer)@ + le16(val),
{
    let lo = (val & 0xFF) as u8;
    let hi = (val >> 8) as u8;
    assert(lo == val % 0x100 && hi == val / 0x100) by (bit_vector)
        requires
            lo == (val & 0xFF) as u8,
            hi == (val >> 8) as u8,
    ;
    buffer.push(lo);
    buffer.push(hi);
    proof {
        assert(final(buffer)@ =~= old(buffer)@ + le16(val));
    }
}

fn write_u32(buffer: &mut Vec<u8>, val: u32)
    ensures
        final(buffer)@ == old(buffer)@ + le32(val),
{
    let b0 = (val & 0xFF) as u8;
    let b1 = ((val >> 8) & 0xFF) as u8;
    let b2 = ((val >> 16) & 0xFF) as u8;
    let b3 = (val >> 24) as u8;
    assert(b0 == val % 0x100 && b1 == (val / 0x100) % 0x100 && b2 == (val / 0x10000) % 0x100
        && b3 == val / 0x1000000) by (bit_vector)
        requires
            b0 == (val & 0xFF) as u8,
            b1 == ((val >> 8) & 0xFF) as u8,
            b2 == ((val >> 16) & 0xFF) as u8,
            b3 == (val >> 24) as u8,
    ;
    buffer.push(b0);
    buffer.push(b1);
    buffer.push(b2);
    buffer.push(b3);
    proof {
        assert(final(buffer)@ =~= old(buffer)@ + le32(val));
    }
}

fn write_units(buffer: &mut Vec<u8>, units: &Vec<u16>)
    ensures
        final(buffer)@ == old(buffer)@ + units_le(units@),
{
    let ghost start = buffer@;
    let mut i: usize = 0;
    while i < units.len()
        invariant
            i <= units@.len(),
            buffer@ == start + units_le(units@.subrange(0, i as int)),
        decreases units@.len() - i,
    {
        write_u16(buffer, units[i]);
        proof {
            assert(units@.subrange(0, i + 1).drop_last() =~= units@.subrange(0, i as int));
            assert(buffer@ =~= start + units_le(units@.subrange(0, i + 1)));
        }
        i = i + 1;
    }
    proof {
        assert(units@.subrange(0, units@.len() as int) =~= units@);
    }
}

fn align_dword(buffer: &mut Vec<u8>)
    ensures
        final(buffer)@ == aligned(old(buffer)@),
{
    let ghost start = buffer@;
    while buffer.len() % 4 != 0
        invariant
            buffer@.len() >= start.len(),
            buffer@.len() - start.len() <= (4 - start.len() % 4) % 4,
            buffer@.len() - start.len() == (4 - start.len() % 4) % 4 ==> buffer@.len() % 4 == 0,
            buffer@ =~= start + Seq::new((buffer@.len() - start.len()) as nat, |i: int| 0u8),
        decreases (4 - start.len() % 4) % 4 - (buffer@.len() - start.len()),
    {
        buffer.push(0);
        proof {
            assert(buffer@ =~= start + Seq::new((buffer@.len() - start.len()) as nat, |i: int| 0u8));
        }
    }
    proof {
        assert(buffer@ =~= aligned(start));
    }
}

fn write_item(
    buffer: &mut Vec<u8>,
    style: u32,
    x: u16,
    y: u16,
    cx: u16,
    cy: u16,
    id: u16,
    class_atom: u16,
    title: &Vec<u16>,
)
    ensures
        final(buffer)@ == aligned(old(buffer)@) + item_bytes(style, x, y, cx, cy, id, class_atom, title@),
{
    align_dword(buffer);
    write_u32(buffer, style);
    write_u32(buffer, 0);
    write_u16(buffer, x);
    write_u16(buffer, y);
    write_u16(buffer, cx);
    write_u16(buffer, cy);
    write_u16(buffer, id);
    write_u16(buffer, 0xFFFF);
    write_u16(buffer, class_atom);
    write_units(buffer, title);
    write_u16(buffer, 0);
    proof {
        assert(final(buffer)@ =~= aligned(old(buffer)@) + item_bytes(style, x, y, cx, cy, id, class_atom, title@));
    }
}

/// The bytes of the settings dialog template.
pub fn create_settings_dialog_template() -> (buffer: Vec<u8>)
    ensures
        buffer@ == settings_template(),
{
    let mut buffer: Vec<u8> = Vec::new();
    let style = DS_CENTER | DS_MODALFRAME | DS_SHELLFONT | WS_CAPTION | WS_VISIBLE | WS_SYSMENU;
    assert(0x800u32 | 0x80u32 | 0x58u32 | 0x00C0_0000u32 | 0x1000_0000u32 | 0x0008_0000u32
        == 0x10C8_08D8u32) by (bit_vector);
    write_u32(&mut buffer, style);
    write_u32(&mut buffer, 0);
    write_u16(&mut buffer, 4);
    write_u16(&mut buffer, 0);
    write_u16(&mut buffer, 0);
    write_u16(&mut buffer, 240);
    write_u16(&mut buffer, 80);
    write_u16(&mut buffer, 0);
    write_u16(&mut buffer, 0);
    let title = to_wide("Settings - Shortcuts");
    write_units(&mut buffer, &title);
    write_u16(&mut buffer, 10);
    let font_name = to_wide("Segoe UI");
    write_units(&mut buffer, &font_name);
    proof {
        assert(buffer@ =~= header_bytes());
    }
    align_dword(&mut buffer);

    let label_style = WS_CHILD | WS_VISIBLE;
    assert(0x4000_0000u32 | 0x1000_0000u32 == 0x5000_0000u32) by (bit_vector);
    let label1 = to_wide("Toggle shortcut:");
    write_item(&mut buffer, label_style, 10, 12, 80, 12, 0, STATIC_CLASS_ATOM, &label1);

    let btn_style = WS_CHILD | WS_VISIBLE | WS_TABSTOP;
    assert(0x4000_0000u32 | 0x1000_0000u32 | 0x0001_0000u32 == 0x5001_0000u32) by (bit_vector);
    let btn_label = to_wide("X");
    write_item(
        &mut buffer,
        btn_style,
        210,
        10,
        20,
        16,
        IDC_TOGGLE_HOTKEY_CLEAR,
        BUTTON_CLASS_ATOM,
        &btn_label,
    );

    let ok_label = to_wide("OK");
    write_item(&mut buffer, btn_style, 120, 55, 50, 14, IDC_OK, BUTTON_CLASS_ATOM, &ok_label);

    let cancel_label = to_wide("Cancel");
    write_item(&mut buffer, btn_style, 180, 55, 50, 14, IDC_CANCEL, BUTTON_CLASS_ATOM, &cancel_label);
    buffer
}

/// What a command from a control of the settings dialog stands for.
#[derive(Clone, Copy, Debug, PartialEq, Eq, Structural)]
pub enum DialogCommand {
    ClearShortcut,
    Accept,
    Cancel,
    Other,
}

/// The command of a `WM_COMMAND` message, by the control identifier in the
/// low half of its first parameter.
pub open spec fn dialog_command_of(wparam: usize) -> DialogCommand {
    let id = low_word(wparam as u32);
    if id == IDC_TOGGLE_HOTKEY_CLEAR {
        DialogCommand::ClearShortcut
    } else if id == IDC_OK {
        DialogCommand::Accept
    } else if id == IDC_CANCEL {
        DialogCommand::Cancel
    } else {
        DialogCommand::Other
    }
}

pub fn dialog_command(wparam: usize) -> (c: DialogCommand)
    ensures
        c == dialog_command_of(wparam),
{
    let id = loword(wparam as u32);
    if id == IDC_TOGGLE_HOTKEY_CLEAR as u32 {
        DialogCommand::ClearShortcut
    } else if id == IDC_OK as u32 {
        DialogCommand::Accept
    } else if id == IDC_CANCEL as u32 {
        DialogCommand::Cancel
    } else {
        DialogCommand::Other
    }
}

/// Every control of the template starts on a four-byte boundary, as the
/// dialog manager requires.
pub proof fn lemma_aligned_boundary(b: Seq<u8>)
    ensures
        aligned(b).len() % 4 == 0,
        aligned(b).subrange(0, b.len() as int) == b,
        aligned(aligned(b)) == aligned(b),
{
    assert(aligned(b).subrange(0, b.len() as int) =~= b);
    assert(padding(aligned(b).len()) =~= Seq::<u8>::empty());
    assert(aligned(aligned(b)) =~= aligned(b));
}

} // verus!
