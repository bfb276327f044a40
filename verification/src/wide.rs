//! Text in the form the Win32 API takes it: UTF-16 code units ending in a
//! zero unit.

use vstd::prelude::*;

verus! {

/// The UTF-16 code units of one character: one unit inside the basic
/// multilingual plane, a surrogate pair beyond it.
pub open spec fn utf16_of_char(c: char) -> Seq<u16> {
    let v = c as u32;
    if v < 0x10000 {
        seq![v as u16]
    } else {
        let u = (v - 0x10000) as u32;
        seq![(0xD800 + u / 0x400) as u16, (0xDC00 + u % 0x400) as u16]
    }
}

/// The UTF-16 code units of a text.
pub open spec fn utf16_of(s: Seq<char>) -> Seq<u16>
    decreases s.len(),
{
    if s.len() == 0 {
        Seq::empty()
    } else {
        utf16_of(s.drop_last()) + utf16_of_char(s.last())
    }
}

/// A text as the Win32 API takes it: its UTF-16 code units and a zero unit.
pub open spec fn wide_text(s: Seq<char>) -> Seq<u16> {
    utf16_of(s).push(0)
}

/// Whether every character of a text is ASCII.
pub open spec fn all_ascii(s: Seq<char>) -> bool {
    forall|i: int| 0 <= i < s.len() ==> (s[i] as u32) < 0x80
}

/// The UTF-16 form of an ASCII text has one unit per character, of the same
/// value.
pub proof fn lemma_ascii_utf16(s: Seq<char>)
    requires
        all_ascii(s),
    ensures
        utf16_of(s) == s.map_values(|c: char| (c as u32) as u16),
    decreases s.len(),
{
    if s.len() > 0 {
        let init = s.drop_last();
        assert forall|i: int| 0 <= i < init.len() implies (init[i] as u32) < 0x80 by {
            assert(init[i] == s[i]);
        }
        lemma_ascii_utf16(init);
        assert((s[s.len() - 1] as u32) < 0x80);
        assert(utf16_of(s) =~= s.map_values(|c: char| (c as u32) as u16));
    }
}

/// A text has at least one and at most two UTF-16 units per character.
pub proof fn lemma_utf16_len_bounds(s: Seq<char>)
    ensures
        s.len() <= utf16_of(s).len() <= 2 * s.len(),
    decreases s.len(),
{
    if s.len() > 0 {
        lemma_utf16_len_bounds(s.drop_last());
    }
}

fn push_utf16(units: &mut Vec<u16>, c: char)
    ensures
        final(units)@ == old(units)@ + utf16_of_char(c),
{
    let v = c as u32;
    if v < 0x10000 {
        units.push(v as u16);
    } else {
        let u = v - 0x10000;
        assert(u < 0x100000) by {
            assert(v <= 0x10FFFF);
        }
        units.push((0xD800 + u / 0x400) as u16);
        units.push((0xDC00 + u % 0x400) as u16);
    }
    proof {
        assert(final(units)@ =~= old(units)@ + utf16_of_char(c));
    }
}

/// A text as UTF-16 code units followed by a zero unit.
pub fn to_wide(value: &str) -> (units: Vec<u16>)
    ensures
        units@ == wide_text(value@),
{
    let n = value.unicode_len();
    let mut units: Vec<u16> = Vec::new();
    let mut i: usize = 0;
    while i < n
        invariant
            n == value@.len(),
            i <= n,
            units@ == utf16_of(value@.subrange(0, i as int)),
        decreases n - i,
    {
        let c = value.get_char(i);
        push_utf16(&mut units, c);
        proof {
            assert(value@.subrange(0, i + 1).drop_last() =~= value@.subrange(0, i as int));
        }
        i = i + 1;
    }
    units.push(0);
    proof {
        assert(value@.subrange(0, n as int) =~= value@);
    }
    units
}

/// The contents of a fixed-size buffer after a text was copied into it: as
/// many UTF-16 units of the text as fit before the last slot, then a zero
/// unit; the rest of the buffer is left as it was.
pub open spec fn filled(buffer: Seq<u16>, value: Seq<char>) -> Seq<u16> {
    let units = utf16_of(value);
    let n = if buffer.len() - 1 < units.len() {
        buffer.len() - 1
    } else {
        units.len() as int
    };
    units.subrange(0, n) + seq![0u16] + buffer.subrange(n + 1, buffer.len() as int)
}

/// Copies a text into a fixed-size buffer, cutting it short where it does
/// not fit, and ends it with a zero unit.
pub fn fill_wide_buffer(buffer: &mut [u16], value: &str)
    requires
        old(buffer)@.len() > 0,
    ensures
        final(buffer)@ == filled(old(buffer)@, value@),
{
    let wide = to_wide(value);
    let room = buffer.len() - 1;
    let text_len = wide.len() - 1;
    let max_len = if room < text_len {
        room
    } else {
        text_len
    };
    let ghost old_buffer = buffer@;
    let mut i: usize = 0;
    while i < max_len
        invariant
            max_len <= room,
            room == old_buffer.len() - 1,
            max_len <= text_len,
            text_len + 1 == wide@.len(),
            wide@ == wide_text(value@),
            i <= max_len,
            buffer@.len() == old_buffer.len(),
            forall|j: int| 0 <= j < i ==> buffer@[j] == wide@[j],
            forall|j: int| i <= j < buffer@.len() ==> buffer@[j] == old_buffer[j],
        decreases max_len - i,
    {
        buffer[i] = wide[i];
        i = i + 1;
    }
    buffer[max_len] = 0;
    proof {
        let units = utf16_of(value@);
        assert(units.len() == text_len);
        assert forall|j: int| 0 <= j < max_len implies wide@[j] == units[j] by {
            assert(wide@ == units.push(0));
        }
        assert(buffer@ =~= filled(old_buffer, value@));
    }
}

} // verus!
