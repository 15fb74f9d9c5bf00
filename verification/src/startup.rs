//! The Windows startup entry: the command line registered to start the
//! program into the tray, and its encoding as a registry string value
//! (NUL-terminated UTF-16, little-endian bytes).
use vstd::prelude::*;

verus! {

/// The command line registered for startup: the quoted executable path
/// followed by the startup flag.
pub open spec fn startup_command_text(exe_path: Seq<char>) -> Seq<char> {
    "\""@ + exe_path + "\" --startup"@
}

pub fn startup_command(exe_path: &str) -> (r: String)
    ensures
        r@ == startup_command_text(exe_path@),
{
    let mut s = String::from_str("\"");
    s.append(exe_path);
    s.append("\" --startup");
    s
}

/// The UTF-16 code units of one character: one unit inside the basic
/// plane, a surrogate pair above it.
pub open spec fn utf16_units(c: char) -> Seq<u16> {
    let v = c as u32;
    if v < 0x10000 {
        seq![v as u16]
    } else {
        let w = (v - 0x10000) as int;
        seq![(0xD800 + w / 0x400) as u16, (0xDC00 + w % 0x400) as u16]
    }
}

/// The UTF-16 encoding of a text.
pub open spec fn utf16_of(s: Seq<char>) -> Seq<u16>
    decreases s.len(),
{
    if s.len() == 0 {
        Seq::empty()
    } else {
        utf16_of(s.drop_last()) + utf16_units(s.last())
    }
}

/// The little-endian bytes of a sequence of 16-bit units.
pub open spec fn le_bytes(units: Seq<u16>) -> Seq<u8>
    decreases units.len(),
{
    if units.len() == 0 {
        Seq::empty()
    } else {
        le_bytes(units.drop_last()) + seq![
            (units.last() % 256) as u8,
            (units.last() / 256) as u8,
        ]
    }
}

fn push_unit_bytes(bytes: &mut Vec<u8>, unit: u16)
    ensures
        final(bytes)@ == old(bytes)@ + seq![(unit % 256) as u8, (unit / 256) as u8],
{
    bytes.push((unit % 256) as u8);
    bytes.push((unit / 256) as u8);
}

proof fn lemma_le_bytes_push(units: Seq<u16>, u: u16)
    ensures
        le_bytes(units.push(u)) == le_bytes(units) + seq![(u % 256) as u8, (u / 256) as u8],
{
    assert(units.push(u).drop_last() =~= units);
}

/// A text as a registry string value: its UTF-16 encoding with a
/// terminating NUL, each unit as two little-endian bytes.
pub fn registry_string_value(text: &str) -> (r: Vec<u8>)
    ensures
        r@ == le_bytes(utf16_of(text@).push(0u16)),
{
    let n = text.unicode_len();
    let mut bytes: Vec<u8> = Vec::new();
    let mut i: usize = 0;
    while i < n
        invariant
            n == text@.len(),
            i <= n,
            bytes@ == le_bytes(utf16_of(text@.subrange(0, i as int))),
        decreases n - i,
    {
        let c = text.get_char(i);
        let v = c as u32;
        let ghost prefix = utf16_of(text@.subrange(0, i as int));
        proof {
            let next = text@.subrange(0, i + 1);
            assert(next.drop_last() =~= text@.subrange(0, i as int));
            assert(next.last() == c);
        }
        if v < 0x10000 {
            let u = v as u16;
            push_unit_bytes(&mut bytes, u);
            proof {
                lemma_le_bytes_push(prefix, u);
                assert(prefix + utf16_units(c) =~= prefix.push(u));
            }
        } else {
            let w = v - 0x10000;
            let high = (0xD800 + w / 0x400) as u16;
            let low = (0xDC00 + w % 0x400) as u16;
            push_unit_bytes(&mut bytes, high);
            push_unit_bytes(&mut bytes, low);
            proof {
                lemma_le_bytes_push(prefix, high);
                lemma_le_bytes_push(prefix.push(high), low);
                assert(prefix + utf16_units(c) =~= prefix.push(high).push(low));
            }
        }
        i = i + 1;
    }
    proof {
        assert(text@.subrange(0, n as int) =~= text@);
        lemma_le_bytes_push(utf16_of(text@), 0u16);
    }
    push_unit_bytes(&mut bytes, 0);
    bytes
}

} // verus!
