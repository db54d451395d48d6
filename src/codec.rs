use vstd::prelude::*;
use vstd::string::*;

verus! {

/// Flag bit set while Shift is held.
pub const FLAG_SHIFT: u64 = 0x0002_0000;

/// Flag bit set while Control is held.
pub const FLAG_CONTROL: u64 = 0x0004_0000;

/// Flag bit set while Option (Alt) is held.
pub const FLAG_OPTION: u64 = 0x0008_0000;

/// Flag bit set while Command (Meta) is held.
pub const FLAG_COMMAND: u64 = 0x0010_0000;

/// Flag bit set while the Fn key is held.
pub const FLAG_FN: u64 = 0x0080_0000;

/// Whether every bit of `mask` is set in `flags`.
pub open spec fn has_flag(flags: u64, mask: u64) -> bool {
    flags & mask == mask
}

/// Whether every bit of `mask` is set in `flags`.
pub fn flag_set(flags: u64, mask: u64) -> (r: bool)
    ensures
        r == has_flag(flags, mask),
{
    flags & mask == mask
}

/// Whether the Fn bit is set.
pub open spec fn fn_held(flags: u64) -> bool {
    has_flag(flags, FLAG_FN)
}

/// Whether any of Control, Option, Shift or Command is set.
pub open spec fn other_modifiers_held(flags: u64) -> bool {
    has_flag(flags, FLAG_COMMAND) || has_flag(flags, FLAG_CONTROL) || has_flag(flags, FLAG_OPTION)
        || has_flag(flags, FLAG_SHIFT)
}

/// Symbolic name of a hardware key code; codes outside the table are "Unknown".
pub open spec fn key_name(keycode: i64) -> Seq<char> {
    match keycode {
        0 => "A"@,
        1 => "S"@,
        2 => "D"@,
        3 => "F"@,
        4 => "H"@,
        5 => "G"@,
        6 => "Z"@,
        7 => "X"@,
        8 => "C"@,
        9 => "V"@,
        11 => "B"@,
        12 => "Q"@,
        13 => "W"@,
        14 => "E"@,
        15 => "R"@,
        16 => "Y"@,
        17 => "T"@,
        18 => "1"@,
        19 => "2"@,
        20 => "3"@,
        21 => "4"@,
        22 => "6"@,
        23 => "5"@,
        24 => "="@,
        25 => "9"@,
        26 => "7"@,
        27 => "-"@,
        28 => "8"@,
        29 => "0"@,
        30 => "]"@,
        31 => "O"@,
        32 => "U"@,
        33 => "["@,
        34 => "I"@,
        35 => "P"@,
        36 => "Return"@,
        37 => "L"@,
        38 => "J"@,
        39 => "'"@,
        40 => "K"@,
        41 => ";"@,
        42 => "\\"@,
        43 => ","@,
        44 => "/"@,
        45 => "N"@,
        46 => "M"@,
        47 => "."@,
        48 => "Tab"@,
        49 => "Space"@,
        50 => "`"@,
        51 => "Delete"@,
        53 => "Escape"@,
        96 => "F5"@,
        97 => "F6"@,
        98 => "F7"@,
        99 => "F3"@,
        100 => "F8"@,
        101 => "F9"@,
        103 => "F11"@,
        109 => "F10"@,
        111 => "F12"@,
        118 => "F4"@,
        120 => "F2"@,
        122 => "F1"@,
        _ => "Unknown"@,
    }
}

/// Returns the symbolic name of `keycode`, or "Unknown" for a code outside the table.
pub fn keycode_to_string(keycode: i64) -> (r: String)
    ensures
        r@ == key_name(keycode),
{
    let name: &str = match keycode {
        0 => "A",
        1 => "S",
        2 => "D",
        3 => "F",
        4 => "H",
        5 => "G",
        6 => "Z",
        7 => "X",
        8 => "C",
        9 => "V",
        11 => "B",
        12 => "Q",
        13 => "W",
        14 => "E",
        15 => "R",
        16 => "Y",
        17 => "T",
        18 => "1",
        19 => "2",
        20 => "3",
        21 => "4",
        22 => "6",
        23 => "5",
        24 => "=",
        25 => "9",
        26 => "7",
        27 => "-",
        28 => "8",
        29 => "0",
        30 => "]",
        31 => "O",
        32 => "U",
        33 => "[",
        34 => "I",
        35 => "P",
        36 => "Return",
        37 => "L",
        38 => "J",
        39 => "'",
        40 => "K",
        41 => ";",
        42 => "\\",
        43 => ",",
        44 => "/",
        45 => "N",
        46 => "M",
        47 => ".",
        48 => "Tab",
        49 => "Space",
        50 => "`",
        51 => "Delete",
        53 => "Escape",
        96 => "F5",
        97 => "F6",
        98 => "F7",
        99 => "F3",
        100 => "F8",
        101 => "F9",
        103 => "F11",
        109 => "F10",
        111 => "F12",
        118 => "F4",
        120 => "F2",
        122 => "F1",
        _ => "Unknown",
    };
    name.to_owned()
}

/// `part` when `present`, nothing otherwise.
pub open spec fn part_if(present: bool, part: Seq<char>) -> Seq<char> {
    if present {
        part
    } else {
        Seq::empty()
    }
}

/// Canonical accelerator for a key press: "Fn", then the held modifiers among
/// Control, Option, Shift and Command in that order, then the key's name, joined by '+'.
pub open spec fn accelerator_of(flags: u64, keycode: i64) -> Seq<char> {
    "Fn"@ + part_if(has_flag(flags, FLAG_CONTROL), "+Control"@) + part_if(
        has_flag(flags, FLAG_OPTION),
        "+Option"@,
    ) + part_if(has_flag(flags, FLAG_SHIFT), "+Shift"@) + part_if(
        has_flag(flags, FLAG_COMMAND),
        "+Command"@,
    ) + "+"@ + key_name(keycode)
}

/// Appends `part` to `s` when `present`.
fn append_if(s: &mut String, present: bool, part: &str)
    ensures
        final(s)@ == old(s)@ + part_if(present, part@),
{
    if present {
        s.append(part);
    } else {
        assert(old(s)@ + part_if(present, part@) =~= old(s)@);
    }
}

/// Builds the canonical accelerator string for `flags` and `keycode`.
pub fn build_accelerator_string(flags: u64, keycode: i64) -> (r: String)
    ensures
        r@ == accelerator_of(flags, keycode),
{
    let mut s = String::from_str("Fn");
    append_if(&mut s, flag_set(flags, FLAG_CONTROL), "+Control");
    append_if(&mut s, flag_set(flags, FLAG_OPTION), "+Option");
    append_if(&mut s, flag_set(flags, FLAG_SHIFT), "+Shift");
    append_if(&mut s, flag_set(flags, FLAG_COMMAND), "+Command");
    s.append("+");
    let name = keycode_to_string(keycode);
    s.append(name.as_str());
    s
}

} // verus!
