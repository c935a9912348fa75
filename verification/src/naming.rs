//! The names of the written tiles and the lines of the manifest.

use vstd::prelude::*;
use vstd::string::StringExecFns;
use vstd::string::StrSliceExecFns;
use crate::label::Label;
use crate::return_type::ImgFormat;
use crate::text::{find_from, first_of};

verus! {

/// The character of a decimal digit.
pub open spec fn digit(d: nat) -> char {
    if d == 0 {
        '0'
    } else if d == 1 {
        '1'
    } else if d == 2 {
        '2'
    } else if d == 3 {
        '3'
    } else if d == 4 {
        '4'
    } else if d == 5 {
        '5'
    } else if d == 6 {
        '6'
    } else if d == 7 {
        '7'
    } else if d == 8 {
        '8'
    } else {
        '9'
    }
}

/// A number in decimal notation, without leading zeros.
pub open spec fn decimal(n: nat) -> Seq<char>
    decreases n,
{
    if n < 10 {
        seq![digit(n)]
    } else {
        decimal(n / 10).push(digit(n % 10))
    }
}

/// The part of a file name before its first dot; the whole name where it
/// has none.
pub open spec fn stem(name: Seq<char>) -> Seq<char> {
    name.take(first_of(name, '.') as int)
}

/// The tag of a rotation index in a file name.
pub open spec fn rotation_tag(rotation: u8) -> Seq<char> {
    if rotation == 0 {
        seq!['0', '0', '0', 'd', 'e', 'g']
    } else if rotation == 1 {
        seq!['0', '9', '0', 'd', 'e', 'g']
    } else if rotation == 2 {
        seq!['1', '8', '0', 'd', 'e', 'g']
    } else if rotation == 3 {
        seq!['2', '7', '0', 'd', 'e', 'g']
    } else {
        seq!['e', 'r', 'r']
    }
}

/// The part of a file name that tells the label.
pub open spec fn label_suffix(label: Option<Label>) -> Seq<char> {
    match label {
        Some(l) => seq!['_'] + l.display_name(),
        None => Seq::empty(),
    }
}

/// The file name of a tile:
/// `<stem>_<x>_<y>_<rotation tag>[_<label>]<extension>`.
pub open spec fn tile_name(
    source: Seq<char>,
    x: u32,
    y: u32,
    rotation: u8,
    label: Option<Label>,
    format: ImgFormat,
) -> Seq<char> {
    stem(source) + seq!['_'] + decimal(x as nat) + seq!['_'] + decimal(y as nat) + seq!['_']
        + rotation_tag(rotation) + label_suffix(label) + format.extension()
}

/// The line of the manifest for a written tile.
pub open spec fn manifest_line(name: Seq<char>) -> Seq<char> {
    seq!['/'] + name + seq!['\n']
}

fn digit_str(d: u32) -> (s: &'static str)
    requires
        d < 10,
    ensures
        s@ == seq![digit(d as nat)],
{
    proof {
        reveal_strlit("0");
        reveal_strlit("1");
        reveal_strlit("2");
        reveal_strlit("3");
        reveal_strlit("4");
        reveal_strlit("5");
        reveal_strlit("6");
        reveal_strlit("7");
        reveal_strlit("8");
        reveal_strlit("9");
    }
    let s = if d == 0 {
        "0"
    } else if d == 1 {
        "1"
    } else if d == 2 {
        "2"
    } else if d == 3 {
        "3"
    } else if d == 4 {
        "4"
    } else if d == 5 {
        "5"
    } else if d == 6 {
        "6"
    } else if d == 7 {
        "7"
    } else if d == 8 {
        "8"
    } else {
        "9"
    };
    s
}

/// Appends `n` in decimal notation.
pub fn push_decimal(out: &mut String, n: u32)
    ensures
        final(out)@ == old(out)@ + decimal(n as nat),
    decreases n,
{
    if n >= 10 {
        push_decimal(out, n / 10);
    }
    out.append(digit_str(n % 10));
}

/// The part of a file name before its first dot.
pub fn stem_of(name: &str) -> (s: &str)
    ensures
        s@ == stem(name@),
{
    let at = find_from(name, 0, '.');
    assert(name@.skip(0) =~= name@);
    name.substring_char(0, at)
}

fn rotation_tag_str(rotation: u8) -> (s: &'static str)
    ensures
        s@ == rotation_tag(rotation),
{
    proof {
        reveal_strlit("000deg");
        reveal_strlit("090deg");
        reveal_strlit("180deg");
        reveal_strlit("270deg");
        reveal_strlit("err");
    }
    let s = if rotation == 0 {
        "000deg"
    } else if rotation == 1 {
        "090deg"
    } else if rotation == 2 {
        "180deg"
    } else if rotation == 3 {
        "270deg"
    } else {
        "err"
    };
    s
}

/// The file name of the tile of `source` at `(x, y)` with the given
/// rotation index, label and output format.
pub fn tile_file_name(
    source: &str,
    x: u32,
    y: u32,
    rotation: u8,
    label: Option<Label>,
    format: &ImgFormat,
) -> (name: String)
    ensures
        name@ == tile_name(source@, x, y, rotation, label, *format),
{
    proof {
        reveal_strlit("_");
    }
    let mut name = String::from_str(stem_of(source));
    name.append("_");
    push_decimal(&mut name, x);
    name.append("_");
    push_decimal(&mut name, y);
    name.append("_");
    name.append(rotation_tag_str(rotation));
    match label {
        Some(l) => {
            name.append("_");
            name.append(l.name());
        },
        None => {},
    }
    name.append(format.extension_str());
    name
}

/// Appends the manifest line of a written tile.
pub fn push_manifest_line(manifest: &mut String, name: &str)
    ensures
        final(manifest)@ == old(manifest)@ + manifest_line(name@),
{
    proof {
        reveal_strlit("/");
        reveal_strlit("\n");
    }
    manifest.append("/");
    manifest.append(name);
    manifest.append("\n");
}

} // verus!
