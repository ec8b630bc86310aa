//! The symbolic form of Unix mode bits, as a long listing shows it.

use vstd::prelude::*;

verus! {

/// The bits of a mode that say that the file is a directory.
pub const DIRECTORY: u32 = 0o040000;

/// The bits of a mode that say that the file is a regular file.
pub const REGULAR_FILE: u32 = 0o100000;

/// The bits of a mode that say that the file is a symbolic link.
pub const SYMBOLIC_LINK: u32 = 0o120000;

/// The mode of a file of one kind: the bits of the kind and, below them,
/// the twelve permission bits.
pub open spec fn mode_bits(kind: u32, permissions: u16) -> u32 {
    kind | (permissions as u32 & 0o7777u32)
}

/// Puts the bits of a kind of file above twelve permission bits.
pub fn mode_of(kind: u32, permissions: u16) -> (mode: u32)
    ensures
        mode == mode_bits(kind, permissions),
{
    kind | (permissions as u32 & 0o7777u32)
}

/// The character with which a long listing marks the kind of a file, by
/// the four bits of the mode above the permissions.
pub open spec fn kind_indicator(mode: u32) -> char {
    let kind = (mode >> 12) & 0o17;
    if kind == 0o001 {
        'p'
    } else if kind == 0o002 {
        'c'
    } else if kind == 0o004 {
        'd'
    } else if kind == 0o006 {
        'b'
    } else if kind == 0o010 {
        '-'
    } else if kind == 0o012 {
        'l'
    } else if kind == 0o014 {
        's'
    } else if kind == 0o016 {
        'w'
    } else {
        '?'
    }
}

/// The indicator of a directory, of a regular file and of a symbolic link,
/// whatever the permissions.
pub proof fn indicator_of_known_kinds(permissions: u16)
    ensures
        kind_indicator(mode_bits(DIRECTORY, permissions)) == 'd',
        kind_indicator(mode_bits(REGULAR_FILE, permissions)) == '-',
        kind_indicator(mode_bits(SYMBOLIC_LINK, permissions)) == 'l',
{
    let p: u32 = permissions as u32;
    assert(((0o040000u32 | (p & 0o7777u32)) >> 12) & 0o17 == 0o004) by (bit_vector);
    assert(((0o100000u32 | (p & 0o7777u32)) >> 12) & 0o17 == 0o010) by (bit_vector);
    assert(((0o120000u32 | (p & 0o7777u32)) >> 12) & 0o17 == 0o012) by (bit_vector);
}

/// The ten characters that `unix_mode::to_string` gives for `mode`.
pub uninterp spec fn symbolic(mode: u32) -> Seq<char>;

/// Calls `unix_mode::to_string`.
///
/// Trusted: that the text is a function of the mode bits alone; that it has
/// ten characters, one for the kind of file and nine for the permissions;
/// and that the first is the indicator of the kind.
#[verifier::external_body]
pub(crate) fn symbolic_mode(mode: u32) -> (s: String)
    ensures
        s@ == symbolic(mode),
        s@.len() == 10,
        s@[0] == kind_indicator(mode),
{
    unix_mode::to_string(mode)
}

} // verus!
