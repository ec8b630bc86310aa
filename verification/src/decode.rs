//! The decoders: one dependency relation, or one entry of the file
//! manifest, to one row of the output.

use crate::flags::{flags_label, flags_to_label};
use crate::metadata::{
    DependencyRelation,
    DependencyView,
    FileEntry,
    FileEntryView,
    FileMode,
    FileModeView,
};
use crate::permissions::{
    indicator_of_known_kinds,
    mode_bits,
    mode_of,
    symbolic,
    symbolic_mode,
    DIRECTORY,
    REGULAR_FILE,
    SYMBOLIC_LINK,
};
use crate::record::{Row, RowView, Scalar, ScalarView};
use crate::text::{signed_decimal, signed_decimal_string};
use crate::time::{as_signed, to_instant, to_signed};
use vstd::prelude::*;

verus! {

/// The row that stands for a dependency relation.
pub open spec fn dependency_row(dep: DependencyView) -> RowView {
    seq![
        ("name"@, ScalarView::Text(dep.name)),
        ("flags"@, ScalarView::Text(flags_label(dep.flags))),
        ("version"@, ScalarView::Text(dep.version)),
    ]
}

/// Decodes a dependency relation: its name and version as they are, its
/// flags as a label.
pub fn dep_to_record(dep: &DependencyRelation) -> (row: Row)
    ensures
        row@ == dependency_row(dep@),
        dep.flags == 0 ==> row@[1].1 == ScalarView::Text(Seq::empty()),
{
    let label = flags_to_label(dep.flags);
    let mut row = Row::new();
    row.push("name", Scalar::Text(dep.name.clone()));
    row.push("flags", Scalar::Text(label));
    row.push("version", Scalar::Text(dep.version.clone()));
    assert(row@ =~= dependency_row(dep@));
    row
}

/// The label for the kind of a file.
pub open spec fn type_label(mode: FileModeView) -> Seq<char> {
    match mode {
        FileModeView::Directory { .. } => "dir"@,
        FileModeView::RegularFile { .. } => "file"@,
        FileModeView::SymbolicLink { .. } => "symlink"@,
        FileModeView::Invalid { .. } => "invalid"@,
        FileModeView::Other => Seq::empty(),
    }
}

/// The text for the mode of a file: for a directory, a regular file or a
/// symbolic link, the symbolic form of its mode, which is the indicator of
/// its kind and its permissions; for an invalid mode, the stored number and
/// the reason with one space between them; nothing for another kind of
/// file.
pub open spec fn mode_text(mode: FileModeView) -> Seq<char> {
    match mode {
        FileModeView::Directory { permissions } => symbolic(mode_bits(DIRECTORY, permissions)),
        FileModeView::RegularFile { permissions } => symbolic(
            mode_bits(REGULAR_FILE, permissions),
        ),
        FileModeView::SymbolicLink { permissions } => symbolic(
            mode_bits(SYMBOLIC_LINK, permissions),
        ),
        FileModeView::Invalid { raw, reason } => signed_decimal(raw as int) + seq![' '] + reason,
        FileModeView::Other => Seq::empty(),
    }
}

/// The text of a path: the path itself, or nothing where it is not text.
pub open spec fn path_text(path: Option<Seq<char>>) -> Seq<char> {
    match path {
        Some(p) => p,
        None => Seq::empty(),
    }
}

/// The row that stands for an entry of the file manifest.
pub open spec fn file_row(entry: FileEntryView) -> RowView {
    seq![
        ("path"@, ScalarView::Text(path_text(entry.path))),
        ("type"@, ScalarView::Text(type_label(entry.mode))),
        ("mode"@, ScalarView::Text(mode_text(entry.mode))),
        ("user"@, ScalarView::Text(entry.user)),
        ("group"@, ScalarView::Text(entry.group)),
        ("modified_at"@, ScalarView::Date(entry.modified_at as int)),
        ("size"@, ScalarView::Size(as_signed(entry.size) as int)),
        ("linkto"@, ScalarView::Text(entry.linkto)),
    ]
}

/// Classifies the mode of a file: the label for its kind and the text for
/// its mode.
pub fn decode_mode(mode: &FileMode) -> (r: (String, String))
    ensures
        r.0@ == type_label(mode@),
        r.1@ == mode_text(mode@),
        mode@ matches FileModeView::Invalid { raw, reason } ==> r.0@ == "invalid"@ && r.1@
            == signed_decimal(raw as int) + seq![' '] + reason,
        (mode@ is Directory || mode@ is RegularFile || mode@ is SymbolicLink) ==> r.1@.len() == 10,
        mode@ is Directory ==> r.1@[0] == 'd',
        mode@ is RegularFile ==> r.1@[0] == '-',
        mode@ is SymbolicLink ==> r.1@[0] == 'l',
{
    match mode {
        FileMode::Directory { permissions } => {
            proof {
                indicator_of_known_kinds(*permissions);
            }
            (String::from_str("dir"), symbolic_mode(mode_of(DIRECTORY, *permissions)))
        },
        FileMode::RegularFile { permissions } => {
            proof {
                indicator_of_known_kinds(*permissions);
            }
            (String::from_str("file"), symbolic_mode(mode_of(REGULAR_FILE, *permissions)))
        },
        FileMode::SymbolicLink { permissions } => {
            proof {
                indicator_of_known_kinds(*permissions);
            }
            (String::from_str("symlink"), symbolic_mode(mode_of(SYMBOLIC_LINK, *permissions)))
        },
        FileMode::Invalid { raw, reason } => {
            let mut text = signed_decimal_string(*raw as i64);
            proof {
                reveal_strlit(" ");
                assert(" "@ =~= seq![' ']);
            }
            text.append(" ");
            text.append(reason.as_str());
            (String::from_str("invalid"), text)
        },
        FileMode::Other => (String::new(), String::new()),
    }
}

/// Decodes an entry of the file manifest.
pub fn file_entry_to_record(entry: &FileEntry) -> (row: Row)
    ensures
        row@ == file_row(entry@),
        entry.mode@ matches FileModeView::Invalid { raw, reason } ==> row@[1].1
            == ScalarView::Text("invalid"@) && row@[2].1 == ScalarView::Text(
            signed_decimal(raw as int) + seq![' '] + reason,
        ),
        (entry.mode@ is Directory || entry.mode@ is RegularFile || entry.mode@ is SymbolicLink)
            ==> (row@[2].1 matches ScalarView::Text(m) && m.len() == 10),
        entry.mode@ is Directory ==> (row@[2].1 matches ScalarView::Text(m) && m[0] == 'd'),
        entry.mode@ is RegularFile ==> (row@[2].1 matches ScalarView::Text(m) && m[0] == '-'),
        entry.mode@ is SymbolicLink ==> (row@[2].1 matches ScalarView::Text(m) && m[0] == 'l'),
        row@[5].1 == ScalarView::Date(entry.modified_at as int),
{
    let path = match &entry.path {
        Some(p) => p.clone(),
        None => String::new(),
    };
    let (kind, mode) = decode_mode(&entry.mode);
    let mut row = Row::new();
    row.push("path", Scalar::Text(path));
    row.push("type", Scalar::Text(kind));
    row.push("mode", Scalar::Text(mode));
    row.push("user", Scalar::Text(entry.user.clone()));
    row.push("group", Scalar::Text(entry.group.clone()));
    row.push("modified_at", Scalar::Date(to_instant(entry.modified_at as i64)));
    row.push("size", Scalar::Size(to_signed(entry.size)));
    row.push("linkto", Scalar::Text(entry.linkto.clone()));
    assert(row@ =~= file_row(entry@));
    row
}

} // verus!
