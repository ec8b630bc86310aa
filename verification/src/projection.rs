//! The projection of package metadata onto the output record.
//!
//! Every field of the record is present whatever the archive carries: a
//! piece of metadata that is absent is replaced by the empty text, by a
//! size of zero, by the Unix epoch or by an empty table. Only the table of
//! files is left out, unless it was asked for.

use crate::decode::{dep_to_record, dependency_row, file_entry_to_record, file_row};
use crate::metadata::{
    entries_view,
    relations_view,
    script_view,
    text_view,
    DependencyRelation,
    DependencyView,
    FileEntry,
    FileEntryView,
    PackageMetadata,
    PackageView,
    Scriptlet,
};
use crate::record::{has_key, rows_view, Field, FieldView, OutputRecord, RecordView, Row, RowView, Scalar, ScalarView};
use crate::time::{as_signed, instant_or_epoch, to_instant, to_signed};
use vstd::prelude::*;

verus! {

/// A text field: the text, or the empty text where it is absent.
pub open spec fn text_field(text: Option<Seq<char>>) -> FieldView {
    FieldView::Value(
        ScalarView::Text(
            match text {
                Some(t) => t,
                None => Seq::empty(),
            },
        ),
    )
}

/// A size field: the size read as a signed number, or zero where it is
/// absent.
pub open spec fn size_field(size: Option<u64>) -> FieldView {
    FieldView::Value(
        ScalarView::Size(
            match size {
                Some(n) => as_signed(n) as int,
                None => 0,
            },
        ),
    )
}

/// A date field: the instant that the stored seconds stand for, or the Unix
/// epoch where they are absent or stand for no calendar date.
pub open spec fn date_field(seconds: Option<u64>) -> FieldView {
    FieldView::Value(
        ScalarView::Date(
            match seconds {
                Some(n) => instant_or_epoch(as_signed(n)) as int,
                None => 0,
            },
        ),
    )
}

/// The rows of a list of relations, in the order of the list; no rows
/// where the list is absent.
pub open spec fn relation_rows(list: Option<Seq<DependencyView>>) -> Seq<RowView> {
    match list {
        Some(l) => l.map_values(|d: DependencyView| dependency_row(d)),
        None => Seq::empty(),
    }
}

/// The rows of a file manifest, in the order of the manifest; no rows where
/// the manifest is absent.
pub open spec fn file_rows(list: Option<Seq<FileEntryView>>) -> Seq<RowView> {
    match list {
        Some(l) => l.map_values(|e: FileEntryView| file_row(e)),
        None => Seq::empty(),
    }
}

/// The fields that every record has, in their order.
pub open spec fn fixed_fields(md: PackageView) -> RecordView {
    seq![
        ("name"@, text_field(md.name)),
        ("version"@, text_field(md.version)),
        ("release"@, text_field(md.release)),
        ("arch"@, text_field(md.arch)),
        ("size"@, size_field(md.installed_size)),
        ("vendor"@, text_field(md.vendor)),
        ("url"@, text_field(md.url)),
        ("vcs"@, text_field(md.vcs)),
        ("license"@, text_field(md.license)),
        ("summary"@, text_field(md.summary)),
        ("description"@, text_field(md.description)),
        ("group"@, text_field(md.group)),
        ("packager"@, text_field(md.packager)),
        ("build_time"@, date_field(md.build_time)),
        ("build_host"@, text_field(md.build_host)),
        ("cookie"@, text_field(md.cookie)),
        ("source_rpm"@, text_field(md.source_rpm)),
        ("pre_install_script"@, text_field(md.pre_install_script)),
        ("post_install_script"@, text_field(md.post_install_script)),
        ("pre_uninstall_script"@, text_field(md.pre_uninstall_script)),
        ("post_uninstall_script"@, text_field(md.post_uninstall_script)),
        ("pre_trans_script"@, text_field(md.pre_trans_script)),
        ("post_trans_script"@, text_field(md.post_trans_script)),
        ("pre_untrans_script"@, text_field(md.pre_untrans_script)),
        ("post_untrans_script"@, text_field(md.post_untrans_script)),
        ("provides"@, FieldView::Table(relation_rows(md.provides))),
        ("requires"@, FieldView::Table(relation_rows(md.requires))),
        ("conflicts"@, FieldView::Table(relation_rows(md.conflicts))),
        ("obsoletes"@, FieldView::Table(relation_rows(md.obsoletes))),
        ("recommends"@, FieldView::Table(relation_rows(md.recommends))),
        ("suggests"@, FieldView::Table(relation_rows(md.suggests))),
    ]
}

/// The record that stands for the metadata of a package: the fixed fields
/// and, if the files were asked for, the table of files after them.
pub open spec fn projection(md: PackageView, show_files: bool) -> RecordView {
    if show_files {
        fixed_fields(md).push(("files"@, FieldView::Table(file_rows(md.files))))
    } else {
        fixed_fields(md)
    }
}

fn text_of(text: &Option<String>) -> (f: Field)
    ensures
        f@ == text_field(text_view(*text)),
{
    match text {
        Some(t) => Field::Value(Scalar::Text(t.clone())),
        None => Field::Value(Scalar::Text(String::new())),
    }
}

fn script_of(scriptlet: &Option<Scriptlet>) -> (f: Field)
    ensures
        f@ == text_field(script_view(*scriptlet)),
{
    match scriptlet {
        Some(s) => Field::Value(Scalar::Text(s.script.clone())),
        None => Field::Value(Scalar::Text(String::new())),
    }
}

fn size_of(size: &Option<u64>) -> (f: Field)
    ensures
        f@ == size_field(*size),
{
    match size {
        Some(n) => Field::Value(Scalar::Size(to_signed(*n))),
        None => Field::Value(Scalar::Size(0)),
    }
}

fn date_of(seconds: &Option<u64>) -> (f: Field)
    ensures
        f@ == date_field(*seconds),
{
    match seconds {
        Some(n) => Field::Value(Scalar::Date(to_instant(to_signed(*n)))),
        None => Field::Value(Scalar::Date(0)),
    }
}

fn relations_of(list: &Option<Vec<DependencyRelation>>) -> (f: Field)
    ensures
        f@ == FieldView::Table(relation_rows(relations_view(*list))),
{
    let mut rows: Vec<Row> = Vec::new();
    match list {
        Some(relations) => {
            let mut i: usize = 0;
            while i < relations.len()
                invariant
                    i <= relations.len(),
                    rows@.len() == i,
                    forall|k: int| 0 <= k < i ==> (#[trigger] rows@[k])@ == dependency_row(relations@[k]@),
                decreases relations.len() - i,
            {
                rows.push(dep_to_record(&relations[i]));
                i += 1;
            }
            assert(rows_view(rows@) =~= relation_rows(relations_view(*list)));
        },
        None => {
            assert(rows_view(rows@) =~= relation_rows(relations_view(*list)));
        },
    }
    Field::Table(rows)
}

fn files_of(list: &Option<Vec<FileEntry>>) -> (f: Field)
    ensures
        f@ == FieldView::Table(file_rows(entries_view(*list))),
{
    let mut rows: Vec<Row> = Vec::new();
    match list {
        Some(entries) => {
            let mut i: usize = 0;
            while i < entries.len()
                invariant
                    i <= entries.len(),
                    rows@.len() == i,
                    forall|k: int| 0 <= k < i ==> (#[trigger] rows@[k])@ == file_row(entries@[k]@),
                decreases entries.len() - i,
            {
                rows.push(file_entry_to_record(&entries[i]));
                i += 1;
            }
            assert(rows_view(rows@) =~= file_rows(entries_view(*list)));
        },
        None => {
            assert(rows_view(rows@) =~= file_rows(entries_view(*list)));
        },
    }
    Field::Table(rows)
}

/// Projects the metadata of a package onto the output record.
pub fn project(md: &PackageMetadata, show_files: bool) -> (rec: OutputRecord)
    ensures
        rec@ == projection(md@, show_files),
        has_key(rec@, "files"@) <==> show_files,
        md.build_time is None ==> rec@[13].1 == FieldView::Value(ScalarView::Date(0)),
{
    proof {
        files_only_on_request(md@, show_files);
    }
    let mut rec = OutputRecord::new();
    rec.push("name", text_of(&md.name));
    rec.push("version", text_of(&md.version));
    rec.push("release", text_of(&md.release));
    rec.push("arch", text_of(&md.arch));
    rec.push("size", size_of(&md.installed_size));
    rec.push("vendor", text_of(&md.vendor));
    rec.push("url", text_of(&md.url));
    rec.push("vcs", text_of(&md.vcs));
    rec.push("license", text_of(&md.license));
    rec.push("summary", text_of(&md.summary));
    rec.push("description", text_of(&md.description));
    rec.push("group", text_of(&md.group));
    rec.push("packager", text_of(&md.packager));
    rec.push("build_time", date_of(&md.build_time));
    rec.push("build_host", text_of(&md.build_host));
    rec.push("cookie", text_of(&md.cookie));
    rec.push("source_rpm", text_of(&md.source_rpm));
    rec.push("pre_install_script", script_of(&md.pre_install_script));
    rec.push("post_install_script", script_of(&md.post_install_script));
    rec.push("pre_uninstall_script", script_of(&md.pre_uninstall_script));
    rec.push("post_uninstall_script", script_of(&md.post_uninstall_script));
    rec.push("pre_trans_script", script_of(&md.pre_trans_script));
    rec.push("post_trans_script", script_of(&md.post_trans_script));
    rec.push("pre_untrans_script", script_of(&md.pre_untrans_script));
    rec.push("post_untrans_script", script_of(&md.post_untrans_script));
    rec.push("provides", relations_of(&md.provides));
    rec.push("requires", relations_of(&md.requires));
    rec.push("conflicts", relations_of(&md.conflicts));
    rec.push("obsoletes", relations_of(&md.obsoletes));
    rec.push("recommends", relations_of(&md.recommends));
    rec.push("suggests", relations_of(&md.suggests));
    assert(rec@ =~= fixed_fields(md@));
    if show_files {
        rec.push("files", files_of(&md.files));
    }
    rec
}

/// A projection depends on nothing but the metadata and the choice of
/// showing the files: two records made from metadata that say the same,
/// with the same choice, are the same field for field.
pub proof fn projection_is_deterministic(
    first: PackageMetadata,
    second: PackageMetadata,
    show_files: bool,
    a: OutputRecord,
    b: OutputRecord,
)
    requires
        first@ == second@,
        a@ == projection(first@, show_files),
        b@ == projection(second@, show_files),
    ensures
        a@ == b@,
{
}

/// None of the fixed fields is named `files`.
proof fn fixed_fields_lack_files(md: PackageView)
    ensures
        fixed_fields(md).len() == 31,
        forall|i: int| 0 <= i < 31 ==> (#[trigger] fixed_fields(md)[i]).0 != "files"@,
{
    reveal_strlit("files");
    reveal_strlit("name");
    reveal_strlit("version");
    reveal_strlit("release");
    reveal_strlit("arch");
    reveal_strlit("size");
    reveal_strlit("vendor");
    reveal_strlit("url");
    reveal_strlit("vcs");
    reveal_strlit("license");
    reveal_strlit("summary");
    reveal_strlit("description");
    reveal_strlit("group");
    reveal_strlit("packager");
    reveal_strlit("build_time");
    reveal_strlit("build_host");
    reveal_strlit("cookie");
    reveal_strlit("source_rpm");
    reveal_strlit("pre_install_script");
    reveal_strlit("post_install_script");
    reveal_strlit("pre_uninstall_script");
    reveal_strlit("post_uninstall_script");
    reveal_strlit("pre_trans_script");
    reveal_strlit("post_trans_script");
    reveal_strlit("pre_untrans_script");
    reveal_strlit("post_untrans_script");
    reveal_strlit("provides");
    reveal_strlit("requires");
    reveal_strlit("conflicts");
    reveal_strlit("obsoletes");
    reveal_strlit("recommends");
    reveal_strlit("suggests");
    let fields = fixed_fields(md);
    let files = "files"@;
    assert(fields[0].0.len() != files.len());
    assert(fields[1].0.len() != files.len());
    assert(fields[2].0.len() != files.len());
    assert(fields[3].0.len() != files.len());
    assert(fields[4].0.len() != files.len());
    assert(fields[5].0.len() != files.len());
    assert(fields[6].0.len() != files.len());
    assert(fields[7].0.len() != files.len());
    assert(fields[8].0.len() != files.len());
    assert(fields[9].0.len() != files.len());
    assert(fields[10].0.len() != files.len());
    assert(fields[11].0[0] != files[0]);
    assert(fields[12].0.len() != files.len());
    assert(fields[13].0.len() != files.len());
    assert(fields[14].0.len() != files.len());
    assert(fields[15].0.len() != files.len());
    assert(fields[16].0.len() != files.len());
    assert(fields[17].0.len() != files.len());
    assert(fields[18].0.len() != files.len());
    assert(fields[19].0.len() != files.len());
    assert(fields[20].0.len() != files.len());
    assert(fields[21].0.len() != files.len());
    assert(fields[22].0.len() != files.len());
    assert(fields[23].0.len() != files.len());
    assert(fields[24].0.len() != files.len());
    assert(fields[25].0.len() != files.len());
    assert(fields[26].0.len() != files.len());
    assert(fields[27].0.len() != files.len());
    assert(fields[28].0.len() != files.len());
    assert(fields[29].0.len() != files.len());
    assert(fields[30].0.len() != files.len());
}

/// The table of files is in the record exactly when it was asked for, and
/// it is the last field then; the fields before it are the same either way.
pub proof fn files_only_on_request(md: PackageView, show_files: bool)
    ensures
        has_key(projection(md, show_files), "files"@) <==> show_files,
        projection(md, show_files).len() == if show_files {
            32int
        } else {
            31int
        },
        show_files ==> projection(md, show_files)[31] == ("files"@, FieldView::Table(
            file_rows(md.files),
        )),
        projection(md, show_files).take(31) == projection(md, false),
{
    fixed_fields_lack_files(md);
    assert(projection(md, show_files).take(31) =~= projection(md, false));
    let record = projection(md, show_files);
    if show_files {
        assert(record[31].0 == "files"@);
    } else {
        assert forall|i: int| 0 <= i < record.len() implies (#[trigger] record[i]).0 != "files"@ by {
            assert(record[i] == fixed_fields(md)[i]);
        }
    }
}

} // verus!
