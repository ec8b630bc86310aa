//! What a package archive says about itself, as plain values.
//!
//! Every piece of top-level metadata is optional: an archive need not carry
//! it, and its absence is an ordinary outcome.

use vstd::prelude::*;

verus! {

/// A named relationship to another package or capability.
#[derive(Clone, Debug, PartialEq, Eq)]
pub struct DependencyRelation {
    pub name: String,
    /// The sense bits of the relation, as the archive stores them.
    pub flags: u32,
    pub version: String,
}

/// What a [`DependencyRelation`] stands for.
pub struct DependencyView {
    pub name: Seq<char>,
    pub flags: u32,
    pub version: Seq<char>,
}

impl View for DependencyRelation {
    type V = DependencyView;

    open spec fn view(&self) -> DependencyView {
        DependencyView { name: self.name@, flags: self.flags, version: self.version@ }
    }
}

impl DependencyRelation {
    /// A relation from its three parts.
    pub fn new(name: String, flags: u32, version: String) -> (d: DependencyRelation)
        ensures
            d.name == name,
            d.flags == flags,
            d.version == version,
    {
        DependencyRelation { name, flags, version }
    }
}

/// The kind and mode bits of a file in the manifest.
#[derive(Clone, Debug, PartialEq, Eq)]
pub enum FileMode {
    Directory { permissions: u16 },
    RegularFile { permissions: u16 },
    SymbolicLink { permissions: u16 },
    /// A mode that could not be classified, with the stored number and the
    /// reason for which it was refused.
    Invalid { raw: i32, reason: String },
    /// A kind of file that this crate does not know.
    Other,
}

/// What a [`FileMode`] stands for.
pub enum FileModeView {
    Directory { permissions: u16 },
    RegularFile { permissions: u16 },
    SymbolicLink { permissions: u16 },
    Invalid { raw: i32, reason: Seq<char> },
    Other,
}

impl View for FileMode {
    type V = FileModeView;

    open spec fn view(&self) -> FileModeView {
        match self {
            FileMode::Directory { permissions } => FileModeView::Directory {
                permissions: *permissions,
            },
            FileMode::RegularFile { permissions } => FileModeView::RegularFile {
                permissions: *permissions,
            },
            FileMode::SymbolicLink { permissions } => FileModeView::SymbolicLink {
                permissions: *permissions,
            },
            FileMode::Invalid { raw, reason } => FileModeView::Invalid {
                raw: *raw,
                reason: reason@,
            },
            FileMode::Other => FileModeView::Other,
        }
    }
}

/// The text of an optional string.
pub open spec fn text_view(text: Option<String>) -> Option<Seq<char>> {
    match text {
        Some(s) => Some(s@),
        None => None,
    }
}

/// One entry of the file manifest.
#[derive(Clone, Debug, PartialEq, Eq)]
pub struct FileEntry {
    /// Where the file is installed; `None` if the path is not valid text.
    pub path: Option<String>,
    pub mode: FileMode,
    pub user: String,
    pub group: String,
    /// Last modification, in seconds since 1970-01-01T00:00:00Z.
    pub modified_at: u32,
    /// Size in bytes.
    pub size: u64,
    /// The target of a symbolic link, empty for any other file.
    pub linkto: String,
}

/// What a [`FileEntry`] stands for.
pub struct FileEntryView {
    pub path: Option<Seq<char>>,
    pub mode: FileModeView,
    pub user: Seq<char>,
    pub group: Seq<char>,
    pub modified_at: u32,
    pub size: u64,
    pub linkto: Seq<char>,
}

impl View for FileEntry {
    type V = FileEntryView;

    open spec fn view(&self) -> FileEntryView {
        FileEntryView {
            path: text_view(self.path),
            mode: self.mode@,
            user: self.user@,
            group: self.group@,
            modified_at: self.modified_at,
            size: self.size,
            linkto: self.linkto@,
        }
    }
}

/// A script that the package runs at one point of its life cycle.
#[derive(Clone, Debug, PartialEq, Eq)]
pub struct Scriptlet {
    pub script: String,
}

/// The body of an optional scriptlet.
pub open spec fn script_view(scriptlet: Option<Scriptlet>) -> Option<Seq<char>> {
    match scriptlet {
        Some(s) => Some(s.script@),
        None => None,
    }
}

/// The relations of a list, each by what it stands for.
pub open spec fn relations_view(list: Option<Vec<DependencyRelation>>) -> Option<
    Seq<DependencyView>,
> {
    match list {
        Some(v) => Some(v@.map_values(|d: DependencyRelation| d@)),
        None => None,
    }
}

/// The entries of a manifest, each by what it stands for.
pub open spec fn entries_view(list: Option<Vec<FileEntry>>) -> Option<Seq<FileEntryView>> {
    match list {
        Some(v) => Some(v@.map_values(|e: FileEntry| e@)),
        None => None,
    }
}

/// The metadata of one package archive.
#[derive(Clone, Debug, PartialEq, Eq)]
pub struct PackageMetadata {
    pub name: Option<String>,
    pub version: Option<String>,
    pub release: Option<String>,
    pub arch: Option<String>,
    /// The sum of the sizes of the installed files, in bytes.
    pub installed_size: Option<u64>,
    pub vendor: Option<String>,
    pub url: Option<String>,
    pub vcs: Option<String>,
    pub license: Option<String>,
    pub summary: Option<String>,
    pub description: Option<String>,
    pub group: Option<String>,
    pub packager: Option<String>,
    /// When the package was built, in seconds since 1970-01-01T00:00:00Z.
    pub build_time: Option<u64>,
    pub build_host: Option<String>,
    pub cookie: Option<String>,
    pub source_rpm: Option<String>,
    pub pre_install_script: Option<Scriptlet>,
    pub post_install_script: Option<Scriptlet>,
    pub pre_uninstall_script: Option<Scriptlet>,
    pub post_uninstall_script: Option<Scriptlet>,
    pub pre_trans_script: Option<Scriptlet>,
    pub post_trans_script: Option<Scriptlet>,
    pub pre_untrans_script: Option<Scriptlet>,
    pub post_untrans_script: Option<Scriptlet>,
    pub provides: Option<Vec<DependencyRelation>>,
    pub requires: Option<Vec<DependencyRelation>>,
    pub conflicts: Option<Vec<DependencyRelation>>,
    pub obsoletes: Option<Vec<DependencyRelation>>,
    pub recommends: Option<Vec<DependencyRelation>>,
    pub suggests: Option<Vec<DependencyRelation>>,
    pub files: Option<Vec<FileEntry>>,
}

/// What a [`PackageMetadata`] stands for.
pub struct PackageView {
    pub name: Option<Seq<char>>,
    pub version: Option<Seq<char>>,
    pub release: Option<Seq<char>>,
    pub arch: Option<Seq<char>>,
    pub installed_size: Option<u64>,
    pub vendor: Option<Seq<char>>,
    pub url: Option<Seq<char>>,
    pub vcs: Option<Seq<char>>,
    pub license: Option<Seq<char>>,
    pub summary: Option<Seq<char>>,
    pub description: Option<Seq<char>>,
    pub group: Option<Seq<char>>,
    pub packager: Option<Seq<char>>,
    pub build_time: Option<u64>,
    pub build_host: Option<Seq<char>>,
    pub cookie: Option<Seq<char>>,
    pub source_rpm: Option<Seq<char>>,
    pub pre_install_script: Option<Seq<char>>,
    pub post_install_script: Option<Seq<char>>,
    pub pre_uninstall_script: Option<Seq<char>>,
    pub post_uninstall_script: Option<Seq<char>>,
    pub pre_trans_script: Option<Seq<char>>,
    pub post_trans_script: Option<Seq<char>>,
    pub pre_untrans_script: Option<Seq<char>>,
    pub post_untrans_script: Option<Seq<char>>,
    pub provides: Option<Seq<DependencyView>>,
    pub requires: Option<Seq<DependencyView>>,
    pub conflicts: Option<Seq<DependencyView>>,
    pub obsoletes: Option<Seq<DependencyView>>,
    pub recommends: Option<Seq<DependencyView>>,
    pub suggests: Option<Seq<DependencyView>>,
    pub files: Option<Seq<FileEntryView>>,
}

impl View for PackageMetadata {
    type V = PackageView;

    open spec fn view(&self) -> PackageView {
        PackageView {
            name: text_view(self.name),
            version: text_view(self.version),
            release: text_view(self.release),
            arch: text_view(self.arch),
            installed_size: self.installed_size,
            vendor: text_view(self.vendor),
            url: text_view(self.url),
            vcs: text_view(self.vcs),
            license: text_view(self.license),
            summary: text_view(self.summary),
            description: text_view(self.description),
            group: text_view(self.group),
            packager: text_view(self.packager),
            build_time: self.build_time,
            build_host: text_view(self.build_host),
            cookie: text_view(self.cookie),
            source_rpm: text_view(self.source_rpm),
            pre_install_script: script_view(self.pre_install_script),
            post_install_script: script_view(self.post_install_script),
            pre_uninstall_script: script_view(self.pre_uninstall_script),
            post_uninstall_script: script_view(self.post_uninstall_script),
            pre_trans_script: script_view(self.pre_trans_script),
            post_trans_script: script_view(self.post_trans_script),
            pre_untrans_script: script_view(self.pre_untrans_script),
            post_untrans_script: script_view(self.post_untrans_script),
            provides: relations_view(self.provides),
            requires: relations_view(self.requires),
            conflicts: relations_view(self.conflicts),
            obsoletes: relations_view(self.obsoletes),
            recommends: relations_view(self.recommends),
            suggests: relations_view(self.suggests),
            files: entries_view(self.files),
        }
    }
}

impl PackageView {
    /// The metadata of an archive that carries none.
    pub open spec fn empty() -> PackageView {
        PackageView {
            name: None,
            version: None,
            release: None,
            arch: None,
            installed_size: None,
            vendor: None,
            url: None,
            vcs: None,
            license: None,
            summary: None,
            description: None,
            group: None,
            packager: None,
            build_time: None,
            build_host: None,
            cookie: None,
            source_rpm: None,
            pre_install_script: None,
            post_install_script: None,
            pre_uninstall_script: None,
            post_uninstall_script: None,
            pre_trans_script: None,
            post_trans_script: None,
            pre_untrans_script: None,
            post_untrans_script: None,
            provides: None,
            requires: None,
            conflicts: None,
            obsoletes: None,
            recommends: None,
            suggests: None,
            files: None,
        }
    }
}

impl PackageMetadata {
    /// Metadata in which every piece is absent.
    pub fn empty() -> (md: PackageMetadata)
        ensures
            md@ == PackageView::empty(),
    {
        PackageMetadata {
            name: None,
            version: None,
            release: None,
            arch: None,
            installed_size: None,
            vendor: None,
            url: None,
            vcs: None,
            license: None,
            summary: None,
            description: None,
            group: None,
            packager: None,
            build_time: None,
            build_host: None,
            cookie: None,
            source_rpm: None,
            pre_install_script: None,
            post_install_script: None,
            pre_uninstall_script: None,
            post_uninstall_script: None,
            pre_trans_script: None,
            post_trans_script: None,
            pre_untrans_script: None,
            post_untrans_script: None,
            provides: None,
            requires: None,
            conflicts: None,
            obsoletes: None,
            recommends: None,
            suggests: None,
            files: None,
        }
    }
}

} // verus!
