use nu_plugin_rpm::metadata::{DependencyRelation, FileEntry, FileMode, PackageMetadata, Scriptlet};
use nu_plugin_rpm::projection::project;
use nu_plugin_rpm::record::{Field, OutputRecord, Row, Scalar};

fn text(s: &str) -> Field {
    Field::Value(Scalar::Text(s.to_string()))
}

fn minimal() -> PackageMetadata {
    let mut md = PackageMetadata::empty();
    md.name = Some("pkg".to_string());
    md.version = Some("1.0".to_string());
    md.release = Some("1".to_string());
    md.requires = Some(vec![DependencyRelation::new("libc".to_string(), 1 << 3, "6".to_string())]);
    md
}

fn field_names(rec: &OutputRecord) -> Vec<&str> {
    rec.fields.iter().map(|f| f.0.as_str()).collect()
}

fn fixed_names() -> Vec<&'static str> {
    vec![
        "name",
        "version",
        "release",
        "arch",
        "size",
        "vendor",
        "url",
        "vcs",
        "license",
        "summary",
        "description",
        "group",
        "packager",
        "build_time",
        "build_host",
        "cookie",
        "source_rpm",
        "pre_install_script",
        "post_install_script",
        "pre_uninstall_script",
        "post_uninstall_script",
        "pre_trans_script",
        "post_trans_script",
        "pre_untrans_script",
        "post_untrans_script",
        "provides",
        "requires",
        "conflicts",
        "obsoletes",
        "recommends",
        "suggests",
    ]
}

#[test]
fn minimal_archive_without_files() {
    let rec = project(&minimal(), false);
    assert_eq!(rec.get("name"), Some(&text("pkg")));
    assert_eq!(rec.get("version"), Some(&text("1.0")));
    assert_eq!(rec.get("release"), Some(&text("1")));
    let mut row = Row::new();
    row.push("name", Scalar::Text("libc".to_string()));
    row.push("flags", Scalar::Text("EQUAL".to_string()));
    row.push("version", Scalar::Text("6".to_string()));
    assert_eq!(rec.get("requires"), Some(&Field::Table(vec![row])));
    assert!(!rec.has("files"));
    assert_eq!(rec.get("files"), None);
    assert_eq!(rec.len(), 31);
}

#[test]
fn minimal_archive_with_files_and_empty_manifest() {
    let mut md = minimal();
    md.files = Some(vec![]);
    let rec = project(&md, true);
    assert!(rec.has("files"));
    assert_eq!(rec.get("files"), Some(&Field::Table(vec![])));
    assert_eq!(rec.get("name"), Some(&text("pkg")));
    assert_eq!(rec.len(), 32);
}

#[test]
fn absent_manifest_gives_an_empty_table_when_asked_for() {
    let rec = project(&minimal(), true);
    assert_eq!(rec.get("files"), Some(&Field::Table(vec![])));
}

#[test]
fn manifest_is_left_out_unless_asked_for() {
    let mut md = minimal();
    md.files = Some(vec![FileEntry {
        path: Some("/etc/pkg.conf".to_string()),
        mode: FileMode::RegularFile { permissions: 0o644 },
        user: "root".to_string(),
        group: "root".to_string(),
        modified_at: 100,
        size: 12,
        linkto: String::new(),
    }]);
    let without = project(&md, false);
    assert!(!without.has("files"));
    let with = project(&md, true);
    match with.get("files") {
        Some(Field::Table(rows)) => {
            assert_eq!(rows.len(), 1);
            assert_eq!(rows[0].get("path"), Some(&Scalar::Text("/etc/pkg.conf".to_string())));
            assert_eq!(rows[0].get("type"), Some(&Scalar::Text("file".to_string())));
            assert_eq!(rows[0].get("size"), Some(&Scalar::Size(12)));
        }
        other => panic!("files is not a table: {:?}", other),
    }
    assert_eq!(with.fields[..31], without.fields[..]);
}

#[test]
fn fields_come_in_the_fixed_order() {
    let rec = project(&PackageMetadata::empty(), false);
    assert_eq!(field_names(&rec), fixed_names());
    let rec = project(&PackageMetadata::empty(), true);
    let mut names = fixed_names();
    names.push("files");
    assert_eq!(field_names(&rec), names);
}

#[test]
fn missing_build_time_is_the_epoch() {
    let rec = project(&PackageMetadata::empty(), false);
    assert_eq!(rec.get("build_time"), Some(&Field::Value(Scalar::Date(0))));
    assert_eq!(rec.fields[13].0, "build_time");
}

#[test]
fn build_time_is_kept_or_falls_back() {
    let mut md = PackageMetadata::empty();
    md.build_time = Some(1_700_000_000);
    assert_eq!(project(&md, false).get("build_time"), Some(&Field::Value(Scalar::Date(1_700_000_000))));
    md.build_time = Some(i64::MAX as u64);
    assert_eq!(project(&md, false).get("build_time"), Some(&Field::Value(Scalar::Date(0))));
    md.build_time = Some(u64::MAX);
    assert_eq!(project(&md, false).get("build_time"), Some(&Field::Value(Scalar::Date(-1))));
}

#[test]
fn absent_metadata_is_replaced_by_defaults() {
    let rec = project(&PackageMetadata::empty(), false);
    for name in ["name", "version", "release", "arch", "vendor", "url", "vcs", "license", "summary",
        "description", "group", "packager", "build_host", "cookie", "source_rpm",
        "pre_install_script", "post_install_script", "pre_uninstall_script",
        "post_uninstall_script", "pre_trans_script", "post_trans_script", "pre_untrans_script",
        "post_untrans_script"]
    {
        assert_eq!(rec.get(name), Some(&text("")), "{}", name);
    }
    assert_eq!(rec.get("size"), Some(&Field::Value(Scalar::Size(0))));
    for name in ["provides", "requires", "conflicts", "obsoletes", "recommends", "suggests"] {
        assert_eq!(rec.get(name), Some(&Field::Table(vec![])), "{}", name);
    }
}

#[test]
fn every_piece_of_metadata_reaches_its_field() {
    let mut md = PackageMetadata::empty();
    md.name = Some("n".to_string());
    md.version = Some("v".to_string());
    md.release = Some("r".to_string());
    md.arch = Some("x86_64".to_string());
    md.installed_size = Some(123_456);
    md.vendor = Some("ve".to_string());
    md.url = Some("https://example.org".to_string());
    md.vcs = Some("git".to_string());
    md.license = Some("MIT".to_string());
    md.summary = Some("s".to_string());
    md.description = Some("d".to_string());
    md.group = Some("g".to_string());
    md.packager = Some("p".to_string());
    md.build_time = Some(86_400);
    md.build_host = Some("host".to_string());
    md.cookie = Some("c".to_string());
    md.source_rpm = Some("n-v-r.src.rpm".to_string());
    md.pre_install_script = Some(Scriptlet { script: "a".to_string() });
    md.post_install_script = Some(Scriptlet { script: "b".to_string() });
    md.pre_uninstall_script = Some(Scriptlet { script: "c".to_string() });
    md.post_uninstall_script = Some(Scriptlet { script: "d".to_string() });
    md.pre_trans_script = Some(Scriptlet { script: "e".to_string() });
    md.post_trans_script = Some(Scriptlet { script: "f".to_string() });
    md.pre_untrans_script = Some(Scriptlet { script: "g".to_string() });
    md.post_untrans_script = Some(Scriptlet { script: "h".to_string() });
    let rec = project(&md, false);
    let expected = [
        ("name", "n"),
        ("version", "v"),
        ("release", "r"),
        ("arch", "x86_64"),
        ("vendor", "ve"),
        ("url", "https://example.org"),
        ("vcs", "git"),
        ("license", "MIT"),
        ("summary", "s"),
        ("description", "d"),
        ("group", "g"),
        ("packager", "p"),
        ("build_host", "host"),
        ("cookie", "c"),
        ("source_rpm", "n-v-r.src.rpm"),
        ("pre_install_script", "a"),
        ("post_install_script", "b"),
        ("pre_uninstall_script", "c"),
        ("post_uninstall_script", "d"),
        ("pre_trans_script", "e"),
        ("post_trans_script", "f"),
        ("pre_untrans_script", "g"),
        ("post_untrans_script", "h"),
    ];
    for (name, value) in expected {
        assert_eq!(rec.get(name), Some(&text(value)), "{}", name);
    }
    assert_eq!(rec.get("size"), Some(&Field::Value(Scalar::Size(123_456))));
    assert_eq!(rec.get("build_time"), Some(&Field::Value(Scalar::Date(86_400))));
}

#[test]
fn each_relation_list_reaches_its_own_table_in_order() {
    let mut md = PackageMetadata::empty();
    let one = |n: &str| DependencyRelation::new(n.to_string(), 0, String::new());
    md.provides = Some(vec![one("alpha"), one("beta")]);
    md.requires = Some(vec![one("r1")]);
    md.conflicts = Some(vec![one("c1")]);
    md.obsoletes = Some(vec![one("o1")]);
    md.recommends = Some(vec![one("m1")]);
    md.suggests = Some(vec![one("s1"), one("s2"), one("s3")]);
    let rec = project(&md, false);
    let names_of = |field: &str| -> Vec<String> {
        match rec.get(field) {
            Some(Field::Table(rows)) => rows
                .iter()
                .map(|r| match r.get("name") {
                    Some(Scalar::Text(t)) => t.clone(),
                    other => panic!("name is not text: {:?}", other),
                })
                .collect(),
            other => panic!("{} is not a table: {:?}", field, other),
        }
    };
    assert_eq!(names_of("provides"), vec!["alpha", "beta"]);
    assert_eq!(names_of("requires"), vec!["r1"]);
    assert_eq!(names_of("conflicts"), vec!["c1"]);
    assert_eq!(names_of("obsoletes"), vec!["o1"]);
    assert_eq!(names_of("recommends"), vec!["m1"]);
    assert_eq!(names_of("suggests"), vec!["s1", "s2", "s3"]);
}

#[test]
fn projecting_twice_gives_the_same_record() {
    let mut md = minimal();
    md.build_time = Some(1_700_000_000);
    md.files = Some(vec![]);
    assert_eq!(project(&md, true), project(&md, true));
    assert_eq!(project(&md, false), project(&md.clone(), false));
}

#[test]
fn installed_size_beyond_the_signed_range_wraps() {
    let mut md = PackageMetadata::empty();
    md.installed_size = Some(u64::MAX);
    assert_eq!(project(&md, false).get("size"), Some(&Field::Value(Scalar::Size(-1))));
}

#[test]
fn lookup_finds_the_first_field_of_a_name() {
    let mut rec = OutputRecord::new();
    assert_eq!(rec.len(), 0);
    assert!(!rec.has("a"));
    rec.push("a", text("1"));
    rec.push("b", text("2"));
    rec.push("a", text("3"));
    assert_eq!(rec.get("a"), Some(&text("1")));
    assert_eq!(rec.get("b"), Some(&text("2")));
    assert_eq!(rec.get("c"), None);
    assert_eq!(rec.len(), 3);
    let mut row = Row::new();
    row.push("x", Scalar::Size(1));
    row.push("x", Scalar::Size(2));
    assert_eq!(row.get("x"), Some(&Scalar::Size(1)));
    assert_eq!(row.get("y"), None);
    assert_eq!(row.len(), 2);
}
