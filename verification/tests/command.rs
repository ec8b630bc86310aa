use nu_plugin_rpm::command::{
    Category, CommandError, ParseError, PipelineInput, Span, ValueKind,
};
use nu_plugin_rpm::metadata::PackageMetadata;
use nu_plugin_rpm::record::{Field, Scalar};
use nu_plugin_rpm::{FromRpm, RpmPlugin};

#[test]
fn test_examples() {
    let p = &RpmPlugin {};
    let commands = p.commands();
    assert_eq!(commands.len(), 1);
    for cmd in commands {
        assert!(cmd.name().ends_with("rpm"));
        assert_eq!(cmd.signature().name, cmd.name());
    }
}

#[test]
fn plugin_has_a_version() {
    assert_eq!(RpmPlugin.version(), "0.3.0");
}

#[test]
fn command_presents_itself() {
    let cmd = FromRpm;
    assert_eq!(cmd.name(), "from rpm");
    assert_eq!(cmd.description(), "Convert from rpm file into metadata table");
    let sig = cmd.signature();
    assert_eq!(sig.name, "from rpm");
    assert_eq!(sig.switches.len(), 1);
    assert_eq!(sig.switches[0].long, "files");
    assert_eq!(sig.switches[0].short, Some('f'));
    assert_eq!(sig.switches[0].description, "Convert file lists from rpm package into table");
    assert_eq!(sig.input_output_types, vec![(ValueKind::Binary, ValueKind::Any)]);
    assert_eq!(sig.category, Category::Experimental);
    assert!(sig.is_filter);
    assert!(sig.allow_variants_without_examples);
}

#[test]
fn input_that_is_not_binary_is_refused() {
    let head = Span { start: 3, end: 11 };
    let input: PipelineInput<Vec<u8>, u8> = PipelineInput::Other { observed: "record".to_string() };
    match FromRpm.run(head, input) {
        Err(e) => {
            assert_eq!(
                e,
                CommandError::UnexpectedInputType { observed: "record".to_string(), span: head }
            );
            assert_eq!(e.message(), "requires binary input, got record");
            assert_eq!(e.label(), Some(("Expected binary from pipeline".to_string(), head)));
        }
        Ok(_) => panic!("a record was accepted as binary input"),
    }
}

#[test]
fn stream_without_a_reader_is_an_empty_input() {
    let head = Span { start: 0, end: 8 };
    let input: PipelineInput<Vec<u8>, u8> = PipelineInput::ByteStream {
        reader: None,
        span: Span { start: 20, end: 30 },
        metadata: 7,
    };
    match FromRpm.run(head, input) {
        Err(e) => {
            assert_eq!(e, CommandError::EmptyInput);
            assert_eq!(e.message(), "empty input");
            assert_eq!(e.label(), None);
        }
        Ok(_) => panic!("a stream without a reader was accepted"),
    }
}

#[test]
fn stream_with_a_reader_is_handed_back_untouched() {
    let head = Span { start: 0, end: 8 };
    let span = Span { start: 20, end: 30 };
    let input = PipelineInput::ByteStream {
        reader: Some(vec![0xedu8, 0xab, 0xee, 0xdb]),
        span,
        metadata: "text/plain".to_string(),
    };
    match FromRpm.run(head, input) {
        Ok(job) => {
            assert_eq!(job.reader, vec![0xedu8, 0xab, 0xee, 0xdb]);
            assert_eq!(job.span, span);
            assert_eq!(job.metadata, "text/plain");
        }
        Err(e) => panic!("a stream with a reader was refused: {:?}", e),
    }
}

#[test]
fn parse_failure_becomes_a_format_error_with_the_same_message() {
    let parsed = Err(ParseError { message: "invalid magic in lead".to_string() });
    let r = FromRpm.convert_metadata_to_record(parsed, true);
    assert_eq!(r, Err(CommandError::FormatError { message: "invalid magic in lead".to_string() }));
    match r {
        Err(e) => {
            assert_eq!(e.message(), "invalid magic in lead");
            assert_eq!(e.label(), None);
        }
        Ok(_) => panic!("a parse failure gave a record"),
    }
}

#[test]
fn parsed_metadata_is_projected() {
    let mut md = PackageMetadata::empty();
    md.name = Some("pkg".to_string());
    let without = FromRpm.convert_metadata_to_record(Ok(md.clone()), false);
    match without {
        Ok(rec) => {
            assert_eq!(rec.get("name"), Some(&Field::Value(Scalar::Text("pkg".to_string()))));
            assert!(!rec.has("files"));
        }
        Err(e) => panic!("projection failed: {:?}", e),
    }
    let with = FromRpm.convert_metadata_to_record(Ok(md), true);
    match with {
        Ok(rec) => assert_eq!(rec.get("files"), Some(&Field::Table(vec![]))),
        Err(e) => panic!("projection failed: {:?}", e),
    }
}
