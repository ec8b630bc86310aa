//! The `from rpm` command: what it is called, what it accepts, and how it
//! answers a call.
//!
//! Reading the input and parsing the archive are the caller's work. The
//! command decides: [`FromRpm::run`] validates the input and hands back what is
//! to be parsed, and [`FromRpm::convert_metadata_to_record`] turns the
//! outcome of the parse into the record or into the failure to report.

use crate::metadata::PackageMetadata;
use crate::projection::{project, projection};
use crate::record::{has_key, OutputRecord};
use vstd::prelude::*;

verus! {

/// A stretch of the source text of the host shell, by the offsets of its
/// first byte and of the byte after its last.
#[derive(Clone, Copy, Debug, PartialEq, Eq)]
pub struct Span {
    pub start: usize,
    pub end: usize,
}

/// What the pipeline hands to the command. `R` is what the bytes of a
/// stream are read from, `M` what the pipeline knows about its data.
#[derive(Debug)]
pub enum PipelineInput<R, M> {
    /// A stream of bytes. Its reader is absent if the stream has been read
    /// already or never had a source.
    ByteStream { reader: Option<R>, span: Span, metadata: M },
    /// Anything else, by the name of its type.
    Other { observed: String },
}

/// Why an archive could not be parsed, in the words of the parser.
#[derive(Clone, Debug, PartialEq, Eq)]
pub struct ParseError {
    pub message: String,
}

/// Why a call of the command failed.
#[derive(Clone, Debug, PartialEq, Eq)]
pub enum CommandError {
    /// The pipeline held something other than a stream of bytes: the name
    /// of its type and the place of the call.
    UnexpectedInputType { observed: String, span: Span },
    /// The stream of bytes had no reader.
    EmptyInput,
    /// The parser refused the bytes: its message.
    FormatError { message: String },
}

impl CommandError {
    /// The message of the failure.
    pub open spec fn message_text(&self) -> Seq<char> {
        match self {
            CommandError::UnexpectedInputType { observed, .. } => "requires binary input, got "@
                + observed@,
            CommandError::EmptyInput => "empty input"@,
            CommandError::FormatError { message } => message@,
        }
    }

    /// The message of the failure.
    pub fn message(&self) -> (s: String)
        ensures
            s@ == self.message_text(),
    {
        match self {
            CommandError::UnexpectedInputType { observed, .. } => {
                let mut s = String::from_str("requires binary input, got ");
                s.append(observed.as_str());
                s
            },
            CommandError::EmptyInput => String::from_str("empty input"),
            CommandError::FormatError { message } => message.clone(),
        }
    }

    /// The label that points at the place of the failure, where there is
    /// one: only an unexpected input has it, at the place of the call.
    pub fn label(&self) -> (l: Option<(String, Span)>)
        ensures
            match self {
                CommandError::UnexpectedInputType { span, .. } => l matches Some(pair) && pair.0@
                    == "Expected binary from pipeline"@ && pair.1 == *span,
                _ => l is None,
            },
    {
        match self {
            CommandError::UnexpectedInputType { span, .. } => Some(
                (String::from_str("Expected binary from pipeline"), *span),
            ),
            _ => None,
        }
    }
}

/// What is to be parsed once a call has been accepted: the reader of the
/// bytes, the place the bytes came from, with which every value of the
/// output is to be tagged, and what the pipeline knew about its data.
#[derive(Debug)]
pub struct ParseJob<R, M> {
    pub reader: R,
    pub span: Span,
    pub metadata: M,
}

/// A switch of a command.
#[derive(Clone, Debug, PartialEq, Eq)]
pub struct Switch {
    pub long: String,
    pub description: String,
    pub short: Option<char>,
}

/// A kind of value that travels through a pipeline.
#[derive(Clone, Copy, Debug, PartialEq, Eq)]
pub enum ValueKind {
    Binary,
    Any,
}

/// The group under which the host shell lists a command.
#[derive(Clone, Copy, Debug, PartialEq, Eq)]
pub enum Category {
    Experimental,
}

/// How a command presents itself to the host shell.
#[derive(Clone, Debug, PartialEq, Eq)]
pub struct CommandSignature {
    pub name: String,
    pub switches: Vec<Switch>,
    /// The kinds of input the command takes, each with the kind of output
    /// it gives for it.
    pub input_output_types: Vec<(ValueKind, ValueKind)>,
    pub category: Category,
    pub is_filter: bool,
    pub allow_variants_without_examples: bool,
}

/// The command that turns the bytes of a package archive into a record.
#[derive(Clone, Copy, Debug, PartialEq, Eq)]
pub struct FromRpm;

impl FromRpm {
    /// The name under which the host shell offers the command.
    pub fn name(&self) -> (s: &'static str)
        ensures
            s@ == "from rpm"@,
    {
        "from rpm"
    }

    /// What the command does, in one line.
    pub fn description(&self) -> (s: &'static str)
        ensures
            s@ == "Convert from rpm file into metadata table"@,
    {
        "Convert from rpm file into metadata table"
    }

    /// The signature of the command: binary input, any output, and the one
    /// switch `--files`, short `-f`.
    pub fn signature(&self) -> (sig: CommandSignature)
        ensures
            sig.name@ == "from rpm"@,
            sig.switches@.len() == 1,
            sig.switches@[0].long@ == "files"@,
            sig.switches@[0].description@ == "Convert file lists from rpm package into table"@,
            sig.switches@[0].short == Some('f'),
            sig.input_output_types@ == seq![(ValueKind::Binary, ValueKind::Any)],
            sig.category == Category::Experimental,
            sig.is_filter,
            sig.allow_variants_without_examples,
    {
        let mut switches: Vec<Switch> = Vec::new();
        switches.push(
            Switch {
                long: String::from_str("files"),
                description: String::from_str("Convert file lists from rpm package into table"),
                short: Some('f'),
            },
        );
        let mut input_output_types: Vec<(ValueKind, ValueKind)> = Vec::new();
        input_output_types.push((ValueKind::Binary, ValueKind::Any));
        assert(input_output_types@ =~= seq![(ValueKind::Binary, ValueKind::Any)]);
        CommandSignature {
            name: String::from_str(self.name()),
            switches,
            input_output_types,
            category: Category::Experimental,
            is_filter: true,
            allow_variants_without_examples: true,
        }
    }

    /// Validates the input of a call made at `call_head`. A stream of bytes
    /// with a reader is accepted, and reader, span and pipeline metadata
    /// come back untouched, to be parsed. A stream without a reader is an
    /// empty input. Anything else is an unexpected input, reported with the
    /// name of its type at the place of the call; nothing is to be parsed
    /// then.
    pub fn run<R, M>(&self, call_head: Span, input: PipelineInput<R, M>) -> (r: Result<
        ParseJob<R, M>,
        CommandError,
    >)
        ensures
            match input {
                PipelineInput::ByteStream { reader: Some(reader), span, metadata } => r == Ok::<
                    ParseJob<R, M>,
                    CommandError,
                >(ParseJob { reader, span, metadata }),
                PipelineInput::ByteStream { reader: None, .. } => r == Err::<
                    ParseJob<R, M>,
                    CommandError,
                >(CommandError::EmptyInput),
                PipelineInput::Other { observed } => r == Err::<ParseJob<R, M>, CommandError>(
                    CommandError::UnexpectedInputType { observed, span: call_head },
                ),
            },
    {
        match input {
            PipelineInput::ByteStream { reader, span, metadata } => match reader {
                Some(reader) => Ok(ParseJob { reader, span, metadata }),
                None => Err(CommandError::EmptyInput),
            },
            PipelineInput::Other { observed } => Err(
                CommandError::UnexpectedInputType { observed, span: call_head },
            ),
        }
    }

    /// Turns the outcome of parsing an archive into the answer of the
    /// command: the projection of the metadata, with the table of files if
    /// `show_files` is set, or a format error with the message of the
    /// parser as it is.
    pub fn convert_metadata_to_record(
        &self,
        parsed: Result<PackageMetadata, ParseError>,
        show_files: bool,
    ) -> (r: Result<OutputRecord, CommandError>)
        ensures
            match parsed {
                Ok(md) => r matches Ok(rec) && rec@ == projection(md@, show_files) && (has_key(
                    rec@,
                    "files"@,
                ) <==> show_files),
                Err(e) => r == Err::<OutputRecord, CommandError>(
                    CommandError::FormatError { message: e.message },
                ),
            },
    {
        match parsed {
            Ok(md) => Ok(project(&md, show_files)),
            Err(e) => Err(CommandError::FormatError { message: e.message }),
        }
    }
}

} // verus!
