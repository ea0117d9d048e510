//! The output assembler: which record a run hands to its caller.

use vstd::prelude::*;
use crate::error::DecodeError;
use crate::normalize::{normalize, spec_normalize, Data, DataView};
use crate::profile::LayoutProfile;
use crate::record::{File, FileView};

verus! {

/// The record a caller asks for.
#[derive(Clone, Copy, Debug, PartialEq, Eq, Structural)]
pub enum Output {
    /// The canonical record, every field as stored.
    Raw,
    /// The normalized record.
    Parsed,
}

/// The text that was given where an output mode was expected.
#[derive(Clone, Debug, PartialEq, Eq)]
pub struct OutputParseError(pub String);

/// What a run hands to its caller.
#[derive(Clone, Debug, PartialEq, Eq)]
pub enum Record {
    Raw(File),
    Parsed(Data),
}

/// A [`Record`] with its buffers and traces as sequences.
pub enum RecordView {
    Raw(FileView),
    Parsed(DataView),
}

impl View for Record {
    type V = RecordView;

    open spec fn view(&self) -> RecordView {
        match self {
            Record::Raw(file) => RecordView::Raw(file@),
            Record::Parsed(data) => RecordView::Parsed(data@),
        }
    }
}

/// The output mode that `text` names: `raw` or `parsed`, and nothing else.
pub open spec fn spec_output(text: Seq<char>) -> Option<Output> {
    if text == seq!['r', 'a', 'w'] {
        Some(Output::Raw)
    } else if text == seq!['p', 'a', 'r', 's', 'e', 'd'] {
        Some(Output::Parsed)
    } else {
        None
    }
}

/// The record that `output` selects from a decoded capture.
pub open spec fn spec_assemble(file: FileView, profile: LayoutProfile, output: Output) -> Result<
    RecordView,
    DecodeError,
> {
    match output {
        Output::Raw => Ok(RecordView::Raw(file)),
        Output::Parsed => match spec_normalize(file, profile) {
            Ok(data) => Ok(RecordView::Parsed(data)),
            Err(fault) => Err(fault),
        },
    }
}

impl Output {
    /// Reads an output mode. Any text but `raw` and `parsed` comes back in
    /// the error.
    pub fn from_str(s: &str) -> (outcome: Result<Output, OutputParseError>)
        ensures
            match outcome {
                Ok(output) => spec_output(s@) == Some(output),
                Err(unsupported) => spec_output(s@) is None && unsupported.0@ == s@,
            },
    {
        proof {
            reveal_strlit("raw");
            reveal_strlit("parsed");
        }
        let text = s.to_owned();
        let raw = "raw".to_owned();
        let parsed = "parsed".to_owned();
        assert("raw"@ =~= seq!['r', 'a', 'w']);
        assert("parsed"@ =~= seq!['p', 'a', 'r', 's', 'e', 'd']);
        if text == raw {
            Ok(Output::Raw)
        } else if text == parsed {
            Ok(Output::Parsed)
        } else {
            Err(OutputParseError(text))
        }
    }
}

/// Selects the record that a caller asked for: the decoded capture as it
/// stands, or its normalization.
pub fn assemble(file: File, profile: &LayoutProfile, output: Output) -> (outcome: Result<
    Record,
    DecodeError,
>)
    ensures
        match outcome {
            Ok(record) => spec_assemble(file@, *profile, output) == Ok::<RecordView, DecodeError>(
                record@,
            ),
            Err(fault) => spec_assemble(file@, *profile, output) == Err::<
                RecordView,
                DecodeError,
            >(fault),
        },
{
    match output {
        Output::Raw => Ok(Record::Raw(file)),
        Output::Parsed => match normalize(&file, profile) {
            Ok(data) => Ok(Record::Parsed(data)),
            Err(fault) => Err(fault),
        },
    }
}

} // verus!
