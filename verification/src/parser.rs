//! One parser for the layouts in which the tool reports its progress.

use vstd::prelude::*;
use crate::free_text::{
    free_text_sample, parse_free_text, regex_captures, BYTES_PATTERN, FILES_PATTERN,
};
use crate::progress::{
    parse_record, record_sample, LogRecord, ParserVariant, ProgressSample, ProgressSampleModel,
    Stream,
};

verus! {

/// One line of the tool's output: the text as read, or the record that a
/// line of the structured log was decoded to.
#[derive(Clone, Debug)]
pub enum OutputLine {
    Text(String),
    Record(LogRecord),
}

/// The stream on which `variant` reports progress.
pub open spec fn progress_stream(variant: ParserVariant) -> Stream {
    match variant {
        ParserVariant::StructuredLog => Stream::Error,
        ParserVariant::FreeText => Stream::Standard,
    }
}

/// The sample that `line` holds when read as `variant`. A line in the other
/// layout holds none.
pub open spec fn line_sample(variant: ParserVariant, line: OutputLine) -> Option<
    ProgressSampleModel,
> {
    match (variant, line) {
        (ParserVariant::FreeText, OutputLine::Text(text)) => free_text_sample(
            regex_captures(BYTES_PATTERN@, text@),
            regex_captures(FILES_PATTERN@, text@),
        ),
        (ParserVariant::StructuredLog, OutputLine::Record(record)) => record_sample(record),
        _ => None,
    }
}

/// The stream on which `variant` reports progress.
pub fn stream_of(variant: ParserVariant) -> (stream: Stream)
    ensures
        stream == progress_stream(variant),
{
    match variant {
        ParserVariant::StructuredLog => Stream::Error,
        ParserVariant::FreeText => Stream::Standard,
    }
}

/// Reads one line of output as `variant`. A line that holds no progress, or
/// that cannot be read, gives nothing; it is never an error.
pub fn parse_line(variant: ParserVariant, line: &OutputLine) -> (sample: Option<ProgressSample>)
    ensures
        sample.deep_view() == line_sample(variant, *line),
{
    match line {
        OutputLine::Text(text) => match variant {
            ParserVariant::FreeText => parse_free_text(text.as_str()),
            ParserVariant::StructuredLog => None,
        },
        OutputLine::Record(record) => match variant {
            ParserVariant::StructuredLog => parse_record(record),
            ParserVariant::FreeText => None,
        },
    }
}

} // verus!
