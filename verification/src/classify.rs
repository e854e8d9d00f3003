//! The stream classifier: what one line of the worker's output is.

use crate::json::{json_reading, reading_view, Json, JsonView};
use crate::payload::{Progress, ProgressView};
use crate::text::{contains, occurs_in};
use vstd::prelude::*;

verus! {

/// The channel on which the worker wrote a line.
#[derive(Debug, Clone, Copy, PartialEq, Eq, Structural)]
pub enum StreamSource {
    Stdout,
    Stderr,
}

/// One line of the worker's output, without its line terminator.
#[derive(Debug, Clone, PartialEq, Eq)]
pub struct RawLine {
    pub source: StreamSource,
    pub text: String,
}

/// The mathematical value of a [`RawLine`].
pub ghost struct RawLineView {
    pub source: StreamSource,
    pub text: Seq<char>,
}

impl View for RawLine {
    type V = RawLineView;

    open spec fn view(&self) -> RawLineView {
        RawLineView { source: self.source, text: self.text@ }
    }
}

/// What a line was found to be.
#[derive(Debug, Clone, PartialEq, Eq)]
pub enum Classified {
    /// A progress event, to be relayed at once.
    Progress(Progress),
    /// An interpreter warning on the diagnostic channel, to be dropped.
    Noise,
    /// A line of the diagnostic channel that is kept for the failure report.
    Diagnostic(String),
    /// A piece of the final payload.
    RawOutput(String),
}

/// The mathematical value of a [`Classified`].
pub ghost enum ClassifiedView {
    Progress(ProgressView),
    Noise,
    Diagnostic(Seq<char>),
    RawOutput(Seq<char>),
}

impl View for Classified {
    type V = ClassifiedView;

    open spec fn view(&self) -> ClassifiedView {
        match self {
            Classified::Progress(p) => ClassifiedView::Progress(p@),
            Classified::Noise => ClassifiedView::Noise,
            Classified::Diagnostic(t) => ClassifiedView::Diagnostic(t@),
            Classified::RawOutput(t) => ClassifiedView::RawOutput(t@),
        }
    }
}

/// The denylist of interpreter warnings: a line is noise when it holds one of
/// these two texts, letter case observed.
pub open spec fn is_noise(text: Seq<char>) -> bool {
    occurs_in(text, "Warning"@) || occurs_in(text, "warnings.warn"@)
}

/// The progress event that a reading of a line stands for, if any.
pub open spec fn progress_in(reading: Result<JsonView, Seq<char>>) -> Option<ProgressView> {
    match reading {
        Ok(j) => Progress::shape(j),
        Err(_) => None,
    }
}

/// The class of a line, given what reading it as JSON gave. A progress event
/// is one on either channel; of the rest, the diagnostic channel's lines are
/// noise or diagnostics, and the output channel's are pieces of the payload.
pub open spec fn classification(
    line: RawLineView,
    reading: Result<JsonView, Seq<char>>,
) -> ClassifiedView {
    match progress_in(reading) {
        Some(p) => ClassifiedView::Progress(p),
        None => match line.source {
            StreamSource::Stderr => if is_noise(line.text) {
                ClassifiedView::Noise
            } else {
                ClassifiedView::Diagnostic(line.text)
            },
            StreamSource::Stdout => ClassifiedView::RawOutput(line.text),
        },
    }
}

/// Whether a line of the diagnostic channel is on the denylist.
pub fn noise(text: &str) -> (r: bool)
    ensures
        r == is_noise(text@),
{
    contains(text, "Warning") || contains(text, "warnings.warn")
}

/// Classifies a line whose reading as JSON is at hand.
pub fn classify_with(line: RawLine, reading: &Result<Json, String>) -> (c: Classified)
    ensures
        c@ == classification(line@, reading_view(*reading)),
{
    let progress = match reading {
        Ok(j) => Progress::from_json(j),
        Err(_) => None,
    };
    match progress {
        Some(p) => Classified::Progress(p),
        None => match line.source {
            StreamSource::Stderr => if noise(line.text.as_str()) {
                Classified::Noise
            } else {
                Classified::Diagnostic(line.text)
            },
            StreamSource::Stdout => Classified::RawOutput(line.text),
        },
    }
}

/// Classifies a line: reads it as JSON, then decides.
pub fn classify(line: RawLine) -> (c: Classified)
    ensures
        c@ == classification(line@, json_reading(line@.text)),
{
    let reading = Json::parse(line.text.as_str());
    classify_with(line, &reading)
}

} // verus!
