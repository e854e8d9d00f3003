//! The result synthesizer: the one terminal outcome of an invocation.

use crate::json::{json_reading, reading_view, Json, JsonView};
use crate::model::views;
use crate::payload::{AnalysisError, AnalysisResult, AnalysisResultView};
use crate::text::{decimal, decimal_text, join, joined, occurs_at, occurs_in};
use vstd::prelude::*;

verus! {

/// How an invocation ended.
#[derive(Debug, Clone, PartialEq, Eq)]
pub enum AnalysisOutcome {
    /// The worker delivered a well-formed result.
    Success(AnalysisResult),
    /// The worker reported a problem of its own domain.
    ApplicationError(String),
    /// The worker ended with a failure status and no error object.
    ProcessFailure { code: Option<i32>, text: String },
    /// The worker could not be started, its event feed broke, or its output
    /// could not be read.
    TransportFailure(String),
}

/// The mathematical value of an [`AnalysisOutcome`].
pub ghost enum OutcomeView {
    Success(AnalysisResultView),
    ApplicationError(Seq<char>),
    ProcessFailure { code: Option<i32>, text: Seq<char> },
    TransportFailure(Seq<char>),
}

impl View for AnalysisOutcome {
    type V = OutcomeView;

    open spec fn view(&self) -> OutcomeView {
        match self {
            AnalysisOutcome::Success(r) => OutcomeView::Success(r@),
            AnalysisOutcome::ApplicationError(m) => OutcomeView::ApplicationError(m@),
            AnalysisOutcome::ProcessFailure { code, text } => OutcomeView::ProcessFailure {
                code: *code,
                text: text@,
            },
            AnalysisOutcome::TransportFailure(d) => OutcomeView::TransportFailure(d@),
        }
    }
}

/// What `str`'s `Debug` formatting writes for a text: the text between double
/// quotes, with its escapes.
pub uninterp spec fn debug_quoted(text: Seq<char>) -> Seq<char>;

/// An exit status as it is named in a failure message.
pub open spec fn exit_text(code: Option<i32>) -> Seq<char> {
    match code {
        Some(c) => "Some("@ + decimal(c as int) + ")"@,
        None => "None"@,
    }
}

/// The text of a process failure: the diagnostics joined by line feeds, in
/// the order of arrival, or, where that is empty, a message that names the
/// exit status.
pub open spec fn failure_text(code: Option<i32>, diagnostics: Seq<Seq<char>>) -> Seq<char> {
    let listed = joined(diagnostics, "\n"@);
    if listed.len() == 0 {
        "Process failed with exit code: "@ + exit_text(code)
    } else {
        listed
    }
}

/// The description of an output that could not be read: the reason, then
/// the quoted output.
pub open spec fn unreadable(reason: Seq<char>, quoted_output: Seq<char>) -> Seq<char> {
    "Failed to parse output: "@ + reason + " (got: "@ + quoted_output + ")"@
}

/// The message of the error object that a reading of the output stands for.
pub open spec fn error_in(reading: Result<JsonView, Seq<char>>) -> Option<Seq<char>> {
    match reading {
        Ok(j) => match AnalysisError::shape(j) {
            Some(e) => Some(e.error),
            None => None,
        },
        Err(_) => None,
    }
}

/// The terminal outcome, decided in this order: an error object in the output
/// wins whatever the exit status; else a status other than zero is a process
/// failure; else the output is a result or cannot be read.
pub open spec fn outcome_of(
    code: Option<i32>,
    diagnostics: Seq<Seq<char>>,
    reading: Result<JsonView, Seq<char>>,
    quoted_output: Seq<char>,
) -> OutcomeView {
    if let Some(message) = error_in(reading) {
        OutcomeView::ApplicationError(message)
    } else if code != Some(0i32) {
        OutcomeView::ProcessFailure { code, text: failure_text(code, diagnostics) }
    } else {
        match reading {
            Ok(j) => match AnalysisResult::reading(j) {
                Ok(result) => OutcomeView::Success(result),
                Err(reason) => OutcomeView::TransportFailure(unreadable(reason, quoted_output)),
            },
            Err(reason) => OutcomeView::TransportFailure(unreadable(reason, quoted_output)),
        }
    }
}

/// A failure note: what was being done, then what went wrong.
pub open spec fn failure_note(context: Seq<char>, detail: Seq<char>) -> Seq<char> {
    context + ": "@ + detail
}

/// What the caller of the analysis is told when it did not succeed.
pub open spec fn rejection(outcome: OutcomeView) -> Seq<char> {
    match outcome {
        OutcomeView::Success(_) => Seq::empty(),
        OutcomeView::ApplicationError(message) => message,
        OutcomeView::ProcessFailure { code, text } => "Analyzer failed: "@ + text,
        OutcomeView::TransportFailure(description) => description,
    }
}

/// Formats a text with `str`'s `Debug` implementation, through `format!`. The
/// contract claims only that the result depends on the text alone.
#[verifier::external_body]
fn debug_quote(text: &str) -> (r: String)
    ensures
        r@ == debug_quoted(text@),
{
    format!("{:?}", text)
}

/// A text as it is quoted in a description.
pub fn quote(text: &str) -> (r: String)
    ensures
        r@ == debug_quoted(text@),
{
    debug_quote(text)
}

/// Names an exit status.
pub fn describe_exit(code: Option<i32>) -> (r: String)
    ensures
        r@ == exit_text(code),
{
    match code {
        Some(c) => {
            let mut out = String::from_str("Some(");
            let number = decimal_text(c);
            out.append(number.as_str());
            out.append(")");
            out
        },
        None => String::from_str("None"),
    }
}

/// The text of a process failure.
pub fn describe_failure(code: Option<i32>, diagnostics: &Vec<String>) -> (r: String)
    ensures
        r@ == failure_text(code, views(diagnostics@)),
{
    let listed = join(diagnostics, "\n");
    if listed.as_str().is_empty() {
        let mut out = String::from_str("Process failed with exit code: ");
        let status = describe_exit(code);
        out.append(status.as_str());
        out
    } else {
        listed
    }
}

/// The description of an output that could not be read.
pub fn describe_unreadable(reason: &str, quoted_output: &str) -> (r: String)
    ensures
        r@ == unreadable(reason@, quoted_output@),
{
    let mut out = String::from_str("Failed to parse output: ");
    out.append(reason);
    out.append(" (got: ");
    out.append(quoted_output);
    out.append(")");
    out
}

/// Writes a failure note.
pub fn note_failure(context: &str, detail: &str) -> (r: String)
    ensures
        r@ == failure_note(context@, detail@),
{
    let mut out = String::from_str(context);
    out.append(": ");
    out.append(detail);
    out
}

/// A transport failure described by a failure note.
pub fn transport_failure(context: &str, detail: &str) -> (o: AnalysisOutcome)
    ensures
        o@ == OutcomeView::TransportFailure(failure_note(context@, detail@)),
{
    AnalysisOutcome::TransportFailure(note_failure(context, detail))
}

/// Synthesizes the outcome from the exit status, the diagnostics, the reading
/// of the whole output as JSON and the quoted output.
pub fn synthesize_with(
    code: Option<i32>,
    diagnostics: &Vec<String>,
    reading: Result<Json, String>,
    quoted_output: &str,
) -> (o: AnalysisOutcome)
    ensures
        o@ == outcome_of(code, views(diagnostics@), reading_view(reading), quoted_output@),
{
    let reported = match &reading {
        Ok(j) => AnalysisError::from_json(j),
        Err(_) => None,
    };
    if let Some(e) = reported {
        return AnalysisOutcome::ApplicationError(e.error);
    }
    let succeeded = match code {
        Some(c) => c == 0,
        None => false,
    };
    if !succeeded {
        return AnalysisOutcome::ProcessFailure { code, text: describe_failure(code, diagnostics) };
    }
    match reading {
        Ok(j) => match AnalysisResult::from_json(&j) {
            Ok(result) => AnalysisOutcome::Success(result),
            Err(reason) => AnalysisOutcome::TransportFailure(
                describe_unreadable(reason.as_str(), quoted_output),
            ),
        },
        Err(reason) => AnalysisOutcome::TransportFailure(
            describe_unreadable(reason.as_str(), quoted_output),
        ),
    }
}

/// Synthesizes the outcome from the exit status, the diagnostics and the
/// whole output.
pub fn synthesize(code: Option<i32>, diagnostics: &Vec<String>, raw_output: &str) -> (o:
    AnalysisOutcome)
    ensures
        o@ == outcome_of(
            code,
            views(diagnostics@),
            json_reading(raw_output@),
            debug_quoted(raw_output@),
        ),
{
    let reading = Json::parse(raw_output);
    let quoted = quote(raw_output);
    synthesize_with(code, diagnostics, reading, quoted.as_str())
}

impl AnalysisOutcome {
    /// The outcome as the caller of the analysis receives it: the result, or
    /// the message of the failure.
    pub fn into_result(self) -> (r: Result<AnalysisResult, String>)
        ensures
            match r {
                Ok(result) => self@ == OutcomeView::Success(result@),
                Err(message) => !(self@ is Success) && message@ == rejection(self@),
            },
    {
        match self {
            AnalysisOutcome::Success(result) => Ok(result),
            AnalysisOutcome::ApplicationError(message) => Err(message),
            AnalysisOutcome::ProcessFailure { code, text } => {
                let mut out = String::from_str("Analyzer failed: ");
                out.append(text.as_str());
                Err(out)
            },
            AnalysisOutcome::TransportFailure(description) => Err(description),
        }
    }
}

/// The result that a reading of the output stands for.
pub open spec fn result_in(reading: Result<JsonView, Seq<char>>) -> Option<AnalysisResultView> {
    match reading {
        Ok(j) => AnalysisResult::shape(j),
        Err(_) => None,
    }
}

/// An error object in the output decides the outcome, whatever the exit
/// status and whatever the diagnostics.
pub proof fn law_error_object_wins(
    code: Option<i32>,
    diagnostics: Seq<Seq<char>>,
    reading: Result<JsonView, Seq<char>>,
    quoted_output: Seq<char>,
    message: Seq<char>,
)
    requires
        error_in(reading) == Some(message),
    ensures
        outcome_of(code, diagnostics, reading, quoted_output) == OutcomeView::ApplicationError(
            message,
        ),
{
}

/// Without an error object, an exit status other than zero is a process
/// failure whose text is the diagnostics joined by line feeds, in the order
/// of arrival, where that text is not empty.
pub proof fn law_failure_lists_diagnostics(
    code: Option<i32>,
    diagnostics: Seq<Seq<char>>,
    reading: Result<JsonView, Seq<char>>,
    quoted_output: Seq<char>,
)
    requires
        code != Some(0i32),
        error_in(reading) is None,
        joined(diagnostics, "\n"@).len() > 0,
    ensures
        outcome_of(code, diagnostics, reading, quoted_output) == (OutcomeView::ProcessFailure {
            code,
            text: joined(diagnostics, "\n"@),
        }),
{
}

/// Without an error object and without a diagnostic, an exit status other
/// than zero is a process failure whose text names the exit status.
pub proof fn law_failure_names_status(
    code: Option<i32>,
    reading: Result<JsonView, Seq<char>>,
    quoted_output: Seq<char>,
)
    requires
        code != Some(0i32),
        error_in(reading) is None,
    ensures
        outcome_of(code, Seq::empty(), reading, quoted_output) == (OutcomeView::ProcessFailure {
            code,
            text: "Process failed with exit code: "@ + exit_text(code),
        }),
{
    assert(joined(Seq::<Seq<char>>::empty(), "\n"@) =~= Seq::<char>::empty());
}

/// With exit status zero, an output that reads as a result and holds no
/// error object is a success that carries that result as it was read,
/// whatever the diagnostics.
pub proof fn law_result_is_success(
    diagnostics: Seq<Seq<char>>,
    reading: Result<JsonView, Seq<char>>,
    quoted_output: Seq<char>,
    result: AnalysisResultView,
)
    requires
        error_in(reading) is None,
        result_in(reading) == Some(result),
    ensures
        outcome_of(Some(0i32), diagnostics, reading, quoted_output) == OutcomeView::Success(
            result,
        ),
{
}

/// With exit status zero, an output that is neither an error object nor a
/// result is a transport failure whose description holds the quoted output.
pub proof fn law_unreadable_output_is_quoted(
    diagnostics: Seq<Seq<char>>,
    reading: Result<JsonView, Seq<char>>,
    quoted_output: Seq<char>,
)
    requires
        error_in(reading) is None,
        result_in(reading) is None,
    ensures
        outcome_of(Some(0i32), diagnostics, reading, quoted_output) is TransportFailure,
        occurs_in(
            outcome_of(Some(0i32), diagnostics, reading, quoted_output)->TransportFailure_0,
            quoted_output,
        ),
{
    let reason = match reading {
        Ok(j) => AnalysisResult::fault(j),
        Err(e) => e,
    };
    let description = unreadable(reason, quoted_output);
    assert(outcome_of(Some(0i32), diagnostics, reading, quoted_output)
        == OutcomeView::TransportFailure(description));
    let at = ("Failed to parse output: "@ + reason + " (got: "@).len() as int;
    assert(description.subrange(at, at + quoted_output.len()) =~= quoted_output);
    assert(occurs_at(description, quoted_output, at));
}

} // verus!
