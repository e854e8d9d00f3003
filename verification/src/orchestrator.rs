//! The orchestrator: one invocation from the launch of the worker to its
//! outcome.

use crate::outcome::{failure_note, transport_failure, AnalysisOutcome, OutcomeView};
use crate::session::{replay, transcript, Transcript, TranscriptView, WorkerEvent};
use crate::model::views;
use vstd::prelude::*;

verus! {

/// What is to be run: the worker's executable and its arguments, the input
/// file first.
#[derive(Debug, Clone, PartialEq, Eq)]
pub struct Invocation {
    pub executable: String,
    pub arguments: Vec<String>,
}

/// The mathematical value of an [`Invocation`].
pub ghost struct InvocationView {
    pub executable: Seq<char>,
    pub arguments: Seq<Seq<char>>,
}

impl View for Invocation {
    type V = InvocationView;

    open spec fn view(&self) -> InvocationView {
        InvocationView { executable: self.executable@, arguments: views(self.arguments@) }
    }
}

impl InvocationView {
    /// The input file: the first argument, or nothing where there is none.
    pub open spec fn input(self) -> Seq<char> {
        if self.arguments.len() > 0 {
            self.arguments[0]
        } else {
            Seq::empty()
        }
    }
}

/// Why no worker process came to be.
#[derive(Debug, Clone, PartialEq, Eq)]
pub enum LaunchFailure {
    /// The executable could not be resolved.
    Unresolved(String),
    /// The operating system did not start the process.
    NotStarted(String),
}

/// The mathematical value of a [`LaunchFailure`].
pub ghost enum LaunchFailureView {
    Unresolved(Seq<char>),
    NotStarted(Seq<char>),
}

impl View for LaunchFailure {
    type V = LaunchFailureView;

    open spec fn view(&self) -> LaunchFailureView {
        match self {
            LaunchFailure::Unresolved(d) => LaunchFailureView::Unresolved(d@),
            LaunchFailure::NotStarted(d) => LaunchFailureView::NotStarted(d@),
        }
    }
}

/// The description of a failed launch; one that the operating system refused
/// names the input file.
pub open spec fn launch_failure_text(
    invocation: InvocationView,
    failure: LaunchFailureView,
) -> Seq<char> {
    match failure {
        LaunchFailureView::Unresolved(d) => failure_note("Failed to create sidecar"@, d),
        LaunchFailureView::NotStarted(d) => failure_note(
            "Failed to spawn sidecar"@,
            d + " (path: "@ + invocation.input() + ")"@,
        ),
    }
}

/// What an invocation comes to: a failed launch is a transport failure with
/// nothing relayed; a started worker gives the transcript of its feed.
pub open spec fn orchestration(
    invocation: InvocationView,
    launch: Result<(), LaunchFailureView>,
    events: Seq<crate::session::EventView>,
) -> TranscriptView {
    match launch {
        Err(failure) => TranscriptView {
            relay: Seq::empty(),
            outcome: OutcomeView::TransportFailure(launch_failure_text(invocation, failure)),
        },
        Ok(_) => transcript(events),
    }
}

/// The view of the result of a launch.
pub open spec fn launch_view(launch: Result<(), LaunchFailure>) -> Result<(), LaunchFailureView> {
    match launch {
        Ok(_) => Ok(()),
        Err(failure) => Err(failure@),
    }
}

impl Invocation {
    /// The invocation of the analyzer on one input file.
    pub fn analyzer(path: String) -> (r: Invocation)
        ensures
            r@.executable == "analyzer"@,
            r@.arguments == seq![path@],
    {
        let mut arguments: Vec<String> = Vec::new();
        arguments.push(path);
        let r = Invocation { executable: String::from_str("analyzer"), arguments };
        assert(r@.arguments =~= seq![path@]);
        r
    }

    /// The input file: the first argument, or nothing where there is none.
    pub fn input(&self) -> (r: &str)
        ensures
            r@ == self@.input(),
    {
        if self.arguments.len() > 0 {
            self.arguments[0].as_str()
        } else {
            proof {
                reveal_strlit("");
            }
            assert(""@ =~= Seq::<char>::empty());
            ""
        }
    }

    /// The outcome of an invocation whose launch failed.
    pub fn launch_failed(&self, failure: &LaunchFailure) -> (o: AnalysisOutcome)
        ensures
            o@ == OutcomeView::TransportFailure(launch_failure_text(self@, failure@)),
    {
        match failure {
            LaunchFailure::Unresolved(d) => transport_failure("Failed to create sidecar", d.as_str()),
            LaunchFailure::NotStarted(d) => {
                let mut detail = d.clone();
                detail.append(" (path: ");
                detail.append(self.input());
                detail.append(")");
                transport_failure("Failed to spawn sidecar", detail.as_str())
            },
        }
    }

    /// Runs this invocation over what happened: the result of the launch and,
    /// where the worker started, its recorded feed.
    pub fn orchestrate(&self, launch: &Result<(), LaunchFailure>, events: &Vec<WorkerEvent>) -> (t:
        Transcript)
        ensures
            t@ == orchestration(self@, launch_view(*launch), views(events@)),
    {
        match launch {
            Err(failure) => {
                let t = Transcript { relay: Vec::new(), outcome: self.launch_failed(failure) };
                assert(views(t.relay@) =~= Seq::empty());
                t
            },
            Ok(_) => replay(events),
        }
    }
}

/// A launch that fails gives a transport failure, and nothing is relayed
/// before it.
pub proof fn law_failed_launch(
    invocation: InvocationView,
    failure: LaunchFailureView,
    events: Seq<crate::session::EventView>,
)
    ensures
        orchestration(invocation, Err(failure), events).relay.len() == 0,
        orchestration(invocation, Err(failure), events).outcome is TransportFailure,
{
}

} // verus!
