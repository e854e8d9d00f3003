//! Orchestration of an analysis worker run as a child process: its two output
//! streams are classified line by line, progress is relayed, and one terminal
//! outcome is synthesized when the worker ends.

pub mod classify;
pub mod json;
pub mod model;
pub mod orchestrator;
pub mod outcome;
pub mod payload;
pub mod session;
pub mod text;

pub use crate::classify::{Classified, RawLine, StreamSource};
pub use crate::orchestrator::{Invocation, LaunchFailure};
pub use crate::outcome::AnalysisOutcome;
pub use crate::payload::{
    AnalysisError, AnalysisResult, NoteLocator, Pattern, Progress, StaffPatternData,
};
pub use crate::session::{Session, Step, Transcript, WorkerEvent};
