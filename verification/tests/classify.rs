use sidecar_protocol::classify::{classify, classify_with, noise};
use sidecar_protocol::json::Json;
use sidecar_protocol::{Classified, Progress, RawLine, StreamSource};

fn line(source: StreamSource, text: &str) -> RawLine {
    RawLine { source, text: text.to_string() }
}

const PROGRESS: &str =
    "{\"type\":\"progress\",\"stage\":\"load\",\"current\":1,\"total\":4,\"message\":\"Loading\"}";

fn progress() -> Progress {
    Progress {
        progress_type: "progress".to_string(),
        stage: "load".to_string(),
        current: 1,
        total: 4,
        message: "Loading".to_string(),
    }
}

#[test]
fn the_denylist() {
    assert!(noise("/usr/lib/python3/x.py:3: DeprecationWarning: old call"));
    assert!(noise("  warnings.warn(\"old\")"));
    assert!(noise("RuntimeWarning"));
    assert!(!noise("warning: not on the list"));
    assert!(!noise("Traceback (most recent call last):"));
    assert!(!noise(""));
}

#[test]
fn progress_on_the_diagnostic_channel() {
    assert_eq!(classify(line(StreamSource::Stderr, PROGRESS)), Classified::Progress(progress()));
}

#[test]
fn progress_on_the_output_channel() {
    assert_eq!(classify(line(StreamSource::Stdout, PROGRESS)), Classified::Progress(progress()));
}

#[test]
fn progress_comes_before_noise() {
    let text =
        "{\"type\":\"progress\",\"stage\":\"s\",\"current\":1,\"total\":4,\"message\":\"Warning\"}";
    assert!(matches!(classify(line(StreamSource::Stderr, text)), Classified::Progress(_)));
}

#[test]
fn noise_is_dropped_on_the_diagnostic_channel_only() {
    assert_eq!(classify(line(StreamSource::Stderr, "UserWarning: x")), Classified::Noise);
    assert_eq!(
        classify(line(StreamSource::Stdout, "UserWarning: x")),
        Classified::RawOutput("UserWarning: x".to_string())
    );
}

#[test]
fn other_diagnostic_lines_are_kept() {
    assert_eq!(
        classify(line(StreamSource::Stderr, "ValueError: bad measure")),
        Classified::Diagnostic("ValueError: bad measure".to_string())
    );
    assert_eq!(classify(line(StreamSource::Stderr, "")), Classified::Diagnostic("".to_string()));
    assert_eq!(
        classify(line(StreamSource::Stderr, "{\"type\":\"progress\"}")),
        Classified::Diagnostic("{\"type\":\"progress\"}".to_string())
    );
}

#[test]
fn output_lines_are_pieces_of_the_payload() {
    assert_eq!(
        classify(line(StreamSource::Stdout, "{\"file\": \"a\",")),
        Classified::RawOutput("{\"file\": \"a\",".to_string())
    );
    assert_eq!(
        classify(line(StreamSource::Stdout, "{\"error\":\"x\"}")),
        Classified::RawOutput("{\"error\":\"x\"}".to_string())
    );
}

#[test]
fn classification_goes_by_the_reading_it_is_given() {
    let reading = Json::parse(PROGRESS);
    assert_eq!(
        classify_with(line(StreamSource::Stderr, "anything"), &reading),
        Classified::Progress(progress())
    );
    let reading: Result<Json, String> = Err("no document".to_string());
    assert_eq!(
        classify_with(line(StreamSource::Stderr, PROGRESS), &reading),
        Classified::Diagnostic(PROGRESS.to_string())
    );
    let reading = Ok(Json::Null);
    assert_eq!(
        classify_with(line(StreamSource::Stderr, "a Warning"), &reading),
        Classified::Noise
    );
    assert_eq!(
        classify_with(line(StreamSource::Stdout, "a Warning"), &reading),
        Classified::RawOutput("a Warning".to_string())
    );
}
