use sidecar_protocol::json::{Json, JsonNumber};
use sidecar_protocol::payload::integers_from_json;
use sidecar_protocol::{
    AnalysisError, AnalysisResult, NoteLocator, Pattern, Progress, StaffPatternData,
};

fn doc(text: &str) -> Json {
    Json::parse(text).unwrap()
}

#[test]
fn progress_is_read_from_its_five_members() {
    let j = doc(
        "{\"type\":\"progress\",\"stage\":\"parse\",\"current\":2,\"total\":5,\"message\":\"Reading\"}",
    );
    assert_eq!(
        Progress::from_json(&j),
        Some(Progress {
            progress_type: "progress".to_string(),
            stage: "parse".to_string(),
            current: 2,
            total: 5,
            message: "Reading".to_string(),
        })
    );
}

#[test]
fn progress_passes_over_other_members() {
    let j = doc(
        "{\"extra\":[1],\"type\":\"p\",\"stage\":\"s\",\"current\":-1,\"total\":0,\"message\":\"\"}",
    );
    assert_eq!(
        Progress::from_json(&j),
        Some(Progress {
            progress_type: "p".to_string(),
            stage: "s".to_string(),
            current: -1,
            total: 0,
            message: "".to_string(),
        })
    );
}

#[test]
fn progress_needs_every_member() {
    let full = [
        ("type", "\"p\""),
        ("stage", "\"s\""),
        ("current", "1"),
        ("total", "2"),
        ("message", "\"m\""),
    ];
    for skip in 0..full.len() {
        let members: Vec<String> = full
            .iter()
            .enumerate()
            .filter(|(i, _)| *i != skip)
            .map(|(_, (k, v))| format!("\"{}\":{}", k, v))
            .collect();
        let text = format!("{{{}}}", members.join(","));
        assert_eq!(Progress::from_json(&doc(&text)), None, "{}", text);
    }
}

#[test]
fn progress_needs_members_of_the_right_type() {
    let texts = [
        "{\"type\":1,\"stage\":\"s\",\"current\":1,\"total\":2,\"message\":\"m\"}",
        "{\"type\":\"p\",\"stage\":null,\"current\":1,\"total\":2,\"message\":\"m\"}",
        "{\"type\":\"p\",\"stage\":\"s\",\"current\":\"1\",\"total\":2,\"message\":\"m\"}",
        "{\"type\":\"p\",\"stage\":\"s\",\"current\":1.5,\"total\":2,\"message\":\"m\"}",
        "{\"type\":\"p\",\"stage\":\"s\",\"current\":1,\"total\":2147483648,\"message\":\"m\"}",
        "{\"type\":\"p\",\"stage\":\"s\",\"current\":1,\"total\":2,\"message\":[\"m\"]}",
        "[\"p\",\"s\",1,2,\"m\"]",
        "\"progress\"",
        "null",
    ];
    for text in texts {
        assert_eq!(Progress::from_json(&doc(text)), None, "{}", text);
    }
}

#[test]
fn error_object_is_read_from_its_member() {
    assert_eq!(
        AnalysisError::from_json(&doc("{\"error\":\"Unsupported file format\"}")),
        Some(AnalysisError { error: "Unsupported file format".to_string() })
    );
    assert_eq!(
        AnalysisError::from_json(&doc("{\"error\":\"\",\"code\":3}")),
        Some(AnalysisError { error: "".to_string() })
    );
}

#[test]
fn error_object_needs_a_string() {
    for text in ["{}", "{\"error\":1}", "{\"error\":null}", "{\"Error\":\"x\"}", "[]", "\"error\""] {
        assert_eq!(AnalysisError::from_json(&doc(text)), None, "{}", text);
    }
}

#[test]
fn note_locator_with_and_without_beat() {
    assert_eq!(
        NoteLocator::from_json(&doc("{\"index\":1,\"measure\":2,\"beat\":1.5,\"pitch\":\"C4\"}")),
        Some(NoteLocator {
            index: 1,
            measure: 2,
            beat: Some(JsonNumber::Real(1.5f64.to_bits())),
            pitch: "C4".to_string(),
        })
    );
    assert_eq!(
        NoteLocator::from_json(&doc("{\"index\":1,\"measure\":2,\"beat\":3,\"pitch\":\"C4\"}")),
        Some(NoteLocator {
            index: 1,
            measure: 2,
            beat: Some(JsonNumber::Unsigned(3)),
            pitch: "C4".to_string(),
        })
    );
    assert_eq!(
        NoteLocator::from_json(&doc("{\"index\":1,\"measure\":2,\"beat\":null,\"pitch\":\"C4\"}")),
        Some(NoteLocator { index: 1, measure: 2, beat: None, pitch: "C4".to_string() })
    );
    assert_eq!(
        NoteLocator::from_json(&doc("{\"index\":1,\"measure\":2,\"pitch\":\"C4\"}")),
        Some(NoteLocator { index: 1, measure: 2, beat: None, pitch: "C4".to_string() })
    );
}

#[test]
fn note_locator_rejects_a_beat_that_is_no_number() {
    assert_eq!(
        NoteLocator::from_json(&doc("{\"index\":1,\"measure\":2,\"beat\":\"1\",\"pitch\":\"C4\"}")),
        None
    );
    assert_eq!(NoteLocator::from_json(&doc("{\"index\":1,\"measure\":2,\"beat\":1}")), None);
}

#[test]
fn integers_are_read_in_order() {
    assert_eq!(integers_from_json(&vec![]), Some(vec![]));
    match doc("[3, -1, 2147483647]") {
        Json::Array(items) => assert_eq!(integers_from_json(&items), Some(vec![3, -1, i32::MAX])),
        _ => unreachable!(),
    }
    match doc("[3, 1.5]") {
        Json::Array(items) => assert_eq!(integers_from_json(&items), None),
        _ => unreachable!(),
    }
    match doc("[3, \"4\"]") {
        Json::Array(items) => assert_eq!(integers_from_json(&items), None),
        _ => unreachable!(),
    }
}

const PATTERN: &str = "{\"id\":7,\"length\":3,\"count\":2,\"positions\":[0,12],\"notes\":[\
{\"index\":0,\"measure\":1,\"beat\":1.0,\"pitch\":\"C4\"},\
{\"index\":1,\"measure\":1,\"pitch\":\"E4\"}]}";

fn pattern() -> Pattern {
    Pattern {
        id: 7,
        length: 3,
        count: 2,
        positions: vec![0, 12],
        notes: vec![
            NoteLocator {
                index: 0,
                measure: 1,
                beat: Some(JsonNumber::Real(1.0f64.to_bits())),
                pitch: "C4".to_string(),
            },
            NoteLocator { index: 1, measure: 1, beat: None, pitch: "E4".to_string() },
        ],
    }
}

#[test]
fn pattern_is_read_with_its_lists() {
    assert_eq!(Pattern::from_json(&doc(PATTERN)), Some(pattern()));
}

#[test]
fn pattern_rejects_a_bad_item() {
    let text = "{\"id\":7,\"length\":3,\"count\":2,\"positions\":[0,\"x\"],\"notes\":[]}";
    assert_eq!(Pattern::from_json(&doc(text)), None);
    let text = "{\"id\":7,\"length\":3,\"count\":2,\"positions\":[],\"notes\":[{}]}";
    assert_eq!(Pattern::from_json(&doc(text)), None);
    let text = "{\"id\":7,\"length\":3,\"count\":2,\"positions\":{},\"notes\":[]}";
    assert_eq!(Pattern::from_json(&doc(text)), None);
}

#[test]
fn lists_of_patterns_and_notes() {
    match doc(&format!("[{},{}]", PATTERN, PATTERN)) {
        Json::Array(items) => {
            assert_eq!(Pattern::all_from_json(&items), Some(vec![pattern(), pattern()]))
        }
        _ => unreachable!(),
    }
    match doc(&format!("[{},7]", PATTERN)) {
        Json::Array(items) => assert_eq!(Pattern::all_from_json(&items), None),
        _ => unreachable!(),
    }
    assert_eq!(NoteLocator::all_from_json(&vec![]), Some(vec![]));
    assert_eq!(NoteLocator::all_from_json(&vec![Json::Null]), None);
}

fn staff_text(index: i32, name: &str, patterns: &str) -> String {
    format!("{{\"part_index\":{},\"part_name\":\"{}\",\"patterns\":[{}]}}", index, name, patterns)
}

#[test]
fn staff_is_read() {
    assert_eq!(
        StaffPatternData::from_json(&doc(&staff_text(0, "Piano RH", PATTERN))),
        Some(StaffPatternData {
            part_index: 0,
            part_name: "Piano RH".to_string(),
            patterns: vec![pattern()],
        })
    );
    assert_eq!(StaffPatternData::from_json(&doc("{\"part_index\":0,\"part_name\":\"x\"}")), None);
}

#[test]
fn result_with_the_embedded_document() {
    let text = format!(
        "{{\"file\":\"song.mxl\",\"treble\":{},\"bass\":{},\"musicxml_content\":\"<score/>\"}}",
        staff_text(0, "RH", PATTERN),
        staff_text(1, "LH", "")
    );
    assert_eq!(
        AnalysisResult::from_json(&doc(&text)),
        Ok(AnalysisResult {
            file: "song.mxl".to_string(),
            treble: StaffPatternData {
                part_index: 0,
                part_name: "RH".to_string(),
                patterns: vec![pattern()],
            },
            bass: StaffPatternData { part_index: 1, part_name: "LH".to_string(), patterns: vec![] },
            musicxml_content: Some("<score/>".to_string()),
        })
    );
}

#[test]
fn result_of_the_older_shape() {
    let text = format!(
        "{{\"file\":\"a\",\"treble\":{},\"bass\":{}}}",
        staff_text(0, "RH", ""),
        staff_text(1, "LH", "")
    );
    let result = AnalysisResult::from_json(&doc(&text)).unwrap();
    assert_eq!(result.musicxml_content, None);
    assert_eq!(result.file, "a");
    assert_eq!(result.bass.part_index, 1);
    let text = format!(
        "{{\"file\":\"a\",\"treble\":{},\"bass\":{},\"musicxml_content\":null}}",
        staff_text(0, "RH", ""),
        staff_text(1, "LH", "")
    );
    assert_eq!(AnalysisResult::from_json(&doc(&text)).unwrap().musicxml_content, None);
}

#[test]
fn result_names_what_is_missing_or_does_not_fit() {
    let staff = staff_text(0, "RH", "");
    let cases = [
        ("[]".to_string(), "expected an object"),
        ("\"text\"".to_string(), "expected an object"),
        ("null".to_string(), "expected an object"),
        ("{}".to_string(), "missing field `file`"),
        (format!("{{\"treble\":{},\"bass\":{}}}", staff, staff), "missing field `file`"),
        (
            format!("{{\"file\":1,\"treble\":{},\"bass\":{}}}", staff, staff),
            "invalid value for field `file`",
        ),
        (format!("{{\"file\":\"a\",\"bass\":{}}}", staff), "missing field `treble`"),
        (
            format!("{{\"file\":\"a\",\"treble\":{{}},\"bass\":{}}}", staff),
            "invalid value for field `treble`",
        ),
        (format!("{{\"file\":\"a\",\"treble\":{}}}", staff), "missing field `bass`"),
        (
            format!("{{\"file\":\"a\",\"treble\":{},\"bass\":null}}", staff),
            "invalid value for field `bass`",
        ),
        (
            format!(
                "{{\"file\":\"a\",\"treble\":{},\"bass\":{}}}",
                staff,
                staff_text(1, "LH", "{\"id\":1}")
            ),
            "invalid value for field `bass`",
        ),
        (
            format!(
                "{{\"file\":\"a\",\"treble\":{},\"bass\":{},\"musicxml_content\":5}}",
                staff, staff
            ),
            "invalid value for field `musicxml_content`",
        ),
    ];
    for (text, reason) in cases {
        assert_eq!(AnalysisResult::from_json(&doc(&text)), Err(reason.to_string()), "{}", text);
    }
}

#[test]
fn result_names_the_first_fault() {
    assert_eq!(
        AnalysisResult::from_json(&doc("{\"file\":1,\"musicxml_content\":5}")),
        Err("invalid value for field `file`".to_string())
    );
    assert_eq!(
        AnalysisResult::from_json(&doc("{\"file\":\"a\",\"treble\":3,\"musicxml_content\":5}")),
        Err("invalid value for field `treble`".to_string())
    );
}
