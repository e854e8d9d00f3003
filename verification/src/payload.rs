//! The payloads that the worker writes, and how each is recognised in a JSON
//! document: progress events, the error object and the final result.

use crate::json::{Json, JsonNumber, JsonView};
use crate::model::{some_view, some_views, views};
use vstd::prelude::*;

verus! {

/// A status update that the worker emits while it runs.
#[derive(Debug, Clone, PartialEq, Eq)]
pub struct Progress {
    pub progress_type: String,
    pub stage: String,
    pub current: i32,
    pub total: i32,
    pub message: String,
}

/// The mathematical value of a [`Progress`].
pub ghost struct ProgressView {
    pub progress_type: Seq<char>,
    pub stage: Seq<char>,
    pub current: i32,
    pub total: i32,
    pub message: Seq<char>,
}

impl View for Progress {
    type V = ProgressView;

    open spec fn view(&self) -> ProgressView {
        ProgressView {
            progress_type: self.progress_type@,
            stage: self.stage@,
            current: self.current,
            total: self.total,
            message: self.message@,
        }
    }
}

/// The error object by which the worker reports a problem of its own domain.
#[derive(Debug, Clone, PartialEq, Eq)]
pub struct AnalysisError {
    pub error: String,
}

/// The mathematical value of an [`AnalysisError`].
pub ghost struct AnalysisErrorView {
    pub error: Seq<char>,
}

impl View for AnalysisError {
    type V = AnalysisErrorView;

    open spec fn view(&self) -> AnalysisErrorView {
        AnalysisErrorView { error: self.error@ }
    }
}

/// Where one note of a pattern stands in the score. The beat offset is kept
/// as the number that was written.
#[derive(Debug, Clone, PartialEq, Eq)]
pub struct NoteLocator {
    pub index: i32,
    pub measure: i32,
    pub beat: Option<JsonNumber>,
    pub pitch: String,
}

/// The mathematical value of a [`NoteLocator`].
pub ghost struct NoteLocatorView {
    pub index: i32,
    pub measure: i32,
    pub beat: Option<JsonNumber>,
    pub pitch: Seq<char>,
}

impl View for NoteLocator {
    type V = NoteLocatorView;

    open spec fn view(&self) -> NoteLocatorView {
        NoteLocatorView {
            index: self.index,
            measure: self.measure,
            beat: self.beat,
            pitch: self.pitch@,
        }
    }
}

/// One recurring pattern of a part.
#[derive(Debug, Clone, PartialEq, Eq)]
pub struct Pattern {
    pub id: i32,
    pub length: i32,
    pub count: i32,
    pub positions: Vec<i32>,
    pub notes: Vec<NoteLocator>,
}

/// The mathematical value of a [`Pattern`].
pub ghost struct PatternView {
    pub id: i32,
    pub length: i32,
    pub count: i32,
    pub positions: Seq<i32>,
    pub notes: Seq<NoteLocatorView>,
}

impl View for Pattern {
    type V = PatternView;

    open spec fn view(&self) -> PatternView {
        PatternView {
            id: self.id,
            length: self.length,
            count: self.count,
            positions: self.positions@,
            notes: views(self.notes@),
        }
    }
}

/// The patterns found in one part of the score.
#[derive(Debug, Clone, PartialEq, Eq)]
pub struct StaffPatternData {
    pub part_index: i32,
    pub part_name: String,
    pub patterns: Vec<Pattern>,
}

/// The mathematical value of a [`StaffPatternData`].
pub ghost struct StaffPatternDataView {
    pub part_index: i32,
    pub part_name: Seq<char>,
    pub patterns: Seq<PatternView>,
}

impl View for StaffPatternData {
    type V = StaffPatternDataView;

    open spec fn view(&self) -> StaffPatternDataView {
        StaffPatternDataView {
            part_index: self.part_index,
            part_name: self.part_name@,
            patterns: views(self.patterns@),
        }
    }
}

/// The final result of an analysis. The text of the analysed document is
/// there when the worker embedded it.
#[derive(Debug, Clone, PartialEq, Eq)]
pub struct AnalysisResult {
    pub file: String,
    pub treble: StaffPatternData,
    pub bass: StaffPatternData,
    pub musicxml_content: Option<String>,
}

/// The mathematical value of an [`AnalysisResult`].
pub ghost struct AnalysisResultView {
    pub file: Seq<char>,
    pub treble: StaffPatternDataView,
    pub bass: StaffPatternDataView,
    pub musicxml_content: Option<Seq<char>>,
}

impl View for AnalysisResult {
    type V = AnalysisResultView;

    open spec fn view(&self) -> AnalysisResultView {
        AnalysisResultView {
            file: self.file@,
            treble: self.treble@,
            bass: self.bass@,
            musicxml_content: some_view(self.musicxml_content),
        }
    }
}

/// Every item read by `shape`, in order; nothing when one item does not fit.
pub open spec fn each<T>(items: Seq<JsonView>, shape: spec_fn(JsonView) -> Option<T>) -> Option<
    Seq<T>,
> {
    if forall|i: int| 0 <= i < items.len() ==> (#[trigger] shape(items[i])) is Some {
        Some(Seq::new(items.len(), |i: int| shape(items[i])->Some_0))
    } else {
        None
    }
}

/// A member that may be left out or be `null`: the outer option says whether
/// the member fits, the inner one whether a number is there.
pub open spec fn optional_number(j: JsonView, name: Seq<char>) -> Option<Option<JsonNumber>> {
    match j.member(name) {
        None => Some(None),
        Some(JsonView::Null) => Some(None),
        Some(JsonView::Number(n)) => Some(Some(n)),
        Some(_) => None,
    }
}

/// A member that may be left out or be `null`: the outer option says whether
/// the member fits, the inner one whether a string is there.
pub open spec fn optional_text(j: JsonView, name: Seq<char>) -> Option<Option<Seq<char>>> {
    match j.member(name) {
        None => Some(None),
        Some(JsonView::Null) => Some(None),
        Some(JsonView::Text(s)) => Some(Some(s)),
        Some(_) => None,
    }
}

fn optional_number_member(j: &Json, name: &str) -> (r: Option<Option<JsonNumber>>)
    ensures
        r == optional_number(j@, name@),
{
    match j.member(name) {
        None => Some(None),
        Some(m) => match m {
            Json::Null => Some(None),
            Json::Number(n) => Some(Some(*n)),
            _ => None,
        },
    }
}

fn optional_text_member(j: &Json, name: &str) -> (r: Option<Option<String>>)
    ensures
        match r {
            Some(inner) => optional_text(j@, name@) == Some(some_view(inner)),
            None => optional_text(j@, name@) is None,
        },
{
    match j.member(name) {
        None => Some(None),
        Some(m) => match m {
            Json::Null => Some(None),
            Json::Text(s) => Some(Some(s.clone())),
            _ => None,
        },
    }
}

impl Progress {
    /// The progress event that a document stands for: an object whose members
    /// `type`, `stage` and `message` are strings and whose members `current`
    /// and `total` are 32-bit integers. Other members are passed over.
    pub open spec fn shape(j: JsonView) -> Option<ProgressView> {
        match (
            j.text_member("type"@),
            j.text_member("stage"@),
            j.int32_member("current"@),
            j.int32_member("total"@),
            j.text_member("message"@),
        ) {
            (Some(progress_type), Some(stage), Some(current), Some(total), Some(message)) => Some(
                ProgressView { progress_type, stage, current, total, message },
            ),
            _ => None,
        }
    }

    /// Reads a progress event out of a document.
    pub fn from_json(j: &Json) -> (r: Option<Progress>)
        ensures
            some_view(r) == Progress::shape(j@),
    {
        let progress_type = match j.text_member("type") {
            Some(s) => s,
            None => {
                return None;
            },
        };
        let stage = match j.text_member("stage") {
            Some(s) => s,
            None => {
                return None;
            },
        };
        let current = match j.int32_member("current") {
            Some(n) => n,
            None => {
                return None;
            },
        };
        let total = match j.int32_member("total") {
            Some(n) => n,
            None => {
                return None;
            },
        };
        let message = match j.text_member("message") {
            Some(s) => s,
            None => {
                return None;
            },
        };
        Some(Progress { progress_type, stage, current, total, message })
    }
}

impl AnalysisError {
    /// The error object that a document stands for: an object whose member
    /// `error` is a string. Other members are passed over.
    pub open spec fn shape(j: JsonView) -> Option<AnalysisErrorView> {
        match j.text_member("error"@) {
            Some(error) => Some(AnalysisErrorView { error }),
            None => None,
        }
    }

    /// Reads an error object out of a document.
    pub fn from_json(j: &Json) -> (r: Option<AnalysisError>)
        ensures
            some_view(r) == AnalysisError::shape(j@),
    {
        match j.text_member("error") {
            Some(error) => Some(AnalysisError { error }),
            None => None,
        }
    }
}

impl NoteLocator {
    /// The note locator that a document stands for: `index` and `measure` are
    /// 32-bit integers, `pitch` is a string, and `beat` is a number, `null` or
    /// left out.
    pub open spec fn shape(j: JsonView) -> Option<NoteLocatorView> {
        match (
            j.int32_member("index"@),
            j.int32_member("measure"@),
            optional_number(j, "beat"@),
            j.text_member("pitch"@),
        ) {
            (Some(index), Some(measure), Some(beat), Some(pitch)) => Some(
                NoteLocatorView { index, measure, beat, pitch },
            ),
            _ => None,
        }
    }

    /// Reads a note locator out of a document.
    pub fn from_json(j: &Json) -> (r: Option<NoteLocator>)
        ensures
            some_view(r) == NoteLocator::shape(j@),
    {
        let index = match j.int32_member("index") {
            Some(n) => n,
            None => {
                return None;
            },
        };
        let measure = match j.int32_member("measure") {
            Some(n) => n,
            None => {
                return None;
            },
        };
        let beat = match optional_number_member(j, "beat") {
            Some(b) => b,
            None => {
                return None;
            },
        };
        let pitch = match j.text_member("pitch") {
            Some(s) => s,
            None => {
                return None;
            },
        };
        Some(NoteLocator { index, measure, beat, pitch })
    }

    /// Reads every item of an array as a note locator.
    pub fn all_from_json(items: &Vec<Json>) -> (r: Option<Vec<NoteLocator>>)
        ensures
            some_views(r) == each(views(items@), |j: JsonView| NoteLocator::shape(j)),
    {
        let ghost shape = |j: JsonView| NoteLocator::shape(j);
        let mut out: Vec<NoteLocator> = Vec::new();
        let mut i: usize = 0;
        while i < items.len()
            invariant
                i <= items.len(),
                out@.len() == i,
                shape == |j: JsonView| NoteLocator::shape(j),
                forall|k: int| 0 <= k < i ==> shape(#[trigger] views(items@)[k]) == Some(out@[k]@),
            decreases items.len() - i,
        {
            match NoteLocator::from_json(&items[i]) {
                Some(note) => {
                    out.push(note);
                },
                None => {
                    assert(shape(views(items@)[i as int]) is None);
                    return None;
                },
            }
            i += 1;
        }
        assert(views(out@) =~= each(views(items@), shape)->Some_0);
        Some(out)
    }
}

/// Reads every item of an array as a 32-bit integer.
pub fn integers_from_json(items: &Vec<Json>) -> (r: Option<Vec<i32>>)
    ensures
        match r {
            Some(v) => each(views(items@), |j: JsonView| j.int32()) == Some(v@),
            None => each(views(items@), |j: JsonView| j.int32()) is None,
        },
{
    let ghost shape = |j: JsonView| j.int32();
    let mut out: Vec<i32> = Vec::new();
    let mut i: usize = 0;
    while i < items.len()
        invariant
            i <= items.len(),
            out@.len() == i,
            shape == |j: JsonView| j.int32(),
            forall|k: int| 0 <= k < i ==> shape(#[trigger] views(items@)[k]) == Some(out@[k]),
        decreases items.len() - i,
    {
        match items[i].as_i32() {
            Some(n) => {
                out.push(n);
            },
            None => {
                assert(shape(views(items@)[i as int]) is None);
                return None;
            },
        }
        i += 1;
    }
    assert(out@ =~= each(views(items@), shape)->Some_0);
    Some(out)
}

impl Pattern {
    /// The pattern that a document stands for: `id`, `length` and `count` are
    /// 32-bit integers, `positions` is an array of 32-bit integers and `notes`
    /// an array of note locators.
    pub open spec fn shape(j: JsonView) -> Option<PatternView> {
        match (
            j.int32_member("id"@),
            j.int32_member("length"@),
            j.int32_member("count"@),
            j.items_member("positions"@),
            j.items_member("notes"@),
        ) {
            (Some(id), Some(length), Some(count), Some(positions), Some(notes)) => match (
                each(positions, |p: JsonView| p.int32()),
                each(notes, |n: JsonView| NoteLocator::shape(n)),
            ) {
                (Some(positions), Some(notes)) => Some(
                    PatternView { id, length, count, positions, notes },
                ),
                _ => None,
            },
            _ => None,
        }
    }

    /// Reads a pattern out of a document.
    pub fn from_json(j: &Json) -> (r: Option<Pattern>)
        ensures
            some_view(r) == Pattern::shape(j@),
    {
        let id = match j.int32_member("id") {
            Some(n) => n,
            None => {
                return None;
            },
        };
        let length = match j.int32_member("length") {
            Some(n) => n,
            None => {
                return None;
            },
        };
        let count = match j.int32_member("count") {
            Some(n) => n,
            None => {
                return None;
            },
        };
        let positions = match j.items_member("positions") {
            Some(items) => items,
            None => {
                return None;
            },
        };
        let notes = match j.items_member("notes") {
            Some(items) => items,
            None => {
                return None;
            },
        };
        let positions = match integers_from_json(positions) {
            Some(v) => v,
            None => {
                return None;
            },
        };
        let notes = match NoteLocator::all_from_json(notes) {
            Some(v) => v,
            None => {
                return None;
            },
        };
        Some(Pattern { id, length, count, positions, notes })
    }

    /// Reads every item of an array as a pattern.
    pub fn all_from_json(items: &Vec<Json>) -> (r: Option<Vec<Pattern>>)
        ensures
            some_views(r) == each(views(items@), |j: JsonView| Pattern::shape(j)),
    {
        let ghost shape = |j: JsonView| Pattern::shape(j);
        let mut out: Vec<Pattern> = Vec::new();
        let mut i: usize = 0;
        while i < items.len()
            invariant
                i <= items.len(),
                out@.len() == i,
                shape == |j: JsonView| Pattern::shape(j),
                forall|k: int| 0 <= k < i ==> shape(#[trigger] views(items@)[k]) == Some(out@[k]@),
            decreases items.len() - i,
        {
            match Pattern::from_json(&items[i]) {
                Some(pattern) => {
                    out.push(pattern);
                },
                None => {
                    assert(shape(views(items@)[i as int]) is None);
                    return None;
                },
            }
            i += 1;
        }
        assert(views(out@) =~= each(views(items@), shape)->Some_0);
        Some(out)
    }
}

impl StaffPatternData {
    /// The part that a document stands for: `part_index` is a 32-bit integer,
    /// `part_name` a string and `patterns` an array of patterns.
    pub open spec fn shape(j: JsonView) -> Option<StaffPatternDataView> {
        match (
            j.int32_member("part_index"@),
            j.text_member("part_name"@),
            j.items_member("patterns"@),
        ) {
            (Some(part_index), Some(part_name), Some(patterns)) => match each(
                patterns,
                |p: JsonView| Pattern::shape(p),
            ) {
                Some(patterns) => Some(StaffPatternDataView { part_index, part_name, patterns }),
                None => None,
            },
            _ => None,
        }
    }

    /// Reads a part out of a document.
    pub fn from_json(j: &Json) -> (r: Option<StaffPatternData>)
        ensures
            some_view(r) == StaffPatternData::shape(j@),
    {
        let part_index = match j.int32_member("part_index") {
            Some(n) => n,
            None => {
                return None;
            },
        };
        let part_name = match j.text_member("part_name") {
            Some(s) => s,
            None => {
                return None;
            },
        };
        let patterns = match j.items_member("patterns") {
            Some(items) => items,
            None => {
                return None;
            },
        };
        let patterns = match Pattern::all_from_json(patterns) {
            Some(v) => v,
            None => {
                return None;
            },
        };
        Some(StaffPatternData { part_index, part_name, patterns })
    }
}

impl AnalysisResult {
    /// The result that a document stands for: `file` is a string, `treble` and
    /// `bass` are parts, and `musicxml_content` is a string, `null` or left
    /// out. Other members are passed over.
    pub open spec fn shape(j: JsonView) -> Option<AnalysisResultView> {
        match (
            j.text_member("file"@),
            j.member("treble"@),
            j.member("bass"@),
            optional_text(j, "musicxml_content"@),
        ) {
            (Some(file), Some(treble), Some(bass), Some(musicxml_content)) => match (
                StaffPatternData::shape(treble),
                StaffPatternData::shape(bass),
            ) {
                (Some(treble), Some(bass)) => Some(
                    AnalysisResultView { file, treble, bass, musicxml_content },
                ),
                _ => None,
            },
            _ => None,
        }
    }

    /// Why a document is no result: it is no object, or the first of the
    /// members `file`, `treble`, `bass` and `musicxml_content`, in this order,
    /// that is missing or does not fit. It says nothing of a document that is
    /// a result.
    pub open spec fn fault(j: JsonView) -> Seq<char> {
        if !(j is Object) {
            not_an_object()
        } else if j.member("file"@) is None {
            missing_member("file"@)
        } else if j.text_member("file"@) is None {
            unfit_member("file"@)
        } else if j.member("treble"@) is None {
            missing_member("treble"@)
        } else if StaffPatternData::shape(j.member("treble"@)->Some_0) is None {
            unfit_member("treble"@)
        } else if j.member("bass"@) is None {
            missing_member("bass"@)
        } else if StaffPatternData::shape(j.member("bass"@)->Some_0) is None {
            unfit_member("bass"@)
        } else {
            unfit_member("musicxml_content"@)
        }
    }

    /// What reading a document as a result gives: the result, or why it is
    /// none.
    pub open spec fn reading(j: JsonView) -> Result<AnalysisResultView, Seq<char>> {
        match AnalysisResult::shape(j) {
            Some(result) => Ok(result),
            None => Err(AnalysisResult::fault(j)),
        }
    }

    /// Reads a result out of a document; where the document is none, the
    /// error names what is missing or does not fit.
    pub fn from_json(j: &Json) -> (r: Result<AnalysisResult, String>)
        ensures
            match r {
                Ok(result) => AnalysisResult::reading(j@) == Ok::<AnalysisResultView, Seq<char>>(
                    result@,
                ),
                Err(reason) => AnalysisResult::reading(j@) == Err::<AnalysisResultView, Seq<char>>(
                    reason@,
                ),
            },
    {
        if !j.is_object() {
            return Err(String::from_str("expected an object"));
        }
        let file = match j.member("file") {
            Some(m) => match m.as_text() {
                Some(s) => s.clone(),
                None => {
                    return Err(describe_unfit("file"));
                },
            },
            None => {
                return Err(describe_missing("file"));
            },
        };
        let treble = match j.member("treble") {
            Some(m) => match StaffPatternData::from_json(m) {
                Some(staff) => staff,
                None => {
                    return Err(describe_unfit("treble"));
                },
            },
            None => {
                return Err(describe_missing("treble"));
            },
        };
        let bass = match j.member("bass") {
            Some(m) => match StaffPatternData::from_json(m) {
                Some(staff) => staff,
                None => {
                    return Err(describe_unfit("bass"));
                },
            },
            None => {
                return Err(describe_missing("bass"));
            },
        };
        let musicxml_content = match optional_text_member(j, "musicxml_content") {
            Some(t) => t,
            None => {
                return Err(describe_unfit("musicxml_content"));
            },
        };
        Ok(AnalysisResult { file, treble, bass, musicxml_content })
    }
}

/// The reason given for a document that is no object.
pub open spec fn not_an_object() -> Seq<char> {
    "expected an object"@
}

/// The reason given for a member that is not there.
pub open spec fn missing_member(name: Seq<char>) -> Seq<char> {
    "missing field `"@ + name + "`"@
}

/// The reason given for a member that is there and does not fit.
pub open spec fn unfit_member(name: Seq<char>) -> Seq<char> {
    "invalid value for field `"@ + name + "`"@
}

fn describe_missing(name: &str) -> (r: String)
    ensures
        r@ == missing_member(name@),
{
    let mut out = String::from_str("missing field `");
    out.append(name);
    out.append("`");
    out
}

fn describe_unfit(name: &str) -> (r: String)
    ensures
        r@ == unfit_member(name@),
{
    let mut out = String::from_str("invalid value for field `");
    out.append(name);
    out.append("`");
    out
}

} // verus!
