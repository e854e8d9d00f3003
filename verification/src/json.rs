//! A plain model of JSON documents and the reader that produces it.

use crate::model::{some_view, views};
use vstd::prelude::*;

verus! {

/// A JSON number, kept without loss: an unsigned integer, a negative integer,
/// or the IEEE 754 bit pattern of a finite binary64 value.
#[derive(Clone, Copy, Debug, PartialEq, Eq, Structural)]
pub enum JsonNumber {
    Unsigned(u64),
    Negative(i64),
    Real(u64),
}

/// A JSON document. The members of an object are held in the order in which
/// the reader hands them out.
#[derive(Debug)]
pub enum Json {
    Null,
    Bool(bool),
    Number(JsonNumber),
    Text(String),
    Array(Vec<Json>),
    Object(Vec<(String, Json)>),
}

/// The mathematical value of a [`Json`] document.
pub ghost enum JsonView {
    Null,
    Bool(bool),
    Number(JsonNumber),
    Text(Seq<char>),
    Array(Seq<JsonView>),
    Object(Seq<(Seq<char>, JsonView)>),
}

impl Json {
    /// The mathematical value of this document.
    pub open spec fn model(self) -> JsonView
        decreases self,
    {
        match self {
            Json::Null => JsonView::Null,
            Json::Bool(b) => JsonView::Bool(b),
            Json::Number(n) => JsonView::Number(n),
            Json::Text(s) => JsonView::Text(s@),
            Json::Array(items) => JsonView::Array(Json::models(items@)),
            Json::Object(members) => JsonView::Object(Json::member_models(members@)),
        }
    }

    /// The values of the items of an array, in order.
    pub open spec fn models(items: Seq<Json>) -> Seq<JsonView>
        decreases items,
    {
        if items.len() == 0 {
            Seq::empty()
        } else {
            Json::models(items.drop_last()).push(items.last().model())
        }
    }

    /// The names and values of the members of an object, in order.
    pub open spec fn member_models(members: Seq<(String, Json)>) -> Seq<(Seq<char>, JsonView)>
        decreases members,
    {
        if members.len() == 0 {
            Seq::empty()
        } else {
            Json::member_models(members.drop_last()).push(
                (members.last().0@, members.last().1.model()),
            )
        }
    }

    /// The value of an array holds the value of each item at the item's place.
    pub proof fn lemma_models(items: Seq<Json>)
        ensures
            Json::models(items) == views(items),
        decreases items.len(),
    {
        if items.len() > 0 {
            Json::lemma_models(items.drop_last());
        }
        assert(Json::models(items) =~= views(items));
    }

    /// The value of an object holds each member's name and value at the
    /// member's place.
    pub proof fn lemma_member_models(members: Seq<(String, Json)>)
        ensures
            Json::member_models(members).len() == members.len(),
            forall|i: int|
                0 <= i < members.len() ==> #[trigger] Json::member_models(members)[i] == (
                    members[i].0@,
                    members[i].1@,
                ),
        decreases members.len(),
    {
        if members.len() > 0 {
            Json::lemma_member_models(members.drop_last());
        }
    }
}

impl View for Json {
    type V = JsonView;

    open spec fn view(&self) -> JsonView {
        self.model()
    }
}

impl JsonView {
    /// The value of the first member called `name`, if this is an object that
    /// has one.
    pub open spec fn member(self, name: Seq<char>) -> Option<JsonView> {
        match self {
            JsonView::Object(members) => first_named(members, name),
            _ => None,
        }
    }

    /// The characters, if this is a string.
    pub open spec fn text(self) -> Option<Seq<char>> {
        match self {
            JsonView::Text(s) => Some(s),
            _ => None,
        }
    }

    /// The value as a 32-bit signed integer, if this is an integer number in
    /// that range. A number written with a fraction or an exponent is none.
    pub open spec fn int32(self) -> Option<i32> {
        match self {
            JsonView::Number(JsonNumber::Unsigned(u)) => if u <= i32::MAX {
                Some(u as i32)
            } else {
                None
            },
            JsonView::Number(JsonNumber::Negative(i)) => if i32::MIN <= i <= i32::MAX {
                Some(i as i32)
            } else {
                None
            },
            _ => None,
        }
    }

    /// The items, if this is an array.
    pub open spec fn items(self) -> Option<Seq<JsonView>> {
        match self {
            JsonView::Array(items) => Some(items),
            _ => None,
        }
    }

    /// The characters of the string member `name`.
    pub open spec fn text_member(self, name: Seq<char>) -> Option<Seq<char>> {
        match self.member(name) {
            Some(m) => m.text(),
            None => None,
        }
    }

    /// The integer member `name`.
    pub open spec fn int32_member(self, name: Seq<char>) -> Option<i32> {
        match self.member(name) {
            Some(m) => m.int32(),
            None => None,
        }
    }

    /// The items of the array member `name`.
    pub open spec fn items_member(self, name: Seq<char>) -> Option<Seq<JsonView>> {
        match self.member(name) {
            Some(m) => m.items(),
            None => None,
        }
    }
}

/// The value that goes with the first occurrence of `name` among `members`.
pub open spec fn first_named(members: Seq<(Seq<char>, JsonView)>, name: Seq<char>) -> Option<
    JsonView,
>
    decreases members.len(),
{
    if members.len() == 0 {
        None
    } else if members[0].0 == name {
        Some(members[0].1)
    } else {
        first_named(members.drop_first(), name)
    }
}

/// The view of what the reader returned: the document, or the error message.
pub open spec fn reading_view(r: Result<Json, String>) -> Result<JsonView, Seq<char>> {
    match r {
        Ok(j) => Ok(j@),
        Err(e) => Err(e@),
    }
}

impl Json {
    /// Reads a whole text as one JSON document.
    pub fn parse(text: &str) -> (r: Result<Json, String>)
        ensures
            reading_view(r) == json_reading(text@),
    {
        match read_value(text) {
            Ok(value) => Ok(Json::from_value(&value)),
            Err(message) => Err(message),
        }
    }

    /// Carries a value of the reader over into a document.
    fn from_value(value: &serde_json::Value) -> (j: Json)
        ensures
            j@ == value_of(*value),
        decreases value_of(*value),
    {
        if value.is_null() {
            return Json::Null;
        }
        if let Some(b) = value.as_bool() {
            return Json::Bool(b);
        }
        if let Some(s) = value.as_str() {
            return Json::Text(String::from_str(s));
        }
        if let Some(items) = value.as_array() {
            let mut out: Vec<Json> = Vec::new();
            let mut i: usize = 0;
            while i < items.len()
                invariant
                    i <= items.len(),
                    out@.len() == i,
                    value_of(*value) == JsonView::Array(values_of(items@)),
                    forall|k: int| 0 <= k < i ==> (#[trigger] out@[k])@ == value_of(items@[k]),
                decreases items.len() - i,
            {
                proof {
                    let held = value_of(*value)->Array_0;
                    assert(held[i as int] == value_of(items@[i as int]));
                    assert(decreases_to!(value_of(*value) => value_of(*value)->Array_0));
                    assert(decreases_to!(held => held[i as int]));
                }
                let item = Json::from_value(&items[i]);
                out.push(item);
                i += 1;
            }
            proof {
                Json::lemma_models(out@);
                assert(views(out@) =~= values_of(items@));
            }
            return Json::Array(out);
        }
        if let Some(members) = members_of(value) {
            let mut out: Vec<(String, Json)> = Vec::new();
            let mut i: usize = 0;
            while i < members.len()
                invariant
                    i <= members.len(),
                    out@.len() == i,
                    value_of(*value) == JsonView::Object(member_values(members@)),
                    forall|k: int|
                        0 <= k < i ==> (#[trigger] out@[k]).0@ == members@[k].0@ && out@[k].1@
                            == value_of(*members@[k].1),
                decreases members.len() - i,
            {
                proof {
                    let held = value_of(*value)->Object_0;
                    assert(held[i as int].1 == value_of(*members@[i as int].1));
                    assert(decreases_to!(value_of(*value) => value_of(*value)->Object_0));
                    assert(decreases_to!(held => held[i as int]));
                    assert(decreases_to!(held[i as int] => held[i as int].1));
                }
                let name = members[i].0.clone();
                let member = Json::from_value(members[i].1);
                out.push((name, member));
                i += 1;
            }
            proof {
                Json::lemma_member_models(out@);
                assert(Json::member_models(out@) =~= member_values(members@));
            }
            return Json::Object(out);
        }
        if let Some(u) = value.as_u64() {
            return Json::Number(JsonNumber::Unsigned(u));
        }
        if let Some(i) = value.as_i64() {
            return Json::Number(JsonNumber::Negative(i));
        }
        // What is none of the other kinds is a number held as a real.
        let bits = real_bits(value);
        assert(value_of(*value) is Number && bits is Some);
        match bits {
            Some(bits) => Json::Number(JsonNumber::Real(bits)),
            None => Json::Null,
        }
    }

    /// The value of the member called `name`.
    pub fn member<'a>(&'a self, name: &str) -> (r: Option<&'a Json>)
        ensures
            match r {
                Some(m) => self@.member(name@) == Some(m@),
                None => self@.member(name@) is None,
            },
    {
        match self {
            Json::Object(members) => {
                let wanted = String::from_str(name);
                let ghost all = self@->Object_0;
                proof {
                    Json::lemma_member_models(members@);
                    assert(all.skip(0) =~= all);
                }
                let mut i: usize = 0;
                while i < members.len()
                    invariant
                        i <= members.len(),
                        wanted@ == name@,
                        self@ == JsonView::Object(all),
                        all.len() == members@.len(),
                        forall|k: int|
                            0 <= k < members@.len() ==> all[k] == (
                                members@[k].0@,
                                members@[k].1@,
                            ),
                        first_named(all, name@) == first_named(all.skip(i as int), name@),
                    decreases members.len() - i,
                {
                    proof {
                        let rest = all.skip(i as int);
                        assert(rest[0] == all[i as int]);
                        assert(rest.drop_first() =~= all.skip(i + 1));
                    }
                    if members[i].0 == wanted {
                        return Some(&members[i].1);
                    }
                    i += 1;
                }
                None
            },
            _ => None,
        }
    }

    /// Whether this is an object.
    pub fn is_object(&self) -> (r: bool)
        ensures
            r == (self@ is Object),
    {
        match self {
            Json::Object(_) => true,
            _ => false,
        }
    }

    /// The string, if this is one.
    pub fn as_text(&self) -> (r: Option<&String>)
        ensures
            match r {
                Some(s) => self@.text() == Some(s@),
                None => self@.text() is None,
            },
    {
        match self {
            Json::Text(s) => Some(s),
            _ => None,
        }
    }

    /// The value as a 32-bit signed integer.
    pub fn as_i32(&self) -> (r: Option<i32>)
        ensures
            r == self@.int32(),
    {
        match self {
            Json::Number(JsonNumber::Unsigned(u)) => if *u <= 0x7fff_ffff {
                Some(*u as i32)
            } else {
                None
            },
            Json::Number(JsonNumber::Negative(i)) => if -0x8000_0000 <= *i && *i <= 0x7fff_ffff {
                Some(*i as i32)
            } else {
                None
            },
            _ => None,
        }
    }

    /// The items, if this is an array.
    pub fn as_array(&self) -> (r: Option<&Vec<Json>>)
        ensures
            match r {
                Some(items) => self@.items() == Some(views(items@)),
                None => self@.items() is None,
            },
    {
        match self {
            Json::Array(items) => {
                proof {
                    Json::lemma_models(items@);
                }
                Some(items)
            },
            _ => None,
        }
    }

    /// A copy of the string member `name`.
    pub fn text_member(&self, name: &str) -> (r: Option<String>)
        ensures
            some_view(r) == self@.text_member(name@),
    {
        match self.member(name) {
            Some(m) => match m.as_text() {
                Some(s) => Some(s.clone()),
                None => None,
            },
            None => None,
        }
    }

    /// The integer member `name`.
    pub fn int32_member(&self, name: &str) -> (r: Option<i32>)
        ensures
            r == self@.int32_member(name@),
    {
        match self.member(name) {
            Some(m) => m.as_i32(),
            None => None,
        }
    }

    /// The items of the array member `name`.
    pub fn items_member<'a>(&'a self, name: &str) -> (r: Option<&'a Vec<Json>>)
        ensures
            match r {
                Some(items) => self@.items_member(name@) == Some(views(items@)),
                None => self@.items_member(name@) is None,
            },
    {
        match self.member(name) {
            Some(m) => m.as_array(),
            None => None,
        }
    }
}

#[verifier::external_type_specification]
#[verifier::external_body]
pub struct ExValue(serde_json::Value);

/// What `serde_json::from_str` makes of a text when it is asked for a
/// `serde_json::Value`: the document, or the message of the error it reports.
pub uninterp spec fn json_reading(text: Seq<char>) -> Result<JsonView, Seq<char>>;

/// What a `serde_json::Value` holds. A number counts as unsigned where
/// `as_u64` gives it, else as negative where `as_i64` gives it, else as real,
/// with the bits of what `as_f64` gives; the members of an object stand in the
/// order in which its map iterates.
pub uninterp spec fn value_of(value: serde_json::Value) -> JsonView;

/// What each of some values holds.
pub open spec fn values_of(values: Seq<serde_json::Value>) -> Seq<JsonView> {
    Seq::new(values.len(), |i: int| value_of(values[i]))
}

/// The name of each of some members, and what its value holds.
pub open spec fn member_values(members: Seq<(&String, &serde_json::Value)>) -> Seq<
    (Seq<char>, JsonView),
> {
    Seq::new(members.len(), |i: int| (members[i].0@, value_of(*members[i].1)))
}

/// Calls `serde_json::from_str` for a `serde_json::Value`; an error is
/// returned as the message that its `Display` writes. The contract claims
/// only that the outcome depends on the text alone: what the value read
/// holds, or the message.
#[verifier::external_body]
fn read_value(text: &str) -> (r: Result<serde_json::Value, String>)
    ensures
        match r {
            Ok(value) => json_reading(text@) == Ok::<JsonView, Seq<char>>(value_of(value)),
            Err(message) => json_reading(text@) == Err::<JsonView, Seq<char>>(message@),
        },
{
    match serde_json::from_str::<serde_json::Value>(text) {
        Ok(value) => Ok(value),
        Err(e) => Err(e.to_string()),
    }
}

/// `Value::is_null` is true of `Value::Null` alone.
pub assume_specification[ serde_json::Value::is_null ](value: &serde_json::Value) -> (r: bool)
    ensures
        r == (value_of(*value) is Null),
;

/// `Value::as_bool` gives the boolean of `Value::Bool`, and nothing of the
/// other variants.
pub assume_specification[ serde_json::Value::as_bool ](value: &serde_json::Value) -> (r: Option<
    bool,
>)
    ensures
        r == match value_of(*value) {
            JsonView::Bool(b) => Some(b),
            _ => None,
        },
;

/// `Value::as_str` gives the string of `Value::String`, and nothing of the
/// other variants.
pub assume_specification<'a>[ serde_json::Value::as_str ](value: &'a serde_json::Value) -> (r:
    Option<&'a str>)
    ensures
        match r {
            Some(s) => value_of(*value) == JsonView::Text(s@),
            None => !(value_of(*value) is Text),
        },
;

/// `Value::as_array` gives the vector of `Value::Array`, and nothing of the
/// other variants.
pub assume_specification<'a>[ serde_json::Value::as_array ](value: &'a serde_json::Value) -> (r:
    Option<&'a Vec<serde_json::Value>>)
    ensures
        match r {
            Some(items) => value_of(*value) == JsonView::Array(values_of(items@)),
            None => !(value_of(*value) is Array),
        },
;

/// `Value::as_u64` gives a number that is held as an unsigned integer, and
/// nothing of any other value.
pub assume_specification[ serde_json::Value::as_u64 ](value: &serde_json::Value) -> (r: Option<
    u64,
>)
    ensures
        r == match value_of(*value) {
            JsonView::Number(JsonNumber::Unsigned(u)) => Some(u),
            _ => None,
        },
;

/// `Value::as_i64` gives a number that is held as a negative integer, and
/// one held as an unsigned integer where it is at most `i64::MAX`; it gives
/// nothing of any other value.
pub assume_specification[ serde_json::Value::as_i64 ](value: &serde_json::Value) -> (r: Option<
    i64,
>)
    ensures
        r == match value_of(*value) {
            JsonView::Number(JsonNumber::Negative(i)) => Some(i),
            JsonView::Number(JsonNumber::Unsigned(u)) => if u <= i64::MAX {
                Some(u as i64)
            } else {
                None
            },
            _ => None,
        },
;

/// Calls `Value::as_f64` and carries the result over by `to_bits`. Of a
/// number that is held as a real the contract claims that its bits come back;
/// of any other value it claims nothing.
#[verifier::external_body]
fn real_bits(value: &serde_json::Value) -> (r: Option<u64>)
    ensures
        value_of(*value) matches JsonView::Number(JsonNumber::Real(bits)) ==> r == Some(bits),
{
    value.as_f64().map(|x| x.to_bits())
}

/// Calls `Value::as_object` and hands out what `Map::iter` yields: the
/// members of `Value::Object`, in the order of the iteration, and nothing of
/// the other variants.
#[verifier::external_body]
fn members_of<'a>(value: &'a serde_json::Value) -> (r: Option<
    Vec<(&'a String, &'a serde_json::Value)>,
>)
    ensures
        match r {
            Some(members) => value_of(*value) == JsonView::Object(member_values(members@)),
            None => !(value_of(*value) is Object),
        },
{
    value.as_object().map(|members| members.iter().collect())
}

} // verus!
