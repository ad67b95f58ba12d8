//! JSON values, and how to read them.
use vstd::prelude::*;
use vstd::string::*;

use crate::text::same_text;

verus! {

/// A number: as an integer where it is one, and as text.
#[derive(Debug)]
pub struct JsonNumber {
    pub int: Option<i64>,
    pub text: String,
}

/// A JSON value. The keys of an object differ.
#[derive(Debug)]
pub enum Json {
    Null,
    Bool(bool),
    Number(JsonNumber),
    Text(String),
    List(Vec<Json>),
    Object(Vec<(String, Json)>),
}

/// What a number says.
pub struct NumberView {
    pub int: Option<i64>,
    pub text: Seq<char>,
}

/// What a JSON value says.
pub enum JsonView {
    Null,
    Bool(bool),
    Number(NumberView),
    Text(Seq<char>),
    List(Seq<JsonView>),
    Object(Seq<(Seq<char>, JsonView)>),
}

impl JsonNumber {
    pub open spec fn view(&self) -> NumberView {
        NumberView { int: self.int, text: self.text@ }
    }
}

impl Json {
    pub open spec fn view(&self) -> JsonView
        decreases self,
    {
        match self {
            Json::Null => JsonView::Null,
            Json::Bool(b) => JsonView::Bool(*b),
            Json::Number(n) => JsonView::Number(n@),
            Json::Text(s) => JsonView::Text(s@),
            Json::List(l) => JsonView::List(
                Seq::new(
                    l@.len(),
                    |i: int|
                        if 0 <= i < l@.len() {
                            l@[i].view()
                        } else {
                            JsonView::Null
                        },
                ),
            ),
            Json::Object(o) => JsonView::Object(
                Seq::new(
                    o@.len(),
                    |i: int|
                        if 0 <= i < o@.len() {
                            (o@[i].0@, o@[i].1.view())
                        } else {
                            (Seq::empty(), JsonView::Null)
                        },
                ),
            ),
        }
    }
}

/// What the values of a list say.
pub open spec fn views(l: Seq<Json>) -> Seq<JsonView> {
    l.map_values(|j: Json| j@)
}

/// What a value that may be missing says.
pub open spec fn held(j: Option<&Json>) -> Option<JsonView> {
    match j {
        Some(v) => Some(v@),
        None => None,
    }
}

/// A value of the `serde_json` crate.
#[verifier::external_type_specification]
#[verifier::external_body]
pub struct ExValue(serde_json::Value);

/// What a text says as JSON; `None` where it is not JSON.
pub uninterp spec fn json_of(text: Seq<char>) -> Option<JsonView>;

/// `serde_json::from_str` to a `serde_json::Value`: what the text says, as a function of the
/// text alone. What that is for a given text is left unsaid.
#[verifier::external_body]
pub(crate) fn parse_json(text: &str) -> (r: Option<Json>)
    ensures
        match r {
            Some(j) => json_of(text@) == Some(j@),
            None => json_of(text@) is None,
        },
{
    serde_json::from_str::<serde_json::Value>(text).ok().map(convert)
}

/// A `serde_json::Value` as a value of this library, variant for variant. Nothing is promised
/// of it: its result is spoken of where the text is parsed.
#[verifier::external_body]
fn convert(v: serde_json::Value) -> Json {
    match v {
        serde_json::Value::Null => Json::Null,
        serde_json::Value::Bool(b) => Json::Bool(b),
        serde_json::Value::Number(n) => Json::Number(
            JsonNumber { int: n.as_i64(), text: n.to_string() },
        ),
        serde_json::Value::String(s) => Json::Text(s),
        serde_json::Value::Array(a) => Json::List(a.into_iter().map(convert).collect()),
        serde_json::Value::Object(o) => Json::Object(o.into_iter().map(|kv| (kv.0, convert(kv.1))).collect()),
    }
}

/// The value under a key among entries.
pub open spec fn entry_of(entries: Seq<(Seq<char>, JsonView)>, key: Seq<char>) -> Option<JsonView>
    decreases entries.len(),
{
    if entries.len() == 0 {
        None
    } else if entries[0].0 == key {
        Some(entries[0].1)
    } else {
        entry_of(entries.drop_first(), key)
    }
}

/// The value under a key, where the value is an object that has it.
pub open spec fn field(j: JsonView, key: Seq<char>) -> Option<JsonView> {
    match j {
        JsonView::Object(entries) => entry_of(entries, key),
        _ => None,
    }
}

/// The text that a value is.
pub open spec fn text_in(j: Option<JsonView>) -> Option<Seq<char>> {
    match j {
        Some(JsonView::Text(s)) => Some(s),
        _ => None,
    }
}

/// The integer that a value is.
pub open spec fn int_in(j: Option<JsonView>) -> Option<i64> {
    match j {
        Some(JsonView::Number(n)) => n.int,
        _ => None,
    }
}

/// The list that a value is.
pub open spec fn list_in(j: Option<JsonView>) -> Option<Seq<JsonView>> {
    match j {
        Some(JsonView::List(l)) => Some(l),
        _ => None,
    }
}

/// The truth value that a value is.
pub open spec fn bool_in(j: Option<JsonView>) -> Option<bool> {
    match j {
        Some(JsonView::Bool(b)) => Some(b),
        _ => None,
    }
}

/// The text of the number that a value is.
pub open spec fn number_in(j: Option<JsonView>) -> Option<Seq<char>> {
    match j {
        Some(JsonView::Number(n)) => Some(n.text),
        _ => None,
    }
}

/// A text that may be missing, as characters.
pub open spec fn said(s: Option<&str>) -> Option<Seq<char>> {
    match s {
        Some(t) => Some(t@),
        None => None,
    }
}

/// The value under `key`.
pub fn get<'a>(j: &'a Json, key: &str) -> (r: Option<&'a Json>)
    ensures
        held(r) == field(j@, key@),
{
    match j {
        Json::Object(entries) => {
            let ghost said = j@->Object_0;
            let mut i: usize = 0;
            assert(said.skip(0) =~= said);
            while i < entries.len()
                invariant
                    i <= entries@.len(),
                    *j == Json::Object(*entries),
                    j@ == JsonView::Object(said),
                    said.len() == entries@.len(),
                    entry_of(said, key@) == entry_of(said.skip(i as int), key@),
                decreases entries@.len() - i,
            {
                proof {
                    assert(said.skip(i as int)[0] == (entries@[i as int].0@, entries@[i as int].1@));
                    assert(said.skip(i as int).drop_first() =~= said.skip(i + 1));
                }
                if same_text(entries[i].0.as_str(), key) {
                    return Some(&entries[i].1);
                }
                i = i + 1;
            }
            assert(said.skip(said.len() as int) =~= Seq::<(Seq<char>, JsonView)>::empty());
            None
        },
        _ => None,
    }
}

/// The text that a value is.
pub fn as_text<'a>(j: Option<&'a Json>) -> (r: Option<&'a str>)
    ensures
        said(r) == text_in(held(j)),
{
    match j {
        Some(Json::Text(s)) => Some(s.as_str()),
        _ => None,
    }
}

/// The integer that a value is.
pub fn as_int(j: Option<&Json>) -> (r: Option<i64>)
    ensures
        r == int_in(held(j)),
{
    match j {
        Some(Json::Number(n)) => n.int,
        _ => None,
    }
}

/// The list that a value is.
pub fn as_list<'a>(j: Option<&'a Json>) -> (r: Option<&'a Vec<Json>>)
    ensures
        match r {
            Some(l) => list_in(held(j)) == Some(views(l@)),
            None => list_in(held(j)) is None,
        },
{
    match j {
        Some(Json::List(l)) => {
            assert(list_in(held(j))->0 =~= views(l@));
            Some(l)
        },
        _ => None,
    }
}

/// The truth value that a value is.
pub fn as_bool(j: Option<&Json>) -> (r: Option<bool>)
    ensures
        r == bool_in(held(j)),
{
    match j {
        Some(Json::Bool(b)) => Some(*b),
        _ => None,
    }
}

/// The text of the number that a value is.
pub fn as_number<'a>(j: Option<&'a Json>) -> (r: Option<&'a str>)
    ensures
        said(r) == number_in(held(j)),
{
    match j {
        Some(Json::Number(n)) => Some(n.text.as_str()),
        _ => None,
    }
}

/// The text under `key`.
pub fn text_field<'a>(j: &'a Json, key: &str) -> (r: Option<&'a str>)
    ensures
        said(r) == text_in(field(j@, key@)),
{
    as_text(get(j, key))
}

/// The integer under `key`.
pub fn int_field(j: &Json, key: &str) -> (r: Option<i64>)
    ensures
        r == int_in(field(j@, key@)),
{
    as_int(get(j, key))
}

/// A text that may be missing, as a string of its own.
pub fn owned(s: Option<&str>) -> (r: Option<String>)
    ensures
        match r {
            Some(t) => said(s) == Some(t@),
            None => s is None,
        },
{
    match s {
        Some(t) => Some(t.to_owned()),
        None => None,
    }
}

/// A text that may be missing, or another in its place.
pub fn text_or<'a>(s: Option<&'a str>, other: &'a str) -> (r: &'a str)
    ensures
        r@ == (match said(s) {
            Some(t) => t,
            None => other@,
        }),
{
    match s {
        Some(t) => t,
        None => other,
    }
}

/// What stands under a key is the value of the first entry with that key, and nothing where there is
/// none or where the value is no object.
pub proof fn keys_lead_to_their_value(key: Seq<char>, other: Seq<char>, v: JsonView, rest: Seq<(Seq<char>, JsonView)>)
    requires
        other != key,
    ensures
        field(JsonView::Object(seq![(key, v)] + rest), key) == Some(v),
        field(JsonView::Object(seq![(other, v)] + rest), key) == field(JsonView::Object(rest), key),
        field(JsonView::Object(Seq::empty()), key) is None,
        field(JsonView::Null, key) is None,
{
    assert((seq![(key, v)] + rest).drop_first() =~= rest);
    assert((seq![(other, v)] + rest).drop_first() =~= rest);
}

/// A value is read as what it is and as nothing else: a text as a text, an integer as an integer
/// and by its digits, a list as a list, a truth value as one.
pub proof fn values_are_read_as_what_they_are(s: Seq<char>, n: NumberView, l: Seq<JsonView>, b: bool)
    ensures
        text_in(Some(JsonView::Text(s))) == Some(s) && int_in(Some(JsonView::Text(s))) is None,
        int_in(Some(JsonView::Number(n))) == n.int && number_in(Some(JsonView::Number(n))) == Some(n.text),
        text_in(Some(JsonView::Number(n))) is None && bool_in(Some(JsonView::Number(n))) is None,
        list_in(Some(JsonView::List(l))) == Some(l) && text_in(Some(JsonView::List(l))) is None,
        bool_in(Some(JsonView::Bool(b))) == Some(b) && number_in(Some(JsonView::Bool(b))) is None,
        text_in(None) is None && int_in(None) is None && list_in(None) is None && bool_in(None) is None && number_in(
            None,
        ) is None,
        list_in(Some(JsonView::Text(s))) is None && bool_in(Some(JsonView::Text(s))) is None && number_in(
            Some(JsonView::Text(s)),
        ) is None,
{
}

} // verus!
