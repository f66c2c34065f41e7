//! A JSON document tree, read from and written to text through serde_json,
//! and the field readers that the reply decoders are built from.
use vstd::prelude::*;
use crate::error::PayloadError;

verus! {

#[verifier::external_type_specification]
#[verifier::external_body]
pub struct ExJsonValue(serde_json::Value);

#[verifier::external_type_specification]
#[verifier::external_body]
pub struct ExJsonError(serde_json::Error);

/// A JSON document. Object members keep the order in which they were read
/// or built; a key occurs at most once in an object that serde_json read.
#[derive(Debug)]
pub enum Json {
    Null,
    Bool(bool),
    /// A number: its value where it is an integer that `i64` holds, else `None`
    /// (a fraction, an exponent, a larger integer).
    Number(Option<i64>),
    Str(String),
    Array(Vec<Json>),
    Object(Vec<(String, Json)>),
}

/// The mathematical model of a JSON document.
pub enum JsonView {
    Null,
    Bool(bool),
    Number(Option<int>),
    Str(Seq<char>),
    Array(Seq<JsonView>),
    Object(Seq<(Seq<char>, JsonView)>),
}

pub open spec fn json_view(j: Json) -> JsonView
    decreases j,
{
    match j {
        Json::Null => JsonView::Null,
        Json::Bool(b) => JsonView::Bool(b),
        Json::Number(n) => JsonView::Number(
            match n {
                Some(i) => Some(i as int),
                None => None,
            },
        ),
        Json::Str(s) => JsonView::Str(s@),
        Json::Array(items) => JsonView::Array(
            Seq::new(
                items.len() as nat,
                |i: int|
                    if 0 <= i < items.len() {
                        json_view(items[i])
                    } else {
                        JsonView::Null
                    },
            ),
        ),
        Json::Object(fields) => JsonView::Object(
            Seq::new(
                fields.len() as nat,
                |i: int|
                    if 0 <= i < fields.len() {
                        (fields[i].0@, json_view(fields[i].1))
                    } else {
                        (Seq::empty(), JsonView::Null)
                    },
            ),
        ),
    }
}

impl View for Json {
    type V = JsonView;

    open spec fn view(&self) -> JsonView {
        json_view(*self)
    }
}

/// The models of a sequence of documents.
pub open spec fn items_view(items: Seq<Json>) -> Seq<JsonView> {
    Seq::new(items.len(), |i: int| items[i]@)
}

/// The models of the members of an object.
pub open spec fn fields_view(fields: Seq<(String, Json)>) -> Seq<(Seq<char>, JsonView)> {
    Seq::new(fields.len(), |i: int| (fields[i].0@, fields[i].1@))
}

pub proof fn lemma_array_view(items: Vec<Json>)
    ensures
        Json::Array(items)@ == JsonView::Array(items_view(items@)),
{
    assert(json_view(Json::Array(items))->Array_0 =~= items_view(items@));
}

pub proof fn lemma_object_view(fields: Vec<(String, Json)>)
    ensures
        Json::Object(fields)@ == JsonView::Object(fields_view(fields@)),
{
    assert(json_view(Json::Object(fields))->Object_0 =~= fields_view(fields@));
}

/// The document that serde_json reads from a text, or `None` where the text
/// is not JSON.
pub uninterp spec fn json_text(text: Seq<char>) -> Option<JsonView>;

/// The text that serde_json writes for a document.
pub uninterp spec fn json_written(j: JsonView) -> Seq<char>;

/// Carries a serde_json tree over into `Json`, node for node; numbers keep
/// their `i64` value where they have one.
#[verifier::external_body]
fn json_of_value(v: serde_json::Value) -> Json {
    match v {
        serde_json::Value::Null => Json::Null,
        serde_json::Value::Bool(b) => Json::Bool(b),
        serde_json::Value::Number(n) => Json::Number(n.as_i64()),
        serde_json::Value::String(s) => Json::Str(s),
        serde_json::Value::Array(a) => Json::Array(a.into_iter().map(json_of_value).collect()),
        serde_json::Value::Object(m) => Json::Object(
            m.into_iter().map(|(k, v)| (k, json_of_value(v))).collect(),
        ),
    }
}

/// Carries a `Json` tree over into serde_json's tree, node for node; a number
/// without an `i64` value, which nothing here builds, becomes null.
#[verifier::external_body]
fn value_of_json(j: &Json) -> serde_json::Value {
    match j {
        Json::Null => serde_json::Value::Null,
        Json::Bool(b) => serde_json::Value::Bool(*b),
        Json::Number(n) => serde_json::Value::from(*n),
        Json::Str(s) => serde_json::Value::String(s.clone()),
        Json::Array(a) => serde_json::Value::Array(a.iter().map(value_of_json).collect()),
        Json::Object(m) => serde_json::Value::Object(
            m.iter().map(|(k, v)| (k.clone(), value_of_json(v))).collect(),
        ),
    }
}

/// Relies on serde_json::from_str into a serde_json::Value: the document it
/// reads depends on the text alone, and it fails exactly where the text is
/// not JSON.
#[verifier::external_body]
fn parse_json(text: &str) -> (r: Result<Json, serde_json::Error>)
    ensures
        match r {
            Ok(j) => json_text(text@) == Some(j@),
            Err(_) => json_text(text@) is None,
        },
{
    serde_json::from_str::<serde_json::Value>(text).map(json_of_value)
}

/// Relies on serde_json::to_string of a serde_json::Value: the text it writes
/// depends on the document alone, and it does not fail, as a Value's
/// serialization never fails and its map keys are strings.
#[verifier::external_body]
fn write_json(j: &Json) -> (r: Result<String, serde_json::Error>)
    ensures
        r is Ok,
        r matches Ok(s) ==> s@ == json_written(j@),
{
    serde_json::to_string(&value_of_json(j))
}

impl Json {
    /// Reads JSON text.
    pub fn read(text: &str) -> (r: Result<Json, PayloadError>)
        ensures
            match r {
                Ok(j) => json_text(text@) == Some(j@),
                Err(e) => json_text(text@) is None && e is Json,
            },
    {
        match parse_json(text) {
            Ok(j) => Ok(j),
            Err(e) => Err(PayloadError::Json(e)),
        }
    }

    /// Writes this document as JSON text; writing always succeeds.
    pub fn write(&self) -> (r: Result<String, PayloadError>)
        ensures
            r matches Ok(text) && text@ == json_written(self@),
    {
        match write_json(self) {
            Ok(text) => Ok(text),
            Err(e) => Err(PayloadError::Json(e)),
        }
    }
}

/// The value of the first member of `fields` named `key`.
pub open spec fn field(fields: Seq<(Seq<char>, JsonView)>, key: Seq<char>) -> Option<JsonView>
    decreases fields.len(),
{
    if fields.len() == 0 {
        None
    } else if fields[0].0 == key {
        Some(fields[0].1)
    } else {
        field(fields.drop_first(), key)
    }
}

/// The first member named `key` is the one at position `k`.
pub proof fn lemma_field_found(fields: Seq<(Seq<char>, JsonView)>, key: Seq<char>, k: int)
    requires
        0 <= k < fields.len(),
        fields[k].0 == key,
        forall|i: int| 0 <= i < k ==> fields[i].0 != key,
    ensures
        field(fields, key) == Some(fields[k].1),
    decreases k,
{
    if k > 0 {
        lemma_field_found(fields.drop_first(), key, k - 1);
    }
}

/// Appending a member changes a lookup only where the key was absent.
pub proof fn lemma_field_push(
    fields: Seq<(Seq<char>, JsonView)>,
    entry: (Seq<char>, JsonView),
    key: Seq<char>,
)
    ensures
        field(fields.push(entry), key) == if field(fields, key) is Some {
            field(fields, key)
        } else if entry.0 == key {
            Some(entry.1)
        } else {
            None
        },
    decreases fields.len(),
{
    if fields.len() > 0 {
        assert(fields.push(entry).drop_first() =~= fields.drop_first().push(entry));
        assert(fields.push(entry)[0] == fields[0]);
        lemma_field_push(fields.drop_first(), entry, key);
    } else {
        let rest = fields.push(entry).drop_first();
        assert(rest =~= Seq::<(Seq<char>, JsonView)>::empty());
        assert(field(rest, key) is None);
        assert(fields.push(entry)[0] == entry);
    }
}

/// A member that must be present and hold a boolean.
pub open spec fn bool_at(fields: Seq<(Seq<char>, JsonView)>, key: Seq<char>) -> Option<bool> {
    match field(fields, key) {
        Some(JsonView::Bool(b)) => Some(b),
        _ => None,
    }
}

/// A member that holds a boolean, `false` where it is absent.
pub open spec fn bool_or_false(fields: Seq<(Seq<char>, JsonView)>, key: Seq<char>) -> Option<bool> {
    match field(fields, key) {
        None => Some(false),
        Some(JsonView::Bool(b)) => Some(b),
        _ => None,
    }
}

/// A member that must be present and hold a string.
pub open spec fn text_at(fields: Seq<(Seq<char>, JsonView)>, key: Seq<char>) -> Option<Seq<char>> {
    match field(fields, key) {
        Some(JsonView::Str(s)) => Some(s),
        _ => None,
    }
}

/// A member that holds a string, the empty string where it is absent.
pub open spec fn text_or_empty(fields: Seq<(Seq<char>, JsonView)>, key: Seq<char>) -> Option<
    Seq<char>,
> {
    match field(fields, key) {
        None => Some(Seq::empty()),
        Some(JsonView::Str(s)) => Some(s),
        _ => None,
    }
}

/// The `i32` that a number holds, if it is an integer in range.
pub open spec fn as_i32(n: Option<int>) -> Option<i32> {
    match n {
        Some(i) => if i32::MIN <= i <= i32::MAX {
            Some(i as i32)
        } else {
            None
        },
        None => None,
    }
}

/// A member that must be present and hold an `i32`.
pub open spec fn int_at(fields: Seq<(Seq<char>, JsonView)>, key: Seq<char>) -> Option<i32> {
    match field(fields, key) {
        Some(JsonView::Number(n)) => as_i32(n),
        _ => None,
    }
}

/// A member that holds an `i32`, zero where it is absent.
pub open spec fn int_or_zero(fields: Seq<(Seq<char>, JsonView)>, key: Seq<char>) -> Option<i32> {
    match field(fields, key) {
        None => Some(0i32),
        Some(JsonView::Number(n)) => as_i32(n),
        _ => None,
    }
}

/// Where each document decodes by `f`, the decoded values in the same order.
pub open spec fn decode_all<T>(items: Seq<JsonView>, f: spec_fn(JsonView) -> Option<T>) -> Option<
    Seq<T>,
>
    decreases items.len(),
{
    if items.len() == 0 {
        Some(Seq::empty())
    } else {
        match (decode_all(items.drop_last(), f), f(items.last())) {
            (Some(done), Some(x)) => Some(done.push(x)),
            _ => None,
        }
    }
}

/// Decoding a sequence keeps its order: the decoded sequence has one value
/// for each document, and the value at each position is the decoding of the
/// document at that position.
pub proof fn lemma_decode_all_in_order<T>(items: Seq<JsonView>, f: spec_fn(JsonView) -> Option<T>)
    ensures
        decode_all(items, f) is Some <==> (forall|k: int| 0 <= k < items.len() ==> #[trigger] f(items[k]) is Some),
        decode_all(items, f) matches Some(out) ==> {
            &&& out.len() == items.len()
            &&& forall|k: int| 0 <= k < items.len() ==> #[trigger] f(items[k]) == Some(out[k])
        },
    decreases items.len(),
{
    if items.len() > 0 {
        let init = items.drop_last();
        let n = items.len() - 1;
        lemma_decode_all_in_order(init, f);
        assert forall|k: int| 0 <= k < init.len() implies #[trigger] init[k] == items[k] by {}
        if forall|k: int| 0 <= k < items.len() ==> #[trigger] f(items[k]) is Some {
            assert forall|k: int| 0 <= k < init.len() implies #[trigger] f(init[k]) is Some by {
                assert(f(items[k]) is Some);
            }
            assert(f(items[n]) is Some);
        }
        if decode_all(items, f) is Some {
            let done = decode_all(init, f)->0;
            let out = decode_all(items, f)->0;
            assert(out == done.push(f(items.last())->0));
            assert forall|k: int| 0 <= k < items.len() implies #[trigger] f(items[k]) == Some(out[k]) by {
                if k < n {
                    assert(f(init[k]) == Some(done[k]));
                }
            }
        }
    }
}

/// Where the members are those of `fields`, the position of the first
/// member named `key`.
pub fn find_field(fields: &Vec<(String, Json)>, key: &str) -> (r: Option<usize>)
    ensures
        match r {
            Some(i) => {
                &&& i < fields.len()
                &&& field(fields_view(fields@), key@) == Some(fields@[i as int].1@)
            },
            None => field(fields_view(fields@), key@) is None,
        },
{
    let ghost all = fields_view(fields@);
    let wanted = key.to_owned();
    let mut i: usize = 0;
    assert(all.subrange(0, all.len() as int) =~= all);
    while i < fields.len()
        invariant
            i <= fields.len(),
            all == fields_view(fields@),
            wanted@ == key@,
            field(all, key@) == field(all.subrange(i as int, all.len() as int), key@),
        decreases fields.len() - i,
    {
        let ghost rest = all.subrange(i as int, all.len() as int);
        assert(rest.drop_first() =~= all.subrange(i + 1, all.len() as int));
        if fields[i].0 == wanted {
            assert(rest[0] == all[i as int]);
            return Some(i);
        }
        i = i + 1;
    }
    None
}

/// The member named `key`, if there is one.
pub fn get_field<'a>(fields: &'a Vec<(String, Json)>, key: &str) -> (r: Option<&'a Json>)
    ensures
        match r {
            Some(v) => field(fields_view(fields@), key@) == Some(v@),
            None => field(fields_view(fields@), key@) is None,
        },
{
    match find_field(fields, key) {
        Some(i) => Some(&fields[i].1),
        None => None,
    }
}

pub fn read_bool(fields: &Vec<(String, Json)>, key: &str) -> (r: Option<bool>)
    ensures
        r == bool_at(fields_view(fields@), key@),
{
    match get_field(fields, key) {
        Some(Json::Bool(b)) => Some(*b),
        _ => None,
    }
}

pub fn read_bool_or_false(fields: &Vec<(String, Json)>, key: &str) -> (r: Option<bool>)
    ensures
        r == bool_or_false(fields_view(fields@), key@),
{
    match get_field(fields, key) {
        None => Some(false),
        Some(Json::Bool(b)) => Some(*b),
        _ => None,
    }
}

pub fn read_text(fields: &Vec<(String, Json)>, key: &str) -> (r: Option<String>)
    ensures
        match r {
            Some(s) => text_at(fields_view(fields@), key@) == Some(s@),
            None => text_at(fields_view(fields@), key@) is None,
        },
{
    match get_field(fields, key) {
        Some(Json::Str(s)) => Some(s.clone()),
        _ => None,
    }
}

pub fn read_text_or_empty(fields: &Vec<(String, Json)>, key: &str) -> (r: Option<String>)
    ensures
        match r {
            Some(s) => text_or_empty(fields_view(fields@), key@) == Some(s@),
            None => text_or_empty(fields_view(fields@), key@) is None,
        },
{
    match get_field(fields, key) {
        None => Some(String::new()),
        Some(Json::Str(s)) => Some(s.clone()),
        _ => None,
    }
}

fn number_as_i32(n: Option<i64>) -> (r: Option<i32>)
    ensures
        r == as_i32(
            match n {
                Some(i) => Some(i as int),
                None => None,
            },
        ),
{
    match n {
        Some(i) => if i32::MIN as i64 <= i && i <= i32::MAX as i64 {
            Some(i as i32)
        } else {
            None
        },
        None => None,
    }
}

pub fn read_int(fields: &Vec<(String, Json)>, key: &str) -> (r: Option<i32>)
    ensures
        r == int_at(fields_view(fields@), key@),
{
    match get_field(fields, key) {
        Some(Json::Number(n)) => number_as_i32(*n),
        _ => None,
    }
}

pub fn read_int_or_zero(fields: &Vec<(String, Json)>, key: &str) -> (r: Option<i32>)
    ensures
        r == int_or_zero(fields_view(fields@), key@),
{
    match get_field(fields, key) {
        None => Some(0),
        Some(Json::Number(n)) => number_as_i32(*n),
        _ => None,
    }
}

} // verus!
