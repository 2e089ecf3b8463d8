//! Structured data read out of model output: the fields of a JSON or YAML object.
use vstd::prelude::*;
use vstd::string::StringExecFns;

verus! {

/// The value of one field: its text when it is a string, else the value written as JSON.
#[derive(Debug, Clone, PartialEq)]
pub enum FieldValue {
    Text(String),
    Other(String),
}

/// One field of a decoded object.
#[derive(Debug, Clone, PartialEq)]
pub struct Entry {
    pub key: String,
    pub value: FieldValue,
}

pub enum FieldView {
    Text(Seq<char>),
    Other(Seq<char>),
}

pub struct EntryView {
    pub key: Seq<char>,
    pub value: FieldView,
}

impl View for FieldValue {
    type V = FieldView;

    open spec fn view(&self) -> FieldView {
        match self {
            FieldValue::Text(s) => FieldView::Text(s@),
            FieldValue::Other(s) => FieldView::Other(s@),
        }
    }
}

impl View for Entry {
    type V = EntryView;

    open spec fn view(&self) -> EntryView {
        EntryView { key: self.key@, value: self.value@ }
    }
}

pub open spec fn entries_view(es: Seq<Entry>) -> Seq<EntryView> {
    es.map_values(|e: Entry| e@)
}

pub open spec fn decoded_view(d: Option<Vec<Entry>>) -> Option<Seq<EntryView>> {
    match d {
        Some(es) => Some(entries_view(es@)),
        None => None,
    }
}

/// A decoded JSON value, one level deep: an object's fields, an array's items, or a
/// single value.
#[derive(Debug, Clone, PartialEq)]
pub enum Json {
    Object(Vec<Entry>),
    Array(Vec<FieldValue>),
    Scalar(FieldValue),
}

pub enum JsonView {
    Object(Seq<EntryView>),
    Array(Seq<FieldView>),
    Scalar(FieldView),
}

pub open spec fn fields_view(vs: Seq<FieldValue>) -> Seq<FieldView> {
    vs.map_values(|v: FieldValue| v@)
}

impl View for Json {
    type V = JsonView;

    open spec fn view(&self) -> JsonView {
        match self {
            Json::Object(es) => JsonView::Object(entries_view(es@)),
            Json::Array(vs) => JsonView::Array(fields_view(vs@)),
            Json::Scalar(v) => JsonView::Scalar(v@),
        }
    }
}

pub open spec fn json_opt_view(j: Option<Json>) -> Option<JsonView> {
    match j {
        Some(v) => Some(v@),
        None => None,
    }
}

/// The value that the JSON text `s` holds; `None` where `s` is not JSON.
pub uninterp spec fn json_value(s: Seq<char>) -> Option<JsonView>;

/// The value that the YAML text `s` holds, where it has a JSON form; `None` otherwise.
pub uninterp spec fn yaml_value(s: Seq<char>) -> Option<JsonView>;

/// The fields of the JSON object that `s` holds; `None` where `s` is not a JSON object.
pub open spec fn json_object(s: Seq<char>) -> Option<Seq<EntryView>> {
    match json_value(s) {
        Some(JsonView::Object(es)) => Some(es),
        _ => None,
    }
}

/// The fields of the YAML mapping that `s` holds; `None` where `s` is not such a mapping.
pub open spec fn yaml_object(s: Seq<char>) -> Option<Seq<EntryView>> {
    match yaml_value(s) {
        Some(JsonView::Object(es)) => Some(es),
        _ => None,
    }
}

/// Relies on `serde_json::from_str` into `serde_json::Value`: the outcome depends on the
/// text alone. A string keeps its text; any other value below the top level is written
/// back as JSON by `Value`'s `Display`.
#[verifier::external_body]
pub(crate) fn decode_json(s: &str) -> (r: Option<Json>)
    ensures
        json_opt_view(r) == json_value(s@),
{
    let field = |v: serde_json::Value| match v {
        serde_json::Value::String(t) => FieldValue::Text(t),
        other => FieldValue::Other(other.to_string()),
    };
    match serde_json::from_str::<serde_json::Value>(s) {
        Ok(serde_json::Value::Object(m)) => Some(
            Json::Object(m.into_iter().map(|(key, v)| Entry { key, value: field(v) }).collect()),
        ),
        Ok(serde_json::Value::Array(a)) => Some(Json::Array(a.into_iter().map(field).collect())),
        Ok(other) => Some(Json::Scalar(field(other))),
        Err(_) => None,
    }
}

/// Relies on `serde_yaml::from_str` into `serde_json::Value`: the outcome depends on the
/// text alone. A string keeps its text; any other value below the top level is written as
/// JSON by `Value`'s `Display`.
#[verifier::external_body]
pub(crate) fn decode_yaml(s: &str) -> (r: Option<Json>)
    ensures
        json_opt_view(r) == yaml_value(s@),
{
    let field = |v: serde_json::Value| match v {
        serde_json::Value::String(t) => FieldValue::Text(t),
        other => FieldValue::Other(other.to_string()),
    };
    match serde_yaml::from_str::<serde_json::Value>(s) {
        Ok(serde_json::Value::Object(m)) => Some(
            Json::Object(m.into_iter().map(|(key, v)| Entry { key, value: field(v) }).collect()),
        ),
        Ok(serde_json::Value::Array(a)) => Some(Json::Array(a.into_iter().map(field).collect())),
        Ok(other) => Some(Json::Scalar(field(other))),
        Err(_) => None,
    }
}

/// The fields of the JSON object that `s` holds.
pub fn json_fields(s: &str) -> (r: Option<Vec<Entry>>)
    ensures
        decoded_view(r) == json_object(s@),
{
    match decode_json(s) {
        Some(Json::Object(es)) => Some(es),
        _ => None,
    }
}

/// The fields of the YAML mapping that `s` holds.
pub fn yaml_fields(s: &str) -> (r: Option<Vec<Entry>>)
    ensures
        decoded_view(r) == yaml_object(s@),
{
    match decode_yaml(s) {
        Some(Json::Object(es)) => Some(es),
        _ => None,
    }
}

/// The first field named `key` at or after index `i`.
pub open spec fn lookup_from(es: Seq<EntryView>, key: Seq<char>, i: int) -> Option<FieldView>
    decreases es.len() - i,
{
    if i < 0 || i >= es.len() {
        None
    } else if es[i].key == key {
        Some(es[i].value)
    } else {
        lookup_from(es, key, i + 1)
    }
}

/// The value of the first field named `key`.
pub open spec fn lookup(es: Seq<EntryView>, key: Seq<char>) -> Option<FieldView> {
    lookup_from(es, key, 0)
}

/// The text of the field named `key`, where that field holds a string.
pub open spec fn text_field(es: Seq<EntryView>, key: Seq<char>) -> Option<Seq<char>> {
    match lookup(es, key) {
        Some(FieldView::Text(t)) => Some(t),
        _ => None,
    }
}

/// The fields other than those named `key`, in their order.
pub open spec fn without_key(es: Seq<EntryView>, key: Seq<char>) -> Seq<EntryView>
    decreases es.len(),
{
    if es.len() == 0 {
        es
    } else if es.last().key == key {
        without_key(es.drop_last(), key)
    } else {
        without_key(es.drop_last(), key).push(es.last())
    }
}

impl FieldValue {
    pub fn duplicate(&self) -> (r: FieldValue)
        ensures
            r@ == self@,
    {
        match self {
            FieldValue::Text(s) => FieldValue::Text(s.clone()),
            FieldValue::Other(s) => FieldValue::Other(s.clone()),
        }
    }
}

impl Entry {
    pub fn duplicate(&self) -> (r: Entry)
        ensures
            r@ == self@,
    {
        Entry { key: self.key.clone(), value: self.value.duplicate() }
    }
}

proof fn lemma_lookup_skip(es: Seq<EntryView>, key: Seq<char>, i: int)
    requires
        0 <= i <= es.len(),
        forall|j: int| 0 <= j < i ==> es[j].key != key,
    ensures
        lookup(es, key) == lookup_from(es, key, i),
    decreases i,
{
    if i > 0 {
        lemma_lookup_skip_from(es, key, 0, i);
    }
}

proof fn lemma_lookup_skip_from(es: Seq<EntryView>, key: Seq<char>, a: int, i: int)
    requires
        0 <= a <= i <= es.len(),
        forall|j: int| a <= j < i ==> es[j].key != key,
    ensures
        lookup_from(es, key, a) == lookup_from(es, key, i),
    decreases i - a,
{
    if a < i {
        lemma_lookup_skip_from(es, key, a + 1, i);
    }
}

/// The value of the first field named `key`.
pub fn find_field<'a>(es: &'a Vec<Entry>, key: &str) -> (r: Option<&'a FieldValue>)
    ensures
        match r {
            Some(v) => lookup(entries_view(es@), key@) == Some(v@),
            None => lookup(entries_view(es@), key@) is None,
        },
{
    let ghost ev = entries_view(es@);
    let wanted = String::from_str(key);
    let mut i: usize = 0;
    while i < es.len()
        invariant
            i <= es.len(),
            ev == entries_view(es@),
            wanted@ == key@,
            forall|j: int| 0 <= j < i ==> ev[j].key != key@,
        decreases es.len() - i,
    {
        if es[i].key == wanted {
            proof {
                lemma_lookup_skip(ev, key@, i as int);
            }
            return Some(&es[i].value);
        }
        i = i + 1;
    }
    proof {
        lemma_lookup_skip(ev, key@, i as int);
    }
    None
}

/// The text of the field named `key`, where that field holds a string.
pub fn find_text<'a>(es: &'a Vec<Entry>, key: &str) -> (r: Option<&'a String>)
    ensures
        match r {
            Some(t) => text_field(entries_view(es@), key@) == Some(t@),
            None => text_field(entries_view(es@), key@) is None,
        },
{
    match find_field(es, key) {
        Some(FieldValue::Text(t)) => Some(t),
        _ => None,
    }
}

/// The fields other than those named `key`, in their order.
pub fn drop_field(es: &Vec<Entry>, key: &str) -> (r: Vec<Entry>)
    ensures
        entries_view(r@) == without_key(entries_view(es@), key@),
{
    let wanted = String::from_str(key);
    let mut r: Vec<Entry> = Vec::new();
    let mut i: usize = 0;
    while i < es.len()
        invariant
            i <= es.len(),
            wanted@ == key@,
            entries_view(r@) == without_key(entries_view(es@.subrange(0, i as int)), key@),
        decreases es.len() - i,
    {
        let ghost before = es@.subrange(0, i as int);
        let ghost after = es@.subrange(0, i + 1);
        proof {
            assert(entries_view(after).drop_last() =~= entries_view(before));
            assert(entries_view(after).last() == es@[i as int]@);
        }
        if es[i].key != wanted {
            r.push(es[i].duplicate());
            assert(entries_view(r@) =~= without_key(entries_view(before), key@).push(es@[i as int]@));
        }
        i = i + 1;
    }
    assert(es@.subrange(0, es.len() as int) =~= es@);
    r
}

} // verus!
