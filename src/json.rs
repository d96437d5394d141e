//! A JSON value tree owned by the library, and the argument normaliser that
//! unwraps a full invocation envelope sent as text.

use vstd::prelude::*;

verus! {

/// A JSON value. A number is held as its decimal text.
#[derive(Debug, PartialEq)]
pub enum Json {
    Null,
    Bool(bool),
    Number(String),
    String(String),
    Array(Vec<Json>),
    Object(Vec<(String, Json)>),
}

/// The mathematical form of a JSON value.
pub enum JsonModel {
    Null,
    Bool(bool),
    Number(Seq<char>),
    String(Seq<char>),
    Array(Seq<JsonModel>),
    Object(Seq<(Seq<char>, JsonModel)>),
}

impl Json {
    /// The value with every string read as its characters.
    pub open spec fn model(&self) -> JsonModel
        decreases self,
    {
        match self {
            Json::Null => JsonModel::Null,
            Json::Bool(b) => JsonModel::Bool(*b),
            Json::Number(n) => JsonModel::Number(n@),
            Json::String(s) => JsonModel::String(s@),
            Json::Array(items) => JsonModel::Array(
                Seq::new(
                    items.len() as nat,
                    |i: int|
                        if 0 <= i < items.len() {
                            items[i].model()
                        } else {
                            JsonModel::Null
                        },
                ),
            ),
            Json::Object(entries) => JsonModel::Object(
                Seq::new(
                    entries.len() as nat,
                    |i: int|
                        if 0 <= i < entries.len() {
                            (entries[i].0@, entries[i].1.model())
                        } else {
                            (Seq::empty(), JsonModel::Null)
                        },
                ),
            ),
        }
    }
}

impl Json {
    /// A copy of the whole tree.
    pub fn duplicate(&self) -> (r: Json)
        ensures
            r@ == self@,
        decreases self,
    {
        match self {
            Json::Null => Json::Null,
            Json::Bool(b) => Json::Bool(*b),
            Json::Number(n) => Json::Number(n.clone()),
            Json::String(s) => Json::String(s.clone()),
            Json::Array(items) => {
                let out = duplicate_items(items);
                let r = Json::Array(out);
                assert(r@ == self@) by {
                    if let JsonModel::Array(a) = r@ {
                        if let JsonModel::Array(b) = self@ {
                            assert(a =~= b);
                        }
                    }
                }
                r
            },
            Json::Object(entries) => {
                let out = duplicate_entries(entries);
                let r = Json::Object(out);
                assert(r@ == self@) by {
                    if let JsonModel::Object(a) = r@ {
                        if let JsonModel::Object(b) = self@ {
                            assert(a =~= b);
                        }
                    }
                }
                r
            },
        }
    }
}

/// A copy of a list of JSON values.
pub fn duplicate_items(items: &Vec<Json>) -> (r: Vec<Json>)
    ensures
        r.len() == items.len(),
        forall|j: int| 0 <= j < r.len() ==> r[j]@ == items[j]@,
    decreases items,
{
    let mut out: Vec<Json> = Vec::new();
    let mut i: usize = 0;
    while i < items.len()
        invariant
            i <= items.len(),
            out.len() == i,
            forall|j: int| 0 <= j < i ==> out[j]@ == items[j]@,
        decreases items.len() - i,
    {
        proof {
            assert(decreases_to!(items => items[i as int]));
        }
        out.push(items[i].duplicate());
        i = i + 1;
    }
    out
}

/// A copy of a list of keyed JSON values.
pub fn duplicate_entries(entries: &Vec<(String, Json)>) -> (r: Vec<(String, Json)>)
    ensures
        r.len() == entries.len(),
        forall|j: int| 0 <= j < r.len() ==> r[j].0 == entries[j].0 && r[j].1@ == entries[j].1@,
    decreases entries,
{
    let mut out: Vec<(String, Json)> = Vec::new();
    let mut i: usize = 0;
    while i < entries.len()
        invariant
            i <= entries.len(),
            out.len() == i,
            forall|j: int| 0 <= j < i ==> out[j].0 == entries[j].0 && out[j].1@ == entries[j].1@,
        decreases entries.len() - i,
    {
        proof {
            assert(decreases_to!(entries => entries[i as int]));
        }
        out.push((entries[i].0.clone(), entries[i].1.duplicate()));
        i = i + 1;
    }
    out
}

impl View for Json {
    type V = JsonModel;

    open spec fn view(&self) -> JsonModel {
        self.model()
    }
}


/// What serde_json reads from a JSON text: `None` where the text is malformed.
pub uninterp spec fn parsed_json(text: Seq<char>) -> Option<Json>;

/// The value stored under the first entry whose key is `key`.
pub open spec fn entry_of(entries: Seq<(String, Json)>, key: Seq<char>) -> Option<Json>
    decreases entries.len(),
{
    if entries.len() == 0 {
        None
    } else if entries[0].0@ == key {
        Some(entries[0].1)
    } else {
        entry_of(entries.drop_first(), key)
    }
}

/// The parameters that a parsed value stands for: the `arguments` object of
/// an invocation envelope (an object with both `name` and an object under
/// `arguments`), or the value itself.
pub open spec fn invocation_arguments(parsed: Json) -> Json {
    match parsed {
        Json::Object(entries) => {
            if entry_of(entries@, "name"@) is Some && entry_of(entries@, "arguments"@) matches Some(
                Json::Object(_),
            ) {
                entry_of(entries@, "arguments"@).unwrap()
            } else {
                parsed
            }
        },
        _ => parsed,
    }
}

/// The parameters forwarded for caller-supplied `params`: a string is read as
/// JSON text where it parses, and an invocation envelope is unwrapped; any
/// other value, and a string that does not parse, is forwarded unchanged.
pub open spec fn normalized_arguments(params: Json) -> Json {
    match params {
        Json::String(text) => match parsed_json(text@) {
            Some(parsed) => invocation_arguments(parsed),
            None => params,
        },
        _ => params,
    }
}

proof fn lemma_entry_of_found(entries: Seq<(String, Json)>, key: Seq<char>, i: int)
    requires
        0 <= i < entries.len(),
        entries[i].0@ == key,
        forall|j: int| 0 <= j < i ==> entries[j].0@ != key,
    ensures
        entry_of(entries, key) == Some(entries[i].1),
    decreases i,
{
    if i > 0 {
        lemma_entry_of_found(entries.drop_first(), key, i - 1);
    }
}

proof fn lemma_entry_of_absent(entries: Seq<(String, Json)>, key: Seq<char>)
    requires
        forall|j: int| 0 <= j < entries.len() ==> entries[j].0@ != key,
    ensures
        entry_of(entries, key) is None,
    decreases entries.len(),
{
    if entries.len() > 0 {
        lemma_entry_of_absent(entries.drop_first(), key);
    }
}

/// Position of the first entry whose key is `key`.
pub fn find_entry(entries: &Vec<(String, Json)>, key: &String) -> (r: Option<usize>)
    ensures
        match r {
            Some(i) => i < entries.len() && entries[i as int].0@ == key@ && entry_of(
                entries@,
                key@,
            ) == Some(entries[i as int].1),
            None => entry_of(entries@, key@) is None,
        },
{
    let mut i: usize = 0;
    while i < entries.len()
        invariant
            i <= entries.len(),
            forall|j: int| 0 <= j < i ==> entries[j].0@ != key@,
        decreases entries.len() - i,
    {
        if entries[i].0 == *key {
            proof {
                lemma_entry_of_found(entries@, key@, i as int);
            }
            return Some(i);
        }
        i = i + 1;
    }
    proof {
        lemma_entry_of_absent(entries@, key@);
    }
    None
}

/// Unwraps an invocation envelope: where `parsed` is an object with a `name`
/// entry and an object under `arguments`, that object; otherwise `parsed`.
pub fn unwrap_invocation(parsed: Json) -> (r: Json)
    ensures
        r == invocation_arguments(parsed),
{
    match parsed {
        Json::Object(mut entries) => {
            let name_key = String::from_str("name");
            let arguments_key = String::from_str("arguments");
            proof {
                reveal_strlit("name");
                reveal_strlit("arguments");
            }
            let name_at = find_entry(&entries, &name_key);
            let arguments_at = find_entry(&entries, &arguments_key);
            match (name_at, arguments_at) {
                (Some(_), Some(i)) => {
                    let is_object = match &entries[i].1 {
                        Json::Object(_) => true,
                        _ => false,
                    };
                    if is_object {
                        let (_, arguments) = entries.remove(i);
                        arguments
                    } else {
                        Json::Object(entries)
                    }
                },
                _ => Json::Object(entries),
            }
        },
        other => other,
    }
}

/// Relies on serde_json::from_str: reads JSON text into a value tree, or
/// fails on text that is not JSON. The result depends on the text alone.
#[verifier::external_body]
fn parse_json(text: &str) -> (r: Option<Json>)
    ensures
        r == parsed_json(text@),
{
    serde_json::from_str::<serde_json::Value>(text).ok().map(json_from_serde)
}

/// serde_json's value tree, carried opaquely into the conversion below.
#[verifier::external_type_specification]
#[verifier::external_body]
pub struct ExSerdeValue(serde_json::Value);

/// Moves a serde_json value tree into the library's own form, variant by
/// variant; numbers keep serde_json's text for them.
#[verifier::external_body]
fn json_from_serde(v: serde_json::Value) -> Json {
    match v {
        serde_json::Value::Null => Json::Null,
        serde_json::Value::Bool(b) => Json::Bool(b),
        serde_json::Value::Number(n) => Json::Number(n.to_string()),
        serde_json::Value::String(s) => Json::String(s),
        serde_json::Value::Array(a) => Json::Array(a.into_iter().map(json_from_serde).collect()),
        serde_json::Value::Object(m) => Json::Object(
            m.into_iter().map(|(k, x)| (k, json_from_serde(x))).collect(),
        ),
    }
}

/// Normalises the parameters of a tool call: a string holding JSON text is
/// parsed and, where it is an invocation envelope, unwrapped to its
/// `arguments`; everything else is forwarded as it came.
pub fn normalize_tool_arguments(params: Json) -> (r: Json)
    ensures
        r == normalized_arguments(params),
{
    match params {
        Json::String(text) => {
            let parsed = parse_json(text.as_str());
            match parsed {
                Some(value) => unwrap_invocation(value),
                None => Json::String(text),
            }
        },
        other => other,
    }
}

} // verus!
