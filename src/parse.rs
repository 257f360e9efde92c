use vstd::prelude::*;
use crate::json::Json;

verus! {

broadcast use vstd::std_specs::vec::group_vec_axioms, vstd::seq::group_seq_axioms;

/// One level of a JSON text: its kind, with each nested value given back as
/// the JSON text of that value.
pub enum Layer {
    Null,
    Bool(bool),
    Number(serde_json::Number),
    Str(String),
    Array(Vec<String>),
    /// Entries in the order of the parser's map, by key.
    Object(Vec<(String, String)>),
}

/// A level of a JSON text as characters; numbers are not looked into.
pub enum LayerModel {
    Null,
    Bool(bool),
    Number,
    Str(Seq<char>),
    Array(Seq<Seq<char>>),
    Object(Seq<(Seq<char>, Seq<char>)>),
}

impl Layer {
    pub open spec fn model(self) -> LayerModel {
        match self {
            Layer::Null => LayerModel::Null,
            Layer::Bool(b) => LayerModel::Bool(b),
            Layer::Number(_) => LayerModel::Number,
            Layer::Str(s) => LayerModel::Str(s@),
            Layer::Array(items) => LayerModel::Array(items@.map_values(|t: String| t@)),
            Layer::Object(entries) => LayerModel::Object(
                entries@.map_values(|e: (String, String)| (e.0@, e.1@)),
            ),
        }
    }
}

/// What serde_json reads from a text, one level deep; `None` for text that is
/// not one JSON document.
pub uninterp spec fn top_layer(text: Seq<char>) -> Option<LayerModel>;

/// How many levels of arrays and objects a text is taken apart. serde_json's
/// parser refuses documents nested more than 128 levels, so no parsed text reaches it.
pub const MAX_DEPTH: usize = 256;

/// Relies on serde_json::from_str into a Value, and on Value's Display, which
/// writes a value back as JSON text: the top level of the document, each nested
/// value as its own text. The result depends on the text alone; the empty text
/// holds no document.
#[verifier::external_body]
fn parse_top(text: &str) -> (r: Option<Layer>)
    ensures
        match r {
            Some(l) => top_layer(text@) == Some(l.model()),
            None => top_layer(text@) is None,
        },
        text@.len() == 0 ==> r is None,
{
    Some(match serde_json::from_str::<serde_json::Value>(text).ok()? {
        serde_json::Value::Null => Layer::Null,
        serde_json::Value::Bool(b) => Layer::Bool(b),
        serde_json::Value::Number(n) => Layer::Number(n),
        serde_json::Value::String(s) => Layer::Str(s),
        serde_json::Value::Array(a) => Layer::Array(a.iter().map(|v| v.to_string()).collect()),
        serde_json::Value::Object(m) => Layer::Object(
            m.iter().map(|(k, v)| (k.clone(), v.to_string())).collect(),
        ),
    })
}

/// The text holds an array or an object.
pub open spec fn nests(text: Seq<char>) -> bool {
    match top_layer(text) {
        Some(LayerModel::Array(_)) => true,
        Some(LayerModel::Object(_)) => true,
        _ => false,
    }
}

/// How many values the top level of `text` holds.
pub open spec fn nested_count(text: Seq<char>) -> int {
    match top_layer(text) {
        Some(LayerModel::Array(items)) => items.len() as int,
        Some(LayerModel::Object(entries)) => entries.len() as int,
        _ => 0,
    }
}

/// The text of the `i`-th value at the top level of `text`.
pub open spec fn nested_text(text: Seq<char>, i: int) -> Seq<char> {
    match top_layer(text) {
        Some(LayerModel::Array(items)) => items[i],
        Some(LayerModel::Object(entries)) => entries[i].1,
        _ => Seq::empty(),
    }
}

/// `text` is a JSON document nested no deeper than `depth`.
pub open spec fn parses(text: Seq<char>, depth: int) -> bool
    decreases depth,
{
    &&& top_layer(text) is Some
    &&& nests(text) ==> {
        &&& depth > 0
        &&& forall|i: int|
            0 <= i < nested_count(text) ==> parses(#[trigger] nested_text(text, i), depth - 1)
    }
}

/// The top level of `j` is the one of `text`, nested values aside.
pub open spec fn same_top(text: Seq<char>, j: Json) -> bool {
    match top_layer(text) {
        None => false,
        Some(LayerModel::Null) => j is Null,
        Some(LayerModel::Bool(b)) => j == Json::Bool(b),
        Some(LayerModel::Number) => j is Number,
        Some(LayerModel::Str(s)) => j is Str && j->Str_0@ == s,
        Some(LayerModel::Array(items)) => j is Array && j->Array_0@.len() == items.len(),
        Some(LayerModel::Object(entries)) => {
            &&& j is Object
            &&& j->Object_0@.len() == entries.len()
            &&& forall|i: int|
                0 <= i < entries.len() ==> (#[trigger] j->Object_0@[i]).0@ == entries[i].0
        },
    }
}

/// The `i`-th nested value of `j`.
pub open spec fn nested_json(j: Json, i: int) -> Json {
    match j {
        Json::Array(items) => items@[i],
        Json::Object(entries) => entries@[i].1,
        _ => Json::Null,
    }
}

/// `j` is the document that `text` holds, read level by level to `depth`.
pub open spec fn parsed_as(text: Seq<char>, depth: int, j: Json) -> bool
    decreases depth,
{
    &&& same_top(text, j)
    &&& nests(text) ==> {
        &&& depth > 0
        &&& forall|i: int|
            0 <= i < nested_count(text) ==> parsed_as(
                #[trigger] nested_text(text, i),
                depth - 1,
                nested_json(j, i),
            )
    }
}

/// A text that holds a document parses.
pub proof fn lemma_parsed_as_parses(text: Seq<char>, depth: int, j: Json)
    requires
        parsed_as(text, depth, j),
    ensures
        parses(text, depth),
    decreases depth,
{
    if nests(text) {
        assert forall|i: int| 0 <= i < nested_count(text) implies parses(
            #[trigger] nested_text(text, i),
            depth - 1,
        ) by {
            lemma_parsed_as_parses(nested_text(text, i), depth - 1, nested_json(j, i));
        }
    }
}

/// Reads `text` as a document nested no deeper than `depth`.
fn json_from_text(text: &str, depth: usize) -> (r: Option<Json>)
    ensures
        match r {
            Some(j) => parsed_as(text@, depth as int, j),
            None => !parses(text@, depth as int),
        },
        text@.len() == 0 ==> r is None,
    decreases depth,
{
    let layer = match parse_top(text) {
        Some(l) => l,
        None => {
            return None;
        },
    };
    match layer {
        Layer::Null => Some(Json::Null),
        Layer::Bool(b) => Some(Json::Bool(b)),
        Layer::Number(n) => Some(Json::Number(n)),
        Layer::Str(s) => Some(Json::Str(s)),
        Layer::Array(items) => {
            if depth == 0 {
                return None;
            }
            let ghost m = items@.map_values(|t: String| t@);
            let mut out: Vec<Json> = Vec::new();
            let mut i: usize = 0;
            let mut ok = true;
            while ok && i < items.len()
                invariant
                    depth > 0,
                    top_layer(text@) == Some(LayerModel::Array(m)),
                    m == items@.map_values(|t: String| t@),
                    i <= items@.len(),
                    out@.len() == i,
                    forall|k: int|
                        0 <= k < i ==> parsed_as(m[k], depth - 1, #[trigger] out@[k]),
                    !ok ==> i < items@.len() && !parses(m[i as int], depth - 1),
                decreases items@.len() - i, (if ok { 1int } else { 0int }),
            {
                match json_from_text(items[i].as_str(), depth - 1) {
                    Some(j) => {
                        out.push(j);
                        i = i + 1;
                    },
                    None => {
                        ok = false;
                    },
                }
            }
            if !ok {
                assert(nested_text(text@, i as int) == m[i as int]);
                return None;
            }
            let r = Json::Array(out);
            assert forall|k: int| 0 <= k < nested_count(text@) implies parsed_as(
                #[trigger] nested_text(text@, k),
                depth - 1,
                nested_json(r, k),
            ) by {
                assert(nested_text(text@, k) == m[k]);
            }
            Some(r)
        },
        Layer::Object(entries) => {
            if depth == 0 {
                return None;
            }
            let ghost m = entries@.map_values(|e: (String, String)| (e.0@, e.1@));
            let mut out: Vec<(String, Json)> = Vec::new();
            let mut i: usize = 0;
            let mut ok = true;
            while ok && i < entries.len()
                invariant
                    depth > 0,
                    top_layer(text@) == Some(LayerModel::Object(m)),
                    m == entries@.map_values(|e: (String, String)| (e.0@, e.1@)),
                    i <= entries@.len(),
                    out@.len() == i,
                    forall|k: int|
                        0 <= k < i ==> {
                            &&& (#[trigger] out@[k]).0@ == m[k].0
                            &&& parsed_as(m[k].1, depth - 1, out@[k].1)
                        },
                    !ok ==> i < entries@.len() && !parses(m[i as int].1, depth - 1),
                decreases entries@.len() - i, (if ok { 1int } else { 0int }),
            {
                match json_from_text(entries[i].1.as_str(), depth - 1) {
                    Some(j) => {
                        out.push((entries[i].0.clone(), j));
                        i = i + 1;
                    },
                    None => {
                        ok = false;
                    },
                }
            }
            if !ok {
                assert(nested_text(text@, i as int) == m[i as int].1);
                return None;
            }
            let r = Json::Object(out);
            assert forall|k: int| 0 <= k < nested_count(text@) implies parsed_as(
                #[trigger] nested_text(text@, k),
                depth - 1,
                nested_json(r, k),
            ) by {
                assert(nested_text(text@, k) == m[k].1);
            }
            Some(r)
        },
    }
}

/// Parses a JSON text into a document: `None` exactly where the text is not a
/// JSON document (or nests deeper than `MAX_DEPTH`).
pub fn parse_json(text: &str) -> (r: Option<Json>)
    ensures
        match r {
            Some(j) => parsed_as(text@, MAX_DEPTH as int, j),
            None => !parses(text@, MAX_DEPTH as int),
        },
        text@.len() == 0 ==> r is None,
{
    json_from_text(text, MAX_DEPTH)
}

} // verus!
