use vstd::prelude::*;
use vstd::string::StringExecFns;
use crate::model::{Align, DataType, Element, Orientation, PluginAction, PluginResponse};

verus! {

broadcast use vstd::std_specs::vec::group_vec_axioms, vstd::seq::group_seq_axioms;

/// serde_json's number, carried without looking inside.
#[verifier::external_type_specification]
#[verifier::external_body]
pub struct ExNumber(serde_json::Number);

/// A JSON document as the parser hands it over. Numbers are carried, never read.
#[derive(Debug)]
pub enum Json {
    Null,
    Bool(bool),
    Number(serde_json::Number),
    Str(String),
    Array(Vec<Json>),
    /// Entries in document order.
    Object(Vec<(String, Json)>),
}

/// Position of the first entry named `key`, or the length where there is none.
pub open spec fn key_index(entries: Seq<(String, Json)>, key: Seq<char>) -> int
    decreases entries.len(),
{
    if entries.len() == 0 {
        0
    } else if entries[0].0@ == key {
        0
    } else {
        1 + key_index(entries.drop_first(), key)
    }
}

/// The value of the first entry named `key`.
pub open spec fn field(entries: Seq<(String, Json)>, key: Seq<char>) -> Option<Json> {
    let i = key_index(entries, key);
    if 0 <= i < entries.len() {
        Some(entries[i].1)
    } else {
        None
    }
}

pub proof fn lemma_key_index(entries: Seq<(String, Json)>, key: Seq<char>)
    ensures
        0 <= key_index(entries, key) <= entries.len(),
        key_index(entries, key) < entries.len() ==> entries[key_index(entries, key)].0@ == key,
        forall|j: int| 0 <= j < key_index(entries, key) ==> entries[j].0@ != key,
    decreases entries.len(),
{
    if entries.len() > 0 && entries[0].0@ != key {
        lemma_key_index(entries.drop_first(), key);
        assert forall|j: int| 0 <= j < key_index(entries, key) implies entries[j].0@ != key by {
            if j > 0 {
                assert(entries[j] == entries.drop_first()[j - 1]);
            }
        }
    }
}

pub open spec fn opt_ref(f: Option<&Json>) -> Option<Json> {
    match f {
        Some(x) => Some(*x),
        None => None,
    }
}

pub open spec fn opt_view(v: Option<String>) -> Option<Seq<char>> {
    match v {
        Some(s) => Some(s@),
        None => None,
    }
}

/// A field that must hold a string.
pub open spec fn dec_str(f: Option<Json>) -> Option<Seq<char>> {
    match f {
        Some(Json::Str(s)) => Some(s@),
        _ => None,
    }
}

/// An optional string field: absent or null gives `Some(None)`; a wrong type gives `None`.
pub open spec fn dec_opt_str(f: Option<Json>) -> Option<Option<Seq<char>>> {
    match f {
        None => Some(None),
        Some(Json::Null) => Some(None),
        Some(Json::Str(s)) => Some(Some(s@)),
        _ => None,
    }
}

/// An optional boolean field.
pub open spec fn dec_opt_bool(f: Option<Json>) -> Option<Option<bool>> {
    match f {
        None => Some(None),
        Some(Json::Null) => Some(None),
        Some(Json::Bool(b)) => Some(Some(b)),
        _ => None,
    }
}

pub open spec fn data_type_named(s: Seq<char>) -> Option<DataType> {
    if s == "Box"@ {
        Some(DataType::Box)
    } else if s == "EventBox"@ {
        Some(DataType::EventBox)
    } else if s == "Button"@ {
        Some(DataType::Button)
    } else if s == "Label"@ {
        Some(DataType::Label)
    } else if s == "Image"@ {
        Some(DataType::Image)
    } else {
        None
    }
}

pub open spec fn orientation_named(s: Seq<char>) -> Option<Orientation> {
    if s == "Horizontal"@ {
        Some(Orientation::Horizontal)
    } else if s == "Vertical"@ {
        Some(Orientation::Vertical)
    } else {
        None
    }
}

pub open spec fn align_named(s: Seq<char>) -> Option<Align> {
    if s == "Start"@ {
        Some(Align::Start)
    } else if s == "End"@ {
        Some(Align::End)
    } else if s == "Center"@ {
        Some(Align::Center)
    } else if s == "Fill"@ {
        Some(Align::Fill)
    } else if s == "Baseline"@ {
        Some(Align::Baseline)
    } else {
        None
    }
}

/// The required element type.
pub open spec fn dec_type(f: Option<Json>) -> Option<DataType> {
    match f {
        Some(Json::Str(s)) => data_type_named(s@),
        _ => None,
    }
}

pub open spec fn dec_opt_orientation(f: Option<Json>) -> Option<Option<Orientation>> {
    match f {
        None => Some(None),
        Some(Json::Null) => Some(None),
        Some(Json::Str(s)) => match orientation_named(s@) {
            Some(o) => Some(Some(o)),
            None => None,
        },
        _ => None,
    }
}

pub open spec fn dec_opt_align(f: Option<Json>) -> Option<Option<Align>> {
    match f {
        None => Some(None),
        Some(Json::Null) => Some(None),
        Some(Json::Str(s)) => match align_named(s@) {
            Some(a) => Some(Some(a)),
            None => None,
        },
        _ => None,
    }
}

/// Every item of the array is a string.
pub open spec fn all_strings(a: Seq<Json>) -> bool {
    forall|k: int| 0 <= k < a.len() ==> #[trigger] a[k] is Str
}

/// The style classes: absent gives none; otherwise an array of strings.
pub open spec fn dec_classes(f: Option<Json>) -> Option<Seq<Seq<char>>> {
    match f {
        None => Some(Seq::empty()),
        Some(Json::Array(a)) => if all_strings(a@) {
            Some(Seq::new(a@.len(), |k: int| a@[k]->Str_0@))
        } else {
            None
        },
        _ => None,
    }
}

pub fn str_is(s: &String, lit: &str) -> (r: bool)
    ensures
        r == (s@ == lit@),
{
    let t = String::from_str(lit);
    *s == t
}

/// Looks up the first entry named `key`.
pub fn lookup<'a>(entries: &'a Vec<(String, Json)>, key: &str) -> (r: Option<&'a Json>)
    ensures
        opt_ref(r) == field(entries@, key@),
{
    proof {
        lemma_key_index(entries@, key@);
    }
    let mut i: usize = 0;
    while i < entries.len()
        invariant
            i <= entries@.len(),
            forall|j: int| 0 <= j < i ==> entries@[j].0@ != key@,
            0 <= key_index(entries@, key@) <= entries@.len(),
            key_index(entries@, key@) < entries@.len() ==> entries@[key_index(entries@, key@)].0@ == key@,
            forall|j: int| 0 <= j < key_index(entries@, key@) ==> entries@[j].0@ != key@,
        decreases entries@.len() - i,
    {
        if str_is(&entries[i].0, key) {
            assert(key_index(entries@, key@) == i);
            return Some(&entries[i].1);
        }
        i = i + 1;
    }
    None
}

pub fn read_str(f: Option<&Json>) -> (r: Option<String>)
    ensures
        opt_view(r) == dec_str(opt_ref(f)),
{
    match f {
        Some(Json::Str(s)) => Some(s.clone()),
        _ => None,
    }
}

pub fn read_opt_str(f: Option<&Json>) -> (r: Option<Option<String>>)
    ensures
        match r {
            Some(v) => dec_opt_str(opt_ref(f)) == Some(opt_view(v)),
            None => dec_opt_str(opt_ref(f)) is None,
        },
{
    match f {
        None => Some(None),
        Some(Json::Null) => Some(None),
        Some(Json::Str(s)) => Some(Some(s.clone())),
        _ => None,
    }
}

pub fn read_opt_bool(f: Option<&Json>) -> (r: Option<Option<bool>>)
    ensures
        r == dec_opt_bool(opt_ref(f)),
{
    match f {
        None => Some(None),
        Some(Json::Null) => Some(None),
        Some(Json::Bool(b)) => Some(Some(*b)),
        _ => None,
    }
}

pub fn data_type_of(s: &String) -> (r: Option<DataType>)
    ensures
        r == data_type_named(s@),
{
    if str_is(s, "Box") {
        Some(DataType::Box)
    } else if str_is(s, "EventBox") {
        Some(DataType::EventBox)
    } else if str_is(s, "Button") {
        Some(DataType::Button)
    } else if str_is(s, "Label") {
        Some(DataType::Label)
    } else if str_is(s, "Image") {
        Some(DataType::Image)
    } else {
        None
    }
}

pub fn read_type(f: Option<&Json>) -> (r: Option<DataType>)
    ensures
        r == dec_type(opt_ref(f)),
{
    match f {
        Some(Json::Str(s)) => data_type_of(s),
        _ => None,
    }
}

pub fn read_opt_orientation(f: Option<&Json>) -> (r: Option<Option<Orientation>>)
    ensures
        r == dec_opt_orientation(opt_ref(f)),
{
    match f {
        None => Some(None),
        Some(Json::Null) => Some(None),
        Some(Json::Str(s)) => if str_is(s, "Horizontal") {
            Some(Some(Orientation::Horizontal))
        } else if str_is(s, "Vertical") {
            Some(Some(Orientation::Vertical))
        } else {
            None
        },
        _ => None,
    }
}

pub fn read_opt_align(f: Option<&Json>) -> (r: Option<Option<Align>>)
    ensures
        r == dec_opt_align(opt_ref(f)),
{
    match f {
        None => Some(None),
        Some(Json::Null) => Some(None),
        Some(Json::Str(s)) => if str_is(s, "Start") {
            Some(Some(Align::Start))
        } else if str_is(s, "End") {
            Some(Some(Align::End))
        } else if str_is(s, "Center") {
            Some(Some(Align::Center))
        } else if str_is(s, "Fill") {
            Some(Some(Align::Fill))
        } else if str_is(s, "Baseline") {
            Some(Some(Align::Baseline))
        } else {
            None
        },
        _ => None,
    }
}

pub fn read_classes(f: Option<&Json>) -> (r: Option<Vec<String>>)
    ensures
        match r {
            Some(v) => dec_classes(opt_ref(f)) == Some(v@.map_values(|s: String| s@)),
            None => dec_classes(opt_ref(f)) is None,
        },
{
    match f {
        None => {
            let v: Vec<String> = Vec::new();
            assert(v@.map_values(|s: String| s@) =~= Seq::<Seq<char>>::empty());
            Some(v)
        },
        Some(Json::Array(a)) => {
            let mut out: Vec<String> = Vec::new();
            let mut k: usize = 0;
            let mut ok = true;
            while ok && k < a.len()
                invariant
                    k <= a@.len(),
                    out@.len() == k,
                    forall|j: int| 0 <= j < k ==> #[trigger] a@[j] is Str && out@[j]@ == a@[j]->Str_0@,
                    !ok ==> k < a@.len() && !(a@[k as int] is Str),
                decreases a@.len() - k, (if ok { 1int } else { 0int }),
            {
                match &a[k] {
                    Json::Str(s) => {
                        out.push(s.clone());
                        k = k + 1;
                    },
                    _ => {
                        ok = false;
                    },
                }
            }
            if !ok {
                return None;
            }
            assert(out@.map_values(|s: String| s@) =~= Seq::new(a@.len(), |k: int| a@[k]->Str_0@));
            Some(out)
        },
        _ => None,
    }
}

/// The nested elements that the entry "children" lists, if it is an array.
pub open spec fn child_array(v: Seq<(String, Json)>) -> Option<Seq<Json>> {
    let ci = key_index(v, "children"@);
    if 0 <= ci < v.len() {
        match v[ci].1 {
            Json::Array(cs) => Some(cs@),
            _ => None,
        }
    } else {
        None
    }
}

/// The entry "children" is absent or null.
pub open spec fn no_children(v: Seq<(String, Json)>) -> bool {
    let ci = key_index(v, "children"@);
    !(0 <= ci < v.len()) || v[ci].1 is Null
}

/// The leaf fields of an element object all have an admissible shape.
pub open spec fn leaves_ok(v: Seq<(String, Json)>) -> bool {
    &&& dec_str(field(v, "id"@)) is Some
    &&& dec_classes(field(v, "classes"@)) is Some
    &&& dec_type(field(v, "type"@)) is Some
    &&& dec_opt_orientation(field(v, "orientation"@)) is Some
    &&& dec_opt_bool(field(v, "hexpand"@)) is Some
    &&& dec_opt_bool(field(v, "vexpand"@)) is Some
    &&& dec_opt_align(field(v, "halign"@)) is Some
    &&& dec_opt_str(field(v, "text"@)) is Some
    &&& dec_opt_bool(field(v, "wrap"@)) is Some
    &&& dec_opt_bool(field(v, "ellipsize"@)) is Some
    &&& dec_opt_str(field(v, "image_path"@)) is Some
}

/// The leaf fields of `e` are those that the object `v` gives.
pub open spec fn leaves_match(v: Seq<(String, Json)>, e: Element) -> bool {
    &&& dec_str(field(v, "id"@)) == Some(e.id@)
    &&& dec_classes(field(v, "classes"@)) == Some(e.classes@.map_values(|s: String| s@))
    &&& dec_type(field(v, "type"@)) == Some(e.element_type)
    &&& dec_opt_orientation(field(v, "orientation"@)) == Some(e.orientation)
    &&& dec_opt_bool(field(v, "hexpand"@)) == Some(e.hexpand)
    &&& dec_opt_bool(field(v, "vexpand"@)) == Some(e.vexpand)
    &&& dec_opt_align(field(v, "halign"@)) == Some(e.halign)
    &&& dec_opt_str(field(v, "text"@)) == Some(opt_view(e.text))
    &&& dec_opt_bool(field(v, "wrap"@)) == Some(e.wrap)
    &&& dec_opt_bool(field(v, "ellipsize"@)) == Some(e.ellipsize)
    &&& dec_opt_str(field(v, "image_path"@)) == Some(opt_view(e.image_path))
}

/// `j` is a well-formed element: an object whose fields have the shapes of the
/// element schema, with well-formed children. Other entries are ignored.
pub open spec fn element_ok(j: Json) -> bool
    decreases j,
{
    match j {
        Json::Object(v) => {
            &&& leaves_ok(v@)
            &&& (no_children(v@) || child_array(v@) is Some)
            &&& forall|k: int|
                0 <= k < child_count(j) ==> element_ok(#[trigger] child_at(j, k))
        },
        _ => false,
    }
}

pub open spec fn child_count(j: Json) -> int {
    match j {
        Json::Object(v) => match child_array(v@) {
            Some(cs) => cs.len() as int,
            None => 0,
        },
        _ => 0,
    }
}

pub open spec fn child_at(j: Json, k: int) -> Json {
    match j {
        Json::Object(v) => match child_array(v@) {
            Some(cs) => cs[k],
            None => Json::Null,
        },
        _ => Json::Null,
    }
}

/// `e` is what the element document `j` decodes to.
pub open spec fn decodes(j: Json, e: Element) -> bool
    decreases j,
{
    match j {
        Json::Object(v) => {
            &&& leaves_match(v@, e)
            &&& (no_children(v@) ==> e.children is None)
            &&& (!no_children(v@) ==> child_array(v@) is Some && e.children is Some
                && e.children->0@.len() == child_count(j))
            &&& forall|k: int|
                0 <= k < child_count(j) ==> decodes(#[trigger] child_at(j, k), e.children->0@[k])
        },
        _ => false,
    }
}

/// Decodes one element and its children: `None` exactly where `j` is not a
/// well-formed element.
pub fn element_from_json(j: &Json) -> (r: Option<Element>)
    ensures
        match r {
            Some(e) => decodes(*j, e),
            None => !element_ok(*j),
        },
    decreases j,
{
    let v = match j {
        Json::Object(v) => v,
        _ => {
            return None;
        },
    };
    let id = match read_str(lookup(v, "id")) {
        Some(x) => x,
        None => {
            return None;
        },
    };
    let classes = match read_classes(lookup(v, "classes")) {
        Some(x) => x,
        None => {
            return None;
        },
    };
    let element_type = match read_type(lookup(v, "type")) {
        Some(x) => x,
        None => {
            return None;
        },
    };
    let orientation = match read_opt_orientation(lookup(v, "orientation")) {
        Some(x) => x,
        None => {
            return None;
        },
    };
    let hexpand = match read_opt_bool(lookup(v, "hexpand")) {
        Some(x) => x,
        None => {
            return None;
        },
    };
    let vexpand = match read_opt_bool(lookup(v, "vexpand")) {
        Some(x) => x,
        None => {
            return None;
        },
    };
    let halign = match read_opt_align(lookup(v, "halign")) {
        Some(x) => x,
        None => {
            return None;
        },
    };
    let text = match read_opt_str(lookup(v, "text")) {
        Some(x) => x,
        None => {
            return None;
        },
    };
    let wrap = match read_opt_bool(lookup(v, "wrap")) {
        Some(x) => x,
        None => {
            return None;
        },
    };
    let ellipsize = match read_opt_bool(lookup(v, "ellipsize")) {
        Some(x) => x,
        None => {
            return None;
        },
    };
    let image_path = match read_opt_str(lookup(v, "image_path")) {
        Some(x) => x,
        None => {
            return None;
        },
    };
    proof {
        lemma_key_index(v@, "children"@);
    }
    let children = match lookup(v, "children") {
        None => None,
        Some(Json::Null) => None,
        Some(Json::Array(cs)) => {
            let mut out: Vec<Element> = Vec::new();
            let mut k: usize = 0;
            let mut ok = true;
            while ok && k < cs.len()
                invariant
                    child_array(v@) == Some(cs@),
                    child_count(*j) == cs@.len(),
                    *j == Json::Object(*v),
                    k <= cs@.len(),
                    out@.len() == k,
                    forall|i: int| 0 <= i < k ==> decodes(cs@[i], #[trigger] out@[i]),
                    !ok ==> k < cs@.len() && !element_ok(cs@[k as int]),
                decreases cs@.len() - k, (if ok { 1int } else { 0int }),
            {
                proof {
                    assert(child_at(*j, k as int) == cs@[k as int]);
                }
                match element_from_json(&cs[k]) {
                    Some(c) => {
                        out.push(c);
                        k = k + 1;
                    },
                    None => {
                        ok = false;
                    },
                }
            }
            if !ok {
                proof {
                    assert(child_at(*j, k as int) == cs@[k as int]);
                }
                return None;
            }
            Some(out)
        },
        _ => {
            return None;
        },
    };
    let e = Element {
        id,
        classes,
        element_type,
        orientation,
        hexpand,
        vexpand,
        halign,
        text,
        wrap,
        ellipsize,
        image_path,
        children,
    };
    proof {
        assert forall|k: int| 0 <= k < child_count(*j) implies decodes(#[trigger] child_at(*j, k), e.children->0@[k]) by {
            assert(child_at(*j, k) == child_array(v@)->0[k]);
        }
    }
    Some(e)
}

/// An action as its tag and its text; `Exit` carries the empty text.
pub open spec fn action_view(a: PluginAction) -> (Seq<char>, Seq<char>) {
    match a {
        PluginAction::Exit => ("Exit"@, Seq::empty()),
        PluginAction::Open(s) => ("Open"@, s@),
        PluginAction::Copy(s) => ("Copy"@, s@),
        PluginAction::Launch(s) => ("Launch"@, s@),
        PluginAction::RunCmd(s) => ("RunCmd"@, s@),
        PluginAction::RunScript(s) => ("RunScript"@, s@),
    }
}

pub open spec fn opt_action_view(a: Option<PluginAction>) -> Option<(Seq<char>, Seq<char>)> {
    match a {
        Some(x) => Some(action_view(x)),
        None => None,
    }
}

/// The tags of the actions that carry a text.
pub open spec fn is_payload_tag(t: Seq<char>) -> bool {
    t == "Open"@ || t == "Copy"@ || t == "Launch"@ || t == "RunCmd"@ || t == "RunScript"@
}

/// The optional action: absent or null gives `Some(None)`; the string "Exit", or an
/// object with one entry from a payload tag to a string, gives that action; anything
/// else is malformed.
pub open spec fn dec_action(f: Option<Json>) -> Option<Option<(Seq<char>, Seq<char>)>> {
    match f {
        None => Some(None),
        Some(Json::Null) => Some(None),
        Some(Json::Str(s)) => if s@ == "Exit"@ {
            Some(Some(("Exit"@, Seq::empty())))
        } else {
            None
        },
        Some(Json::Object(v)) => if v@.len() == 1 && is_payload_tag(v@[0].0@) && v@[0].1 is Str {
            Some(Some((v@[0].0@, v@[0].1->Str_0@)))
        } else {
            None
        },
        _ => None,
    }
}

pub fn read_action(f: Option<&Json>) -> (r: Option<Option<PluginAction>>)
    ensures
        match r {
            Some(a) => dec_action(opt_ref(f)) == Some(opt_action_view(a)),
            None => dec_action(opt_ref(f)) is None,
        },
{
    match f {
        None => Some(None),
        Some(Json::Null) => Some(None),
        Some(Json::Str(s)) => if str_is(s, "Exit") {
            Some(Some(PluginAction::Exit))
        } else {
            None
        },
        Some(Json::Object(v)) => {
            if v.len() != 1 {
                return None;
            }
            let tag = &v[0].0;
            let p = match &v[0].1 {
                Json::Str(p) => p.clone(),
                _ => {
                    return None;
                },
            };
            if str_is(tag, "Open") {
                Some(Some(PluginAction::Open(p)))
            } else if str_is(tag, "Copy") {
                Some(Some(PluginAction::Copy(p)))
            } else if str_is(tag, "Launch") {
                Some(Some(PluginAction::Launch(p)))
            } else if str_is(tag, "RunCmd") {
                Some(Some(PluginAction::RunCmd(p)))
            } else if str_is(tag, "RunScript") {
                Some(Some(PluginAction::RunScript(p)))
            } else {
                None
            }
        },
        _ => None,
    }
}

/// The entry "elements" holds an array: its items.
pub open spec fn element_array(v: Seq<(String, Json)>) -> Option<Seq<Json>> {
    match field(v, "elements"@) {
        Some(Json::Array(es)) => Some(es@),
        _ => None,
    }
}

/// `j` is a well-formed response document.
pub open spec fn response_ok(j: Json) -> bool {
    match j {
        Json::Object(v) => {
            &&& element_array(v@) is Some
            &&& forall|k: int|
                0 <= k < element_array(v@)->0.len() ==> element_ok(#[trigger] element_array(v@)->0[k])
            &&& dec_opt_str(field(v@, "title"@)) is Some
            &&& dec_opt_str(field(v@, "set_icon"@)) is Some
            &&& dec_action(field(v@, "action"@)) is Some
        },
        _ => false,
    }
}

/// `r` is what the response document `j` decodes to.
pub open spec fn response_decodes(j: Json, r: PluginResponse) -> bool {
    match j {
        Json::Object(v) => {
            &&& element_array(v@) is Some
            &&& r.elements@.len() == element_array(v@)->0.len()
            &&& forall|k: int|
                0 <= k < r.elements@.len() ==> decodes(element_array(v@)->0[k], #[trigger] r.elements@[k])
            &&& dec_opt_str(field(v@, "title"@)) == Some(opt_view(r.title))
            &&& dec_opt_str(field(v@, "set_icon"@)) == Some(opt_view(r.set_icon))
            &&& dec_action(field(v@, "action"@)) == Some(opt_action_view(r.action))
        },
        _ => false,
    }
}

/// Decodes a whole response: `None` exactly where `j` is not a well-formed response.
pub fn response_from_json(j: &Json) -> (r: Option<PluginResponse>)
    ensures
        match r {
            Some(resp) => response_decodes(*j, resp),
            None => !response_ok(*j),
        },
{
    let v = match j {
        Json::Object(v) => v,
        _ => {
            return None;
        },
    };
    let es = match lookup(v, "elements") {
        Some(Json::Array(es)) => es,
        _ => {
            return None;
        },
    };
    let mut elements: Vec<Element> = Vec::new();
    let mut k: usize = 0;
    let mut ok = true;
    while ok && k < es.len()
        invariant
            element_array(v@) == Some(es@),
            k <= es@.len(),
            elements@.len() == k,
            forall|i: int| 0 <= i < k ==> decodes(es@[i], #[trigger] elements@[i]),
            !ok ==> k < es@.len() && !element_ok(es@[k as int]),
        decreases es@.len() - k, (if ok { 1int } else { 0int }),
    {
        match element_from_json(&es[k]) {
            Some(e) => {
                elements.push(e);
                k = k + 1;
            },
            None => {
                ok = false;
            },
        }
    }
    if !ok {
        assert(element_array(v@)->0[k as int] == es@[k as int]);
        return None;
    }
    let title = match read_opt_str(lookup(v, "title")) {
        Some(x) => x,
        None => {
            return None;
        },
    };
    let set_icon = match read_opt_str(lookup(v, "set_icon")) {
        Some(x) => x,
        None => {
            return None;
        },
    };
    let action = match read_action(lookup(v, "action")) {
        Some(x) => x,
        None => {
            return None;
        },
    };
    Some(PluginResponse { elements, title, set_icon, action })
}

/// Whatever decodes to an element is a well-formed element.
pub proof fn lemma_decodes_ok(j: Json, e: Element)
    requires
        decodes(j, e),
    ensures
        element_ok(j),
    decreases j,
{
    if let Json::Object(v) = j {
        assert forall|k: int| 0 <= k < child_count(j) implies element_ok(#[trigger] child_at(j, k)) by {
            lemma_decodes_ok(child_at(j, k), e.children->0@[k]);
        }
    }
}

/// Whatever decodes to a response is a well-formed response.
pub proof fn lemma_response_decodes_ok(j: Json, r: PluginResponse)
    requires
        response_decodes(j, r),
    ensures
        response_ok(j),
{
    if let Json::Object(v) = j {
        let es = element_array(v@)->0;
        assert forall|k: int| 0 <= k < es.len() implies element_ok(#[trigger] es[k]) by {
            lemma_decodes_ok(es[k], r.elements@[k]);
        }
    }
}

} // verus!
