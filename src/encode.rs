use vstd::prelude::*;
use vstd::string::StringExecFns;
use crate::json::{
    Json, action_view, child_at, child_count, dec_action, dec_classes, dec_opt_align,
    dec_opt_bool, dec_opt_orientation, dec_opt_str, dec_str, dec_type, decodes, element_array,
    element_ok, field, lemma_decodes_ok, lemma_key_index, lemma_response_decodes_ok,
    opt_action_view, opt_view, response_decodes, response_ok,
};
use crate::model::{Align, DataType, Element, Orientation, PluginAction, PluginResponse};

verus! {

broadcast use vstd::std_specs::vec::group_vec_axioms, vstd::seq::group_seq_axioms,
    vstd::string::group_string_axioms;

/// The entry at `i` is the first one named `key`.
pub proof fn lemma_field_at(s: Seq<(String, Json)>, i: int, key: Seq<char>)
    requires
        0 <= i < s.len(),
        s[i].0@ == key,
        forall|j: int| 0 <= j < i ==> s[j].0@ != key,
    ensures
        field(s, key) == Some(s[i].1),
{
    lemma_key_index(s, key);
}

/// The names that the schema uses are pairwise distinct.
pub proof fn lemma_names_distinct()
    ensures
        "elements"@ != "title"@,
        "elements"@ != "set_icon"@,
        "elements"@ != "action"@,
        "title"@ != "set_icon"@,
        "title"@ != "action"@,
        "set_icon"@ != "action"@,
        "Box"@ != "EventBox"@,
        "Box"@ != "Button"@,
        "Box"@ != "Label"@,
        "Box"@ != "Image"@,
        "EventBox"@ != "Button"@,
        "EventBox"@ != "Label"@,
        "EventBox"@ != "Image"@,
        "Button"@ != "Label"@,
        "Button"@ != "Image"@,
        "Label"@ != "Image"@,
        "Horizontal"@ != "Vertical"@,
        "Start"@ != "End"@,
        "Start"@ != "Center"@,
        "Start"@ != "Fill"@,
        "Start"@ != "Baseline"@,
        "End"@ != "Center"@,
        "End"@ != "Fill"@,
        "End"@ != "Baseline"@,
        "Center"@ != "Fill"@,
        "Center"@ != "Baseline"@,
        "Fill"@ != "Baseline"@,
        "id"@ != "classes"@,
        "id"@ != "type"@,
        "id"@ != "orientation"@,
        "id"@ != "hexpand"@,
        "id"@ != "vexpand"@,
        "id"@ != "halign"@,
        "id"@ != "text"@,
        "id"@ != "wrap"@,
        "id"@ != "ellipsize"@,
        "id"@ != "image_path"@,
        "id"@ != "children"@,
        "classes"@ != "type"@,
        "classes"@ != "orientation"@,
        "classes"@ != "hexpand"@,
        "classes"@ != "vexpand"@,
        "classes"@ != "halign"@,
        "classes"@ != "text"@,
        "classes"@ != "wrap"@,
        "classes"@ != "ellipsize"@,
        "classes"@ != "image_path"@,
        "classes"@ != "children"@,
        "type"@ != "orientation"@,
        "type"@ != "hexpand"@,
        "type"@ != "vexpand"@,
        "type"@ != "halign"@,
        "type"@ != "text"@,
        "type"@ != "wrap"@,
        "type"@ != "ellipsize"@,
        "type"@ != "image_path"@,
        "type"@ != "children"@,
        "orientation"@ != "hexpand"@,
        "orientation"@ != "vexpand"@,
        "orientation"@ != "halign"@,
        "orientation"@ != "text"@,
        "orientation"@ != "wrap"@,
        "orientation"@ != "ellipsize"@,
        "orientation"@ != "image_path"@,
        "orientation"@ != "children"@,
        "hexpand"@ != "vexpand"@,
        "hexpand"@ != "halign"@,
        "hexpand"@ != "text"@,
        "hexpand"@ != "wrap"@,
        "hexpand"@ != "ellipsize"@,
        "hexpand"@ != "image_path"@,
        "hexpand"@ != "children"@,
        "vexpand"@ != "halign"@,
        "vexpand"@ != "text"@,
        "vexpand"@ != "wrap"@,
        "vexpand"@ != "ellipsize"@,
        "vexpand"@ != "image_path"@,
        "vexpand"@ != "children"@,
        "halign"@ != "text"@,
        "halign"@ != "wrap"@,
        "halign"@ != "ellipsize"@,
        "halign"@ != "image_path"@,
        "halign"@ != "children"@,
        "text"@ != "wrap"@,
        "text"@ != "ellipsize"@,
        "text"@ != "image_path"@,
        "text"@ != "children"@,
        "wrap"@ != "ellipsize"@,
        "wrap"@ != "image_path"@,
        "wrap"@ != "children"@,
        "ellipsize"@ != "image_path"@,
        "ellipsize"@ != "children"@,
        "image_path"@ != "children"@,
{
    reveal_strlit("elements");
    assert("elements"@.len() == 8);
    reveal_strlit("title");
    assert("title"@.len() == 5);
    reveal_strlit("set_icon");
    assert("set_icon"@.len() == 8);
    reveal_strlit("action");
    assert("action"@.len() == 6);
    assert("elements"@[0] != "set_icon"@[0]);
    reveal_strlit("Baseline");
    assert("Baseline"@.len() == 8);
    reveal_strlit("Box");
    assert("Box"@.len() == 3);
    reveal_strlit("Button");
    assert("Button"@.len() == 6);
    reveal_strlit("Center");
    assert("Center"@.len() == 6);
    reveal_strlit("End");
    assert("End"@.len() == 3);
    reveal_strlit("EventBox");
    assert("EventBox"@.len() == 8);
    reveal_strlit("Fill");
    assert("Fill"@.len() == 4);
    reveal_strlit("Horizontal");
    assert("Horizontal"@.len() == 10);
    reveal_strlit("Image");
    assert("Image"@.len() == 5);
    reveal_strlit("Label");
    assert("Label"@.len() == 5);
    reveal_strlit("Start");
    assert("Start"@.len() == 5);
    reveal_strlit("Vertical");
    assert("Vertical"@.len() == 8);
    reveal_strlit("children");
    assert("children"@.len() == 8);
    reveal_strlit("classes");
    assert("classes"@.len() == 7);
    reveal_strlit("ellipsize");
    assert("ellipsize"@.len() == 9);
    reveal_strlit("halign");
    assert("halign"@.len() == 6);
    reveal_strlit("hexpand");
    assert("hexpand"@.len() == 7);
    reveal_strlit("id");
    assert("id"@.len() == 2);
    reveal_strlit("image_path");
    assert("image_path"@.len() == 10);
    reveal_strlit("orientation");
    assert("orientation"@.len() == 11);
    reveal_strlit("text");
    assert("text"@.len() == 4);
    reveal_strlit("type");
    assert("type"@.len() == 4);
    reveal_strlit("vexpand");
    assert("vexpand"@.len() == 7);
    reveal_strlit("wrap");
    assert("wrap"@.len() == 4);
    assert("Label"@[0] != "Image"@[0]);
    assert("classes"@[0] != "hexpand"@[0]);
    assert("classes"@[0] != "vexpand"@[0]);
    assert("type"@[1] != "text"@[1]);
    assert("type"@[0] != "wrap"@[0]);
    assert("hexpand"@[0] != "vexpand"@[0]);
    assert("text"@[0] != "wrap"@[0]);
}

fn text_json(s: &String) -> (j: Json)
    ensures
        dec_str(Some(j)) == Some(s@),
        dec_opt_str(Some(j)) == Some(Some(s@)),
{
    Json::Str(s.clone())
}

fn opt_text_json(v: &Option<String>) -> (j: Json)
    ensures
        dec_opt_str(Some(j)) == Some(opt_view(*v)),
{
    match v {
        Some(s) => Json::Str(s.clone()),
        None => Json::Null,
    }
}

fn opt_bool_json(v: Option<bool>) -> (j: Json)
    ensures
        dec_opt_bool(Some(j)) == Some(v),
{
    match v {
        Some(b) => Json::Bool(b),
        None => Json::Null,
    }
}

fn type_json(t: DataType) -> (j: Json)
    ensures
        dec_type(Some(j)) == Some(t),
{
    proof {
        lemma_names_distinct();
    }
    match t {
        DataType::Box => Json::Str(String::from_str("Box")),
        DataType::EventBox => Json::Str(String::from_str("EventBox")),
        DataType::Button => Json::Str(String::from_str("Button")),
        DataType::Label => Json::Str(String::from_str("Label")),
        DataType::Image => Json::Str(String::from_str("Image")),
    }
}

fn orientation_json(v: Option<Orientation>) -> (j: Json)
    ensures
        dec_opt_orientation(Some(j)) == Some(v),
{
    proof {
        lemma_names_distinct();
    }
    match v {
        Some(Orientation::Horizontal) => Json::Str(String::from_str("Horizontal")),
        Some(Orientation::Vertical) => Json::Str(String::from_str("Vertical")),
        None => Json::Null,
    }
}

fn align_json(v: Option<Align>) -> (j: Json)
    ensures
        dec_opt_align(Some(j)) == Some(v),
{
    proof {
        lemma_names_distinct();
    }
    match v {
        Some(Align::Start) => Json::Str(String::from_str("Start")),
        Some(Align::End) => Json::Str(String::from_str("End")),
        Some(Align::Center) => Json::Str(String::from_str("Center")),
        Some(Align::Fill) => Json::Str(String::from_str("Fill")),
        Some(Align::Baseline) => Json::Str(String::from_str("Baseline")),
        None => Json::Null,
    }
}

fn classes_json(v: &Vec<String>) -> (j: Json)
    ensures
        dec_classes(Some(j)) == Some(v@.map_values(|s: String| s@)),
{
    let mut out: Vec<Json> = Vec::new();
    let mut k: usize = 0;
    while k < v.len()
        invariant
            k <= v@.len(),
            out@.len() == k,
            forall|i: int| 0 <= i < k ==> #[trigger] out@[i] is Str && out@[i]->Str_0@ == v@[i]@,
        decreases v@.len() - k,
    {
        out.push(Json::Str(v[k].clone()));
        k = k + 1;
    }
    assert(Seq::new(out@.len(), |i: int| out@[i]->Str_0@) =~= v@.map_values(|s: String| s@));
    Json::Array(out)
}

/// Writes an element as a JSON object that carries every field, null where one
/// is absent.
pub fn element_to_json(e: &Element) -> (j: Json)
    ensures
        decodes(j, *e),
    decreases e,
{
    let children = match &e.children {
        None => Json::Null,
        Some(cs) => {
            let mut out: Vec<Json> = Vec::new();
            let mut k: usize = 0;
            while k < cs.len()
                invariant
                    e.children == Some(*cs),
                    k <= cs@.len(),
                    out@.len() == k,
                    forall|i: int| 0 <= i < k ==> decodes(#[trigger] out@[i], cs@[i]),
                decreases cs@.len() - k,
            {
                proof {
                    assert(decreases_to!(*e => e.children));
                    assert(decreases_to!(e.children => e.children->0));
                    assert(decreases_to!(e.children->0 => e.children->0@[k as int]));
                }
                out.push(element_to_json(&cs[k]));
                k = k + 1;
            }
            Json::Array(out)
        },
    };
    let mut v: Vec<(String, Json)> = Vec::new();
    v.push((String::from_str("id"), text_json(&e.id)));
    v.push((String::from_str("classes"), classes_json(&e.classes)));
    v.push((String::from_str("type"), type_json(e.element_type)));
    v.push((String::from_str("orientation"), orientation_json(e.orientation)));
    v.push((String::from_str("hexpand"), opt_bool_json(e.hexpand)));
    v.push((String::from_str("vexpand"), opt_bool_json(e.vexpand)));
    v.push((String::from_str("halign"), align_json(e.halign)));
    v.push((String::from_str("text"), opt_text_json(&e.text)));
    v.push((String::from_str("wrap"), opt_bool_json(e.wrap)));
    v.push((String::from_str("ellipsize"), opt_bool_json(e.ellipsize)));
    v.push((String::from_str("image_path"), opt_text_json(&e.image_path)));
    v.push((String::from_str("children"), children));
    proof {
        lemma_names_distinct();
        let s = v@;
        assert(s[0].0@ == "id"@);
        assert(s[1].0@ == "classes"@);
        assert(s[2].0@ == "type"@);
        assert(s[3].0@ == "orientation"@);
        assert(s[4].0@ == "hexpand"@);
        assert(s[5].0@ == "vexpand"@);
        assert(s[6].0@ == "halign"@);
        assert(s[7].0@ == "text"@);
        assert(s[8].0@ == "wrap"@);
        assert(s[9].0@ == "ellipsize"@);
        assert(s[10].0@ == "image_path"@);
        assert(s[11].0@ == "children"@);
        lemma_field_at(s, 0, "id"@);
        lemma_field_at(s, 1, "classes"@);
        lemma_field_at(s, 2, "type"@);
        lemma_field_at(s, 3, "orientation"@);
        lemma_field_at(s, 4, "hexpand"@);
        lemma_field_at(s, 5, "vexpand"@);
        lemma_field_at(s, 6, "halign"@);
        lemma_field_at(s, 7, "text"@);
        lemma_field_at(s, 8, "wrap"@);
        lemma_field_at(s, 9, "ellipsize"@);
        lemma_field_at(s, 10, "image_path"@);
        lemma_field_at(s, 11, "children"@);
        lemma_key_index(s, "children"@);
        let j = Json::Object(v);
        if e.children is Some {
            assert forall|k: int| 0 <= k < child_count(j) implies decodes(
                #[trigger] child_at(j, k),
                e.children->0@[k],
            ) by {}
        }
    }
    Json::Object(v)
}

fn action_json(a: &PluginAction) -> (j: Json)
    ensures
        dec_action(Some(j)) == Some(Some(action_view(*a))),
{
    proof {
        reveal_strlit("Exit");
    }
    let (tag, text) = match a {
        PluginAction::Exit => {
            return Json::Str(String::from_str("Exit"));
        },
        PluginAction::Open(s) => (String::from_str("Open"), s.clone()),
        PluginAction::Copy(s) => (String::from_str("Copy"), s.clone()),
        PluginAction::Launch(s) => (String::from_str("Launch"), s.clone()),
        PluginAction::RunCmd(s) => (String::from_str("RunCmd"), s.clone()),
        PluginAction::RunScript(s) => (String::from_str("RunScript"), s.clone()),
    };
    let mut entries: Vec<(String, Json)> = Vec::new();
    entries.push((tag, Json::Str(text)));
    Json::Object(entries)
}

/// Writes a response as a JSON object that carries every field, null where one
/// is absent.
pub fn response_to_json(r: &PluginResponse) -> (j: Json)
    ensures
        response_decodes(j, *r),
{
    let mut es: Vec<Json> = Vec::new();
    let mut k: usize = 0;
    while k < r.elements.len()
        invariant
            k <= r.elements@.len(),
            es@.len() == k,
            forall|i: int| 0 <= i < k ==> decodes(#[trigger] es@[i], r.elements@[i]),
        decreases r.elements@.len() - k,
    {
        es.push(element_to_json(&r.elements[k]));
        k = k + 1;
    }
    let action = match &r.action {
        Some(a) => action_json(a),
        None => Json::Null,
    };
    let mut v: Vec<(String, Json)> = Vec::new();
    v.push((String::from_str("elements"), Json::Array(es)));
    v.push((String::from_str("title"), opt_text_json(&r.title)));
    v.push((String::from_str("set_icon"), opt_text_json(&r.set_icon)));
    v.push((String::from_str("action"), action));
    proof {
        lemma_names_distinct();
        let s = v@;
        assert(s[0].0@ == "elements"@);
        assert(s[1].0@ == "title"@);
        assert(s[2].0@ == "set_icon"@);
        assert(s[3].0@ == "action"@);
        lemma_field_at(s, 0, "elements"@);
        lemma_field_at(s, 1, "title"@);
        lemma_field_at(s, 2, "set_icon"@);
        lemma_field_at(s, 3, "action"@);
        assert(element_array(s) == Some(es@));
    }
    Json::Object(v)
}

/// Two elements agree field for field, strings by their characters, down the
/// whole tree.
pub open spec fn same_element(a: Element, b: Element) -> bool
    decreases a,
{
    &&& a.id@ == b.id@
    &&& a.classes@.map_values(|s: String| s@) == b.classes@.map_values(|s: String| s@)
    &&& a.element_type == b.element_type
    &&& a.orientation == b.orientation
    &&& a.hexpand == b.hexpand
    &&& a.vexpand == b.vexpand
    &&& a.halign == b.halign
    &&& opt_view(a.text) == opt_view(b.text)
    &&& a.wrap == b.wrap
    &&& a.ellipsize == b.ellipsize
    &&& opt_view(a.image_path) == opt_view(b.image_path)
    &&& (a.children is Some <==> b.children is Some)
    &&& a.children is Some ==> {
        &&& a.children->0@.len() == b.children->0@.len()
        &&& forall|k: int|
            0 <= k < a.children->0@.len() ==> same_element(
                a.children->0@[k],
                #[trigger] b.children->0@[k],
            )
    }
}

/// Two responses agree field for field, their element trees by `same_element`.
pub open spec fn same_response(a: PluginResponse, b: PluginResponse) -> bool {
    &&& a.elements@.len() == b.elements@.len()
    &&& forall|k: int|
        0 <= k < a.elements@.len() ==> same_element(a.elements@[k], #[trigger] b.elements@[k])
    &&& opt_view(a.title) == opt_view(b.title)
    &&& opt_view(a.set_icon) == opt_view(b.set_icon)
    &&& opt_action_view(a.action) == opt_action_view(b.action)
}

/// A document decodes to one element only, up to `same_element`.
pub proof fn lemma_decodes_unique(j: Json, a: Element, b: Element)
    requires
        decodes(j, a),
        decodes(j, b),
    ensures
        same_element(a, b),
    decreases j,
{
    if a.children is Some {
        assert forall|k: int| 0 <= k < a.children->0@.len() implies same_element(
            a.children->0@[k],
            #[trigger] b.children->0@[k],
        ) by {
            assert(decodes(child_at(j, k), a.children->0@[k]));
            lemma_decodes_unique(child_at(j, k), a.children->0@[k], b.children->0@[k]);
        }
    }
}

/// Round trip of one element: the JSON that `element_to_json` writes for `e`
/// (any `j` with `decodes(j, e)`) is well-formed, so `element_from_json`
/// succeeds on it, and what it decodes to (`d`) equals `e` field for field.
pub proof fn lemma_element_round_trip(e: Element, j: Json, d: Element)
    requires
        decodes(j, e),
        decodes(j, d),
    ensures
        element_ok(j),
        same_element(e, d),
{
    lemma_decodes_ok(j, e);
    lemma_decodes_unique(j, e, d);
}

/// Round trip of a response: the JSON that `response_to_json` writes for `r` is
/// a well-formed response, so `response_from_json` succeeds on it, and what it
/// decodes to (`d`) equals `r` field for field, element trees included.
pub proof fn lemma_response_round_trip(r: PluginResponse, j: Json, d: PluginResponse)
    requires
        response_decodes(j, r),
        response_decodes(j, d),
    ensures
        response_ok(j),
        same_response(r, d),
{
    lemma_response_decodes_ok(j, r);
    if let Json::Object(v) = j {
        let es = element_array(v@)->0;
        assert forall|k: int| 0 <= k < r.elements@.len() implies same_element(
            r.elements@[k],
            #[trigger] d.elements@[k],
        ) by {
            lemma_decodes_unique(es[k], r.elements@[k], d.elements@[k]);
        }
    }
}

} // verus!
