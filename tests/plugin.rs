use fsearch_plugin::encode::{element_to_json, response_to_json};
use fsearch_plugin::json::{element_from_json, response_from_json, Json};
use fsearch_plugin::model::{
    Align, DataType, Element, Orientation, PluginAction, PluginConfig, PluginResponse,
};
use fsearch_plugin::parse::parse_json;
use fsearch_plugin::plugin::{
    complete_invocation, interpret_output, outcome_of_json, resolve_command, InvokeError,
};
use fsearch_plugin::widget::elem_to_gtk_widget;

fn element(id: &str, element_type: DataType) -> Element {
    Element {
        id: id.to_string(),
        classes: Vec::new(),
        element_type,
        orientation: None,
        hexpand: None,
        vexpand: None,
        halign: None,
        text: None,
        wrap: None,
        ellipsize: None,
        image_path: None,
        children: None,
    }
}

fn label(id: &str, text: &str) -> Element {
    let mut e = element(id, DataType::Label);
    e.text = Some(text.to_string());
    e
}

fn child_names(w: &fsearch_plugin::widget::Widget) -> Vec<String> {
    w.children.iter().map(|c| c.name.clone()).collect()
}

fn assert_same(a: &Element, b: &Element) {
    assert_eq!(a.id, b.id);
    assert_eq!(a.classes, b.classes);
    assert_eq!(a.element_type, b.element_type);
    assert_eq!(a.orientation, b.orientation);
    assert_eq!(a.hexpand, b.hexpand);
    assert_eq!(a.vexpand, b.vexpand);
    assert_eq!(a.halign, b.halign);
    assert_eq!(a.text, b.text);
    assert_eq!(a.wrap, b.wrap);
    assert_eq!(a.ellipsize, b.ellipsize);
    assert_eq!(a.image_path, b.image_path);
    match (&a.children, &b.children) {
        (None, None) => {}
        (Some(x), Some(y)) => {
            assert_eq!(x.len(), y.len());
            for (p, q) in x.iter().zip(y.iter()) {
                assert_same(p, q);
            }
        }
        _ => panic!("children differ"),
    }
}

fn sample_tree() -> Element {
    let mut inner = element("inner", DataType::EventBox);
    inner.classes = vec!["row".to_string(), "hot".to_string()];
    inner.halign = Some(Align::Baseline);
    inner.children = Some(vec![label("a", "A"), element("img", DataType::Image)]);
    let mut top = element("top", DataType::Box);
    top.orientation = Some(Orientation::Horizontal);
    top.hexpand = Some(true);
    top.vexpand = Some(false);
    let mut l = label("l", "text");
    l.wrap = Some(true);
    l.ellipsize = Some(false);
    let mut b = element("b", DataType::Button);
    b.text = Some("Go".to_string());
    b.halign = Some(Align::Center);
    top.children = Some(vec![inner, l, b, element("empty", DataType::Box)]);
    top
}

#[test]
fn label_ellipsize_true_truncates() {
    let mut e = label("l", "long text");
    e.ellipsize = Some(true);
    let w = elem_to_gtk_widget(e);
    assert!(w.ellipsize_end);
    assert_eq!(w.kind, DataType::Label);
    assert_eq!(w.label, Some("long text".to_string()));
}

#[test]
fn label_ellipsize_false_or_absent_keeps_full_text() {
    let mut e = label("l", "x");
    e.ellipsize = Some(false);
    assert!(!elem_to_gtk_widget(e).ellipsize_end);
    assert!(!elem_to_gtk_widget(label("l", "x")).ellipsize_end);
}

#[test]
fn ellipsize_ignored_outside_labels() {
    let mut e = element("b", DataType::Button);
    e.ellipsize = Some(true);
    e.wrap = Some(true);
    let w = elem_to_gtk_widget(e);
    assert!(!w.ellipsize_end);
    assert_eq!(w.wrap, None);
}

#[test]
fn box_children_keep_input_order() {
    let names = ["c", "a", "d", "b"];
    let mut e = element("box", DataType::Box);
    e.orientation = Some(Orientation::Vertical);
    e.children = Some(names.iter().map(|n| label(n, n)).collect());
    let w = elem_to_gtk_widget(e);
    assert_eq!(child_names(&w), vec!["c", "a", "d", "b"]);
    assert_eq!(w.orientation, Some(Orientation::Vertical));
    assert!(!w.interactive);
}

#[test]
fn event_box_children_keep_input_order_and_is_interactive() {
    let mut e = element("ev", DataType::EventBox);
    e.orientation = Some(Orientation::Horizontal);
    e.children = Some(vec![label("z", "1"), label("y", "2"), label("x", "3")]);
    let w = elem_to_gtk_widget(e);
    assert_eq!(child_names(&w), vec!["z", "y", "x"]);
    assert!(w.interactive);
    assert_eq!(w.orientation, None);
}

#[test]
fn leaves_ignore_children_and_foreign_fields() {
    let mut e = element("img", DataType::Image);
    e.image_path = Some("/tmp/pic.png".to_string());
    e.text = Some("ignored".to_string());
    e.children = Some(vec![label("c", "c")]);
    e.hexpand = Some(true);
    e.halign = Some(Align::End);
    e.classes = vec!["big".to_string()];
    let w = elem_to_gtk_widget(e);
    assert_eq!(w.image_file, Some("/tmp/pic.png".to_string()));
    assert_eq!(w.label, None);
    assert!(w.children.is_empty());
    assert_eq!(w.hexpand, Some(true));
    assert_eq!(w.vexpand, None);
    assert_eq!(w.halign, Some(Align::End));
    assert_eq!(w.classes, vec!["big".to_string()]);
    assert_eq!(w.name, "img");
}

#[test]
fn button_takes_its_text() {
    let mut e = element("btn", DataType::Button);
    e.text = Some("Press".to_string());
    let w = elem_to_gtk_widget(e);
    assert_eq!(w.label, Some("Press".to_string()));
    assert_eq!(w.image_file, None);
}

#[test]
fn element_round_trip_through_json() {
    let tree = sample_tree();
    let j = element_to_json(&tree);
    let back = element_from_json(&j).expect("well-formed");
    assert_same(&tree, &back);
}

#[test]
fn response_round_trip_through_json() {
    let resp = PluginResponse {
        elements: vec![sample_tree(), label("x", "y")],
        title: Some("T".to_string()),
        set_icon: None,
        action: Some(PluginAction::RunScript("/s.sh".to_string())),
    };
    let j = response_to_json(&resp);
    let back = response_from_json(&j).expect("well-formed");
    assert_eq!(back.elements.len(), 2);
    assert_same(&resp.elements[0], &back.elements[0]);
    assert_same(&resp.elements[1], &back.elements[1]);
    assert_eq!(back.title, Some("T".to_string()));
    assert_eq!(back.set_icon, None);
    assert!(matches!(back.action, Some(PluginAction::RunScript(ref s)) if s == "/s.sh"));
}

#[test]
fn parsed_text_decodes_to_the_written_tree() {
    let text = r#"{"elements":[{"id":"top","type":"Box","orientation":"Horizontal",
        "children":[{"id":"a","classes":["k"],"type":"Label","text":"A","wrap":true},
                    {"id":"b","type":"Image","image_path":"/p.png","halign":"Fill"}]}],
        "title":null,"set_icon":"icon","extra":5}"#;
    let j = parse_json(text).expect("valid JSON");
    let resp = response_from_json(&j).expect("valid response");
    assert_eq!(resp.set_icon, Some("icon".to_string()));
    assert_eq!(resp.title, None);
    let top = &resp.elements[0];
    assert_eq!(top.orientation, Some(Orientation::Horizontal));
    let kids = top.children.as_ref().unwrap();
    assert_eq!(kids[0].classes, vec!["k".to_string()]);
    assert_eq!(kids[0].wrap, Some(true));
    assert_eq!(kids[1].image_path, Some("/p.png".to_string()));
    assert_eq!(kids[1].halign, Some(Align::Fill));
}

#[test]
fn empty_elements_give_nothing() {
    let r = interpret_output("plug", r#"{"elements":[],"set_icon":"i","action":"Exit"}"#);
    assert!(r.0.is_none() && r.1.is_none() && r.2.is_none());
}

#[test]
fn blank_output_gives_nothing() {
    let r = interpret_output("plug", "");
    assert!(r.0.is_none() && r.1.is_none() && r.2.is_none());
    let r = interpret_output("plug", "  \n\t ");
    assert!(r.0.is_none() && r.1.is_none() && r.2.is_none());
}

#[test]
fn script_reference_resolves_against_directory() {
    assert_eq!(
        resolve_command("@script:foo.sh", "/opt/plugins"),
        Some("/opt/plugins/foo.sh".to_string())
    );
}

#[test]
fn script_reference_without_directory_gives_nothing() {
    assert_eq!(resolve_command("@script:foo.sh", ""), None);
}

#[test]
fn plain_and_empty_commands() {
    assert_eq!(resolve_command("", "/opt/plugins"), None);
    assert_eq!(resolve_command("/usr/bin/calc", ""), Some("/usr/bin/calc".to_string()));
    assert_eq!(resolve_command("@scrip", "/d"), Some("@scrip".to_string()));
    assert_eq!(resolve_command("@script:", "/d"), Some("/d/".to_string()));
}

#[test]
fn single_label_document() {
    let r = interpret_output("plug", r#"{"elements":[{"id":"l1","type":"Label","text":"Hello"}]}"#);
    let section = r.0.expect("a section");
    assert!(r.1.is_none());
    assert!(r.2.is_none());
    assert_eq!(section.title, "plug");
    assert_eq!(section.content.name, "Content");
    assert_eq!(section.content.orientation, Some(Orientation::Vertical));
    assert_eq!(section.content.hexpand, Some(true));
    assert_eq!(section.content.children.len(), 1);
    let l = &section.content.children[0];
    assert_eq!(l.kind, DataType::Label);
    assert_eq!(l.label, Some("Hello".to_string()));
    assert_eq!(l.name, "l1");
}

#[test]
fn open_action_is_returned() {
    let r = interpret_output(
        "plug",
        r#"{"elements":[{"id":"l1","type":"Label"}],"action":{"Open":"/tmp/f"},"set_icon":"ic","title":"Files"}"#,
    );
    assert!(matches!(r.1, Some(PluginAction::Open(ref p)) if p == "/tmp/f"));
    assert_eq!(r.2, Some("ic".to_string()));
    assert_eq!(r.0.unwrap().title, "Files");
}

#[test]
fn every_action_tag_decodes() {
    let cases = [
        (r#""Exit""#, "Exit", ""),
        (r#"{"Open":"o"}"#, "Open", "o"),
        (r#"{"Copy":"c"}"#, "Copy", "c"),
        (r#"{"Launch":"l"}"#, "Launch", "l"),
        (r#"{"RunCmd":"r"}"#, "RunCmd", "r"),
        (r#"{"RunScript":"s"}"#, "RunScript", "s"),
    ];
    for (json, tag, text) in cases {
        let doc = format!(r#"{{"elements":[{{"id":"x","type":"Button"}}],"action":{}}}"#, json);
        let r = interpret_output("p", &doc);
        let (t, s) = match r.1.expect("an action") {
            PluginAction::Exit => ("Exit", String::new()),
            PluginAction::Open(s) => ("Open", s),
            PluginAction::Copy(s) => ("Copy", s),
            PluginAction::Launch(s) => ("Launch", s),
            PluginAction::RunCmd(s) => ("RunCmd", s),
            PluginAction::RunScript(s) => ("RunScript", s),
        };
        assert_eq!(t, tag);
        assert_eq!(s, text);
    }
}

#[test]
fn exit_action_keeps_icon() {
    let r = interpret_output("p", r#"{"elements":[{"id":"x","type":"Button"}],"action":"Exit","set_icon":"i"}"#);
    assert!(matches!(r.1, Some(PluginAction::Exit)));
    assert_eq!(r.2, Some("i".to_string()));
}

#[test]
fn malformed_output_gives_nothing() {
    for text in [
        "{not json",
        r#"{"elements":[{"id":"x","type":"Slider"}]}"#,
        r#"{"elements":[{"type":"Label"}]}"#,
        r#"{"elements":{}}"#,
        r#"{"title":"t"}"#,
        r#"{"elements":[{"id":"x","type":"Label"}],"action":{"Fly":"x"}}"#,
        r#"{"elements":[{"id":"x","type":"Label","wrap":"yes"}]}"#,
        r#"{"elements":[{"id":"x","type":"Box","children":[{"id":1,"type":"Label"}]}]}"#,
        "[1, 2]",
    ] {
        let r = interpret_output("p", text);
        assert!(r.0.is_none() && r.1.is_none() && r.2.is_none(), "{}", text);
    }
}

#[test]
fn missing_document_gives_nothing() {
    let r = outcome_of_json("p", None);
    assert!(r.0.is_none() && r.1.is_none() && r.2.is_none());
    let r = outcome_of_json("p", Some(Json::Null));
    assert!(r.0.is_none());
}

#[test]
fn invalid_utf8_is_a_decode_error() {
    let plugin = PluginConfig { name: "p".to_string(), cmd: "x".to_string() };
    let r = complete_invocation(&plugin, vec![0xff, 0xfe, b'{']);
    assert!(matches!(r, Err(InvokeError::Decode)));
}

#[test]
fn valid_output_bytes_are_interpreted() {
    let plugin = PluginConfig { name: "calc".to_string(), cmd: "x".to_string() };
    let bytes = "  {\"elements\":[{\"id\":\"r\",\"type\":\"Label\",\"text\":\"4\"}]}\n".as_bytes().to_vec();
    let r = complete_invocation(&plugin, bytes).expect("text");
    let section = r.0.expect("a section");
    assert_eq!(section.title, "calc");
    assert_eq!(section.content.children[0].label, Some("4".to_string()));
    let empty = complete_invocation(&plugin, b" \n".to_vec()).expect("text");
    assert!(empty.0.is_none());
}

#[test]
fn deep_nesting_is_accepted() {
    let mut text = String::new();
    for _ in 0..20 {
        text.push_str(r#"{"id":"b","type":"Box","children":["#);
    }
    text.push_str(r#"{"id":"leaf","type":"Label","text":"deep"}"#);
    for _ in 0..20 {
        text.push_str("]}");
    }
    let doc = format!(r#"{{"elements":[{}]}}"#, text);
    let r = interpret_output("p", &doc);
    let mut w = &r.0.expect("a section").content.children[0];
    for _ in 0..20 {
        w = &w.children[0];
    }
    assert_eq!(w.label, Some("deep".to_string()));
}

#[test]
fn escaped_strings_survive_nested_parsing() {
    let text = r#"{"elements":[{"id":"box","type":"Box","children":[
        {"id":"q","type":"Label","text":"He said \"hi\" é\n"}]}]}"#;
    let r = interpret_output("p", text);
    let section = r.0.expect("a section");
    let label = &section.content.children[0].children[0];
    assert_eq!(label.label, Some("He said \"hi\" \u{e9}\n".to_string()));
}

#[test]
fn repeated_key_keeps_the_last_value() {
    let r = interpret_output("p", r#"{"elements":[{"id":"a","id":"b","type":"Label"}]}"#);
    assert_eq!(r.0.expect("a section").content.children[0].name, "b");
}

#[test]
fn parse_json_reads_nested_values() {
    let j = parse_json(r#" [1, {"k": [true, null]}, "s"] "#).expect("valid JSON");
    match j {
        Json::Array(items) => {
            assert_eq!(items.len(), 3);
            assert!(matches!(items[0], Json::Number(_)));
            match &items[1] {
                Json::Object(entries) => {
                    assert_eq!(entries[0].0, "k");
                    assert!(matches!(&entries[0].1, Json::Array(v) if v.len() == 2
                        && matches!(v[0], Json::Bool(true)) && matches!(v[1], Json::Null)));
                }
                _ => panic!("object expected"),
            }
            assert!(matches!(&items[2], Json::Str(s) if s == "s"));
        }
        _ => panic!("array expected"),
    }
    assert!(parse_json("").is_none());
    assert!(parse_json("[1,").is_none());
}
