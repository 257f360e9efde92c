use vstd::prelude::*;
use vstd::string::{StrSliceExecFns, StringExecFns};
use vstd::utf8::{decode_utf8, valid_utf8};
use crate::json::{
    Json, dec_action, dec_opt_str, decodes, element_array, field, lemma_response_decodes_ok,
    opt_action_view, opt_view, response_from_json, response_ok,
};
use crate::model::{DataType, Element, Orientation, PluginAction, PluginConfig, PluginResponse};
use crate::parse::{lemma_parsed_as_parses, parse_json, parsed_as, parses, MAX_DEPTH};
use crate::widget::{elem_to_gtk_widget, renders, Widget};

verus! {

broadcast use vstd::std_specs::vec::group_vec_axioms, vstd::seq::group_seq_axioms;

/// Why a plugin run produced nothing the host could use.
#[derive(Clone, Copy, Debug, PartialEq, Eq, Structural)]
pub enum InvokeError {
    /// The program could not be started.
    Spawn,
    /// What it printed is not valid UTF-8.
    Decode,
}

/// The unit that the host inserts into its result list for one response.
#[derive(Debug)]
pub struct Section {
    pub title: String,
    pub content: Widget,
}

/// The text that marks a command as a script of the scripts directory.
pub open spec fn script_prefix() -> Seq<char> {
    "@script:"@
}

pub open spec fn starts_with(s: Seq<char>, p: Seq<char>) -> bool {
    p.len() <= s.len() && s.subrange(0, p.len() as int) == p
}

/// The program to run for command `cmd`: none for an empty command, or for a
/// script reference while the scripts directory is unset.
pub open spec fn resolved_command(cmd: Seq<char>, dir: Seq<char>) -> Option<Seq<char>> {
    if cmd.len() == 0 {
        None
    } else if starts_with(cmd, script_prefix()) {
        if dir.len() == 0 {
            None
        } else {
            Some(dir + "/"@ + cmd.subrange(script_prefix().len() as int, cmd.len() as int))
        }
    } else {
        Some(cmd)
    }
}

pub fn has_prefix(s: &str, p: &str) -> (r: bool)
    ensures
        r == starts_with(s@, p@),
{
    let n = p.unicode_len();
    let m = s.unicode_len();
    if n > m {
        return false;
    }
    let mut i: usize = 0;
    let mut same = true;
    while same && i < n
        invariant
            i <= n,
            n == p@.len(),
            m == s@.len(),
            n <= m,
            forall|j: int| 0 <= j < i ==> s@[j] == p@[j],
            !same ==> i < n && s@[i as int] != p@[i as int],
        decreases n - i, (if same { 1int } else { 0int }),
    {
        if s.get_char(i) == p.get_char(i) {
            i = i + 1;
        } else {
            same = false;
        }
    }
    if !same {
        assert(s@.subrange(0, n as int)[i as int] != p@[i as int]);
        return false;
    }
    assert(s@.subrange(0, n as int) =~= p@);
    true
}

/// Resolves a plugin's command against the scripts directory.
pub fn resolve_command(cmd: &str, scripts_dir: &str) -> (r: Option<String>)
    ensures
        opt_view(r) == resolved_command(cmd@, scripts_dir@),
{
    let n = cmd.unicode_len();
    if n == 0 {
        return None;
    }
    if has_prefix(cmd, "@script:") {
        if scripts_dir.unicode_len() == 0 {
            return None;
        }
        let p = "@script:".unicode_len();
        let name = cmd.substring_char(p, n);
        let mut path = String::from_str(scripts_dir);
        path.append("/");
        path.append(name);
        Some(path)
    } else {
        Some(String::from_str(cmd))
    }
}

/// The vertical, horizontally expanding container named "Content" that holds
/// the rendered elements.
pub open spec fn content_node(w: Widget) -> bool {
    &&& w.kind == DataType::Box
    &&& w.name@ == "Content"@
    &&& w.classes@.len() == 0
    &&& w.orientation == Some(Orientation::Vertical)
    &&& w.hexpand == Some(true)
    &&& w.vexpand is None
    &&& w.halign is None
    &&& !w.interactive
    &&& w.label is None
    &&& w.wrap is None
    &&& !w.ellipsize_end
    &&& w.image_file is None
}

/// `s` shows the response: its title, else the plugin's name, over the
/// rendered elements in order.
pub open spec fn presents(resp: PluginResponse, name: Seq<char>, s: Section) -> bool {
    &&& s.title@ == (match resp.title {
        Some(t) => t@,
        None => name,
    })
    &&& content_node(s.content)
    &&& s.content.children@.len() == resp.elements@.len()
    &&& forall|i: int|
        0 <= i < resp.elements@.len() ==> renders(resp.elements@[i], #[trigger] s.content.children@[i])
}

/// Builds what the host receives for a parsed response: nothing for an empty
/// element list, else the section, the action and the icon.
pub fn outcome_of_response(name: &str, resp: PluginResponse) -> (r: (
    Option<Section>,
    Option<PluginAction>,
    Option<String>,
))
    ensures
        resp.elements@.len() == 0 ==> r.0 is None && r.1 is None && r.2 is None,
        resp.elements@.len() > 0 ==> {
            &&& r.0 is Some
            &&& presents(resp, name@, r.0->0)
            &&& r.1 == resp.action
            &&& r.2 == resp.set_icon
        },
{
    let ghost whole = resp;
    let PluginResponse { elements, title, set_icon, action } = resp;
    if elements.len() == 0 {
        return (None, None, None);
    }
    let mut rest = elements;
    let mut out: Vec<Widget> = Vec::new();
    while rest.len() > 0
        invariant
            out@.len() + rest@.len() == whole.elements@.len(),
            rest@ == whole.elements@.subrange(out@.len() as int, whole.elements@.len() as int),
            forall|j: int| 0 <= j < out@.len() ==> renders(whole.elements@[j], #[trigger] out@[j]),
        decreases rest@.len(),
    {
        let e = rest.remove(0);
        let w = elem_to_gtk_widget(e);
        out.push(w);
    }
    let heading = match title {
        Some(t) => t,
        None => String::from_str(name),
    };
    let content = Widget {
        kind: DataType::Box,
        name: String::from_str("Content"),
        classes: Vec::new(),
        orientation: Some(Orientation::Vertical),
        hexpand: Some(true),
        vexpand: None,
        halign: None,
        interactive: false,
        label: None,
        wrap: None,
        ellipsize_end: false,
        image_file: None,
        children: out,
    };
    (Some(Section { title: heading, content }), action, set_icon)
}

/// `w` is the widget tree of the element that `j` decodes to.
pub open spec fn renders_decoded(j: Json, w: Widget) -> bool {
    exists|e: Element| decodes(j, e) && renders(e, w)
}

/// The fields of a well-formed, non-empty response document `v` that the host receives.
pub open spec fn outcome_from_fields(
    v: Seq<(String, Json)>,
    name: Seq<char>,
    r: (Option<Section>, Option<PluginAction>, Option<String>),
) -> bool {
    &&& r.0 is Some
    &&& r.0->0.title@ == (match dec_opt_str(field(v, "title"@))->0 {
        Some(t) => t,
        None => name,
    })
    &&& content_node(r.0->0.content)
    &&& r.0->0.content.children@.len() == element_array(v)->0.len()
    &&& forall|i: int|
        0 <= i < element_array(v)->0.len() ==> renders_decoded(
            element_array(v)->0[i],
            #[trigger] r.0->0.content.children@[i],
        )
    &&& opt_action_view(r.1) == dec_action(field(v, "action"@))->0
    &&& opt_view(r.2) == dec_opt_str(field(v, "set_icon"@))->0
}

/// `r` is what the host receives for the parsed document `doc`: nothing unless
/// it is a well-formed response with at least one element.
pub open spec fn outcome_matches(
    name: Seq<char>,
    doc: Option<Json>,
    r: (Option<Section>, Option<PluginAction>, Option<String>),
) -> bool {
    match doc {
        Some(Json::Object(v)) => if response_ok(Json::Object(v)) && element_array(v@)->0.len() > 0 {
            outcome_from_fields(v@, name, r)
        } else {
            r.0 is None && r.1 is None && r.2 is None
        },
        _ => r.0 is None && r.1 is None && r.2 is None,
    }
}

/// Builds what the host receives for a parsed document, `None` standing for
/// text that did not parse: nothing unless it is a well-formed response with
/// at least one element.
pub fn outcome_of_json(name: &str, doc: Option<Json>) -> (r: (
    Option<Section>,
    Option<PluginAction>,
    Option<String>,
))
    ensures
        outcome_matches(name@, doc, r),
{
    match doc {
        None => (None, None, None),
        Some(j) => match response_from_json(&j) {
            None => (None, None, None),
            Some(resp) => {
                proof {
                    lemma_response_decodes_ok(j, resp);
                }
                let ghost whole = resp;
                let r = outcome_of_response(name, resp);
                proof {
                    if let Json::Object(v) = j {
                        let es = element_array(v@)->0;
                        if es.len() > 0 {
                            assert forall|i: int| 0 <= i < es.len() implies renders_decoded(
                                es[i],
                                #[trigger] r.0->0.content.children@[i],
                            ) by {
                                assert(decodes(es[i], whole.elements@[i]));
                                assert(renders(whole.elements@[i], r.0->0.content.children@[i]));
                            }
                        }
                    }
                }
                r
            },
        },
    }
}

/// The characters with the Unicode property White_Space, which `char::is_whitespace` tests.
pub open spec fn is_white_space(c: char) -> bool {
    ||| ('\u{9}' <= c && c <= '\u{d}')
    ||| c == ' '
    ||| c == '\u{85}'
    ||| c == '\u{a0}'
    ||| c == '\u{1680}'
    ||| ('\u{2000}' <= c && c <= '\u{200a}')
    ||| c == '\u{2028}'
    ||| c == '\u{2029}'
    ||| c == '\u{202f}'
    ||| c == '\u{205f}'
    ||| c == '\u{3000}'
}

/// `s` without its leading white space.
pub open spec fn trim_start(s: Seq<char>) -> Seq<char>
    decreases s.len(),
{
    if s.len() > 0 && is_white_space(s[0]) {
        trim_start(s.drop_first())
    } else {
        s
    }
}

/// `s` without its trailing white space.
pub open spec fn trim_end(s: Seq<char>) -> Seq<char>
    decreases s.len(),
{
    if s.len() > 0 && is_white_space(s.last()) {
        trim_end(s.drop_last())
    } else {
        s
    }
}

/// `s` without leading and trailing white space.
pub open spec fn trimmed(s: Seq<char>) -> Seq<char> {
    trim_end(trim_start(s))
}

/// Relies on str::trim: removes leading and trailing characters with the
/// Unicode property White_Space.
#[verifier::external_body]
fn trim_text(s: &str) -> (r: &str)
    ensures
        r@ == trimmed(s@),
{
    s.trim()
}

/// Relies on String::from_utf8: succeeds exactly on valid UTF-8 (as vstd's utf8
/// module defines it), and then holds the characters that the bytes encode.
#[verifier::external_body]
fn decode_text(bytes: Vec<u8>) -> (r: Option<String>)
    ensures
        r is Some <==> valid_utf8(bytes@),
        r is Some ==> r->0@ == decode_utf8(bytes@),
{
    String::from_utf8(bytes).ok()
}

/// `r` is what the host receives for the non-blank text `t`: nothing where `t`
/// is not a JSON document, else the outcome for the document that `t` holds.
pub open spec fn outcome_of_text(
    name: Seq<char>,
    t: Seq<char>,
    r: (Option<Section>, Option<PluginAction>, Option<String>),
) -> bool {
    if parses(t, MAX_DEPTH as int) {
        exists|j: Json| #[trigger] parsed_as(t, MAX_DEPTH as int, j) && outcome_matches(name, Some(j), r)
    } else {
        r.0 is None && r.1 is None && r.2 is None
    }
}

/// Interprets what a plugin printed: nothing for blank output, and nothing at
/// all where no section comes out.
pub fn interpret_output(name: &str, text: &str) -> (r: (
    Option<Section>,
    Option<PluginAction>,
    Option<String>,
))
    ensures
        trimmed(text@).len() == 0 ==> r.0 is None && r.1 is None && r.2 is None,
        trimmed(text@).len() > 0 ==> outcome_of_text(name@, trimmed(text@), r),
        r.0 is None ==> r.1 is None && r.2 is None,
{
    let t = trim_text(text);
    if t.unicode_len() == 0 {
        return (None, None, None);
    }
    let doc = parse_json(t);
    let ghost parsed = doc;
    let r = outcome_of_json(name, doc);
    proof {
        if let Some(j) = parsed {
            lemma_parsed_as_parses(t@, MAX_DEPTH as int, j);
            assert(parsed_as(t@, MAX_DEPTH as int, j) && outcome_matches(name@, Some(j), r));
        }
    }
    r
}

/// Finishes a run of `plugin` from the bytes it printed: an error where they
/// are not UTF-8 text, else the interpretation of that text.
pub fn complete_invocation(plugin: &PluginConfig, stdout: Vec<u8>) -> (r: Result<
    (Option<Section>, Option<PluginAction>, Option<String>),
    InvokeError,
>)
    ensures
        r is Err <==> !valid_utf8(stdout@),
        r is Err ==> r->Err_0 == InvokeError::Decode,
        r is Ok && trimmed(decode_utf8(stdout@)).len() == 0 ==> {
            &&& r->Ok_0.0 is None
            &&& r->Ok_0.1 is None
            &&& r->Ok_0.2 is None
        },
        r is Ok && trimmed(decode_utf8(stdout@)).len() > 0 ==> outcome_of_text(
            plugin.name@,
            trimmed(decode_utf8(stdout@)),
            r->Ok_0,
        ),
        r is Ok && r->Ok_0.0 is None ==> r->Ok_0.1 is None && r->Ok_0.2 is None,
{
    match decode_text(stdout) {
        Some(text) => Ok(interpret_output(plugin.name.as_str(), text.as_str())),
        None => Err(InvokeError::Decode),
    }
}

} // verus!
