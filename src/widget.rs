use vstd::prelude::*;
use crate::model::{Align, DataType, Element, Orientation};

verus! {

broadcast use vstd::std_specs::vec::group_vec_axioms, vstd::seq::group_seq_axioms;

/// An abstract widget, as a rendering backend would build it.
#[derive(Debug)]
pub struct Widget {
    pub kind: DataType,
    /// Style name of the node, taken from the element's identifier.
    pub name: String,
    pub classes: Vec<String>,
    pub orientation: Option<Orientation>,
    pub hexpand: Option<bool>,
    pub vexpand: Option<bool>,
    pub halign: Option<Align>,
    /// Focusable and answering the primary "activate" gesture.
    pub interactive: bool,
    /// Visible text of a button or a label.
    pub label: Option<String>,
    pub wrap: Option<bool>,
    /// End-ellipsis truncation of a label.
    pub ellipsize_end: bool,
    /// Image source of an image.
    pub image_file: Option<String>,
    pub children: Vec<Widget>,
}

pub open spec fn is_container(t: DataType) -> bool {
    t == DataType::Box || t == DataType::EventBox
}

pub open spec fn shows_text(t: DataType) -> bool {
    t == DataType::Button || t == DataType::Label
}

/// The children that an element contributes: those of a container, none otherwise.
pub open spec fn rendered_children(e: Element) -> Seq<Element> {
    if is_container(e.element_type) && e.children is Some {
        e.children->0@
    } else {
        Seq::empty()
    }
}

/// Attributes of one node, children aside.
pub open spec fn node_matches(e: Element, w: Widget) -> bool {
    &&& w.kind == e.element_type
    &&& w.name == e.id
    &&& w.classes == e.classes
    &&& w.hexpand == e.hexpand
    &&& w.vexpand == e.vexpand
    &&& w.halign == e.halign
    &&& w.orientation == (if e.element_type == DataType::Box { e.orientation } else { None })
    &&& w.interactive == (e.element_type == DataType::EventBox)
    &&& w.label == (if shows_text(e.element_type) { e.text } else { None })
    &&& w.wrap == (if e.element_type == DataType::Label { e.wrap } else { None })
    &&& w.ellipsize_end == (e.element_type == DataType::Label && e.ellipsize == Some(true))
    &&& w.image_file == (if e.element_type == DataType::Image { e.image_path } else { None })
}

/// `w` is the widget tree that `e` is interpreted as: each node by its
/// attributes, and the children one for one, in input order.
pub open spec fn renders(e: Element, w: Widget) -> bool
    decreases e,
{
    &&& node_matches(e, w)
    &&& w.children@.len() == rendered_children(e).len()
    &&& forall|i: int|
        0 <= i < rendered_children(e).len() ==> renders(
            rendered_children(e)[i],
            #[trigger] w.children@[i],
        )
}

/// Interprets one element, and its children in order, as an abstract widget tree.
pub fn elem_to_gtk_widget(component: Element) -> (r: Widget)
    ensures
        renders(component, r),
        r.ellipsize_end <==> component.element_type == DataType::Label && component.ellipsize
            == Some(true),
        r.children@.len() == rendered_children(component).len(),
        forall|i: int|
            0 <= i < r.children@.len() ==> renders(
                rendered_children(component)[i],
                #[trigger] r.children@[i],
            ),
    decreases component,
{
    let ghost whole = component;
    let id = component.id;
    let classes = component.classes;
    let element_type = component.element_type;
    let orientation = component.orientation;
    let hexpand = component.hexpand;
    let vexpand = component.vexpand;
    let halign = component.halign;
    let text = component.text;
    let wrap = component.wrap;
    let ellipsize = component.ellipsize;
    let image_path = component.image_path;
    let children = component.children;
    let container = match element_type {
        DataType::Box | DataType::EventBox => true,
        _ => false,
    };
    let mut out: Vec<Widget> = Vec::new();
    if container {
        if let Some(mut rest) = children {
            let ghost all = rest@;
            let ghost n = all.len();
            while rest.len() > 0
                invariant
                    whole == component,
                    all == rendered_children(whole),
                    n == all.len(),
                    out@.len() + rest@.len() == n,
                    rest@ == all.subrange(out@.len() as int, n as int),
                    forall|j: int| 0 <= j < out@.len() ==> renders(all[j], #[trigger] out@[j]),
                decreases rest@.len(),
            {
                let child = rest.remove(0);
                proof {
                    assert(child == all[out@.len() as int]);
                    assert(decreases_to!(whole => child));
                }
                let w = elem_to_gtk_widget(child);
                out.push(w);
            }
        }
    }
    let is_label = match element_type { DataType::Label => true, _ => false };
    Widget {
        kind: element_type,
        name: id,
        classes,
        orientation: match element_type { DataType::Box => orientation, _ => None },
        hexpand,
        vexpand,
        halign,
        interactive: match element_type { DataType::EventBox => true, _ => false },
        label: match element_type { DataType::Button | DataType::Label => text, _ => None },
        wrap: if is_label { wrap } else { None },
        ellipsize_end: is_label && match ellipsize { Some(true) => true, _ => false },
        image_file: match element_type { DataType::Image => image_path, _ => None },
        children: out,
    }
}

} // verus!
