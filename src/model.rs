use vstd::prelude::*;

verus! {

/// The kind of a declared element; it decides which optional fields count.
#[derive(Clone, Copy, Debug, PartialEq, Eq, Structural)]
pub enum DataType {
    Box,
    EventBox,
    Button,
    Label,
    Image,
}

/// Layout direction of a box.
#[derive(Clone, Copy, Debug, PartialEq, Eq, Structural)]
pub enum Orientation {
    Horizontal,
    Vertical,
}

/// Horizontal alignment of a node within its parent.
#[derive(Clone, Copy, Debug, PartialEq, Eq, Structural)]
pub enum Align {
    Start,
    End,
    Center,
    Fill,
    Baseline,
}

/// One node of the declarative tree that a plugin returns.
#[derive(Debug)]
pub struct Element {
    pub id: String,
    pub classes: Vec<String>,
    pub element_type: DataType,
    pub orientation: Option<Orientation>,
    pub hexpand: Option<bool>,
    pub vexpand: Option<bool>,
    pub halign: Option<Align>,
    pub text: Option<String>,
    pub wrap: Option<bool>,
    pub ellipsize: Option<bool>,
    pub image_path: Option<String>,
    pub children: Option<Vec<Element>>,
}

/// What the host is asked to do when the user activates a plugin's result.
#[derive(Debug)]
pub enum PluginAction {
    Exit,
    Open(String),
    Copy(String),
    Launch(String),
    RunCmd(String),
    RunScript(String),
}

/// The whole document that a plugin prints.
#[derive(Debug)]
pub struct PluginResponse {
    pub elements: Vec<Element>,
    pub title: Option<String>,
    pub set_icon: Option<String>,
    pub action: Option<PluginAction>,
}

/// How the host knows a plugin: its display name and its command.
#[derive(Debug)]
pub struct PluginConfig {
    pub name: String,
    pub cmd: String,
}

} // verus!
