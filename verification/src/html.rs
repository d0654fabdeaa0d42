//! The component's render output: a small tree of display nodes, and the
//! mathematical view of that tree that the contracts speak of.

use vstd::prelude::*;

use crate::Msg;

verus! {

/// A clickable control: a label and the message it enqueues when activated.
#[derive(Debug, PartialEq)]
pub struct Button {
    pub label: String,
    pub on_click: Msg,
}

/// The navigation region of the rendered tree: a row of controls.
#[derive(Debug, PartialEq)]
pub struct Menu {
    pub buttons: Vec<Button>,
}

/// One render output: a container holding the navigation region and a text
/// node that shows the component's display buffer verbatim.
#[derive(Debug, PartialEq)]
pub struct Html {
    pub menu: Menu,
    pub display: String,
}

/// The mathematical content of a rendered control.
pub ghost struct ButtonView {
    pub label: Seq<char>,
    pub on_click: Msg,
}

/// The mathematical content of a render output.
pub ghost struct HtmlView {
    pub buttons: Seq<ButtonView>,
    pub display: Seq<char>,
}

impl View for Button {
    type V = ButtonView;

    open spec fn view(&self) -> ButtonView {
        ButtonView { label: self.label@, on_click: self.on_click }
    }
}

impl View for Html {
    type V = HtmlView;

    open spec fn view(&self) -> HtmlView {
        HtmlView {
            buttons: self.menu.buttons@.map_values(|b: Button| b@),
            display: self.display@,
        }
    }
}

/// The tree the component must render for a given display text: exactly one
/// control, labelled `"Add Goblin"`, that enqueues [`Msg::AddGoblin`], next
/// to the display text shown verbatim.
pub open spec fn rendering_of(text: Seq<char>) -> HtmlView {
    HtmlView {
        buttons: seq![ButtonView { label: "Add Goblin"@, on_click: Msg::AddGoblin }],
        display: text,
    }
}

/// Rendering is referentially consistent: any two render outputs produced
/// from the same display text have identical content.
pub proof fn lemma_render_consistent(text: Seq<char>, h1: Html, h2: Html)
    requires
        h1@ == rendering_of(text),
        h2@ == rendering_of(text),
    ensures
        h1@ == h2@,
{
}

} // verus!
