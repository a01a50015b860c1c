//! A modal dialog presenter over a plain-value widget-tree model.
//!
//! The library models a two-state dialog overlay: closed, the base view
//! is rendered unchanged; open, the base view is layered under a
//! semi-opaque, input-absorbing backdrop holding a centered dialog box
//! with optional title, body content and an action-button row.
use vstd::prelude::*;

pub mod dialog;
pub mod node;
pub mod simulate;

pub use dialog::Dialog;

use crate::dialog::{is_fresh, TextClass};
use crate::node::{Horizontal, Length, LineHeight, Node};
use vstd::string::StringExecFns;

verus! {

/// Creates a new [`Dialog`] with the given base and dialog content.
pub fn dialog<M>(is_open: bool, base: Node<M>, content: Node<M>) -> (r: Dialog<M>)
    ensures
        is_fresh(r, is_open, base, content, Seq::<Node<M>>::empty()),
{
    Dialog::new(is_open, base, content)
}

/// Pre-styled button for dialogs: a fill-width, fixed-height button
/// holding a centered text run, producing the given message when
/// pressed.
pub fn button<M>(content: &str, message: M) -> (r: Node<M>)
    ensures
        ({
            &&& r matches Node::Button { content: c, on_press, width, height }
            &&& on_press == Some(message)
            &&& width == Length::Fill
            &&& height == Length::Fixed(32u32)
            &&& (*c) matches Node::Text { content: t, size, line_height, align_x, class, font }
            &&& t@ == content@
            &&& size == Some(14u32)
            &&& line_height == LineHeight::Absolute(20u32)
            &&& align_x == Horizontal::Center
            &&& class == TextClass::Default
            &&& font is None
        }),
{
    let label = Node::Text {
        content: String::from_str(content),
        size: Some(14),
        line_height: LineHeight::Absolute(20),
        align_x: Horizontal::Center,
        class: TextClass::Default,
        font: None,
    };

    Node::Button {
        content: Box::new(label),
        on_press: Some(message),
        width: Length::Fill,
        height: Length::Fixed(32),
    }
}

} // verus!
