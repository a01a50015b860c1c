//! Pointer-press simulation over rendered trees.
//!
//! These functions walk a widget tree the way the host toolkit routes
//! pointer input: a stack is probed from its topmost layer downwards,
//! and a backdrop absorbs every press, so nothing beneath it can be
//! reached. They let a caller drive a dialog the way a user would:
//! find a label, press the button that shows it, and feed the produced
//! message back into the application's own update logic.
use vstd::prelude::*;

use crate::dialog::{is_view_of, overlay_of, Dialog};
use crate::node::Node;

verus! {

/// Whether the subtree holds a text run with exactly the given
/// characters, anywhere, including inside buttons.
pub open spec fn spec_contains_text<M>(n: Node<M>, s: Seq<char>) -> bool
    decreases n, 0int,
{
    match n {
        Node::Text { content, .. } => content@ == s,
        Node::Button { content, .. } => spec_contains_text(*content, s),
        Node::Space { .. } => false,
        Node::Column { children } => spec_seq_contains_text(children@, s, 0),
        Node::Row { children, .. } => spec_seq_contains_text(children@, s, 0),
        Node::Container { content, .. } => spec_contains_text(*content, s),
        Node::Backdrop { content, .. } => spec_contains_text(*content, s),
        Node::Stack { layers } => spec_seq_contains_text(layers@, s, 0),
    }
}

/// Whether any node of `nodes` at index `from` or later holds a text
/// run with exactly the characters `s`.
pub open spec fn spec_seq_contains_text<M>(nodes: Seq<Node<M>>, s: Seq<char>, from: int) -> bool
    decreases nodes, nodes.len() - from,
{
    if from < 0 || from >= nodes.len() {
        false
    } else {
        spec_contains_text(nodes[from], s) || spec_seq_contains_text(nodes, s, from + 1)
    }
}

/// The message a press on the text `label` produces: the press
/// handler of the first button, in input-routing order, whose content
/// shows that text. `None` when no reachable button shows the label,
/// and also when the button that does carries no handler.
///
/// Input-routing order is depth-first, except that the layers of a
/// stack are probed topmost first and a backdrop layer absorbs the
/// press: layers beneath it are never reached.
pub open spec fn spec_click<M>(n: Node<M>, label: Seq<char>) -> Option<M>
    decreases n, 0int,
{
    match n {
        Node::Text { .. } => None,
        Node::Button { content, on_press, .. } => if spec_contains_text(*content, label) {
            on_press
        } else {
            None
        },
        Node::Space { .. } => None,
        Node::Column { children } => spec_click_seq(children@, label, 0),
        Node::Row { children, .. } => spec_click_seq(children@, label, 0),
        Node::Container { content, .. } => spec_click(*content, label),
        Node::Backdrop { content, .. } => spec_click(*content, label),
        Node::Stack { layers } => spec_click_layers(layers@, label, layers@.len() as int),
    }
}

/// The result of pressing the text `label` over the nodes of `nodes`
/// at index `from` or later, left to right.
pub open spec fn spec_click_seq<M>(nodes: Seq<Node<M>>, label: Seq<char>, from: int) -> Option<M>
    decreases nodes, nodes.len() - from,
{
    if from < 0 || from >= nodes.len() {
        None
    } else {
        match spec_click(nodes[from], label) {
            Some(m) => Some(m),
            None => spec_click_seq(nodes, label, from + 1),
        }
    }
}

/// The result of pressing the text `label` over the layers of a stack
/// below index `upto`, topmost first. A backdrop layer absorbs the
/// press, whether or not its content shows the label.
pub open spec fn spec_click_layers<M>(layers: Seq<Node<M>>, label: Seq<char>, upto: int) -> Option<
    M,
>
    decreases layers, upto,
{
    if upto <= 0 || upto > layers.len() {
        None
    } else {
        let top = layers[upto - 1];
        if top is Backdrop {
            spec_click(top, label)
        } else {
            match spec_click(top, label) {
                Some(m) => Some(m),
                None => spec_click_layers(layers, label, upto - 1),
            }
        }
    }
}

/// Returns whether the subtree holds a text run with exactly the
/// characters of `s`.
pub fn contains_text<M>(n: &Node<M>, s: &String) -> (r: bool)
    ensures
        r == spec_contains_text(*n, s@),
    decreases *n, 0int,
{
    match n {
        Node::Text { content, .. } => *content == *s,
        Node::Button { content, .. } => contains_text(&**content, s),
        Node::Space { .. } => false,
        Node::Column { children } => seq_contains_text(children, s, 0),
        Node::Row { children, .. } => seq_contains_text(children, s, 0),
        Node::Container { content, .. } => contains_text(&**content, s),
        Node::Backdrop { content, .. } => contains_text(&**content, s),
        Node::Stack { layers } => seq_contains_text(layers, s, 0),
    }
}

/// Returns whether any node of `nodes` at index `from` or later holds
/// a text run with exactly the characters of `s`.
fn seq_contains_text<M>(nodes: &Vec<Node<M>>, s: &String, from: usize) -> (r: bool)
    ensures
        r == spec_seq_contains_text(nodes@, s@, from as int),
    decreases nodes@, nodes@.len() - from@,
{
    if from >= nodes.len() {
        false
    } else if contains_text(&nodes[from], s) {
        true
    } else {
        seq_contains_text(nodes, s, from + 1)
    }
}

/// Simulates a press on the text `label`: returns the press handler's
/// message of the first reachable button showing that text, if any.
pub fn click<'a, M>(n: &'a Node<M>, label: &String) -> (r: Option<&'a M>)
    ensures
        r matches Some(m) ==> spec_click(*n, label@) == Some(*m),
        r is None ==> spec_click(*n, label@) is None,
    decreases *n, 0int,
{
    match n {
        Node::Text { .. } => None,
        Node::Button { content, on_press, .. } => if contains_text(&**content, label) {
            on_press.as_ref()
        } else {
            None
        },
        Node::Space { .. } => None,
        Node::Column { children } => click_seq(children, label, 0),
        Node::Row { children, .. } => click_seq(children, label, 0),
        Node::Container { content, .. } => click(&**content, label),
        Node::Backdrop { content, .. } => click(&**content, label),
        Node::Stack { layers } => click_layers(layers, label, layers.len()),
    }
}

/// Simulates a press on the text `label` over the nodes of `nodes` at
/// index `from` or later, left to right.
fn click_seq<'a, M>(nodes: &'a Vec<Node<M>>, label: &String, from: usize) -> (r: Option<&'a M>)
    ensures
        r matches Some(m) ==> spec_click_seq(nodes@, label@, from as int) == Some(*m),
        r is None ==> spec_click_seq(nodes@, label@, from as int) is None,
    decreases nodes@, nodes@.len() - from@,
{
    if from >= nodes.len() {
        None
    } else {
        match click(&nodes[from], label) {
            Some(m) => Some(m),
            None => click_seq(nodes, label, from + 1),
        }
    }
}

/// Simulates a press on the text `label` over the layers of a stack
/// below index `upto`, topmost first; a backdrop layer absorbs the
/// press.
fn click_layers<'a, M>(layers: &'a Vec<Node<M>>, label: &String, upto: usize) -> (r: Option<
    &'a M,
>)
    requires
        upto <= layers@.len(),
    ensures
        r matches Some(m) ==> spec_click_layers(layers@, label@, upto as int) == Some(*m),
        r is None ==> spec_click_layers(layers@, label@, upto as int) is None,
    decreases layers@, upto@,
{
    if upto == 0 {
        None
    } else {
        let top = &layers[upto - 1];
        let is_backdrop = match top {
            Node::Backdrop { .. } => true,
            _ => false,
        };
        if is_backdrop {
            click(top, label)
        } else {
            match click(top, label) {
                Some(m) => Some(m),
                None => click_layers(layers, label, upto - 1),
            }
        }
    }
}

/// The message a press on the backdrop itself produces: the press
/// handler of the topmost layer when that layer is a backdrop, and
/// `None` otherwise, in particular for every closed dialog rendering.
pub open spec fn spec_press_backdrop<M>(r: Node<M>) -> Option<M> {
    match r {
        Node::Stack { layers } => if layers@.len() > 0 {
            match layers@.last() {
                Node::Backdrop { on_press, .. } => on_press,
                _ => None,
            }
        } else {
            None
        },
        _ => None,
    }
}

/// Simulates a press on the backdrop region of a rendered tree,
/// outside the dialog box: returns the configured backdrop-press
/// message, if any layer absorbs such a press at all.
pub fn press_backdrop<M>(r: &Node<M>) -> (m: Option<&M>)
    ensures
        m matches Some(msg) ==> spec_press_backdrop(*r) == Some(*msg),
        m is None ==> spec_press_backdrop(*r) is None,
{
    match r {
        Node::Stack { layers } => if layers.len() > 0 {
            match &layers[layers.len() - 1] {
                Node::Backdrop { on_press, .. } => on_press.as_ref(),
                _ => None,
            }
        } else {
            None
        },
        _ => None,
    }
}

/// Law: while a dialog is open, a press on its backdrop region
/// produces exactly the configured backdrop-press message, or nothing
/// when none was configured.
pub proof fn lemma_backdrop_press_routes<M>(d: Dialog<M>, r: Node<M>)
    requires
        d.is_open,
        is_view_of(d, r),
    ensures
        spec_press_backdrop(r) == d.on_press,
{
}

/// Law: while a dialog is open, every press is handled by the overlay
/// alone: the base view beneath the backdrop never receives it,
/// whatever the pressed label is.
pub proof fn lemma_open_dialog_absorbs_presses<M>(d: Dialog<M>, r: Node<M>, label: Seq<char>)
    requires
        d.is_open,
        is_view_of(d, r),
    ensures
        spec_click(r, label) == spec_click(overlay_of(r), label),
{
    let layers = r->Stack_layers@;
    assert(spec_click(r, label) == spec_click_layers(layers, label, 2));
    assert(layers[1] is Backdrop);
    assert(spec_click_layers(layers, label, 2) == spec_click(layers[1], label));
}

} // verus!
