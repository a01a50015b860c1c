//! A plain-value model of the host toolkit's widget tree.
//!
//! The dialog presenter composes views out of these nodes. Each variant
//! mirrors one widget kind the presenter relies on: text runs, buttons,
//! empty space, linear containers, styled boxes, the input-absorbing
//! backdrop, and a stack of layers. Sizing strategies are whole logical
//! pixels; an absent maximum means the node is sized to its content.
use vstd::prelude::*;

use crate::dialog::{ContainerClass, StyleClass, TextClass};

verus! {

/// The strategy used to fill space in one dimension.
#[derive(Clone, Copy, Debug, PartialEq, Eq, Structural)]
pub enum Length {
    /// Fill all the remaining space.
    Fill,
    /// Fill a portion of the remaining space relative to other elements.
    FillPortion(u16),
    /// Fill the least amount of space.
    Shrink,
    /// Fill a fixed amount of logical pixels.
    Fixed(u32),
}

impl Length {
    /// The "fluid" variant of a length: `Fill` stays fluid, everything
    /// else collapses to `Shrink`.
    pub open spec fn spec_fluid(&self) -> Length {
        match *self {
            Length::Fill => Length::Fill,
            Length::FillPortion(_) => Length::Fill,
            Length::Shrink => Length::Shrink,
            Length::Fixed(_) => Length::Shrink,
        }
    }

    /// Returns the fluid variant of the length.
    #[verifier::when_used_as_spec(spec_fluid)]
    pub fn fluid(&self) -> (r: Length)
        ensures
            r == self.spec_fluid(),
    {
        match self {
            Length::Fill => Length::Fill,
            Length::FillPortion(_) => Length::Fill,
            Length::Shrink => Length::Shrink,
            Length::Fixed(_) => Length::Shrink,
        }
    }

    /// Whether the length is a fixed amount of pixels.
    pub open spec fn spec_is_fixed(&self) -> bool {
        self is Fixed
    }

    /// Returns whether the length is a fixed amount of pixels.
    #[verifier::when_used_as_spec(spec_is_fixed)]
    pub fn is_fixed(&self) -> (r: bool)
        ensures
            r == self.spec_is_fixed(),
    {
        match self {
            Length::Fixed(_) => true,
            _ => false,
        }
    }

    /// Adapts the length so it can contain the other length and match
    /// its fluidity: a shrinking length takes on a fluid one; every
    /// other combination keeps the first.
    pub open spec fn spec_enclose(self, other: Length) -> Length {
        match (self, other) {
            (Length::Shrink, Length::Fill) => other,
            (Length::Shrink, Length::FillPortion(_)) => other,
            _ => self,
        }
    }

    /// Returns the length enclosing the other length.
    #[verifier::when_used_as_spec(spec_enclose)]
    pub fn enclose(self, other: Length) -> (r: Length)
        ensures
            r == self.spec_enclose(other),
    {
        match (self, other) {
            (Length::Shrink, Length::Fill) => other,
            (Length::Shrink, Length::FillPortion(_)) => other,
            _ => self,
        }
    }
}

/// The height of a line of text, in logical pixels.
#[derive(Clone, Copy, Debug, PartialEq, Eq, Structural)]
pub enum LineHeight {
    /// The toolkit's default line height, relative to the text size.
    Default,
    /// An absolute height in logical pixels.
    Absolute(u32),
}

/// Horizontal alignment of content inside its bounds.
#[derive(Clone, Copy, Debug, PartialEq, Eq, Structural)]
pub enum Horizontal {
    Left,
    Center,
    Right,
}

/// Vertical alignment of content inside its bounds.
#[derive(Clone, Copy, Debug, PartialEq, Eq, Structural)]
pub enum Vertical {
    Top,
    Center,
    Bottom,
}

/// Space around content, in logical pixels per edge.
#[derive(Clone, Copy, Debug, PartialEq, Eq, Structural)]
pub struct Padding {
    pub top: u32,
    pub right: u32,
    pub bottom: u32,
    pub left: u32,
}

impl Padding {
    /// Padding with the same amount on every edge.
    pub fn uniform(amount: u32) -> (r: Padding)
        ensures
            r == (Padding { top: amount, right: amount, bottom: amount, left: amount }),
    {
        Padding { top: amount, right: amount, bottom: amount, left: amount }
    }

    /// No padding at all.
    pub fn zero() -> (r: Padding)
        ensures
            r == (Padding { top: 0u32, right: 0u32, bottom: 0u32, left: 0u32 }),
    {
        Padding { top: 0, right: 0, bottom: 0, left: 0 }
    }
}

/// A pair of sizing strategies, one per axis.
#[derive(Clone, Copy, Debug, PartialEq, Eq, Structural)]
pub struct Size {
    pub width: Length,
    pub height: Length,
}

/// A widget-tree value.
#[derive(Debug, PartialEq)]
#[allow(inconsistent_fields)]
pub enum Node<Message> {
    /// A run of text.
    Text {
        content: String,
        /// Text size in logical pixels; `None` is the toolkit default.
        size: Option<u32>,
        line_height: LineHeight,
        align_x: Horizontal,
        class: TextClass,
        /// An opaque font handle chosen by the embedding; `None` is the
        /// default font.
        font: Option<u64>,
    },
    /// A clickable region around some content.
    Button {
        content: Box<Node<Message>>,
        /// The message produced when the button is pressed; `None`
        /// renders the button disabled.
        on_press: Option<Message>,
        width: Length,
        height: Length,
    },
    /// Empty space.
    Space { width: Length, height: Length },
    /// Children laid out vertically.
    Column { children: Vec<Node<Message>> },
    /// Children laid out horizontally.
    Row { children: Vec<Node<Message>>, spacing: u32, align_y: Vertical },
    /// A box around one child, with sizing, padding and a style class.
    Container {
        content: Box<Node<Message>>,
        width: Length,
        height: Length,
        /// Maximum width in logical pixels; `None` leaves the width
        /// bounded by the content alone.
        max_width: Option<u32>,
        max_height: Option<u32>,
        padding: Padding,
        class: ContainerClass,
        clip: bool,
    },
    /// A full-bounds colored layer that absorbs input beneath it and
    /// positions one child inside itself.
    Backdrop {
        content: Box<Node<Message>>,
        class: StyleClass,
        /// The message produced when the region outside the child is
        /// pressed; `None` absorbs the press silently.
        on_press: Option<Message>,
        padding: Padding,
        align_x: Horizontal,
        align_y: Vertical,
    },
    /// Layers drawn on top of each other, later entries above earlier
    /// ones.
    Stack { layers: Vec<Node<Message>> },
}

impl<Message> Node<Message> {
    /// The intrinsic size hint of a node: the sizing strategy it asks
    /// for before any layout takes place. Leaves and boxes report their
    /// own sizing fields; text shrinks to fit; a backdrop always spans
    /// its full bounds. A column or row starts shrinking and encloses
    /// every child's hint, so a fluid child makes the axis fluid; a
    /// stack encloses the hint of its first (bottom) layer alone.
    pub open spec fn spec_size_hint(&self) -> Size
        decreases *self, 0int,
    {
        match *self {
            Node::Text { .. } => Size { width: Length::Shrink, height: Length::Shrink },
            Node::Button { width, height, .. } => Size { width, height },
            Node::Space { width, height } => Size { width, height },
            Node::Column { children } => spec_enclosed_hint(
                children@,
                0,
                Size { width: Length::Shrink, height: Length::Shrink },
            ),
            Node::Row { children, .. } => spec_enclosed_hint(
                children@,
                0,
                Size { width: Length::Shrink, height: Length::Shrink },
            ),
            Node::Container { width, height, .. } => Size { width, height },
            Node::Backdrop { .. } => Size { width: Length::Fill, height: Length::Fill },
            Node::Stack { layers } => spec_stack_hint(layers@),
        }
    }

    /// Returns the intrinsic size hint of the node.
    #[verifier::when_used_as_spec(spec_size_hint)]
    pub fn size_hint(&self) -> (r: Size)
        ensures
            r == self.spec_size_hint(),
        decreases *self, 0int,
    {
        match self {
            Node::Text { .. } => Size { width: Length::Shrink, height: Length::Shrink },
            Node::Button { width, height, .. } => Size { width: *width, height: *height },
            Node::Space { width, height } => Size { width: *width, height: *height },
            Node::Column { children } => enclosed_hint(
                children,
                0,
                Size { width: Length::Shrink, height: Length::Shrink },
            ),
            Node::Row { children, .. } => enclosed_hint(
                children,
                0,
                Size { width: Length::Shrink, height: Length::Shrink },
            ),
            Node::Container { width, height, .. } => Size { width: *width, height: *height },
            Node::Backdrop { .. } => Size { width: Length::Fill, height: Length::Fill },
            Node::Stack { layers } => if layers.len() == 0 {
                Size { width: Length::Shrink, height: Length::Shrink }
            } else {
                let first = layers[0].size_hint();
                Size {
                    width: Length::Shrink.enclose(first.width),
                    height: Length::Shrink.enclose(first.height),
                }
            },
        }
    }
}

/// The size a column or row takes on from its children: starting from
/// the accumulated size, the hint of every node of `nodes` at index
/// `from` or later is enclosed in order.
pub open spec fn spec_enclosed_hint<Message>(nodes: Seq<Node<Message>>, from: int, acc: Size) -> Size
    decreases nodes, nodes.len() - from,
{
    if from < 0 || from >= nodes.len() {
        acc
    } else {
        let hint = nodes[from].spec_size_hint();
        spec_enclosed_hint(
            nodes,
            from + 1,
            Size {
                width: acc.width.spec_enclose(hint.width),
                height: acc.height.spec_enclose(hint.height),
            },
        )
    }
}

/// The size a stack takes on: shrink-to-fit, made fluid by the hint of
/// its first (bottom) layer alone.
pub open spec fn spec_stack_hint<Message>(layers: Seq<Node<Message>>) -> Size
    decreases layers, 0int,
{
    if layers.len() == 0 {
        Size { width: Length::Shrink, height: Length::Shrink }
    } else {
        let first = layers[0].spec_size_hint();
        Size {
            width: Length::Shrink.spec_enclose(first.width),
            height: Length::Shrink.spec_enclose(first.height),
        }
    }
}

/// Returns the size the nodes of `nodes` at index `from` or later
/// enclose into the accumulated size.
fn enclosed_hint<Message>(nodes: &Vec<Node<Message>>, from: usize, acc: Size) -> (r: Size)
    ensures
        r == spec_enclosed_hint(nodes@, from as int, acc),
    decreases nodes@, nodes@.len() - from@,
{
    if from >= nodes.len() {
        acc
    } else {
        let hint = nodes[from].size_hint();
        enclosed_hint(
            nodes,
            from + 1,
            Size {
                width: acc.width.enclose(hint.width),
                height: acc.height.enclose(hint.height),
            },
        )
    }
}

} // verus!
