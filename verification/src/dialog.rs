//! A modal dialog presenter.
//!
//! A [`Dialog`] holds an open flag, a base view, optional title text,
//! body content, an ordered list of action buttons and a sizing and
//! styling configuration. Rendering it produces either the base view
//! alone (closed) or the base view with a centered, clipped overlay box
//! behind a semi-opaque, input-absorbing backdrop (open).
use vstd::prelude::*;

use crate::node::{Horizontal, Length, LineHeight, Node, Padding, Vertical};

verus! {

/// A color with an alpha channel. Channels are 8-bit; the alpha is a
/// fraction in thousandths, so `1000` is fully opaque.
#[derive(Clone, Copy, Debug, PartialEq, Eq, Structural)]
pub struct Color {
    pub r: u8,
    pub g: u8,
    pub b: u8,
    pub alpha_milli: u16,
}

/// The style of a [`Dialog`].
#[derive(Clone, Copy, Debug, PartialEq, Eq, Structural)]
pub struct Style {
    /// The color of the backdrop drawn behind the dialog box.
    pub backdrop_color: Color,
}

/// The style of a text run.
#[derive(Clone, Copy, Debug, PartialEq, Eq, Structural)]
pub struct TextStyle {
    /// The text color; `None` is the theme's default text color.
    pub color: Option<Color>,
}

/// The style of a container.
#[derive(Clone, Copy, Debug, PartialEq, Eq, Structural)]
pub struct ContainerStyle {
    /// The background fill; `None` leaves the container transparent.
    pub background: Option<Color>,
}

/// A style class for the dialog itself: the key a theme's catalog
/// resolves to a [`Style`].
#[derive(Clone, Copy, Debug, PartialEq, Eq, Structural)]
pub enum StyleClass {
    /// The theme's default dialog style.
    Default,
    /// A fixed style, used as given for every theme.
    Fixed(Style),
}

/// A style class for text runs.
#[derive(Clone, Copy, Debug, PartialEq, Eq, Structural)]
pub enum TextClass {
    /// The theme's default text style.
    Default,
    /// A fixed style, used as given for every theme.
    Fixed(TextStyle),
}

/// A style class for containers.
#[derive(Clone, Copy, Debug, PartialEq, Eq, Structural)]
pub enum ContainerClass {
    /// No background at all.
    Transparent,
    /// The theme's base surface color as background.
    Surface,
    /// A fixed style, used as given for every theme.
    Fixed(ContainerStyle),
}

/// The backdrop color every theme falls back to: black at three tenths
/// opacity.
pub open spec fn spec_default_backdrop_color() -> Color {
    Color { r: 0u8, g: 0u8, b: 0u8, alpha_milli: 300u16 }
}

/// The default style of a [`Dialog`].
pub fn default(_theme: &Theme) -> (s: Style)
    ensures
        s == (Style { backdrop_color: spec_default_backdrop_color() }),
{
    Style { backdrop_color: Color { r: 0, g: 0, b: 0, alpha_milli: 300 } }
}

/// A theme: the palette colors that style resolution reads.
#[derive(Clone, Copy, Debug, PartialEq, Eq, Structural)]
pub struct Theme {
    /// The theme's base surface color, used as the dialog box
    /// background by default.
    pub background_base: Color,
}

impl Theme {
    /// Resolves a container class to a concrete container style.
    pub open spec fn spec_container_style(self, class: ContainerClass) -> ContainerStyle {
        match class {
            ContainerClass::Transparent => ContainerStyle { background: None },
            ContainerClass::Surface => ContainerStyle { background: Some(self.background_base) },
            ContainerClass::Fixed(style) => style,
        }
    }

    /// Returns the container style a class resolves to under this
    /// theme.
    pub fn container_style(&self, class: &ContainerClass) -> (s: ContainerStyle)
        ensures
            s == self.spec_container_style(*class),
    {
        match class {
            ContainerClass::Transparent => ContainerStyle { background: None },
            ContainerClass::Surface => ContainerStyle { background: Some(self.background_base) },
            ContainerClass::Fixed(style) => *style,
        }
    }

    /// Resolves a text class to a concrete text style.
    pub open spec fn spec_text_style(self, class: TextClass) -> TextStyle {
        match class {
            TextClass::Default => TextStyle { color: None },
            TextClass::Fixed(style) => style,
        }
    }

    /// Returns the text style a class resolves to under this theme.
    pub fn text_style(&self, class: &TextClass) -> (s: TextStyle)
        ensures
            s == self.spec_text_style(*class),
    {
        match class {
            TextClass::Default => TextStyle { color: None },
            TextClass::Fixed(style) => *style,
        }
    }
}

impl Theme {
    /// A light theme with a white base surface.
    pub fn light() -> (t: Theme)
        ensures
            t == (Theme {
                background_base: Color { r: 255u8, g: 255u8, b: 255u8, alpha_milli: 1000u16 },
            }),
    {
        Theme { background_base: Color { r: 255, g: 255, b: 255, alpha_milli: 1000 } }
    }
}

/// The theme catalog of a [`Dialog`]: how a theme resolves style
/// classes to concrete styles, and which classes it hands out by
/// default.
pub trait Catalog: Sized {
    /// What [`Catalog::style`] resolves a class to.
    spec fn spec_style(&self, class: StyleClass) -> Style;

    /// The class [`Catalog::default`] produces.
    spec fn spec_default() -> StyleClass;

    /// The class [`Catalog::default_title`] produces.
    spec fn spec_default_title() -> TextClass;

    /// The class [`Catalog::default_container`] produces.
    spec fn spec_default_container() -> ContainerClass;

    /// The default class produced by the catalog.
    fn default() -> (c: StyleClass)
        ensures
            c == Self::spec_default(),
    ;

    /// The default class for the dialog's title.
    fn default_title() -> (c: TextClass)
        ensures
            c == Self::spec_default_title(),
    ;

    /// The default class for the dialog's container.
    fn default_container() -> (c: ContainerClass)
        ensures
            c == Self::spec_default_container(),
    ;

    /// The [`Style`] of a class.
    fn style(&self, class: &StyleClass) -> (s: Style)
        ensures
            s == self.spec_style(*class),
    ;
}

impl Catalog for Theme {
    /// A fixed class resolves to itself; the default class resolves to
    /// the semi-transparent black backdrop.
    open spec fn spec_style(&self, class: StyleClass) -> Style {
        match class {
            StyleClass::Default => Style { backdrop_color: spec_default_backdrop_color() },
            StyleClass::Fixed(style) => style,
        }
    }

    open spec fn spec_default() -> StyleClass {
        StyleClass::Default
    }

    open spec fn spec_default_title() -> TextClass {
        TextClass::Default
    }

    /// Dialog containers take the theme's base surface color by
    /// default.
    open spec fn spec_default_container() -> ContainerClass {
        ContainerClass::Surface
    }

    fn default() -> (c: StyleClass) {
        StyleClass::Default
    }

    fn default_title() -> (c: TextClass) {
        TextClass::Default
    }

    fn default_container() -> (c: ContainerClass) {
        ContainerClass::Surface
    }

    fn style(&self, class: &StyleClass) -> (s: Style) {
        match class {
            StyleClass::Default => default(self),
            StyleClass::Fixed(style) => *style,
        }
    }
}

/// Law: looking up the class this catalog hands out by default yields
/// the semi-transparent black backdrop style, under every theme.
pub proof fn lemma_default_class_resolves_to_default_style(theme: Theme)
    ensures
        theme.spec_style(<Theme as Catalog>::spec_default()) == (Style {
            backdrop_color: spec_default_backdrop_color(),
        }),
{
}

/// The default maximum width of an open dialog box, in logical pixels.
///
/// Used when the dialog has buttons and neither a fixed width nor an
/// explicit maximum width was set.
pub const DEFAULT_MAX_WIDTH: u32 = 400;

/// The default maximum height of an open dialog box, in logical pixels.
///
/// Used when the dialog has buttons and neither a fixed height nor an
/// explicit maximum height was set.
pub const DEFAULT_MAX_HEIGHT: u32 = 260;

/// A message dialog.
///
/// Only the content is required; the buttons and the title are
/// optional. The sizing strategy depends on whether any buttons were
/// added: without buttons the dialog box is sized to fit its content,
/// with buttons the configured maximum dimensions are used, falling
/// back to [`DEFAULT_MAX_WIDTH`] and [`DEFAULT_MAX_HEIGHT`] where none
/// were set and the corresponding length is not fixed.
#[derive(Debug, PartialEq)]
pub struct Dialog<Message> {
    pub is_open: bool,
    pub base: Node<Message>,
    pub title: Option<String>,
    pub content: Node<Message>,
    pub buttons: Vec<Node<Message>>,
    pub on_press: Option<Message>,
    pub font: Option<u64>,
    pub width: Length,
    pub height: Length,
    pub max_width: Option<u32>,
    pub max_height: Option<u32>,
    pub horizontal_alignment: Horizontal,
    pub vertical_alignment: Vertical,
    pub spacing: u32,
    pub padding_inner: Padding,
    pub padding_outer: Padding,
    pub button_alignment: Vertical,
    pub class: StyleClass,
    pub title_class: TextClass,
    pub container_class: ContainerClass,
}

/// Whether a presenter holds exactly the given open flag, base view,
/// body content and buttons, with every other field at its default.
pub open spec fn is_fresh<M>(
    d: Dialog<M>,
    is_open: bool,
    base: Node<M>,
    content: Node<M>,
    buttons: Seq<Node<M>>,
) -> bool {
    &&& d.is_open == is_open
    &&& d.base == base
    &&& d.title is None
    &&& d.content == content
    &&& d.buttons@ == buttons
    &&& d.on_press is None
    &&& d.font is None
    &&& d.width == content.spec_size_hint().width.spec_fluid()
    &&& d.height == content.spec_size_hint().height.spec_fluid()
    &&& d.max_width is None
    &&& d.max_height is None
    &&& d.horizontal_alignment == Horizontal::Center
    &&& d.vertical_alignment == Vertical::Center
    &&& d.spacing == 8
    &&& d.padding_inner == (Padding { top: 24u32, right: 24u32, bottom: 24u32, left: 24u32 })
    &&& d.padding_outer == (Padding { top: 0u32, right: 0u32, bottom: 0u32, left: 0u32 })
    &&& d.button_alignment == Vertical::Top
    &&& d.class == StyleClass::Default
    &&& d.title_class == TextClass::Default
    &&& d.container_class == ContainerClass::Surface
}

impl<M> Dialog<M> {
    /// The maximum width the rendered dialog box ends up with: the
    /// configured maximum if one was set; otherwise the default
    /// maximum when buttons are present and the width is not fixed;
    /// otherwise no bound at all, so the box fits its content.
    pub open spec fn spec_effective_max_width(&self) -> Option<u32> {
        match self.max_width {
            Some(m) => Some(m),
            None => if self.buttons@.len() > 0 && !(self.width is Fixed) {
                Some(DEFAULT_MAX_WIDTH)
            } else {
                None
            },
        }
    }

    /// The maximum height the rendered dialog box ends up with,
    /// mirroring [`Dialog::spec_effective_max_width`].
    pub open spec fn spec_effective_max_height(&self) -> Option<u32> {
        match self.max_height {
            Some(m) => Some(m),
            None => if self.buttons@.len() > 0 && !(self.height is Fixed) {
                Some(DEFAULT_MAX_HEIGHT)
            } else {
                None
            },
        }
    }

    /// Creates a new [`Dialog`] with the given base and dialog content.
    pub fn new(is_open: bool, base: Node<M>, content: Node<M>) -> (r: Self)
        ensures
            is_fresh(r, is_open, base, content, Seq::<Node<M>>::empty()),
    {
        Self::with_buttons(is_open, base, content, Vec::new())
    }

    /// Creates a new [`Dialog`] with the given base, dialog content and
    /// buttons.
    pub fn with_buttons(
        is_open: bool,
        base: Node<M>,
        content: Node<M>,
        buttons: Vec<Node<M>>,
    ) -> (r: Self)
        ensures
            is_fresh(r, is_open, base, content, buttons@),
    {
        let size = content.size_hint();

        Dialog {
            is_open,
            base,
            title: None,
            content,
            buttons,
            on_press: None,
            font: None,
            width: size.width.fluid(),
            height: size.height.fluid(),
            max_width: None,
            max_height: None,
            horizontal_alignment: Horizontal::Center,
            vertical_alignment: Vertical::Center,
            spacing: 8,
            padding_inner: Padding::uniform(24),
            padding_outer: Padding::zero(),
            button_alignment: Vertical::Top,
            class: StyleClass::Default,
            title_class: TextClass::Default,
            container_class: ContainerClass::Surface,
        }
    }

    /// Sets the [`Dialog`]'s title.
    pub fn title(self, title: String) -> (r: Self)
        ensures
            r == (Dialog { title: Some(title), ..self }),
    {
        Dialog { title: Some(title), ..self }
    }

    /// Sets the message that will be produced when the [`Dialog`]'s
    /// backdrop is pressed.
    pub fn on_press(self, on_press: M) -> (r: Self)
        ensures
            r == (Dialog { on_press: Some(on_press), ..self }),
    {
        Dialog { on_press: Some(on_press), ..self }
    }

    /// Sets the message that will be produced when the [`Dialog`]'s
    /// backdrop is pressed, using a closure to produce the message.
    pub fn on_press_with<F: Fn() -> M>(self, on_press: F) -> (r: Self)
        requires
            on_press.requires(()),
        ensures
            exists|m: M| #[trigger] on_press.ensures((), m) && r == (Dialog {
                on_press: Some(m),
                ..self
            }),
    {
        let message = on_press();
        Dialog { on_press: Some(message), ..self }
    }

    /// Sets the message that will be produced when the [`Dialog`]'s
    /// backdrop is pressed, if `Some`.
    pub fn on_press_maybe(self, on_press: Option<M>) -> (r: Self)
        ensures
            r == (Dialog { on_press, ..self }),
    {
        Dialog { on_press, ..self }
    }

    /// Sets the [`Dialog`]'s width.
    pub fn width(self, width: Length) -> (r: Self)
        ensures
            r == (Dialog { width, ..self }),
    {
        Dialog { width, ..self }
    }

    /// Sets the [`Dialog`]'s height.
    pub fn height(self, height: Length) -> (r: Self)
        ensures
            r == (Dialog { height, ..self }),
    {
        Dialog { height, ..self }
    }

    /// Sets the [`Dialog`]'s maximum width, in logical pixels.
    pub fn max_width(self, max_width: u32) -> (r: Self)
        ensures
            r == (Dialog { max_width: Some(max_width), ..self }),
    {
        Dialog { max_width: Some(max_width), ..self }
    }

    /// Sets the [`Dialog`]'s maximum height, in logical pixels.
    pub fn max_height(self, max_height: u32) -> (r: Self)
        ensures
            r == (Dialog { max_height: Some(max_height), ..self }),
    {
        Dialog { max_height: Some(max_height), ..self }
    }

    /// Aligns the [`Dialog`] to the left.
    pub fn align_left(self) -> (r: Self)
        ensures
            r == (Dialog { horizontal_alignment: Horizontal::Left, ..self }),
    {
        self.align_x(Horizontal::Left)
    }

    /// Aligns the [`Dialog`] to the right.
    pub fn align_right(self) -> (r: Self)
        ensures
            r == (Dialog { horizontal_alignment: Horizontal::Right, ..self }),
    {
        self.align_x(Horizontal::Right)
    }

    /// Aligns the [`Dialog`] to the top.
    pub fn align_top(self) -> (r: Self)
        ensures
            r == (Dialog { vertical_alignment: Vertical::Top, ..self }),
    {
        self.align_y(Vertical::Top)
    }

    /// Aligns the [`Dialog`] to the bottom.
    pub fn align_bottom(self) -> (r: Self)
        ensures
            r == (Dialog { vertical_alignment: Vertical::Bottom, ..self }),
    {
        self.align_y(Vertical::Bottom)
    }

    /// Sets the [`Dialog`]'s alignment for the horizontal axis.
    ///
    /// Dialogs are horizontally centered by default.
    pub fn align_x(self, alignment: Horizontal) -> (r: Self)
        ensures
            r == (Dialog { horizontal_alignment: alignment, ..self }),
    {
        Dialog { horizontal_alignment: alignment, ..self }
    }

    /// Sets the [`Dialog`]'s alignment for the vertical axis.
    ///
    /// Dialogs are vertically centered by default.
    pub fn align_y(self, alignment: Vertical) -> (r: Self)
        ensures
            r == (Dialog { vertical_alignment: alignment, ..self }),
    {
        Dialog { vertical_alignment: alignment, ..self }
    }

    /// Sets the [`Dialog`]'s inner padding.
    pub fn padding_inner(self, padding: Padding) -> (r: Self)
        ensures
            r == (Dialog { padding_inner: padding, ..self }),
    {
        Dialog { padding_inner: padding, ..self }
    }

    /// Sets the [`Dialog`]'s outer padding (sometimes called
    /// "margin").
    pub fn padding_outer(self, padding: Padding) -> (r: Self)
        ensures
            r == (Dialog { padding_outer: padding, ..self }),
    {
        Dialog { padding_outer: padding, ..self }
    }

    /// Sets the spacing between the [`Dialog`]'s buttons.
    pub fn spacing(self, spacing: u32) -> (r: Self)
        ensures
            r == (Dialog { spacing, ..self }),
    {
        Dialog { spacing, ..self }
    }

    /// Sets the vertical alignment of the [`Dialog`]'s buttons.
    pub fn align_buttons(self, align: Vertical) -> (r: Self)
        ensures
            r == (Dialog { button_alignment: align, ..self }),
    {
        Dialog { button_alignment: align, ..self }
    }

    /// Sets the font of the [`Dialog`]'s title, as an opaque handle
    /// the embedding maps to a concrete font.
    pub fn font(self, font: u64) -> (r: Self)
        ensures
            r == (Dialog { font: Some(font), ..self }),
    {
        Dialog { font: Some(font), ..self }
    }

    /// Adds a button to the [`Dialog`].
    pub fn push_button(self, button: Node<M>) -> (r: Self)
        ensures
            r == (Dialog { buttons: r.buttons, ..self }),
            r.buttons@ == self.buttons@.push(button),
    {
        let mut buttons = self.buttons;
        buttons.push(button);
        Dialog { buttons, ..self }
    }

    /// Adds a button to the [`Dialog`], if `Some`.
    pub fn push_button_maybe(self, button: Option<Node<M>>) -> (r: Self)
        ensures
            button matches Some(b) ==> r == (Dialog { buttons: r.buttons, ..self })
                && r.buttons@ == self.buttons@.push(b),
            button is None ==> r == self,
    {
        match button {
            Some(button) => self.push_button(button),
            None => self,
        }
    }

    /// Extends the [`Dialog`] with the given buttons, in order.
    pub fn extend_buttons(self, buttons: Vec<Node<M>>) -> (r: Self)
        ensures
            r == (Dialog { buttons: r.buttons, ..self }),
            r.buttons@ == self.buttons@ + buttons@,
    {
        let mut all = self.buttons;
        let mut rest = buttons;
        all.append(&mut rest);
        Dialog { buttons: all, ..self }
    }

    /// Sets the backdrop color of the [`Dialog`].
    pub fn backdrop(self, color: Color) -> (r: Self)
        ensures
            r == (Dialog { class: StyleClass::Fixed(Style { backdrop_color: color }), ..self }),
    {
        self.style(Style { backdrop_color: color })
    }

    /// Sets the style of the [`Dialog`].
    #[must_use]
    pub fn style(self, style: Style) -> (r: Self)
        ensures
            r == (Dialog { class: StyleClass::Fixed(style), ..self }),
    {
        Dialog { class: StyleClass::Fixed(style), ..self }
    }

    /// Sets the style of the [`Dialog`]'s title.
    #[must_use]
    pub fn title_style(self, style: TextStyle) -> (r: Self)
        ensures
            r == (Dialog { title_class: TextClass::Fixed(style), ..self }),
    {
        Dialog { title_class: TextClass::Fixed(style), ..self }
    }

    /// Sets the style of the [`Dialog`]'s container.
    #[must_use]
    pub fn container_style(self, style: ContainerStyle) -> (r: Self)
        ensures
            r == (Dialog { container_class: ContainerClass::Fixed(style), ..self }),
    {
        Dialog { container_class: ContainerClass::Fixed(style), ..self }
    }

    /// Sets the style class of the [`Dialog`].
    #[must_use]
    pub fn class(self, class: StyleClass) -> (r: Self)
        ensures
            r == (Dialog { class, ..self }),
    {
        Dialog { class, ..self }
    }

    /// Sets the style class of the [`Dialog`]'s title.
    #[must_use]
    pub fn title_class(self, class: TextClass) -> (r: Self)
        ensures
            r == (Dialog { title_class: class, ..self }),
    {
        Dialog { title_class: class, ..self }
    }

    /// Sets the style class of the [`Dialog`]'s container.
    #[must_use]
    pub fn container_class(self, class: ContainerClass) -> (r: Self)
        ensures
            r == (Dialog { container_class: class, ..self }),
    {
        Dialog { container_class: class, ..self }
    }

    /// Renders the [`Dialog`]: the base view alone when closed, or the
    /// base view layered under the backdrop and the dialog box when
    /// open.
    pub fn view(self) -> (r: Node<M>)
        ensures
            is_view_of(self, r),
    {
        let Dialog {
            is_open,
            base,
            title,
            content,
            buttons,
            on_press,
            font,
            width,
            height,
            max_width,
            max_height,
            horizontal_alignment,
            vertical_alignment,
            spacing,
            padding_inner,
            padding_outer,
            button_alignment,
            class,
            title_class,
            container_class,
        } = self;

        let dialog_panel: Option<Node<M>> = if is_open {
            let has_buttons = buttons.len() > 0;

            let mut inner_children: Vec<Node<M>> = Vec::new();
            match title {
                Some(title) => {
                    inner_children.push(Node::Text {
                        content: title,
                        size: Some(20),
                        line_height: LineHeight::Absolute(26),
                        align_x: Horizontal::Left,
                        class: title_class,
                        font,
                    });
                    inner_children.push(Node::Space {
                        width: Length::Shrink,
                        height: Length::Fixed(12),
                    });
                },
                None => {},
            }
            inner_children.push(content);
            let inner_column = Node::Column { children: inner_children };

            let hint = inner_column.size_hint();
            let contents = Node::Container {
                width: if has_buttons {
                    Length::Fill
                } else {
                    hint.width.fluid()
                },
                height: hint.height.fluid(),
                content: Box::new(inner_column),
                max_width: None,
                max_height: None,
                padding: padding_inner,
                class: ContainerClass::Transparent,
                clip: false,
            };

            let mut outer_children: Vec<Node<M>> = Vec::new();
            outer_children.push(contents);
            if has_buttons {
                outer_children.push(Node::Space {
                    width: Length::Shrink,
                    height: Length::Fill,
                });
                let row = Node::Row { children: buttons, spacing, align_y: button_alignment };
                let row_hint = row.size_hint();
                outer_children.push(Node::Container {
                    width: row_hint.width.fluid(),
                    height: Length::Fixed(80),
                    content: Box::new(row),
                    max_width: None,
                    max_height: None,
                    padding: padding_inner,
                    class: ContainerClass::Transparent,
                    clip: false,
                });
            }

            let eff_max_width: Option<u32> = match max_width {
                Some(m) => Some(m),
                None => if has_buttons && !width.is_fixed() {
                    Some(DEFAULT_MAX_WIDTH)
                } else {
                    None
                },
            };
            let eff_max_height: Option<u32> = match max_height {
                Some(m) => Some(m),
                None => if has_buttons && !height.is_fixed() {
                    Some(DEFAULT_MAX_HEIGHT)
                } else {
                    None
                },
            };

            Some(Node::Container {
                content: Box::new(Node::Column { children: outer_children }),
                width,
                height,
                max_width: eff_max_width,
                max_height: eff_max_height,
                padding: Padding::zero(),
                class: container_class,
                clip: true,
            })
        } else {
            None
        };

        modal(
            base,
            dialog_panel,
            on_press,
            horizontal_alignment,
            vertical_alignment,
            padding_outer,
            class,
        )
    }
}

/// Layers an optional overlay over a base view: the base alone when
/// there is no overlay, or a two-layer stack whose top is a backdrop
/// holding the overlay content.
fn modal<M>(
    base: Node<M>,
    content: Option<Node<M>>,
    on_press: Option<M>,
    horizontal_alignment: Horizontal,
    vertical_alignment: Vertical,
    padding: Padding,
    class: StyleClass,
) -> (r: Node<M>)
    ensures
        content is None ==> r == base,
        content matches Some(panel) ==> {
            &&& r matches Node::Stack { layers }
            &&& layers@.len() == 2
            &&& layers@[0] == base
            &&& layers@[1] matches Node::Backdrop {
                content: c,
                class: cl,
                on_press: op,
                padding: p,
                align_x: ax,
                align_y: ay,
            }
            &&& *c == panel
            &&& cl == class
            &&& op == on_press
            &&& p == padding
            &&& ax == horizontal_alignment
            &&& ay == vertical_alignment
        },
{
    match content {
        None => base,
        Some(panel) => {
            let area = Node::Backdrop {
                content: Box::new(panel),
                class,
                on_press,
                padding,
                align_x: horizontal_alignment,
                align_y: vertical_alignment,
            };
            let mut layers: Vec<Node<M>> = Vec::new();
            layers.push(base);
            layers.push(area);
            Node::Stack { layers }
        },
    }
}

/// Whether `n` is the title text run of `d` holding the title `t`.
pub open spec fn is_title_text_of<M>(d: Dialog<M>, t: String, n: Node<M>) -> bool {
    &&& n matches Node::Text { content, size, line_height, align_x, class, font }
    &&& content == t
    &&& size == Some(20u32)
    &&& line_height == LineHeight::Absolute(26u32)
    &&& align_x == Horizontal::Left
    &&& class == d.title_class
    &&& font == d.font
}

/// Whether `n` is the contents box of `d`: an inner-padded box holding
/// the title text with a fixed gap below it when a title is set,
/// followed by the body content. It spans the full dialog width when
/// buttons are present and fits its content otherwise.
pub open spec fn is_contents_of<M>(d: Dialog<M>, n: Node<M>) -> bool {
    &&& n matches Node::Container {
        content,
        width,
        height,
        max_width,
        max_height,
        padding,
        class,
        clip,
    }
    &&& (match d.title {
        Some(t) => {
            &&& (*content) matches Node::Column { children }
            &&& children@.len() == 3
            &&& is_title_text_of(d, t, children@[0])
            &&& children@[1] == (Node::Space::<M> {
                width: Length::Shrink,
                height: Length::Fixed(12u32),
            })
            &&& children@[2] == d.content
        },
        None => {
            &&& (*content) matches Node::Column { children }
            &&& children@.len() == 1
            &&& children@[0] == d.content
        },
    })
    &&& width == if d.buttons@.len() > 0 {
        Length::Fill
    } else {
        (*content).spec_size_hint().width.spec_fluid()
    }
    &&& height == (*content).spec_size_hint().height.spec_fluid()
    &&& max_width is None
    &&& max_height is None
    &&& padding == d.padding_inner
    &&& class == ContainerClass::Transparent
    &&& clip == false
}

/// Whether `n` is the button row of `d`: a fixed-height, inner-padded
/// box holding the buttons in order with the configured spacing and
/// vertical alignment.
pub open spec fn is_button_row_of<M>(d: Dialog<M>, n: Node<M>) -> bool {
    &&& n matches Node::Container {
        content,
        width,
        height,
        max_width,
        max_height,
        padding,
        class,
        clip,
    }
    &&& (*content) matches Node::Row { children, spacing, align_y }
    &&& children@ == d.buttons@
    &&& spacing == d.spacing
    &&& align_y == d.button_alignment
    &&& width == (*content).spec_size_hint().width.spec_fluid()
    &&& height == Length::Fixed(80u32)
    &&& max_width is None
    &&& max_height is None
    &&& padding == d.padding_inner
    &&& class == ContainerClass::Transparent
    &&& clip == false
}

/// Whether `n` is the dialog box of `d`: a clipped box with the
/// configured sizing and container class, holding the contents box
/// and, when buttons are present, a fill-sized gap and the button row.
pub open spec fn is_panel_of<M>(d: Dialog<M>, n: Node<M>) -> bool {
    &&& n matches Node::Container {
        content,
        width,
        height,
        max_width,
        max_height,
        padding,
        class,
        clip,
    }
    &&& (*content) matches Node::Column { children }
    &&& if d.buttons@.len() == 0 {
        children@.len() == 1
    } else {
        &&& children@.len() == 3
        &&& children@[1] == (Node::Space::<M> { width: Length::Shrink, height: Length::Fill })
        &&& is_button_row_of(d, children@[2])
    }
    &&& is_contents_of(d, children@[0])
    &&& width == d.width
    &&& height == d.height
    &&& max_width == d.spec_effective_max_width()
    &&& max_height == d.spec_effective_max_height()
    &&& padding == (Padding { top: 0u32, right: 0u32, bottom: 0u32, left: 0u32 })
    &&& class == d.container_class
    &&& clip == true
}

/// Whether `n` is the overlay of `d`: the input-absorbing backdrop
/// with the dialog's style class, backdrop-press message, outer
/// padding and alignment, holding the dialog box.
pub open spec fn is_overlay_of<M>(d: Dialog<M>, n: Node<M>) -> bool {
    &&& n matches Node::Backdrop { content, class, on_press, padding, align_x, align_y }
    &&& is_panel_of(d, *content)
    &&& class == d.class
    &&& on_press == d.on_press
    &&& padding == d.padding_outer
    &&& align_x == d.horizontal_alignment
    &&& align_y == d.vertical_alignment
}

/// Whether `r` is the rendering of `d`: the base view alone when the
/// presenter is closed, or a two-layer stack of the base view below
/// the overlay when it is open.
pub open spec fn is_view_of<M>(d: Dialog<M>, r: Node<M>) -> bool {
    if !d.is_open {
        r == d.base
    } else {
        &&& r matches Node::Stack { layers }
        &&& layers@.len() == 2
        &&& layers@[0] == d.base
        &&& is_overlay_of(d, layers@[1])
    }
}

/// The overlay of a rendered open dialog: the top layer of the stack.
pub open spec fn overlay_of<M>(r: Node<M>) -> Node<M>
    recommends
        r is Stack,
{
    r->Stack_layers@[1]
}

/// The dialog box of a rendered open dialog: the container the
/// backdrop holds.
pub open spec fn panel_of<M>(r: Node<M>) -> Node<M>
    recommends
        r is Stack,
{
    *overlay_of(r)->Backdrop_content
}

/// The children of the dialog box's column: the contents box and,
/// when buttons are present, the bottom spacer and the button row.
pub open spec fn panel_children<M>(r: Node<M>) -> Seq<Node<M>>
    recommends
        r is Stack,
{
    (*panel_of(r)->Container_content)->Column_children@
}

/// The children of the contents box's column: the title region, if
/// any, followed by the body content.
pub open spec fn contents_children<M>(r: Node<M>) -> Seq<Node<M>>
    recommends
        r is Stack,
{
    (*panel_children(r)[0]->Container_content)->Column_children@
}

/// The maximum width of the rendered dialog box; `None` leaves the
/// box bounded by its content alone.
pub open spec fn panel_max_width<M>(r: Node<M>) -> Option<u32>
    recommends
        r is Stack,
{
    panel_of(r)->Container_max_width
}

/// The maximum height of the rendered dialog box; `None` leaves the
/// box bounded by its content alone.
pub open spec fn panel_max_height<M>(r: Node<M>) -> Option<u32>
    recommends
        r is Stack,
{
    panel_of(r)->Container_max_height
}

/// Law: a closed presenter renders its base view alone. The rendered
/// tree is structurally identical to the base view: no stack, no
/// backdrop and no dialog box appear around it.
pub proof fn lemma_closed_renders_base<M>(d: Dialog<M>, r: Node<M>)
    requires
        !d.is_open,
        is_view_of(d, r),
    ensures
        r == d.base,
{
}

/// Law: an open presenter without a title renders no title region:
/// the contents box holds exactly the body content, with no text run
/// and no gap before it.
pub proof fn lemma_no_title_no_title_region<M>(d: Dialog<M>, r: Node<M>)
    requires
        d.is_open,
        d.title is None,
        is_view_of(d, r),
    ensures
        contents_children(r) == seq![d.content],
{
    assert(contents_children(r) =~= seq![d.content]);
}

/// Law: an open presenter with an empty button list renders neither a
/// button row nor a bottom spacer, and the dialog box keeps
/// content-fit sizing: only an explicitly configured maximum bounds
/// it, never the default maximum dimensions.
pub proof fn lemma_no_buttons_content_fit<M>(d: Dialog<M>, r: Node<M>)
    requires
        d.is_open,
        d.buttons@.len() == 0,
        is_view_of(d, r),
    ensures
        panel_children(r).len() == 1,
        is_contents_of(d, panel_children(r)[0]),
        panel_max_width(r) == d.max_width,
        panel_max_height(r) == d.max_height,
{
}

/// Law: an open presenter with at least one button and no explicit
/// width bound renders a dialog box whose maximum width is exactly
/// the default maximum width.
pub proof fn lemma_buttons_default_max_width<M>(d: Dialog<M>, r: Node<M>)
    requires
        d.is_open,
        d.buttons@.len() > 0,
        d.max_width is None,
        !(d.width is Fixed),
        is_view_of(d, r),
    ensures
        panel_max_width(r) == Some(DEFAULT_MAX_WIDTH),
{
}

} // verus!
