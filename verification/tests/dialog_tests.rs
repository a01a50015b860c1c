//! Rendering and configuration tests for the dialog presenter.
use iced_dialog::dialog::{
    Catalog, Color, ContainerClass, ContainerStyle, Style, StyleClass, TextClass, TextStyle,
    Theme, DEFAULT_MAX_HEIGHT, DEFAULT_MAX_WIDTH,
};
use iced_dialog::node::{Horizontal, Length, LineHeight, Node, Padding, Vertical};
use iced_dialog::simulate::{click, contains_text, press_backdrop};
use iced_dialog::{button, dialog};

#[derive(Debug, Clone, PartialEq)]
enum Msg {
    Open,
    Save,
    Cancel,
}

fn text(s: &str) -> Node<Msg> {
    Node::Text {
        content: s.to_string(),
        size: None,
        line_height: LineHeight::Default,
        align_x: Horizontal::Left,
        class: TextClass::Default,
        font: None,
    }
}

fn space() -> Node<Msg> {
    Node::Space { width: Length::Shrink, height: Length::Shrink }
}

/// The overlay layer of a rendered open dialog.
fn overlay(r: &Node<Msg>) -> &Node<Msg> {
    match r {
        Node::Stack { layers } => {
            assert_eq!(layers.len(), 2);
            &layers[1]
        }
        _ => panic!("expected a stack"),
    }
}

/// The dialog box held by the backdrop.
fn panel(r: &Node<Msg>) -> &Node<Msg> {
    match overlay(r) {
        Node::Backdrop { content, .. } => content,
        _ => panic!("expected a backdrop"),
    }
}

/// The children of the dialog box's column.
fn panel_children(r: &Node<Msg>) -> &Vec<Node<Msg>> {
    match panel(r) {
        Node::Container { content, .. } => match content.as_ref() {
            Node::Column { children } => children,
            _ => panic!("expected a column in the dialog box"),
        },
        _ => panic!("expected a container as the dialog box"),
    }
}

/// The children of the contents box's column.
fn contents_children(r: &Node<Msg>) -> &Vec<Node<Msg>> {
    match &panel_children(r)[0] {
        Node::Container { content, .. } => match content.as_ref() {
            Node::Column { children } => children,
            _ => panic!("expected a column in the contents box"),
        },
        _ => panic!("expected a container as the contents box"),
    }
}

#[test]
fn closed_renders_base_alone() {
    let r = dialog(false, text("base"), text("body")).view();
    assert_eq!(r, text("base"));
}

#[test]
fn closed_ignores_title_and_buttons() {
    let r = dialog(false, text("base"), text("body"))
        .title("hello".to_string())
        .push_button(button("ok", Msg::Save))
        .view();
    assert_eq!(r, text("base"));
}

#[test]
fn open_renders_base_under_overlay() {
    let r = dialog(true, text("base"), text("body")).view();
    match &r {
        Node::Stack { layers } => {
            assert_eq!(layers.len(), 2);
            assert_eq!(layers[0], text("base"));
            assert!(matches!(&layers[1], Node::Backdrop { .. }));
        }
        _ => panic!("expected a stack"),
    }
}

#[test]
fn open_without_title_has_no_title_region() {
    let r = dialog(true, space(), text("body")).view();
    let children = contents_children(&r);
    assert_eq!(children.len(), 1);
    assert_eq!(children[0], text("body"));
}

#[test]
fn open_with_title_has_title_then_gap() {
    let r = dialog(true, space(), text("body")).title("Save".to_string()).view();
    let children = contents_children(&r);
    assert_eq!(children.len(), 3);
    assert_eq!(
        children[0],
        Node::Text {
            content: "Save".to_string(),
            size: Some(20),
            line_height: LineHeight::Absolute(26),
            align_x: Horizontal::Left,
            class: TextClass::Default,
            font: None,
        }
    );
    assert_eq!(children[1], Node::Space { width: Length::Shrink, height: Length::Fixed(12) });
    assert_eq!(children[2], text("body"));
}

#[test]
fn title_font_and_class_carry_over() {
    let r = dialog(true, space(), text("body"))
        .title("Save".to_string())
        .font(3)
        .title_style(TextStyle { color: Some(Color { r: 9, g: 9, b: 9, alpha_milli: 1000 }) })
        .view();
    match &contents_children(&r)[0] {
        Node::Text { class, font, .. } => {
            assert_eq!(
                *class,
                TextClass::Fixed(TextStyle {
                    color: Some(Color { r: 9, g: 9, b: 9, alpha_milli: 1000 }),
                })
            );
            assert_eq!(*font, Some(3));
        }
        _ => panic!("expected the title text run"),
    }
}

#[test]
fn open_without_buttons_is_content_fit() {
    let r = dialog(true, space(), text("body")).view();
    assert_eq!(panel_children(&r).len(), 1);
    match panel(&r) {
        Node::Container { max_width, max_height, clip, .. } => {
            assert_eq!(*max_width, None);
            assert_eq!(*max_height, None);
            assert!(*clip);
        }
        _ => panic!("expected a container as the dialog box"),
    }
    match &panel_children(&r)[0] {
        Node::Container { width, height, padding, class, .. } => {
            assert_eq!(*width, Length::Shrink);
            assert_eq!(*height, Length::Shrink);
            assert_eq!(*padding, Padding { top: 24, right: 24, bottom: 24, left: 24 });
            assert_eq!(*class, ContainerClass::Transparent);
        }
        _ => panic!("expected a container as the contents box"),
    }
}

#[test]
fn open_without_buttons_keeps_explicit_max() {
    let r = dialog(true, space(), text("body")).max_width(500).max_height(111).view();
    match panel(&r) {
        Node::Container { max_width, max_height, .. } => {
            assert_eq!(*max_width, Some(500));
            assert_eq!(*max_height, Some(111));
        }
        _ => panic!("expected a container as the dialog box"),
    }
}

#[test]
fn open_with_buttons_uses_default_max_dimensions() {
    let r = dialog(true, space(), text("body")).push_button(button("ok", Msg::Save)).view();
    match panel(&r) {
        Node::Container { max_width, max_height, .. } => {
            assert_eq!(*max_width, Some(DEFAULT_MAX_WIDTH));
            assert_eq!(*max_height, Some(DEFAULT_MAX_HEIGHT));
        }
        _ => panic!("expected a container as the dialog box"),
    }
    assert_eq!(DEFAULT_MAX_WIDTH, 400);
    assert_eq!(DEFAULT_MAX_HEIGHT, 260);
}

#[test]
fn open_with_buttons_and_fixed_size_is_unbounded() {
    let r = dialog(true, space(), text("body"))
        .push_button(button("ok", Msg::Save))
        .width(Length::Fixed(350))
        .height(Length::Fixed(234))
        .view();
    match panel(&r) {
        Node::Container { width, height, max_width, max_height, .. } => {
            assert_eq!(*width, Length::Fixed(350));
            assert_eq!(*height, Length::Fixed(234));
            assert_eq!(*max_width, None);
            assert_eq!(*max_height, None);
        }
        _ => panic!("expected a container as the dialog box"),
    }
}

#[test]
fn open_with_buttons_has_spacer_and_button_row() {
    let r = dialog(true, space(), text("body"))
        .push_button(button("ok", Msg::Save))
        .push_button(button("no", Msg::Cancel))
        .spacing(10)
        .align_buttons(Vertical::Center)
        .view();
    let children = panel_children(&r);
    assert_eq!(children.len(), 3);
    assert_eq!(children[1], Node::Space { width: Length::Shrink, height: Length::Fill });
    match &children[2] {
        Node::Container { content, width, height, padding, .. } => {
            // the row's hint is made fluid by the fill-width buttons
            assert_eq!(*width, Length::Fill);
            assert_eq!(*height, Length::Fixed(80));
            assert_eq!(*padding, Padding { top: 24, right: 24, bottom: 24, left: 24 });
            match content.as_ref() {
                Node::Row { children, spacing, align_y } => {
                    assert_eq!(children.len(), 2);
                    assert_eq!(children[0], button("ok", Msg::Save));
                    assert_eq!(children[1], button("no", Msg::Cancel));
                    assert_eq!(*spacing, 10);
                    assert_eq!(*align_y, Vertical::Center);
                }
                _ => panic!("expected the button row"),
            }
        }
        _ => panic!("expected a container holding the button row"),
    }
    match &children[0] {
        Node::Container { width, .. } => assert_eq!(*width, Length::Fill),
        _ => panic!("expected a container as the contents box"),
    }
}

#[test]
fn button_helper_is_pre_styled() {
    let b: Node<Msg> = button("ok", Msg::Save);
    assert_eq!(
        b,
        Node::Button {
            content: Box::new(Node::Text {
                content: "ok".to_string(),
                size: Some(14),
                line_height: LineHeight::Absolute(20),
                align_x: Horizontal::Center,
                class: TextClass::Default,
                font: None,
            }),
            on_press: Some(Msg::Save),
            width: Length::Fill,
            height: Length::Fixed(32),
        }
    );
}

#[test]
fn composite_content_adopts_fluid_child_sizing() {
    let content = Node::Column {
        children: vec![
            text("row of words"),
            Node::Space { width: Length::Fill, height: Length::Fixed(5) },
        ],
    };
    let d = dialog(true, space(), content);
    assert_eq!(d.width, Length::Fill);
    assert_eq!(d.height, Length::Shrink);
    let r = d.view();
    match &panel_children(&r)[0] {
        Node::Container { width, height, .. } => {
            assert_eq!(*width, Length::Fill);
            assert_eq!(*height, Length::Shrink);
        }
        _ => panic!("expected a container as the contents box"),
    }
}

#[test]
fn fresh_dialog_takes_content_sizing() {
    let content = Node::Space { width: Length::Fill, height: Length::Fixed(10) };
    let d = dialog(false, space(), content);
    assert_eq!(d.width, Length::Fill);
    assert_eq!(d.height, Length::Shrink);
    assert_eq!(d.title, None);
    assert!(d.buttons.is_empty());
    assert_eq!(d.on_press, None);
    assert_eq!(d.max_width, None);
    assert_eq!(d.max_height, None);
    assert_eq!(d.horizontal_alignment, Horizontal::Center);
    assert_eq!(d.vertical_alignment, Vertical::Center);
    assert_eq!(d.spacing, 8);
    assert_eq!(d.padding_inner, Padding { top: 24, right: 24, bottom: 24, left: 24 });
    assert_eq!(d.padding_outer, Padding { top: 0, right: 0, bottom: 0, left: 0 });
    assert_eq!(d.button_alignment, Vertical::Top);
    assert_eq!(d.class, StyleClass::Default);
    assert_eq!(d.title_class, TextClass::Default);
    assert_eq!(d.container_class, ContainerClass::Surface);
}

#[test]
fn builders_replace_single_fields() {
    let d = dialog(false, space(), text("body"))
        .align_left()
        .align_bottom()
        .padding_inner(Padding::uniform(16))
        .padding_outer(Padding::uniform(4))
        .container_style(ContainerStyle { background: None });
    assert_eq!(d.horizontal_alignment, Horizontal::Left);
    assert_eq!(d.vertical_alignment, Vertical::Bottom);
    assert_eq!(d.padding_inner, Padding::uniform(16));
    assert_eq!(d.padding_outer, Padding::uniform(4));
    assert_eq!(d.container_class, ContainerClass::Fixed(ContainerStyle { background: None }));
    let d = d.align_x(Horizontal::Right).align_y(Vertical::Top);
    assert_eq!(d.horizontal_alignment, Horizontal::Right);
    assert_eq!(d.vertical_alignment, Vertical::Top);
}

#[test]
fn push_button_maybe_and_extend() {
    let d = dialog(false, space(), text("body"))
        .push_button_maybe(Some(button("a", Msg::Save)))
        .push_button_maybe(None::<Node<Msg>>)
        .extend_buttons(vec![button("b", Msg::Cancel), button("c", Msg::Open)]);
    assert_eq!(
        d.buttons,
        vec![button("a", Msg::Save), button("b", Msg::Cancel), button("c", Msg::Open)]
    );
}

#[test]
fn on_press_builders() {
    let d = dialog(true, space(), text("body")).on_press(Msg::Cancel);
    assert_eq!(d.on_press, Some(Msg::Cancel));
    let d = d.on_press_maybe(None);
    assert_eq!(d.on_press, None);
    let d = d.on_press_with(|| Msg::Open);
    assert_eq!(d.on_press, Some(Msg::Open));
}

#[test]
fn backdrop_press_produces_message() {
    let r = dialog(true, space(), text("body")).on_press(Msg::Cancel).view();
    assert_eq!(press_backdrop(&r), Some(&Msg::Cancel));
}

#[test]
fn backdrop_without_handler_absorbs_silently() {
    let r = dialog(true, space(), text("body")).view();
    assert_eq!(press_backdrop::<Msg>(&r), None);
    let closed = dialog(false, space(), text("body")).on_press(Msg::Cancel).view();
    assert_eq!(press_backdrop(&closed), None);
}

#[test]
fn backdrop_builder_sets_fixed_style() {
    let color = Color { r: 1, g: 2, b: 3, alpha_milli: 500 };
    let d = dialog(true, space(), text("body")).backdrop(color);
    assert_eq!(d.class, StyleClass::Fixed(Style { backdrop_color: color }));
    let r = d.view();
    match overlay(&r) {
        Node::Backdrop { class, .. } => {
            assert_eq!(*class, StyleClass::Fixed(Style { backdrop_color: color }));
        }
        _ => panic!("expected a backdrop"),
    }
}

#[test]
fn default_style_is_semi_transparent_black() {
    let theme = Theme::light();
    let s = iced_dialog::dialog::default(&theme);
    assert_eq!(s.backdrop_color, Color { r: 0, g: 0, b: 0, alpha_milli: 300 });
    let resolved = theme.style(&StyleClass::Default);
    assert_eq!(resolved, s);
    let fixed = Style { backdrop_color: Color { r: 7, g: 7, b: 7, alpha_milli: 900 } };
    assert_eq!(theme.style(&StyleClass::Fixed(fixed)), fixed);
}

#[test]
fn surface_container_matches_theme_base_color() {
    let theme = Theme::light();
    assert_eq!(
        theme.container_style(&ContainerClass::Surface),
        ContainerStyle {
            background: Some(Color { r: 255, g: 255, b: 255, alpha_milli: 1000 }),
        }
    );
    assert_eq!(
        theme.container_style(&ContainerClass::Transparent),
        ContainerStyle { background: None }
    );
    assert_eq!(theme.text_style(&TextClass::Default), TextStyle { color: None });
    assert_eq!(<Theme as Catalog>::default(), StyleClass::Default);
    assert_eq!(<Theme as Catalog>::default_title(), TextClass::Default);
    assert_eq!(<Theme as Catalog>::default_container(), ContainerClass::Surface);
}

#[test]
fn open_dialog_absorbs_clicks_on_base() {
    let base = button("Open", Msg::Open);
    let closed = dialog(false, base, text("body")).view();
    assert_eq!(click(&closed, &"Open".to_string()), Some(&Msg::Open));

    let base = button("Open", Msg::Open);
    let open = dialog(true, base, text("body")).view();
    assert_eq!(click(&open, &"Open".to_string()), None);
}

#[test]
fn contains_text_sees_through_the_tree() {
    let r = dialog(true, text("base words"), text("body words"))
        .title("title words".to_string())
        .push_button(button("ok", Msg::Save))
        .view();
    assert!(contains_text(&r, &"body words".to_string()));
    assert!(contains_text(&r, &"title words".to_string()));
    assert!(contains_text(&r, &"base words".to_string()));
    assert!(contains_text(&r, &"ok".to_string()));
    assert!(!contains_text(&r, &"missing".to_string()));
    assert!(!contains_text(&r, &"body".to_string()));
}
