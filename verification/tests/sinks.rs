//! Writing into a sink, the renderable base types, cloning and comparing.

use lazy_markdown::{Bold, CodeblockWith, Italic, Markdown, Quote, Render};

#[test]
fn fmt_appends_and_keeps_what_the_sink_held() {
    let mut out = String::from("say: ");
    "hi".bold().fmt(&mut out);
    assert_eq!(out, "say: **hi**");
    "there".italic().fmt(&mut out);
    assert_eq!(out, "say: **hi**_there_");
}

#[test]
fn fmt_into_an_empty_sink_equals_render() {
    let w = "body".codeblock_with("rs");
    let mut out = String::new();
    w.fmt(&mut out);
    assert_eq!(out, w.render());
    assert_eq!(out, "```rs\nbody```");
}

#[test]
fn fmt_twice_writes_the_text_twice() {
    let w = "q".quote();
    let mut out = String::new();
    w.fmt(&mut out);
    w.fmt(&mut out);
    assert_eq!(out, "> q> q");
}

#[test]
fn string_slices_render_to_themselves() {
    assert_eq!("plain".render(), "plain");
    assert_eq!("".render(), "");
    let mut out = String::from("a");
    "b".fmt(&mut out);
    assert_eq!(out, "ab");
}

#[test]
fn owned_strings_render_to_themselves() {
    let s = String::from("owned");
    assert_eq!(s.render(), "owned");
    assert_eq!(s.clone().spoiler().render(), "||owned||");
    let mut out = String::from("<");
    s.fmt(&mut out);
    assert_eq!(out, "<owned");
}

#[test]
fn references_render_like_what_they_point_to() {
    let owned = String::from("kept");
    let w = (&owned).bold();
    assert_eq!(w.render(), "**kept**");
    assert_eq!(owned, "kept");
    let inner = "x".italic();
    let outer = (&inner).bold();
    assert_eq!(outer.render(), "**_x_**");
    assert_eq!(inner.render(), "_x_");
}

#[test]
fn rendering_leaves_the_adaptor_usable() {
    let w = "same".strikethrough();
    let before = w.clone();
    let _ = w.render();
    assert_eq!(w, before);
    assert_eq!(w.render(), "~~same~~");
}

#[test]
fn clones_are_equal_and_render_alike() {
    let w = String::from("dup").bold().italic();
    let c = w.clone();
    assert_eq!(w, c);
    assert_eq!(w.render(), c.render());
    let t = CodeblockWith::new(String::from("b"), String::from("l"));
    assert_eq!(t.clone(), t);
    assert_eq!(t.clone().render(), "```l\nb```");
}

#[test]
fn adaptors_compare_by_what_they_hold() {
    assert_eq!(Bold::new("a"), Bold::new("a"));
    assert_ne!(Bold::new("a"), Bold::new("b"));
    assert_eq!(Quote::new(7), Quote::new(7));
    assert_ne!(Italic::new(1), Italic::new(2));
    assert_eq!(CodeblockWith::new("a", "rs"), CodeblockWith::new("a", "rs"));
    assert_ne!(CodeblockWith::new("a", "rs"), CodeblockWith::new("a", "py"));
    assert_ne!(CodeblockWith::new("a", "rs"), CodeblockWith::new("b", "rs"));
    assert_eq!("x".bold().italic(), "x".bold().italic());
    assert_ne!("x".bold().italic(), "y".bold().italic());
}

#[test]
fn adaptors_have_a_debug_form() {
    assert_eq!(format!("{:?}", Bold::new("a")), "Bold(\"a\")");
    assert_eq!(format!("{:?}", CodeblockWith::new("a", "rs")), "CodeblockWith(\"a\", \"rs\")");
}
