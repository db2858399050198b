use malvolio::prelude::{noscript, BodyNode, NoScript};
use std::borrow::Cow;

/// The text of the first child of the first `<noscript>` element that a
/// parser finds in `markup`, or `None` where the element has no child.
fn parsed_text(markup: &str) -> Option<String> {
    let document = scraper::Html::parse_document(markup);
    let selector = scraper::Selector::parse("noscript").unwrap();
    let tag = document.select(&selector).next().unwrap();
    tag.first_child()
        .map(|child| child.value().as_text().unwrap().to_string())
}

#[test]
fn test_noscript() {
    let document = NoScript::new("No Javascript :)").render();
    let document = scraper::Html::parse_document(&document);
    let noscript = scraper::Selector::parse("noscript").unwrap();
    let tag = document.select(&noscript).next().unwrap();
    assert_eq!(
        tag.first_child()
            .unwrap()
            .value()
            .as_text()
            .unwrap()
            .to_string()
            .as_str(),
        "No Javascript :)"
    );
}

#[test]
fn render_wraps_the_text_in_the_tags() {
    assert_eq!(
        NoScript::new("No Javascript :)").render(),
        "<noscript>No Javascript :)</noscript>"
    );
}

#[test]
fn render_of_empty_text_is_the_two_tags() {
    let tag = NoScript::new("");
    assert_eq!(tag.text(), "");
    assert_eq!(tag.render(), "<noscript></noscript>");
}

#[test]
fn render_escapes_nothing() {
    let markup = NoScript::new("<b>x</b>").render();
    assert!(markup.contains("<b>x</b>"));
    assert_eq!(markup, "<noscript><b>x</b></noscript>");
    assert_eq!(
        NoScript::new("a & b < c > \"d\" 'e'").render(),
        "<noscript>a & b < c > \"d\" 'e'</noscript>"
    );
}

#[test]
fn render_keeps_white_space() {
    assert_eq!(
        NoScript::new("  two\n\tlines  ").render(),
        "<noscript>  two\n\tlines  </noscript>"
    );
}

#[test]
fn render_keeps_text_of_several_bytes_a_character() {
    let tag = NoScript::new("héllo, 世界 🦀");
    assert_eq!(tag.text(), "héllo, 世界 🦀");
    assert_eq!(tag.render(), "<noscript>héllo, 世界 🦀</noscript>");
}

#[test]
fn render_twice_gives_the_same_markup() {
    let tag = NoScript::new("twice");
    let first = tag.render();
    let second = tag.render();
    assert_eq!(first, second);
    assert_eq!(tag.text(), "twice");
}

#[test]
fn new_takes_a_static_str() {
    let tag = NoScript::new("static");
    assert_eq!(tag.text(), "static");
}

#[test]
fn new_takes_an_owned_string() {
    let owned: String = format!("built at {}", "run time");
    let tag = NoScript::new(owned);
    assert_eq!(tag.text(), "built at run time");
    assert_eq!(tag.render(), "<noscript>built at run time</noscript>");
}

#[test]
fn new_takes_a_cow_of_either_kind() {
    let borrowed: Cow<'static, str> = Cow::Borrowed("borrowed");
    let owned: Cow<'static, str> = Cow::Owned(String::from("owned"));
    assert_eq!(NoScript::new(borrowed).text(), "borrowed");
    assert_eq!(NoScript::new(owned).text(), "owned");
}

#[test]
fn noscript_is_new() {
    assert_eq!(noscript("short").text(), NoScript::new("short").text());
    assert_eq!(noscript("short").render(), "<noscript>short</noscript>");
    assert_eq!(
        noscript(String::from("owned")).render(),
        NoScript::new(String::from("owned")).render()
    );
}

#[test]
fn clone_has_the_same_text() {
    let borrowed = NoScript::new("kept");
    let owned = NoScript::new(String::from("kept too"));
    assert_eq!(borrowed.clone().text(), "kept");
    assert_eq!(owned.clone().text(), "kept too");
    assert_eq!(owned.clone().render(), owned.render());
}

#[test]
fn debug_names_the_type() {
    assert!(format!("{:?}", NoScript::new("x")).contains("NoScript"));
}

#[test]
fn body_node_gives_the_tag_back() {
    let node = BodyNode::from(NoScript::new("<i>kept</i> as it is"));
    assert!(matches!(node, BodyNode::NoScript(_)));
    let tag = node.into_noscript().unwrap();
    assert_eq!(tag.text(), "<i>kept</i> as it is");
    assert_eq!(tag.render(), "<noscript><i>kept</i> as it is</noscript>");
}

#[test]
fn body_node_comes_by_into() {
    let node: BodyNode = noscript(String::from("owned")).into();
    assert_eq!(node.into_noscript().unwrap().text(), "owned");
}

#[test]
fn closing_tag_stands_once_at_the_end() {
    for text in ["", "plain", "</nos", "<noscript>", "</NOSCRIPT>", "</noscript"] {
        let markup = NoScript::new(text).render();
        assert_eq!(markup.len(), 10 + text.len() + 11);
        assert_eq!(markup.find("</noscript>"), Some(10 + text.len()));
        assert_eq!(markup.rfind("</noscript>"), Some(10 + text.len()));
        assert_eq!(&markup[10..10 + text.len()], text);
    }
}

#[test]
fn markup_differs_where_text_differs() {
    assert_ne!(NoScript::new("a").render(), NoScript::new("b").render());
    assert_ne!(NoScript::new("a").render(), NoScript::new("a ").render());
    assert_eq!(NoScript::new("a").render(), NoScript::new(String::from("a")).render());
}

#[test]
fn parser_reads_back_special_characters() {
    for text in ["<b>x</b>", "a & b", "&amp; stays", "1 < 2 > 0", "\"quoted\" 'too'"] {
        let markup = NoScript::new(text).render();
        assert_eq!(parsed_text(&markup).as_deref(), Some(text));
    }
}

#[test]
fn parser_reads_back_text_of_several_bytes_a_character() {
    let text = "héllo, 世界 🦀";
    let markup = NoScript::new(text).render();
    assert_eq!(parsed_text(&markup).as_deref(), Some(text));
}

#[test]
fn parser_finds_no_child_for_empty_text() {
    let markup = NoScript::new("").render();
    assert_eq!(parsed_text(&markup), None);
}

#[test]
fn parser_stops_at_a_closing_tag_in_the_text() {
    let markup = NoScript::new("before</noscript>after").render();
    assert_eq!(markup, "<noscript>before</noscript>after</noscript>");
    assert_eq!(parsed_text(&markup).as_deref(), Some("before"));
}

#[test]
fn parser_stops_at_a_closing_tag_in_capitals() {
    let markup = NoScript::new("before</NOSCRIPT>after").render();
    assert_eq!(markup, "<noscript>before</NOSCRIPT>after</noscript>");
    assert_eq!(parsed_text(&markup).as_deref(), Some("before"));
}

#[test]
fn parser_reads_carriage_return_as_line_feed() {
    let markup = NoScript::new("one\r\ntwo").render();
    assert_eq!(markup, "<noscript>one\r\ntwo</noscript>");
    assert_eq!(parsed_text(&markup).as_deref(), Some("one\ntwo"));
}
