use pearls::html::{
    anchor, div, h4, li, link, meta, no_display, paragraph, span, ul, with_doctype, Children,
    Element, Empty, Node,
};

#[test]
fn create_element_with_attrs() {
    let e = div(Empty).set("foo", "bar");
    assert_eq!(e.as_string(), "<div foo=\"bar\"></div>");
}

#[test]
fn create_element_with_child() {
    let c = div(Empty);
    let e = div(c);
    assert_eq!(e.as_string(), "<div><div></div></div>");
}

#[test]
fn attributes_keep_the_order_in_which_they_were_set() {
    let e = div(Empty).class("a").set("style", "x").set("title", "t");
    assert_eq!(e.as_string(), "<div class=\"a\" style=\"x\" title=\"t\"></div>");
}

#[test]
fn setting_an_attribute_again_replaces_its_value_in_place() {
    let e = div(Empty).set("a", "1").set("b", "2").set("a", "3");
    assert_eq!(e.as_string(), "<div a=\"3\" b=\"2\"></div>");
}

#[test]
fn add_class_appends_to_the_class() {
    let e = span("x").class("one").add_class("two");
    assert_eq!(e.as_string(), "<span class=\"one two\">x</span>");
    let f = span("x").add_class("only");
    assert_eq!(f.as_string(), "<span class=\"only\">x</span>");
}

#[test]
fn children_are_joined_by_line_breaks() {
    let e = ul(vec![li("a"), li("b"), li("c")]);
    assert_eq!(e.as_string(), "<ul><li>a</li>\n<li>b</li>\n<li>c</li></ul>");
}

#[test]
fn void_elements_have_no_closing_tag_and_take_no_single_child() {
    assert_eq!(Element::new("br").as_string(), "<br>");
    assert_eq!(meta("dropped").as_string(), "<meta>");
    assert_eq!(Element::new("img").append_text("dropped").as_string(), "<img>");
    assert_eq!(Element::new("hr").append(div(Empty)).as_string(), "<hr>");
}

#[test]
fn void_elements_keep_many_children() {
    let e = meta(vec![span("a"), span("b")]);
    assert_eq!(e.as_string(), "<meta><span>a</span>\n<span>b</span></meta>");
}

#[test]
fn append_adds_children_at_the_end() {
    let e = div(Empty).append_text("t").append(span("s")).append_node(Node::Text(String::from("u")));
    assert_eq!(e.as_string(), "<div>t\n<span>s</span>\nu</div>");
}

#[test]
fn children_can_be_given_in_every_form() {
    assert_eq!(div(String::from("s")).as_string(), "<div>s</div>");
    assert_eq!(div(&String::from("r")).as_string(), "<div>r</div>");
    assert_eq!(div(Node::Text(String::from("n"))).as_string(), "<div>n</div>");
    assert_eq!(div(vec![Node::Text(String::from("a")), Node::HTML(span("b"))]).as_string(), "<div>a\n<span>b</span></div>");
    assert_eq!(div(Children::Empty).as_string(), "<div></div>");
    assert_eq!(div(Children::One(Node::Text(String::from("o")))).as_string(), "<div>o</div>");
}

#[test]
fn no_display_is_a_hidden_span() {
    assert_eq!(no_display().as_string(), "<span style=\"display:none\"></span>");
}

#[test]
fn with_doctype_puts_the_doctype_in_front() {
    assert_eq!(with_doctype(div("x")), "<!DOCTYPE html>\n<div>x</div>");
}

#[test]
fn link_is_an_anchor_with_href() {
    assert_eq!(link("here", "/x/y").as_string(), "<a href=\"/x/y\">here</a>");
    assert_eq!(anchor("here").set("href", "/x/y").as_string(), "<a href=\"/x/y\">here</a>");
}

#[test]
fn known_elements_have_their_tags() {
    assert_eq!(h4("t").as_string(), "<h4>t</h4>");
    assert_eq!(paragraph("t").as_string(), "<p>t</p>");
    assert_eq!(anchor("t").as_string(), "<a>t</a>");
}

#[test]
fn get_finds_the_value_of_an_attribute() {
    let e = div(Empty).set("a", "1").set("b", "2");
    assert_eq!(e.get("b").map(|s| s.as_str()), Some("2"));
    assert_eq!(e.get("c"), None);
}
