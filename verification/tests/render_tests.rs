use aurochs::Document;

#[test]
fn paired_empty_renders_open_and_close() {
    let div = Document::create_element("div");
    assert_eq!(div.render(), "<div></div>");
}

#[test]
fn void_empty_renders_single_tag() {
    let br = Document::create_element("br");
    assert_eq!(br.render(), "<br>");
}

#[test]
fn every_void_tag_renders_without_closing() {
    let void_tags = [
        "area", "base", "br", "command", "col", "embed", "hr", "img", "input", "link", "meta",
        "param", "source",
    ];
    for tag in void_tags {
        let node = Document::create_element(tag);
        assert_eq!(node.render(), format!("<{}>", tag));
    }
}

#[test]
fn unknown_tag_defaults_to_paired() {
    let custom = Document::create_element("x-custom");
    assert_eq!(custom.render(), "<x-custom></x-custom>");
}

#[test]
fn tag_matching_is_case_sensitive() {
    let shouting = Document::create_element("BR");
    assert_eq!(shouting.render(), "<BR></BR>");
}

#[test]
fn html_lang_attribute_renders_in_tag() {
    let mut html = Document::create_element("html");
    html.set_attribute("lang", "en");
    assert_eq!(html.render(), "<html lang=\"en\"></html>");
}

#[test]
fn paragraph_inner_text_renders_between_tags() {
    let mut paragraph = Document::create_element("p");
    paragraph.inner_text("Hello World!");
    assert_eq!(paragraph.render(), "<p>Hello World!</p>");
}

#[test]
fn appended_children_keep_insertion_order() {
    let mut parent = Document::create_element("div");
    let mut first = Document::create_element("p");
    first.inner_text("A");
    let mut second = Document::create_element("p");
    second.inner_text("B");
    parent.append_child(first);
    parent.append_child(second);
    assert_eq!(parent.render(), "<div><p>A</p><p>B</p></div>");
}

#[test]
fn text_and_element_children_interleave_in_append_order() {
    let mut paragraph = Document::create_element("p");
    paragraph.inner_text("a");
    paragraph.append_child(Document::create_element("b"));
    paragraph.inner_text("c");
    assert_eq!(paragraph.render(), "<p>a<b></b>c</p>");
}

#[test]
fn child_appended_to_void_node_is_ignored_by_render() {
    let mut with_child = Document::create_element("br");
    with_child.append_child(Document::create_element("p"));
    let without_child = Document::create_element("br");
    assert_eq!(with_child.render(), without_child.render());
    assert_eq!(with_child.render(), "<br>");
}

#[test]
fn attributes_on_void_node_still_render() {
    let mut img = Document::create_element("img");
    img.set_attribute("src", "cat.png");
    img.append_child(Document::create_element("p"));
    assert_eq!(img.render(), "<img src=\"cat.png\">");
}

#[test]
fn attribute_values_pass_through_unescaped() {
    let mut div = Document::create_element("div");
    div.set_attribute("data-x", "a<b>\"c\"");
    assert_eq!(div.render(), "<div data-x=\"a<b>\"c\"\"></div>");
}

#[test]
fn render_is_repeatable_and_pure() {
    let mut p = Document::create_element("p");
    p.inner_text("same");
    let once = p.render();
    let twice = p.render();
    assert_eq!(once, twice);
    assert_eq!(once, "<p>same</p>");
}

#[test]
fn deeply_nested_tree_renders_depth_first() {
    let depth: usize = 1000;
    let mut node = Document::create_element("p");
    node.inner_text("x");
    for _ in 0..depth {
        let mut parent = Document::create_element("div");
        parent.append_child(node);
        node = parent;
    }
    let mut expected = String::new();
    for _ in 0..depth {
        expected.push_str("<div>");
    }
    expected.push_str("<p>x</p>");
    for _ in 0..depth {
        expected.push_str("</div>");
    }
    assert_eq!(node.render(), expected);
}

#[test]
fn demo_page_renders_whole_tree() {
    let mut html = Document::create_element("html");
    html.set_attribute("lang", "en");

    let mut title = Document::create_element("title");
    title.inner_text("Aurochs");

    let mut head = Document::create_element("head");
    head.append_child(title);

    let mut paragraph = Document::create_element("p");
    paragraph.inner_text("Hello World!");

    let mut line_break = Document::create_element("br");
    line_break.set_attribute("class", "breaking");

    let mut second_break = line_break.clone_node();
    second_break.set_attribute("id", "still_breaking");

    let mut body = Document::create_element("body");
    body.append_child_list(vec![paragraph, line_break, second_break]);

    html.append_child_list(vec![head, body]);

    assert_eq!(
        html.render(),
        "<html lang=\"en\"><head><title>Aurochs</title></head><body><p>Hello World!</p>\
         <br class=\"breaking\"><br class=\"breaking\" id=\"still_breaking\"></body></html>",
    );
}
