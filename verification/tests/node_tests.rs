use aurochs::Closing;
use aurochs::Document;

#[test]
fn resolve_closing_maps_void_tags() {
    assert_eq!(Document::create_element("br").render(), "<br>");
    assert!(aurochs::resolve_closing("br") == Closing::Void);
    assert!(aurochs::resolve_closing("img") == Closing::Void);
    assert!(aurochs::resolve_closing("div") == Closing::Paired);
    assert!(aurochs::resolve_closing("p") == Closing::Paired);
}

#[test]
fn resolve_closing_is_deterministic() {
    for _ in 0..3 {
        assert!(aurochs::resolve_closing("hr") == Closing::Void);
        assert!(aurochs::resolve_closing("span") == Closing::Paired);
    }
}

#[test]
fn resolve_closing_is_case_sensitive() {
    assert!(aurochs::resolve_closing("BR") == Closing::Paired);
    assert!(aurochs::resolve_closing("Img") == Closing::Paired);
}

#[test]
fn duplicate_attribute_names_yield_two_tokens() {
    let mut div = Document::create_element("div");
    div.set_attribute("class", "a");
    div.set_attribute("class", "a");
    assert_eq!(div.render(), "<div class=\"a\" class=\"a\"></div>");
}

#[test]
fn set_attribute_list_applies_pairs_in_order() {
    let mut script = Document::create_element("script");
    script.set_attribute_list(vec![("src", "./main.js"), ("defer", ""), ("type", "module")]);
    assert_eq!(
        script.render(),
        "<script src=\"./main.js\" defer=\"\" type=\"module\"></script>",
    );
}

#[test]
fn set_attribute_list_equals_repeated_set_attribute() {
    let mut by_list = Document::create_element("a");
    by_list.set_attribute_list(vec![("href", "#"), ("rel", "noopener")]);
    let mut by_calls = Document::create_element("a");
    by_calls.set_attribute("href", "#");
    by_calls.set_attribute("rel", "noopener");
    assert_eq!(by_list.render(), by_calls.render());
}

#[test]
fn empty_attribute_list_changes_nothing() {
    let mut div = Document::create_element("div");
    div.set_attribute_list(vec![]);
    assert_eq!(div.render(), "<div></div>");
}

#[test]
fn append_child_list_keeps_order() {
    let h1 = Document::create_element("h1");
    let h2 = Document::create_element("h2");
    let h3 = Document::create_element("h3");
    let mut body = Document::create_element("body");
    body.append_child_list(vec![h1, h2, h3]);
    assert_eq!(body.render(), "<body><h1></h1><h2></h2><h3></h3></body>");
}

#[test]
fn append_child_list_of_none_changes_nothing() {
    let mut body = Document::create_element("body");
    body.append_child_list(vec![]);
    assert_eq!(body.render(), "<body></body>");
}

#[test]
fn clone_renders_like_the_original() {
    let mut original = Document::create_element("div");
    original.set_attribute("id", "root");
    let mut inner = Document::create_element("p");
    inner.inner_text("kept");
    original.append_child(inner);
    let copy = original.clone_node();
    assert_eq!(copy.render(), original.render());
}

#[test]
fn mutating_the_clone_leaves_the_original_alone() {
    let mut original = Document::create_element("br");
    original.set_attribute("class", "breaking");
    let before = original.render();
    let mut copy = original.clone_node();
    copy.set_attribute("id", "still_breaking");
    assert_eq!(original.render(), before);
    assert_eq!(original.render(), "<br class=\"breaking\">");
    assert_eq!(copy.render(), "<br class=\"breaking\" id=\"still_breaking\">");
}

#[test]
fn mutating_the_original_leaves_the_clone_alone() {
    let mut original = Document::create_element("p");
    original.inner_text("shared");
    let copy = original.clone_node();
    original.inner_text("more");
    assert_eq!(copy.render(), "<p>shared</p>");
    assert_eq!(original.render(), "<p>sharedmore</p>");
}

#[test]
fn clone_copies_deep_subtrees() {
    let mut leaf = Document::create_element("span");
    leaf.inner_text("deep");
    let mut middle = Document::create_element("div");
    middle.append_child(leaf);
    let mut root = Document::create_element("section");
    root.append_child(middle);
    let copy = root.clone_node();
    assert_eq!(copy.render(), "<section><div><span>deep</span></div></section>");
}

#[test]
fn empty_tag_name_still_renders() {
    let odd = Document::create_element("");
    assert_eq!(odd.render(), "<></>");
}
