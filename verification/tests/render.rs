use ramhorns::content::Content;
use ramhorns::encoder::Encoder;
use ramhorns::fields::FieldMap;
use ramhorns::template::{Node, Section, Template};

fn escaped_of<C: Content>(c: &C) -> String {
    let mut enc = Encoder::new();
    c.render_escaped(&mut enc).unwrap();
    enc.into_string()
}

fn unescaped_of<C: Content>(c: &C) -> String {
    let mut enc = Encoder::new();
    c.render_unescaped(&mut enc).unwrap();
    enc.into_string()
}

fn section_of<C: Content>(c: &C, body: &[Node]) -> String {
    let mut enc = Encoder::new();
    c.render_section(Section::new(body), &mut enc).unwrap();
    enc.into_string()
}

fn inverse_of<C: Content>(c: &C, body: &[Node]) -> String {
    let mut enc = Encoder::new();
    c.render_inverse(Section::new(body), &mut enc).unwrap();
    enc.into_string()
}

#[test]
fn escaped_text_has_no_markup() {
    let s = "a<b>&\"c\"".to_string();
    assert_eq!(escaped_of(&s), "a&lt;b&gt;&amp;&quot;c&quot;");
    let out = escaped_of(&s);
    assert!(!out.contains('<'));
    assert!(!out.contains('>'));
    assert!(!out.contains('"'));
}

#[test]
fn unescaped_text_is_identical() {
    let s = "a<b>&\"c\"".to_string();
    assert_eq!(unescaped_of(&s), "a<b>&\"c\"");
}

#[test]
fn exactly_one_section_mode_renders() {
    let body = vec![Node::text("X".to_string())];
    let truthy = "hi".to_string();
    assert_eq!(section_of(&truthy, &body), "X");
    assert_eq!(inverse_of(&truthy, &body), "");
    let falsy = "".to_string();
    assert_eq!(section_of(&falsy, &body), "");
    assert_eq!(inverse_of(&falsy, &body), "X");
}

#[test]
fn empty_sequence_section_is_empty() {
    let items: Vec<String> = Vec::new();
    let body = vec![Node::text("never".to_string())];
    assert_eq!(section_of(&items, &body), "");
}

#[test]
fn sequence_section_renders_each_element_in_order() {
    let mut items: Vec<FieldMap<String>> = Vec::new();
    for v in ["a", "b", "c"] {
        let mut m = FieldMap::new();
        m.insert("v".to_string(), v.to_string());
        items.push(m);
    }
    let body = vec![Node::escaped("v")];
    assert_eq!(section_of(&items, &body), "abc");
    let framed = vec![
        Node::text("(".to_string()),
        Node::escaped("v"),
        Node::text(")".to_string()),
    ];
    assert_eq!(section_of(&items, &framed), "(a)(b)(c)");
}

#[test]
fn map_field_hit_renders_any_hash() {
    let mut m: FieldMap<String> = FieldMap::new();
    m.insert("x".to_string(), "1".to_string());
    for hash in [0u64, 999u64, u64::MAX] {
        let mut enc = Encoder::new();
        m.render_field_escaped(hash, "x", &mut enc).unwrap();
        assert_eq!(enc.into_string(), "1");
    }
}

#[test]
fn map_field_miss_is_silent() {
    let mut m: FieldMap<String> = FieldMap::new();
    m.insert("x".to_string(), "1".to_string());
    let mut enc = Encoder::new();
    let r = m.render_field_escaped(0, "y", &mut enc);
    assert!(r.is_ok());
    assert_eq!(enc.into_string(), "");
}

#[test]
fn map_insert_replaces_existing_name() {
    let mut m: FieldMap<String> = FieldMap::new();
    m.insert("x".to_string(), "1".to_string());
    m.insert("y".to_string(), "8".to_string());
    m.insert("x".to_string(), "2".to_string());
    assert_eq!(m.len(), 2);
    let mut enc = Encoder::new();
    m.render_field_escaped(7, "x", &mut enc).unwrap();
    m.render_field_escaped(7, "y", &mut enc).unwrap();
    assert_eq!(enc.into_string(), "28");
}

#[test]
fn capacity_hint_is_byte_length_of_text() {
    let tpl = Template::new(Vec::new());
    assert_eq!("".to_string().capacity_hint(&tpl), 0);
    assert_eq!("abc".to_string().capacity_hint(&tpl), 3);
    assert_eq!("\u{e9}".to_string().capacity_hint(&tpl), 2);
}

#[test]
fn end_to_end_section_over_two_maps() {
    let tpl = Template::new(vec![Node::section("names", vec![Node::escaped("name")])]);
    let mut list: Vec<FieldMap<String>> = Vec::new();
    for v in ["A", "B"] {
        let mut m = FieldMap::new();
        m.insert("name".to_string(), v.to_string());
        list.push(m);
    }
    let mut root: FieldMap<Vec<FieldMap<String>>> = FieldMap::new();
    root.insert("names".to_string(), list);
    assert_eq!(tpl.render(&root).unwrap(), "AB");
}

#[test]
fn end_to_end_inverse_section() {
    let tpl = Template::new(vec![
        Node::inverse("names", vec![Node::text("none".to_string())]),
    ]);
    let mut root: FieldMap<Vec<FieldMap<String>>> = FieldMap::new();
    root.insert("names".to_string(), Vec::new());
    assert_eq!(tpl.render(&root).unwrap(), "none");
}

#[test]
fn unknown_field_renders_nothing_end_to_end() {
    let tpl = Template::new(vec![
        Node::text("[".to_string()),
        Node::escaped("missing"),
        Node::text("]".to_string()),
    ]);
    let root: FieldMap<String> = FieldMap::new();
    assert_eq!(tpl.render(&root).unwrap(), "[]");
}

#[test]
fn unescaped_field_tag_passes_markup_through() {
    let tpl = Template::new(vec![Node::unescaped("v"), Node::escaped("v")]);
    let mut root: FieldMap<String> = FieldMap::new();
    root.insert("v".to_string(), "<i>".to_string());
    assert_eq!(tpl.render(&root).unwrap(), "<i>&lt;i&gt;");
}
