use ramhorns::content::Content;
use ramhorns::encoder::Encoder;
use ramhorns::field_hash;
use ramhorns::template::{Node, Section, Template};

fn escaped_of<C: Content>(c: &C) -> String {
    let mut enc = Encoder::new();
    c.render_escaped(&mut enc).unwrap();
    enc.into_string()
}

fn section_of<C: Content>(c: &C, body: &[Node]) -> String {
    let mut enc = Encoder::new();
    c.render_section(Section::new(body), &mut enc).unwrap();
    enc.into_string()
}

fn inverse_of<C: Content>(c: &C, body: &[Node]) -> String {
    let mut enc = Encoder::new();
    c.render_inverse(Section::new(body), &mut enc).unwrap();
    enc.into_string()
}

#[test]
fn bool_renders_literally() {
    assert_eq!(escaped_of(&true), "true");
    assert_eq!(escaped_of(&false), "false");
    assert!(true.is_truthy());
    assert!(!false.is_truthy());
    let tpl = Template::new(Vec::new());
    assert_eq!(true.capacity_hint(&tpl), 5);
    assert_eq!(false.capacity_hint(&tpl), 5);
}

#[test]
fn unsigned_numbers_format_in_decimal() {
    assert_eq!(escaped_of(&0u64), "0");
    assert_eq!(escaped_of(&7u64), "7");
    assert_eq!(escaped_of(&12345u64), "12345");
    assert_eq!(escaped_of(&u64::MAX), "18446744073709551615");
    assert!(!0u64.is_truthy());
    assert!(12345u64.is_truthy());
}

#[test]
fn signed_numbers_format_in_decimal() {
    assert_eq!(escaped_of(&-42i64), "-42");
    assert_eq!(escaped_of(&42i64), "42");
    assert_eq!(escaped_of(&i64::MIN), "-9223372036854775808");
    assert_eq!(escaped_of(&i64::MAX), "9223372036854775807");
    assert!(!0i64.is_truthy());
    assert!((-1i64).is_truthy());
}

#[test]
fn absent_optional_is_falsy_everywhere() {
    let n: Option<String> = None;
    let body = vec![Node::text("B".to_string())];
    assert!(!n.is_truthy());
    assert_eq!(escaped_of(&n), "");
    let mut enc = Encoder::new();
    n.render_unescaped(&mut enc).unwrap();
    n.render_cmark(&mut enc).unwrap();
    assert_eq!(enc.into_string(), "");
    assert_eq!(section_of(&n, &body), "");
    assert_eq!(inverse_of(&n, &body), "B");
    let tpl = Template::new(Vec::new());
    assert_eq!(n.capacity_hint(&tpl), 0);
}

#[test]
fn present_optional_acts_as_inner_value() {
    let s = Some("h<i".to_string());
    let body = vec![Node::text("B".to_string())];
    assert!(s.is_truthy());
    assert_eq!(escaped_of(&s), "h&lt;i");
    assert_eq!(escaped_of(&s), escaped_of(&"h<i".to_string()));
    assert_eq!(section_of(&s, &body), "B");
    assert_eq!(inverse_of(&s, &body), "");
}

#[test]
fn fallible_values_squash_to_presence() {
    let ok: Result<String, i64> = Ok("x".to_string());
    let err: Result<String, i64> = Err(17);
    let body = vec![Node::text("B".to_string())];
    assert!(ok.is_truthy());
    assert!(!err.is_truthy());
    assert_eq!(escaped_of(&ok), "x");
    assert_eq!(escaped_of(&err), "");
    assert_eq!(section_of(&ok, &body), "B");
    assert_eq!(section_of(&err, &body), "");
    assert_eq!(inverse_of(&err, &body), "B");
}

#[test]
fn markup_conversion_writes_final_markup() {
    let s = "*hi*".to_string();
    let mut enc = Encoder::new();
    s.render_cmark(&mut enc).unwrap();
    assert_eq!(enc.into_string(), "<p><em>hi</em></p>\n");
}

#[test]
fn field_hash_is_stable() {
    let a = field_hash("name");
    let b = field_hash("name");
    assert_eq!(a, b);
    assert_ne!(field_hash("a"), field_hash("b"));
    assert_eq!(field_hash(""), field_hash(""));
}

#[test]
fn scalar_section_renders_body_against_itself() {
    let body = vec![
        Node::text("t".to_string()),
        Node::escaped("field"),
        Node::section("inner", vec![Node::text("deep".to_string())]),
    ];
    assert_eq!(section_of(&"x".to_string(), &body), "t");
    assert_eq!(section_of(&true, &body), "t");
    assert_eq!(section_of(&5u64, &body), "t");
}

#[test]
fn borrowed_str_matches_owned_string() {
    let s: &str = "a<b";
    assert_eq!(escaped_of(&s), "a&lt;b");
    assert!(s.is_truthy());
    let e: &str = "";
    assert!(!e.is_truthy());
    let tpl = Template::new(Vec::new());
    assert_eq!(s.capacity_hint(&tpl), 3);
    let mut enc = Encoder::new();
    s.render_unescaped(&mut enc).unwrap();
    assert_eq!(enc.into_string(), "a<b");
}

#[test]
fn borrowed_slice_renders_like_a_vec() {
    let items = vec!["x".to_string(), "y".to_string()];
    let slice: &[String] = &items;
    let body = vec![Node::text("e".to_string())];
    assert_eq!(section_of(&slice, &body), "ee");
    assert!(slice.is_truthy());
    let empty: &[String] = &[];
    assert!(!empty.is_truthy());
    assert_eq!(section_of(&empty, &body), "");
    assert_eq!(inverse_of(&empty, &body), "e");
}

#[test]
fn every_integer_width_formats() {
    assert_eq!(escaped_of(&200u8), "200");
    assert_eq!(escaped_of(&65535u16), "65535");
    assert_eq!(escaped_of(&70000u32), "70000");
    assert_eq!(escaped_of(&3usize), "3");
    assert_eq!(escaped_of(&u128::MAX), "340282366920938463463374607431768211455");
    assert_eq!(escaped_of(&-128i8), "-128");
    assert_eq!(escaped_of(&-32768i16), "-32768");
    assert_eq!(escaped_of(&-1i32), "-1");
    assert_eq!(escaped_of(&-9isize), "-9");
    assert_eq!(escaped_of(&i128::MIN), "-170141183460469231731687303715884105728");
    assert!(!0u8.is_truthy());
    assert!(1i128.is_truthy());
}

#[test]
fn non_text_markup_falls_back_to_escaped() {
    let mut enc = Encoder::new();
    true.render_cmark(&mut enc).unwrap();
    7u64.render_cmark(&mut enc).unwrap();
    assert_eq!(enc.into_string(), "true7");
}

#[test]
fn optional_capacity_hint_delegates() {
    let tpl = Template::new(Vec::new());
    assert_eq!(Some("abcd".to_string()).capacity_hint(&tpl), 4);
    assert_eq!(Some(3u64).capacity_hint(&tpl), 5);
    let ok: Result<String, u8> = Ok("ab".to_string());
    assert_eq!(ok.capacity_hint(&tpl), 2);
    let err: Result<String, u8> = Err(1);
    assert_eq!(err.capacity_hint(&tpl), 0);
}
