//! The laws the rendering semantics obey, stated and proved once over the
//! ghost model, independently of any one adapter.

use vstd::prelude::*;
use crate::content::{Cv, truthy, esc_out, unesc_out, cmark_out, hint_of, lookup, nodes_out,
    sec_out, inv_out, field_esc_out, field_unesc_out, field_sec_out, field_inv_out};
use crate::encoder::{escape, esc_char};
use crate::template::NodeV;

verus! {

broadcast use Seq::add_empty_right, Seq::add_empty_left;

/// Escaped rendering of a text leaves no markup-significant character in
/// the output: no `<`, `>` or `"` at all, and every `&` was written by the
/// escaper itself as the start of an entity.  Unescaped rendering of the
/// same text is the text, unchanged.
pub proof fn lemma_escaping_is_safe(text: Seq<char>)
    ensures
        forall|i: int|
            0 <= i < escape(text).len() ==> escape(text)[i] != '<' && escape(text)[i] != '>'
                && escape(text)[i] != '"',
        unesc_out(Cv::Str { text }) == text,
    decreases text,
{
    if text.len() != 0 {
        lemma_escaping_is_safe(text.drop_last());
        assert forall|i: int| 0 <= i < escape(text).len() implies escape(text)[i] != '<' && escape(
            text,
        )[i] != '>' && escape(text)[i] != '"' by {
            if i >= escape(text.drop_last()).len() {
                assert(escape(text)[i] == esc_char(text.last())[i - escape(
                    text.drop_last(),
                ).len()]);
            }
        }
    }
}

/// At position `i`, `t` carries one of the four entities the escaper writes.
pub open spec fn amp_entity_at(t: Seq<char>, i: int) -> bool {
    ||| (i + 4 <= t.len() && (t.subrange(i, i + 4) == seq!['&', 'l', 't', ';'] || t.subrange(
        i,
        i + 4,
    ) == seq!['&', 'g', 't', ';']))
    ||| (i + 5 <= t.len() && t.subrange(i, i + 5) == seq!['&', 'a', 'm', 'p', ';'])
    ||| (i + 6 <= t.len() && t.subrange(i, i + 6) == seq!['&', 'q', 'u', 'o', 't', ';'])
}

/// No `&` of the input survives unescaped: every `&` in escaped output was
/// written by the escaper itself, as the first character of an entity.
pub proof fn lemma_escape_amp_is_entity(text: Seq<char>)
    ensures
        forall|i: int|
            0 <= i < escape(text).len() && escape(text)[i] == '&' ==> amp_entity_at(
                escape(text),
                i,
            ),
    decreases text,
{
    if text.len() != 0 {
        lemma_escape_amp_is_entity(text.drop_last());
        let e = escape(text.drop_last());
        let c = esc_char(text.last());
        let t = escape(text);
        assert(t == e + c);
        assert forall|i: int| 0 <= i < t.len() && t[i] == '&' implies amp_entity_at(t, i) by {
            if i < e.len() {
                assert(e[i] == t[i]);
                assert(amp_entity_at(e, i));
                if i + 4 <= e.len() && e.subrange(i, i + 4) == seq!['&', 'l', 't', ';'] {
                    assert(t.subrange(i, i + 4) =~= e.subrange(i, i + 4));
                } else if i + 4 <= e.len() && e.subrange(i, i + 4) == seq!['&', 'g', 't', ';'] {
                    assert(t.subrange(i, i + 4) =~= e.subrange(i, i + 4));
                } else if i + 5 <= e.len() && e.subrange(i, i + 5) == seq![
                    '&',
                    'a',
                    'm',
                    'p',
                    ';',
                ] {
                    assert(t.subrange(i, i + 5) =~= e.subrange(i, i + 5));
                } else {
                    assert(t.subrange(i, i + 6) =~= e.subrange(i, i + 6));
                }
            } else {
                assert(c[i - e.len()] == t[i]);
                if text.last() == '<' {
                    assert(i == e.len());
                    assert(t.subrange(i, i + 4) =~= seq!['&', 'l', 't', ';']);
                } else if text.last() == '>' {
                    assert(i == e.len());
                    assert(t.subrange(i, i + 4) =~= seq!['&', 'g', 't', ';']);
                } else if text.last() == '&' {
                    assert(i == e.len());
                    assert(t.subrange(i, i + 5) =~= seq!['&', 'a', 'm', 'p', ';']);
                } else if text.last() == '"' {
                    assert(i == e.len());
                    assert(t.subrange(i, i + 6) =~= seq!['&', 'q', 'u', 'o', 't', ';']);
                } else {
                    assert(c =~= seq![text.last()]);
                    assert(false);
                }
            }
        }
    }
}

/// Exactly one of the two section modes runs a body: a value that is not
/// truthy writes nothing as a plain section, and a truthy one writes
/// nothing as an inverse section, whatever the body.
pub proof fn lemma_section_inverse_exclusive(m: Cv, ns: Seq<NodeV>)
    ensures
        !truthy(m) ==> sec_out(m, ns) == Seq::<char>::empty(),
        truthy(m) ==> inv_out(m, ns) == Seq::<char>::empty(),
{
}

/// For a value that keeps the default section behaviour — anything but a
/// sequence or an optional — truthiness alone decides, and exactly one mode
/// runs the body, exactly once, against the value itself.  A sequence runs
/// a plain section once per element and a present optional once against its
/// inner value, so for those two shapes only the exclusivity above holds as
/// stated.
pub proof fn lemma_default_section_by_truthiness(m: Cv, ns: Seq<NodeV>)
    requires
        !(m is List),
        !(m is Opt),
    ensures
        truthy(m) ==> sec_out(m, ns) == nodes_out(m, ns) && inv_out(m, ns) == Seq::<
            char,
        >::empty(),
        !truthy(m) ==> sec_out(m, ns) == Seq::<char>::empty() && inv_out(m, ns) == nodes_out(
            m,
            ns,
        ),
{
}

/// A sequence renders a section body once per element, in order: the empty
/// sequence writes nothing, and appending an element appends exactly that
/// element's body output.
pub proof fn lemma_list_section_in_order(items: Seq<Cv>, m: Cv, ns: Seq<NodeV>)
    ensures
        sec_out(Cv::List { items: Seq::empty() }, ns) == Seq::<char>::empty(),
        sec_out(Cv::List { items: items.push(m) }, ns) == sec_out(Cv::List { items }, ns)
            + nodes_out(m, ns),
{
    assert(Seq::<Cv>::empty().len() == 0);
    assert(items.push(m).drop_last() =~= items);
    assert(items.push(m).last() == m);
}

/// An optional holding no value is not truthy and behaves so under every
/// operation: the scalar renderings and the plain section write nothing,
/// the capacity hint is zero, and the inverse section runs its body once
/// against the absent value itself.
pub proof fn lemma_absent_optional(ns: Seq<NodeV>)
    ensures
        !truthy(Cv::Opt { inner: None }),
        esc_out(Cv::Opt { inner: None }) == Seq::<char>::empty(),
        unesc_out(Cv::Opt { inner: None }) == Seq::<char>::empty(),
        cmark_out(Cv::Opt { inner: None }) == Seq::<char>::empty(),
        hint_of(Cv::Opt { inner: None }) == 0,
        sec_out(Cv::Opt { inner: None }, ns) == Seq::<char>::empty(),
        inv_out(Cv::Opt { inner: None }, ns) == nodes_out(Cv::Opt { inner: None }, ns),
{
}

/// An optional holding a value is truthy, renders as a scalar exactly as
/// the inner value does, and runs a plain section body exactly once, with
/// the inner value on top.
pub proof fn lemma_present_optional(m: Cv, ns: Seq<NodeV>)
    ensures
        truthy(Cv::Opt { inner: Some(Box::new(m)) }),
        esc_out(Cv::Opt { inner: Some(Box::new(m)) }) == esc_out(m),
        unesc_out(Cv::Opt { inner: Some(Box::new(m)) }) == unesc_out(m),
        hint_of(Cv::Opt { inner: Some(Box::new(m)) }) == hint_of(m),
        sec_out(Cv::Opt { inner: Some(Box::new(m)) }, ns) == nodes_out(m, ns),
        inv_out(Cv::Opt { inner: Some(Box::new(m)) }, ns) == Seq::<char>::empty(),
{
}

/// A field miss is a defined, silent outcome: when no entry bears the name
/// — and on any value that has no fields at all — every one of the four
/// field operations writes nothing, and none of them can fail by contract.
pub proof fn lemma_absent_field_is_silent(m: Cv, h: u64, name: Seq<char>, ns: Seq<NodeV>)
    requires
        match m {
            Cv::Rec { fields } => lookup(fields, name) is None,
            _ => true,
        },
    ensures
        field_esc_out(m, h, name) == Seq::<char>::empty(),
        field_unesc_out(m, h, name) == Seq::<char>::empty(),
        field_sec_out(m, h, name, ns) == Seq::<char>::empty(),
        field_inv_out(m, h, name, ns) == Seq::<char>::empty(),
{
}

/// The hash a tag carries is an optimisation handle only: a field lookup's
/// result never depends on it.
pub proof fn lemma_hash_is_advisory(m: Cv, h1: u64, h2: u64, name: Seq<char>, ns: Seq<NodeV>)
    ensures
        field_esc_out(m, h1, name) == field_esc_out(m, h2, name),
        field_unesc_out(m, h1, name) == field_unesc_out(m, h2, name),
        field_sec_out(m, h1, name, ns) == field_sec_out(m, h2, name, ns),
        field_inv_out(m, h1, name, ns) == field_inv_out(m, h2, name, ns),
{
}

} // verus!
