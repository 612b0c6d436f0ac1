//! The content capability protocol and its built-in adapters.
//!
//! A content value is any data a template can draw on.  Its whole observable
//! behaviour is captured by a ghost model, `Cv`; every rendering operation
//! promises to write exactly what the model prescribes, so the protocol's
//! semantics live in a handful of spec functions over `Cv` and the compiled
//! tree, not in any one adapter.

use vstd::prelude::*;
use crate::encoder::{escape, int_str, cmark_of, Encoder, EncodeError};
use crate::template::{Node, NodeV, Section, Template, nodes_size, lemma_nodes_view};

verus! {

broadcast use Seq::add_empty_right, Seq::add_empty_left, lemma_nodes_view;

/// The ghost model of a content value: what rendering can observe of it.
pub enum Cv {
    /// A text scalar.
    Str { text: Seq<char> },
    /// A boolean scalar.
    Bool { b: bool },
    /// An integer scalar.
    Int { i: int },
    /// An optional or fallible value: present with an inner model, or absent.
    Opt { inner: Option<Box<Cv>> },
    /// A sequence of content values.
    List { items: Seq<Cv> },
    /// A string-keyed record; a name may repeat, the first entry wins.
    Rec { fields: Seq<(Seq<char>, Cv)> },
}

/// Whether a plain section of this value runs its body.
pub open spec fn truthy(m: Cv) -> bool {
    match m {
        Cv::Str { text } => text.len() != 0,
        Cv::Bool { b } => b,
        Cv::Int { i } => i != 0,
        Cv::Opt { inner } => inner is Some,
        Cv::List { items } => items.len() != 0,
        Cv::Rec { fields } => fields.len() != 0,
    }
}

/// What escaped variable rendering writes.
pub open spec fn esc_out(m: Cv) -> Seq<char>
    decreases m,
{
    match m {
        Cv::Str { text } => escape(text),
        Cv::Bool { b } => if b {
            seq!['t', 'r', 'u', 'e']
        } else {
            seq!['f', 'a', 'l', 's', 'e']
        },
        Cv::Int { i } => int_str(i),
        Cv::Opt { inner } => match inner {
            Some(v) => esc_out(*v),
            None => Seq::empty(),
        },
        Cv::List { .. } => Seq::empty(),
        Cv::Rec { .. } => Seq::empty(),
    }
}

/// What unescaped variable rendering writes.
pub open spec fn unesc_out(m: Cv) -> Seq<char>
    decreases m,
{
    match m {
        Cv::Str { text } => text,
        Cv::Opt { inner } => match inner {
            Some(v) => unesc_out(*v),
            None => Seq::empty(),
        },
        _ => esc_out(m),
    }
}

/// What markup-converting rendering writes: texts go through the converter,
/// everything else falls back to its escaped rendering.
pub open spec fn cmark_out(m: Cv) -> Seq<char> {
    match m {
        Cv::Str { text } => cmark_of(text),
        _ => esc_out(m),
    }
}

/// The advisory output-size estimate of a value.
pub open spec fn hint_of(m: Cv) -> nat
    decreases m,
{
    match m {
        Cv::Str { text } => vstd::utf8::encode_utf8(text).len(),
        Cv::Bool { .. } => 5,
        Cv::Int { .. } => 5,
        Cv::Opt { inner } => match inner {
            Some(v) => hint_of(*v),
            None => 0,
        },
        Cv::List { .. } => 0,
        Cv::Rec { .. } => 0,
    }
}

/// The first entry of `fields` named `name`, if any.
pub open spec fn lookup(fields: Seq<(Seq<char>, Cv)>, name: Seq<char>) -> Option<Cv>
    decreases fields.len(),
{
    if fields.len() == 0 {
        None
    } else if fields[0].0 == name {
        Some(fields[0].1)
    } else {
        lookup(fields.drop_first(), name)
    }
}

/// What a whole section body writes when rendered against `m`.
pub open spec fn nodes_out(m: Cv, ns: Seq<NodeV>) -> Seq<char>
    decreases ns, 1int, m,
{
    if ns.len() == 0 {
        Seq::empty()
    } else {
        nodes_out(m, ns.drop_last()) + node_out(m, ns.last())
    }
}

/// What one node writes when rendered against `m`.
pub open spec fn node_out(m: Cv, n: NodeV) -> Seq<char>
    decreases n, 0int, m,
{
    match n {
        NodeV::Text(s) => s,
        NodeV::Escaped(h, name) => field_esc_out(m, h, name),
        NodeV::Unescaped(h, name) => field_unesc_out(m, h, name),
        NodeV::Section(h, name, cs) => field_sec_out(m, h, name, cs),
        NodeV::Inverse(h, name, cs) => field_inv_out(m, h, name, cs),
    }
}

/// What an escaped field lookup writes: records render the named value,
/// a miss and every other shape write nothing.
pub open spec fn field_esc_out(m: Cv, h: u64, name: Seq<char>) -> Seq<char> {
    match m {
        Cv::Rec { fields } => match lookup(fields, name) {
            Some(v) => esc_out(v),
            None => Seq::empty(),
        },
        _ => Seq::empty(),
    }
}

/// What an unescaped field lookup writes.
pub open spec fn field_unesc_out(m: Cv, h: u64, name: Seq<char>) -> Seq<char> {
    match m {
        Cv::Rec { fields } => match lookup(fields, name) {
            Some(v) => unesc_out(v),
            None => Seq::empty(),
        },
        _ => Seq::empty(),
    }
}

/// What a field rendered as a plain section writes.
pub open spec fn field_sec_out(m: Cv, h: u64, name: Seq<char>, ns: Seq<NodeV>) -> Seq<char>
    decreases ns, 3int, m,
{
    match m {
        Cv::Rec { fields } => match lookup(fields, name) {
            Some(v) => sec_out(v, ns),
            None => Seq::empty(),
        },
        _ => Seq::empty(),
    }
}

/// What a field rendered as an inverse section writes.
pub open spec fn field_inv_out(m: Cv, h: u64, name: Seq<char>, ns: Seq<NodeV>) -> Seq<char>
    decreases ns, 3int, m,
{
    match m {
        Cv::Rec { fields } => match lookup(fields, name) {
            Some(v) => inv_out(v, ns),
            None => Seq::empty(),
        },
        _ => Seq::empty(),
    }
}

/// What rendering a plain section of `m` writes: lists run the body once per
/// element, a present optional runs it once with the inner value, every
/// other value runs it once with itself when truthy and not at all when not.
pub open spec fn sec_out(m: Cv, ns: Seq<NodeV>) -> Seq<char>
    decreases ns, 2int, m,
{
    match m {
        Cv::List { items } => list_sec_out(items, ns),
        Cv::Opt { inner } => match inner {
            Some(v) => nodes_out(*v, ns),
            None => Seq::empty(),
        },
        _ => if truthy(m) {
            nodes_out(m, ns)
        } else {
            Seq::empty()
        },
    }
}

/// What rendering an inverse section of `m` writes: the body once, against
/// `m` itself, exactly when `m` is not truthy.
pub open spec fn inv_out(m: Cv, ns: Seq<NodeV>) -> Seq<char>
    decreases ns, 2int, m,
{
    if !truthy(m) {
        nodes_out(m, ns)
    } else {
        Seq::empty()
    }
}

/// The concatenation of the body's output for each list element, in order.
pub open spec fn list_sec_out(items: Seq<Cv>, ns: Seq<NodeV>) -> Seq<char>
    decreases ns, 2int, items,
{
    if items.len() == 0 {
        Seq::empty()
    } else {
        list_sec_out(items.drop_last(), ns) + nodes_out(items.last(), ns)
    }
}

/// What a body writes against a value with no fields: its texts, in order.
pub open spec fn inert_out(ns: Seq<NodeV>) -> Seq<char>
    decreases ns,
{
    if ns.len() == 0 {
        Seq::empty()
    } else {
        inert_out(ns.drop_last()) + (match ns.last() {
            NodeV::Text(s) => s,
            _ => Seq::empty(),
        })
    }
}

/// Against any value that is not a record, a body writes only its texts:
/// every tag resolves to a field the value does not have.
pub proof fn lemma_nodes_out_inert(m: Cv, ns: Seq<NodeV>)
    requires
        !(m is Rec),
    ensures
        nodes_out(m, ns) == inert_out(ns),
    decreases ns,
{
    if ns.len() != 0 {
        lemma_nodes_out_inert(m, ns.drop_last());
        let last = ns.last();
        match last {
            NodeV::Text(s) => {
                assert(node_out(m, last) == s);
            },
            NodeV::Escaped(h, nm) => {
                assert(node_out(m, last) =~= Seq::<char>::empty());
            },
            NodeV::Unescaped(h, nm) => {
                assert(node_out(m, last) =~= Seq::<char>::empty());
            },
            NodeV::Section(h, nm, cs) => {
                assert(node_out(m, last) =~= Seq::<char>::empty());
            },
            NodeV::Inverse(h, nm, cs) => {
                assert(node_out(m, last) =~= Seq::<char>::empty());
            },
        }
        assert(nodes_out(m, ns) =~= inert_out(ns));
    }
}

/// Renders a body against a value with no fields, writing only its texts.
fn render_inert(section: Section<'_>, enc: &mut Encoder) -> (r: Result<(), EncodeError>)
    ensures
        r is Ok,
        final(enc)@ == old(enc)@ + inert_out(section@),
{
    let ghost vs = section@;
    let mut i: usize = 0;
    let n: usize = section.len();
    while i < n
        invariant
            n == vs.len(),
            0 <= i <= n,
            vs == section@,
            enc@ == old(enc)@ + inert_out(vs.take(i as int)),
        decreases n - i,
    {
        proof {
            assert(vs.take(i + 1).drop_last() =~= vs.take(i as int));
            assert(vs.take(i + 1).last() == vs[i as int]);
        }
        match section.node(i) {
            Node::Text(s) => {
                enc.write_unescaped(s.as_str())?;
            },
            _ => {},
        }
        i = i + 1;
    }
    proof {
        assert(vs.take(n as int) =~= vs);
    }
    Ok(())
}

/// The capability protocol every renderable value implements.
///
/// Each operation writes to the encoder exactly what the value's ghost model
/// prescribes, and propagates only the encoder's own error.
pub trait Content: Sized {
    /// The ghost model this value renders as.
    spec fn model(&self) -> Cv;

    /// Whether a plain section of this value runs its body.
    fn is_truthy(&self) -> (b: bool)
        ensures
            b == truthy(self.model()),
    ;

    /// An advisory estimate of the bytes this value contributes when
    /// rendered against `tpl`; never affects what is written.
    fn capacity_hint(&self, tpl: &Template) -> (n: usize)
        ensures
            n as nat == hint_of(self.model()),
        decreases self,
    ;

    /// Renders this value as an escaped variable.
    fn render_escaped(&self, enc: &mut Encoder) -> (r: Result<(), EncodeError>)
        ensures
            r is Ok,
            final(enc)@ == old(enc)@ + esc_out(self.model()),
        decreases self,
    ;

    /// Renders this value as a raw variable, with no escaping at all.
    fn render_unescaped(&self, enc: &mut Encoder) -> (r: Result<(), EncodeError>)
        ensures
            r is Ok,
            final(enc)@ == old(enc)@ + unesc_out(self.model()),
        decreases self,
    ;

    /// Renders this value through the lightweight-markup conversion.
    fn render_cmark(&self, enc: &mut Encoder) -> (r: Result<(), EncodeError>)
        ensures
            r is Ok,
            final(enc)@ == old(enc)@ + cmark_out(self.model()),
        decreases self,
    ;

    /// Renders a plain section with this value.
    fn render_section(&self, section: Section<'_>, enc: &mut Encoder) -> (r: Result<
        (),
        EncodeError,
    >)
        ensures
            r is Ok,
            final(enc)@ == old(enc)@ + sec_out(self.model(), section@),
        decreases 10 * nodes_size(section@) + 2,
    ;

    /// Renders an inverse section with this value: the body runs exactly
    /// when `is_truthy` is false.
    fn render_inverse(&self, section: Section<'_>, enc: &mut Encoder) -> (r: Result<
        (),
        EncodeError,
    >)
        ensures
            r is Ok,
            final(enc)@ == old(enc)@ + inv_out(self.model(), section@),
        decreases 10 * nodes_size(section@) + 2,
    ;

    /// Renders a field of this value, escaped; an absent field writes nothing.
    fn render_field_escaped(&self, hash: u64, name: &str, enc: &mut Encoder) -> (r: Result<
        (),
        EncodeError,
    >)
        ensures
            r is Ok,
            final(enc)@ == old(enc)@ + field_esc_out(self.model(), hash, name@),
    ;

    /// Renders a field of this value, unescaped; an absent field writes nothing.
    fn render_field_unescaped(&self, hash: u64, name: &str, enc: &mut Encoder) -> (r: Result<
        (),
        EncodeError,
    >)
        ensures
            r is Ok,
            final(enc)@ == old(enc)@ + field_unesc_out(self.model(), hash, name@),
    ;

    /// Renders a field of this value as a plain section.
    fn render_field_section(
        &self,
        hash: u64,
        name: &str,
        section: Section<'_>,
        enc: &mut Encoder,
    ) -> (r: Result<(), EncodeError>)
        ensures
            r is Ok,
            final(enc)@ == old(enc)@ + field_sec_out(self.model(), hash, name@, section@),
        decreases 10 * nodes_size(section@) + 3,
    ;

    /// Renders a field of this value as an inverse section.
    fn render_field_inverse(
        &self,
        hash: u64,
        name: &str,
        section: Section<'_>,
        enc: &mut Encoder,
    ) -> (r: Result<(), EncodeError>)
        ensures
            r is Ok,
            final(enc)@ == old(enc)@ + field_inv_out(self.model(), hash, name@, section@),
        decreases 10 * nodes_size(section@) + 3,
    ;

    /// Renders a section body node by node with this value on top: every
    /// tag resolves against this value's fields.
    fn render_body(&self, section: Section<'_>, enc: &mut Encoder) -> (r: Result<
        (),
        EncodeError,
    >)
        ensures
            r is Ok,
            final(enc)@ == old(enc)@ + nodes_out(self.model(), section@),
        decreases 10 * nodes_size(section@) + 1,
    ;
}

impl<'s> Section<'s> {
    /// Renders this section's body once, against `content`.
    pub fn render_once<C: Content>(&self, content: &C, enc: &mut Encoder) -> (r: Result<
        (),
        EncodeError,
    >)
        ensures
            r is Ok,
            final(enc)@ == old(enc)@ + nodes_out(content.model(), self@),
    {
        content.render_body(*self, enc)
    }
}

impl Template {
    /// Renders the whole template against a root content value, into a
    /// buffer pre-sized by the root's capacity hint.
    pub fn render<C: Content>(&self, content: &C) -> (r: Result<String, EncodeError>)
        ensures
            r matches Ok(s) && s@ == nodes_out(content.model(), self@),
    {
        let hint = content.capacity_hint(self);
        let mut enc = Encoder::with_capacity(hint);
        content.render_body(self.section(), &mut enc)?;
        Ok(enc.into_string())
    }
}

impl Content for String {
    open spec fn model(&self) -> Cv {
        Cv::Str { text: self@ }
    }

    fn is_truthy(&self) -> (b: bool) {
        !self.as_str().is_empty()
    }

    fn capacity_hint(&self, tpl: &Template) -> (n: usize) {
        self.as_str().as_bytes().len()
    }

    fn render_escaped(&self, enc: &mut Encoder) -> (r: Result<(), EncodeError>) {
        enc.write_escaped(self.as_str())
    }

    fn render_unescaped(&self, enc: &mut Encoder) -> (r: Result<(), EncodeError>) {
        enc.write_unescaped(self.as_str())
    }

    fn render_cmark(&self, enc: &mut Encoder) -> (r: Result<(), EncodeError>) {
        enc.write_markup(self.as_str())
    }

    fn render_section(&self, section: Section<'_>, enc: &mut Encoder) -> (r: Result<
        (),
        EncodeError,
    >) {
        if !self.as_str().is_empty() {
            self.render_body(section, enc)
        } else {
            Ok(())
        }
    }

    fn render_inverse(&self, section: Section<'_>, enc: &mut Encoder) -> (r: Result<
        (),
        EncodeError,
    >) {
        if self.as_str().is_empty() {
            self.render_body(section, enc)
        } else {
            Ok(())
        }
    }

    fn render_field_escaped(&self, hash: u64, name: &str, enc: &mut Encoder) -> (r: Result<
        (),
        EncodeError,
    >) {
        Ok(())
    }

    fn render_field_unescaped(&self, hash: u64, name: &str, enc: &mut Encoder) -> (r: Result<
        (),
        EncodeError,
    >) {
        Ok(())
    }

    fn render_field_section(
        &self,
        hash: u64,
        name: &str,
        section: Section<'_>,
        enc: &mut Encoder,
    ) -> (r: Result<(), EncodeError>) {
        Ok(())
    }

    fn render_field_inverse(
        &self,
        hash: u64,
        name: &str,
        section: Section<'_>,
        enc: &mut Encoder,
    ) -> (r: Result<(), EncodeError>) {
        Ok(())
    }

    fn render_body(&self, section: Section<'_>, enc: &mut Encoder) -> (r: Result<
        (),
        EncodeError,
    >) {
        proof {
            lemma_nodes_out_inert(self.model(), section@);
        }
        render_inert(section, enc)
    }
}

impl Content for bool {
    open spec fn model(&self) -> Cv {
        Cv::Bool { b: *self }
    }

    fn is_truthy(&self) -> (b: bool) {
        *self
    }

    fn capacity_hint(&self, tpl: &Template) -> (n: usize) {
        5
    }

    fn render_escaped(&self, enc: &mut Encoder) -> (r: Result<(), EncodeError>) {
        proof {
            reveal_strlit("true");
            reveal_strlit("false");
            assert("true"@ =~= seq!['t', 'r', 'u', 'e']);
            assert("false"@ =~= seq!['f', 'a', 'l', 's', 'e']);
        }
        enc.write_unescaped(if *self { "true" } else { "false" })
    }

    fn render_unescaped(&self, enc: &mut Encoder) -> (r: Result<(), EncodeError>) {
        proof {
            reveal_strlit("true");
            reveal_strlit("false");
            assert("true"@ =~= seq!['t', 'r', 'u', 'e']);
            assert("false"@ =~= seq!['f', 'a', 'l', 's', 'e']);
        }
        enc.write_unescaped(if *self { "true" } else { "false" })
    }

    fn render_cmark(&self, enc: &mut Encoder) -> (r: Result<(), EncodeError>) {
        proof {
            reveal_strlit("true");
            reveal_strlit("false");
            assert("true"@ =~= seq!['t', 'r', 'u', 'e']);
            assert("false"@ =~= seq!['f', 'a', 'l', 's', 'e']);
        }
        enc.write_unescaped(if *self { "true" } else { "false" })
    }

    fn render_section(&self, section: Section<'_>, enc: &mut Encoder) -> (r: Result<
        (),
        EncodeError,
    >) {
        if *self {
            self.render_body(section, enc)
        } else {
            Ok(())
        }
    }

    fn render_inverse(&self, section: Section<'_>, enc: &mut Encoder) -> (r: Result<
        (),
        EncodeError,
    >) {
        if !*self {
            self.render_body(section, enc)
        } else {
            Ok(())
        }
    }

    fn render_field_escaped(&self, hash: u64, name: &str, enc: &mut Encoder) -> (r: Result<
        (),
        EncodeError,
    >) {
        Ok(())
    }

    fn render_field_unescaped(&self, hash: u64, name: &str, enc: &mut Encoder) -> (r: Result<
        (),
        EncodeError,
    >) {
        Ok(())
    }

    fn render_field_section(
        &self,
        hash: u64,
        name: &str,
        section: Section<'_>,
        enc: &mut Encoder,
    ) -> (r: Result<(), EncodeError>) {
        Ok(())
    }

    fn render_field_inverse(
        &self,
        hash: u64,
        name: &str,
        section: Section<'_>,
        enc: &mut Encoder,
    ) -> (r: Result<(), EncodeError>) {
        Ok(())
    }

    fn render_body(&self, section: Section<'_>, enc: &mut Encoder) -> (r: Result<
        (),
        EncodeError,
    >) {
        proof {
            lemma_nodes_out_inert(self.model(), section@);
        }
        render_inert(section, enc)
    }
}

impl Content for u64 {
    open spec fn model(&self) -> Cv {
        Cv::Int { i: *self as int }
    }

    fn is_truthy(&self) -> (b: bool) {
        *self != 0
    }

    fn capacity_hint(&self, tpl: &Template) -> (n: usize) {
        5
    }

    fn render_escaped(&self, enc: &mut Encoder) -> (r: Result<(), EncodeError>) {
        enc.format_u128(*self as u128)
    }

    fn render_unescaped(&self, enc: &mut Encoder) -> (r: Result<(), EncodeError>) {
        enc.format_u128(*self as u128)
    }

    fn render_cmark(&self, enc: &mut Encoder) -> (r: Result<(), EncodeError>) {
        enc.format_u128(*self as u128)
    }

    fn render_section(&self, section: Section<'_>, enc: &mut Encoder) -> (r: Result<
        (),
        EncodeError,
    >) {
        if *self != 0 {
            self.render_body(section, enc)
        } else {
            Ok(())
        }
    }

    fn render_inverse(&self, section: Section<'_>, enc: &mut Encoder) -> (r: Result<
        (),
        EncodeError,
    >) {
        if *self == 0 {
            self.render_body(section, enc)
        } else {
            Ok(())
        }
    }

    fn render_field_escaped(&self, hash: u64, name: &str, enc: &mut Encoder) -> (r: Result<
        (),
        EncodeError,
    >) {
        Ok(())
    }

    fn render_field_unescaped(&self, hash: u64, name: &str, enc: &mut Encoder) -> (r: Result<
        (),
        EncodeError,
    >) {
        Ok(())
    }

    fn render_field_section(
        &self,
        hash: u64,
        name: &str,
        section: Section<'_>,
        enc: &mut Encoder,
    ) -> (r: Result<(), EncodeError>) {
        Ok(())
    }

    fn render_field_inverse(
        &self,
        hash: u64,
        name: &str,
        section: Section<'_>,
        enc: &mut Encoder,
    ) -> (r: Result<(), EncodeError>) {
        Ok(())
    }

    fn render_body(&self, section: Section<'_>, enc: &mut Encoder) -> (r: Result<
        (),
        EncodeError,
    >) {
        proof {
            lemma_nodes_out_inert(self.model(), section@);
        }
        render_inert(section, enc)
    }
}

impl Content for i64 {
    open spec fn model(&self) -> Cv {
        Cv::Int { i: *self as int }
    }

    fn is_truthy(&self) -> (b: bool) {
        *self != 0
    }

    fn capacity_hint(&self, tpl: &Template) -> (n: usize) {
        5
    }

    fn render_escaped(&self, enc: &mut Encoder) -> (r: Result<(), EncodeError>) {
        enc.format_i128(*self as i128)
    }

    fn render_unescaped(&self, enc: &mut Encoder) -> (r: Result<(), EncodeError>) {
        enc.format_i128(*self as i128)
    }

    fn render_cmark(&self, enc: &mut Encoder) -> (r: Result<(), EncodeError>) {
        enc.format_i128(*self as i128)
    }

    fn render_section(&self, section: Section<'_>, enc: &mut Encoder) -> (r: Result<
        (),
        EncodeError,
    >) {
        if *self != 0 {
            self.render_body(section, enc)
        } else {
            Ok(())
        }
    }

    fn render_inverse(&self, section: Section<'_>, enc: &mut Encoder) -> (r: Result<
        (),
        EncodeError,
    >) {
        if *self == 0 {
            self.render_body(section, enc)
        } else {
            Ok(())
        }
    }

    fn render_field_escaped(&self, hash: u64, name: &str, enc: &mut Encoder) -> (r: Result<
        (),
        EncodeError,
    >) {
        Ok(())
    }

    fn render_field_unescaped(&self, hash: u64, name: &str, enc: &mut Encoder) -> (r: Result<
        (),
        EncodeError,
    >) {
        Ok(())
    }

    fn render_field_section(
        &self,
        hash: u64,
        name: &str,
        section: Section<'_>,
        enc: &mut Encoder,
    ) -> (r: Result<(), EncodeError>) {
        Ok(())
    }

    fn render_field_inverse(
        &self,
        hash: u64,
        name: &str,
        section: Section<'_>,
        enc: &mut Encoder,
    ) -> (r: Result<(), EncodeError>) {
        Ok(())
    }

    fn render_body(&self, section: Section<'_>, enc: &mut Encoder) -> (r: Result<
        (),
        EncodeError,
    >) {
        proof {
            lemma_nodes_out_inert(self.model(), section@);
        }
        render_inert(section, enc)
    }
}

impl<T: Content> Content for Option<T> {
    open spec fn model(&self) -> Cv {
        Cv::Opt {
            inner: match self {
                Some(v) => Some(Box::new(v.model())),
                None => None,
            },
        }
    }

    fn is_truthy(&self) -> (b: bool) {
        self.is_some()
    }

    fn capacity_hint(&self, tpl: &Template) -> (n: usize) {
        match self {
            Some(v) => v.capacity_hint(tpl),
            None => 0,
        }
    }

    fn render_escaped(&self, enc: &mut Encoder) -> (r: Result<(), EncodeError>) {
        match self {
            Some(v) => v.render_escaped(enc),
            None => Ok(()),
        }
    }

    fn render_unescaped(&self, enc: &mut Encoder) -> (r: Result<(), EncodeError>) {
        match self {
            Some(v) => v.render_unescaped(enc),
            None => Ok(()),
        }
    }

    fn render_cmark(&self, enc: &mut Encoder) -> (r: Result<(), EncodeError>) {
        match self {
            Some(v) => v.render_escaped(enc),
            None => Ok(()),
        }
    }

    fn render_section(&self, section: Section<'_>, enc: &mut Encoder) -> (r: Result<
        (),
        EncodeError,
    >) {
        match self {
            Some(v) => v.render_body(section, enc),
            None => Ok(()),
        }
    }

    fn render_inverse(&self, section: Section<'_>, enc: &mut Encoder) -> (r: Result<
        (),
        EncodeError,
    >) {
        if self.is_some() {
            Ok(())
        } else {
            self.render_body(section, enc)
        }
    }

    fn render_field_escaped(&self, hash: u64, name: &str, enc: &mut Encoder) -> (r: Result<
        (),
        EncodeError,
    >) {
        Ok(())
    }

    fn render_field_unescaped(&self, hash: u64, name: &str, enc: &mut Encoder) -> (r: Result<
        (),
        EncodeError,
    >) {
        Ok(())
    }

    fn render_field_section(
        &self,
        hash: u64,
        name: &str,
        section: Section<'_>,
        enc: &mut Encoder,
    ) -> (r: Result<(), EncodeError>) {
        Ok(())
    }

    fn render_field_inverse(
        &self,
        hash: u64,
        name: &str,
        section: Section<'_>,
        enc: &mut Encoder,
    ) -> (r: Result<(), EncodeError>) {
        Ok(())
    }

    fn render_body(&self, section: Section<'_>, enc: &mut Encoder) -> (r: Result<
        (),
        EncodeError,
    >) {
        proof {
            lemma_nodes_out_inert(self.model(), section@);
        }
        render_inert(section, enc)
    }
}

impl<T: Content, U> Content for Result<T, U> {
    open spec fn model(&self) -> Cv {
        Cv::Opt {
            inner: match self {
                Ok(v) => Some(Box::new(v.model())),
                Err(_) => None,
            },
        }
    }

    fn is_truthy(&self) -> (b: bool) {
        self.is_ok()
    }

    fn capacity_hint(&self, tpl: &Template) -> (n: usize) {
        match self {
            Ok(v) => v.capacity_hint(tpl),
            Err(_) => 0,
        }
    }

    fn render_escaped(&self, enc: &mut Encoder) -> (r: Result<(), EncodeError>) {
        match self {
            Ok(v) => v.render_escaped(enc),
            Err(_) => Ok(()),
        }
    }

    fn render_unescaped(&self, enc: &mut Encoder) -> (r: Result<(), EncodeError>) {
        match self {
            Ok(v) => v.render_unescaped(enc),
            Err(_) => Ok(()),
        }
    }

    fn render_cmark(&self, enc: &mut Encoder) -> (r: Result<(), EncodeError>) {
        match self {
            Ok(v) => v.render_escaped(enc),
            Err(_) => Ok(()),
        }
    }

    fn render_section(&self, section: Section<'_>, enc: &mut Encoder) -> (r: Result<
        (),
        EncodeError,
    >) {
        match self {
            Ok(v) => v.render_body(section, enc),
            Err(_) => Ok(()),
        }
    }

    fn render_inverse(&self, section: Section<'_>, enc: &mut Encoder) -> (r: Result<
        (),
        EncodeError,
    >) {
        if self.is_ok() {
            Ok(())
        } else {
            self.render_body(section, enc)
        }
    }

    fn render_field_escaped(&self, hash: u64, name: &str, enc: &mut Encoder) -> (r: Result<
        (),
        EncodeError,
    >) {
        Ok(())
    }

    fn render_field_unescaped(&self, hash: u64, name: &str, enc: &mut Encoder) -> (r: Result<
        (),
        EncodeError,
    >) {
        Ok(())
    }

    fn render_field_section(
        &self,
        hash: u64,
        name: &str,
        section: Section<'_>,
        enc: &mut Encoder,
    ) -> (r: Result<(), EncodeError>) {
        Ok(())
    }

    fn render_field_inverse(
        &self,
        hash: u64,
        name: &str,
        section: Section<'_>,
        enc: &mut Encoder,
    ) -> (r: Result<(), EncodeError>) {
        Ok(())
    }

    fn render_body(&self, section: Section<'_>, enc: &mut Encoder) -> (r: Result<
        (),
        EncodeError,
    >) {
        proof {
            lemma_nodes_out_inert(self.model(), section@);
        }
        render_inert(section, enc)
    }
}

/// The models of a vector's elements, in order.
pub open spec fn list_view<T: Content>(items: Seq<T>) -> Seq<Cv> {
    Seq::new(items.len(), |i: int| items[i].model())
}

impl<T: Content> Content for Vec<T> {
    open spec fn model(&self) -> Cv {
        Cv::List { items: list_view(self@) }
    }

    fn is_truthy(&self) -> (b: bool) {
        self.len() != 0
    }

    fn capacity_hint(&self, tpl: &Template) -> (n: usize) {
        0
    }

    fn render_escaped(&self, enc: &mut Encoder) -> (r: Result<(), EncodeError>) {
        Ok(())
    }

    fn render_unescaped(&self, enc: &mut Encoder) -> (r: Result<(), EncodeError>) {
        Ok(())
    }

    fn render_cmark(&self, enc: &mut Encoder) -> (r: Result<(), EncodeError>) {
        Ok(())
    }

    fn render_section(&self, section: Section<'_>, enc: &mut Encoder) -> (r: Result<
        (),
        EncodeError,
    >) {
        let ghost ms = list_view(self@);
        let mut i: usize = 0;
        let n: usize = self.len();
        while i < n
            invariant
                n == self@.len(),
                0 <= i <= n,
                ms == list_view(self@),
                enc@ == old(enc)@ + list_sec_out(ms.take(i as int), section@),
            decreases n - i,
        {
            proof {
                assert(ms.take(i + 1).drop_last() =~= ms.take(i as int));
                assert(ms.take(i + 1).last() == ms[i as int]);
            }
            self[i].render_body(section, enc)?;
            i = i + 1;
        }
        proof {
            assert(ms.take(n as int) =~= ms);
        }
        Ok(())
    }

    fn render_inverse(&self, section: Section<'_>, enc: &mut Encoder) -> (r: Result<
        (),
        EncodeError,
    >) {
        if self.len() == 0 {
            self.render_body(section, enc)
        } else {
            Ok(())
        }
    }

    fn render_field_escaped(&self, hash: u64, name: &str, enc: &mut Encoder) -> (r: Result<
        (),
        EncodeError,
    >) {
        Ok(())
    }

    fn render_field_unescaped(&self, hash: u64, name: &str, enc: &mut Encoder) -> (r: Result<
        (),
        EncodeError,
    >) {
        Ok(())
    }

    fn render_field_section(
        &self,
        hash: u64,
        name: &str,
        section: Section<'_>,
        enc: &mut Encoder,
    ) -> (r: Result<(), EncodeError>) {
        Ok(())
    }

    fn render_field_inverse(
        &self,
        hash: u64,
        name: &str,
        section: Section<'_>,
        enc: &mut Encoder,
    ) -> (r: Result<(), EncodeError>) {
        Ok(())
    }

    fn render_body(&self, section: Section<'_>, enc: &mut Encoder) -> (r: Result<
        (),
        EncodeError,
    >) {
        proof {
            lemma_nodes_out_inert(self.model(), section@);
        }
        render_inert(section, enc)
    }
}

impl<'a> Content for &'a str {
    open spec fn model(&self) -> Cv {
        Cv::Str { text: (*self)@ }
    }

    fn is_truthy(&self) -> (b: bool) {
        !(*self).is_empty()
    }

    fn capacity_hint(&self, tpl: &Template) -> (n: usize) {
        (*self).as_bytes().len()
    }

    fn render_escaped(&self, enc: &mut Encoder) -> (r: Result<(), EncodeError>) {
        enc.write_escaped(*self)
    }

    fn render_unescaped(&self, enc: &mut Encoder) -> (r: Result<(), EncodeError>) {
        enc.write_unescaped(*self)
    }

    fn render_cmark(&self, enc: &mut Encoder) -> (r: Result<(), EncodeError>) {
        enc.write_markup(*self)
    }

    fn render_section(&self, section: Section<'_>, enc: &mut Encoder) -> (r: Result<
        (),
        EncodeError,
    >) {
        if !(*self).is_empty() {
            self.render_body(section, enc)
        } else {
            Ok(())
        }
    }

    fn render_inverse(&self, section: Section<'_>, enc: &mut Encoder) -> (r: Result<
        (),
        EncodeError,
    >) {
        if (*self).is_empty() {
            self.render_body(section, enc)
        } else {
            Ok(())
        }
    }

    fn render_field_escaped(&self, hash: u64, name: &str, enc: &mut Encoder) -> (r: Result<
        (),
        EncodeError,
    >) {
        Ok(())
    }

    fn render_field_unescaped(&self, hash: u64, name: &str, enc: &mut Encoder) -> (r: Result<
        (),
        EncodeError,
    >) {
        Ok(())
    }

    fn render_field_section(
        &self,
        hash: u64,
        name: &str,
        section: Section<'_>,
        enc: &mut Encoder,
    ) -> (r: Result<(), EncodeError>) {
        Ok(())
    }

    fn render_field_inverse(
        &self,
        hash: u64,
        name: &str,
        section: Section<'_>,
        enc: &mut Encoder,
    ) -> (r: Result<(), EncodeError>) {
        Ok(())
    }

    fn render_body(&self, section: Section<'_>, enc: &mut Encoder) -> (r: Result<
        (),
        EncodeError,
    >) {
        proof {
            lemma_nodes_out_inert(self.model(), section@);
        }
        render_inert(section, enc)
    }
}

impl<'a, T: Content> Content for &'a [T] {
    open spec fn model(&self) -> Cv {
        Cv::List { items: list_view((*self)@) }
    }

    fn is_truthy(&self) -> (b: bool) {
        self.len() != 0
    }

    fn capacity_hint(&self, tpl: &Template) -> (n: usize) {
        0
    }

    fn render_escaped(&self, enc: &mut Encoder) -> (r: Result<(), EncodeError>) {
        Ok(())
    }

    fn render_unescaped(&self, enc: &mut Encoder) -> (r: Result<(), EncodeError>) {
        Ok(())
    }

    fn render_cmark(&self, enc: &mut Encoder) -> (r: Result<(), EncodeError>) {
        Ok(())
    }

    fn render_section(&self, section: Section<'_>, enc: &mut Encoder) -> (r: Result<
        (),
        EncodeError,
    >) {
        let ghost ms = list_view((*self)@);
        let mut i: usize = 0;
        let n: usize = self.len();
        while i < n
            invariant
                n == (*self)@.len(),
                0 <= i <= n,
                ms == list_view((*self)@),
                enc@ == old(enc)@ + list_sec_out(ms.take(i as int), section@),
            decreases n - i,
        {
            proof {
                assert(ms.take(i + 1).drop_last() =~= ms.take(i as int));
                assert(ms.take(i + 1).last() == ms[i as int]);
            }
            self[i].render_body(section, enc)?;
            i = i + 1;
        }
        proof {
            assert(ms.take(n as int) =~= ms);
        }
        Ok(())
    }

    fn render_inverse(&self, section: Section<'_>, enc: &mut Encoder) -> (r: Result<
        (),
        EncodeError,
    >) {
        if self.len() == 0 {
            self.render_body(section, enc)
        } else {
            Ok(())
        }
    }

    fn render_field_escaped(&self, hash: u64, name: &str, enc: &mut Encoder) -> (r: Result<
        (),
        EncodeError,
    >) {
        Ok(())
    }

    fn render_field_unescaped(&self, hash: u64, name: &str, enc: &mut Encoder) -> (r: Result<
        (),
        EncodeError,
    >) {
        Ok(())
    }

    fn render_field_section(
        &self,
        hash: u64,
        name: &str,
        section: Section<'_>,
        enc: &mut Encoder,
    ) -> (r: Result<(), EncodeError>) {
        Ok(())
    }

    fn render_field_inverse(
        &self,
        hash: u64,
        name: &str,
        section: Section<'_>,
        enc: &mut Encoder,
    ) -> (r: Result<(), EncodeError>) {
        Ok(())
    }

    fn render_body(&self, section: Section<'_>, enc: &mut Encoder) -> (r: Result<
        (),
        EncodeError,
    >) {
        proof {
            lemma_nodes_out_inert(self.model(), section@);
        }
        render_inert(section, enc)
    }
}


impl Content for u8 {
    open spec fn model(&self) -> Cv {
        Cv::Int { i: *self as int }
    }

    fn is_truthy(&self) -> (b: bool) {
        *self != 0
    }

    fn capacity_hint(&self, tpl: &Template) -> (n: usize) {
        5
    }

    fn render_escaped(&self, enc: &mut Encoder) -> (r: Result<(), EncodeError>) {
        enc.format_u128(*self as u128)
    }

    fn render_unescaped(&self, enc: &mut Encoder) -> (r: Result<(), EncodeError>) {
        enc.format_u128(*self as u128)
    }

    fn render_cmark(&self, enc: &mut Encoder) -> (r: Result<(), EncodeError>) {
        enc.format_u128(*self as u128)
    }

    fn render_section(&self, section: Section<'_>, enc: &mut Encoder) -> (r: Result<
        (),
        EncodeError,
    >) {
        if *self != 0 {
            self.render_body(section, enc)
        } else {
            Ok(())
        }
    }

    fn render_inverse(&self, section: Section<'_>, enc: &mut Encoder) -> (r: Result<
        (),
        EncodeError,
    >) {
        if *self == 0 {
            self.render_body(section, enc)
        } else {
            Ok(())
        }
    }

    fn render_field_escaped(&self, hash: u64, name: &str, enc: &mut Encoder) -> (r: Result<
        (),
        EncodeError,
    >) {
        Ok(())
    }

    fn render_field_unescaped(&self, hash: u64, name: &str, enc: &mut Encoder) -> (r: Result<
        (),
        EncodeError,
    >) {
        Ok(())
    }

    fn render_field_section(
        &self,
        hash: u64,
        name: &str,
        section: Section<'_>,
        enc: &mut Encoder,
    ) -> (r: Result<(), EncodeError>) {
        Ok(())
    }

    fn render_field_inverse(
        &self,
        hash: u64,
        name: &str,
        section: Section<'_>,
        enc: &mut Encoder,
    ) -> (r: Result<(), EncodeError>) {
        Ok(())
    }

    fn render_body(&self, section: Section<'_>, enc: &mut Encoder) -> (r: Result<
        (),
        EncodeError,
    >) {
        proof {
            lemma_nodes_out_inert(self.model(), section@);
        }
        render_inert(section, enc)
    }
}

impl Content for u16 {
    open spec fn model(&self) -> Cv {
        Cv::Int { i: *self as int }
    }

    fn is_truthy(&self) -> (b: bool) {
        *self != 0
    }

    fn capacity_hint(&self, tpl: &Template) -> (n: usize) {
        5
    }

    fn render_escaped(&self, enc: &mut Encoder) -> (r: Result<(), EncodeError>) {
        enc.format_u128(*self as u128)
    }

    fn render_unescaped(&self, enc: &mut Encoder) -> (r: Result<(), EncodeError>) {
        enc.format_u128(*self as u128)
    }

    fn render_cmark(&self, enc: &mut Encoder) -> (r: Result<(), EncodeError>) {
        enc.format_u128(*self as u128)
    }

    fn render_section(&self, section: Section<'_>, enc: &mut Encoder) -> (r: Result<
        (),
        EncodeError,
    >) {
        if *self != 0 {
            self.render_body(section, enc)
        } else {
            Ok(())
        }
    }

    fn render_inverse(&self, section: Section<'_>, enc: &mut Encoder) -> (r: Result<
        (),
        EncodeError,
    >) {
        if *self == 0 {
            self.render_body(section, enc)
        } else {
            Ok(())
        }
    }

    fn render_field_escaped(&self, hash: u64, name: &str, enc: &mut Encoder) -> (r: Result<
        (),
        EncodeError,
    >) {
        Ok(())
    }

    fn render_field_unescaped(&self, hash: u64, name: &str, enc: &mut Encoder) -> (r: Result<
        (),
        EncodeError,
    >) {
        Ok(())
    }

    fn render_field_section(
        &self,
        hash: u64,
        name: &str,
        section: Section<'_>,
        enc: &mut Encoder,
    ) -> (r: Result<(), EncodeError>) {
        Ok(())
    }

    fn render_field_inverse(
        &self,
        hash: u64,
        name: &str,
        section: Section<'_>,
        enc: &mut Encoder,
    ) -> (r: Result<(), EncodeError>) {
        Ok(())
    }

    fn render_body(&self, section: Section<'_>, enc: &mut Encoder) -> (r: Result<
        (),
        EncodeError,
    >) {
        proof {
            lemma_nodes_out_inert(self.model(), section@);
        }
        render_inert(section, enc)
    }
}

impl Content for u32 {
    open spec fn model(&self) -> Cv {
        Cv::Int { i: *self as int }
    }

    fn is_truthy(&self) -> (b: bool) {
        *self != 0
    }

    fn capacity_hint(&self, tpl: &Template) -> (n: usize) {
        5
    }

    fn render_escaped(&self, enc: &mut Encoder) -> (r: Result<(), EncodeError>) {
        enc.format_u128(*self as u128)
    }

    fn render_unescaped(&self, enc: &mut Encoder) -> (r: Result<(), EncodeError>) {
        enc.format_u128(*self as u128)
    }

    fn render_cmark(&self, enc: &mut Encoder) -> (r: Result<(), EncodeError>) {
        enc.format_u128(*self as u128)
    }

    fn render_section(&self, section: Section<'_>, enc: &mut Encoder) -> (r: Result<
        (),
        EncodeError,
    >) {
        if *self != 0 {
            self.render_body(section, enc)
        } else {
            Ok(())
        }
    }

    fn render_inverse(&self, section: Section<'_>, enc: &mut Encoder) -> (r: Result<
        (),
        EncodeError,
    >) {
        if *self == 0 {
            self.render_body(section, enc)
        } else {
            Ok(())
        }
    }

    fn render_field_escaped(&self, hash: u64, name: &str, enc: &mut Encoder) -> (r: Result<
        (),
        EncodeError,
    >) {
        Ok(())
    }

    fn render_field_unescaped(&self, hash: u64, name: &str, enc: &mut Encoder) -> (r: Result<
        (),
        EncodeError,
    >) {
        Ok(())
    }

    fn render_field_section(
        &self,
        hash: u64,
        name: &str,
        section: Section<'_>,
        enc: &mut Encoder,
    ) -> (r: Result<(), EncodeError>) {
        Ok(())
    }

    fn render_field_inverse(
        &self,
        hash: u64,
        name: &str,
        section: Section<'_>,
        enc: &mut Encoder,
    ) -> (r: Result<(), EncodeError>) {
        Ok(())
    }

    fn render_body(&self, section: Section<'_>, enc: &mut Encoder) -> (r: Result<
        (),
        EncodeError,
    >) {
        proof {
            lemma_nodes_out_inert(self.model(), section@);
        }
        render_inert(section, enc)
    }
}

impl Content for usize {
    open spec fn model(&self) -> Cv {
        Cv::Int { i: *self as int }
    }

    fn is_truthy(&self) -> (b: bool) {
        *self != 0
    }

    fn capacity_hint(&self, tpl: &Template) -> (n: usize) {
        5
    }

    fn render_escaped(&self, enc: &mut Encoder) -> (r: Result<(), EncodeError>) {
        enc.format_u128(*self as u128)
    }

    fn render_unescaped(&self, enc: &mut Encoder) -> (r: Result<(), EncodeError>) {
        enc.format_u128(*self as u128)
    }

    fn render_cmark(&self, enc: &mut Encoder) -> (r: Result<(), EncodeError>) {
        enc.format_u128(*self as u128)
    }

    fn render_section(&self, section: Section<'_>, enc: &mut Encoder) -> (r: Result<
        (),
        EncodeError,
    >) {
        if *self != 0 {
            self.render_body(section, enc)
        } else {
            Ok(())
        }
    }

    fn render_inverse(&self, section: Section<'_>, enc: &mut Encoder) -> (r: Result<
        (),
        EncodeError,
    >) {
        if *self == 0 {
            self.render_body(section, enc)
        } else {
            Ok(())
        }
    }

    fn render_field_escaped(&self, hash: u64, name: &str, enc: &mut Encoder) -> (r: Result<
        (),
        EncodeError,
    >) {
        Ok(())
    }

    fn render_field_unescaped(&self, hash: u64, name: &str, enc: &mut Encoder) -> (r: Result<
        (),
        EncodeError,
    >) {
        Ok(())
    }

    fn render_field_section(
        &self,
        hash: u64,
        name: &str,
        section: Section<'_>,
        enc: &mut Encoder,
    ) -> (r: Result<(), EncodeError>) {
        Ok(())
    }

    fn render_field_inverse(
        &self,
        hash: u64,
        name: &str,
        section: Section<'_>,
        enc: &mut Encoder,
    ) -> (r: Result<(), EncodeError>) {
        Ok(())
    }

    fn render_body(&self, section: Section<'_>, enc: &mut Encoder) -> (r: Result<
        (),
        EncodeError,
    >) {
        proof {
            lemma_nodes_out_inert(self.model(), section@);
        }
        render_inert(section, enc)
    }
}

impl Content for u128 {
    open spec fn model(&self) -> Cv {
        Cv::Int { i: *self as int }
    }

    fn is_truthy(&self) -> (b: bool) {
        *self != 0
    }

    fn capacity_hint(&self, tpl: &Template) -> (n: usize) {
        5
    }

    fn render_escaped(&self, enc: &mut Encoder) -> (r: Result<(), EncodeError>) {
        enc.format_u128(*self)
    }

    fn render_unescaped(&self, enc: &mut Encoder) -> (r: Result<(), EncodeError>) {
        enc.format_u128(*self)
    }

    fn render_cmark(&self, enc: &mut Encoder) -> (r: Result<(), EncodeError>) {
        enc.format_u128(*self)
    }

    fn render_section(&self, section: Section<'_>, enc: &mut Encoder) -> (r: Result<
        (),
        EncodeError,
    >) {
        if *self != 0 {
            self.render_body(section, enc)
        } else {
            Ok(())
        }
    }

    fn render_inverse(&self, section: Section<'_>, enc: &mut Encoder) -> (r: Result<
        (),
        EncodeError,
    >) {
        if *self == 0 {
            self.render_body(section, enc)
        } else {
            Ok(())
        }
    }

    fn render_field_escaped(&self, hash: u64, name: &str, enc: &mut Encoder) -> (r: Result<
        (),
        EncodeError,
    >) {
        Ok(())
    }

    fn render_field_unescaped(&self, hash: u64, name: &str, enc: &mut Encoder) -> (r: Result<
        (),
        EncodeError,
    >) {
        Ok(())
    }

    fn render_field_section(
        &self,
        hash: u64,
        name: &str,
        section: Section<'_>,
        enc: &mut Encoder,
    ) -> (r: Result<(), EncodeError>) {
        Ok(())
    }

    fn render_field_inverse(
        &self,
        hash: u64,
        name: &str,
        section: Section<'_>,
        enc: &mut Encoder,
    ) -> (r: Result<(), EncodeError>) {
        Ok(())
    }

    fn render_body(&self, section: Section<'_>, enc: &mut Encoder) -> (r: Result<
        (),
        EncodeError,
    >) {
        proof {
            lemma_nodes_out_inert(self.model(), section@);
        }
        render_inert(section, enc)
    }
}

impl Content for i8 {
    open spec fn model(&self) -> Cv {
        Cv::Int { i: *self as int }
    }

    fn is_truthy(&self) -> (b: bool) {
        *self != 0
    }

    fn capacity_hint(&self, tpl: &Template) -> (n: usize) {
        5
    }

    fn render_escaped(&self, enc: &mut Encoder) -> (r: Result<(), EncodeError>) {
        enc.format_i128(*self as i128)
    }

    fn render_unescaped(&self, enc: &mut Encoder) -> (r: Result<(), EncodeError>) {
        enc.format_i128(*self as i128)
    }

    fn render_cmark(&self, enc: &mut Encoder) -> (r: Result<(), EncodeError>) {
        enc.format_i128(*self as i128)
    }

    fn render_section(&self, section: Section<'_>, enc: &mut Encoder) -> (r: Result<
        (),
        EncodeError,
    >) {
        if *self != 0 {
            self.render_body(section, enc)
        } else {
            Ok(())
        }
    }

    fn render_inverse(&self, section: Section<'_>, enc: &mut Encoder) -> (r: Result<
        (),
        EncodeError,
    >) {
        if *self == 0 {
            self.render_body(section, enc)
        } else {
            Ok(())
        }
    }

    fn render_field_escaped(&self, hash: u64, name: &str, enc: &mut Encoder) -> (r: Result<
        (),
        EncodeError,
    >) {
        Ok(())
    }

    fn render_field_unescaped(&self, hash: u64, name: &str, enc: &mut Encoder) -> (r: Result<
        (),
        EncodeError,
    >) {
        Ok(())
    }

    fn render_field_section(
        &self,
        hash: u64,
        name: &str,
        section: Section<'_>,
        enc: &mut Encoder,
    ) -> (r: Result<(), EncodeError>) {
        Ok(())
    }

    fn render_field_inverse(
        &self,
        hash: u64,
        name: &str,
        section: Section<'_>,
        enc: &mut Encoder,
    ) -> (r: Result<(), EncodeError>) {
        Ok(())
    }

    fn render_body(&self, section: Section<'_>, enc: &mut Encoder) -> (r: Result<
        (),
        EncodeError,
    >) {
        proof {
            lemma_nodes_out_inert(self.model(), section@);
        }
        render_inert(section, enc)
    }
}

impl Content for i16 {
    open spec fn model(&self) -> Cv {
        Cv::Int { i: *self as int }
    }

    fn is_truthy(&self) -> (b: bool) {
        *self != 0
    }

    fn capacity_hint(&self, tpl: &Template) -> (n: usize) {
        5
    }

    fn render_escaped(&self, enc: &mut Encoder) -> (r: Result<(), EncodeError>) {
        enc.format_i128(*self as i128)
    }

    fn render_unescaped(&self, enc: &mut Encoder) -> (r: Result<(), EncodeError>) {
        enc.format_i128(*self as i128)
    }

    fn render_cmark(&self, enc: &mut Encoder) -> (r: Result<(), EncodeError>) {
        enc.format_i128(*self as i128)
    }

    fn render_section(&self, section: Section<'_>, enc: &mut Encoder) -> (r: Result<
        (),
        EncodeError,
    >) {
        if *self != 0 {
            self.render_body(section, enc)
        } else {
            Ok(())
        }
    }

    fn render_inverse(&self, section: Section<'_>, enc: &mut Encoder) -> (r: Result<
        (),
        EncodeError,
    >) {
        if *self == 0 {
            self.render_body(section, enc)
        } else {
            Ok(())
        }
    }

    fn render_field_escaped(&self, hash: u64, name: &str, enc: &mut Encoder) -> (r: Result<
        (),
        EncodeError,
    >) {
        Ok(())
    }

    fn render_field_unescaped(&self, hash: u64, name: &str, enc: &mut Encoder) -> (r: Result<
        (),
        EncodeError,
    >) {
        Ok(())
    }

    fn render_field_section(
        &self,
        hash: u64,
        name: &str,
        section: Section<'_>,
        enc: &mut Encoder,
    ) -> (r: Result<(), EncodeError>) {
        Ok(())
    }

    fn render_field_inverse(
        &self,
        hash: u64,
        name: &str,
        section: Section<'_>,
        enc: &mut Encoder,
    ) -> (r: Result<(), EncodeError>) {
        Ok(())
    }

    fn render_body(&self, section: Section<'_>, enc: &mut Encoder) -> (r: Result<
        (),
        EncodeError,
    >) {
        proof {
            lemma_nodes_out_inert(self.model(), section@);
        }
        render_inert(section, enc)
    }
}

impl Content for i32 {
    open spec fn model(&self) -> Cv {
        Cv::Int { i: *self as int }
    }

    fn is_truthy(&self) -> (b: bool) {
        *self != 0
    }

    fn capacity_hint(&self, tpl: &Template) -> (n: usize) {
        5
    }

    fn render_escaped(&self, enc: &mut Encoder) -> (r: Result<(), EncodeError>) {
        enc.format_i128(*self as i128)
    }

    fn render_unescaped(&self, enc: &mut Encoder) -> (r: Result<(), EncodeError>) {
        enc.format_i128(*self as i128)
    }

    fn render_cmark(&self, enc: &mut Encoder) -> (r: Result<(), EncodeError>) {
        enc.format_i128(*self as i128)
    }

    fn render_section(&self, section: Section<'_>, enc: &mut Encoder) -> (r: Result<
        (),
        EncodeError,
    >) {
        if *self != 0 {
            self.render_body(section, enc)
        } else {
            Ok(())
        }
    }

    fn render_inverse(&self, section: Section<'_>, enc: &mut Encoder) -> (r: Result<
        (),
        EncodeError,
    >) {
        if *self == 0 {
            self.render_body(section, enc)
        } else {
            Ok(())
        }
    }

    fn render_field_escaped(&self, hash: u64, name: &str, enc: &mut Encoder) -> (r: Result<
        (),
        EncodeError,
    >) {
        Ok(())
    }

    fn render_field_unescaped(&self, hash: u64, name: &str, enc: &mut Encoder) -> (r: Result<
        (),
        EncodeError,
    >) {
        Ok(())
    }

    fn render_field_section(
        &self,
        hash: u64,
        name: &str,
        section: Section<'_>,
        enc: &mut Encoder,
    ) -> (r: Result<(), EncodeError>) {
        Ok(())
    }

    fn render_field_inverse(
        &self,
        hash: u64,
        name: &str,
        section: Section<'_>,
        enc: &mut Encoder,
    ) -> (r: Result<(), EncodeError>) {
        Ok(())
    }

    fn render_body(&self, section: Section<'_>, enc: &mut Encoder) -> (r: Result<
        (),
        EncodeError,
    >) {
        proof {
            lemma_nodes_out_inert(self.model(), section@);
        }
        render_inert(section, enc)
    }
}

impl Content for isize {
    open spec fn model(&self) -> Cv {
        Cv::Int { i: *self as int }
    }

    fn is_truthy(&self) -> (b: bool) {
        *self != 0
    }

    fn capacity_hint(&self, tpl: &Template) -> (n: usize) {
        5
    }

    fn render_escaped(&self, enc: &mut Encoder) -> (r: Result<(), EncodeError>) {
        enc.format_i128(*self as i128)
    }

    fn render_unescaped(&self, enc: &mut Encoder) -> (r: Result<(), EncodeError>) {
        enc.format_i128(*self as i128)
    }

    fn render_cmark(&self, enc: &mut Encoder) -> (r: Result<(), EncodeError>) {
        enc.format_i128(*self as i128)
    }

    fn render_section(&self, section: Section<'_>, enc: &mut Encoder) -> (r: Result<
        (),
        EncodeError,
    >) {
        if *self != 0 {
            self.render_body(section, enc)
        } else {
            Ok(())
        }
    }

    fn render_inverse(&self, section: Section<'_>, enc: &mut Encoder) -> (r: Result<
        (),
        EncodeError,
    >) {
        if *self == 0 {
            self.render_body(section, enc)
        } else {
            Ok(())
        }
    }

    fn render_field_escaped(&self, hash: u64, name: &str, enc: &mut Encoder) -> (r: Result<
        (),
        EncodeError,
    >) {
        Ok(())
    }

    fn render_field_unescaped(&self, hash: u64, name: &str, enc: &mut Encoder) -> (r: Result<
        (),
        EncodeError,
    >) {
        Ok(())
    }

    fn render_field_section(
        &self,
        hash: u64,
        name: &str,
        section: Section<'_>,
        enc: &mut Encoder,
    ) -> (r: Result<(), EncodeError>) {
        Ok(())
    }

    fn render_field_inverse(
        &self,
        hash: u64,
        name: &str,
        section: Section<'_>,
        enc: &mut Encoder,
    ) -> (r: Result<(), EncodeError>) {
        Ok(())
    }

    fn render_body(&self, section: Section<'_>, enc: &mut Encoder) -> (r: Result<
        (),
        EncodeError,
    >) {
        proof {
            lemma_nodes_out_inert(self.model(), section@);
        }
        render_inert(section, enc)
    }
}

impl Content for i128 {
    open spec fn model(&self) -> Cv {
        Cv::Int { i: *self as int }
    }

    fn is_truthy(&self) -> (b: bool) {
        *self != 0
    }

    fn capacity_hint(&self, tpl: &Template) -> (n: usize) {
        5
    }

    fn render_escaped(&self, enc: &mut Encoder) -> (r: Result<(), EncodeError>) {
        enc.format_i128(*self)
    }

    fn render_unescaped(&self, enc: &mut Encoder) -> (r: Result<(), EncodeError>) {
        enc.format_i128(*self)
    }

    fn render_cmark(&self, enc: &mut Encoder) -> (r: Result<(), EncodeError>) {
        enc.format_i128(*self)
    }

    fn render_section(&self, section: Section<'_>, enc: &mut Encoder) -> (r: Result<
        (),
        EncodeError,
    >) {
        if *self != 0 {
            self.render_body(section, enc)
        } else {
            Ok(())
        }
    }

    fn render_inverse(&self, section: Section<'_>, enc: &mut Encoder) -> (r: Result<
        (),
        EncodeError,
    >) {
        if *self == 0 {
            self.render_body(section, enc)
        } else {
            Ok(())
        }
    }

    fn render_field_escaped(&self, hash: u64, name: &str, enc: &mut Encoder) -> (r: Result<
        (),
        EncodeError,
    >) {
        Ok(())
    }

    fn render_field_unescaped(&self, hash: u64, name: &str, enc: &mut Encoder) -> (r: Result<
        (),
        EncodeError,
    >) {
        Ok(())
    }

    fn render_field_section(
        &self,
        hash: u64,
        name: &str,
        section: Section<'_>,
        enc: &mut Encoder,
    ) -> (r: Result<(), EncodeError>) {
        Ok(())
    }

    fn render_field_inverse(
        &self,
        hash: u64,
        name: &str,
        section: Section<'_>,
        enc: &mut Encoder,
    ) -> (r: Result<(), EncodeError>) {
        Ok(())
    }

    fn render_body(&self, section: Section<'_>, enc: &mut Encoder) -> (r: Result<
        (),
        EncodeError,
    >) {
        proof {
            lemma_nodes_out_inert(self.model(), section@);
        }
        render_inert(section, enc)
    }
}

} // verus!
