//! The string-keyed map adapter.
//!
//! A `FieldMap` holds named content values and answers the protocol's field
//! lookups.  As the built-in map adapter it resolves a lookup by the literal
//! name alone — the hash a compiled tag carries is accepted for signature
//! uniformity — and a miss renders nothing, never an error.  Inserting a
//! name twice replaces its value, as it does in any map.

use vstd::prelude::*;
use crate::content::{
    Content, Cv, lookup, nodes_out, node_out, field_esc_out, field_unesc_out, field_sec_out,
    field_inv_out,
};
use crate::encoder::{Encoder, EncodeError};
use crate::template::{Node, NodeV, Section, Template, nodes_view, nodes_size,
    lemma_node_size_le, lemma_nodes_view};

verus! {

broadcast use Seq::add_empty_right, Seq::add_empty_left, lemma_nodes_view;

/// A string-keyed map of content values.
pub struct FieldMap<V> {
    entries: Vec<(String, V)>,
}

/// The named models of a map's entries, in insertion order.
pub open spec fn rec_view<V: Content>(es: Seq<(String, V)>) -> Seq<(Seq<char>, Cv)> {
    Seq::new(es.len(), |i: int| (es[i].0@, es[i].1.model()))
}

impl<V: Content> FieldMap<V> {
    /// The spec-level entries of this map.
    pub closed spec fn fields(&self) -> Seq<(Seq<char>, Cv)> {
        rec_view(self.entries@)
    }

    /// An empty map.
    pub fn new() -> (m: FieldMap<V>)
        ensures
            m.fields() == Seq::<(Seq<char>, Cv)>::empty(),
    {
        let m = FieldMap { entries: Vec::new() };
        proof {
            assert(m.fields() =~= Seq::<(Seq<char>, Cv)>::empty());
        }
        m
    }

    /// Maps `name` to `value`: replaces the entry of that name when one
    /// exists, as a map's insert does, and appends a new entry otherwise.
    pub fn insert(&mut self, name: String, value: V)
        ensures
            ({
                let fs = old(self).fields();
                let p = (name@, value.model());
                if lookup(fs, name@) is None {
                    final(self).fields() == fs.push(p)
                } else {
                    exists|j: int|
                        #![trigger fs[j]]
                        0 <= j < fs.len() && fs[j].0 == name@ && (forall|k: int|
                            0 <= k < j ==> fs[k].0 != name@) && final(self).fields() == fs.update(
                            j,
                            p,
                        )
                }
            }),
    {
        let ghost fs = old(self).fields();
        let ghost nm = name@;
        let ghost vm = value.model();
        let mut i: usize = 0;
        let n: usize = self.entries.len();
        while i < n
            invariant
                n == self.entries@.len(),
                0 <= i <= n,
                fs == self.fields(),
                fs == old(self).fields(),
                nm == name@,
                vm == value.model(),
                forall|k: int| 0 <= k < i ==> fs[k].0 != nm,
            decreases n - i,
        {
            if self.entries[i].0 == name {
                proof {
                    lemma_lookup_skip(fs, nm, i as int);
                    assert(fs.skip(i as int)[0] == fs[i as int]);
                    assert(lookup(fs, nm) is Some);
                }
                self.entries[i] = (name, value);
                proof {
                    assert(self.fields() =~= fs.update(i as int, (nm, vm)));
                    assert(fs[i as int].0 == nm);
                    assert(exists|j: int|
                        #![trigger fs[j]]
                        0 <= j < fs.len() && fs[j].0 == nm && (forall|k: int|
                            0 <= k < j ==> fs[k].0 != nm) && self.fields() == fs.update(
                            j,
                            (nm, vm),
                        ));
                }
                return;
            }
            i = i + 1;
        }
        proof {
            lemma_lookup_skip(fs, nm, n as int);
            assert(fs.skip(n as int) =~= Seq::<(Seq<char>, Cv)>::empty());
        }
        self.entries.push((name, value));
        proof {
            assert(self.fields() =~= fs.push((nm, vm)));
        }
    }

    /// How many entries the map holds.
    pub fn len(&self) -> (n: usize)
        ensures
            n == self.fields().len(),
    {
        self.entries.len()
    }

    /// The value entered under `name`, if any; if the model holds several
    /// entries of one name, the first answers.
    fn find(&self, name: &str) -> (r: Option<&V>)
        ensures
            match r {
                Some(v) => lookup(self.fields(), name@) == Some(v.model()),
                None => lookup(self.fields(), name@) is None,
            },
    {
        let ghost fs = self.fields();
        let key = String::from_str(name);
        let mut i: usize = 0;
        let n: usize = self.entries.len();
        while i < n
            invariant
                n == self.entries@.len(),
                0 <= i <= n,
                fs == self.fields(),
                key@ == name@,
                forall|j: int| 0 <= j < i ==> fs[j].0 != name@,
            decreases n - i,
        {
            if self.entries[i].0 == key {
                proof {
                    lemma_lookup_skip(fs, name@, i as int);
                    assert(fs.skip(i as int)[0] == fs[i as int]);
                }
                return Some(&self.entries[i].1);
            }
            i = i + 1;
        }
        proof {
            lemma_lookup_skip(fs, name@, n as int);
            assert(fs.skip(n as int) =~= Seq::<(Seq<char>, Cv)>::empty());
        }
        None
    }
}

/// Skipping entries that do not bear the name leaves a lookup unchanged.
proof fn lemma_lookup_skip(fs: Seq<(Seq<char>, Cv)>, name: Seq<char>, i: int)
    requires
        0 <= i <= fs.len(),
        forall|j: int| 0 <= j < i ==> fs[j].0 != name,
    ensures
        lookup(fs, name) == lookup(fs.skip(i), name),
    decreases i,
{
    if i > 0 {
        assert(fs.skip(0) =~= fs);
        assert(fs.drop_first() =~= fs.skip(1));
        assert(forall|j: int| 0 <= j < i - 1 ==> fs.skip(1)[j].0 != name);
        lemma_lookup_skip(fs.skip(1), name, i - 1);
        assert(fs.skip(1).skip(i - 1) =~= fs.skip(i));
    } else {
        assert(fs.skip(0) =~= fs);
    }
}

/// A map renders as the record of exactly its entries: this ties the entry
/// view that `new` and `insert` constrain to the model that every rendering
/// contract speaks of, so a caller who builds a map can read off what each
/// field operation writes.
pub broadcast proof fn lemma_field_map_model<V: Content>(m: &FieldMap<V>)
    ensures
        #[trigger] m.model() == (Cv::Rec { fields: m.fields() }),
{
}

impl<V: Content> Content for FieldMap<V> {
    closed spec fn model(&self) -> Cv {
        Cv::Rec { fields: rec_view(self.entries@) }
    }

    fn is_truthy(&self) -> (b: bool) {
        self.entries.len() != 0
    }

    fn capacity_hint(&self, tpl: &Template) -> (n: usize) {
        0
    }

    fn render_escaped(&self, enc: &mut Encoder) -> (r: Result<(), EncodeError>) {
        Ok(())
    }

    fn render_unescaped(&self, enc: &mut Encoder) -> (r: Result<(), EncodeError>) {
        Ok(())
    }

    fn render_cmark(&self, enc: &mut Encoder) -> (r: Result<(), EncodeError>) {
        Ok(())
    }

    fn render_section(&self, section: Section<'_>, enc: &mut Encoder) -> (r: Result<
        (),
        EncodeError,
    >) {
        if self.entries.len() != 0 {
            self.render_body(section, enc)
        } else {
            Ok(())
        }
    }

    fn render_inverse(&self, section: Section<'_>, enc: &mut Encoder) -> (r: Result<
        (),
        EncodeError,
    >) {
        if self.entries.len() == 0 {
            self.render_body(section, enc)
        } else {
            Ok(())
        }
    }

    fn render_field_escaped(&self, hash: u64, name: &str, enc: &mut Encoder) -> (r: Result<
        (),
        EncodeError,
    >) {
        match self.find(name) {
            Some(v) => v.render_escaped(enc),
            None => Ok(()),
        }
    }

    fn render_field_unescaped(&self, hash: u64, name: &str, enc: &mut Encoder) -> (r: Result<
        (),
        EncodeError,
    >) {
        match self.find(name) {
            Some(v) => v.render_unescaped(enc),
            None => Ok(()),
        }
    }

    fn render_field_section(
        &self,
        hash: u64,
        name: &str,
        section: Section<'_>,
        enc: &mut Encoder,
    ) -> (r: Result<(), EncodeError>) {
        match self.find(name) {
            Some(v) => v.render_section(section, enc),
            None => Ok(()),
        }
    }

    fn render_field_inverse(
        &self,
        hash: u64,
        name: &str,
        section: Section<'_>,
        enc: &mut Encoder,
    ) -> (r: Result<(), EncodeError>) {
        match self.find(name) {
            Some(v) => v.render_inverse(section, enc),
            None => Ok(()),
        }
    }

    fn render_body(&self, section: Section<'_>, enc: &mut Encoder) -> (r: Result<
        (),
        EncodeError,
    >) {
        let ghost m = self.model();
        let ghost vs = section@;
        let mut i: usize = 0;
        let n: usize = section.len();
        while i < n
            invariant
                n == vs.len(),
                0 <= i <= n,
                vs == section@,
                m == self.model(),
                enc@ == old(enc)@ + nodes_out(m, vs.take(i as int)),
            decreases n - i,
        {
            proof {
                lemma_node_size_le(vs, i as int);
                assert(vs.take(i + 1).drop_last() =~= vs.take(i as int));
                assert(vs.take(i + 1).last() == vs[i as int]);
            }
            match section.node(i) {
                Node::Text(s) => {
                    proof {
                        assert(node_out(m, vs[i as int]) == s@);
                    }
                    enc.write_unescaped(s.as_str())?;
                },
                Node::Escaped(h, name) => {
                    proof {
                        assert(node_out(m, vs[i as int]) == field_esc_out(m, *h, name@));
                    }
                    self.render_field_escaped(*h, name.as_str(), enc)?;
                },
                Node::Unescaped(h, name) => {
                    proof {
                        assert(node_out(m, vs[i as int]) == field_unesc_out(m, *h, name@));
                    }
                    self.render_field_unescaped(*h, name.as_str(), enc)?;
                },
                Node::Section(h, name, cs) => {
                    let sub = Section::new(cs.as_slice());
                    proof {
                        assert(sub@ == nodes_view(cs@));
                        assert(node_out(m, vs[i as int]) == field_sec_out(m, *h, name@, sub@));
                    }
                    self.render_field_section(*h, name.as_str(), sub, enc)?;
                },
                Node::Inverse(h, name, cs) => {
                    let sub = Section::new(cs.as_slice());
                    proof {
                        assert(sub@ == nodes_view(cs@));
                        assert(node_out(m, vs[i as int]) == field_inv_out(m, *h, name@, sub@));
                    }
                    self.render_field_inverse(*h, name.as_str(), sub, enc)?;
                },
            }
            i = i + 1;
        }
        proof {
            assert(vs.take(n as int) =~= vs);
        }
        Ok(())
    }
}

} // verus!
