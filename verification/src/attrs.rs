//! Attribute list builder.
//!
//! Encodes named input-method/input-context attributes into the wire format's
//! id-tagged, optionally nested list representation, given a name-to-id
//! mapping supplied by the server. A name absent from the mapping is simply
//! omitted, never an error; a nested list whose own id or whose separator id
//! is missing is skipped whole.

use vstd::prelude::*;

verus! {

/// First match wins when scanning a mapping's entries for a name.
pub open spec fn lookup(m: Seq<(Seq<char>, u16)>, name: Seq<char>) -> Option<u16>
    decreases m.len(),
{
    if m.len() == 0 {
        None
    } else if m[0].0 == name {
        Some(m[0].1)
    } else {
        lookup(m.drop_first(), name)
    }
}

/// The (name, id) pairs a list of owned entries denotes.
pub open spec fn pairs_view(s: Seq<(String, u16)>) -> Seq<(Seq<char>, u16)> {
    s.map_values(|p: (String, u16)| (p.0@, p.1))
}

/// The mapping that results from recording `items` in order, each newer
/// binding placed in front of everything recorded before it.
pub open spec fn prepend_rev(
    items: Seq<(Seq<char>, u16)>,
    m: Seq<(Seq<char>, u16)>,
) -> Seq<(Seq<char>, u16)>
    decreases items.len(),
{
    if items.len() == 0 {
        m
    } else {
        prepend_rev(items.drop_first(), seq![items[0]] + m)
    }
}

/// Mapping from symbolic attribute name to server-assigned numeric id,
/// populated once from a server-provided list and read-only afterwards.
pub struct AttrIdMap {
    entries: Vec<(String, u16)>,
}

impl View for AttrIdMap {
    type V = Seq<(Seq<char>, u16)>;

    closed spec fn view(&self) -> Seq<(Seq<char>, u16)> {
        self.entries@.map_values(|p: (String, u16)| (p.0@, p.1))
    }
}

impl AttrIdMap {
    pub fn new() -> (r: Self)
        ensures
            r@ == Seq::<(Seq<char>, u16)>::empty(),
    {
        let r = AttrIdMap { entries: Vec::new() };
        proof {
            assert(r@ =~= Seq::<(Seq<char>, u16)>::empty());
        }
        r
    }

    /// Record a server-assigned id for a name. A newer binding shadows any
    /// older one for the same name.
    pub fn insert(&mut self, name: String, id: u16)
        ensures
            final(self)@ == seq![(name@, id)] + old(self)@,
            forall|n: Seq<char>|
                #[trigger] lookup(final(self)@, n) == if n == name@ {
                    Some(id)
                } else {
                    lookup(old(self)@, n)
                },
    {
        self.entries.insert(0, (name, id));
        proof {
            assert(self@ =~= seq![(name@, id)] + old(self)@);
            assert(self@.drop_first() =~= old(self)@);
        }
    }

    /// Look a name up; `None` means the server did not offer the attribute.
    pub fn get(&self, name: &str) -> (r: Option<u16>)
        ensures
            r == lookup(self@, name@),
    {
        let key: String = name.to_owned();
        let n = self.entries.len();
        let mut i: usize = 0;
        proof {
            assert(self@.skip(0) =~= self@);
        }
        while i < n
            invariant
                i <= n,
                n == self.entries@.len(),
                key@ == name@,
                lookup(self@, name@) == lookup(self@.skip(i as int), name@),
            decreases n - i,
        {
            let p: &(String, u16) = &self.entries[i];
            if p.0 == key {
                proof {
                    assert(self@.skip(i as int)[0] == (self@[i as int]));
                }
                return Some(p.1);
            }
            proof {
                assert(self@.skip(i as int)[0] == (self@[i as int]));
                assert(self@.skip(i as int).drop_first() =~= self@.skip(i as int + 1));
            }
            i = i + 1;
        }
        proof {
            assert(self@.skip(n as int) =~= Seq::<(Seq<char>, u16)>::empty());
        }
        None
    }
}

/// A wire attribute: a server-assigned numeric id tagging an opaque encoded
/// value. Nested lists are runs of attributes between an empty-valued entry
/// under the list's own id and one under the separator id.
#[derive(Debug, PartialEq, Eq)]
pub struct Attribute {
    pub id: u16,
    pub value: Vec<u8>,
}

/// The (id, bytes) sequence an attribute list denotes.
pub open spec fn attrs_view(s: Seq<Attribute>) -> Seq<(u16, Seq<u8>)> {
    s.map_values(|a: Attribute| (a.id, a.value@))
}

/// Accumulates entries of one nested list, tagged under the parent's id.
/// Reached only through `AttributeBuilder::nested_list`.
pub struct NestedListBuilder<'a> {
    id_map: &'a AttrIdMap,
    out: Vec<Attribute>,
}

impl<'a> NestedListBuilder<'a> {
    /// The mapping this builder consults.
    pub closed spec fn ids(&self) -> Seq<(Seq<char>, u16)> {
        (*self.id_map)@
    }

    /// The entries accumulated so far.
    pub closed spec fn entries(&self) -> Seq<(u16, Seq<u8>)> {
        attrs_view(self.out@)
    }

    /// Append one encoded attribute under the id the mapping gives its name;
    /// with no id on offer, leave the output untouched.
    pub fn push(self, name: &str, value: Vec<u8>) -> (r: Self)
        ensures
            r.ids() == self.ids(),
            (match lookup(self.ids(), name@) {
                Some(id) => r.entries() == self.entries().push((id, value@)),
                None => r.entries() == self.entries(),
            }),
    {
        let ghost v = value@;
        let mut this = self;
        match this.id_map.get(name) {
            Some(id) => {
                this.out.push(Attribute { id, value });
                proof {
                    assert(this.entries() =~~= self.entries().push((id, v)));
                }
            },
            None => {},
        }
        this
    }
}

/// Accumulates top-level attribute entries; entry order is insertion order
/// and significant.
pub struct AttributeBuilder<'a> {
    id_map: &'a AttrIdMap,
    out: Vec<Attribute>,
}

impl<'a> AttributeBuilder<'a> {
    /// The mapping this builder consults.
    pub closed spec fn ids(&self) -> Seq<(Seq<char>, u16)> {
        (*self.id_map)@
    }

    /// The entries accumulated so far.
    pub closed spec fn entries(&self) -> Seq<(u16, Seq<u8>)> {
        attrs_view(self.out@)
    }

    /// A fresh builder with no entries.
    pub fn new(id_map: &'a AttrIdMap) -> (r: Self)
        ensures
            r.ids() == id_map@,
            r.entries() == Seq::<(u16, Seq<u8>)>::empty(),
    {
        let r = AttributeBuilder { id_map, out: Vec::new() };
        proof {
            assert(r.entries() =~= Seq::<(u16, Seq<u8>)>::empty());
        }
        r
    }

    /// Append one encoded attribute under the id the mapping gives its name;
    /// with no id on offer, leave the output untouched.
    pub fn push(self, name: &str, value: Vec<u8>) -> (r: Self)
        ensures
            r.ids() == self.ids(),
            (match lookup(self.ids(), name@) {
                Some(id) => r.entries() == self.entries().push((id, value@)),
                None => r.entries() == self.entries(),
            }),
    {
        let ghost v = value@;
        let mut this = self;
        match this.id_map.get(name) {
            Some(id) => {
                this.out.push(Attribute { id, value });
                proof {
                    assert(this.entries() =~~= self.entries().push((id, v)));
                }
            },
            None => {},
        }
        this
    }

    /// Emit a whole nested list: an empty-valued entry under the list's own
    /// id, the entries the caller's function pushes onto a child builder, and
    /// an empty-valued entry under the separator id to close the block. If
    /// either the list id or the separator id is missing from the mapping,
    /// nothing at all is emitted.
    pub fn nested_list<F: FnOnce(NestedListBuilder<'a>) -> NestedListBuilder<'a>>(
        self,
        name: &str,
        f: F,
    ) -> (r: Self)
        requires
            forall|child: NestedListBuilder<'a>|
                child.ids() == self.ids() && child.entries() == Seq::<(u16, Seq<u8>)>::empty()
                    ==> #[trigger] call_requires(f, (child,)),
        ensures
            r.ids() == self.ids(),
            (match (lookup(self.ids(), "separatorofNestedList"@), lookup(self.ids(), name@)) {
                (Some(sep_id), Some(id)) => exists|
                    child: NestedListBuilder<'a>,
                    nested: NestedListBuilder<'a>,
                |
                    {
                        &&& child.ids() == self.ids()
                        &&& child.entries() == Seq::<(u16, Seq<u8>)>::empty()
                        &&& #[trigger] call_ensures(f, (child,), nested)
                        &&& r.entries() == self.entries() + seq![(id, Seq::<u8>::empty())]
                            + nested.entries() + seq![(sep_id, Seq::<u8>::empty())]
                    },
                _ => r.entries() == self.entries(),
            }),
    {
        let mut this = self;
        let sep = this.id_map.get("separatorofNestedList");
        match sep {
            Some(sep_id) => {
                match this.id_map.get(name) {
                    Some(id) => {
                        this.out.push(Attribute { id, value: Vec::new() });
                        let child = NestedListBuilder { id_map: this.id_map, out: Vec::new() };
                        proof {
                            assert(child.entries() =~= Seq::<(u16, Seq<u8>)>::empty());
                        }
                        let ghost child_ghost = child;
                        let nested = f(child);
                        let ghost nested_ghost = nested;
                        let mut nested_out = nested.out;
                        let ghost nested_entries = attrs_view(nested_out@);
                        this.out.append(&mut nested_out);
                        this.out.push(Attribute { id: sep_id, value: Vec::new() });
                        proof {
                            assert(call_ensures(f, (child_ghost,), nested_ghost));
                            assert(nested_ghost.entries() == nested_entries);
                            assert(this.entries() =~~= self.entries() + seq![
                                (id, Seq::<u8>::empty()),
                            ] + nested_entries + seq![(sep_id, Seq::<u8>::empty())]);
                        }
                    },
                    None => {},
                }
            },
            None => {},
        }
        this
    }

    /// Yield the finished ordered sequence of entries.
    pub fn build(self) -> (r: Vec<Attribute>)
        ensures
            attrs_view(r@) == self.entries(),
    {
        self.out
    }
}

} // verus!
