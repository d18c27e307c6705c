//! The named fields that a page hands to its template, and the builder that
//! collects them.
use vstd::prelude::*;

use crate::text::same_text;

verus! {

/// A value as a logic-less template reads it.
#[derive(Debug, PartialEq)]
pub enum TemplateData {
    Null,
    Bool(bool),
    Int(i64),
    Text(String),
    List(Vec<TemplateData>),
    Fields(Vec<(String, TemplateData)>),
}

/// What the builder holds under one name: a single value, or a list of maps
/// whose fields are given one at a time.
#[derive(Debug)]
pub enum BuilderEntry {
    Item(TemplateData),
    Vector(FooVecBuilder),
}

/// A list of maps under one name; map `i` collects the fields given for it,
/// in order.
#[derive(Debug)]
pub struct FooVecBuilder {
    name: String,
    parts: Vec<Vec<(String, TemplateData)>>,
}

/// Fields with their names as text.
pub open spec fn named(s: Seq<(String, TemplateData)>) -> Seq<(Seq<char>, TemplateData)> {
    s.map_values(|p: (String, TemplateData)| (p.0@, p.1))
}

/// The parts after a field is added at position `i`: positions short of
/// `i - 1` are filled with empty maps; the field joins map `i` where that map
/// exists, and otherwise starts a new last map.
pub open spec fn parts_with(parts: Seq<Seq<(Seq<char>, TemplateData)>>, i: nat, field: (Seq<char>, TemplateData)) -> Seq<Seq<(Seq<char>, TemplateData)>> {
    let padded = if parts.len() + 1 < i {
        parts + Seq::new((i - 1 - parts.len()) as nat, |k: int| Seq::<(Seq<char>, TemplateData)>::empty())
    } else {
        parts
    };
    if padded.len() > i {
        padded.update(i as int, padded[i as int].push(field))
    } else {
        padded.push(seq![field])
    }
}

impl FooVecBuilder {
    pub closed spec fn spec_name(&self) -> Seq<char> {
        self.name@
    }

    /// The fields of each map, in order.
    pub closed spec fn spec_parts(&self) -> Seq<Seq<(Seq<char>, TemplateData)>> {
        self.parts@.map_values(|p: Vec<(String, TemplateData)>| named(p@))
    }

    /// An empty list named `name`.
    pub fn new(name: &str) -> (r: FooVecBuilder)
        ensures
            r.spec_name() == name@,
            r.spec_parts() == Seq::<Seq<(Seq<char>, TemplateData)>>::empty(),
    {
        let r = FooVecBuilder { name: String::from_str(name), parts: Vec::new() };
        assert(r.spec_parts() =~= Seq::<Seq<(Seq<char>, TemplateData)>>::empty());
        r
    }

    /// Adds the field `name` to map `i`.
    pub fn add_field_at(&mut self, i: usize, name: &str, data: TemplateData)
        ensures
            final(self).spec_name() == old(self).spec_name(),
            final(self).spec_parts() == parts_with(old(self).spec_parts(), i as nat, (name@, data)),
    {
        let ghost before = self.spec_parts();
        let field = (String::from_str(name), data);
        let ghost g = (field.0@, field.1);
        while i > 0 && self.parts.len() < i - 1
            invariant
                self.spec_name() == old(self).spec_name(),
                before.len() <= self.parts@.len(),
                before.len() + 1 < i ==> self.parts@.len() <= i - 1,
                before.len() + 1 >= i ==> self.parts@.len() == before.len(),
                forall|k: int| 0 <= k < before.len() ==> #[trigger] self.spec_parts()[k] == before[k],
                forall|k: int| before.len() <= k < self.parts@.len() ==> #[trigger] self.spec_parts()[k] == Seq::<(Seq<char>, TemplateData)>::empty(),
            decreases i - self.parts@.len(),
        {
            let ghost prev = self.spec_parts();
            self.parts.push(Vec::new());
            assert(self.spec_parts() =~= prev.push(named(Seq::empty())));
            assert(named(Seq::empty()) =~= Seq::<(Seq<char>, TemplateData)>::empty());
        }
        let ghost padded = self.spec_parts();
        assert(padded =~= (if before.len() + 1 < i {
            before + Seq::new((i - 1 - before.len()) as nat, |k: int| Seq::<(Seq<char>, TemplateData)>::empty())
        } else {
            before
        }));
        if self.parts.len() > i {
            let ghost old_vec = self.parts@;
            let mut part = self.parts.remove(i);
            let ghost old_part = part@;
            part.push(field);
            assert(named(part@) =~= named(old_part).push(g));
            let ghost new_part = part;
            self.parts.insert(i, part);
            assert(self.parts@ =~= old_vec.update(i as int, new_part));
            assert(self.spec_parts() =~= padded.update(i as int, padded[i as int].push(g)));
        } else {
            let ghost old_vec = self.parts@;
            let mut part = Vec::new();
            part.push(field);
            assert(named(part@) =~= seq![g]);
            let ghost new_part = part;
            self.parts.push(part);
            assert(self.parts@ =~= old_vec.push(new_part));
            assert(self.spec_parts() =~= padded.push(seq![g]));
        }
    }

    /// Adds the field `name` to map `i`; the same as `add_field_at`.
    pub fn insert_data_at(&mut self, i: usize, name: &str, data: TemplateData)
        ensures
            final(self).spec_name() == old(self).spec_name(),
            final(self).spec_parts() == parts_with(old(self).spec_parts(), i as nat, (name@, data)),
    {
        self.add_field_at(i, name, data);
    }

    /// Starts a new last map holding the field `name`.
    pub fn add_field(&mut self, name: &str, data: TemplateData)
        ensures
            final(self).spec_name() == old(self).spec_name(),
            final(self).spec_parts() == old(self).spec_parts().push(seq![(name@, data)]),
    {
        let n = self.parts.len();
        self.add_field_at(n, name, data);
    }

    /// The list as template data: one map per part.
    pub fn build(self) -> (r: TemplateData)
        ensures
            builds_list(r, self.spec_parts()),
    {
        let ghost parts = self.spec_parts();
        let mut rest = self.parts;
        let mut out: Vec<TemplateData> = Vec::new();
        // taken from the back, so that each part moves out without a copy
        while rest.len() > 0
            invariant
                rest@.len() + out@.len() == parts.len(),
                forall|k: int| 0 <= k < rest@.len() ==> named(#[trigger] rest@[k]@) == parts[k],
                forall|k: int| 0 <= k < out@.len() ==> (#[trigger] out@[k]) is Fields && named(out@[k]->Fields_0@) == parts[parts.len() - 1 - k],
            decreases rest@.len(),
        {
            let p = rest.pop().unwrap();
            out.push(TemplateData::Fields(p));
        }
        let n = out.len();
        let mut list: Vec<TemplateData> = Vec::new();
        while out.len() > 0
            invariant
                out@.len() + list@.len() == n,
                n == parts.len(),
                forall|k: int| 0 <= k < out@.len() ==> (#[trigger] out@[k]) is Fields && named(out@[k]->Fields_0@) == parts[n - 1 - k],
                forall|k: int| 0 <= k < list@.len() ==> (#[trigger] list@[k]) is Fields && named(list@[k]->Fields_0@) == parts[k],
            decreases out@.len(),
        {
            let d = out.pop().unwrap();
            list.push(d);
        }
        TemplateData::List(list)
    }
}

/// Whether `d` is the list of maps whose fields are `parts`.
pub open spec fn builds_list(d: TemplateData, parts: Seq<Seq<(Seq<char>, TemplateData)>>) -> bool {
    &&& d is List
    &&& d->List_0@.len() == parts.len()
    &&& forall|k: int| 0 <= k < parts.len() ==> (#[trigger] d->List_0@[k]) is Fields && named(d->List_0@[k]->Fields_0@) == parts[k]
}

/// Whether the name `name` holds a list in `e`.
pub open spec fn holds_list(e: Seq<(Seq<char>, BuilderEntry)>, name: Seq<char>) -> bool {
    exists|i: int| 0 <= i < e.len() && (#[trigger] e[i]).0 == name && e[i].1 is Vector
}

/// Whether the name `name` holds a single value in `e`.
pub open spec fn holds_item(e: Seq<(Seq<char>, BuilderEntry)>, name: Seq<char>) -> bool {
    exists|i: int| 0 <= i < e.len() && (#[trigger] e[i]).0 == name && e[i].1 is Item
}

/// The position of the name `name` in `e`; meaningful where it is there.
pub open spec fn entry_index(e: Seq<(Seq<char>, BuilderEntry)>, name: Seq<char>) -> int {
    choose|i: int| 0 <= i < e.len() && (#[trigger] e[i]).0 == name
}

/// The entries after `data` is put under `name`: in place of what the
/// name held, or as a new last entry.
pub open spec fn with_item(e: Seq<(Seq<char>, BuilderEntry)>, name: Seq<char>, data: TemplateData) -> Seq<(Seq<char>, BuilderEntry)> {
    if exists|i: int| 0 <= i < e.len() && (#[trigger] e[i]).0 == name {
        e.update(entry_index(e, name), (name, BuilderEntry::Item(data)))
    } else {
        e.push((name, BuilderEntry::Item(data)))
    }
}

pub open spec fn names_unique(e: Seq<(Seq<char>, BuilderEntry)>) -> bool {
    forall|i: int, j: int| 0 <= i < e.len() && 0 <= j < e.len() && i != j ==> (#[trigger] e[i]).0 != (#[trigger] e[j]).0
}

pub open spec fn entries_of(b: Seq<(String, BuilderEntry)>) -> Seq<(Seq<char>, BuilderEntry)> {
    b.map_values(|e: (String, BuilderEntry)| (e.0@, e.1))
}

/// The named fields of a page's template data, each name once.
pub struct FooMapBuilder {
    builders: Vec<(String, BuilderEntry)>,
}

impl FooMapBuilder {
    /// The names with what each holds, in the order of first use.
    pub closed spec fn entries(&self) -> Seq<(Seq<char>, BuilderEntry)> {
        entries_of(self.builders@)
    }

    #[verifier::type_invariant]
    closed spec fn wf(self) -> bool {
        names_unique(self.entries())
    }

    /// A builder with no fields.
    pub fn new() -> (r: FooMapBuilder)
        ensures
            r.entries() == Seq::<(Seq<char>, BuilderEntry)>::empty(),
    {
        let r = FooMapBuilder { builders: Vec::new() };
        assert(r.entries() =~= Seq::<(Seq<char>, BuilderEntry)>::empty());
        r
    }

    fn position(&self, name: &str) -> (r: Option<usize>)
        ensures
            r matches Some(i) ==> i < self.entries().len() && self.entries()[i as int].0 == name@,
            r is None ==> forall|i: int| 0 <= i < self.entries().len() ==> #[trigger] self.entries()[i].0 != name@,
    {
        let n = self.builders.len();
        let mut i: usize = 0;
        while i < n
            invariant
                n == self.builders@.len(),
                i <= n,
                forall|j: int| 0 <= j < i ==> #[trigger] self.entries()[j].0 != name@,
            decreases n - i,
        {
            if same_text(self.builders[i].0.as_str(), name) {
                return Some(i);
            }
            i += 1;
        }
        None
    }

    /// Puts `data` under `name`, replacing a value already there. Refused,
    /// with the builder unchanged, where `name` holds a list.
    pub fn insert(&mut self, name: &str, data: TemplateData) -> (r: bool)
        ensures
            r == !holds_list(old(self).entries(), name@),
            !r ==> final(self).entries() == old(self).entries(),
            r ==> final(self).entries() == with_item(old(self).entries(), name@, data),
    {
        proof {
            use_type_invariant(&*self);
        }
        let ghost before = self.entries();
        match self.position(name) {
            Some(i) => {
                if matches!(self.builders[i].1, BuilderEntry::Vector(_)) {
                    return false;
                }
                let ghost k = choose|k: int| 0 <= k < before.len() && (#[trigger] before[k]).0 == name@;
                assert(k == i) by {
                    if k != i {
                        assert(before[k].0 == before[i as int].0);
                    }
                }
                let mut held: Vec<(String, BuilderEntry)> = Vec::new();
                std::mem::swap(&mut held, &mut self.builders);
                let _ = held.remove(i);
                held.insert(i, (String::from_str(name), BuilderEntry::Item(data)));
                assert(entries_of(held@) =~= before.update(i as int, (name@, BuilderEntry::Item(data))));
                assert forall|a: int, b: int| 0 <= a < entries_of(held@).len() && 0 <= b < entries_of(held@).len() && a != b implies (#[trigger] entries_of(held@)[a]).0 != (#[trigger] entries_of(held@)[b]).0 by {
                    assert(entries_of(held@)[a].0 == before[a].0);
                    assert(entries_of(held@)[b].0 == before[b].0);
                }
                self.builders = held;
                true
            },
            None => {
                let mut held: Vec<(String, BuilderEntry)> = Vec::new();
                std::mem::swap(&mut held, &mut self.builders);
                held.push((String::from_str(name), BuilderEntry::Item(data)));
                assert(entries_of(held@) =~= before.push((name@, BuilderEntry::Item(data))));
                assert forall|a: int, b: int| 0 <= a < entries_of(held@).len() && 0 <= b < entries_of(held@).len() && a != b implies (#[trigger] entries_of(held@)[a]).0 != (#[trigger] entries_of(held@)[b]).0 by {
                    if a < before.len() && b < before.len() {
                        assert(entries_of(held@)[a].0 == before[a].0);
                        assert(entries_of(held@)[b].0 == before[b].0);
                    } else if a < before.len() {
                        assert(entries_of(held@)[a].0 == before[a].0);
                    } else if b < before.len() {
                        assert(entries_of(held@)[b].0 == before[b].0);
                    }
                }
                self.builders = held;
                true
            },
        }
    }

    /// Puts a field descriptor under `name`; the same as `insert`.
    pub fn item(&mut self, name: &str, data: TemplateData) -> (r: bool)
        ensures
            r == !holds_list(old(self).entries(), name@),
            !r ==> final(self).entries() == old(self).entries(),
            r ==> final(self).entries() == with_item(old(self).entries(), name@, data),
    {
        self.insert(name, data)
    }

    /// Adds the maps of `more` to the end of the list under `name`, which is
    /// started where `name` holds nothing. Refused, with the builder
    /// unchanged, where `name` holds a single value.
    pub fn vector(&mut self, name: &str, more: FooVecBuilder) -> (r: bool)
        ensures
            r == !holds_item(old(self).entries(), name@),
            !r ==> final(self).entries() == old(self).entries(),
            r && holds_list(old(self).entries(), name@) ==> {
                let i = entry_index(old(self).entries(), name@);
                &&& final(self).entries().len() == old(self).entries().len()
                &&& forall|j: int| 0 <= j < old(self).entries().len() && j != i ==> #[trigger] final(self).entries()[j] == old(self).entries()[j]
                &&& final(self).entries()[i].0 == name@
                &&& final(self).entries()[i].1 is Vector
                &&& final(self).entries()[i].1->Vector_0.spec_parts() == old(self).entries()[i].1->Vector_0.spec_parts() + more.spec_parts()
            },
            r && !holds_list(old(self).entries(), name@) ==> {
                &&& final(self).entries().len() == old(self).entries().len() + 1
                &&& final(self).entries().drop_last() == old(self).entries()
                &&& final(self).entries().last().0 == name@
                &&& final(self).entries().last().1 is Vector
                &&& final(self).entries().last().1->Vector_0.spec_parts() == more.spec_parts()
            },
    {
        proof {
            use_type_invariant(&*self);
        }
        let ghost before = self.entries();
        match self.position(name) {
            Some(i) => {
                if matches!(self.builders[i].1, BuilderEntry::Item(_)) {
                    return false;
                }
                let mut held: Vec<(String, BuilderEntry)> = Vec::new();
                std::mem::swap(&mut held, &mut self.builders);
                let (key, entry) = held.remove(i);
                let mut list = match entry {
                    BuilderEntry::Vector(v) => v,
                    BuilderEntry::Item(d) => FooVecBuilder::new(name),
                };
                let mut parts = more.parts;
                list.parts.append(&mut parts);
                held.insert(i, (key, BuilderEntry::Vector(list)));
                assert forall|a: int, b: int| 0 <= a < entries_of(held@).len() && 0 <= b < entries_of(held@).len() && a != b implies (#[trigger] entries_of(held@)[a]).0 != (#[trigger] entries_of(held@)[b]).0 by {
                    assert(entries_of(held@)[a].0 == before[a].0);
                    assert(entries_of(held@)[b].0 == before[b].0);
                }
                self.builders = held;
                true
            },
            None => {
                let mut list = FooVecBuilder::new(name);
                list.parts = more.parts;
                let mut held: Vec<(String, BuilderEntry)> = Vec::new();
                std::mem::swap(&mut held, &mut self.builders);
                held.push((String::from_str(name), BuilderEntry::Vector(list)));
                assert(entries_of(held@).drop_last() =~= before);
                assert forall|a: int, b: int| 0 <= a < entries_of(held@).len() && 0 <= b < entries_of(held@).len() && a != b implies (#[trigger] entries_of(held@)[a]).0 != (#[trigger] entries_of(held@)[b]).0 by {
                    if a < before.len() && b < before.len() {
                        assert(entries_of(held@)[a].0 == before[a].0);
                        assert(entries_of(held@)[b].0 == before[b].0);
                    } else if a < before.len() {
                        assert(entries_of(held@)[a].0 == before[a].0);
                    } else if b < before.len() {
                        assert(entries_of(held@)[b].0 == before[b].0);
                    }
                }
                self.builders = held;
                true
            },
        }
    }

    /// The fields as template data: a map from each name to its value or
    /// list, in the order of first use.
    pub fn build(self) -> (r: TemplateData)
        ensures
            r is Fields,
            r->Fields_0@.len() == self.entries().len(),
            forall|k: int| 0 <= k < self.entries().len() ==> (#[trigger] r->Fields_0@[k]).0@ == self.entries()[k].0,
            forall|k: int| 0 <= k < self.entries().len() ==> ((#[trigger] self.entries()[k]).1 is Item ==> r->Fields_0@[k].1 == self.entries()[k].1->Item_0),
            forall|k: int| 0 <= k < self.entries().len() ==> ((#[trigger] self.entries()[k]).1 is Vector ==> builds_list(r->Fields_0@[k].1, self.entries()[k].1->Vector_0.spec_parts())),
    {
        let ghost entries = self.entries();
        let mut rest = self.builders;
        let mut out: Vec<(String, TemplateData)> = Vec::new();
        while rest.len() > 0
            invariant
                rest@.len() + out@.len() == entries.len(),
                forall|k: int| 0 <= k < rest@.len() ==> ((#[trigger] rest@[k]).0@, rest@[k].1) == entries[k],
                forall|k: int| 0 <= k < out@.len() ==> (#[trigger] out@[k]).0@ == entries[entries.len() - 1 - k].0,
                forall|k: int| 0 <= k < out@.len() ==> ((#[trigger] entries[entries.len() - 1 - k]).1 is Item ==> out@[k].1 == entries[entries.len() - 1 - k].1->Item_0),
                forall|k: int| 0 <= k < out@.len() ==> ((#[trigger] entries[entries.len() - 1 - k]).1 is Vector ==> builds_list(out@[k].1, entries[entries.len() - 1 - k].1->Vector_0.spec_parts())),
            decreases rest@.len(),
        {
            let (name, entry) = rest.pop().unwrap();
            let d = match entry {
                BuilderEntry::Item(d) => d,
                BuilderEntry::Vector(v) => v.build(),
            };
            out.push((name, d));
        }
        let n = out.len();
        let mut fields: Vec<(String, TemplateData)> = Vec::new();
        while out.len() > 0
            invariant
                out@.len() + fields@.len() == n,
                n == entries.len(),
                forall|k: int| 0 <= k < out@.len() ==> (#[trigger] out@[k]).0@ == entries[n - 1 - k].0,
                forall|k: int| 0 <= k < out@.len() ==> ((#[trigger] entries[n - 1 - k]).1 is Item ==> out@[k].1 == entries[n - 1 - k].1->Item_0),
                forall|k: int| 0 <= k < out@.len() ==> ((#[trigger] entries[n - 1 - k]).1 is Vector ==> builds_list(out@[k].1, entries[n - 1 - k].1->Vector_0.spec_parts())),
                forall|k: int| 0 <= k < fields@.len() ==> (#[trigger] fields@[k]).0@ == entries[k].0,
                forall|k: int| 0 <= k < fields@.len() ==> ((#[trigger] entries[k]).1 is Item ==> fields@[k].1 == entries[k].1->Item_0),
                forall|k: int| 0 <= k < fields@.len() ==> ((#[trigger] entries[k]).1 is Vector ==> builds_list(fields@[k].1, entries[k].1->Vector_0.spec_parts())),
            decreases out@.len(),
        {
            let d = out.pop().unwrap();
            fields.push(d);
        }
        TemplateData::Fields(fields)
    }
}

} // verus!
