//! The multi-valued field maps of a request: the query string and the posted
//! form both arrive as a name mapped to one or more values.
use vstd::prelude::*;

use crate::text::same_text;

verus! {

/// The model of a field map: the fields in the order they were first
/// given, each a name with its values.
pub type FieldSeq = Seq<(Seq<char>, Seq<Seq<char>>)>;

pub open spec fn opt_text(o: Option<String>) -> Option<Seq<char>> {
    match o {
        Some(s) => Some(s@),
        None => None,
    }
}

/// Whether some field of `f` is named `name`.
pub open spec fn has_field(f: FieldSeq, name: Seq<char>) -> bool {
    exists|i: int| 0 <= i < f.len() && (#[trigger] f[i]).0 == name
}

/// The position of the field named `name`; meaningful where `has_field`.
pub open spec fn field_index(f: FieldSeq, name: Seq<char>) -> int {
    choose|i: int| 0 <= i < f.len() && (#[trigger] f[i]).0 == name
}

/// The first value of the field named `name`, if there is such a field.
pub open spec fn first_value(f: FieldSeq, name: Seq<char>) -> Option<Seq<char>> {
    if has_field(f, name) {
        Some(f[field_index(f, name)].1[0])
    } else {
        None
    }
}

/// No two fields share a name, and every field has a value.
pub open spec fn fields_wf(f: FieldSeq) -> bool {
    &&& forall|i: int, j: int| 0 <= i < f.len() && 0 <= j < f.len() && i != j ==> (#[trigger] f[i]).0 != (#[trigger] f[j]).0
    &&& forall|i: int| 0 <= i < f.len() ==> (#[trigger] f[i]).1.len() > 0
}

/// The fields after `value` is added under `name`: appended to the values
/// of an existing field, or as a new last field.
pub open spec fn fields_with(f: FieldSeq, name: Seq<char>, value: Seq<char>) -> FieldSeq {
    if has_field(f, name) {
        let i = field_index(f, name);
        f.update(i, (name, f[i].1.push(value)))
    } else {
        f.push((name, seq![value]))
    }
}

/// The model of a map without fields.
pub open spec fn no_fields() -> FieldSeq {
    Seq::empty()
}

proof fn lemma_fields_with_wf(f: FieldSeq, name: Seq<char>, value: Seq<char>)
    requires
        fields_wf(f),
    ensures
        fields_wf(fields_with(f, name, value)),
{
    let g = fields_with(f, name, value);
    if has_field(f, name) {
        let i = field_index(f, name);
        assert forall|a: int, b: int| 0 <= a < g.len() && 0 <= b < g.len() && a != b implies (#[trigger] g[a]).0 != (#[trigger] g[b]).0 by {
            assert(g[a].0 == f[a].0);
            assert(g[b].0 == f[b].0);
        }
        assert forall|a: int| 0 <= a < g.len() implies (#[trigger] g[a]).1.len() > 0 by {
            if a != i {
                assert(g[a] == f[a]);
            }
        }
    } else {
        assert forall|a: int, b: int| 0 <= a < g.len() && 0 <= b < g.len() && a != b implies (#[trigger] g[a]).0 != (#[trigger] g[b]).0 by {
            if a < f.len() {
                assert(g[a] == f[a]);
            }
            if b < f.len() {
                assert(g[b] == f[b]);
            }
        }
        assert forall|a: int| 0 <= a < g.len() implies (#[trigger] g[a]).1.len() > 0 by {
            if a < f.len() {
                assert(g[a] == f[a]);
            }
        }
    }
}

pub proof fn lemma_field_index_unique(f: FieldSeq, name: Seq<char>, i: int)
    requires
        fields_wf(f),
        0 <= i < f.len(),
        f[i].0 == name,
    ensures
        has_field(f, name),
        field_index(f, name) == i,
{
    let j = field_index(f, name);
    assert(0 <= j < f.len() && f[j].0 == name);
}

/// A map from field names to their values, as a request's query string or
/// posted form gives it.
pub struct FormData {
    entries: Vec<(String, Vec<String>)>,
}

impl View for FormData {
    type V = FieldSeq;

    closed spec fn view(&self) -> FieldSeq {
        self.entries@.map_values(|e: (String, Vec<String>)| (e.0@, e.1@.map_values(|v: String| v@)))
    }
}

impl FormData {
    #[verifier::type_invariant]
    closed spec fn wf(self) -> bool {
        fields_wf(self@)
    }

    /// A map with no fields.
    pub fn new() -> (r: FormData)
        ensures
            r@ == no_fields(),
    {
        let r = FormData { entries: Vec::new() };
        assert(r@ =~= no_fields());
        r
    }

    /// The number of fields.
    pub fn len(&self) -> (r: usize)
        ensures
            r == self@.len(),
    {
        self.entries.len()
    }

    /// The name of the field at position `i`.
    pub fn name_at(&self, i: usize) -> (r: &String)
        requires
            i < self@.len(),
        ensures
            r@ == self@[i as int].0,
    {
        &self.entries[i].0
    }

    /// The position of the field named `name`.
    pub fn index_of(&self, name: &str) -> (r: Option<usize>)
        ensures
            r is None <==> !has_field(self@, name@),
            r matches Some(i) ==> i == field_index(self@, name@) && i < self@.len(),
    {
        proof {
            use_type_invariant(self);
        }
        let n = self.entries.len();
        let mut i: usize = 0;
        while i < n
            invariant
                n == self@.len(),
                fields_wf(self@),
                i <= n,
                forall|j: int| 0 <= j < i ==> (#[trigger] self@[j]).0 != name@,
            decreases n - i,
        {
            assert(self@[i as int].0 == self.entries@[i as int].0@);
            if same_text(self.entries[i].0.as_str(), name) {
                proof {
                    lemma_field_index_unique(self@, name@, i as int);
                }
                return Some(i);
            }
            i += 1;
        }
        None
    }

    /// Whether a field is named `name`.
    pub fn contains_key(&self, name: &str) -> (r: bool)
        ensures
            r == has_field(self@, name@),
    {
        self.index_of(name).is_some()
    }

    /// The values of the field named `name`.
    pub fn get(&self, name: &str) -> (r: Option<&Vec<String>>)
        ensures
            r is None <==> !has_field(self@, name@),
            r matches Some(v) ==> v@.map_values(|x: String| x@) == self@[field_index(self@, name@)].1,
    {
        match self.index_of(name) {
            Some(i) => Some(&self.entries[i].1),
            None => None,
        }
    }

    /// The first value of the field named `name`.
    pub fn first(&self, name: &str) -> (r: Option<String>)
        ensures
            opt_text(r) == first_value(self@, name@),
    {
        proof {
            use_type_invariant(self);
        }
        match self.index_of(name) {
            Some(i) => {
                assert(self@[i as int].1.len() > 0);
                assert(self@[i as int].1[0] == self.entries@[i as int].1@[0]@);
                Some(self.entries[i].1[0].clone())
            },
            None => None,
        }
    }

    /// Adds `value` under `name`, after any values the field already has.
    pub fn insert(&mut self, name: String, value: String)
        ensures
            final(self)@ == fields_with(old(self)@, name@, value@),
    {
        proof {
            use_type_invariant(&*self);
        }
        let ghost f = self@;
        let found = self.index_of(name.as_str());
        let mut entries: Vec<(String, Vec<String>)> = Vec::new();
        std::mem::swap(&mut entries, &mut self.entries);
        let ghost old_entries = entries@;
        assert(old_entries.map_values(|e: (String, Vec<String>)| (e.0@, e.1@.map_values(|v: String| v@))) == f);
        match found {
            Some(i) => {
                let mut e = entries.remove(i);
                e.1.push(value);
                let ghost e2 = e;
                entries.insert(i, e);
                proof {
                    assert(entries@ =~= old_entries.update(i as int, e2));
                    assert(e2.1@.map_values(|v: String| v@) =~= f[i as int].1.push(value@));
                    assert(f[i as int].0 == name@);
                    assert(entries@.map_values(|e: (String, Vec<String>)| (e.0@, e.1@.map_values(|v: String| v@))) =~= fields_with(f, name@, value@));
                    lemma_fields_with_wf(f, name@, value@);
                }
                self.entries = entries;
                assert(self@ =~= fields_with(f, name@, value@));
            },
            None => {
                let ghost nv = name@;
                let ghost vv = value@;
                let entry = (name, vec![value]);
                let ghost g = entry;
                entries.push(entry);
                proof {
                    assert(entries@ =~= old_entries.push(g));
                    assert(g.1@.map_values(|v: String| v@) =~= seq![vv]);
                    assert(entries@.map_values(|e: (String, Vec<String>)| (e.0@, e.1@.map_values(|v: String| v@))) =~= fields_with(f, nv, vv));
                    lemma_fields_with_wf(f, nv, vv);
                }
                self.entries = entries;
                assert(self@ =~= fields_with(f, nv, vv));
            },
        }
    }
}

} // verus!
