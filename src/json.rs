//! The JSON tree of a page state, and the overlay of posted form fields on
//! its leaves.
use vstd::prelude::*;

use crate::form::{first_value, has_field, FieldSeq, FormData};
use crate::text::{decimal, decimal_text, same_text};

verus! {

broadcast use vstd::string::group_string_axioms;

/// A JSON value as the library holds it; a number keeps the text that
/// writes it.
#[derive(Debug, PartialEq)]
pub enum JsonValue {
    Null,
    Bool(bool),
    Number(String),
    String(String),
    Array(Vec<JsonValue>),
    Object(Vec<(String, JsonValue)>),
}

/// The mathematical model of a JSON value.
pub enum JsonTree {
    Null,
    Bool(bool),
    Number(Seq<char>),
    String(Seq<char>),
    Array(Seq<JsonTree>),
    Object(Seq<(Seq<char>, JsonTree)>),
}

impl JsonValue {
    pub open spec fn tree(self) -> JsonTree
        decreases self,
    {
        match self {
            JsonValue::Null => JsonTree::Null,
            JsonValue::Bool(b) => JsonTree::Bool(b),
            JsonValue::Number(n) => JsonTree::Number(n@),
            JsonValue::String(s) => JsonTree::String(s@),
            JsonValue::Array(items) => JsonTree::Array(trees(items@)),
            JsonValue::Object(fields) => JsonTree::Object(field_trees(fields@)),
        }
    }
}

pub open spec fn trees(s: Seq<JsonValue>) -> Seq<JsonTree>
    decreases s,
{
    if s.len() == 0 {
        Seq::empty()
    } else {
        trees(s.drop_last()).push(s.last().tree())
    }
}

pub open spec fn field_trees(s: Seq<(String, JsonValue)>) -> Seq<(Seq<char>, JsonTree)>
    decreases s,
{
    if s.len() == 0 {
        Seq::empty()
    } else {
        field_trees(s.drop_last()).push((s.last().0@, s.last().1.tree()))
    }
}

pub open spec fn opt_tree(o: Option<JsonValue>) -> Option<JsonTree> {
    match o {
        Some(v) => Some(v.tree()),
        None => None,
    }
}

/// What `serde_json` makes of a JSON text: its tree, or `None` where the
/// text is not JSON.
pub uninterp spec fn parsed_json(s: Seq<char>) -> Option<JsonTree>;

/// `serde_json::Value`, which only `tree_from_serde` opens.
#[verifier::external_type_specification]
#[verifier::external_body]
pub struct ExSerdeValue(serde_json::Value);

/// Relies on the variants of `serde_json::Value` and on the `Display` of
/// `serde_json::Number`: carries a value over variant by variant, for
/// `parse_json`; a number becomes the text that `serde_json` writes for it.
#[verifier::external_body]
fn tree_from_serde(v: serde_json::Value) -> JsonValue {
    match v {
        serde_json::Value::Null => JsonValue::Null,
        serde_json::Value::Bool(b) => JsonValue::Bool(b),
        serde_json::Value::Number(n) => JsonValue::Number(n.to_string()),
        serde_json::Value::String(s) => JsonValue::String(s),
        serde_json::Value::Array(a) => JsonValue::Array(a.into_iter().map(tree_from_serde).collect()),
        serde_json::Value::Object(m) => JsonValue::Object(
            m.into_iter().map(|(k, x)| (k, tree_from_serde(x))).collect(),
        ),
    }
}

/// Relies on `serde_json::from_str` into a `serde_json::Value`: the tree of
/// the text, or `None` where it is not JSON.
#[verifier::external_body]
pub(crate) fn parse_json(s: &str) -> (r: Option<JsonValue>)
    ensures
        opt_tree(r) == parsed_json(s@),
{
    serde_json::from_str::<serde_json::Value>(s).ok().map(tree_from_serde)
}

pub open spec fn word_sentinel() -> Seq<char> {
    seq!['_', 's', 'e', 'n', 't', 'i', 'n', 'e', 'l']
}

pub open spec fn path_separator() -> Seq<char> {
    seq!['_', '_']
}

/// The form field name of the member `key` of an object at `prefix`.
pub open spec fn key_path(prefix: Seq<char>, key: Seq<char>) -> Seq<char> {
    if prefix.len() == 0 {
        key
    } else {
        prefix + path_separator() + key
    }
}

/// The form field name of the element `i` of an array at `prefix`.
pub open spec fn item_path(prefix: Seq<char>, i: nat) -> Seq<char> {
    prefix + path_separator() + decimal(i)
}

/// The words a form uses for a ticked box.
pub open spec fn is_true_word(s: Seq<char>) -> bool {
    s == seq!['t', 'r', 'u', 'e'] || s == seq!['o', 'n'] || s == seq!['c', 'h', 'e', 'c', 'k', 'e', 'd']
}

/// A leaf after the overlay of the form field `name`: a boolean reads a
/// ticked-box word, a string takes the text, any other leaf takes the
/// JSON that the text holds (and stays where it holds none). Without the
/// field, a `name_sentinel` field still sets a boolean.
pub open spec fn amended_leaf(t: JsonTree, name: Seq<char>, f: FieldSeq) -> JsonTree {
    if has_field(f, name) {
        let src = first_value(f, name)->0;
        match t {
            JsonTree::Bool(_) => JsonTree::Bool(is_true_word(src)),
            JsonTree::String(_) => JsonTree::String(src),
            _ => match parsed_json(src) {
                Some(p) => p,
                None => t,
            },
        }
    } else if has_field(f, name + word_sentinel()) {
        match t {
            JsonTree::Bool(_) => JsonTree::Bool(is_true_word(first_value(f, name + word_sentinel())->0)),
            _ => t,
        }
    } else {
        t
    }
}

/// The tree `t`, found at the path `prefix`, with every leaf overlaid from
/// the form fields that name its path.
pub open spec fn amended(t: JsonTree, prefix: Seq<char>, f: FieldSeq) -> JsonTree
    decreases t,
{
    match t {
        JsonTree::Object(fields) => JsonTree::Object(amended_fields(fields, prefix, f)),
        JsonTree::Array(items) => JsonTree::Array(amended_items(items, prefix, f)),
        _ => amended_leaf(t, prefix, f),
    }
}

pub open spec fn amended_fields(s: Seq<(Seq<char>, JsonTree)>, prefix: Seq<char>, f: FieldSeq) -> Seq<(Seq<char>, JsonTree)>
    decreases s,
{
    if s.len() == 0 {
        Seq::empty()
    } else {
        amended_fields(s.drop_last(), prefix, f).push(
            (s.last().0, amended(s.last().1, key_path(prefix, s.last().0), f)),
        )
    }
}

pub open spec fn amended_items(s: Seq<JsonTree>, prefix: Seq<char>, f: FieldSeq) -> Seq<JsonTree>
    decreases s,
{
    if s.len() == 0 {
        Seq::empty()
    } else {
        amended_items(s.drop_last(), prefix, f).push(
            amended(s.last(), item_path(prefix, (s.len() - 1) as nat), f),
        )
    }
}

pub proof fn lemma_trees_index(s: Seq<JsonValue>)
    ensures
        trees(s).len() == s.len(),
        forall|j: int| 0 <= j < s.len() ==> #[trigger] trees(s)[j] == s[j].tree(),
    decreases s.len(),
{
    if s.len() > 0 {
        lemma_trees_index(s.drop_last());
        assert forall|j: int| 0 <= j < s.len() implies #[trigger] trees(s)[j] == s[j].tree() by {
            if j < s.len() - 1 {
                assert(trees(s.drop_last())[j] == s.drop_last()[j].tree());
            }
        }
    }
}

pub proof fn lemma_field_trees_index(s: Seq<(String, JsonValue)>)
    ensures
        field_trees(s).len() == s.len(),
        forall|j: int| 0 <= j < s.len() ==> #[trigger] field_trees(s)[j] == (s[j].0@, s[j].1.tree()),
    decreases s.len(),
{
    if s.len() > 0 {
        lemma_field_trees_index(s.drop_last());
        assert forall|j: int| 0 <= j < s.len() implies #[trigger] field_trees(s)[j] == (s[j].0@, s[j].1.tree()) by {
            if j < s.len() - 1 {
                assert(field_trees(s.drop_last())[j] == (s.drop_last()[j].0@, s.drop_last()[j].1.tree()));
            }
        }
    }
}

pub proof fn lemma_amended_items_index(s: Seq<JsonTree>, prefix: Seq<char>, f: FieldSeq)
    ensures
        amended_items(s, prefix, f).len() == s.len(),
        forall|j: int| 0 <= j < s.len() ==> #[trigger] amended_items(s, prefix, f)[j] == amended(s[j], item_path(prefix, j as nat), f),
    decreases s.len(),
{
    if s.len() > 0 {
        lemma_amended_items_index(s.drop_last(), prefix, f);
        assert forall|j: int| 0 <= j < s.len() implies #[trigger] amended_items(s, prefix, f)[j] == amended(s[j], item_path(prefix, j as nat), f) by {
            if j < s.len() - 1 {
                assert(amended_items(s.drop_last(), prefix, f)[j] == amended(s.drop_last()[j], item_path(prefix, j as nat), f));
            }
        }
    }
}

pub proof fn lemma_amended_fields_index(s: Seq<(Seq<char>, JsonTree)>, prefix: Seq<char>, f: FieldSeq)
    ensures
        amended_fields(s, prefix, f).len() == s.len(),
        forall|j: int| 0 <= j < s.len() ==> #[trigger] amended_fields(s, prefix, f)[j] == (s[j].0, amended(s[j].1, key_path(prefix, s[j].0), f)),
    decreases s.len(),
{
    if s.len() > 0 {
        lemma_amended_fields_index(s.drop_last(), prefix, f);
        assert forall|j: int| 0 <= j < s.len() implies #[trigger] amended_fields(s, prefix, f)[j] == (s[j].0, amended(s[j].1, key_path(prefix, s[j].0), f)) by {
            if j < s.len() - 1 {
                assert(amended_fields(s.drop_last(), prefix, f)[j] == (s.drop_last()[j].0, amended(s.drop_last()[j].1, key_path(prefix, s.drop_last()[j].0), f)));
            }
        }
    }
}

fn key_path_text(prefix: &String, key: &String) -> (r: String)
    ensures
        r@ == key_path(prefix@, key@),
{
    proof {
        reveal_strlit("__");
    }
    if prefix.as_str().unicode_len() == 0 {
        key.clone()
    } else {
        let mut s = prefix.clone();
        s.append("__");
        s.append(key.as_str());
        assert(s@ =~= key_path(prefix@, key@));
        s
    }
}

fn item_path_text(prefix: &String, i: usize) -> (r: String)
    ensures
        r@ == item_path(prefix@, i as nat),
{
    proof {
        reveal_strlit("__");
    }
    let mut s = prefix.clone();
    s.append("__");
    let d = decimal_text(i as u64);
    s.append(d.as_str());
    assert(s@ =~= item_path(prefix@, i as nat));
    s
}

fn is_true_text(s: &str) -> (r: bool)
    ensures
        r == is_true_word(s@),
{
    proof {
        reveal_strlit("true");
        reveal_strlit("on");
        reveal_strlit("checked");
        assert("true"@ =~= seq!['t', 'r', 'u', 'e']);
        assert("on"@ =~= seq!['o', 'n']);
        assert("checked"@ =~= seq!['c', 'h', 'e', 'c', 'k', 'e', 'd']);
    }
    same_text(s, "true") || same_text(s, "on") || same_text(s, "checked")
}

/// The replacement of a leaf under the overlay of the form field `name`,
/// or `None` where the leaf stays.
fn amend_leaf(name: &String, v: &JsonValue, form: &FormData) -> (r: Option<JsonValue>)
    requires
        !(v is Object),
        !(v is Array),
    ensures
        r matches Some(n) ==> n.tree() == amended_leaf(v.tree(), name@, form@),
        r is None ==> v.tree() == amended_leaf(v.tree(), name@, form@),
{
    match form.first(name.as_str()) {
        Some(src) => match v {
            JsonValue::Bool(_) => Some(JsonValue::Bool(is_true_text(src.as_str()))),
            JsonValue::String(_) => Some(JsonValue::String(src)),
            _ => parse_json(src.as_str()),
        },
        None => {
            proof {
                reveal_strlit("_sentinel");
                assert("_sentinel"@ =~= word_sentinel());
            }
            let mut sentinel = name.clone();
            sentinel.append("_sentinel");
            match form.first(sentinel.as_str()) {
                Some(src) => match v {
                    JsonValue::Bool(_) => Some(JsonValue::Bool(is_true_text(src.as_str()))),
                    _ => None,
                },
                None => None,
            }
        },
    }
}

fn amend_value_recursive(name_prefix: &String, orig_val: &mut JsonValue, form_data: &FormData)
    ensures
        final(orig_val).tree() == amended(old(orig_val).tree(), name_prefix@, form_data@),
    decreases *old(orig_val),
{
    let ghost orig: JsonValue = *orig_val;
    match orig_val {
        JsonValue::Object(fields) => {
            let ghost old_fields = fields@;
            let n = fields.len();
            let mut i: usize = 0;
            while i < n
                invariant
                                orig == *old(orig_val),
                    orig is Object,
                    orig->Object_0@ == old_fields,
                    n == fields@.len(),
                    n == old_fields.len(),
                    i <= n,
                    forall|j: int| i <= j < n ==> fields@[j] == old_fields[j],
                    forall|j: int| 0 <= j < i ==> (#[trigger] fields@[j]).0 == old_fields[j].0,
                    forall|j: int| 0 <= j < i ==> (#[trigger] fields@[j]).1.tree() == amended(old_fields[j].1.tree(), key_path(name_prefix@, old_fields[j].0@), form_data@),
                decreases n - i,
            {
                proof {
                    assert(decreases_to!(orig => orig->Object_0));
                    assert(decreases_to!(orig->Object_0 => orig->Object_0[i as int]));
                    assert(decreases_to!(orig->Object_0[i as int] => orig->Object_0[i as int].1));
                    assert(decreases_to!(*old(orig_val) => fields@[i as int].1));
                }
                let new_prefix = key_path_text(name_prefix, &fields[i].0);
                amend_value_recursive(&new_prefix, &mut fields[i].1, form_data);
                i += 1;
            }
            proof {
                lemma_field_trees_index(fields@);
                lemma_field_trees_index(old_fields);
                lemma_amended_fields_index(field_trees(old_fields), name_prefix@, form_data@);
                assert(field_trees(fields@) =~= amended_fields(field_trees(old_fields), name_prefix@, form_data@));
            }
        },
        JsonValue::Array(items) => {
            let ghost old_items = items@;
            let n = items.len();
            let mut i: usize = 0;
            while i < n
                invariant
                                orig == *old(orig_val),
                    orig is Array,
                    orig->Array_0@ == old_items,
                    n == items@.len(),
                    n == old_items.len(),
                    i <= n,
                    forall|j: int| i <= j < n ==> items@[j] == old_items[j],
                    forall|j: int| 0 <= j < i ==> (#[trigger] items@[j]).tree() == amended(old_items[j].tree(), item_path(name_prefix@, j as nat), form_data@),
                decreases n - i,
            {
                proof {
                    assert(decreases_to!(orig => orig->Array_0));
                    assert(decreases_to!(orig->Array_0 => orig->Array_0[i as int]));
                    assert(decreases_to!(*old(orig_val) => items@[i as int]));
                }
                let new_prefix = item_path_text(name_prefix, i);
                amend_value_recursive(&new_prefix, &mut items[i], form_data);
                i += 1;
            }
            proof {
                lemma_trees_index(items@);
                lemma_trees_index(old_items);
                lemma_amended_items_index(trees(old_items), name_prefix@, form_data@);
                assert(trees(items@) =~= amended_items(trees(old_items), name_prefix@, form_data@));
            }
        },
        _ => {
            match amend_leaf(name_prefix, orig_val, form_data) {
                Some(n) => {
                    *orig_val = n;
                },
                None => {},
            }
        },
    }
}

/// Overlays the posted form fields on the leaves of a state tree: each leaf
/// whose path names a form field takes that field's value.
pub fn amend_json_value(orig_val: &mut JsonValue, form_data: &FormData)
    ensures
        final(orig_val).tree() == amended(old(orig_val).tree(), Seq::empty(), form_data@),
{
    let prefix = String::new();
    amend_value_recursive(&prefix, orig_val, form_data);
}

} // verus!
