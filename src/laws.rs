//! Properties that hold across calls: reloading, the form overlay, and the
//! reading of events and keys.
use vstd::prelude::*;

use crate::event::{event_of, word_event, word_event_target, word_unknown};
use crate::form::{first_value, has_field, no_fields, FieldSeq};
use crate::json::{amended, amended_fields, lemma_amended_fields_index, amended_items, amended_leaf, item_path, key_path, parsed_json, word_sentinel, JsonTree};
use crate::key::{arg_flag, arg_number, arg_number32, arg_text, arg_unsigned, arg_unsigned32};
use crate::page::{outcome_of, resolved_initial, resolved_state, ActionOutcome, RspAction, RspState};
use crate::key::RspKey;

verus! {

/// Reloading twice gives what reloading once gives: the state, baseline
/// and fresh state are all the state a clean load of the key gives.
pub proof fn lemma_reload_idempotent<S: RspState<T, TA>, T: RspKey, TA>(
    auth: TA,
    key: T,
    state: S,
    initial_state: S,
    curr_initial_state: S,
)
    ensures
        ({
            let once = outcome_of(auth, RspAction::<T>::ReloadState, key, state, initial_state, curr_initial_state);
            &&& once == ActionOutcome::<S, T>::Proceed {
                key,
                state: S::initial_for(auth, key),
                initial_state: S::initial_for(auth, key),
                curr_initial_state: S::initial_for(auth, key),
            }
            &&& outcome_of(auth, RspAction::<T>::ReloadState, key, S::initial_for(auth, key), S::initial_for(auth, key), S::initial_for(auth, key)) == once
        }),
{
}

/// A state loaded fresh (no state came from the client) equals its
/// baseline, and a handler that changes nothing keeps them equal; so every
/// field helper, whose highlight is whether the field's current and
/// baseline values differ, leaves every highlight off.
pub proof fn lemma_fresh_load_is_clean<S: RspState<T, TA>, T: RspKey, TA>(auth: TA, key: T, maybe_initial_state: Option<S>)
    ensures
        resolved_state(auth, key, None, maybe_initial_state) == resolved_initial(auth, key, maybe_initial_state),
        outcome_of(
            auth,
            RspAction::<T>::Render,
            key,
            resolved_state(auth, key, None, maybe_initial_state),
            resolved_initial(auth, key, maybe_initial_state),
            S::initial_for(auth, key),
        ) matches ActionOutcome::Proceed { state, initial_state, .. } && state == initial_state,
{
}

/// Whether no form field of `f` names a leaf of `t` at `prefix`, nor its
/// checkbox sentinel.
pub open spec fn untouched(t: JsonTree, prefix: Seq<char>, f: FieldSeq) -> bool
    decreases t,
{
    match t {
        JsonTree::Object(fields) => untouched_fields(fields, prefix, f),
        JsonTree::Array(items) => untouched_items(items, prefix, f),
        _ => !has_field(f, prefix) && !has_field(f, prefix + word_sentinel()),
    }
}

pub open spec fn untouched_fields(s: Seq<(Seq<char>, JsonTree)>, prefix: Seq<char>, f: FieldSeq) -> bool
    decreases s,
{
    if s.len() == 0 {
        true
    } else {
        untouched_fields(s.drop_last(), prefix, f) && untouched(s.last().1, key_path(prefix, s.last().0), f)
    }
}

pub open spec fn untouched_items(s: Seq<JsonTree>, prefix: Seq<char>, f: FieldSeq) -> bool
    decreases s,
{
    if s.len() == 0 {
        true
    } else {
        untouched_items(s.drop_last(), prefix, f) && untouched(s.last(), item_path(prefix, (s.len() - 1) as nat), f)
    }
}

/// A state tree that no form field names comes through the overlay
/// unchanged.
pub proof fn lemma_overlay_without_fields(t: JsonTree, prefix: Seq<char>, f: FieldSeq)
    requires
        untouched(t, prefix, f),
    ensures
        amended(t, prefix, f) == t,
    decreases t,
{
    match t {
        JsonTree::Object(fields) => {
            lemma_overlay_fields_without_fields(fields, prefix, f);
        },
        JsonTree::Array(items) => {
            lemma_overlay_items_without_fields(items, prefix, f);
        },
        _ => {},
    }
}

proof fn lemma_overlay_fields_without_fields(s: Seq<(Seq<char>, JsonTree)>, prefix: Seq<char>, f: FieldSeq)
    requires
        untouched_fields(s, prefix, f),
    ensures
        amended_fields(s, prefix, f) == s,
    decreases s,
{
    if s.len() > 0 {
        lemma_overlay_fields_without_fields(s.drop_last(), prefix, f);
        lemma_overlay_without_fields(s.last().1, key_path(prefix, s.last().0), f);
        assert(amended_fields(s, prefix, f) =~= s);
    }
}

proof fn lemma_overlay_items_without_fields(s: Seq<JsonTree>, prefix: Seq<char>, f: FieldSeq)
    requires
        untouched_items(s, prefix, f),
    ensures
        amended_items(s, prefix, f) == s,
    decreases s,
{
    if s.len() > 0 {
        lemma_overlay_items_without_fields(s.drop_last(), prefix, f);
        lemma_overlay_without_fields(s.last(), item_path(prefix, (s.len() - 1) as nat), f);
        assert(amended_items(s, prefix, f) =~= s);
    }
}

/// With no form fields at all, the overlay leaves every state tree as it is.
pub proof fn lemma_overlay_of_empty_form(t: JsonTree, prefix: Seq<char>)
    ensures
        amended(t, prefix, no_fields()) == t,
    decreases t,
{
    lemma_untouched_by_empty_form(t, prefix);
    lemma_overlay_without_fields(t, prefix, no_fields());
}

proof fn lemma_untouched_by_empty_form(t: JsonTree, prefix: Seq<char>)
    ensures
        untouched(t, prefix, no_fields()),
    decreases t,
{
    match t {
        JsonTree::Object(fields) => {
            lemma_untouched_fields_by_empty_form(fields, prefix);
        },
        JsonTree::Array(items) => {
            lemma_untouched_items_by_empty_form(items, prefix);
        },
        _ => {},
    }
}

proof fn lemma_untouched_fields_by_empty_form(s: Seq<(Seq<char>, JsonTree)>, prefix: Seq<char>)
    ensures
        untouched_fields(s, prefix, no_fields()),
    decreases s,
{
    if s.len() > 0 {
        lemma_untouched_fields_by_empty_form(s.drop_last(), prefix);
        lemma_untouched_by_empty_form(s.last().1, key_path(prefix, s.last().0));
    }
}

proof fn lemma_untouched_items_by_empty_form(s: Seq<JsonTree>, prefix: Seq<char>)
    ensures
        untouched_items(s, prefix, no_fields()),
    decreases s,
{
    if s.len() > 0 {
        lemma_untouched_items_by_empty_form(s.drop_last(), prefix);
        lemma_untouched_by_empty_form(s.last(), item_path(prefix, (s.len() - 1) as nat));
    }
}

/// In an object `{a: <number>, b: <string>}`, a form field named `a` (and
/// none named `b` or `b_sentinel`) changes `a` alone: `a` takes the JSON
/// the field holds, and `b` keeps its text.
pub proof fn lemma_overlay_precedence(a: Seq<char>, n: Seq<char>, b: Seq<char>, x: Seq<char>, f: FieldSeq)
    requires
        a.len() > 0,
        b.len() > 0,
        has_field(f, a),
        !has_field(f, b),
        !has_field(f, b + word_sentinel()),
    ensures
        amended(JsonTree::Object(seq![(a, JsonTree::Number(n)), (b, JsonTree::String(x))]), Seq::empty(), f) == JsonTree::Object(
            seq![
                (a, match parsed_json(first_value(f, a)->0) {
                    Some(p) => p,
                    None => JsonTree::Number(n),
                }),
                (b, JsonTree::String(x)),
            ],
        ),
{
    let s = seq![(a, JsonTree::Number(n)), (b, JsonTree::String(x))];
    assert(s.drop_last() =~= seq![(a, JsonTree::Number(n))]);
    assert(s.drop_last().drop_last() =~= Seq::<(Seq<char>, JsonTree)>::empty());
    assert(key_path(Seq::empty(), a) == a);
    assert(key_path(Seq::empty(), b) == b);
    let first = match parsed_json(first_value(f, a)->0) {
        Some(p) => p,
        None => JsonTree::Number(n),
    };
    assert(amended(JsonTree::Number(n), a, f) == first);
    assert(amended(JsonTree::String(x), b, f) == JsonTree::String(x));
    assert(amended_fields(s.drop_last().drop_last(), Seq::empty(), f) =~= Seq::<(Seq<char>, JsonTree)>::empty());
    assert(amended_fields(s.drop_last(), Seq::empty(), f) =~= seq![(a, first)]);
    assert(amended_fields(s, Seq::empty(), f) =~= seq![
        (a, match parsed_json(first_value(f, a)->0) {
            Some(p) => p,
            None => JsonTree::Number(n),
        }),
        (b, JsonTree::String(x)),
    ]);
}

/// A boolean leaf whose field is missing but whose sentinel field says
/// `true` becomes true, whatever it was.
pub proof fn lemma_checkbox_sentinel(name: Seq<char>, old_value: bool, f: FieldSeq)
    requires
        !has_field(f, name),
        first_value(f, name + word_sentinel()) == Some(seq!['t', 'r', 'u', 'e']),
    ensures
        amended_leaf(JsonTree::Bool(old_value), name, f) == JsonTree::Bool(true),
        amended(JsonTree::Bool(old_value), name, f) == JsonTree::Bool(true),
{
}

/// Inside an object at any path, a boolean member whose field is missing
/// but whose sentinel field says `true` becomes true, whatever it was.
pub proof fn lemma_checkbox_sentinel_in_object(fields: Seq<(Seq<char>, JsonTree)>, prefix: Seq<char>, i: int, f: FieldSeq)
    requires
        0 <= i < fields.len(),
        fields[i].1 is Bool,
        !has_field(f, key_path(prefix, fields[i].0)),
        first_value(f, key_path(prefix, fields[i].0) + word_sentinel()) == Some(seq!['t', 'r', 'u', 'e']),
    ensures
        amended(JsonTree::Object(fields), prefix, f) is Object,
        amended(JsonTree::Object(fields), prefix, f)->Object_0.len() == fields.len(),
        amended(JsonTree::Object(fields), prefix, f)->Object_0[i] == (fields[i].0, JsonTree::Bool(true)),
{
    lemma_amended_fields_index(fields, prefix, f);
    lemma_checkbox_sentinel(key_path(prefix, fields[i].0), fields[i].1->Bool_0, f);
}

/// An explicit event, other than the bare `unknown` one, always wins over
/// the scan of button fields.
pub proof fn lemma_explicit_event_wins(f: FieldSeq, ev: Seq<char>, tg: Seq<char>)
    requires
        first_value(f, word_event()) == Some(ev),
        first_value(f, word_event_target()) == Some(tg),
        ev != word_unknown() || tg.len() > 0,
    ensures
        event_of(f) == (ev, tg),
{
}

/// Without query parameters, every field of a key reads as its type's
/// default: the empty text, zero, false, or nothing.
pub proof fn lemma_key_defaults_without_args(name: Seq<char>)
    ensures
        arg_text(no_fields(), name) == Seq::<char>::empty(),
        arg_number(no_fields(), name) is None,
        arg_number32(no_fields(), name) is None,
        arg_unsigned(no_fields(), name) is None,
        arg_unsigned32(no_fields(), name) is None,
        first_value(no_fields(), name) is None,
        !arg_flag(no_fields(), name),
{
    assert(!has_field(no_fields(), name));
}

} // verus!
