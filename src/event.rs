//! What triggered a request: an event name and the control that raised it,
//! read from the posted form.
use vstd::prelude::*;

use crate::form::{first_value, FieldSeq, FormData};
use crate::text::{owned, same_text, starts_with, tail_from};

verus! {

broadcast use vstd::string::group_string_axioms;

/// A named UI action and the control that invoked it.
#[derive(Clone, Debug)]
pub struct RspEvent {
    pub event: String,
    pub target: String,
}

pub open spec fn word_event() -> Seq<char> {
    seq!['e', 'v', 'e', 'n', 't']
}

pub open spec fn word_event_target() -> Seq<char> {
    seq!['e', 'v', 'e', 'n', 't', '_', 't', 'a', 'r', 'g', 'e', 't']
}

pub open spec fn word_unknown() -> Seq<char> {
    seq!['u', 'n', 'k', 'n', 'o', 'w', 'n']
}

pub open spec fn word_submit() -> Seq<char> {
    seq!['s', 'u', 'b', 'm', 'i', 't']
}

pub open spec fn word_btn() -> Seq<char> {
    seq!['b', 't', 'n']
}

/// Whether some field name of `f` begins with `p`.
pub open spec fn has_prefixed(f: FieldSeq, p: Seq<char>) -> bool {
    exists|i: int| 0 <= i < f.len() && p.is_prefix_of(#[trigger] f[i].0)
}

/// The position of the first field whose name begins with `p`.
pub open spec fn first_prefixed(f: FieldSeq, p: Seq<char>) -> int {
    choose|i: int|
        0 <= i < f.len() && p.is_prefix_of(#[trigger] f[i].0) && forall|j: int|
            0 <= j < i ==> !p.is_prefix_of(#[trigger] f[j].0)
}

/// The (event, target) pair that a posted form describes: the explicit
/// `event` and `event_target` fields; failing both, the first `submit<Target>`
/// field, then the first `btn<Name>` field, each as a `submit`; else
/// `unknown` with an empty target.
pub open spec fn event_of(f: FieldSeq) -> (Seq<char>, Seq<char>) {
    let ev = match first_value(f, word_event()) {
        Some(v) => v,
        None => word_unknown(),
    };
    let tg = match first_value(f, word_event_target()) {
        Some(v) => v,
        None => Seq::<char>::empty(),
    };
    if ev == word_unknown() && tg.len() == 0 {
        if has_prefixed(f, word_submit()) {
            (word_submit(), f[first_prefixed(f, word_submit())].0.skip(word_submit().len() as int))
        } else if has_prefixed(f, word_btn()) {
            (word_submit(), f[first_prefixed(f, word_btn())].0)
        } else {
            (ev, tg)
        }
    } else {
        (ev, tg)
    }
}

impl RspEvent {
    pub open spec fn pair(&self) -> (Seq<char>, Seq<char>) {
        (self.event@, self.target@)
    }
}

/// The first field whose name begins with `prefix`.
fn first_key_with_prefix(form: &FormData, prefix: &str) -> (r: Option<usize>)
    ensures
        r is None <==> !has_prefixed(form@, prefix@),
        r matches Some(i) ==> i == first_prefixed(form@, prefix@) && i < form@.len()
            && prefix@.is_prefix_of(form@[i as int].0),
{
    let n = form.len();
    let mut i: usize = 0;
    while i < n
        invariant
            n == form@.len(),
            i <= n,
            forall|j: int| 0 <= j < i ==> !prefix@.is_prefix_of(#[trigger] form@[j].0),
        decreases n - i,
    {
        if starts_with(form.name_at(i).as_str(), prefix) {
            proof {
                assert(0 <= i < form@.len() && prefix@.is_prefix_of(form@[i as int].0) && forall|j: int|
                    0 <= j < i ==> !prefix@.is_prefix_of(#[trigger] form@[j].0));
                let k = first_prefixed(form@, prefix@);
                assert(0 <= k < form@.len() && prefix@.is_prefix_of(form@[k].0) && forall|j: int|
                    0 <= j < k ==> !prefix@.is_prefix_of(#[trigger] form@[j].0));
                if k < i {
                    assert(!prefix@.is_prefix_of(form@[k].0));
                }
                if k > i {
                    assert(!prefix@.is_prefix_of(form@[i as int].0));
                }
            }
            return Some(i);
        }
        i += 1;
    }
    None
}

/// Derives the event of a request from its posted form.
pub fn extract_event(form_data: &FormData) -> (r: RspEvent)
    ensures
        r.pair() == event_of(form_data@),
{
    proof {
        reveal_strlit("event");
        reveal_strlit("event_target");
        reveal_strlit("unknown");
        reveal_strlit("submit");
        reveal_strlit("btn");
        assert("event"@ =~= word_event());
        assert("event_target"@ =~= word_event_target());
        assert("unknown"@ =~= word_unknown());
        assert("submit"@ =~= word_submit());
        assert("btn"@ =~= word_btn());
    }
    let mut event = match form_data.first("event") {
        Some(a) => a,
        None => owned("unknown"),
    };
    let mut target = match form_data.first("event_target") {
        Some(a) => a,
        None => String::new(),
    };
    if same_text(event.as_str(), "unknown") && target.as_str().unicode_len() == 0 {
        match first_key_with_prefix(form_data, "submit") {
            Some(i) => {
                event = owned("submit");
                target = tail_from(form_data.name_at(i).as_str(), 6);
            },
            None => match first_key_with_prefix(form_data, "btn") {
                Some(i) => {
                    event = owned("submit");
                    target = form_data.name_at(i).clone();
                },
                None => {},
            },
        }
    }
    RspEvent { event, target }
}

} // verus!
