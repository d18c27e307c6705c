//! Control ids: a control inside a list of forms is named
//! `<list>__<index>__<control>`.
use vstd::prelude::*;

use crate::text::{all_digits, digits_value, is_digit, owned, same_text, split_components, split_pair};

verus! {

broadcast use vstd::string::group_string_axioms;

/// The short id of a control: the id itself where it has no `__`, else its
/// third `__`-separated component; `None` for an id of exactly two
/// components, which names no control.
pub open spec fn short_id_of(id: Seq<char>) -> Option<Seq<char>> {
    let parts = split_pair(id, '_', '_');
    if parts.len() == 1 {
        Some(id)
    } else if parts.len() >= 3 {
        Some(parts[2])
    } else {
        None
    }
}

/// The id under which a control's fields are handed to its template.
pub fn get_sid(id: &str) -> (r: Option<String>)
    ensures
        crate::form::opt_text(r) == short_id_of(id@),
{
    let parts = split_components(id, '_', '_');
    assert(parts@.len() == split_pair(id@, '_', '_').len());
    if parts.len() == 1 {
        Some(owned(id))
    } else if parts.len() >= 3 {
        assert(parts@[2]@ == split_pair(id@, '_', '_')[2]);
        Some(parts[2].clone())
    } else {
        None
    }
}

/// The end of the run of characters other than `_` that starts at `i`.
pub open spec fn plain_run_end(s: Seq<char>, i: int) -> int
    decreases s.len() - i,
{
    if i >= s.len() || s[i] == '_' {
        i
    } else {
        plain_run_end(s, i + 1)
    }
}

/// The end of the run of digits that starts at `i`.
pub open spec fn digit_run_end(s: Seq<char>, i: int) -> int
    decreases s.len() - i,
{
    if i >= s.len() || !is_digit(s[i]) {
        i
    } else {
        digit_run_end(s, i + 1)
    }
}

pub open spec fn separator_at(s: Seq<char>, i: int) -> bool {
    0 <= i && i + 1 < s.len() && s[i] == '_' && s[i + 1] == '_'
}

/// `s` read as `<root>__<index>__<target>` followed by anything: root and
/// target runs without `_`, index a run of digits. The target and the index
/// where the root is `root` and the index fits a `usize`.
pub open spec fn nested_target_of(root: Seq<char>, s: Seq<char>) -> Option<(Seq<char>, int)> {
    let root_end = plain_run_end(s, 0);
    let index_start = root_end + 2;
    let index_end = digit_run_end(s, index_start);
    let target_start = index_end + 2;
    let target_end = plain_run_end(s, target_start);
    if root_end > 0 && separator_at(s, root_end) && index_end > index_start && separator_at(s, index_end) && target_end > target_start
        && s.subrange(0, root_end) == root && digits_value(s.subrange(index_start, index_end)) <= usize::MAX {
        Some((s.subrange(target_start, target_end), digits_value(s.subrange(index_start, index_end))))
    } else {
        None
    }
}

fn plain_run(s: &str, from: usize) -> (r: usize)
    requires
        from <= s@.len(),
    ensures
        r == plain_run_end(s@, from as int),
        from <= r <= s@.len(),
    decreases s@.len() - from,
{
    if from == s.unicode_len() || s.get_char(from) == '_' {
        from
    } else {
        plain_run(s, from + 1)
    }
}

fn digit_run(s: &str, from: usize) -> (r: usize)
    requires
        from <= s@.len(),
    ensures
        r == digit_run_end(s@, from as int),
        from <= r <= s@.len(),
        forall|k: int| from <= k < r ==> is_digit(#[trigger] s@[k]),
    decreases s@.len() - from,
{
    if from == s.unicode_len() {
        from
    } else {
        let c = s.get_char(from);
        if '0' <= c && c <= '9' {
            digit_run(s, from + 1)
        } else {
            from
        }
    }
}

/// The value of the digits of `s` from `from` to `to`, where it fits.
fn digits_usize(s: &str, from: usize, to: usize) -> (r: Option<usize>)
    requires
        from <= to <= s@.len(),
        forall|k: int| from <= k < to ==> is_digit(#[trigger] s@[k]),
    ensures
        r matches Some(v) ==> v == digits_value(s@.subrange(from as int, to as int)),
        r is None ==> digits_value(s@.subrange(from as int, to as int)) > usize::MAX,
{
    let mut v: usize = 0;
    let mut i: usize = from;
    while i < to
        invariant
            from <= i <= to <= s@.len(),
            forall|k: int| from <= k < to ==> is_digit(#[trigger] s@[k]),
            v == digits_value(s@.subrange(from as int, i as int)),
        decreases to - i,
    {
        let c = s.get_char(i);
        let ghost prev = s@.subrange(from as int, i as int);
        let ghost next = s@.subrange(from as int, i + 1);
        assert(next.drop_last() =~= prev);
        assert(is_digit(s@[i as int]));
        let d = (c as u32 - '0' as u32) as usize;
        match v.checked_mul(10) {
            Some(m) => match m.checked_add(d) {
                Some(w) => {
                    v = w;
                },
                None => {
                    proof {
                        lemma_digits_value_grows(s@.subrange(from as int, to as int), i + 1 - from);
                        assert(s@.subrange(from as int, to as int).subrange(0, i + 1 - from) =~= next);
                    }
                    return None;
                },
            },
            None => {
                proof {
                    lemma_digits_value_grows(s@.subrange(from as int, to as int), i + 1 - from);
                    assert(s@.subrange(from as int, to as int).subrange(0, i + 1 - from) =~= next);
                }
                return None;
            },
        }
        i += 1;
    }
    Some(v)
}

proof fn lemma_digits_value_grows(s: Seq<char>, k: int)
    requires
        0 <= k <= s.len(),
        forall|j: int| 0 <= j < s.len() ==> is_digit(#[trigger] s[j]),
    ensures
        digits_value(s.subrange(0, k)) <= digits_value(s),
    decreases s.len(),
{
    if k < s.len() {
        let t = s.drop_last();
        lemma_digits_value_grows(t, k);
        assert(t.subrange(0, k) =~= s.subrange(0, k));
        assert(is_digit(s[s.len() - 1]));
        lemma_digits_nonneg(t);
    } else {
        assert(s.subrange(0, k) =~= s);
    }
}

proof fn lemma_digits_nonneg(s: Seq<char>)
    requires
        forall|j: int| 0 <= j < s.len() ==> is_digit(#[trigger] s[j]),
    ensures
        digits_value(s) >= 0,
    decreases s.len(),
{
    if s.len() > 0 {
        lemma_digits_nonneg(s.drop_last());
        assert(is_digit(s[s.len() - 1]));
    }
}

/// Reads a nested control id `<root>__<index>__<target>…` whose root is
/// `root`: the target and the index.
pub fn match_nested_target(root: &str, unparsed_target: &str) -> (r: Option<(String, usize)>)
    ensures
        r matches Some(p) ==> nested_target_of(root@, unparsed_target@) == Some((p.0@, p.1 as int)),
        r is None ==> nested_target_of(root@, unparsed_target@) is None,
{
    let s = unparsed_target;
    let n = s.unicode_len();
    let root_end = plain_run(s, 0);
    if root_end == 0 || root_end >= n || root_end + 1 >= n || s.get_char(root_end) != '_' || s.get_char(root_end + 1) != '_' {
        return None;
    }
    let index_start = root_end + 2;
    let index_end = digit_run(s, index_start);
    if index_end == index_start || index_end >= n || index_end + 1 >= n || s.get_char(index_end) != '_' || s.get_char(index_end + 1) != '_' {
        return None;
    }
    let target_start = index_end + 2;
    let target_end = plain_run(s, target_start);
    if target_end == target_start {
        return None;
    }
    let found_root = s.substring_char(0, root_end);
    if !same_text(found_root, root) {
        return None;
    }
    match digits_usize(s, index_start, index_end) {
        Some(index) => Some((String::from_str(s.substring_char(target_start, target_end)), index)),
        None => None,
    }
}

} // verus!
