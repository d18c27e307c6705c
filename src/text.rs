//! Character-level helpers on strings: prefixes, decimal numbers and
//! separator-delimited components.
use vstd::prelude::*;

verus! {

broadcast use vstd::string::group_string_axioms;

/// The character of a decimal digit `d < 10`.
pub open spec fn digit_char(d: nat) -> char {
    if d == 0 { '0' }
    else if d == 1 { '1' }
    else if d == 2 { '2' }
    else if d == 3 { '3' }
    else if d == 4 { '4' }
    else if d == 5 { '5' }
    else if d == 6 { '6' }
    else if d == 7 { '7' }
    else if d == 8 { '8' }
    else { '9' }
}

/// The decimal text of a natural number, without leading zeros.
pub open spec fn decimal(n: nat) -> Seq<char>
    decreases n,
{
    if n < 10 {
        seq![digit_char(n)]
    } else {
        decimal(n / 10).push(digit_char(n % 10))
    }
}

pub open spec fn is_digit(c: char) -> bool {
    '0' <= c && c <= '9'
}

pub open spec fn digit_value(c: char) -> int {
    c as int - '0' as int
}

pub open spec fn all_digits(s: Seq<char>) -> bool {
    forall|i: int| 0 <= i < s.len() ==> is_digit(#[trigger] s[i])
}

/// The value of a run of decimal digits, most significant first.
pub open spec fn digits_value(s: Seq<char>) -> int
    decreases s.len(),
{
    if s.len() == 0 {
        0
    } else {
        digits_value(s.drop_last()) * 10 + digit_value(s.last())
    }
}

/// `s` without its leading sign, if it has one.
pub open spec fn unsigned_part(s: Seq<char>) -> Seq<char> {
    if s.len() > 0 && (s[0] == '-' || s[0] == '+') { s.drop_first() } else { s }
}

/// The signed integer that `s` writes: an optional `+` or `-`, then one or
/// more decimal digits and nothing else; `None` when `s` has another shape or
/// the value lies outside `i64`.
pub open spec fn decimal_i64(s: Seq<char>) -> Option<int> {
    let neg = s.len() > 0 && s[0] == '-';
    let body = unsigned_part(s);
    let v = if neg { -digits_value(body) } else { digits_value(body) };
    if body.len() > 0 && all_digits(body) && i64::MIN <= v <= i64::MAX {
        Some(v)
    } else {
        None
    }
}

/// The unsigned integer that `s` writes: an optional `+`, then one or more
/// decimal digits and nothing else; `None` when `s` has another shape or
/// the value exceeds `u64`.
pub open spec fn decimal_u64(s: Seq<char>) -> Option<int> {
    let body = if s.len() > 0 && s[0] == '+' { s.drop_first() } else { s };
    if body.len() > 0 && all_digits(body) && digits_value(body) <= u64::MAX {
        Some(digits_value(body))
    } else {
        None
    }
}

/// The components of `s` between occurrences of the two-character separator
/// `a b`, scanned left to right from position `i`, where the current
/// component began at `start`.
pub open spec fn split_from(s: Seq<char>, a: char, b: char, start: int, i: int) -> Seq<Seq<char>>
    decreases s.len() - i,
{
    if i + 1 >= s.len() {
        seq![s.subrange(start, s.len() as int)]
    } else if s[i] == a && s[i + 1] == b {
        seq![s.subrange(start, i)] + split_from(s, a, b, i + 2, i + 2)
    } else {
        split_from(s, a, b, start, i + 1)
    }
}

/// The components of `s` between occurrences of the separator `a b`, as
/// `str::split` gives them.
pub open spec fn split_pair(s: Seq<char>, a: char, b: char) -> Seq<Seq<char>> {
    split_from(s, a, b, 0, 0)
}

/// Whether `prefix` begins `s`.
pub fn starts_with(s: &str, prefix: &str) -> (r: bool)
    ensures
        r == prefix@.is_prefix_of(s@),
{
    let n = s.unicode_len();
    let m = prefix.unicode_len();
    if m > n {
        return false;
    }
    let mut i: usize = 0;
    while i < m
        invariant
            m == prefix@.len(),
            n == s@.len(),
            m <= n,
            i <= m,
            forall|j: int| 0 <= j < i ==> prefix@[j] == s@[j],
        decreases m - i,
    {
        if s.get_char(i) != prefix.get_char(i) {
            assert(prefix@[i as int] != s@.subrange(0, m as int)[i as int]);
            return false;
        }
        i += 1;
    }
    assert(prefix@ =~= s@.subrange(0, m as int));
    true
}

/// Whether two strings hold the same characters.
pub fn same_text(a: &str, b: &str) -> (r: bool)
    ensures
        r == (a@ == b@),
{
    let n = a.unicode_len();
    if n != b.unicode_len() {
        return false;
    }
    let r = starts_with(a, b);
    proof {
        if r {
            assert(a@ =~= b@);
        }
    }
    r
}

/// An owned copy of `s`.
pub fn owned(s: &str) -> (r: String)
    ensures
        r@ == s@,
{
    String::from_str(s)
}

/// The characters of `s` from position `from` to its end.
pub fn tail_from(s: &str, from: usize) -> (r: String)
    requires
        from <= s@.len(),
    ensures
        r@ == s@.subrange(from as int, s@.len() as int),
{
    let n = s.unicode_len();
    String::from_str(s.substring_char(from, n))
}

fn digit_text(d: usize) -> (r: &'static str)
    requires
        d < 10,
    ensures
        r@ == seq![digit_char(d as nat)],
{
    proof {
        reveal_strlit("0");
        reveal_strlit("1");
        reveal_strlit("2");
        reveal_strlit("3");
        reveal_strlit("4");
        reveal_strlit("5");
        reveal_strlit("6");
        reveal_strlit("7");
        reveal_strlit("8");
        reveal_strlit("9");
    }
    let r = if d == 0 {
        "0"
    } else if d == 1 {
        "1"
    } else if d == 2 {
        "2"
    } else if d == 3 {
        "3"
    } else if d == 4 {
        "4"
    } else if d == 5 {
        "5"
    } else if d == 6 {
        "6"
    } else if d == 7 {
        "7"
    } else if d == 8 {
        "8"
    } else {
        "9"
    };
    assert(r@ =~= seq![digit_char(d as nat)]);
    r
}

/// The decimal text of `n`.
pub fn decimal_text(n: u64) -> (r: String)
    ensures
        r@ == decimal(n as nat),
    decreases n,
{
    if n < 10 {
        owned(digit_text(n as usize))
    } else {
        let mut s = decimal_text(n / 10);
        s.append(digit_text((n % 10) as usize));
        s
    }
}

/// The decimal text of a signed integer: a `-` before the digits of a
/// negative one.
pub open spec fn signed_decimal(n: int) -> Seq<char> {
    if n < 0 {
        seq!['-'] + decimal((-n) as nat)
    } else {
        decimal(n as nat)
    }
}

/// The decimal text of `n`, signed.
pub fn signed_text(n: i64) -> (r: String)
    ensures
        r@ == signed_decimal(n as int),
{
    if n < 0 {
        proof {
            reveal_strlit("-");
        }
        let m: u64 = if n == i64::MIN { 9223372036854775808 } else { (-n) as u64 };
        let mut s = owned("-");
        let d = decimal_text(m);
        s.append(d.as_str());
        assert(s@ =~= signed_decimal(n as int));
        s
    } else {
        decimal_text(n as u64)
    }
}

proof fn lemma_digits_prefix_le(s: Seq<char>, k: int)
    requires
        0 <= k <= s.len(),
        all_digits(s),
    ensures
        0 <= digits_value(s.subrange(0, k)) <= digits_value(s),
    decreases s.len(),
{
    if s.len() == 0 {
        assert(s.subrange(0, k) =~= s);
    } else if k == s.len() {
        assert(s.subrange(0, k) =~= s);
        lemma_digits_prefix_le(s.drop_last(), k - 1);
    } else {
        let t = s.drop_last();
        assert(all_digits(t)) by {
            assert forall|i: int| 0 <= i < t.len() implies is_digit(#[trigger] t[i]) by {
                assert(t[i] == s[i]);
            }
        }
        lemma_digits_prefix_le(t, k);
        assert(t.subrange(0, k) =~= s.subrange(0, k));
        assert(is_digit(s[s.len() - 1]));
    }
}

/// Reads a signed decimal integer: an optional sign, then digits only.
pub fn parse_i64(s: &str) -> (r: Option<i64>)
    ensures
        r matches Some(v) ==> decimal_i64(s@) == Some(v as int),
        r is None ==> decimal_i64(s@) is None,
{
    let n = s.unicode_len();
    if n == 0 {
        return None;
    }
    let c0 = s.get_char(0);
    let neg = c0 == '-';
    let start: usize = if c0 == '-' || c0 == '+' { 1 } else { 0 };
    let ghost body = unsigned_part(s@);
    assert(body =~= s@.subrange(start as int, n as int));
    if start == n {
        return None;
    }
    let mut i: usize = start;
    while i < n
        invariant
            n == s@.len(),
            start <= i <= n,
            body =~= s@.subrange(start as int, n as int),
            body == unsigned_part(s@),
            forall|j: int| 0 <= j < i - start ==> is_digit(#[trigger] body[j]),
        decreases n - i,
    {
        let c = s.get_char(i);
        if !('0' <= c && c <= '9') {
            assert(!is_digit(body[i - start]));
            return None;
        }
        i += 1;
    }
    assert(all_digits(body));
    // the largest magnitude the sign allows: i64::MAX, or one more when negative
    let last_digit: u64 = if neg { 8 } else { 7 };
    let mut mag: u64 = 0;
    let mut i: usize = start;
    while i < n
        invariant
            n == s@.len(),
            start <= i <= n,
            start < n,
            body =~= s@.subrange(start as int, n as int),
            body == unsigned_part(s@),
            neg == (s@.len() > 0 && s@[0] == '-'),
            all_digits(body),
            mag as int == digits_value(body.subrange(0, i - start)),
            mag <= (if neg { 9223372036854775808u64 } else { 9223372036854775807u64 }),
            last_digit == (if neg { 8u64 } else { 7u64 }),
        decreases n - i,
    {
        let c = s.get_char(i);
        let ghost prev = body.subrange(0, i - start);
        let ghost next = body.subrange(0, i + 1 - start);
        assert(next.drop_last() =~= prev);
        assert(next.last() == c);
        assert(is_digit(body[i - start]));
        let d = (c as u32 - '0' as u32) as u64;
        if mag > 922337203685477580 || (mag == 922337203685477580 && d > last_digit) {
            proof {
                assert(digits_value(next) == mag * 10 + d);
                lemma_digits_prefix_le(body, i + 1 - start);
            }
            return None;
        }
        mag = mag * 10 + d;
        i += 1;
    }
    assert(body.subrange(0, n - start) =~= body);
    if neg {
        if mag == 9223372036854775808 {
            Some(i64::MIN)
        } else {
            Some(-(mag as i64))
        }
    } else {
        Some(mag as i64)
    }
}

/// Reads an unsigned decimal integer: an optional `+`, then digits only.
pub fn parse_u64(s: &str) -> (r: Option<u64>)
    ensures
        r matches Some(v) ==> decimal_u64(s@) == Some(v as int),
        r is None ==> decimal_u64(s@) is None,
{
    let n = s.unicode_len();
    if n == 0 {
        return None;
    }
    let start: usize = if s.get_char(0) == '+' { 1 } else { 0 };
    let ghost body = if s@.len() > 0 && s@[0] == '+' { s@.drop_first() } else { s@ };
    assert(body =~= s@.subrange(start as int, n as int));
    if start == n {
        return None;
    }
    let mut i: usize = start;
    while i < n
        invariant
            n == s@.len(),
            start <= i <= n,
            body =~= s@.subrange(start as int, n as int),
            body == (if s@.len() > 0 && s@[0] == '+' { s@.drop_first() } else { s@ }),
            forall|j: int| 0 <= j < i - start ==> is_digit(#[trigger] body[j]),
        decreases n - i,
    {
        let c = s.get_char(i);
        if !('0' <= c && c <= '9') {
            assert(!is_digit(body[i - start]));
            return None;
        }
        i += 1;
    }
    assert(all_digits(body));
    let mut v: u64 = 0;
    let mut i: usize = start;
    while i < n
        invariant
            n == s@.len(),
            start <= i <= n,
            start < n,
            body =~= s@.subrange(start as int, n as int),
            body == (if s@.len() > 0 && s@[0] == '+' { s@.drop_first() } else { s@ }),
            all_digits(body),
            v as int == digits_value(body.subrange(0, i - start)),
        decreases n - i,
    {
        let c = s.get_char(i);
        let ghost next = body.subrange(0, i + 1 - start);
        assert(next.drop_last() =~= body.subrange(0, i - start));
        assert(next.last() == c);
        assert(is_digit(body[i - start]));
        let d = (c as u32 - '0' as u32) as u64;
        match v.checked_mul(10) {
            Some(m) => match m.checked_add(d) {
                Some(w) => {
                    v = w;
                },
                None => {
                    proof {
                        lemma_digits_prefix_le(body, i + 1 - start);
                    }
                    return None;
                },
            },
            None => {
                proof {
                    lemma_digits_prefix_le(body, i + 1 - start);
                }
                return None;
            },
        }
        i += 1;
    }
    assert(body.subrange(0, n - start) =~= body);
    Some(v)
}

/// The second-to-last of the components that the separator `a b` divides
/// `s` into; `None` when there is only one.
pub fn second_last_component(s: &str, a: char, b: char) -> (r: Option<String>)
    ensures
        split_pair(s@, a, b).len() >= 2 ==> (r matches Some(c) && c@ == split_pair(s@, a, b)[split_pair(s@, a, b).len() - 2]),
        split_pair(s@, a, b).len() < 2 ==> r is None,
{
    let n = s.unicode_len();
    let ghost mut done: Seq<Seq<char>> = seq![];
    let mut start: usize = 0;
    let mut i: usize = 0;
    let mut prev: Option<(usize, usize)> = None;
    while i < n && i + 1 < n
        invariant
            n == s@.len(),
            start <= i <= n,
            split_pair(s@, a, b) == done + split_from(s@, a, b, start as int, i as int),
            prev is None <==> done.len() == 0,
            prev matches Some(p) ==> p.0 <= p.1 <= n && done.last() == s@.subrange(p.0 as int, p.1 as int),
        decreases n - i,
    {
        if s.get_char(i) == a && s.get_char(i + 1) == b {
            proof {
                assert(split_from(s@, a, b, start as int, i as int) == seq![s@.subrange(start as int, i as int)] + split_from(s@, a, b, i + 2, i + 2));
                done = done.push(s@.subrange(start as int, i as int));
                assert(split_pair(s@, a, b) =~= done + split_from(s@, a, b, i + 2, i + 2));
            }
            prev = Some((start, i));
            start = i + 2;
            i = i + 2;
        } else {
            i = i + 1;
        }
    }
    proof {
        assert(split_from(s@, a, b, start as int, i as int) == seq![s@.subrange(start as int, n as int)]);
        let all = done.push(s@.subrange(start as int, n as int));
        assert(split_pair(s@, a, b) =~= all);
    }
    match prev {
        Some((from, to)) => Some(String::from_str(s.substring_char(from, to))),
        None => None,
    }
}

/// The components that the separator `a b` divides `s` into, in order.
pub fn split_components(s: &str, a: char, b: char) -> (r: Vec<String>)
    ensures
        r@.map_values(|c: String| c@) == split_pair(s@, a, b),
{
    let n = s.unicode_len();
    let mut done: Vec<String> = Vec::new();
    let mut start: usize = 0;
    let mut i: usize = 0;
    while i < n && i + 1 < n
        invariant
            n == s@.len(),
            start <= i <= n,
            split_pair(s@, a, b) == done@.map_values(|c: String| c@) + split_from(s@, a, b, start as int, i as int),
        decreases n - i,
    {
        if s.get_char(i) == a && s.get_char(i + 1) == b {
            let ghost before = done@;
            assert(split_from(s@, a, b, start as int, i as int) == seq![s@.subrange(start as int, i as int)] + split_from(s@, a, b, i + 2, i + 2));
            let c = String::from_str(s.substring_char(start, i));
            done.push(c);
            assert(done@.map_values(|c: String| c@) =~= before.map_values(|c: String| c@).push(s@.subrange(start as int, i as int)));
            assert(split_pair(s@, a, b) =~= done@.map_values(|c: String| c@) + split_from(s@, a, b, i + 2, i + 2));
            start = i + 2;
            i = i + 2;
        } else {
            i = i + 1;
        }
    }
    assert(split_from(s@, a, b, start as int, i as int) == seq![s@.subrange(start as int, n as int)]);
    let ghost before = done@;
    let c = String::from_str(s.substring_char(start, n));
    done.push(c);
    assert(done@.map_values(|c: String| c@) =~= before.map_values(|c: String| c@).push(s@.subrange(start as int, n as int)));
    assert(split_pair(s@, a, b) =~= done@.map_values(|c: String| c@));
    done
}

} // verus!
