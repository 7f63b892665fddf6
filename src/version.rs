//! Dotted numeric versions ("1.72.0") and their ordering.

use vstd::prelude::*;
use vstd::string::*;

verus! {

pub open spec fn is_digit(c: char) -> bool {
    '0' <= c && c <= '9'
}

pub open spec fn digit_value(c: char) -> int {
    (c as int) - ('0' as int)
}

/// The decimal value of a string of digits.
pub open spec fn digits_value(s: Seq<char>) -> int
    decreases s.len(),
{
    if s.len() == 0 {
        0
    } else {
        digits_value(s.drop_last()) * 10 + digit_value(s.last())
    }
}

/// One component of a version: one or more digits whose value fits in a `u64`.
pub open spec fn is_component(s: Seq<char>) -> bool {
    &&& s.len() > 0
    &&& forall|i: int| 0 <= i < s.len() ==> is_digit(#[trigger] s[i])
    &&& digits_value(s) <= u64::MAX
}

/// The pieces of `s` between its dots, in order (one more piece than dots).
pub open spec fn split_dots(s: Seq<char>) -> Seq<Seq<char>>
    decreases s.len(),
{
    if s.len() == 0 {
        seq![Seq::empty()]
    } else {
        let rest = split_dots(s.drop_last());
        if s.last() == '.' {
            rest.push(Seq::empty())
        } else {
            rest.update(rest.len() - 1, rest.last().push(s.last()))
        }
    }
}

pub open spec fn component_or_zero(parts: Seq<Seq<char>>, i: int) -> int {
    if i < parts.len() {
        digits_value(parts[i])
    } else {
        0
    }
}

/// The (major, minor, patch) triple that `s` denotes: one to three components
/// separated by dots, missing trailing components read as 0. `None` when `s`
/// is malformed.
pub open spec fn parse_version(s: Seq<char>) -> Option<(int, int, int)> {
    let parts = split_dots(s);
    if 1 <= parts.len() <= 3 && forall|i: int| 0 <= i < parts.len() ==> is_component(#[trigger] parts[i]) {
        Some((component_or_zero(parts, 0), component_or_zero(parts, 1), component_or_zero(parts, 2)))
    } else {
        None
    }
}

/// Lexicographic order on (major, minor, patch).
pub open spec fn triple_after(a: (int, int, int), b: (int, int, int)) -> bool {
    ||| a.0 > b.0
    ||| a.0 == b.0 && a.1 > b.1
    ||| a.0 == b.0 && a.1 == b.1 && a.2 > b.2
}

/// `a` is ordered after `b`, or equal to it when `strictly` is false. Fails
/// closed: false when either version is malformed.
pub open spec fn newer_spec(a: Seq<char>, b: Seq<char>, strictly: bool) -> bool {
    match (parse_version(a), parse_version(b)) {
        (Some(x), Some(y)) => triple_after(x, y) || (!strictly && x == y),
        _ => false,
    }
}

spec fn views(parts: Seq<Vec<char>>) -> Seq<Seq<char>> {
    parts.map_values(|p: Vec<char>| p@)
}

proof fn lemma_split_dots_nonempty(s: Seq<char>)
    ensures
        split_dots(s).len() >= 1,
    decreases s.len(),
{
    if s.len() > 0 {
        lemma_split_dots_nonempty(s.drop_last());
    }
}

/// For a string of digits, the value of the whole is at least that of any prefix.
proof fn lemma_digits_value_prefix(s: Seq<char>, j: int)
    requires
        0 <= j <= s.len(),
        forall|i: int| 0 <= i < s.len() ==> is_digit(#[trigger] s[i]),
    ensures
        0 <= digits_value(s.take(j)) <= digits_value(s),
    decreases s.len(),
{
    if j == s.len() {
        assert(s.take(j) =~= s);
        if s.len() > 0 {
            lemma_digits_value_prefix(s.drop_last(), j - 1);
            assert(s.drop_last().take(j - 1) =~= s.drop_last());
        }
    } else {
        let d = s.drop_last();
        assert(forall|i: int| 0 <= i < d.len() ==> is_digit(#[trigger] d[i]) ==> is_digit(s[i]));
        lemma_digits_value_prefix(d, j);
        assert(d.take(j) =~= s.take(j));
        assert(is_digit(s[s.len() - 1]));
    }
}

/// Reads one component; `None` when it is empty, holds a non-digit or overflows.
fn parse_component(p: &Vec<char>) -> (r: Option<u64>)
    ensures
        match r {
            Some(v) => is_component(p@) && v as int == digits_value(p@),
            None => !is_component(p@),
        },
{
    if p.len() == 0 {
        return None;
    }
    let mut v: u64 = 0;
    let mut i: usize = 0;
    while i < p.len()
        invariant
            0 <= i <= p.len(),
            v as int == digits_value(p@.take(i as int)),
            forall|j: int| 0 <= j < i ==> is_digit(#[trigger] p@[j]),
        decreases p.len() - i,
    {
        let c = p[i];
        if !('0' <= c && c <= '9') {
            return None;
        }
        let d: u64 = ((c as u32) - ('0' as u32)) as u64;
        proof {
            assert(p@.take(i + 1).drop_last() =~= p@.take(i as int));
        }
        let next = v.checked_mul(10);
        let next = match next {
            Some(m) => m.checked_add(d),
            None => None,
        };
        match next {
            Some(n) => {
                v = n;
            },
            None => {
                proof {
                    if forall|j: int| 0 <= j < p@.len() ==> is_digit(#[trigger] p@[j]) {
                        lemma_digits_value_prefix(p@, i + 1);
                    }
                }
                return None;
            },
        }
        i += 1;
    }
    assert(p@.take(i as int) =~= p@);
    Some(v)
}

/// Cuts `s` at its dots.
fn split_components(s: &str) -> (parts: Vec<Vec<char>>)
    ensures
        views(parts@) == split_dots(s@),
{
    let n = s.unicode_len();
    let mut done: Vec<Vec<char>> = Vec::new();
    let mut cur: Vec<char> = Vec::new();
    let mut i: usize = 0;
    proof {
        assert(s@.take(0) =~= Seq::<char>::empty());
        assert(views(done@).push(cur@) =~= split_dots(s@.take(0)));
    }
    while i < n
        invariant
            n == s@.len(),
            0 <= i <= n,
            views(done@).push(cur@) == split_dots(s@.take(i as int)),
        decreases n - i,
    {
        let c = s.get_char(i);
        let ghost before = views(done@).push(cur@);
        proof {
            assert(s@.take(i + 1).drop_last() =~= s@.take(i as int));
            lemma_split_dots_nonempty(s@.take(i as int));
        }
        if c == '.' {
            done.push(cur);
            cur = Vec::new();
            assert(views(done@).push(cur@) =~= before.push(Seq::empty()));
        } else {
            cur.push(c);
            assert(views(done@).push(cur@) =~= before.update(
                before.len() - 1,
                before.last().push(c),
            ));
        }
        i += 1;
    }
    assert(s@.take(n as int) =~= s@);
    done.push(cur);
    done
}

/// Parses a version into (major, minor, patch); `None` when it is malformed.
pub fn parse_version_triple(s: &str) -> (r: Option<(u64, u64, u64)>)
    ensures
        match r {
            Some(t) => parse_version(s@) == Some((t.0 as int, t.1 as int, t.2 as int)),
            None => parse_version(s@).is_none(),
        },
{
    let parts = split_components(s);
    let ghost pv = views(parts@);
    assert(pv.len() == parts@.len());
    if parts.len() == 0 || parts.len() > 3 {
        return None;
    }
    let mut values: Vec<u64> = Vec::new();
    let mut i: usize = 0;
    while i < parts.len()
        invariant
            pv == views(parts@),
            pv == split_dots(s@),
            1 <= parts.len() <= 3,
            0 <= i <= parts.len(),
            values@.len() == i,
            forall|j: int| 0 <= j < i ==> is_component(#[trigger] pv[j]),
            forall|j: int| 0 <= j < i ==> values@[j] as int == digits_value(#[trigger] pv[j]),
        decreases parts.len() - i,
    {
        assert(pv[i as int] == parts@[i as int]@);
        match parse_component(&parts[i]) {
            Some(v) => {
                values.push(v);
            },
            None => {
                proof {
                    let parts_of_s = split_dots(s@);
                    assert(parts_of_s == pv);
                    assert(!is_component(parts_of_s[i as int]));
                }
                return None;
            },
        }
        i += 1;
    }
    let major = values[0];
    let minor = if values.len() > 1 {
        values[1]
    } else {
        0
    };
    let patch = if values.len() > 2 {
        values[2]
    } else {
        0
    };
    Some((major, minor, patch))
}

/// Whether version `a` is ordered after version `b`, component by component
/// (major, minor, patch). With `strictly` false, equal versions count as newer.
/// A malformed version on either side gives false.
pub fn is_newer(a: &String, b: &String, strictly: bool) -> (r: bool)
    ensures
        r == newer_spec(a@, b@, strictly),
{
    let x = parse_version_triple(a.as_str());
    let y = parse_version_triple(b.as_str());
    match (x, y) {
        (Some(x), Some(y)) => {
            let after = x.0 > y.0 || (x.0 == y.0 && x.1 > y.1) || (x.0 == y.0 && x.1 == y.1
                && x.2 > y.2);
            let same = x.0 == y.0 && x.1 == y.1 && x.2 == y.2;
            after || (!strictly && same)
        },
        _ => false,
    }
}

} // verus!
