//! Splitting a token into its dot-separated fields.

use vstd::prelude::*;
use vstd::string::StrSliceExecFns;
use vstd::string::StringExecFns;

verus! {

/// Whether a sequence is free of the field separator `.`.
pub open spec fn has_no_dot(s: Seq<char>) -> bool {
    forall|i: int| 0 <= i < s.len() ==> #[trigger] s[i] != '.'
}

/// The index of the first `.` in `s`, or `s.len()` if there is none.
pub open spec fn first_dot(s: Seq<char>) -> int
    decreases s.len(),
{
    if s.len() == 0 {
        0
    } else if s[0] == '.' {
        0
    } else {
        1 + first_dot(s.drop_first())
    }
}

/// `first_dot` is pinned by a separator-free prefix: if nothing before `k` is
/// a `.` and either `k` is the length or `s[k]` is a `.`, then `first_dot` is
/// `k`.
pub proof fn lemma_first_dot_at(s: Seq<char>, k: int)
    requires
        0 <= k <= s.len(),
        forall|i: int| 0 <= i < k ==> #[trigger] s[i] != '.',
        k < s.len() ==> s[k] == '.',
        k == s.len() ==> has_no_dot(s),
    ensures
        first_dot(s) == k,
    decreases s.len(),
{
    if s.len() == 0 {
    } else if s[0] == '.' {
        assert(k == 0);
    } else {
        let t = s.drop_first();
        assert forall|i: int| 0 <= i < k - 1 implies #[trigger] t[i] != '.' by {
            assert(t[i] == s[i + 1]);
        }
        if k == s.len() {
            assert forall|i: int| 0 <= i < t.len() implies #[trigger] t[i] != '.' by {
                assert(t[i] == s[i + 1]);
            }
        }
        lemma_first_dot_at(t, k - 1);
    }
}

/// The fields of `s`, split on every `.`; separators are not kept, and empty
/// fields are: `a.b.` has the three fields `a`, `b` and the empty one.
pub open spec fn spec_split_dots(s: Seq<char>) -> Seq<Seq<char>>
    decreases s.len(),
{
    let k = first_dot_clipped(s);
    if k == s.len() {
        seq![s]
    } else {
        seq![s.subrange(0, k)] + spec_split_dots(s.subrange(k + 1, s.len() as int))
    }
}

/// `first_dot`, clipped into bounds so that `spec_split_dots` terminates on
/// its own; `first_dot` never leaves those bounds, so the clip never acts.
pub open spec fn first_dot_clipped(s: Seq<char>) -> int {
    if 0 <= first_dot(s) <= s.len() {
        first_dot(s)
    } else {
        s.len() as int
    }
}

/// A separator-free sequence is a single field.
pub proof fn lemma_split_no_dot(s: Seq<char>)
    requires
        has_no_dot(s),
    ensures
        spec_split_dots(s) == seq![s],
{
    lemma_first_dot_at(s, s.len() as int);
}

/// Splitting takes a separator-free field off the front.
pub proof fn lemma_split_prefix(a: Seq<char>, rest: Seq<char>)
    requires
        has_no_dot(a),
    ensures
        spec_split_dots(a + seq!['.'] + rest) == seq![a] + spec_split_dots(rest),
{
    let s = a + seq!['.'] + rest;
    assert forall|i: int| 0 <= i < a.len() implies #[trigger] s[i] != '.' by {
        assert(s[i] == a[i]);
    }
    assert(s[a.len() as int] == '.');
    lemma_first_dot_at(s, a.len() as int);
    assert(s.subrange(0, a.len() as int) =~= a);
    assert(s.subrange(a.len() as int + 1, s.len() as int) =~= rest);
    assert(spec_split_dots(s) == seq![a] + spec_split_dots(rest));
}

/// Splits `s` on every `.`.
pub fn split_dots(s: &str) -> (parts: Vec<String>)
    ensures
        parts.deep_view() == spec_split_dots(s@),
{
    let n = s.unicode_len();
    let mut parts: Vec<String> = Vec::new();
    let mut start: usize = 0;
    let mut i: usize = 0;
    proof {
        assert(s@.subrange(0, n as int) =~= s@);
        assert(parts.deep_view() =~= Seq::<Seq<char>>::empty());
        assert(parts.deep_view() + spec_split_dots(s@) =~= spec_split_dots(s@));
    }
    while i < n
        invariant
            n == s@.len(),
            0 <= start <= i <= n,
            forall|k: int| start <= k < i ==> s@[k] != '.',
            spec_split_dots(s@) == parts.deep_view() + spec_split_dots(
                s@.subrange(start as int, n as int),
            ),
        decreases n - i,
    {
        if s.get_char(i) == '.' {
            let ghost old_parts = parts.deep_view();
            let ghost u = s@.subrange(start as int, n as int);
            proof {
                assert forall|k: int| 0 <= k < i - start implies #[trigger] u[k] != '.' by {
                    assert(u[k] == s@[start + k]);
                }
                assert(u[i - start] == '.');
                lemma_first_dot_at(u, i - start);
                assert(u.subrange(0, i - start) =~= s@.subrange(start as int, i as int));
                assert(u.subrange(i - start + 1, u.len() as int) =~= s@.subrange(
                    i + 1,
                    n as int,
                ));
            }
            let field = String::from_str(s.substring_char(start, i));
            parts.push(field);
            proof {
                assert(parts.deep_view() =~= old_parts.push(s@.subrange(start as int, i as int)));
                assert(parts.deep_view() + spec_split_dots(s@.subrange(i + 1, n as int))
                    =~= old_parts + spec_split_dots(u));
            }
            start = i + 1;
        }
        i = i + 1;
    }
    let ghost old_parts = parts.deep_view();
    let ghost u = s@.subrange(start as int, n as int);
    proof {
        assert forall|k: int| 0 <= k < u.len() implies #[trigger] u[k] != '.' by {
            assert(u[k] == s@[start + k]);
        }
        lemma_split_no_dot(u);
    }
    let field = String::from_str(s.substring_char(start, n));
    parts.push(field);
    proof {
        assert(parts.deep_view() =~= old_parts.push(u));
        assert(parts.deep_view() =~= old_parts + spec_split_dots(u));
    }
    parts
}

} // verus!
