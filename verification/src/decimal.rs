//! Base-10 ASCII rendering and parsing of unsigned 64-bit integers.

use vstd::prelude::*;
use vstd::string::StrSliceExecFns;
use vstd::string::StringExecFns;

verus! {

/// The decimal digit character for a value below 10.
pub open spec fn dec_digit_char(v: nat) -> char
    recommends
        v < 10,
{
    if v == 0 {
        '0'
    } else if v == 1 {
        '1'
    } else if v == 2 {
        '2'
    } else if v == 3 {
        '3'
    } else if v == 4 {
        '4'
    } else if v == 5 {
        '5'
    } else if v == 6 {
        '6'
    } else if v == 7 {
        '7'
    } else if v == 8 {
        '8'
    } else {
        '9'
    }
}

/// The canonical base-10 rendering of a natural number: no sign, no leading
/// zeros, a single `0` for zero.
pub open spec fn spec_dec_chars(n: nat) -> Seq<char>
    decreases n,
{
    if n < 10 {
        seq![dec_digit_char(n)]
    } else {
        spec_dec_chars(n / 10).push(dec_digit_char(n % 10))
    }
}

/// Whether a character is a decimal digit.
pub open spec fn is_digit(c: char) -> bool {
    c == '0' || c == '1' || c == '2' || c == '3' || c == '4' || c == '5' || c == '6' || c == '7'
        || c == '8' || c == '9'
}

/// The value of a decimal digit character.
pub open spec fn digit_val(c: char) -> nat
    recommends
        is_digit(c),
{
    if c == '0' {
        0
    } else if c == '1' {
        1
    } else if c == '2' {
        2
    } else if c == '3' {
        3
    } else if c == '4' {
        4
    } else if c == '5' {
        5
    } else if c == '6' {
        6
    } else if c == '7' {
        7
    } else if c == '8' {
        8
    } else {
        9
    }
}

/// Whether every character of a sequence is a decimal digit.
pub open spec fn is_digits(s: Seq<char>) -> bool {
    forall|i: int| 0 <= i < s.len() ==> is_digit(#[trigger] s[i])
}

/// The numeric value of a sequence of decimal digit characters.
pub open spec fn dec_value_of(s: Seq<char>) -> nat
    recommends
        is_digits(s),
    decreases s.len(),
{
    if s.len() == 0 {
        0
    } else {
        dec_value_of(s.drop_last()) * 10 + digit_val(s.last())
    }
}

/// Rendering a digit and reading it back is the identity.
pub proof fn lemma_digit_round_trip(v: nat)
    requires
        v < 10,
    ensures
        is_digit(dec_digit_char(v)),
        digit_val(dec_digit_char(v)) == v,
{
}

/// The canonical rendering of `n` is non-empty, consists of digits only, and
/// reads back as `n`.
pub proof fn lemma_dec_chars_value(n: nat)
    ensures
        spec_dec_chars(n).len() >= 1,
        is_digits(spec_dec_chars(n)),
        dec_value_of(spec_dec_chars(n)) == n,
    decreases n,
{
    if n < 10 {
        lemma_digit_round_trip(n);
        assert(spec_dec_chars(n) =~= Seq::<char>::empty().push(dec_digit_char(n)));
        assert(Seq::<char>::empty().push(dec_digit_char(n)).drop_last() =~= Seq::<char>::empty());
        assert(dec_value_of(Seq::<char>::empty()) == 0);
        assert(dec_value_of(spec_dec_chars(n)) == 0 * 10 + digit_val(dec_digit_char(n)));
    } else {
        lemma_dec_chars_value(n / 10);
        lemma_digit_round_trip(n % 10);
        let prefix = spec_dec_chars(n / 10);
        assert(prefix.push(dec_digit_char(n % 10)).drop_last() =~= prefix);
        assert(dec_value_of(prefix.push(dec_digit_char(n % 10))) == dec_value_of(prefix) * 10
            + digit_val(dec_digit_char(n % 10)));
    }
}

/// A digit sequence reads back as at least the value of any of its prefixes.
pub proof fn lemma_dec_value_prefix(s: Seq<char>, i: int)
    requires
        0 <= i <= s.len(),
    ensures
        dec_value_of(s.subrange(0, i)) <= dec_value_of(s),
    decreases s.len() - i,
{
    if i == s.len() {
        assert(s.subrange(0, i) =~= s);
    } else {
        assert(s.subrange(0, i + 1).drop_last() =~= s.subrange(0, i));
        lemma_dec_value_prefix(s, i + 1);
    }
}

/// The one-character string for a decimal digit.
fn dec_digit_str(d: u64) -> (r: &'static str)
    requires
        d < 10,
    ensures
        r@ =~= seq![dec_digit_char(d as nat)],
{
    proof {
        reveal_strlit("0");
        reveal_strlit("1");
        reveal_strlit("2");
        reveal_strlit("3");
        reveal_strlit("4");
        reveal_strlit("5");
        reveal_strlit("6");
        reveal_strlit("7");
        reveal_strlit("8");
        reveal_strlit("9");
    }
    if d == 0 {
        "0"
    } else if d == 1 {
        "1"
    } else if d == 2 {
        "2"
    } else if d == 3 {
        "3"
    } else if d == 4 {
        "4"
    } else if d == 5 {
        "5"
    } else if d == 6 {
        "6"
    } else if d == 7 {
        "7"
    } else if d == 8 {
        "8"
    } else {
        "9"
    }
}

/// Renders `n` in canonical base-10 ASCII.
pub fn u64_to_dec_string(n: u64) -> (s: String)
    ensures
        s@ == spec_dec_chars(n as nat),
    decreases n,
{
    if n < 10 {
        String::from_str(dec_digit_str(n))
    } else {
        let mut s = u64_to_dec_string(n / 10);
        s.append(dec_digit_str(n % 10));
        proof {
            assert(s@ =~= spec_dec_chars((n / 10) as nat).push(dec_digit_char((n % 10) as nat)));
        }
        s
    }
}

/// Parses a base-10 ASCII string into a `u64`.
///
/// Succeeds exactly on non-empty all-digit strings whose value fits in a
/// `u64`; a sign, other characters, or an overflowing value yield `None`.
pub fn parse_u64_dec(s: &str) -> (r: Option<u64>)
    ensures
        r is Some <==> s@.len() > 0 && is_digits(s@) && dec_value_of(s@) <= u64::MAX,
        r matches Some(v) ==> v as nat == dec_value_of(s@),
{
    let n = s.unicode_len();
    if n == 0 {
        return None;
    }
    let mut acc: u64 = 0;
    let mut i: usize = 0;
    while i < n
        invariant
            0 <= i <= n,
            n == s@.len(),
            is_digits(s@.subrange(0, i as int)),
            acc as nat == dec_value_of(s@.subrange(0, i as int)),
        decreases n - i,
    {
        let c = s.get_char(i);
        let d: u64 = if c == '0' {
            0
        } else if c == '1' {
            1
        } else if c == '2' {
            2
        } else if c == '3' {
            3
        } else if c == '4' {
            4
        } else if c == '5' {
            5
        } else if c == '6' {
            6
        } else if c == '7' {
            7
        } else if c == '8' {
            8
        } else if c == '9' {
            9
        } else {
            proof {
                assert(!is_digit(s@[i as int]));
            }
            return None;
        };
        proof {
            assert(s@.subrange(0, i + 1).drop_last() =~= s@.subrange(0, i as int));
            assert(s@.subrange(0, i + 1).last() == s@[i as int]);
        }
        let shifted = match acc.checked_mul(10) {
            Some(v) => v,
            None => {
                proof {
                    lemma_dec_value_prefix(s@, i + 1);
                }
                return None;
            },
        };
        acc = match shifted.checked_add(d) {
            Some(v) => v,
            None => {
                proof {
                    lemma_dec_value_prefix(s@, i + 1);
                }
                return None;
            },
        };
        i = i + 1;
    }
    proof {
        assert(s@.subrange(0, n as int) =~= s@);
    }
    Some(acc)
}

} // verus!
