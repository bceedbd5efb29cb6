//! The numeric fields of the wire payload: base-10 floating-point text.
//!
//! Grammar, with `Digit` the ASCII digits:
//!   Numeric  ::= Sign? Mantissa Exponent?
//!   Mantissa ::= Digit+ | Digit+ '.' Digit* | Digit* '.' Digit+
//!   Exponent ::= ('e' | 'E') Sign? Digit+
//!   Sign     ::= '+' | '-'

use vstd::prelude::*;

verus! {

/// An ASCII decimal digit.
pub open spec fn is_digit(c: char) -> bool {
    48 <= c as int && c as int <= 57
}

pub open spec fn all_digits(s: Seq<char>) -> bool {
    forall|i: int| 0 <= i < s.len() ==> is_digit(s[i])
}

pub open spec fn is_sign(c: char) -> bool {
    c == '+' || c == '-'
}

/// `s` without its leading sign, if it has one.
pub open spec fn strip_sign(s: Seq<char>) -> Seq<char> {
    if s.len() > 0 && is_sign(s[0]) {
        s.drop_first()
    } else {
        s
    }
}

/// The index of the first occurrence of `a` or `b` in `s`, or `s.len()`.
pub open spec fn first_idx2(s: Seq<char>, a: char, b: char) -> int
    decreases s.len(),
{
    if s.len() == 0 {
        0
    } else if s[0] == a || s[0] == b {
        0
    } else {
        1 + first_idx2(s.drop_first(), a, b)
    }
}

/// Digits with at most one decimal point and at least one digit.
pub open spec fn is_mantissa(m: Seq<char>) -> bool {
    let d = first_idx2(m, '.', '.');
    if d == m.len() {
        m.len() > 0 && all_digits(m)
    } else {
        m.len() > 1 && all_digits(m.subrange(0, d)) && all_digits(
            m.subrange(d + 1, m.len() as int),
        )
    }
}

/// What may follow the exponent marker: an optionally signed digit run.
pub open spec fn is_exp_tail(u: Seq<char>) -> bool {
    strip_sign(u).len() > 0 && all_digits(strip_sign(u))
}

/// A mantissa, optionally followed by an exponent marker and its tail.
pub open spec fn is_unsigned_number(t: Seq<char>) -> bool {
    let e = first_idx2(t, 'e', 'E');
    if e == t.len() {
        is_mantissa(t)
    } else {
        is_mantissa(t.subrange(0, e)) && is_exp_tail(t.subrange(e + 1, t.len() as int))
    }
}

/// Base-10 floating-point text, per the grammar at the top of this module.
pub open spec fn is_numeric_text(s: Seq<char>) -> bool {
    is_unsigned_number(strip_sign(s))
}

/// `first_idx2` is the position of the first match: nothing before it
/// matches, and it lies within `s` exactly when some character matches.
pub proof fn lemma_first_idx2_at(s: Seq<char>, a: char, b: char, j: int)
    requires
        0 <= j <= s.len(),
        forall|i: int| 0 <= i < j ==> s[i] != a && s[i] != b,
        j == s.len() || s[j] == a || s[j] == b,
    ensures
        first_idx2(s, a, b) == j,
    decreases s.len(),
{
    if s.len() == 0 {
    } else if s[0] == a || s[0] == b {
        assert(j == 0);
    } else {
        assert(j >= 1);
        assert(forall|i: int|
            0 <= i < j - 1 ==> s.drop_first()[i] != a && s.drop_first()[i] != b);
        lemma_first_idx2_at(s.drop_first(), a, b, j - 1);
    }
}

/// The first index in `s[from..to]` holding `a` or `b`, or `to` if none does.
fn find_char2(s: &str, from: usize, to: usize, a: char, b: char) -> (r: usize)
    requires
        from <= to <= s@.len(),
    ensures
        from <= r <= to,
        r - from == first_idx2(s@.subrange(from as int, to as int), a, b),
{
    let ghost sub = s@.subrange(from as int, to as int);
    let mut i: usize = from;
    while i < to
        invariant
            from <= i <= to,
            to <= s@.len(),
            sub == s@.subrange(from as int, to as int),
            forall|k: int| from <= k < i ==> s@[k] != a && s@[k] != b,
        decreases to - i,
    {
        let c = s.get_char(i);
        if c == a || c == b {
            proof {
                assert(forall|k: int| 0 <= k < i - from ==> sub[k] == s@[k + from]);
                lemma_first_idx2_at(sub, a, b, i - from);
            }
            return i;
        }
        i = i + 1;
    }
    proof {
        assert(forall|k: int| 0 <= k < to - from ==> sub[k] == s@[k + from]);
        lemma_first_idx2_at(sub, a, b, to - from);
    }
    to
}

/// Whether every character of `s[from..to]` is a decimal digit.
fn all_digits_range(s: &str, from: usize, to: usize) -> (r: bool)
    requires
        from <= to <= s@.len(),
    ensures
        r == all_digits(s@.subrange(from as int, to as int)),
{
    let ghost sub = s@.subrange(from as int, to as int);
    let mut i: usize = from;
    while i < to
        invariant
            from <= i <= to,
            to <= s@.len(),
            sub == s@.subrange(from as int, to as int),
            forall|k: int| from <= k < i ==> is_digit(s@[k]),
        decreases to - i,
    {
        let c = s.get_char(i);
        let u = c as u32;
        if !(48 <= u && u <= 57) {
            proof {
                assert(sub[i - from] == s@[i as int]);
            }
            return false;
        }
        i = i + 1;
    }
    proof {
        assert(forall|k: int| 0 <= k < to - from ==> sub[k] == s@[k + from]);
    }
    true
}

/// Whether `s[from..to]` is a mantissa.
fn mantissa_range(s: &str, from: usize, to: usize) -> (r: bool)
    requires
        from <= to <= s@.len(),
    ensures
        r == is_mantissa(s@.subrange(from as int, to as int)),
{
    let ghost m = s@.subrange(from as int, to as int);
    let d = find_char2(s, from, to, '.', '.');
    if d == to {
        if from == to {
            false
        } else {
            all_digits_range(s, from, to)
        }
    } else {
        proof {
            assert(m.subrange(0, d - from) =~= s@.subrange(from as int, d as int));
            assert(m.subrange(d - from + 1, m.len() as int) =~= s@.subrange(
                d as int + 1,
                to as int,
            ));
        }
        if to - from <= 1 {
            false
        } else {
            let lo = all_digits_range(s, from, d);
            let hi = all_digits_range(s, d + 1, to);
            lo && hi
        }
    }
}

/// Whether `s[from..to]` is an exponent tail: an optionally signed digit run.
fn exp_tail_range(s: &str, from: usize, to: usize) -> (r: bool)
    requires
        from <= to <= s@.len(),
    ensures
        r == is_exp_tail(s@.subrange(from as int, to as int)),
{
    let ghost u = s@.subrange(from as int, to as int);
    let start: usize = if from < to {
        let c = s.get_char(from);
        if c == '+' || c == '-' {
            from + 1
        } else {
            from
        }
    } else {
        from
    };
    proof {
        assert(strip_sign(u) =~= s@.subrange(start as int, to as int));
    }
    if start == to {
        false
    } else {
        all_digits_range(s, start, to)
    }
}

/// Whether a whole token is base-10 floating-point text.
pub fn is_numeric_token(s: &str) -> (r: bool)
    ensures
        r == is_numeric_text(s@),
{
    let n = s.unicode_len();
    let start: usize = if n > 0 {
        let c = s.get_char(0);
        if c == '+' || c == '-' {
            1
        } else {
            0
        }
    } else {
        0
    };
    let ghost t = strip_sign(s@);
    proof {
        assert(t =~= s@.subrange(start as int, n as int));
    }
    let e = find_char2(s, start, n, 'e', 'E');
    if e == n {
        mantissa_range(s, start, n)
    } else {
        proof {
            assert(t.subrange(0, e - start) =~= s@.subrange(start as int, e as int));
            assert(t.subrange(e - start + 1, t.len() as int) =~= s@.subrange(
                e as int + 1,
                n as int,
            ));
        }
        let m_ok = mantissa_range(s, start, e);
        let x_ok = exp_tail_range(s, e + 1, n);
        m_ok && x_ok
    }
}

} // verus!
