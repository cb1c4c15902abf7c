//! Shared text helpers for the notation parsers and printers: character
//! extraction, whitespace trimming and stripping, and digit parsing. The
//! whitespace set is the ASCII one: space, tab, newline and carriage
//! return.

use vstd::prelude::*;
use vstd::string::StrSliceExecFns;

verus! {

/// ASCII whitespace.
pub open spec fn is_space_char(c: char) -> bool {
    c == ' ' || c == '\t' || c == '\n' || c == '\r'
}

/// The sequence with its leading whitespace removed.
pub open spec fn drop_leading_spaces(s: Seq<char>) -> Seq<char>
    decreases s.len(),
{
    if s.len() > 0 && is_space_char(s.first()) {
        drop_leading_spaces(s.drop_first())
    } else {
        s
    }
}

/// The sequence with its trailing whitespace removed.
pub open spec fn drop_trailing_spaces(s: Seq<char>) -> Seq<char>
    decreases s.len(),
{
    if s.len() > 0 && is_space_char(s.last()) {
        drop_trailing_spaces(s.drop_last())
    } else {
        s
    }
}

/// The sequence with whitespace removed at both ends.
pub open spec fn spec_trim(s: Seq<char>) -> Seq<char> {
    drop_trailing_spaces(drop_leading_spaces(s))
}

/// The sequence with every whitespace character removed.
pub open spec fn strip_spaces(s: Seq<char>) -> Seq<char>
    decreases s.len(),
{
    if s.len() == 0 {
        s
    } else if is_space_char(s.last()) {
        strip_spaces(s.drop_last())
    } else {
        strip_spaces(s.drop_last()).push(s.last())
    }
}

/// A decimal digit.
pub open spec fn is_digit_char(c: char) -> bool {
    '0' <= c && c <= '9'
}

/// The value of a decimal digit.
pub open spec fn digit_of(c: char) -> int {
    (c as int) - ('0' as int)
}

/// The value of a digit string, most significant first.
pub open spec fn digits_value(s: Seq<char>) -> int
    decreases s.len(),
{
    if s.len() == 0 {
        0
    } else {
        digits_value(s.drop_last()) * 10 + digit_of(s.last())
    }
}

/// Whether a string is a plain base-ten numeral: nonempty and digits only.
pub open spec fn all_digits(s: Seq<char>) -> bool {
    s.len() > 0 && forall|i: int| 0 <= i < s.len() ==> is_digit_char(#[trigger] s[i])
}

/// What parsing a byte-sized numeral yields: its value when the string is
/// all digits and the value fits, nothing otherwise.
pub open spec fn parse_u8_value(s: Seq<char>) -> Option<int> {
    if all_digits(s) && 0 <= digits_value(s) <= 255 {
        Some(digits_value(s))
    } else {
        None
    }
}

/// Whether a character is a space, as the trimmers count them.
pub fn is_space(c: char) -> (r: bool)
    ensures
        r == is_space_char(c),
{
    c == ' ' || c == '\t' || c == '\n' || c == '\r'
}

/// The characters of a string, in order.
pub fn chars_of(s: &str) -> (r: Vec<char>)
    ensures
        r@ == s@,
{
    let n = s.unicode_len();
    let mut v: Vec<char> = Vec::new();
    let mut i: usize = 0;
    while i < n
        invariant
            n == s@.len(),
            0 <= i <= n,
            v@ == s@.subrange(0, i as int),
        decreases n - i,
    {
        proof {
            assert(s@.subrange(0, (i + 1) as int) =~= s@.subrange(0, i as int).push(
                s@[i as int],
            ));
        }
        v.push(s.get_char(i));
        i = i + 1;
    }
    proof {
        assert(s@.subrange(0, s@.len() as int) =~= s@);
    }
    v
}

/// Dropping leading spaces reaches the first non-space position.
proof fn lemma_drop_leading_at(s: Seq<char>, i: int)
    requires
        0 <= i <= s.len(),
        forall|j: int| 0 <= j < i ==> is_space_char(#[trigger] s[j]),
        i < s.len() ==> !is_space_char(s[i]),
    ensures
        drop_leading_spaces(s) =~= s.subrange(i, s.len() as int),
    decreases i,
{
    if i == 0 {
        if s.len() > 0 && is_space_char(s.first()) {
        } else {
            assert(s.subrange(0, s.len() as int) =~= s);
        }
    } else {
        assert(is_space_char(s[0]));
        lemma_drop_leading_at(s.drop_first(), i - 1);
        assert(s.drop_first().subrange(i - 1, s.drop_first().len() as int) =~= s.subrange(
            i,
            s.len() as int,
        ));
    }
}

/// Dropping trailing spaces reaches the last non-space position.
proof fn lemma_drop_trailing_at(s: Seq<char>, e: int)
    requires
        0 <= e <= s.len(),
        forall|j: int| e <= j < s.len() ==> is_space_char(#[trigger] s[j]),
        e > 0 ==> !is_space_char(s[e - 1]),
    ensures
        drop_trailing_spaces(s) =~= s.subrange(0, e),
    decreases s.len() - e,
{
    if e == s.len() {
        if s.len() > 0 && is_space_char(s.last()) {
        } else {
            assert(s.subrange(0, s.len() as int) =~= s);
        }
    } else {
        assert(is_space_char(s.last()));
        lemma_drop_trailing_at(s.drop_last(), e);
    }
}

/// The bounds of the trimmed middle of a character list: everything
/// before the first bound and from the second on is whitespace, and the
/// middle is the trimmed sequence.
pub fn trim_bounds(v: &Vec<char>) -> (r: (usize, usize))
    ensures
        0 <= r.0 <= r.1 <= v@.len(),
        spec_trim(v@) == v@.subrange(r.0 as int, r.1 as int),
{
    let n = v.len();
    let mut a: usize = 0;
    while a < n && is_space(v[a])
        invariant
            n == v@.len(),
            0 <= a <= n,
            forall|j: int| 0 <= j < a ==> is_space_char(#[trigger] v@[j]),
        decreases n - a,
    {
        a = a + 1;
    }
    proof {
        lemma_drop_leading_at(v@, a as int);
    }
    let mut b: usize = n;
    while b > a && is_space(v[b - 1])
        invariant
            n == v@.len(),
            a <= b <= n,
            forall|j: int| b <= j < n ==> is_space_char(#[trigger] v@[j]),
        decreases b,
    {
        b = b - 1;
    }
    proof {
        let mid = v@.subrange(a as int, n as int);
        assert forall|j: int| (b - a) <= j < mid.len() implies is_space_char(
            #[trigger] mid[j],
        ) by {
            assert(mid[j] == v@[j + a]);
        }
        if b > a {
            assert(mid[b - a - 1] == v@[b - 1]);
        }
        lemma_drop_trailing_at(mid, b as int - a as int);
        assert(mid.subrange(0, b as int - a as int) =~= v@.subrange(a as int, b as int));
    }
    (a, b)
}

/// The characters of a list with every whitespace character removed.
pub fn strip_space_chars(v: &Vec<char>) -> (r: Vec<char>)
    ensures
        r@ == strip_spaces(v@),
{
    let mut out: Vec<char> = Vec::new();
    let mut i: usize = 0;
    while i < v.len()
        invariant
            0 <= i <= v@.len(),
            out@ == strip_spaces(v@.subrange(0, i as int)),
        decreases v@.len() - i,
    {
        proof {
            assert(v@.subrange(0, (i + 1) as int).drop_last() =~= v@.subrange(0, i as int));
            assert(v@.subrange(0, (i + 1) as int).last() == v@[i as int]);
        }
        if !is_space(v[i]) {
            out.push(v[i]);
        }
        i = i + 1;
    }
    proof {
        assert(v@.subrange(0, v@.len() as int) =~= v@);
    }
    out
}

/// Whether the tail of a character list, from `start` on, reads exactly
/// as the given text.
pub fn tail_eq_lit(v: &Vec<char>, start: usize, lit: &str) -> (r: bool)
    requires
        start <= v@.len(),
    ensures
        r == (v@.subrange(start as int, v@.len() as int) == lit@),
{
    let ghost tail = v@.subrange(start as int, v@.len() as int);
    let m = lit.unicode_len();
    if v.len() - start != m {
        proof {
            assert(tail.len() != lit@.len());
        }
        return false;
    }
    let mut i: usize = 0;
    while i < m
        invariant
            start + m == v@.len(),
            v@.len() <= usize::MAX,
            m == lit@.len(),
            tail == v@.subrange(start as int, v@.len() as int),
            0 <= i <= m,
            forall|j: int| 0 <= j < i ==> tail[j] == lit@[j],
        decreases m - i,
    {
        proof {
            assert(tail[i as int] == v@[(start + i) as int]);
        }
        if v[start + i] != lit.get_char(i) {
            proof {
                assert(tail[i as int] != lit@[i as int]);
            }
            return false;
        }
        i = i + 1;
    }
    proof {
        assert(tail =~= lit@);
    }
    true
}

/// Parse a slice of a character list, from `start` up to `end`, as a
/// byte-sized numeral: digits only, value at most 255.
pub fn parse_u8_range(v: &Vec<char>, start: usize, end: usize) -> (r: Option<u8>)
    requires
        start <= end <= v@.len(),
    ensures
        r matches Some(d) ==> parse_u8_value(v@.subrange(start as int, end as int))
            == Some(d as int),
        r is None ==> parse_u8_value(v@.subrange(start as int, end as int)) is None,
    {
        let ghost tail = v@.subrange(start as int, end as int);
        let n = end;
        if start >= n {
            proof {
                assert(!all_digits(tail));
            }
            return None;
        }
        let mut acc: u32 = 0;
        let mut big: bool = false;
        let mut i: usize = start;
        while i < n
            invariant
                start < n == end <= v@.len(),
                tail == v@.subrange(start as int, end as int),
                start <= i <= n,
                forall|j: int|
                    start <= j < i ==> is_digit_char(#[trigger] v@[j]),
                !big ==> acc == digits_value(tail.subrange(0, i - start)) && acc <= 255,
                big ==> digits_value(tail.subrange(0, i - start)) > 255,
            decreases n - i,
        {
            let c = v[i];
            if !('0' <= c && c <= '9') {
                proof {
                    assert(tail[(i - start) as int] == v@[i as int]);
                    assert(!all_digits(tail));
                }
                return None;
            }
            let d: u32 = (c as u32) - ('0' as u32);
            proof {
                assert(tail.subrange(0, (i + 1 - start) as int).drop_last() =~= tail.subrange(
                    0,
                    (i - start) as int,
                ));
                assert(tail.subrange(0, (i + 1 - start) as int).last() == v@[i as int]);
                assert(d == digit_of(v@[i as int]));
            }
            if big || acc * 10 + d > 255 {
                proof {
                    if !big {
                        assert(digits_value(tail.subrange(0, (i + 1 - start) as int)) > 255);
                    } else {
                        assert(digits_value(tail.subrange(0, (i - start) as int)) > 255);
                        assert(digits_value(tail.subrange(0, (i + 1 - start) as int)) >= 10
                            * digits_value(tail.subrange(0, (i - start) as int)));
                    }
                }
                big = true;
            } else {
                acc = acc * 10 + d;
            }
            i = i + 1;
        }
        proof {
            assert(tail.subrange(0, tail.len() as int) =~= tail);
            assert(all_digits(tail)) by {
                assert forall|j: int| 0 <= j < tail.len() implies is_digit_char(
                    #[trigger] tail[j],
                ) by {
                    assert(tail[j] == v@[j + start]);
                }
            }
        }
        if big {
            None
        } else {
            Some(acc as u8)
        }
    }

} // verus!
