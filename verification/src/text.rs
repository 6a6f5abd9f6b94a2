//! Verified text utilities: decimal rendering of integers, zero padding,
//! affix tests, and the two-part split used by time-range filters.

use vstd::prelude::*;

verus! {

// ---------------------------------------------------------------------------
// Decimal rendering
// ---------------------------------------------------------------------------

/// The character for one decimal digit.
pub open spec fn digit_char(d: int) -> char {
    if d == 0 {
        '0'
    } else if d == 1 {
        '1'
    } else if d == 2 {
        '2'
    } else if d == 3 {
        '3'
    } else if d == 4 {
        '4'
    } else if d == 5 {
        '5'
    } else if d == 6 {
        '6'
    } else if d == 7 {
        '7'
    } else if d == 8 {
        '8'
    } else {
        '9'
    }
}

/// Decimal digits of a non-negative integer, most significant first, with no
/// leading zeros except for the single digit of zero itself.
pub open spec fn dec_digits(n: int) -> Seq<char>
    recommends
        n >= 0,
    decreases n,
{
    if n < 10 {
        seq![digit_char(n)]
    } else {
        dec_digits(n / 10).push(digit_char(n % 10))
    }
}

/// Decimal rendering of any integer: a minus sign before the digits of the
/// magnitude when negative, as Rust's formatter writes signed integers.
pub open spec fn int_digits(i: int) -> Seq<char> {
    if i >= 0 {
        dec_digits(i)
    } else {
        seq!['-'] + dec_digits(-i)
    }
}

/// `s` left-padded with zeros up to width `w`; unchanged when already wide
/// enough.
pub open spec fn zero_pad(s: Seq<char>, w: int) -> Seq<char> {
    if s.len() >= w {
        s
    } else {
        Seq::new((w - s.len()) as nat, |i: int| '0') + s
    }
}

/// One decimal digit as a string slice.
fn digit_str(d: u8) -> (r: &'static str)
    requires
        d < 10,
    ensures
        r@ == seq![digit_char(d as int)],
{
    proof {
        reveal_strlit("0");
        reveal_strlit("1");
        reveal_strlit("2");
        reveal_strlit("3");
        reveal_strlit("4");
        reveal_strlit("5");
        reveal_strlit("6");
        reveal_strlit("7");
        reveal_strlit("8");
        reveal_strlit("9");
    }
    let r = match d {
        0 => "0",
        1 => "1",
        2 => "2",
        3 => "3",
        4 => "4",
        5 => "5",
        6 => "6",
        7 => "7",
        8 => "8",
        _ => "9",
    };
    proof {
        assert(r@ =~= seq![digit_char(d as int)]);
    }
    r
}

/// Renders a non-negative integer in decimal.
pub fn u128_string(n: u128) -> (r: String)
    ensures
        r@ == dec_digits(n as int),
    decreases n,
{
    if n < 10 {
        let mut s = String::new();
        s.append(digit_str(n as u8));
        proof {
            assert(s@ =~= dec_digits(n as int));
        }
        s
    } else {
        let mut s = u128_string(n / 10);
        s.append(digit_str((n % 10) as u8));
        proof {
            assert(s@ =~= dec_digits(n as int));
        }
        s
    }
}

/// Renders a signed integer in decimal, minus sign included.
pub fn i64_string(i: i64) -> (r: String)
    ensures
        r@ == int_digits(i as int),
{
    if i >= 0 {
        u128_string(i as u128)
    } else {
        let magnitude: u128 = if i == i64::MIN {
            9223372036854775808u128
        } else {
            (-i) as u128
        };
        let mut s = String::new();
        proof {
            reveal_strlit("-");
        }
        s.append("-");
        let digits = u128_string(magnitude);
        s.append(digits.as_str());
        proof {
            assert(s@ =~= int_digits(i as int));
        }
        s
    }
}

/// Renders a non-negative integer in decimal, left-padded with zeros to
/// width `w`.
pub fn padded_u128_string(n: u128, w: usize) -> (r: String)
    ensures
        r@ == zero_pad(dec_digits(n as int), w as int),
{
    let digits = u128_string(n);
    let len = digits.as_str().unicode_len();
    let mut s = String::new();
    let mut k: usize = len;
    while k < w
        invariant
            len <= k,
            k == len || k <= w,
            len == dec_digits(n as int).len(),
            s@ =~= Seq::new((k - len) as nat, |i: int| '0'),
        decreases w - k,
    {
        s.append("0");
        k += 1;
        proof {
            reveal_strlit("0");
            assert(s@ =~= Seq::new((k - len) as nat, |i: int| '0'));
        }
    }
    s.append(digits.as_str());
    proof {
        assert(s@ =~= zero_pad(dec_digits(n as int), w as int));
    }
    s
}

// ---------------------------------------------------------------------------
// Affix tests and equality
// ---------------------------------------------------------------------------

/// `s` ends with the suffix `t`.
pub open spec fn spec_ends_with(s: Seq<char>, t: Seq<char>) -> bool {
    s.len() >= t.len() && s.skip(s.len() - t.len()) == t
}

/// Character-exact suffix test.
pub fn str_ends_with(s: &str, t: &str) -> (r: bool)
    ensures
        r == spec_ends_with(s@, t@),
{
    let sl = s.unicode_len();
    let tl = t.unicode_len();
    if sl < tl {
        return false;
    }
    let base = sl - tl;
    let mut i: usize = 0;
    while i < tl
        invariant
            i <= tl,
            tl <= sl,
            base == sl - tl,
            sl == s@.len(),
            tl == t@.len(),
            forall|j: int| 0 <= j < i ==> s@[base + j] == t@[j],
        decreases tl - i,
    {
        if s.get_char(base + i) != t.get_char(i) {
            proof {
                assert(s@.skip(base as int)[i as int] == s@[base + i]);
            }
            return false;
        }
        i += 1;
    }
    proof {
        assert(s@.skip(base as int) =~= t@);
    }
    true
}

/// Character-exact string equality.
pub fn str_eq(s: &str, t: &str) -> (r: bool)
    ensures
        r == (s@ == t@),
{
    let sl = s.unicode_len();
    let tl = t.unicode_len();
    if sl != tl {
        return false;
    }
    let mut i: usize = 0;
    while i < sl
        invariant
            i <= sl,
            sl == s@.len(),
            sl == t@.len(),
            forall|j: int| 0 <= j < i ==> s@[j] == t@[j],
        decreases sl - i,
    {
        if s.get_char(i) != t.get_char(i) {
            return false;
        }
        i += 1;
    }
    proof {
        assert(s@ =~= t@);
    }
    true
}

/// `s` begins with an underscore.
pub open spec fn spec_starts_with_underscore(s: Seq<char>) -> bool {
    s.len() > 0 && s[0] == '_'
}

/// Tests for a leading underscore.
pub fn starts_with_underscore(s: &str) -> (r: bool)
    ensures
        r == spec_starts_with_underscore(s@),
{
    if s.unicode_len() == 0 {
        false
    } else {
        s.get_char(0) == '_'
    }
}

// ---------------------------------------------------------------------------
// Splitting on the separator "to"
// ---------------------------------------------------------------------------

/// The separator `"to"` occurs at position `j` of `s`.
pub open spec fn to_match_at(s: Seq<char>, j: int) -> bool {
    0 <= j && j + 2 <= s.len() && s[j] == 't' && s[j + 1] == 'o'
}

/// Position of the leftmost `"to"` in `s`, or a negative value when there is
/// none.
pub open spec fn first_to(s: Seq<char>) -> int
    decreases s.len(),
{
    if s.len() < 2 {
        -1
    } else if s[0] == 't' && s[1] == 'o' {
        0
    } else {
        let r = first_to(s.skip(1));
        if r < 0 {
            -1
        } else {
            r + 1
        }
    }
}

/// `first_to` finds the leftmost occurrence, and finds one whenever one
/// exists.
pub proof fn lemma_first_to(s: Seq<char>)
    ensures
        first_to(s) < 0 ==> forall|j: int| !to_match_at(s, j),
        first_to(s) >= 0 ==> to_match_at(s, first_to(s)),
        first_to(s) >= 0 ==> forall|k: int| 0 <= k < first_to(s) ==> !to_match_at(s, k),
    decreases s.len(),
{
    if s.len() < 2 {
        assert forall|j: int| !to_match_at(s, j) by {}
    } else if s[0] == 't' && s[1] == 'o' {
    } else {
        let tail = s.skip(1);
        lemma_first_to(tail);
        assert forall|j: int| 1 <= j implies (to_match_at(s, j) == to_match_at(tail, j - 1)) by {
            if j + 2 <= s.len() {
                assert(tail[j - 1] == s[j]);
                assert(tail[j] == s[j + 1]);
            }
        }
        if first_to(tail) < 0 {
            assert forall|j: int| !to_match_at(s, j) by {
                if to_match_at(s, j) {
                    if j == 0 {
                    } else {
                        assert(to_match_at(tail, j - 1));
                    }
                }
            }
        } else {
            let r = first_to(tail);
            assert(to_match_at(tail, r));
            assert(tail[r] == s[r + 1]);
            assert(tail[r + 1] == s[r + 2]);
            assert(to_match_at(s, r + 1));
            assert forall|k: int| 0 <= k < r + 1 implies !to_match_at(s, k) by {
                if to_match_at(s, k) {
                    if k == 0 {
                    } else {
                        assert(to_match_at(tail, k - 1));
                    }
                }
            }
        }
    }
}

/// The two tokens around a unique `"to"` separator, as the standard
/// left-to-right split produces them: `Some` exactly when the split yields two
/// parts.
pub open spec fn spec_time_parts(s: Seq<char>) -> Option<(Seq<char>, Seq<char>)> {
    let j = first_to(s);
    if j < 0 {
        None
    } else {
        let rest = s.skip(j + 2);
        if first_to(rest) >= 0 {
            None
        } else {
            Some((s.take(j), rest))
        }
    }
}

/// Scans for the leftmost `"to"`.
fn find_to(s: &str) -> (r: Option<usize>)
    ensures
        r matches Some(j) ==> j == first_to(s@) && j + 2 <= s@.len(),
        r is None ==> first_to(s@) < 0,
{
    let n = s.unicode_len();
    if n < 2 {
        proof {
            lemma_first_to(s@);
            if first_to(s@) >= 0 {
                assert(to_match_at(s@, first_to(s@)));
            }
        }
        return None;
    }
    let mut j: usize = 0;
    while j <= n - 2
        invariant
            n == s@.len(),
            n >= 2,
            j <= n - 1,
            forall|k: int| 0 <= k < j ==> !to_match_at(s@, k),
        decreases n - j,
    {
        if s.get_char(j) == 't' && s.get_char(j + 1) == 'o' {
            proof {
                lemma_first_to(s@);
                assert(to_match_at(s@, j as int));
                let f = first_to(s@);
                assert(f >= 0);
                assert(!(f < j)) by {
                    if 0 <= f < j {
                        assert(!to_match_at(s@, f));
                    }
                }
                assert(!(j < f));
            }
            return Some(j);
        }
        j += 1;
    }
    proof {
        lemma_first_to(s@);
        if first_to(s@) >= 0 {
            assert(to_match_at(s@, first_to(s@)));
        }
    }
    None
}

/// Splits `s` at its `"to"` separator when the split gives exactly two
/// tokens; any other number of tokens yields `None`.
pub fn split_two_on_to(s: &str) -> (r: Option<(String, String)>)
    ensures
        r matches Some(p) ==> spec_time_parts(s@) == Some((p.0@, p.1@)),
        r is None ==> spec_time_parts(s@) is None,
{
    let n = s.unicode_len();
    match find_to(s) {
        None => None,
        Some(j) => {
            let head = s.substring_char(0, j);
            let rest = s.substring_char(j + 2, n);
            proof {
                assert(rest@ =~= s@.skip(j + 2));
                assert(head@ =~= s@.take(j as int));
            }
            match find_to(rest) {
                Some(_) => None,
                None => Some((String::from_str(head), String::from_str(rest))),
            }
        },
    }
}

} // verus!
