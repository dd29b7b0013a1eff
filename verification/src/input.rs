//! Character-level helpers for reading user input: surrounding-whitespace
//! trimming and decimal parsing, with specifications over the character view.

use vstd::prelude::*;

verus! {

/// Whitespace accepted around the payload of a typed line.
pub open spec fn is_space(c: char) -> bool {
    c == ' ' || c == '\t' || c == '\n' || c == '\r'
}

/// Decimal digit.
pub open spec fn is_digit(c: char) -> bool {
    0x30 <= c as int && c as int <= 0x39
}

/// Numeric value of a decimal digit.
pub open spec fn digit_val(c: char) -> int {
    c as int - 0x30
}

/// Index of the first non-space character at or after `i`; `s.len()` if
/// everything from `i` on is whitespace.
pub open spec fn skip_from(s: Seq<char>, i: int) -> int
    recommends
        0 <= i <= s.len(),
    decreases s.len() - i when i <= s.len()
{
    if i < s.len() && is_space(s[i]) {
        skip_from(s, i + 1)
    } else {
        i
    }
}

/// Index just past the last non-space character strictly before `j`; `0` if
/// everything before `j` is whitespace.
pub open spec fn rtrim_to(s: Seq<char>, j: int) -> int
    recommends
        0 <= j <= s.len(),
    decreases j when 0 <= j
{
    if j > 0 && is_space(s[j - 1]) {
        rtrim_to(s, j - 1)
    } else {
        j
    }
}

/// The line with surrounding whitespace removed.
pub open spec fn trimmed(s: Seq<char>) -> Seq<char> {
    if skip_from(s, 0) == s.len() {
        Seq::empty()
    } else {
        s.subrange(skip_from(s, 0), rtrim_to(s, s.len() as int))
    }
}

proof fn lemma_skip_from_props(s: Seq<char>, i: int)
    requires
        0 <= i <= s.len(),
    ensures
        i <= skip_from(s, i) <= s.len(),
        skip_from(s, i) < s.len() ==> !is_space(s[skip_from(s, i)]),
    decreases s.len() - i,
{
    if i < s.len() && is_space(s[i]) {
        lemma_skip_from_props(s, i + 1);
    }
}

proof fn lemma_rtrim_to_above(s: Seq<char>, j: int, k: int)
    requires
        0 <= k < j <= s.len(),
        !is_space(s[k]),
    ensures
        rtrim_to(s, j) > k,
    decreases j,
{
    if j > 0 && is_space(s[j - 1]) {
        lemma_rtrim_to_above(s, j - 1, k);
    }
}

/// Every character of `t` is a decimal digit.
pub open spec fn all_digits(t: Seq<char>) -> bool {
    forall|k: int| 0 <= k < t.len() ==> is_digit(#[trigger] t[k])
}

/// Value of a digit string read as a decimal number.
pub open spec fn digit_seq_val(t: Seq<char>) -> int
    decreases t.len(),
{
    if t.len() == 0 {
        0
    } else {
        digit_seq_val(t.drop_last()) * 10 + digit_val(t.last())
    }
}

/// The digits of a trimmed numeric token: an optional leading plus sign is
/// accepted, as the standard unsigned parser accepts it.
pub open spec fn numeric_body(t: Seq<char>) -> Seq<char> {
    if t.len() > 0 && t[0] == '+' {
        t.drop_first()
    } else {
        t
    }
}

/// The line, once trimmed, is a plus-optional nonempty digit string whose
/// value fits in a `u32`: exactly the lines the game treats as numbers.
pub open spec fn parses_as_u32(s: Seq<char>) -> bool {
    let d = numeric_body(trimmed(s));
    d.len() > 0 && all_digits(d) && digit_seq_val(d) <= u32::MAX
}

/// The number such a line denotes.
pub open spec fn u32_value(s: Seq<char>) -> int {
    digit_seq_val(numeric_body(trimmed(s)))
}

proof fn lemma_digit_seq_val_nonneg(t: Seq<char>)
    requires
        all_digits(t),
    ensures
        digit_seq_val(t) >= 0,
    decreases t.len(),
{
    if t.len() > 0 {
        assert(all_digits(t.drop_last()));
        lemma_digit_seq_val_nonneg(t.drop_last());
    }
}

proof fn lemma_digit_seq_val_prefix(t: Seq<char>, k: int)
    requires
        all_digits(t),
        0 <= k <= t.len(),
    ensures
        digit_seq_val(t.subrange(0, k)) <= digit_seq_val(t),
    decreases t.len(),
{
    if k == t.len() {
        assert(t.subrange(0, k) =~= t);
    } else {
        let u = t.drop_last();
        assert(all_digits(u));
        assert(t.subrange(0, k) =~= u.subrange(0, k));
        lemma_digit_seq_val_prefix(u, k);
        lemma_digit_seq_val_nonneg(u);
    }
}

fn is_digit_char(c: char) -> (r: bool)
    ensures
        r == is_digit(c),
{
    let v = c as u32;
    48 <= v && v <= 57
}

fn digit_value(c: char) -> (r: u32)
    requires
        is_digit(c),
    ensures
        r as int == digit_val(c),
{
    c as u32 - 48
}

fn is_space_char(c: char) -> (r: bool)
    ensures
        r == is_space(c),
{
    c == ' ' || c == '\t' || c == '\n' || c == '\r'
}

/// The indices that bracket the non-whitespace payload of `s`: the payload is
/// `s@.subrange(r.0, r.1)`, which equals `trimmed(s@)`.
pub fn trim_bounds(s: &str) -> (r: (usize, usize))
    ensures
        r.0 <= r.1 <= s@.len(),
        trimmed(s@) =~= s@.subrange(r.0 as int, r.1 as int),
{
    let n = s.unicode_len();
    let mut lo: usize = 0;
    loop
        invariant
            lo <= n,
            n == s@.len(),
            skip_from(s@, 0) == skip_from(s@, lo as int),
        ensures
            lo as int == skip_from(s@, 0),
            lo <= n,
            n == s@.len(),
        decreases n - lo,
    {
        if lo < n {
            let c = s.get_char(lo);
            if is_space_char(c) {
                lo = lo + 1;
            } else {
                break;
            }
        } else {
            break;
        }
    }
    if lo == n {
        return (n, n);
    }
    proof {
        lemma_skip_from_props(s@, 0);
    }
    let mut hi: usize = n;
    loop
        invariant
            lo < hi <= n,
            n == s@.len(),
            lo as int == skip_from(s@, 0),
            !is_space(s@[lo as int]),
            rtrim_to(s@, n as int) == rtrim_to(s@, hi as int),
        ensures
            lo < hi <= n,
            hi as int == rtrim_to(s@, n as int),
        decreases hi,
    {
        let c = s.get_char(hi - 1);
        if is_space_char(c) {
            proof {
                lemma_rtrim_to_above(s@, hi as int, lo as int);
            }
            hi = hi - 1;
        } else {
            break;
        }
    }
    (lo, hi)
}

/// Reads a typed line as an unsigned number, the way the game's prompts do:
/// surrounding whitespace is ignored, an optional plus sign is accepted, and
/// anything else — an empty line, a stray letter, a value past `u32::MAX` —
/// is no number at all.
pub fn parse_u32(s: &str) -> (r: Option<u32>)
    ensures
        match r {
            Some(v) => parses_as_u32(s@) && v as int == u32_value(s@),
            None => !parses_as_u32(s@),
        },
{
    let (lo, hi) = trim_bounds(s);
    let ghost t = trimmed(s@);
    let mut i = lo;
    if i < hi && s.get_char(i) == '+' {
        proof {
            assert(t[0] == s@[lo as int]);
        }
        i = i + 1;
    }
    let ghost d = numeric_body(t);
    proof {
        assert(d =~= s@.subrange(i as int, hi as int));
    }
    if i == hi {
        return None;
    }
    let mut val: u32 = 0;
    let mut j = i;
    while j < hi
        invariant
            i <= j <= hi <= s@.len(),
            d == s@.subrange(i as int, hi as int),
            d == numeric_body(trimmed(s@)),
            d.len() > 0,
            all_digits(s@.subrange(i as int, j as int)),
            val as int == digit_seq_val(s@.subrange(i as int, j as int)),
        decreases hi - j,
    {
        let c = s.get_char(j);
        if !is_digit_char(c) {
            proof {
                assert(!is_digit(d[j - i]));
            }
            return None;
        }
        let dv = digit_value(c);
        proof {
            assert(s@.subrange(i as int, j as int + 1).drop_last() =~= s@.subrange(
                i as int,
                j as int,
            ));
            assert(s@.subrange(i as int, j as int + 1).last() == c);
        }
        let wide: u64 = (val as u64) * 10 + (dv as u64);
        if wide > u32::MAX as u64 {
            proof {
                let p = s@.subrange(i as int, j as int + 1);
                assert(p =~= d.subrange(0, j as int + 1 - i as int));
                if all_digits(d) {
                    lemma_digit_seq_val_prefix(d, j as int + 1 - i as int);
                }
            }
            return None;
        }
        val = wide as u32;
        proof {
            assert(all_digits(s@.subrange(i as int, j as int + 1)));
        }
        j = j + 1;
    }
    proof {
        assert(s@.subrange(i as int, j as int) == d);
    }
    Some(val)
}

} // verus!
