//! Small text helpers over `str`/`String`, stated over `Seq<char>`.

use vstd::prelude::*;

verus! {

/// `s` with every trailing `/` removed (what `trim_end_matches('/')` leaves).
pub open spec fn spec_trim_trailing_slashes(s: Seq<char>) -> Seq<char>
    decreases s.len(),
{
    if s.len() > 0 && s.last() == '/' {
        spec_trim_trailing_slashes(s.drop_last())
    } else {
        s
    }
}

/// The code point of `c` after ASCII lower-casing (non-ASCII letters are kept).
pub open spec fn spec_ascii_lower(c: char) -> u32 {
    if 'A' <= c && c <= 'Z' {
        (c as u32 + 32) as u32
    } else {
        c as u32
    }
}

/// Equality of two strings up to ASCII case.
pub open spec fn spec_eq_ignore_ascii_case(a: Seq<char>, b: Seq<char>) -> bool {
    &&& a.len() == b.len()
    &&& forall|i: int| 0 <= i < a.len() ==> spec_ascii_lower(#[trigger] a[i]) == spec_ascii_lower(b[i])
}

/// Removes every trailing `/` from `s`.
pub fn trim_trailing_slashes(s: &str) -> (r: String)
    ensures
        r@ == spec_trim_trailing_slashes(s@),
{
    let n = s.unicode_len();
    let mut k: usize = n;
    assert(s@.subrange(0, n as int) =~= s@);
    while k > 0 && s.get_char(k - 1) == '/'
        invariant
            k <= n,
            n == s@.len(),
            spec_trim_trailing_slashes(s@.subrange(0, k as int)) == spec_trim_trailing_slashes(s@),
        decreases k,
    {
        assert(s@.subrange(0, k as int).drop_last() =~= s@.subrange(0, k - 1));
        k = k - 1;
    }
    let t = s.substring_char(0, k);
    String::from_str(t)
}

fn ascii_lower(c: char) -> (r: u32)
    ensures
        r == spec_ascii_lower(c),
{
    if 'A' <= c && c <= 'Z' {
        c as u32 + 32
    } else {
        c as u32
    }
}

/// Compares two strings ignoring ASCII case (what `str::eq_ignore_ascii_case` does).
pub fn eq_ignore_ascii_case(a: &str, b: &str) -> (r: bool)
    ensures
        r == spec_eq_ignore_ascii_case(a@, b@),
{
    let n = a.unicode_len();
    let m = b.unicode_len();
    if n != m {
        return false;
    }
    let mut i: usize = 0;
    while i < n
        invariant
            i <= n,
            n == a@.len(),
            m == b@.len(),
            n == m,
            forall|j: int| 0 <= j < i ==> spec_ascii_lower(#[trigger] a@[j]) == spec_ascii_lower(b@[j]),
        decreases n - i,
    {
        if ascii_lower(a.get_char(i)) != ascii_lower(b.get_char(i)) {
            return false;
        }
        i = i + 1;
    }
    true
}

/// Exact equality of two strings.
pub fn str_eq(a: &str, b: &str) -> (r: bool)
    ensures
        r == (a@ == b@),
{
    let n = a.unicode_len();
    let m = b.unicode_len();
    if n != m {
        return false;
    }
    let mut i: usize = 0;
    while i < n
        invariant
            i <= n,
            n == a@.len(),
            m == b@.len(),
            n == m,
            forall|j: int| 0 <= j < i ==> a@[j] == b@[j],
        decreases n - i,
    {
        if a.get_char(i) != b.get_char(i) {
            assert(a@[i as int] != b@[i as int]);
            return false;
        }
        i = i + 1;
    }
    assert(a@ =~= b@);
    true
}

/// An ASCII decimal digit.
pub open spec fn spec_is_digit(c: char) -> bool {
    '0' <= c && c <= '9'
}

/// Every character of `s` is an ASCII decimal digit.
pub open spec fn spec_all_digits(s: Seq<char>) -> bool {
    forall|i: int| 0 <= i < s.len() ==> spec_is_digit(#[trigger] s[i])
}

/// The value of a string of decimal digits, most significant first.
pub open spec fn spec_digits_value(s: Seq<char>) -> int
    decreases s.len(),
{
    if s.len() == 0 {
        0
    } else {
        spec_digits_value(s.drop_last()) * 10 + (s.last() as int - '0' as int)
    }
}

/// What `i64::from_str` accepts: an optional `+` or `-`, then at least one
/// ASCII digit and nothing else, with a value in range.
pub open spec fn spec_parse_i64(s: Seq<char>) -> Option<i64> {
    let negative = s.len() > 0 && s[0] == '-';
    let signed = s.len() > 0 && (s[0] == '+' || s[0] == '-');
    let body = if signed { s.drop_first() } else { s };
    let v = if negative { -spec_digits_value(body) } else { spec_digits_value(body) };
    if body.len() > 0 && spec_all_digits(body) && i64::MIN <= v && v <= i64::MAX {
        Some(v as i64)
    } else {
        None
    }
}

/// What `u64::from_str` accepts: an optional `+`, then at least one ASCII
/// digit and nothing else, with a value in range.
pub open spec fn spec_parse_u64(s: Seq<char>) -> Option<u64> {
    let body = if s.len() > 0 && s[0] == '+' { s.drop_first() } else { s };
    let v = spec_digits_value(body);
    if body.len() > 0 && spec_all_digits(body) && v <= u64::MAX {
        Some(v as u64)
    } else {
        None
    }
}

/// The value of a string of digits is never negative.
proof fn lemma_digits_value_nonneg(b: Seq<char>)
    requires
        spec_all_digits(b),
    ensures
        spec_digits_value(b) >= 0,
    decreases b.len(),
{
    if b.len() > 0 {
        assert(spec_is_digit(b[b.len() - 1]));
        assert(spec_all_digits(b.drop_last())) by {
            assert forall|i: int| 0 <= i < b.drop_last().len() implies spec_is_digit(
                #[trigger] b.drop_last()[i],
            ) by {
                assert(b.drop_last()[i] == b[i]);
            }
        }
        lemma_digits_value_nonneg(b.drop_last());
    }
}

/// More digits never make a smaller value.
proof fn lemma_prefix_value_le(b: Seq<char>, k: int)
    requires
        spec_all_digits(b),
        0 <= k <= b.len(),
    ensures
        spec_digits_value(b.take(k)) <= spec_digits_value(b),
    decreases b.len(),
{
    if k == b.len() {
        assert(b.take(k) =~= b);
    } else {
        let c = b.drop_last();
        assert(spec_is_digit(b[b.len() - 1]));
        assert(spec_all_digits(c)) by {
            assert forall|i: int| 0 <= i < c.len() implies spec_is_digit(#[trigger] c[i]) by {
                assert(c[i] == b[i]);
            }
        }
        lemma_prefix_value_le(c, k);
        lemma_digits_value_nonneg(c);
        assert(c.take(k) =~= b.take(k));
    }
}

/// The digits of `s` from `start` on, as a `u64`: `None` where one of them is
/// not an ASCII digit or their value does not fit.
fn digits_from(s: &str, start: usize) -> (r: Option<u64>)
    requires
        start <= s@.len(),
    ensures
        r == (if spec_all_digits(s@.skip(start as int)) && spec_digits_value(s@.skip(start as int))
            <= u64::MAX {
            Some(spec_digits_value(s@.skip(start as int)) as u64)
        } else {
            None::<u64>
        }),
{
    let n = s.unicode_len();
    let ghost b = s@.skip(start as int);
    let mut acc: u64 = 0;
    let mut i: usize = start;
    assert(b.take(0) =~= Seq::<char>::empty());
    while i < n
        invariant
            start <= i <= n,
            n == s@.len(),
            b == s@.skip(start as int),
            spec_all_digits(b.take(i - start)),
            acc == spec_digits_value(b.take(i - start)),
        decreases n - i,
    {
        let c = s.get_char(i);
        let ghost k = i - start;
        assert(b[k as int] == c);
        assert(b.take(k + 1).drop_last() =~= b.take(k as int));
        if !('0' <= c && c <= '9') {
            assert(!spec_all_digits(b)) by {
                assert(!spec_is_digit(b[k as int]));
            }
            return None;
        }
        let d: u64 = (c as u32 - '0' as u32) as u64;
        assert(spec_all_digits(b.take(k + 1))) by {
            assert forall|j: int| 0 <= j < k + 1 implies spec_is_digit(#[trigger] b.take(k + 1)[j]) by {
                if j < k {
                    assert(b.take(k + 1)[j] == b.take(k as int)[j]);
                }
            }
        }
        if acc > (u64::MAX - d) / 10 {
            assert(acc * 10 + d > u64::MAX) by (nonlinear_arith)
                requires
                    acc > (u64::MAX - d) / 10,
                    d <= 9,
            ;
            proof {
                if spec_all_digits(b) {
                    lemma_prefix_value_le(b, k + 1);
                }
            }
            return None;
        }
        assert(acc * 10 + d <= u64::MAX) by (nonlinear_arith)
            requires
                acc <= (u64::MAX - d) / 10,
                d <= 9,
        ;
        acc = acc * 10 + d;
        i = i + 1;
    }
    assert(b.take(n - start) =~= b);
    Some(acc)
}

/// Parses a decimal `i64` as `i64::from_str` does: an optional `+` or `-`,
/// then at least one ASCII digit and nothing else, with the value in range.
pub(crate) fn parse_i64(s: &str) -> (r: Option<i64>)
    ensures
        r == spec_parse_i64(s@),
{
    let n = s.unicode_len();
    if n == 0 {
        return None;
    }
    let first = s.get_char(0);
    let negative = first == '-';
    let start: usize = if first == '+' || first == '-' { 1 } else { 0 };
    assert(s@.skip(1) =~= s@.drop_first());
    assert(s@.skip(0) =~= s@);
    if start == n {
        return None;
    }
    match digits_from(s, start) {
        None => {
            proof {
                let b = s@.skip(start as int);
                if spec_all_digits(b) {
                    lemma_digits_value_nonneg(b);
                }
            }
            None
        },
        Some(m) => {
            proof {
                lemma_digits_value_nonneg(s@.skip(start as int));
            }
            if negative {
                if m < 0x8000_0000_0000_0000 {
                    Some(-(m as i64))
                } else if m == 0x8000_0000_0000_0000 {
                    Some(i64::MIN)
                } else {
                    None
                }
            } else if m <= 0x7fff_ffff_ffff_ffff {
                Some(m as i64)
            } else {
                None
            }
        },
    }
}

/// Parses a decimal `u64` as `u64::from_str` does: an optional `+`, then at
/// least one ASCII digit and nothing else, with the value in range.
pub(crate) fn parse_u64(s: &str) -> (r: Option<u64>)
    ensures
        r == spec_parse_u64(s@),
{
    let n = s.unicode_len();
    if n == 0 {
        return None;
    }
    let start: usize = if s.get_char(0) == '+' { 1 } else { 0 };
    assert(s@.skip(1) =~= s@.drop_first());
    assert(s@.skip(0) =~= s@);
    if start == n {
        return None;
    }
    digits_from(s, start)
}

/// Trimming removes exactly the run of `/` at the end: what remains is a
/// prefix that does not end in `/`, everything cut off is `/`, and trimming
/// again changes nothing.
pub proof fn lemma_trim_trailing_slashes(s: Seq<char>)
    ensures
        spec_trim_trailing_slashes(s).len() <= s.len(),
        spec_trim_trailing_slashes(s) == s.subrange(0, spec_trim_trailing_slashes(s).len() as int),
        spec_trim_trailing_slashes(s).len() == 0 || spec_trim_trailing_slashes(s).last() != '/',
        forall|i: int| spec_trim_trailing_slashes(s).len() <= i < s.len() ==> s[i] == '/',
        spec_trim_trailing_slashes(spec_trim_trailing_slashes(s)) == spec_trim_trailing_slashes(s),
    decreases s.len(),
{
    if s.len() > 0 && s.last() == '/' {
        lemma_trim_trailing_slashes(s.drop_last());
        let t = spec_trim_trailing_slashes(s.drop_last());
        assert(t == s.subrange(0, t.len() as int)) by {
            assert(s.drop_last().subrange(0, t.len() as int) =~= s.subrange(0, t.len() as int));
        }
        assert forall|i: int| t.len() <= i < s.len() implies s[i] == '/' by {
            if i < s.len() - 1 {
                assert(s.drop_last()[i] == s[i]);
            }
        }
    } else {
        assert(s.subrange(0, s.len() as int) =~= s);
    }
}

} // verus!
