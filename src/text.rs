//! Text helpers: base-unit amounts in decimal, fixed-width padding, UTF-8.
use vstd::prelude::*;
use vstd::utf8::{decode_utf8, valid_utf8};

verus! {

pub open spec fn is_digit(c: char) -> bool {
    '0' <= c && c <= '9'
}

pub open spec fn all_digits(s: Seq<char>) -> bool {
    forall|i: int| 0 <= i < s.len() ==> is_digit(#[trigger] s[i])
}

/// The number that a string of decimal digits spells, most significant first.
pub open spec fn decimal_value(s: Seq<char>) -> nat
    decreases s.len(),
{
    if s.len() == 0 {
        0
    } else {
        decimal_value(s.drop_last()) * 10 + ((s.last() as int) - ('0' as int)) as nat
    }
}

/// The digits of an unsigned number's text, after an optional leading `+`.
pub open spec fn unsigned_digits(s: Seq<char>) -> Seq<char> {
    if s.len() > 0 && s[0] == '+' {
        s.drop_first()
    } else {
        s
    }
}

/// The value of a `u64` written in decimal, as `str::parse::<u64>` reads it: an
/// optional `+`, then one or more digits whose value fits in 64 bits.
pub open spec fn parsed_u64(s: Seq<char>) -> Option<u64> {
    let d = unsigned_digits(s);
    if d.len() > 0 && all_digits(d) && decimal_value(d) <= u64::MAX {
        Some(decimal_value(d) as u64)
    } else {
        None
    }
}

proof fn lemma_decimal_prefix_grows(s: Seq<char>, k: int)
    requires
        0 <= k <= s.len(),
        all_digits(s),
    ensures
        decimal_value(s.subrange(0, k)) <= decimal_value(s),
    decreases s.len() - k,
{
    if k < s.len() {
        lemma_decimal_prefix_grows(s, k + 1);
        let p = s.subrange(0, k + 1);
        assert(p.drop_last() =~= s.subrange(0, k));
        assert(is_digit(s[k]));
    } else {
        assert(s.subrange(0, k) =~= s);
    }
}

/// Parses a base-unit amount written in decimal.
pub fn parse_u64(s: &str) -> (r: Option<u64>)
    ensures
        r == parsed_u64(s@),
{
    let n = s.unicode_len();
    let mut start: usize = 0;
    if n > 0 && s.get_char(0) == '+' {
        start = 1;
    }
    let ghost d = unsigned_digits(s@);
    assert(d =~= s@.subrange(start as int, n as int));
    if start == n {
        return None;
    }
    let mut acc: u64 = 0;
    let mut i: usize = start;
    while i < n
        invariant
            start <= i <= n,
            n == s@.len(),
            d == s@.subrange(start as int, n as int),
            d == unsigned_digits(s@),
            all_digits(d.subrange(0, i - start)),
            acc as nat == decimal_value(d.subrange(0, i - start)),
        decreases n - i,
    {
        let c = s.get_char(i);
        if !('0' <= c && c <= '9') {
            assert(!all_digits(d)) by {
                assert(d[i - start] == c);
            }
            return None;
        }
        let digit: u64 = (c as u32 - '0' as u32) as u64;
        let ghost p = d.subrange(0, i + 1 - start);
        assert(p.drop_last() =~= d.subrange(0, i - start));
        assert(p.last() == c);
        if acc > (u64::MAX - digit) / 10 {
            proof {
                assert(decimal_value(p) > u64::MAX) by (nonlinear_arith)
                    requires
                        acc > (u64::MAX - digit) / 10,
                        decimal_value(p) == acc * 10 + digit,
                        digit <= 9,
                ;
                if all_digits(d) {
                    lemma_decimal_prefix_grows(d, i + 1 - start);
                }
            }
            return None;
        }
        assert(acc * 10 + digit <= u64::MAX) by (nonlinear_arith)
            requires
                acc <= (u64::MAX - digit) / 10,
                digit <= 9,
        ;
        acc = acc * 10 + digit;
        assert(all_digits(p)) by {
            assert forall|j: int| 0 <= j < p.len() implies is_digit(#[trigger] p[j]) by {
                if j < p.len() - 1 {
                    assert(p[j] == d.subrange(0, i - start)[j]);
                }
            }
        }
        i = i + 1;
    }
    assert(d.subrange(0, n - start) =~= d);
    Some(acc)
}

/// A text with its leading NUL characters removed.
pub open spec fn strip_leading_nul(s: Seq<char>) -> Seq<char>
    decreases s.len(),
{
    if s.len() > 0 && s[0] == '\0' {
        strip_leading_nul(s.drop_first())
    } else {
        s
    }
}

/// A text with its trailing NUL characters removed.
pub open spec fn strip_trailing_nul(s: Seq<char>) -> Seq<char>
    decreases s.len(),
{
    if s.len() > 0 && s.last() == '\0' {
        strip_trailing_nul(s.drop_last())
    } else {
        s
    }
}

/// A fixed-width field's text without the NUL padding at either end.
pub open spec fn trim_nul(s: Seq<char>) -> Seq<char> {
    strip_trailing_nul(strip_leading_nul(s))
}

/// Removes NUL padding from both ends of a fixed-width text field.
pub fn trim_nul_padding(s: &str) -> (r: String)
    ensures
        r@ == trim_nul(s@),
{
    let n = s.unicode_len();
    assert(s@.subrange(0, n as int) =~= s@);
    let mut lo: usize = 0;
    while lo < n && s.get_char(lo) == '\0'
        invariant
            lo <= n,
            n == s@.len(),
            strip_leading_nul(s@) == strip_leading_nul(s@.subrange(lo as int, n as int)),
        decreases n - lo,
    {
        let ghost t = s@.subrange(lo as int, n as int);
        assert(t.drop_first() =~= s@.subrange(lo + 1, n as int));
        lo = lo + 1;
    }
    let ghost t = s@.subrange(lo as int, n as int);
    assert(strip_leading_nul(t) == t);
    let mut hi: usize = n;
    while hi > lo && s.get_char(hi - 1) == '\0'
        invariant
            lo <= hi <= n,
            n == s@.len(),
            t == s@.subrange(lo as int, n as int),
            strip_trailing_nul(t) == strip_trailing_nul(s@.subrange(lo as int, hi as int)),
        decreases hi,
    {
        let ghost u = s@.subrange(lo as int, hi as int);
        assert(u.drop_last() =~= s@.subrange(lo as int, hi - 1));
        hi = hi - 1;
    }
    let kept = s.substring_char(lo, hi);
    kept.to_owned()
}

/// Whether two texts are the same characters.
pub fn same_text(a: &str, b: &str) -> (r: bool)
    ensures
        r == (a@ == b@),
{
    let n = a.unicode_len();
    if n != b.unicode_len() {
        return false;
    }
    let mut i: usize = 0;
    while i < n
        invariant
            i <= n,
            n == a@.len(),
            n == b@.len(),
            forall|j: int| 0 <= j < i ==> a@[j] == b@[j],
        decreases n - i,
    {
        if a.get_char(i) != b.get_char(i) {
            return false;
        }
        i = i + 1;
    }
    assert(a@ =~= b@);
    true
}

/// Relies on `String::from_utf8`: it accepts exactly the valid UTF-8 byte
/// strings, and the text holds the characters that they encode.
#[verifier::external_body]
pub(crate) fn utf8_text(b: &Vec<u8>) -> (r: Option<String>)
    ensures
        r is Some <==> valid_utf8(b@),
        r matches Some(t) ==> t@ == decode_utf8(b@),
{
    String::from_utf8(b.clone()).ok()
}

} // verus!
