//! Verified character and string helpers: equality, prefix and suffix tests,
//! trimming, and decimal rendering of unsigned integers.

use vstd::prelude::*;

verus! {

/// Character equality over whole strings.
pub fn str_eq(a: &str, b: &str) -> (r: bool)
    ensures
        r <==> a@ == b@,
{
    let alen = a.unicode_len();
    let blen = b.unicode_len();
    if alen != blen {
        return false;
    }
    let mut i: usize = 0;
    while i < alen
        invariant
            alen == a@.len(),
            alen == b@.len(),
            i <= alen,
            forall|j: int| 0 <= j < i ==> a@[j] == b@[j],
        decreases alen - i,
    {
        if a.get_char(i) != b.get_char(i) {
            return false;
        }
        i += 1;
    }
    proof {
        assert(a@ =~= b@);
    }
    true
}

/// `p` is a prefix of `s`.
pub open spec fn is_prefix_of(p: Seq<char>, s: Seq<char>) -> bool {
    p.len() <= s.len() && s.subrange(0, p.len() as int) == p
}

/// `p` is a suffix of `s`.
pub open spec fn is_suffix_of(p: Seq<char>, s: Seq<char>) -> bool {
    p.len() <= s.len() && s.subrange(s.len() - p.len(), s.len() as int) == p
}

/// Character-wise prefix test.
pub fn str_starts_with(s: &str, p: &str) -> (r: bool)
    ensures
        r <==> is_prefix_of(p@, s@),
{
    let slen = s.unicode_len();
    let plen = p.unicode_len();
    if plen > slen {
        return false;
    }
    let mut i: usize = 0;
    while i < plen
        invariant
            slen == s@.len(),
            plen == p@.len(),
            plen <= slen,
            i <= plen,
            forall|j: int| 0 <= j < i ==> s@[j] == p@[j],
        decreases plen - i,
    {
        if s.get_char(i) != p.get_char(i) {
            proof {
                assert(s@.subrange(0, p@.len() as int)[i as int] != p@[i as int]);
            }
            return false;
        }
        i += 1;
    }
    proof {
        assert(s@.subrange(0, p@.len() as int) =~= p@);
    }
    true
}

/// Character-wise suffix test.
pub fn str_ends_with(s: &str, p: &str) -> (r: bool)
    ensures
        r <==> is_suffix_of(p@, s@),
{
    let slen = s.unicode_len();
    let plen = p.unicode_len();
    if plen > slen {
        return false;
    }
    let ghost off = s@.len() - p@.len();
    let mut i: usize = 0;
    while i < plen
        invariant
            slen == s@.len(),
            plen == p@.len(),
            plen <= slen,
            off == s@.len() - p@.len(),
            i <= plen,
            forall|j: int| 0 <= j < i ==> s@[off + j] == p@[j],
        decreases plen - i,
    {
        if s.get_char(slen - plen + i) != p.get_char(i) {
            proof {
                assert(s@.subrange(off, s@.len() as int)[i as int] != p@[i as int]);
            }
            return false;
        }
        i += 1;
    }
    proof {
        assert(s@.subrange(off, s@.len() as int) =~= p@);
    }
    true
}

/// What is left of `s` after removing every leading occurrence of `c`.
pub open spec fn spec_trim_leading(s: Seq<char>, c: char) -> Seq<char>
    decreases s.len(),
{
    if s.len() == 0 || s[0] != c {
        s
    } else {
        spec_trim_leading(s.drop_first(), c)
    }
}

/// What is left of `s` after removing every trailing occurrence of `c`.
pub open spec fn spec_trim_trailing(s: Seq<char>, c: char) -> Seq<char>
    decreases s.len(),
{
    if s.len() == 0 || s[s.len() - 1] != c {
        s
    } else {
        spec_trim_trailing(s.drop_last(), c)
    }
}

/// `s` with every leading and trailing occurrence of `c` removed.
pub open spec fn spec_trim_char(s: Seq<char>, c: char) -> Seq<char> {
    spec_trim_trailing(spec_trim_leading(s, c), c)
}

fn trim_leading<'a>(s: &'a str, c: char) -> (r: &'a str)
    ensures
        r@ == spec_trim_leading(s@, c),
    decreases s@.len(),
{
    let n = s.unicode_len();
    if n == 0 {
        s
    } else if s.get_char(0) == c {
        let rest = s.substring_char(1, n);
        proof {
            assert(rest@ =~= s@.drop_first());
        }
        trim_leading(rest, c)
    } else {
        s
    }
}

fn trim_trailing<'a>(s: &'a str, c: char) -> (r: &'a str)
    ensures
        r@ == spec_trim_trailing(s@, c),
    decreases s@.len(),
{
    let n = s.unicode_len();
    if n == 0 {
        s
    } else if s.get_char(n - 1) == c {
        let rest = s.substring_char(0, n - 1);
        proof {
            assert(rest@ =~= s@.drop_last());
        }
        trim_trailing(rest, c)
    } else {
        s
    }
}

/// Removes every occurrence of `c` from both ends of `s`.
pub fn str_trim_char<'a>(s: &'a str, c: char) -> (r: &'a str)
    ensures
        r@ == spec_trim_char(s@, c),
{
    trim_trailing(trim_leading(s, c), c)
}

/// The character for a single decimal digit.
pub open spec fn digit_char(d: int) -> char {
    if d == 0 {
        '0'
    } else if d == 1 {
        '1'
    } else if d == 2 {
        '2'
    } else if d == 3 {
        '3'
    } else if d == 4 {
        '4'
    } else if d == 5 {
        '5'
    } else if d == 6 {
        '6'
    } else if d == 7 {
        '7'
    } else if d == 8 {
        '8'
    } else {
        '9'
    }
}

/// The usual decimal rendering of a non-negative integer, most significant
/// digit first.
pub open spec fn dec_digits_of(n: int) -> Seq<char>
    decreases n,
{
    if n < 10 {
        seq![digit_char(n)]
    } else {
        dec_digits_of(n / 10).push(digit_char(n % 10))
    }
}

fn digit_str(d: u64) -> (r: &'static str)
    requires
        d < 10,
    ensures
        r@ == seq![digit_char(d as int)],
{
    proof {
        reveal_strlit("0");
        reveal_strlit("1");
        reveal_strlit("2");
        reveal_strlit("3");
        reveal_strlit("4");
        reveal_strlit("5");
        reveal_strlit("6");
        reveal_strlit("7");
        reveal_strlit("8");
        reveal_strlit("9");
    }
    let r = match d {
        0 => "0",
        1 => "1",
        2 => "2",
        3 => "3",
        4 => "4",
        5 => "5",
        6 => "6",
        7 => "7",
        8 => "8",
        _ => "9",
    };
    proof {
        assert(r@ =~= seq![digit_char(d as int)]);
    }
    r
}

/// The usual decimal rendering of an integer: a minus sign for negative
/// values, then the digits of the magnitude.
pub open spec fn dec_int_of(n: int) -> Seq<char> {
    if n < 0 {
        seq!['-'] + dec_digits_of(-n)
    } else {
        dec_digits_of(n)
    }
}

/// Renders `n` in decimal.
pub fn i64_to_decimal(n: i64) -> (r: String)
    ensures
        r@ == dec_int_of(n as int),
{
    if n >= 0 {
        let r = u64_to_decimal(n as u64);
        r
    } else {
        // Step through `n + 1` so the magnitude fits in `i64` even for the
        // smallest value.
        let magnitude: u64 = ((-(n + 1)) as u64) + 1;
        proof {
            assert(magnitude == -(n as int));
        }
        let r = String::from_str("-").concat(u64_to_decimal(magnitude).as_str());
        proof {
            reveal_strlit("-");
            assert(r@ =~= dec_int_of(n as int));
        }
        r
    }
}

/// Renders `n` in decimal.
pub fn u64_to_decimal(n: u64) -> (r: String)
    ensures
        r@ == dec_digits_of(n as int),
    decreases n,
{
    if n < 10 {
        String::from_str(digit_str(n))
    } else {
        let prefix = u64_to_decimal(n / 10);
        let r = prefix.concat(digit_str(n % 10));
        proof {
            assert(r@ =~= dec_digits_of(n as int));
        }
        r
    }
}

} // verus!
