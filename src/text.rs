use vstd::prelude::*;
use vstd::string::StrSliceExecFns;

verus! {

/// Whether `c` is white space in the Unicode sense (`char::is_whitespace`).
pub open spec fn is_ws(c: char) -> bool {
    ||| ('\u{9}' <= c && c <= '\u{d}')
    ||| c == ' '
    ||| c == '\u{85}'
    ||| c == '\u{a0}'
    ||| c == '\u{1680}'
    ||| ('\u{2000}' <= c && c <= '\u{200a}')
    ||| c == '\u{2028}'
    ||| c == '\u{2029}'
    ||| c == '\u{202f}'
    ||| c == '\u{205f}'
    ||| c == '\u{3000}'
}

/// The first index from `lo` on, below `hi`, that holds no white space; `hi` if none does.
pub open spec fn skip_ws(s: Seq<char>, lo: int, hi: int) -> int
    decreases hi - lo,
{
    if lo < hi && is_ws(s[lo]) {
        skip_ws(s, lo + 1, hi)
    } else {
        lo
    }
}

/// The end of `s[lo..hi]` once white space at its end is dropped.
pub open spec fn trim_end(s: Seq<char>, lo: int, hi: int) -> int
    decreases hi - lo,
{
    if lo < hi && is_ws(s[hi - 1]) {
        trim_end(s, lo, hi - 1)
    } else {
        hi
    }
}

/// The first index from `lo` on, below `hi`, that holds white space; `hi` if none does.
pub open spec fn find_ws(s: Seq<char>, lo: int, hi: int) -> int
    decreases hi - lo,
{
    if lo < hi && !is_ws(s[lo]) {
        find_ws(s, lo + 1, hi)
    } else {
        lo
    }
}

/// The first index from `lo` on, below `hi`, that holds `c`; `hi` if none does.
pub open spec fn find_char(s: Seq<char>, c: char, lo: int, hi: int) -> int
    decreases hi - lo,
{
    if lo < hi && s[lo] != c {
        find_char(s, c, lo + 1, hi)
    } else {
        lo
    }
}

/// The last index at or above `lo`, below `hi`, that holds `c`; below `lo` if none does.
pub open spec fn rfind_char(s: Seq<char>, c: char, lo: int, hi: int) -> int
    decreases hi - lo,
{
    if hi <= lo {
        lo - 1
    } else if s[hi - 1] == c {
        hi - 1
    } else {
        rfind_char(s, c, lo, hi - 1)
    }
}

/// The first index `i` from `lo` on with `s[i]` and `s[i + 1]` both `.`, below `hi - 1`;
/// `hi` if there is none.
pub open spec fn find_two_dots(s: Seq<char>, lo: int, hi: int) -> int
    decreases hi - lo,
{
    if lo + 1 >= hi {
        hi
    } else if s[lo] == '.' && s[lo + 1] == '.' {
        lo
    } else {
        find_two_dots(s, lo + 1, hi)
    }
}

pub open spec fn is_digit(c: char) -> bool {
    '0' <= c && c <= '9'
}

/// Every character of `s[lo..hi]` is a decimal digit.
pub open spec fn all_digits(s: Seq<char>, lo: int, hi: int) -> bool {
    forall|i: int| lo <= i < hi ==> is_digit(#[trigger] s[i])
}

/// The number that the decimal digits `s[lo..hi]` write.
pub open spec fn digits_value(s: Seq<char>, lo: int, hi: int) -> int
    decreases hi - lo,
{
    if hi <= lo {
        0
    } else {
        digits_value(s, lo, hi - 1) * 10 + (s[hi - 1] as int - '0' as int)
    }
}

/// The number that `s[lo..hi]` writes as an optional `+` and one or more decimal digits.
pub open spec fn unsigned_value(s: Seq<char>, lo: int, hi: int) -> Option<int> {
    let d = if lo < hi && s[lo] == '+' { lo + 1 } else { lo };
    if d < hi && all_digits(s, d, hi) {
        Some(digits_value(s, d, hi))
    } else {
        None
    }
}

/// The number that `s[lo..hi]` writes as an optional sign and one or more decimal digits.
pub open spec fn signed_value(s: Seq<char>, lo: int, hi: int) -> Option<int> {
    if lo < hi && s[lo] == '-' {
        if lo + 1 < hi && all_digits(s, lo + 1, hi) {
            Some(-digits_value(s, lo + 1, hi))
        } else {
            None
        }
    } else {
        unsigned_value(s, lo, hi)
    }
}

/// `Some(v)` where `v` is the value and lies in `min..=max`.
pub open spec fn within(v: Option<int>, min: int, max: int) -> Option<int> {
    match v {
        Some(x) => if min <= x && x <= max {
            Some(x)
        } else {
            None
        },
        None => None,
    }
}

proof fn lemma_digits_value_nonneg(s: Seq<char>, lo: int, hi: int)
    requires
        all_digits(s, lo, hi),
    ensures
        digits_value(s, lo, hi) >= 0,
    decreases hi - lo,
{
    if hi > lo {
        lemma_digits_value_nonneg(s, lo, hi - 1);
    }
}

/// Skips white space from `lo` on.
pub fn skip_ws_exec(s: &str, lo: usize, hi: usize) -> (r: usize)
    requires
        lo <= hi <= s@.len(),
    ensures
        r == skip_ws(s@, lo as int, hi as int),
        lo <= r <= hi,
{
    let mut i = lo;
    while i < hi && is_ws_exec(s.get_char(i))
        invariant
            lo <= i <= hi <= s@.len(),
            skip_ws(s@, lo as int, hi as int) == skip_ws(s@, i as int, hi as int),
        decreases hi - i,
    {
        i = i + 1;
    }
    i
}

/// The end of `s[lo..hi]` without its trailing white space.
pub fn trim_end_exec(s: &str, lo: usize, hi: usize) -> (r: usize)
    requires
        lo <= hi <= s@.len(),
    ensures
        r == trim_end(s@, lo as int, hi as int),
        lo <= r <= hi,
{
    let mut j = hi;
    while j > lo && is_ws_exec(s.get_char(j - 1))
        invariant
            lo <= j <= hi <= s@.len(),
            trim_end(s@, lo as int, hi as int) == trim_end(s@, lo as int, j as int),
        decreases j - lo,
    {
        j = j - 1;
    }
    j
}

/// The first white space from `lo` on.
pub fn find_ws_exec(s: &str, lo: usize, hi: usize) -> (r: usize)
    requires
        lo <= hi <= s@.len(),
    ensures
        r == find_ws(s@, lo as int, hi as int),
        lo <= r <= hi,
{
    let mut i = lo;
    while i < hi && !is_ws_exec(s.get_char(i))
        invariant
            lo <= i <= hi <= s@.len(),
            find_ws(s@, lo as int, hi as int) == find_ws(s@, i as int, hi as int),
        decreases hi - i,
    {
        i = i + 1;
    }
    i
}

/// The first `c` from `lo` on.
pub fn find_char_exec(s: &str, c: char, lo: usize, hi: usize) -> (r: usize)
    requires
        lo <= hi <= s@.len(),
    ensures
        r == find_char(s@, c, lo as int, hi as int),
        lo <= r <= hi,
{
    let mut i = lo;
    while i < hi && s.get_char(i) != c
        invariant
            lo <= i <= hi <= s@.len(),
            find_char(s@, c, lo as int, hi as int) == find_char(s@, c, i as int, hi as int),
        decreases hi - i,
    {
        i = i + 1;
    }
    i
}

/// The last `c` in `s[lo..hi]`, if any.
pub fn rfind_char_exec(s: &str, c: char, lo: usize, hi: usize) -> (r: Option<usize>)
    requires
        lo <= hi <= s@.len(),
    ensures
        r is Some <==> rfind_char(s@, c, lo as int, hi as int) >= lo,
        r matches Some(i) ==> i == rfind_char(s@, c, lo as int, hi as int) && lo <= i < hi,
{
    let mut j = hi;
    while j > lo && s.get_char(j - 1) != c
        invariant
            lo <= j <= hi <= s@.len(),
            rfind_char(s@, c, lo as int, hi as int) == rfind_char(s@, c, lo as int, j as int),
        decreases j - lo,
    {
        j = j - 1;
    }
    if j > lo {
        Some(j - 1)
    } else {
        None
    }
}

/// The first `..` from `lo` on.
pub fn find_two_dots_exec(s: &str, lo: usize, hi: usize) -> (r: usize)
    requires
        lo <= hi <= s@.len(),
    ensures
        r == find_two_dots(s@, lo as int, hi as int),
        lo <= r <= hi,
        r < hi ==> r + 1 < hi,
{
    let mut i = lo;
    while hi - i > 1 && !(s.get_char(i) == '.' && s.get_char(i + 1) == '.')
        invariant
            lo <= i <= hi <= s@.len(),
            find_two_dots(s@, lo as int, hi as int) == find_two_dots(s@, i as int, hi as int),
        decreases hi - i,
    {
        i = i + 1;
    }
    if hi - i > 1 {
        i
    } else {
        hi
    }
}

/// Whether `c` is white space.
pub fn is_ws_exec(c: char) -> (r: bool)
    ensures
        r == is_ws(c),
{
    ('\u{9}' <= c && c <= '\u{d}') || c == ' ' || c == '\u{85}' || c == '\u{a0}' || c == '\u{1680}'
        || ('\u{2000}' <= c && c <= '\u{200a}') || c == '\u{2028}' || c == '\u{2029}' || c
        == '\u{202f}' || c == '\u{205f}' || c == '\u{3000}'
}

/// The value of the digits `s[lo..hi]`, where it is at most `max`.
fn digits_upto(s: &str, lo: usize, hi: usize, max: u64) -> (r: Option<u64>)
    requires
        lo <= hi <= s@.len(),
        all_digits(s@, lo as int, hi as int),
    ensures
        r is Some <==> digits_value(s@, lo as int, hi as int) <= max,
        r matches Some(v) ==> v == digits_value(s@, lo as int, hi as int),
{
    let mut acc: u128 = 0;
    let mut over = false;
    let mut i = lo;
    while i < hi
        invariant
            lo <= i <= hi <= s@.len(),
            all_digits(s@, lo as int, hi as int),
            acc <= max,
            !over ==> acc == digits_value(s@, lo as int, i as int),
            over ==> digits_value(s@, lo as int, i as int) > max,
        decreases hi - i,
    {
        assert(is_digit(s@[i as int]));
        let dig = (s.get_char(i) as u32 - '0' as u32) as u128;
        proof {
            lemma_digits_value_nonneg(s@, lo as int, i as int);
        }
        if !over {
            let next = acc * 10 + dig;
            if next > max as u128 {
                over = true;
            } else {
                acc = next;
            }
        }
        i = i + 1;
    }
    if over {
        None
    } else {
        Some(acc as u64)
    }
}

/// The number that `s[lo..hi]` writes as an optional `+` and digits, where it is at most
/// `max` (as `str::parse` reads an unsigned integer).
pub fn parse_unsigned(s: &str, lo: usize, hi: usize, max: u64) -> (r: Option<u64>)
    requires
        lo <= hi <= s@.len(),
    ensures
        r is Some <==> within(unsigned_value(s@, lo as int, hi as int), 0, max as int) is Some,
        r matches Some(v) ==> v == unsigned_value(s@, lo as int, hi as int)->Some_0,
{
    let d = if lo < hi && s.get_char(lo) == '+' {
        lo + 1
    } else {
        lo
    };
    if d >= hi {
        return None;
    }
    let mut i = d;
    while i < hi
        invariant
            d <= i <= hi <= s@.len(),
            d < hi,
            d == (if lo < hi && s@[lo as int] == '+' { lo + 1 } else { lo as int }),
            all_digits(s@, d as int, i as int),
        decreases hi - i,
    {
        if !('0' <= s.get_char(i) && s.get_char(i) <= '9') {
            assert(!is_digit(s@[i as int]));
            return None;
        }
        i = i + 1;
    }
    proof {
        lemma_digits_value_nonneg(s@, d as int, hi as int);
    }
    digits_upto(s, d, hi, max)
}

/// The number that `s[lo..hi]` writes as an optional sign and digits, where it lies in
/// `i32`'s range (as `str::parse` reads an `i32`).
pub fn parse_i32(s: &str, lo: usize, hi: usize) -> (r: Option<i32>)
    requires
        lo <= hi <= s@.len(),
    ensures
        r is Some <==> within(signed_value(s@, lo as int, hi as int), i32::MIN as int, i32::MAX as int) is Some,
        r matches Some(v) ==> v == signed_value(s@, lo as int, hi as int)->Some_0,
{
    if lo < hi && s.get_char(lo) == '-' {
        if lo + 1 >= hi {
            return None;
        }
        let mut i = lo + 1;
        while i < hi
            invariant
                lo + 1 <= i <= hi <= s@.len(),
                lo + 1 < hi,
                s@[lo as int] == '-',
                all_digits(s@, lo + 1, i as int),
            decreases hi - i,
        {
            if !('0' <= s.get_char(i) && s.get_char(i) <= '9') {
                assert(!is_digit(s@[i as int]));
                return None;
            }
            i = i + 1;
        }
        proof {
            lemma_digits_value_nonneg(s@, lo + 1, hi as int);
        }
        match digits_upto(s, lo + 1, hi, 2147483648) {
            Some(v) => Some((0 - (v as i64)) as i32),
            None => None,
        }
    } else {
        proof {
            let d = if lo < hi && s@[lo as int] == '+' { lo + 1 } else { lo as int };
            if d < hi && all_digits(s@, d, hi as int) {
                lemma_digits_value_nonneg(s@, d, hi as int);
            }
        }
        match parse_unsigned(s, lo, hi, 2147483647) {
            Some(v) => Some(v as i32),
            None => None,
        }
    }
}

} // verus!
