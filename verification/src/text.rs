//! Character-level helpers: trimming, prefixes and decimal integers, as
//! Rust's `str::trim`, `str::strip_prefix` and `i64::from_str` define them.

use vstd::prelude::*;
use vstd::string::StringExecFns;

verus! {

/// The characters of `s`, in order.
pub fn chars_of(s: &str) -> (r: Vec<char>)
    ensures
        r@ == s@,
{
    let mut r: Vec<char> = Vec::new();
    for c in it: s.chars()
        invariant
            r@ == it.seq().take(it.index() as int),
            it.seq() == s@,
    {
        r.push(c);
    }
    r
}

/// The Unicode `White_Space` property, which `char::is_whitespace` tests.
pub open spec fn is_white_space(c: char) -> bool {
    let u = c as u32;
    ||| 0x09 <= u <= 0x0d
    ||| u == 0x20
    ||| u == 0x85
    ||| u == 0xa0
    ||| u == 0x1680
    ||| 0x2000 <= u <= 0x200a
    ||| u == 0x2028
    ||| u == 0x2029
    ||| u == 0x202f
    ||| u == 0x205f
    ||| u == 0x3000
}

/// `s` without its leading white space.
pub open spec fn trim_start(s: Seq<char>) -> Seq<char>
    decreases s.len(),
{
    if s.len() > 0 && is_white_space(s[0]) {
        trim_start(s.drop_first())
    } else {
        s
    }
}

/// `s` without its trailing white space.
pub open spec fn trim_end(s: Seq<char>) -> Seq<char>
    decreases s.len(),
{
    if s.len() > 0 && is_white_space(s.last()) {
        trim_end(s.drop_last())
    } else {
        s
    }
}

/// `s` without leading and trailing white space (`str::trim`).
pub open spec fn trim(s: Seq<char>) -> Seq<char> {
    trim_end(trim_start(s))
}

/// Whether `s` begins with `p`.
pub open spec fn starts_with(s: Seq<char>, p: Seq<char>) -> bool {
    s.len() >= p.len() && s.subrange(0, p.len() as int) == p
}

/// An ASCII decimal digit.
pub open spec fn is_digit(c: char) -> bool {
    0x30 <= (c as u32) <= 0x39
}

/// Every character of `d` is a decimal digit.
pub open spec fn all_digits(d: Seq<char>) -> bool {
    forall|i: int| 0 <= i < d.len() ==> is_digit(#[trigger] d[i])
}

/// The number that the decimal digits `d` spell.
pub open spec fn decimal_value(d: Seq<char>) -> int
    decreases d.len(),
{
    if d.len() == 0 {
        0
    } else {
        decimal_value(d.drop_last()) * 10 + ((d.last() as u32) - 0x30)
    }
}

/// `i64::from_str` on `s`: an optional `+` or `-`, then at least one decimal
/// digit and nothing else; the value must lie in the range of `i64`.
pub open spec fn parse_i64_spec(s: Seq<char>) -> Option<i64> {
    let signed = s.len() > 0 && (s[0] == '-' || s[0] == '+');
    let digits = if signed { s.drop_first() } else { s };
    let magnitude = decimal_value(digits);
    let value = if s.len() > 0 && s[0] == '-' { -magnitude } else { magnitude };
    if digits.len() == 0 || !all_digits(digits) {
        None
    } else if i64::MIN <= value <= i64::MAX {
        Some(value as i64)
    } else {
        None
    }
}

pub(crate) fn is_white_space_char(c: char) -> (b: bool)
    ensures
        b == is_white_space(c),
{
    let u = c as u32;
    (0x09 <= u && u <= 0x0d) || u == 0x20 || u == 0x85 || u == 0xa0 || u == 0x1680 || (0x2000 <= u
        && u <= 0x200a) || u == 0x2028 || u == 0x2029 || u == 0x202f || u == 0x205f || u == 0x3000
}

/// The bounds of `s[lo..hi]` with its leading and trailing white space removed.
pub fn trim_range(s: &Vec<char>, lo: usize, hi: usize) -> (r: (usize, usize))
    requires
        lo <= hi <= s@.len(),
    ensures
        lo <= r.0 <= r.1 <= hi,
        s@.subrange(r.0 as int, r.1 as int) == trim(s@.subrange(lo as int, hi as int)),
{
    let mut a = lo;
    while a < hi && is_white_space_char(s[a])
        invariant
            lo <= a <= hi <= s@.len(),
            trim_start(s@.subrange(lo as int, hi as int)) == trim_start(s@.subrange(a as int, hi as int)),
        decreases hi - a,
    {
        assert(s@.subrange(a as int, hi as int).drop_first() == s@.subrange(a + 1, hi as int));
        a = a + 1;
    }
    assert(trim_start(s@.subrange(a as int, hi as int)) == s@.subrange(a as int, hi as int));
    let mut b = hi;
    while b > a && is_white_space_char(s[b - 1])
        invariant
            lo <= a <= b <= hi <= s@.len(),
            trim_end(s@.subrange(a as int, hi as int)) == trim_end(s@.subrange(a as int, b as int)),
        decreases b - a,
    {
        assert(s@.subrange(a as int, b as int).drop_last() == s@.subrange(a as int, b - 1));
        b = b - 1;
    }
    (a, b)
}

proof fn lemma_decimal_nonnegative(d: Seq<char>)
    requires
        all_digits(d),
    ensures
        decimal_value(d) >= 0,
    decreases d.len(),
{
    if d.len() > 0 {
        lemma_decimal_nonnegative(d.drop_last());
        assert(is_digit(d[d.len() - 1]));
    }
}

proof fn lemma_decimal_prefix_le(d: Seq<char>, k: int)
    requires
        all_digits(d),
        0 <= k <= d.len(),
    ensures
        decimal_value(d.subrange(0, k)) <= decimal_value(d),
    decreases d.len(),
{
    if k < d.len() {
        let p = d.drop_last();
        assert(all_digits(p));
        lemma_decimal_prefix_le(p, k);
        assert(p.subrange(0, k) == d.subrange(0, k));
        lemma_decimal_nonnegative(p);
        assert(is_digit(d[d.len() - 1]));
    } else {
        assert(d.subrange(0, k) == d);
    }
}

/// `i64::from_str` on the characters `s[lo..hi]`.
pub fn parse_i64_range(s: &Vec<char>, lo: usize, hi: usize) -> (r: Option<i64>)
    requires
        lo <= hi <= s@.len(),
    ensures
        r == parse_i64_spec(s@.subrange(lo as int, hi as int)),
{
    let ghost t = s@.subrange(lo as int, hi as int);
    if lo == hi {
        return None;
    }
    let first = s[lo];
    let negative = first == '-';
    let start: usize = if first == '-' || first == '+' { lo + 1 } else { lo };
    let ghost digits = s@.subrange(start as int, hi as int);
    assert(digits == (if first == '-' || first == '+' { t.drop_first() } else { t }));
    if start == hi {
        return None;
    }
    let mut acc: u64 = 0;
    let mut i = start;
    while i < hi
        invariant
            lo <= start <= i <= hi <= s@.len(),
            lo < hi,
            t == s@.subrange(lo as int, hi as int),
            first == s@[lo as int],
            negative == (first == '-'),
            digits == (if first == '-' || first == '+' { t.drop_first() } else { t }),
            digits == s@.subrange(start as int, hi as int),
            all_digits(s@.subrange(start as int, i as int)),
            acc == decimal_value(s@.subrange(start as int, i as int)),
            acc <= 0x8000_0000_0000_0000,
        decreases hi - i,
    {
        let c = s[i];
        let u = c as u32;
        if u < 0x30 || u > 0x39 {
            assert(!is_digit(digits[i - start]));
            return None;
        }
        let d = (u - 0x30) as u64;
        let ghost next = s@.subrange(start as int, i + 1);
        assert(next.drop_last() == s@.subrange(start as int, i as int));
        assert(all_digits(next));
        if acc > 922_337_203_685_477_580 || (acc == 922_337_203_685_477_580 && d > 8) {
            proof {
                if all_digits(digits) {
                    lemma_decimal_prefix_le(digits, i + 1 - start);
                    assert(digits.subrange(0, i + 1 - start) == next);
                }
            }
            return None;
        }
        acc = acc * 10 + d;
        i = i + 1;
    }
    if negative {
        if acc == 0x8000_0000_0000_0000 {
            Some(i64::MIN)
        } else {
            Some(-(acc as i64))
        }
    } else if acc <= 0x7fff_ffff_ffff_ffff {
        Some(acc as i64)
    } else {
        None
    }
}

/// The text that follows `"exit status "` in an envd end status.
pub open spec fn exit_status_prefix() -> Seq<char> {
    seq!['e', 'x', 'i', 't', ' ', 's', 't', 'a', 't', 'u', 's', ' ']
}

/// The exit code that a status such as `"exit status 137"` carries: the text
/// after the prefix, trimmed, read as an `i64`.
pub open spec fn exit_status_code_spec(status: Seq<char>) -> Option<i64> {
    if starts_with(status, exit_status_prefix()) {
        parse_i64_spec(trim(status.skip(exit_status_prefix().len() as int)))
    } else {
        None
    }
}

/// Read the exit code out of an envd status text such as `"exit status 137"`.
pub fn exit_status_code(status: &str) -> (r: Option<i64>)
    ensures
        r == exit_status_code_spec(status@),
{
    let s = chars_of(status);
    let prefix = ['e', 'x', 'i', 't', ' ', 's', 't', 'a', 't', 'u', 's', ' '];
    assert(prefix@ == exit_status_prefix());
    if s.len() < 12 {
        return None;
    }
    let mut k: usize = 0;
    while k < 12
        invariant
            k <= 12 <= s@.len(),
            s@ == status@,
            prefix@ == exit_status_prefix(),
            s@.subrange(0, k as int) == prefix@.subrange(0, k as int),
        decreases 12 - k,
    {
        if s[k] != prefix[k] {
            assert(s@.subrange(0, 12)[k as int] == s@[k as int]);
            assert(s@.subrange(0, 12) != exit_status_prefix());
            return None;
        }
        k = k + 1;
        assert(s@.subrange(0, k as int) == s@.subrange(0, k - 1).push(s@[k - 1]));
        assert(prefix@.subrange(0, k as int) == prefix@.subrange(0, k - 1).push(prefix@[k - 1]));
    }
    assert(prefix@.subrange(0, 12) == prefix@);
    let len = s.len();
    assert(s@.skip(12) == s@.subrange(12, len as int));
    let (a, b) = trim_range(&s, 12, len);
    parse_i64_range(&s, a, b)
}

/// The character of the decimal digit `d` (for `d < 10`).
pub open spec fn digit_char(d: nat) -> char {
    if d == 0 {
        '0'
    } else if d == 1 {
        '1'
    } else if d == 2 {
        '2'
    } else if d == 3 {
        '3'
    } else if d == 4 {
        '4'
    } else if d == 5 {
        '5'
    } else if d == 6 {
        '6'
    } else if d == 7 {
        '7'
    } else if d == 8 {
        '8'
    } else {
        '9'
    }
}

/// The decimal notation of `n`, without sign or leading zeros.
pub open spec fn decimal_text(n: nat) -> Seq<char>
    decreases n,
{
    if n < 10 {
        seq![digit_char(n)]
    } else {
        decimal_text(n / 10) + seq![digit_char(n % 10)]
    }
}

fn digit_str(d: u64) -> (s: &'static str)
    requires
        d < 10,
    ensures
        s@ == seq![digit_char(d as nat)],
{
    if d == 0 {
        proof { reveal_strlit("0"); }
        "0"
    } else if d == 1 {
        proof { reveal_strlit("1"); }
        "1"
    } else if d == 2 {
        proof { reveal_strlit("2"); }
        "2"
    } else if d == 3 {
        proof { reveal_strlit("3"); }
        "3"
    } else if d == 4 {
        proof { reveal_strlit("4"); }
        "4"
    } else if d == 5 {
        proof { reveal_strlit("5"); }
        "5"
    } else if d == 6 {
        proof { reveal_strlit("6"); }
        "6"
    } else if d == 7 {
        proof { reveal_strlit("7"); }
        "7"
    } else if d == 8 {
        proof { reveal_strlit("8"); }
        "8"
    } else {
        proof { reveal_strlit("9"); }
        "9"
    }
}

/// The decimal notation of `n`.
pub fn decimal_string(n: u64) -> (s: String)
    ensures
        s@ == decimal_text(n as nat),
    decreases n,
{
    if n < 10 {
        String::from_str(digit_str(n))
    } else {
        let head = decimal_string(n / 10);
        head.concat(digit_str(n % 10))
    }
}

/// `n` in decimal, with a leading `-` where it is negative.
pub open spec fn signed_decimal_text(n: int) -> Seq<char> {
    if n < 0 {
        seq!['-'] + decimal_text((-n) as nat)
    } else {
        decimal_text(n as nat)
    }
}

proof fn lemma_digit_char(k: nat)
    requires
        k < 10,
    ensures
        is_digit(digit_char(k)),
        (digit_char(k) as u32) - 0x30 == k,
{
}

/// Decimal notation reads back: `decimal_text(n)` is a non-empty run of
/// digits whose value is `n`.
pub proof fn law_decimal_roundtrip(n: nat)
    ensures
        decimal_text(n).len() > 0,
        all_digits(decimal_text(n)),
        decimal_value(decimal_text(n)) == n,
    decreases n,
{
    lemma_digit_char(n % 10);
    if n < 10 {
        let d = decimal_text(n);
        assert(d.drop_last() == Seq::<char>::empty());
        assert(decimal_value(d.drop_last()) == 0);
        assert(d.last() == digit_char(n));
        assert(decimal_value(d) == decimal_value(d.drop_last()) * 10 + ((d.last() as u32) - 0x30));
    } else {
        law_decimal_roundtrip(n / 10);
        let t = decimal_text(n / 10);
        let d = decimal_text(n);
        assert(d.drop_last() == t);
        assert(d.last() == digit_char(n % 10));
        assert(n == (n / 10) * 10 + n % 10);
        assert(decimal_value(d) == decimal_value(d.drop_last()) * 10 + ((d.last() as u32) - 0x30));
        assert forall|i: int| 0 <= i < d.len() implies is_digit(#[trigger] d[i]) by {
            if i < t.len() {
                assert(d[i] == t[i]);
            }
        }
    }
}

/// Two runs of digits, each followed by text that starts with a non-digit,
/// are told apart where the digits end.
pub proof fn lemma_digits_split(d1: Seq<char>, t1: Seq<char>, d2: Seq<char>, t2: Seq<char>)
    requires
        all_digits(d1),
        all_digits(d2),
        t1.len() > 0,
        t2.len() > 0,
        !is_digit(t1[0]),
        !is_digit(t2[0]),
        d1 + t1 == d2 + t2,
    ensures
        d1 == d2,
        t1 == t2,
{
    if d1.len() < d2.len() {
        assert((d1 + t1)[d1.len() as int] == t1[0]);
        assert((d2 + t2)[d1.len() as int] == d2[d1.len() as int]);
    } else if d2.len() < d1.len() {
        assert((d2 + t2)[d2.len() as int] == t2[0]);
        assert((d1 + t1)[d2.len() as int] == d1[d2.len() as int]);
    } else {
        assert(d1 == (d1 + t1).subrange(0, d1.len() as int));
        assert(d2 == (d2 + t2).subrange(0, d2.len() as int));
        assert(t1 == (d1 + t1).skip(d1.len() as int));
        assert(t2 == (d2 + t2).skip(d2.len() as int));
    }
}

/// Equal decimal notations are of equal numbers.
pub proof fn law_decimal_injective(a: nat, b: nat)
    requires
        decimal_text(a) == decimal_text(b),
    ensures
        a == b,
{
    law_decimal_roundtrip(a);
    law_decimal_roundtrip(b);
}

proof fn lemma_trim_start_ws(ws: Seq<char>, x: Seq<char>)
    requires
        forall|i: int| 0 <= i < ws.len() ==> is_white_space(#[trigger] ws[i]),
        x.len() > 0,
        !is_white_space(x[0]),
    ensures
        trim_start(ws + x) == x,
    decreases ws.len(),
{
    if ws.len() == 0 {
        assert(ws + x == x);
    } else {
        assert((ws + x)[0] == ws[0]);
        assert((ws + x).drop_first() == ws.drop_first() + x);
        lemma_trim_start_ws(ws.drop_first(), x);
    }
}

proof fn lemma_trim_end_ws(x: Seq<char>, ws: Seq<char>)
    requires
        forall|i: int| 0 <= i < ws.len() ==> is_white_space(#[trigger] ws[i]),
        x.len() > 0,
        !is_white_space(x.last()),
    ensures
        trim_end(x + ws) == x,
    decreases ws.len(),
{
    if ws.len() == 0 {
        assert(x + ws == x);
    } else {
        assert((x + ws).last() == ws.last());
        assert((x + ws).drop_last() == x + ws.drop_last());
        lemma_trim_end_ws(x, ws.drop_last());
    }
}

/// `i64::from_str` reads back the decimal notation of every `i64`.
pub proof fn law_parse_i64_reads_decimal(n: i64)
    ensures
        parse_i64_spec(signed_decimal_text(n as int)) == Some(n),
{
    let m: nat = if n < 0 { (-n) as nat } else { n as nat };
    law_decimal_roundtrip(m);
    let d = decimal_text(m);
    assert(is_digit(d[0]));
    if n < 0 {
        let s = seq!['-'] + d;
        assert(s[0] == '-');
        assert(s.drop_first() == d);
    }
}

/// The exit code of a status `"exit status N"`, with any white space
/// around `N`, is `N`, for every `i64` `N`.
pub proof fn law_exit_status_reads_code(n: i64, before: Seq<char>, after: Seq<char>)
    requires
        forall|i: int| 0 <= i < before.len() ==> is_white_space(#[trigger] before[i]),
        forall|i: int| 0 <= i < after.len() ==> is_white_space(#[trigger] after[i]),
    ensures
        exit_status_code_spec("exit status "@ + before + signed_decimal_text(n as int) + after) == Some(n),
{
    reveal_strlit("exit status ");
    assert("exit status "@ == exit_status_prefix());
    let core = signed_decimal_text(n as int);
    let m: nat = if n < 0 { (-n) as nat } else { n as nat };
    law_decimal_roundtrip(m);
    let d = decimal_text(m);
    assert(is_digit(d[0]) && is_digit(d.last()));
    assert(core.len() > 0 && !is_white_space(core[0]) && !is_white_space(core.last())) by {
        if n < 0 {
            assert(core[0] == '-');
            assert(core.last() == d.last());
        }
    }
    let status = "exit status "@ + before + core + after;
    assert(status == exit_status_prefix() + (before + core + after));
    assert(status.subrange(0, 12) == exit_status_prefix());
    assert(status.skip(12) == before + (core + after));
    lemma_trim_end_ws(core, after);
    lemma_trim_start_ws(before, core + after);
    assert((core + after)[0] == core[0]);
    law_parse_i64_reads_decimal(n);
}

} // verus!
