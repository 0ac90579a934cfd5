//! Text helpers: trimming, splitting, prefix tests, decimal numbers and
//! conversions between texts and their characters.

use vstd::prelude::*;
use vstd::utf8::{decode_utf8, valid_utf8};

verus! {

/// The characters of a text (a loop over `str::chars`).
pub fn to_chars(s: &str) -> (v: Vec<char>)
    ensures
        v@ == s@,
{
    let mut v: Vec<char> = Vec::new();
    for c in it: s.chars()
        invariant
            it.seq() == s@,
            v@ == it.seq().take(it.index()),
    {
        v.push(c);
        assert(it.seq().take(it.index() + 1) =~= it.seq().take(it.index()).push(c));
    }
    assert(s@.take(s@.len() as int) =~= s@);
    v
}

/// `char::to_string`: the text holding just `c`.
#[verifier::external_body]
pub(crate) fn char_to_string(c: char) -> (s: String)
    ensures
        s@ == seq![c],
{
    c.to_string()
}

/// The text made of the given characters.
pub fn from_chars(v: &[char]) -> (s: String)
    ensures
        s@ == v@,
{
    let mut s = String::new();
    let mut i: usize = 0;
    while i < v.len()
        invariant
            i <= v@.len(),
            s@ == v@.take(i as int),
        decreases v@.len() - i,
    {
        let c = char_to_string(v[i]);
        s.append(c.as_str());
        assert(v@.take(i + 1) =~= v@.take(i as int).push(v@[i as int]));
        i = i + 1;
    }
    assert(v@.take(v@.len() as int) =~= v@);
    s
}

/// Whether `c` is white space in the sense of Unicode's `White_Space`
/// property (what `char::is_whitespace` and `str::trim` go by).
pub open spec fn spec_is_whitespace(c: char) -> bool {
    ||| ('\u{9}' <= c && c <= '\u{d}')
    ||| c == ' '
    ||| c == '\u{85}'
    ||| c == '\u{a0}'
    ||| c == '\u{1680}'
    ||| ('\u{2000}' <= c && c <= '\u{200a}')
    ||| c == '\u{2028}'
    ||| c == '\u{2029}'
    ||| c == '\u{202f}'
    ||| c == '\u{205f}'
    ||| c == '\u{3000}'
}

pub fn is_whitespace(c: char) -> (b: bool)
    ensures
        b == spec_is_whitespace(c),
{
    ('\u{9}' <= c && c <= '\u{d}') || c == ' ' || c == '\u{85}' || c == '\u{a0}' || c == '\u{1680}'
        || ('\u{2000}' <= c && c <= '\u{200a}') || c == '\u{2028}' || c == '\u{2029}' || c == '\u{202f}'
        || c == '\u{205f}' || c == '\u{3000}'
}

/// A text without its leading white space.
pub open spec fn spec_trim_start(s: Seq<char>) -> Seq<char>
    decreases s.len(),
{
    if s.len() > 0 && spec_is_whitespace(s[0]) { spec_trim_start(s.drop_first()) } else { s }
}

/// A text without its trailing white space.
pub open spec fn spec_trim_end(s: Seq<char>) -> Seq<char>
    decreases s.len(),
{
    if s.len() > 0 && spec_is_whitespace(s.last()) { spec_trim_end(s.drop_last()) } else { s }
}

/// A text without leading and trailing white space (`str::trim`).
pub open spec fn spec_trim(s: Seq<char>) -> Seq<char> {
    spec_trim_end(spec_trim_start(s))
}

/// `s` without leading and trailing white space.
pub fn trim(s: &[char]) -> (r: Vec<char>)
    ensures
        r@ == spec_trim(s@),
{
    let mut start: usize = 0;
    assert(s@.skip(0) =~= s@);
    while start < s.len() && is_whitespace(s[start])
        invariant
            start <= s@.len(),
            spec_trim_start(s@) == spec_trim_start(s@.skip(start as int)),
        decreases s@.len() - start,
    {
        assert(s@.skip(start as int).drop_first() =~= s@.skip(start + 1));
        start = start + 1;
    }
    proof {
        if start < s@.len() {
            assert(s@.skip(start as int)[0] == s@[start as int]);
        }
    }
    let ghost t = s@.skip(start as int);
    assert(spec_trim_start(s@) == t);
    let mut end: usize = s.len();
    while end > start && is_whitespace(s[end - 1])
        invariant
            start <= end <= s@.len(),
            t == s@.skip(start as int),
            spec_trim_end(t) == spec_trim_end(s@.subrange(start as int, end as int)),
        decreases end,
    {
        assert(s@.subrange(start as int, end as int).drop_last() =~= s@.subrange(start as int, end - 1));
        end = end - 1;
    }
    proof {
        if end > start {
            assert(s@.subrange(start as int, end as int).last() == s@[end - 1]);
        }
    }
    assert(s@.skip(0) =~= s@);
    assert(t =~= s@.subrange(start as int, s@.len() as int));
    let mut r: Vec<char> = Vec::new();
    let mut i = start;
    while i < end
        invariant
            start <= i <= end <= s@.len(),
            r@ == s@.subrange(start as int, i as int),
        decreases end - i,
    {
        r.push(s[i]);
        assert(s@.subrange(start as int, i + 1) =~= s@.subrange(start as int, i as int).push(s@[i as int]));
        i = i + 1;
    }
    r
}

/// Whether `s` begins with `prefix`.
pub open spec fn spec_starts_with(s: Seq<char>, prefix: Seq<char>) -> bool {
    prefix.len() <= s.len() && s.subrange(0, prefix.len() as int) == prefix
}

pub fn starts_with(s: &str, prefix: &str) -> (b: bool)
    ensures
        b == spec_starts_with(s@, prefix@),
{
    let n = s.unicode_len();
    let m = prefix.unicode_len();
    if m > n {
        return false;
    }
    let mut i: usize = 0;
    while i < m
        invariant
            m == prefix@.len(),
            n == s@.len(),
            m <= n,
            i <= m,
            forall|j: int| 0 <= j < i ==> s@[j] == prefix@[j],
        decreases m - i,
    {
        if s.get_char(i) != prefix.get_char(i) {
            assert(s@.subrange(0, m as int)[i as int] != prefix@[i as int]);
            return false;
        }
        i = i + 1;
    }
    assert(s@.subrange(0, m as int) =~= prefix@);
    true
}

/// Whether the characters `s` spell the text `t`.
pub fn chars_equal(s: &[char], t: &str) -> (b: bool)
    ensures
        b == (s@ == t@),
{
    let n = t.unicode_len();
    if s.len() != n {
        return false;
    }
    let mut i: usize = 0;
    while i < n
        invariant
            n == t@.len(),
            n == s@.len(),
            i <= n,
            forall|j: int| 0 <= j < i ==> s@[j] == t@[j],
        decreases n - i,
    {
        if s[i] != t.get_char(i) {
            return false;
        }
        i = i + 1;
    }
    assert(s@ =~= t@);
    true
}

/// The value of an ASCII decimal digit.
pub open spec fn digit_value(c: char) -> nat {
    (c as nat - '0' as nat) as nat
}

pub open spec fn is_digit(c: char) -> bool {
    '0' <= c && c <= '9'
}

/// The number that a run of decimal digits spells.
pub open spec fn digits_value(s: Seq<char>) -> nat
    decreases s.len(),
{
    if s.len() == 0 { 0 } else { digits_value(s.drop_last()) * 10 + digit_value(s.last()) }
}

/// What `str::parse` gives for an unsigned integer at most `max`: a
/// possible `+` sign followed by at least one decimal digit, with a value
/// that fits.
pub open spec fn spec_parse_unsigned(s: Seq<char>, max: nat) -> Option<nat> {
    if unsigned_digits(s).len() > 0 && all_digits(unsigned_digits(s)) && digits_value(unsigned_digits(s)) <= max {
        Some(digits_value(unsigned_digits(s)))
    } else {
        None
    }
}

/// The digits of an unsigned number: the text after a possible `+` sign.
pub open spec fn unsigned_digits(s: Seq<char>) -> Seq<char> {
    if s.len() > 0 && s[0] == '+' { s.drop_first() } else { s }
}

pub open spec fn all_digits(s: Seq<char>) -> bool {
    forall|i: int| 0 <= i < s.len() ==> is_digit(#[trigger] s[i])
}

/// Parses an unsigned number the way `str::parse::<u64>` does.
pub fn parse_u64(s: &[char]) -> (r: Option<u64>)
    ensures
        match spec_parse_unsigned(s@, u64::MAX as nat) {
            Some(v) => r == Some(v as u64),
            None => r is None,
        },
{
    let start: usize = if s.len() > 0 && s[0] == '+' { 1 } else { 0 };
    let ghost digits = unsigned_digits(s@);
    assert(digits =~= s@.skip(start as int));
    if start >= s.len() {
        return None;
    }
    let mut value: u64 = 0;
    let mut i = start;
    while i < s.len()
        invariant
            start <= i <= s@.len(),
            digits == s@.skip(start as int),
            digits == unsigned_digits(s@),
            forall|j: int| start <= j < i ==> is_digit(#[trigger] s@[j]),
            value as nat == digits_value(s@.subrange(start as int, i as int)),
        decreases s@.len() - i,
    {
        let c = s[i];
        assert(s@.subrange(start as int, i + 1).drop_last() =~= s@.subrange(start as int, i as int));
        assert(digits[i - start] == c);
        if c < '0' || c > '9' {
            assert(!is_digit(digits[i - start]));
            assert(!all_digits(digits));
            assert(spec_parse_unsigned(s@, u64::MAX as nat) is None);
            return None;
        }
        let d = (c as u32 - '0' as u32) as u64;
        assert(d as nat == digit_value(c));
        if value > (u64::MAX - d) / 10 {
            proof {
                let prefix = s@.subrange(start as int, i + 1);
                assert(digits.subrange(0, prefix.len() as int) =~= prefix);
                assert(prefix.last() == c);
                assert(forall|j: int| 0 <= j < prefix.len() ==> is_digit(#[trigger] prefix[j])) by {
                    assert forall|j: int| 0 <= j < prefix.len() implies is_digit(#[trigger] prefix[j]) by {
                        assert(prefix[j] == s@[start + j]);
                    }
                }
                assert(value as nat * 10 + d > u64::MAX) by (nonlinear_arith)
                    requires value > (u64::MAX - d) / 10, d < 10;
                lemma_digits_grow(prefix, digits);
                assert(spec_parse_unsigned(s@, u64::MAX as nat) is None);
            }
            return None;
        }
        value = value * 10 + d;
        i = i + 1;
    }
    assert(s@.subrange(start as int, s@.len() as int) =~= digits);
    Some(value)
}

/// A run of digits is worth at least as much as any of its prefixes, so a
/// prefix too large for a limit makes the whole run too large.
proof fn lemma_digits_grow(prefix: Seq<char>, all: Seq<char>)
    requires
        prefix.len() <= all.len(),
        all.subrange(0, prefix.len() as int) == prefix,
        forall|i: int| 0 <= i < prefix.len() ==> is_digit(#[trigger] prefix[i]),
        digits_value(prefix) > u64::MAX,
    ensures
        !all_digits(all) || digits_value(all) > u64::MAX,
    decreases all.len() - prefix.len(),
{
    if prefix.len() < all.len() {
        let longer = all.subrange(0, prefix.len() as int + 1);
        assert(longer.drop_last() =~= prefix);
        if is_digit(all[prefix.len() as int]) {
            assert(forall|i: int| 0 <= i < longer.len() ==> is_digit(#[trigger] longer[i]));
            assert(digits_value(longer) >= digits_value(prefix) * 10);
            lemma_digits_grow(longer, all);
        }
    } else {
        assert(all =~= prefix);
    }
}

/// Parses an unsigned number the way `str::parse::<usize>` does.
pub fn parse_usize(s: &[char]) -> (r: Option<usize>)
    ensures
        match spec_parse_unsigned(s@, usize::MAX as nat) {
            Some(v) => r == Some(v as usize),
            None => r is None,
        },
{
    match parse_u64(s) {
        Some(v) => {
            if v as u128 <= usize::MAX as u128 {
                Some(v as usize)
            } else {
                None
            }
        },
        None => {
            proof {
                assert(usize::MAX <= u64::MAX);
            }
            None
        },
    }
}

/// The decimal digits of a number, without sign or leading zeros.
pub open spec fn spec_decimal(n: nat) -> Seq<char>
    decreases n,
{
    if n < 10 { seq![digit_char(n)] } else { spec_decimal(n / 10) + seq![digit_char(n % 10)] }
}

pub open spec fn digit_char(d: nat) -> char {
    if d == 0 { '0' } else if d == 1 { '1' } else if d == 2 { '2' } else if d == 3 { '3' }
    else if d == 4 { '4' } else if d == 5 { '5' } else if d == 6 { '6' } else if d == 7 { '7' }
    else if d == 8 { '8' } else { '9' }
}

fn digit_str(d: u64) -> (s: &'static str)
    requires
        d < 10,
    ensures
        s@ == seq![digit_char(d as nat)],
{
    proof {
        reveal_strlit("0");
        reveal_strlit("1");
        reveal_strlit("2");
        reveal_strlit("3");
        reveal_strlit("4");
        reveal_strlit("5");
        reveal_strlit("6");
        reveal_strlit("7");
        reveal_strlit("8");
        reveal_strlit("9");
    }
    if d == 0 { "0" } else if d == 1 { "1" } else if d == 2 { "2" } else if d == 3 { "3" }
    else if d == 4 { "4" } else if d == 5 { "5" } else if d == 6 { "6" } else if d == 7 { "7" }
    else if d == 8 { "8" } else { "9" }
}

/// Appends the decimal digits of `n`.
pub fn append_decimal(s: &mut String, n: u64)
    ensures
        final(s)@ == old(s)@ + spec_decimal(n as nat),
    decreases n,
{
    if n >= 10 {
        append_decimal(s, n / 10);
    }
    s.append(digit_str(n % 10));
    assert(final(s)@ =~= old(s)@ + spec_decimal(n as nat));
}

/// The decimal text of a signed number: a minus sign before the digits of
/// a negative one.
pub open spec fn spec_signed_decimal(n: int) -> Seq<char> {
    if n < 0 { seq!['-'] + spec_decimal((-n) as nat) } else { spec_decimal(n as nat) }
}

pub fn append_signed_decimal(s: &mut String, n: i64)
    ensures
        final(s)@ == old(s)@ + spec_signed_decimal(n as int),
{
    if n < 0 {
        s.append("-");
        proof { reveal_strlit("-"); }
        let m: u64 = if n == i64::MIN { 9_223_372_036_854_775_808u64 } else { (-n) as u64 };
        append_decimal(s, m);
        assert(final(s)@ =~= old(s)@ + spec_signed_decimal(n as int));
    } else {
        append_decimal(s, n as u64);
    }
}

/// What `str::to_lowercase` makes of a text.
pub uninterp spec fn lowercase(s: Seq<char>) -> Seq<char>;

/// `str::to_lowercase`: the text in lower case, by Unicode's rules.
#[verifier::external_body]
pub(crate) fn to_lowercase(s: &str) -> (r: String)
    ensures
        r@ == lowercase(s@),
{
    s.to_lowercase()
}

/// The lower-case hexadecimal digit of `d` (below 16).
pub open spec fn hex_digit(d: u8) -> char {
    if d < 10 { (('0' as u8) + d) as char } else { (('a' as u8) + d - 10) as char }
}

/// Bytes written as lower-case hexadecimal, two digits per byte.
pub open spec fn spec_hex(bytes: Seq<u8>) -> Seq<char>
    decreases bytes.len(),
{
    if bytes.len() == 0 {
        Seq::empty()
    } else {
        spec_hex(bytes.drop_last()) + seq![hex_digit(bytes.last() / 16), hex_digit(bytes.last() % 16)]
    }
}

pub proof fn lemma_hex_len(bytes: Seq<u8>)
    ensures
        spec_hex(bytes).len() == 2 * bytes.len(),
    decreases bytes.len(),
{
    if bytes.len() > 0 {
        lemma_hex_len(bytes.drop_last());
    }
}

fn hex_char(d: u8) -> (c: char)
    requires
        d < 16,
    ensures
        c == hex_digit(d),
{
    let s = "0123456789abcdef";
    proof {
        reveal_strlit("0123456789abcdef");
    }
    let c = s.get_char(d as usize);
    assert(c == hex_digit(d));
    c
}

/// Writes bytes as lower-case hexadecimal, two digits per byte.
pub fn to_hex(bytes: &[u8]) -> (s: String)
    ensures
        s@ == spec_hex(bytes@),
{
    let mut out: Vec<char> = Vec::new();
    let mut i: usize = 0;
    while i < bytes.len()
        invariant
            i <= bytes@.len(),
            out@ == spec_hex(bytes@.take(i as int)),
        decreases bytes@.len() - i,
    {
        let b = bytes[i];
        out.push(hex_char(b / 16));
        out.push(hex_char(b % 16));
        assert(bytes@.take(i + 1).drop_last() =~= bytes@.take(i as int));
        assert(out@ =~= spec_hex(bytes@.take(i + 1)));
        i = i + 1;
    }
    assert(bytes@.take(bytes@.len() as int) =~= bytes@);
    from_chars(out.as_slice())
}

pub proof fn lemma_hex_digits(bytes: Seq<u8>)
    ensures
        forall|i: int| 0 <= i < spec_hex(bytes).len() ==> {
            let c = #[trigger] spec_hex(bytes)[i];
            ('0' <= c <= '9') || ('a' <= c <= 'f')
        },
    decreases bytes.len(),
{
    if bytes.len() > 0 {
        let prefix = bytes.drop_last();
        lemma_hex_digits(prefix);
        let last = bytes.last();
        lemma_hex_digit(last / 16);
        lemma_hex_digit(last % 16);
        let h = spec_hex(bytes);
        assert forall|i: int| 0 <= i < h.len() implies {
            let c = #[trigger] h[i];
            ('0' <= c <= '9') || ('a' <= c <= 'f')
        } by {
            if i < spec_hex(prefix).len() {
                assert(h[i] == spec_hex(prefix)[i]);
            }
        }
    }
}

proof fn lemma_hex_digit(d: u8)
    requires
        d < 16,
    ensures
        ('0' <= hex_digit(d) <= '9') || ('a' <= hex_digit(d) <= 'f'),
{
    if d < 10 {
        assert(('0' as u8) + d <= '9' as u8);
    } else {
        assert(('a' as u8) + d - 10 <= 'f' as u8);
    }
}

/// What `String::from_utf8_lossy` makes of bytes that are not valid UTF-8.
pub uninterp spec fn utf8_lossy(bytes: Seq<u8>) -> Seq<char>;

/// `String::from_utf8_lossy`: valid UTF-8 is decoded as it is; otherwise
/// each invalid sequence becomes U+FFFD, a result named `utf8_lossy`.
#[verifier::external_body]
pub(crate) fn from_utf8_lossy_text(bytes: &[u8]) -> (s: String)
    ensures
        s@ == utf8_lossy(bytes@),
        valid_utf8(bytes@) ==> s@ == decode_utf8(bytes@),
{
    String::from_utf8_lossy(bytes).into_owned()
}

} // verus!
