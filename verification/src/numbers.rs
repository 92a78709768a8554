//! Recognisers for the number syntaxes that configuration values use: the
//! unsigned integers that `u32::from_str` accepts and the decimal floating
//! point literals that `f32::from_str` accepts.
use vstd::prelude::*;

verus! {

pub open spec fn is_digit(c: char) -> bool {
    '0' <= c && c <= '9'
}

pub open spec fn all_digits(s: Seq<char>) -> bool {
    forall|i: int| 0 <= i < s.len() ==> is_digit(#[trigger] s[i])
}

/// The number that the decimal digits `s` spell.
pub open spec fn digits_value(s: Seq<char>) -> nat
    decreases s.len(),
{
    if s.len() == 0 {
        0
    } else {
        digits_value(s.drop_last()) * 10 + ((s.last() as nat) - ('0' as nat)) as nat
    }
}

/// What `u32::from_str` gives for `s`: an optional `+`, then one or more decimal digits
/// whose value fits in `u32`.
pub open spec fn parse_u32_spec(s: Seq<char>) -> Option<u32> {
    let d = if s.len() > 0 && s[0] == '+' { s.drop_first() } else { s };
    if d.len() > 0 && all_digits(d) && digits_value(d) <= u32::MAX {
        Some(digits_value(d) as u32)
    } else {
        None
    }
}

proof fn lemma_digits_value_mono(s: Seq<char>, i: int)
    requires
        0 <= i <= s.len(),
        all_digits(s),
    ensures
        digits_value(s.take(i)) <= digits_value(s),
    decreases s.len() - i,
{
    if i < s.len() {
        lemma_digits_value_mono(s, i + 1);
        assert(s.take(i + 1).drop_last() =~= s.take(i));
    } else {
        assert(s.take(i) =~= s);
    }
}

/// Parses a decimal `u32` as `u32::from_str` does.
pub fn parse_u32(s: &[char]) -> (r: Option<u32>)
    ensures
        r == parse_u32_spec(s@),
{
    let start: usize = if s.len() > 0 && s[0] == '+' { 1 } else { 0 };
    let ghost d = if s@.len() > 0 && s@[0] == '+' { s@.drop_first() } else { s@ };
    assert(d =~= s@.skip(start as int));
    if start >= s.len() {
        return None;
    }
    let mut value: u64 = 0;
    let mut i: usize = start;
    while i < s.len()
        invariant
            start <= i <= s@.len(),
            d =~= s@.skip(start as int),
            d == (if s@.len() > 0 && s@[0] == '+' { s@.drop_first() } else { s@ }),
            all_digits(s@.subrange(start as int, i as int)),
            value == digits_value(s@.subrange(start as int, i as int)),
            value <= u32::MAX,
        decreases s@.len() - i,
    {
        let c = s[i];
        if !('0' <= c && c <= '9') {
            assert(!is_digit(d[i - start]));
            assert(!all_digits(d));
            return None;
        }
        let digit = (c as u32 - '0' as u32) as u64;
        assert(s@.subrange(start as int, i + 1).drop_last() =~= s@.subrange(start as int, i as int));
        let next = value * 10 + digit;
        if next > u32::MAX as u64 {
            proof {
                assert(d.take(i + 1 - start) =~= s@.subrange(start as int, i + 1));
                assert(digits_value(s@.subrange(start as int, i + 1)) == next);
                if all_digits(d) {
                    lemma_digits_value_mono(d, i + 1 - start);
                    assert(digits_value(d) > u32::MAX);
                }
            }
            return None;
        }
        value = next;
        i = i + 1;
    }
    assert(s@.subrange(start as int, s@.len() as int) =~= d);
    Some(value as u32)
}

/// What `usize::from_str` gives for `s`: an optional `+`, then one or more decimal digits
/// whose value fits in `usize`.
pub open spec fn parse_usize_spec(s: Seq<char>) -> Option<usize> {
    let d = if s.len() > 0 && s[0] == '+' { s.drop_first() } else { s };
    if d.len() > 0 && all_digits(d) && digits_value(d) <= usize::MAX {
        Some(digits_value(d) as usize)
    } else {
        None
    }
}

/// Parses a decimal `usize` as `usize::from_str` does.
pub fn parse_usize(s: &[char]) -> (r: Option<usize>)
    ensures
        r == parse_usize_spec(s@),
{
    let start: usize = if s.len() > 0 && s[0] == '+' { 1 } else { 0 };
    let ghost d = if s@.len() > 0 && s@[0] == '+' { s@.drop_first() } else { s@ };
    assert(d =~= s@.skip(start as int));
    if start >= s.len() {
        return None;
    }
    let mut value: u128 = 0;
    let mut i: usize = start;
    while i < s.len()
        invariant
            start <= i <= s@.len(),
            d =~= s@.skip(start as int),
            d == (if s@.len() > 0 && s@[0] == '+' { s@.drop_first() } else { s@ }),
            all_digits(s@.subrange(start as int, i as int)),
            value == digits_value(s@.subrange(start as int, i as int)),
            value <= usize::MAX,
        decreases s@.len() - i,
    {
        let c = s[i];
        if !('0' <= c && c <= '9') {
            assert(!is_digit(d[i - start]));
            assert(!all_digits(d));
            return None;
        }
        let digit = (c as u32 - '0' as u32) as u128;
        assert(s@.subrange(start as int, i + 1).drop_last() =~= s@.subrange(start as int, i as int));
        let next = value * 10 + digit;
        if next > usize::MAX as u128 {
            proof {
                assert(d.take(i + 1 - start) =~= s@.subrange(start as int, i + 1));
                assert(digits_value(s@.subrange(start as int, i + 1)) == next);
                if all_digits(d) {
                    lemma_digits_value_mono(d, i + 1 - start);
                    assert(digits_value(d) > usize::MAX);
                }
            }
            return None;
        }
        value = next;
        i = i + 1;
    }
    assert(s@.subrange(start as int, s@.len() as int) =~= d);
    Some(value as usize)
}

/// The position of the first character of `s` that is `a` or `b` (or `s.len()`).
pub open spec fn first_of(s: Seq<char>, a: char, b: char) -> nat
    decreases s.len(),
{
    if s.len() == 0 {
        0
    } else if s[0] == a || s[0] == b {
        0
    } else {
        1 + first_of(s.drop_first(), a, b)
    }
}

/// `Digit+ | Digit+ '.' Digit* | Digit* '.' Digit+`
pub open spec fn is_mantissa(m: Seq<char>) -> bool {
    let d = first_of(m, '.', '.');
    if d == m.len() {
        m.len() > 0 && all_digits(m)
    } else {
        let before = m.take(d as int);
        let after = m.skip((d + 1) as int);
        all_digits(before) && all_digits(after) && (before.len() > 0 || after.len() > 0)
    }
}

/// `('e' | 'E') Sign? Digit+`
pub open spec fn is_exponent(r: Seq<char>) -> bool {
    let t = r.drop_first();
    let u = if t.len() > 0 && (t[0] == '+' || t[0] == '-') { t.drop_first() } else { t };
    r.len() > 0 && (r[0] == 'e' || r[0] == 'E') && u.len() > 0 && all_digits(u)
}

/// `Number ::= Mantissa Exp?`
pub open spec fn is_number(s: Seq<char>) -> bool {
    let k = first_of(s, 'e', 'E');
    is_mantissa(s.take(k as int)) && (k == s.len() || is_exponent(s.skip(k as int)))
}

/// Whether `c`, once an upper case ASCII letter in it is made lower case, is `w`.
pub open spec fn same_letter(c: char, w: char) -> bool {
    c == w || ('A' <= c && c <= 'Z' && (c as u32) + 32 == (w as u32))
}

/// Whether `s` spells `word` (lower case letters) ignoring the case of its letters.
pub open spec fn matches_word(s: Seq<char>, word: Seq<char>) -> bool {
    s.len() == word.len() && forall|i: int| 0 <= i < s.len() ==> same_letter(s[i], word[i])
}

/// The strings that `f32::from_str` accepts:
/// `Sign? ( 'inf' | 'infinity' | 'nan' | Number )`, letters in any case.
pub open spec fn is_float_literal(s: Seq<char>) -> bool {
    let u = if s.len() > 0 && (s[0] == '+' || s[0] == '-') { s.drop_first() } else { s };
    ||| matches_word(u, seq!['i', 'n', 'f'])
    ||| matches_word(u, seq!['i', 'n', 'f', 'i', 'n', 'i', 't', 'y'])
    ||| matches_word(u, seq!['n', 'a', 'n'])
    ||| is_number(u)
}

fn is_digit_char(c: char) -> (r: bool)
    ensures
        r == is_digit(c),
{
    '0' <= c && c <= '9'
}

/// Whether `s[lo..hi]` consists of digits only.
fn digits_between(s: &[char], lo: usize, hi: usize) -> (r: bool)
    requires
        lo <= hi <= s@.len(),
    ensures
        r == all_digits(s@.subrange(lo as int, hi as int)),
{
    let mut i = lo;
    while i < hi
        invariant
            lo <= i <= hi <= s@.len(),
            all_digits(s@.subrange(lo as int, i as int)),
        decreases hi - i,
    {
        if !is_digit_char(s[i]) {
            assert(!is_digit(s@.subrange(lo as int, hi as int)[i - lo]));
            return false;
        }
        i = i + 1;
    }
    true
}

proof fn lemma_first_of(s: Seq<char>, a: char, b: char, i: int)
    requires
        0 <= i <= s.len(),
        forall|j: int| 0 <= j < i ==> s[j] != a && s[j] != b,
        i == s.len() || s[i] == a || s[i] == b,
    ensures
        first_of(s, a, b) == i,
    decreases i,
{
    if i > 0 {
        lemma_first_of(s.drop_first(), a, b, i - 1);
    }
}

/// The position in `s[lo..hi]`, counted from `lo`, of the first `a` or `b`.
fn find_first(s: &[char], lo: usize, hi: usize, a: char, b: char) -> (r: usize)
    requires
        lo <= hi <= s@.len(),
    ensures
        r == first_of(s@.subrange(lo as int, hi as int), a, b),
        r <= hi - lo,
{
    let mut i = lo;
    while i < hi && s[i] != a && s[i] != b
        invariant
            lo <= i <= hi <= s@.len(),
            forall|j: int| lo <= j < i ==> s@[j] != a && s@[j] != b,
        decreases hi - i,
    {
        i = i + 1;
    }
    proof {
        lemma_first_of(s@.subrange(lo as int, hi as int), a, b, i - lo);
    }
    i - lo
}

fn mantissa_between(s: &[char], lo: usize, hi: usize) -> (r: bool)
    requires
        lo <= hi <= s@.len(),
    ensures
        r == is_mantissa(s@.subrange(lo as int, hi as int)),
{
    let ghost m = s@.subrange(lo as int, hi as int);
    let d = find_first(s, lo, hi, '.', '.');
    if d == hi - lo {
        hi > lo && digits_between(s, lo, hi)
    } else {
        assert(m.take(d as int) =~= s@.subrange(lo as int, lo + d));
        assert(m.skip(d + 1) =~= s@.subrange(lo + d + 1, hi as int));
        digits_between(s, lo, lo + d) && digits_between(s, lo + d + 1, hi) && (d > 0 || lo + d
            + 1 < hi)
    }
}

fn exponent_between(s: &[char], lo: usize, hi: usize) -> (r: bool)
    requires
        lo < hi <= s@.len(),
    ensures
        r == is_exponent(s@.subrange(lo as int, hi as int)),
{
    let ghost r = s@.subrange(lo as int, hi as int);
    let ghost t = r.drop_first();
    assert(t =~= s@.subrange(lo + 1, hi as int));
    if !(s[lo] == 'e' || s[lo] == 'E') {
        return false;
    }
    let mut start = lo + 1;
    if start < hi && (s[start] == '+' || s[start] == '-') {
        assert(t.drop_first() =~= s@.subrange(lo + 2, hi as int));
        start = start + 1;
    }
    start < hi && digits_between(s, start, hi)
}

fn number_between(s: &[char], lo: usize, hi: usize) -> (r: bool)
    requires
        lo <= hi <= s@.len(),
    ensures
        r == is_number(s@.subrange(lo as int, hi as int)),
{
    let ghost u = s@.subrange(lo as int, hi as int);
    let k = find_first(s, lo, hi, 'e', 'E');
    assert(u.take(k as int) =~= s@.subrange(lo as int, lo + k));
    assert(u.skip(k as int) =~= s@.subrange(lo + k, hi as int));
    mantissa_between(s, lo, lo + k) && (k == hi - lo || exponent_between(s, lo + k, hi))
}

fn same_letter_char(c: char, w: char) -> (r: bool)
    ensures
        r == same_letter(c, w),
{
    c == w || ('A' <= c && c <= 'Z' && (c as u32) + 32 == (w as u32))
}

fn word_between(s: &[char], lo: usize, hi: usize, word: &str) -> (r: bool)
    requires
        lo <= hi <= s@.len(),
    ensures
        r == matches_word(s@.subrange(lo as int, hi as int), word@),
{
    let w = crate::text::to_chars(word);
    if hi - lo != w.len() {
        return false;
    }
    let mut i: usize = 0;
    while i < w.len()
        invariant
            w@ == word@,
            hi - lo == w@.len(),
            lo <= hi <= s@.len(),
            i <= w@.len(),
            forall|j: int| 0 <= j < i ==> same_letter(s@[lo + j], w@[j]),
        decreases w@.len() - i,
    {
        if !same_letter_char(s[lo + i], w[i]) {
            return false;
        }
        i = i + 1;
    }
    true
}

/// Whether `f32::from_str` accepts `s`.
pub fn is_float_literal_chars(s: &[char]) -> (r: bool)
    ensures
        r == is_float_literal(s@),
{
    let start: usize = if s.len() > 0 && (s[0] == '+' || s[0] == '-') { 1 } else { 0 };
    let n = s.len();
    let ghost u = if s@.len() > 0 && (s@[0] == '+' || s@[0] == '-') { s@.drop_first() } else { s@ };
    assert(u =~= s@.subrange(start as int, n as int));
    proof {
        reveal_strlit("inf");
        reveal_strlit("infinity");
        reveal_strlit("nan");
    }
    assert("inf"@ =~= seq!['i', 'n', 'f']);
    assert("infinity"@ =~= seq!['i', 'n', 'f', 'i', 'n', 'i', 't', 'y']);
    assert("nan"@ =~= seq!['n', 'a', 'n']);
    word_between(s, start, n, "inf") || word_between(s, start, n, "infinity") || word_between(
        s,
        start,
        n,
        "nan",
    ) || number_between(s, start, n)
}

/// The decimal digit of `d < 10`.
pub open spec fn digit_char(d: nat) -> char {
    ((d + ('0' as nat)) as u32) as char
}

/// The decimal text of `n`, as `Display` writes it.
pub open spec fn decimal(n: nat) -> Seq<char>
    decreases n,
{
    if n < 10 {
        seq![digit_char(n)]
    } else {
        decimal(n / 10).push(digit_char(n % 10))
    }
}

fn digit_of(d: usize) -> (c: char)
    requires
        d < 10,
    ensures
        c == digit_char(d as nat),
{
    if d == 0 {
        '0'
    } else if d == 1 {
        '1'
    } else if d == 2 {
        '2'
    } else if d == 3 {
        '3'
    } else if d == 4 {
        '4'
    } else if d == 5 {
        '5'
    } else if d == 6 {
        '6'
    } else if d == 7 {
        '7'
    } else if d == 8 {
        '8'
    } else {
        '9'
    }
}

/// The decimal text of `n`.
pub fn decimal_chars(n: usize) -> (r: Vec<char>)
    ensures
        r@ == decimal(n as nat),
    decreases n,
{
    if n < 10 {
        let mut v = Vec::new();
        v.push(digit_of(n));
        v
    } else {
        let mut v = decimal_chars(n / 10);
        v.push(digit_of(n % 10));
        v
    }
}

} // verus!
