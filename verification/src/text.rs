//! Text primitives: numerals, padding, trimming, splitting, searching and ordering.
//!
//! A text is modelled by its sequence of Unicode scalar values.

use vstd::prelude::*;

verus! {

/// `String::push` appends one character to the end of the text.
pub assume_specification[ String::push ](s: &mut String, c: char)
    ensures
        final(s)@ == old(s)@.push(c),
;

// ---------------------------------------------------------------------------
// Characters and strings
// ---------------------------------------------------------------------------

/// The characters of `s`, in order.
pub fn chars_of(s: &str) -> (r: Vec<char>)
    ensures
        r@ == s@,
{
    let mut r: Vec<char> = Vec::new();
    for c in it: s.chars()
        invariant
            r@ == s@.take(it.index() as int),
            it.seq() == s@,
    {
        r.push(c);
    }
    r
}

/// The text made of the characters `from..to` of `chars`.
pub fn text_of(chars: &Vec<char>, from: usize, to: usize) -> (r: String)
    requires
        from <= to <= chars@.len(),
    ensures
        r@ == chars@.subrange(from as int, to as int),
{
    let mut r: String = String::new();
    let mut i: usize = from;
    while i < to
        invariant
            from <= i <= to <= chars@.len(),
            r@ == chars@.subrange(from as int, i as int),
        decreases to - i,
    {
        r.push(chars[i]);
        i = i + 1;
        assert(chars@.subrange(from as int, i as int) =~= chars@.subrange(
            from as int,
            i - 1,
        ).push(chars@[i - 1]));
    }
    r
}

/// Whether two texts have the same characters.
pub fn same_text(a: &str, b: &str) -> (r: bool)
    ensures
        r == (a@ == b@),
{
    let x: Vec<char> = chars_of(a);
    let y: Vec<char> = chars_of(b);
    if x.len() != y.len() {
        return false;
    }
    let mut i: usize = 0;
    while i < x.len()
        invariant
            i <= x@.len(),
            x@.len() == y@.len(),
            x@ == a@,
            y@ == b@,
            forall|j: int| 0 <= j < i ==> x@[j] == y@[j],
        decreases x@.len() - i,
    {
        if x[i] != y[i] {
            assert(a@[i as int] != b@[i as int]);
            return false;
        }
        i = i + 1;
    }
    assert(a@ =~= b@);
    true
}

/// `n` copies of `c`.
pub open spec fn repeated(c: char, n: nat) -> Seq<char> {
    Seq::new(n, |i: int| c)
}

/// Appends `n` copies of `c` to `out`.
pub fn push_repeated(out: &mut String, c: char, n: usize)
    ensures
        final(out)@ == old(out)@ + repeated(c, n as nat),
{
    let mut i: usize = 0;
    assert(out@ =~= old(out)@ + repeated(c, 0));
    while i < n
        invariant
            i <= n,
            out@ == old(out)@ + repeated(c, i as nat),
        decreases n - i,
    {
        out.push(c);
        i = i + 1;
        assert(out@ =~= old(out)@ + repeated(c, i as nat));
    }
}

// ---------------------------------------------------------------------------
// Numerals
// ---------------------------------------------------------------------------

/// The decimal digit character for `d`.
pub open spec fn digit(d: nat) -> char {
    (48 + d) as char
}

/// Decimal numeral of `n`, without leading zeros.
pub open spec fn decimal(n: nat) -> Seq<char>
    decreases n,
{
    if n < 10 {
        seq![digit(n)]
    } else {
        decimal(n / 10).push(digit(n % 10))
    }
}

/// A decimal numeral tells which number it denotes: different numbers have different numerals.
pub proof fn decimal_determines_number(m: nat, n: nat)
    requires
        decimal(m) == decimal(n),
    ensures
        m == n,
    decreases m,
{
    lemma_decimal_length(m);
    lemma_decimal_length(n);
    assert(decimal(m).last() == digit(m % 10));
    assert(decimal(n).last() == digit(n % 10));
    assert(digit(m % 10) as int == 48 + m % 10);
    assert(digit(n % 10) as int == 48 + n % 10);
    if m >= 10 && n >= 10 {
        assert(decimal(m).drop_last() =~= decimal(m / 10));
        assert(decimal(n).drop_last() =~= decimal(n / 10));
        decimal_determines_number(m / 10, n / 10);
    }
}

/// A numeral has one digit exactly for numbers below ten.
proof fn lemma_decimal_length(n: nat)
    ensures
        decimal(n).len() >= 1,
        decimal(n).len() == 1 <==> n < 10,
    decreases n,
{
    if n >= 10 {
        lemma_decimal_length(n / 10);
    }
}

/// Writes `n` in decimal.
pub fn decimal_text(n: u128) -> (r: String)
    ensures
        r@ == decimal(n as nat),
    decreases n,
{
    let mut r: String = if n < 10 {
        String::new()
    } else {
        decimal_text(n / 10)
    };
    let d: u8 = (n % 10) as u8;
    r.push((48u8 + d) as char);
    r
}

/// Decimal numeral of `units` tenths, with one digit after the point.
pub open spec fn tenths(units: nat) -> Seq<char> {
    decimal(units / 10).push('.').push(digit(units % 10))
}

/// Writes `units` tenths with one digit after the point.
pub fn tenths_text(units: u128) -> (r: String)
    ensures
        r@ == tenths(units as nat),
{
    let mut r: String = decimal_text(units / 10);
    r.push('.');
    let d: u8 = (units % 10) as u8;
    r.push((48u8 + d) as char);
    r
}

/// Decimal numeral of `units` hundredths, with two digits after the point.
pub open spec fn hundredths(units: nat) -> Seq<char> {
    decimal(units / 100).push('.').push(digit(units / 10 % 10)).push(digit(units % 10))
}

/// Writes `units` hundredths with two digits after the point.
pub fn hundredths_text(units: u128) -> (r: String)
    ensures
        r@ == hundredths(units as nat),
{
    let mut r: String = decimal_text(units / 100);
    r.push('.');
    let high: u8 = (units / 10 % 10) as u8;
    let low: u8 = (units % 10) as u8;
    r.push((48u8 + high) as char);
    r.push((48u8 + low) as char);
    r
}

/// The upper-case hexadecimal digit character for `d`.
pub open spec fn hex_digit(d: nat) -> char {
    if d < 10 {
        (48 + d) as char
    } else {
        (55 + d) as char
    }
}

/// The last `width` upper-case hexadecimal digits of `n`.
pub open spec fn hex(n: nat, width: nat) -> Seq<char>
    decreases width,
{
    if width == 0 {
        Seq::empty()
    } else {
        hex(n / 16, (width - 1) as nat).push(hex_digit(n % 16))
    }
}

/// Writes the last `width` upper-case hexadecimal digits of `n`.
pub fn hex_text(n: u32, width: u8) -> (r: String)
    ensures
        r@ == hex(n as nat, width as nat),
    decreases width,
{
    if width == 0 {
        String::new()
    } else {
        let mut r: String = hex_text(n / 16, width - 1);
        let d: u8 = (n % 16) as u8;
        if d < 10 {
            r.push((48u8 + d) as char);
        } else {
            r.push((55u8 + d) as char);
        }
        r
    }
}

/// Whether `c` is an ASCII decimal digit.
pub open spec fn is_digit(c: char) -> bool {
    '0' <= c <= '9'
}

/// The number that a sequence of decimal digits denotes.
pub open spec fn digits_value(s: Seq<char>) -> nat
    decreases s.len(),
{
    if s.len() == 0 {
        0
    } else {
        (digits_value(s.drop_last()) * 10 + (s.last() as int - 48)) as nat
    }
}

/// `s` without one leading plus sign.
pub open spec fn without_plus(s: Seq<char>) -> Seq<char> {
    if s.len() > 0 && s[0] == '+' {
        s.skip(1)
    } else {
        s
    }
}

/// The unsigned number that `s` spells: an optional plus sign and at least one digit,
/// with a value of at most `max`.
pub open spec fn parsed_number(s: Seq<char>, max: nat) -> Option<nat> {
    let t = without_plus(s);
    if t.len() > 0 && (forall|i: int| 0 <= i < t.len() ==> is_digit(#[trigger] t[i])) && digits_value(t)
        <= max {
        Some(digits_value(t))
    } else {
        None
    }
}

/// The value of a digit string never exceeds that of a longer one.
proof fn lemma_digits_value_monotone(s: Seq<char>, k: int)
    requires
        0 <= k <= s.len(),
        forall|i: int| 0 <= i < s.len() ==> is_digit(#[trigger] s[i]),
    ensures
        digits_value(s.take(k)) <= digits_value(s),
    decreases s.len() - k,
{
    if k < s.len() {
        lemma_digits_value_monotone(s, k + 1);
        assert(s.take(k + 1).drop_last() =~= s.take(k));
        assert(s.take(k + 1).last() == s[k]);
        assert(is_digit(s[k]));
    } else {
        assert(s.take(k) =~= s);
    }
}

/// Reads an unsigned number of at most `max`.
pub fn parse_number(s: &str, max: u64) -> (r: Option<u64>)
    ensures
        match r {
            Some(n) => parsed_number(s@, max as nat) == Some(n as nat),
            None => parsed_number(s@, max as nat) is None,
        },
{
    let chars: Vec<char> = chars_of(s);
    let start: usize = if chars.len() > 0 && chars[0] == '+' {
        1
    } else {
        0
    };
    let ghost t = without_plus(s@);
    assert(t =~= chars@.skip(start as int));
    if start == chars.len() {
        return None;
    }
    let mut value: u64 = 0;
    let mut i: usize = start;
    assert(t.take(0) =~= Seq::<char>::empty());
    while i < chars.len()
        invariant
            start <= i <= chars@.len(),
            t == chars@.skip(start as int),
            t == without_plus(s@),
            forall|j: int| 0 <= j < i - start ==> is_digit(#[trigger] t[j]),
            value == digits_value(t.take(i - start)),
            value <= max,
        decreases chars@.len() - i,
    {
        let c: char = chars[i];
        assert(t[i - start] == c);
        if c < '0' || c > '9' {
            assert(!is_digit(t[i - start]));
            return None;
        }
        let d: u64 = (c as u32 - 48) as u64;
        proof {
            assert(t.take(i - start + 1).drop_last() =~= t.take(i - start));
            assert(t.take(i - start + 1).last() == c);
        }
        let wide: u128 = value as u128 * 10 + d as u128;
        if wide > max as u128 {
            proof {
                if forall|j: int| 0 <= j < t.len() ==> is_digit(#[trigger] t[j]) {
                    lemma_digits_value_monotone(t, i - start + 1);
                }
            }
            return None;
        }
        value = wide as u64;
        i = i + 1;
    }
    assert(t.take(t.len() as int) =~= t);
    Some(value)
}

// ---------------------------------------------------------------------------
// Letter case
// ---------------------------------------------------------------------------

/// `c` with an ASCII upper-case letter turned into lower case.
pub open spec fn ascii_lower(c: char) -> char {
    if 'A' <= c <= 'Z' {
        (c as u32 + 32) as char
    } else {
        c
    }
}

/// `s` with its ASCII upper-case letters turned into lower case.
pub open spec fn lowered(s: Seq<char>) -> Seq<char> {
    s.map_values(|c: char| ascii_lower(c))
}

/// Turns an ASCII upper-case letter into lower case.
pub fn lower_char(c: char) -> (r: char)
    ensures
        r == ascii_lower(c),
{
    if 'A' <= c && c <= 'Z' {
        ((c as u8) + 32) as char
    } else {
        c
    }
}

/// Turns the ASCII upper-case letters of `s` into lower case.
pub fn lower_text(s: &str) -> (r: String)
    ensures
        r@ == lowered(s@),
{
    let chars: Vec<char> = chars_of(s);
    let mut r: String = String::new();
    let mut i: usize = 0;
    while i < chars.len()
        invariant
            i <= chars@.len(),
            chars@ == s@,
            r@ =~= lowered(s@).take(i as int),
        decreases chars@.len() - i,
    {
        r.push(lower_char(chars[i]));
        i = i + 1;
    }
    assert(lowered(s@).take(i as int) =~= lowered(s@));
    r
}

/// Whether two texts are equal when ASCII letter case is ignored.
pub open spec fn same_ignoring_case(a: Seq<char>, b: Seq<char>) -> bool {
    lowered(a) == lowered(b)
}

/// Compares two texts, ignoring ASCII letter case.
pub fn same_text_ignoring_case(a: &str, b: &str) -> (r: bool)
    ensures
        r == same_ignoring_case(a@, b@),
{
    let x: String = lower_text(a);
    let y: String = lower_text(b);
    same_text(x.as_str(), y.as_str())
}

// ---------------------------------------------------------------------------
// Trimming and padding
// ---------------------------------------------------------------------------

/// Whether `c` has the Unicode `White_Space` property.
pub open spec fn is_white_space(c: char) -> bool {
    ||| 0x9 <= c as u32 <= 0xd
    ||| c as u32 == 0x20
    ||| c as u32 == 0x85
    ||| c as u32 == 0xa0
    ||| c as u32 == 0x1680
    ||| 0x2000 <= c as u32 <= 0x200a
    ||| 0x2028 <= c as u32 <= 0x2029
    ||| c as u32 == 0x202f
    ||| c as u32 == 0x205f
    ||| c as u32 == 0x3000
}

/// Tells whether `c` has the Unicode `White_Space` property.
pub fn white_space(c: char) -> (r: bool)
    ensures
        r == is_white_space(c),
{
    let n: u32 = c as u32;
    (0x9 <= n && n <= 0xd) || n == 0x20 || n == 0x85 || n == 0xa0 || n == 0x1680 || (0x2000 <= n
        && n <= 0x200a) || (0x2028 <= n && n <= 0x2029) || n == 0x202f || n == 0x205f || n == 0x3000
}

/// `s` without the leading characters that satisfy `p`.
pub open spec fn stripped_front(s: Seq<char>, p: spec_fn(char) -> bool) -> Seq<char>
    decreases s.len(),
{
    if s.len() > 0 && p(s[0]) {
        stripped_front(s.skip(1), p)
    } else {
        s
    }
}

/// `s` without the trailing characters that satisfy `p`.
pub open spec fn stripped_back(s: Seq<char>, p: spec_fn(char) -> bool) -> Seq<char>
    decreases s.len(),
{
    if s.len() > 0 && p(s.last()) {
        stripped_back(s.drop_last(), p)
    } else {
        s
    }
}

/// `s` without leading and trailing white space.
pub open spec fn trimmed(s: Seq<char>) -> Seq<char> {
    stripped_back(stripped_front(s, |c: char| is_white_space(c)), |c: char| is_white_space(c))
}

/// The test for being the character `quote`.
pub open spec fn is_char(quote: char) -> spec_fn(char) -> bool {
    |c: char| c == quote
}

/// `s` without leading and trailing `quote` characters.
pub open spec fn unquoted(s: Seq<char>, quote: char) -> Seq<char> {
    stripped_back(stripped_front(s, is_char(quote)), is_char(quote))
}

/// Skipping characters that satisfy `p` does not change what is stripped at the front.
proof fn lemma_stripped_front(s: Seq<char>, p: spec_fn(char) -> bool, k: int)
    requires
        0 <= k <= s.len(),
        forall|i: int| 0 <= i < k ==> p(#[trigger] s[i]),
        k < s.len() ==> !p(s[k]),
    ensures
        stripped_front(s, p) == s.skip(k),
    decreases k,
{
    if k > 0 {
        assert(p(s[0]));
        assert forall|i: int| 0 <= i < k - 1 implies p(#[trigger] s.skip(1)[i]) by {
            assert(s.skip(1)[i] == s[i + 1]);
        }
        lemma_stripped_front(s.skip(1), p, k - 1);
        assert(s.skip(1).skip(k - 1) =~= s.skip(k));
    } else {
        assert(s.skip(0) =~= s);
    }
}

/// Dropping characters that satisfy `p` does not change what is stripped at the back.
proof fn lemma_stripped_back(s: Seq<char>, p: spec_fn(char) -> bool, k: int)
    requires
        0 <= k <= s.len(),
        forall|i: int| k <= i < s.len() ==> p(#[trigger] s[i]),
        k > 0 ==> !p(s[k - 1]),
    ensures
        stripped_back(s, p) == s.take(k),
    decreases s.len() - k,
{
    if k < s.len() {
        assert(p(s[s.len() - 1]));
        lemma_stripped_back(s.drop_last(), p, k);
        assert(s.drop_last().take(k) =~= s.take(k));
    } else {
        assert(s.take(k) =~= s);
    }
}

/// Removes leading and trailing white space.
pub fn trim_text(s: &str) -> (r: String)
    ensures
        r@ == trimmed(s@),
{
    let chars: Vec<char> = chars_of(s);
    let ghost p = |c: char| is_white_space(c);
    let mut lo: usize = 0;
    while lo < chars.len() && white_space(chars[lo])
        invariant
            lo <= chars@.len(),
            p == |c: char| is_white_space(c),
            forall|i: int| 0 <= i < lo ==> p(#[trigger] chars@[i]),
        decreases chars@.len() - lo,
    {
        lo = lo + 1;
    }
    let mut hi: usize = chars.len();
    while hi > lo && white_space(chars[hi - 1])
        invariant
            lo <= hi <= chars@.len(),
            p == |c: char| is_white_space(c),
            forall|i: int| hi <= i < chars@.len() ==> p(#[trigger] chars@[i]),
        decreases hi,
    {
        hi = hi - 1;
    }
    proof {
        lemma_stripped_front(s@, p, lo as int);
        let front = s@.skip(lo as int);
        assert forall|i: int| hi - lo <= i < front.len() implies p(#[trigger] front[i]) by {
            assert(front[i] == chars@[i + lo]);
        }
        lemma_stripped_back(front, p, hi - lo);
        assert(front.take(hi - lo) =~= chars@.subrange(lo as int, hi as int));
    }
    text_of(&chars, lo, hi)
}

/// Removes leading and trailing `quote` characters.
pub fn unquote_text(s: &str, quote: char) -> (r: String)
    ensures
        r@ == unquoted(s@, quote),
{
    let chars: Vec<char> = chars_of(s);
    let ghost p = is_char(quote);
    let mut lo: usize = 0;
    while lo < chars.len() && chars[lo] == quote
        invariant
            lo <= chars@.len(),
            p == is_char(quote),
            forall|i: int| 0 <= i < lo ==> p(#[trigger] chars@[i]),
        decreases chars@.len() - lo,
    {
        lo = lo + 1;
    }
    let mut hi: usize = chars.len();
    while hi > lo && chars[hi - 1] == quote
        invariant
            lo <= hi <= chars@.len(),
            p == is_char(quote),
            forall|i: int| hi <= i < chars@.len() ==> p(#[trigger] chars@[i]),
        decreases hi,
    {
        hi = hi - 1;
    }
    proof {
        lemma_stripped_front(s@, p, lo as int);
        let front = s@.skip(lo as int);
        assert forall|i: int| hi - lo <= i < front.len() implies p(#[trigger] front[i]) by {
            assert(front[i] == chars@[i + lo]);
        }
        lemma_stripped_back(front, p, hi - lo);
        assert(front.take(hi - lo) =~= chars@.subrange(lo as int, hi as int));
    }
    text_of(&chars, lo, hi)
}

/// The number of spaces that bring `s` to `width` characters.
pub open spec fn padding(s: Seq<char>, width: nat) -> Seq<char> {
    repeated(' ', if s.len() < width { (width - s.len()) as nat } else { 0 })
}

/// `s` followed by spaces up to `width` characters.
pub open spec fn left_aligned(s: Seq<char>, width: nat) -> Seq<char> {
    s + padding(s, width)
}

/// `s` preceded by spaces up to `width` characters.
pub open spec fn right_aligned(s: Seq<char>, width: nat) -> Seq<char> {
    padding(s, width) + s
}

/// Appends `s`, left-aligned in `width` characters.
pub fn push_left_aligned(out: &mut String, s: &str, width: usize)
    ensures
        final(out)@ == old(out)@ + left_aligned(s@, width as nat),
{
    let chars: Vec<char> = chars_of(s);
    out.append(s);
    let n: usize = if chars.len() < width {
        width - chars.len()
    } else {
        0
    };
    push_repeated(out, ' ', n);
    assert(out@ =~= old(out)@ + left_aligned(s@, width as nat));
}

/// Appends `s`, right-aligned in `width` characters.
pub fn push_right_aligned(out: &mut String, s: &str, width: usize)
    ensures
        final(out)@ == old(out)@ + right_aligned(s@, width as nat),
{
    let chars: Vec<char> = chars_of(s);
    let n: usize = if chars.len() < width {
        width - chars.len()
    } else {
        0
    };
    push_repeated(out, ' ', n);
    out.append(s);
    assert(out@ =~= old(out)@ + right_aligned(s@, width as nat));
}

// ---------------------------------------------------------------------------
// Searching and replacing
// ---------------------------------------------------------------------------

/// Whether `needle` stands in `s` at position `at`.
pub open spec fn occurs_at(s: Seq<char>, needle: Seq<char>, at: int) -> bool {
    0 <= at && at + needle.len() <= s.len() && s.subrange(at, at + needle.len()) == needle
}

/// Whether `needle` stands somewhere in `s`.
pub open spec fn contains(s: Seq<char>, needle: Seq<char>) -> bool {
    exists|at: int| occurs_at(s, needle, at)
}

/// Appending to a text removes nothing from it, and adds what is appended.
pub proof fn appending_keeps_contents(s: Seq<char>, t: Seq<char>)
    ensures
        contains(s + t, t),
        forall|needle: Seq<char>| #[trigger] contains(s, needle) ==> contains(s + t, needle),
        forall|needle: Seq<char>| #[trigger] contains(t, needle) ==> contains(s + t, needle),
{
    let whole = s + t;
    assert(whole.subrange(s.len() as int, whole.len() as int) =~= t);
    assert(occurs_at(whole, t, s.len() as int));
    assert forall|needle: Seq<char>| #[trigger] contains(s, needle) implies contains(
        whole,
        needle,
    ) by {
        let at = choose|at: int| occurs_at(s, needle, at);
        assert(whole.subrange(at, at + needle.len()) =~= s.subrange(at, at + needle.len()));
        assert(occurs_at(whole, needle, at));
    }
    assert forall|needle: Seq<char>| #[trigger] contains(t, needle) implies contains(
        whole,
        needle,
    ) by {
        let at = choose|at: int| occurs_at(t, needle, at);
        let from = s.len() + at;
        assert(whole.subrange(from, from + needle.len()) =~= t.subrange(at, at + needle.len()));
        assert(occurs_at(whole, needle, from));
    }
}

/// Tells whether `needle` stands in `s` at position `at`.
fn matches_at(s: &Vec<char>, needle: &Vec<char>, at: usize) -> (r: bool)
    requires
        at <= s@.len(),
    ensures
        r == occurs_at(s@, needle@, at as int),
{
    if needle.len() > s.len() - at {
        return false;
    }
    let n: usize = s.len();
    let mut i: usize = 0;
    while i < needle.len()
        invariant
            i <= needle@.len(),
            n == s@.len(),
            at + needle@.len() <= n,
            forall|j: int| 0 <= j < i ==> s@[at + j] == needle@[j],
        decreases needle@.len() - i,
    {
        if s[at + i] != needle[i] {
            assert(s@.subrange(at as int, at + needle@.len())[i as int] != needle@[i as int]);
            return false;
        }
        i = i + 1;
    }
    assert(s@.subrange(at as int, at + needle@.len()) =~= needle@);
    true
}

/// Tells whether `s` begins with `prefix`.
pub fn starts_with(s: &str, prefix: &str) -> (r: bool)
    ensures
        r == occurs_at(s@, prefix@, 0),
{
    let chars: Vec<char> = chars_of(s);
    let head: Vec<char> = chars_of(prefix);
    matches_at(&chars, &head, 0)
}

/// Tells whether `needle` stands somewhere in `s`.
pub fn contains_text(s: &str, needle: &str) -> (r: bool)
    ensures
        r == contains(s@, needle@),
{
    let chars: Vec<char> = chars_of(s);
    let piece: Vec<char> = chars_of(needle);
    let mut i: usize = 0;
    while i < chars.len()
        invariant
            i <= chars@.len(),
            chars@ == s@,
            piece@ == needle@,
            forall|j: int| 0 <= j < i ==> !occurs_at(s@, needle@, j),
        decreases chars@.len() - i,
    {
        if matches_at(&chars, &piece, i) {
            return true;
        }
        i = i + 1;
    }
    matches_at(&chars, &piece, i)
}

/// `s` with each occurrence of `from`, found from left to right without overlap,
/// replaced by `to`.
pub open spec fn replaced(s: Seq<char>, from: Seq<char>, to: Seq<char>) -> Seq<char>
    decreases s.len(),
{
    if s.len() == 0 || from.len() == 0 {
        s
    } else if occurs_at(s, from, 0) {
        to + replaced(s.skip(from.len() as int), from, to)
    } else {
        seq![s[0]] + replaced(s.skip(1), from, to)
    }
}

/// Replaces each occurrence of the non-empty text `from` by `to`.
pub fn replace_text(s: &str, from: &str, to: &str) -> (r: String)
    requires
        from@.len() > 0,
    ensures
        r@ == replaced(s@, from@, to@),
{
    let chars: Vec<char> = chars_of(s);
    let piece: Vec<char> = chars_of(from);
    let mut r: String = String::new();
    let mut i: usize = 0;
    assert(s@.skip(0) =~= s@);
    assert(r@ + replaced(s@.skip(0), from@, to@) =~= replaced(s@, from@, to@));
    while i < chars.len()
        invariant
            i <= chars@.len(),
            chars@ == s@,
            piece@ == from@,
            from@.len() > 0,
            r@ + replaced(s@.skip(i as int), from@, to@) == replaced(s@, from@, to@),
        decreases chars@.len() - i,
    {
        let ghost rest = s@.skip(i as int);
        let ghost before = r@;
        if matches_at(&chars, &piece, i) {
            assert(rest.subrange(0, from@.len() as int) =~= s@.subrange(
                i as int,
                i + from@.len(),
            ));
            assert(rest.skip(from@.len() as int) =~= s@.skip(i + from@.len()));
            r.append(to);
            i = i + piece.len();
            assert(r@ + replaced(s@.skip(i as int), from@, to@) =~= before + replaced(
                rest,
                from@,
                to@,
            ));
        } else {
            assert(!occurs_at(rest, from@, 0)) by {
                if occurs_at(rest, from@, 0) {
                    assert(rest.subrange(0, from@.len() as int) =~= s@.subrange(
                        i as int,
                        i + from@.len(),
                    ));
                }
            }
            assert(rest.skip(1) =~= s@.skip(i + 1));
            r.push(chars[i]);
            i = i + 1;
            assert(r@ + replaced(s@.skip(i as int), from@, to@) =~= before + replaced(
                rest,
                from@,
                to@,
            ));
        }
    }
    assert(s@.skip(i as int) =~= Seq::<char>::empty());
    assert(r@ =~= r@ + replaced(s@.skip(i as int), from@, to@));
    r
}

/// Where nothing is found, nothing is replaced.
pub proof fn replacing_nothing(s: Seq<char>, from: Seq<char>, to: Seq<char>)
    requires
        !contains(s, from),
    ensures
        replaced(s, from, to) == s,
    decreases s.len(),
{
    if s.len() > 0 && from.len() > 0 {
        assert(!occurs_at(s, from, 0));
        assert(!contains(s.skip(1), from)) by {
            if contains(s.skip(1), from) {
                let at = choose|at: int| occurs_at(s.skip(1), from, at);
                assert(s.skip(1).subrange(at, at + from.len()) =~= s.subrange(
                    at + 1,
                    at + 1 + from.len(),
                ));
                assert(occurs_at(s, from, at + 1));
            }
        }
        replacing_nothing(s.skip(1), from, to);
        assert(s =~= seq![s[0]] + s.skip(1));
    }
}

// ---------------------------------------------------------------------------
// Splitting and joining
// ---------------------------------------------------------------------------

/// The position of the first `c` in `s`, or the length of `s` when there is none.
pub open spec fn first_index(s: Seq<char>, c: char) -> nat
    decreases s.len(),
{
    if s.len() == 0 || s[0] == c {
        0
    } else {
        1 + first_index(s.skip(1), c)
    }
}

/// The pieces of `s` between the separators `c`.
pub open spec fn pieces(s: Seq<char>, c: char) -> Seq<Seq<char>>
    decreases s.len(),
{
    let i = first_index(s, c) as int;
    if i < s.len() {
        seq![s.take(i)] + pieces(s.skip(i + 1), c)
    } else {
        seq![s]
    }
}

/// The text of an optional text.
pub open spec fn optional(value: Option<String>) -> Option<Seq<char>> {
    match value {
        Some(t) => Some(t@),
        None => None,
    }
}

/// The views of a vector of texts.
pub open spec fn views(v: Seq<String>) -> Seq<Seq<char>> {
    v.map_values(|t: String| t@)
}

/// The first `c` stands where a scan that skips other characters stops.
pub proof fn lemma_first_index(s: Seq<char>, c: char, k: int)
    requires
        0 <= k <= s.len(),
        forall|i: int| 0 <= i < k ==> #[trigger] s[i] != c,
        k < s.len() ==> s[k] == c,
    ensures
        first_index(s, c) == k,
    decreases k,
{
    if k > 0 {
        assert(s[0] != c);
        assert forall|i: int| 0 <= i < k - 1 implies #[trigger] s.skip(1)[i] != c by {
            assert(s.skip(1)[i] == s[i + 1]);
        }
        lemma_first_index(s.skip(1), c, k - 1);
    }
}

/// Splits `s` at each `c`.
pub fn split_text(s: &str, c: char) -> (r: Vec<String>)
    ensures
        views(r@) == pieces(s@, c),
        r@.len() >= 1,
{
    let chars: Vec<char> = chars_of(s);
    let mut r: Vec<String> = Vec::new();
    let mut start: usize = 0;
    let mut i: usize = 0;
    assert(s@.skip(0) =~= s@);
    assert(views(r@) + pieces(s@.skip(0), c) =~= pieces(s@, c));
    while i < chars.len()
        invariant
            start <= i <= chars@.len(),
            chars@ == s@,
            forall|j: int| start <= j < i ==> #[trigger] s@[j] != c,
            views(r@) + pieces(s@.skip(start as int), c) == pieces(s@, c),
        decreases chars@.len() - i,
    {
        if chars[i] == c {
            let ghost rest = s@.skip(start as int);
            let ghost before = r@;
            proof {
                assert forall|j: int| 0 <= j < i - start implies #[trigger] rest[j] != c by {
                    assert(rest[j] == s@[j + start]);
                }
                lemma_first_index(rest, c, i - start);
                assert(rest.take(i - start) =~= chars@.subrange(start as int, i as int));
                assert(rest.skip(i - start + 1) =~= s@.skip(i + 1));
            }
            let ghost piece = rest.take(i - start);
            r.push(text_of(&chars, start, i));
            start = i + 1;
            proof {
                assert(views(r@) =~= views(before).push(piece));
                assert(views(r@) + pieces(s@.skip(start as int), c) =~= views(before) + pieces(
                    rest,
                    c,
                ));
            }
        }
        i = i + 1;
    }
    proof {
        let rest = s@.skip(start as int);
        assert forall|j: int| 0 <= j < i - start implies #[trigger] rest[j] != c by {
            assert(rest[j] == s@[j + start]);
        }
        lemma_first_index(rest, c, i - start);
        assert(rest =~= chars@.subrange(start as int, i as int));
        assert(views(r@).push(rest) =~= views(r@) + pieces(rest, c));
    }
    let ghost before = r@;
    r.push(text_of(&chars, start, i));
    assert(views(r@) =~= views(before).push(s@.skip(start as int)));
    r
}

/// A line without the carriage return before its line feed.
pub open spec fn without_return(s: Seq<char>) -> Seq<char> {
    if s.len() > 0 && s.last() == '\r' {
        s.drop_last()
    } else {
        s
    }
}

/// The lines of `s`: each ends with a line feed, which may follow a carriage return;
/// the last may lack the line feed.
pub open spec fn lines(s: Seq<char>) -> Seq<Seq<char>> {
    let all = pieces(s, '\n');
    let ended = all.drop_last().map_values(|p: Seq<char>| without_return(p));
    if all.last().len() > 0 {
        ended.push(all.last())
    } else {
        ended
    }
}

/// Splits `s` into lines.
pub fn split_lines(s: &str) -> (r: Vec<String>)
    ensures
        views(r@) == lines(s@),
{
    let all: Vec<String> = split_text(s, '\n');
    let ghost ended = views(all@).drop_last().map_values(|p: Seq<char>| without_return(p));
    let mut r: Vec<String> = Vec::new();
    let mut i: usize = 0;
    assert(views(r@) =~= ended.take(0));
    while i < all.len() - 1
        invariant
            i <= all@.len() - 1,
            ended == views(all@).drop_last().map_values(|p: Seq<char>| without_return(p)),
            views(r@) == ended.take(i as int),
        decreases all@.len() - i,
    {
        let chars: Vec<char> = chars_of(all[i].as_str());
        let n: usize = if chars.len() > 0 && chars[chars.len() - 1] == '\r' {
            chars.len() - 1
        } else {
            chars.len()
        };
        let ghost before = r@;
        assert(chars@.subrange(0, n as int) =~= without_return(chars@));
        r.push(text_of(&chars, 0, n));
        i = i + 1;
        assert(ended[i - 1] == without_return(chars@));
        assert(views(r@) =~= views(before).push(ended[i - 1]));
        assert(views(r@) =~= ended.take(i as int));
    }
    assert(ended.take(i as int) =~= ended);
    let ghost before = r@;
    let chars: Vec<char> = chars_of(all[i].as_str());
    assert(views(all@).last() == chars@);
    if chars.len() > 0 {
        assert(chars@.subrange(0, chars@.len() as int) =~= chars@);
        r.push(text_of(&chars, 0, chars.len()));
        assert(views(r@) =~= views(before).push(chars@));
    }
    r
}

/// `s` cut at the first `c`: what stands before it and after it.
pub open spec fn cut(s: Seq<char>, c: char) -> Option<(Seq<char>, Seq<char>)> {
    let i = first_index(s, c) as int;
    if i < s.len() {
        Some((s.take(i), s.skip(i + 1)))
    } else {
        None
    }
}

/// Cuts `s` at the first `c`.
pub fn cut_text(s: &str, c: char) -> (r: Option<(String, String)>)
    ensures
        match r {
            Some(halves) => cut(s@, c) == Some((halves.0@, halves.1@)),
            None => cut(s@, c) is None,
        },
{
    let chars: Vec<char> = chars_of(s);
    let mut i: usize = 0;
    while i < chars.len() && chars[i] != c
        invariant
            i <= chars@.len(),
            forall|j: int| 0 <= j < i ==> #[trigger] chars@[j] != c,
        decreases chars@.len() - i,
    {
        i = i + 1;
    }
    proof {
        lemma_first_index(s@, c, i as int);
    }
    if i < chars.len() {
        assert(chars@.subrange(0, i as int) =~= s@.take(i as int));
        assert(chars@.subrange(i + 1, chars@.len() as int) =~= s@.skip(i + 1));
        Some((text_of(&chars, 0, i), text_of(&chars, i + 1, chars.len())))
    } else {
        None
    }
}

/// The texts of `parts`, with `separator` between neighbours.
pub open spec fn joined(parts: Seq<Seq<char>>, separator: Seq<char>) -> Seq<char>
    decreases parts.len(),
{
    if parts.len() == 0 {
        Seq::empty()
    } else if parts.len() == 1 {
        parts[0]
    } else {
        joined(parts.drop_last(), separator) + separator + parts.last()
    }
}

/// Joins `parts` with `separator` between neighbours.
pub fn join_texts(parts: &Vec<String>, separator: &str) -> (r: String)
    ensures
        r@ == joined(views(parts@), separator@),
{
    let mut r: String = String::new();
    let mut i: usize = 0;
    assert(views(parts@).take(0) =~= Seq::<Seq<char>>::empty());
    while i < parts.len()
        invariant
            i <= parts@.len(),
            r@ == joined(views(parts@).take(i as int), separator@),
        decreases parts@.len() - i,
    {
        assert(views(parts@).take(i + 1).drop_last() =~= views(parts@).take(i as int));
        assert(views(parts@).take(i + 1).last() == parts@[i as int]@);
        if i > 0 {
            r.append(separator);
        }
        let ghost before = r@;
        r.append(parts[i].as_str());
        assert(i == 0 ==> r@ =~= parts@[0]@);
        i = i + 1;
    }
    assert(views(parts@).take(i as int) =~= views(parts@));
    r
}

// ---------------------------------------------------------------------------
// Ordering
// ---------------------------------------------------------------------------

/// Whether `a` stands before `b` in the lexicographic order of scalar values, which is
/// also the byte order of the encoded texts.
pub open spec fn text_before(a: Seq<char>, b: Seq<char>) -> bool
    decreases a.len(),
{
    if b.len() == 0 {
        false
    } else if a.len() == 0 {
        true
    } else if a[0] != b[0] {
        a[0] < b[0]
    } else {
        text_before(a.skip(1), b.skip(1))
    }
}

/// The order of texts is total: two texts that are not ordered are equal.
pub proof fn lemma_text_order_total(a: Seq<char>, b: Seq<char>)
    ensures
        text_before(a, b) || text_before(b, a) || a == b,
    decreases a.len(),
{
    if a.len() > 0 && b.len() > 0 && a[0] == b[0] {
        lemma_text_order_total(a.skip(1), b.skip(1));
        if a.skip(1) == b.skip(1) {
            assert(a =~= seq![a[0]] + a.skip(1));
            assert(b =~= seq![b[0]] + b.skip(1));
        }
    } else if a.len() == 0 && b.len() == 0 {
        assert(a =~= b);
    }
}

/// The order of texts is strict: at most one of two texts stands before the other.
pub proof fn lemma_text_order_strict(a: Seq<char>, b: Seq<char>)
    requires
        text_before(a, b),
    ensures
        !text_before(b, a),
        a != b,
    decreases a.len(),
{
    if a.len() > 0 && b.len() > 0 && a[0] == b[0] {
        lemma_text_order_strict(a.skip(1), b.skip(1));
    }
}

/// The order of texts is transitive.
pub proof fn lemma_text_order_transitive(a: Seq<char>, b: Seq<char>, c: Seq<char>)
    requires
        text_before(a, b),
        text_before(b, c),
    ensures
        text_before(a, c),
    decreases a.len(),
{
    if a.len() > 0 && b.len() > 0 && c.len() > 0 && a[0] == b[0] && b[0] == c[0] {
        lemma_text_order_transitive(a.skip(1), b.skip(1), c.skip(1));
    }
}

/// Tells whether `a` stands before `b`.
pub fn stands_before(a: &str, b: &str) -> (r: bool)
    ensures
        r == text_before(a@, b@),
{
    let x: Vec<char> = chars_of(a);
    let y: Vec<char> = chars_of(b);
    let mut i: usize = 0;
    assert(a@.skip(0) =~= a@);
    assert(b@.skip(0) =~= b@);
    while i < x.len() && i < y.len() && x[i] == y[i]
        invariant
            i <= x@.len(),
            i <= y@.len(),
            x@ == a@,
            y@ == b@,
            text_before(a@, b@) == text_before(a@.skip(i as int), b@.skip(i as int)),
        decreases x@.len() - i,
    {
        assert(a@.skip(i as int).skip(1) =~= a@.skip(i + 1));
        assert(b@.skip(i as int).skip(1) =~= b@.skip(i + 1));
        i = i + 1;
    }
    if i == y.len() {
        false
    } else if i == x.len() {
        true
    } else {
        x[i] < y[i]
    }
}

// ---------------------------------------------------------------------------
// What texts say
// ---------------------------------------------------------------------------

/// A numeral consists of digits, has no leading zero but in zero itself, and denotes its
/// number.
pub proof fn numerals_denote_their_numbers(n: nat)
    ensures
        digits_value(decimal(n)) == n,
        decimal(n).len() >= 1,
        forall|i: int|
            0 <= i < decimal(n).len() ==> '0' <= #[trigger] decimal(n)[i] && decimal(n)[i] <= '9',
        n > 0 ==> decimal(n)[0] != '0',
    decreases n,
{
    if n >= 10 {
        numerals_denote_their_numbers(n / 10);
        assert(decimal(n).drop_last() =~= decimal(n / 10));
        assert(decimal(n).last() as int == 48 + n % 10);
        assert(decimal(n)[0] == decimal(n / 10)[0]);
    } else {
        assert(decimal(n).drop_last() =~= Seq::<char>::empty());
        assert(digits_value(decimal(n).drop_last()) == 0);
        assert(decimal(n).last() as int == 48 + n);
    }
}

/// What is written as a numeral is read back, with or without a plus sign, unless it is too
/// large.
pub proof fn numerals_are_read_back(n: nat, max: nat)
    ensures
        n <= max ==> parsed_number(decimal(n), max) == Some(n),
        n > max ==> parsed_number(decimal(n), max) is None,
        n <= max ==> parsed_number(seq!['+'] + decimal(n), max) == Some(n),
        parsed_number(Seq::empty(), max) is None,
{
    numerals_denote_their_numbers(n);
    let s = decimal(n);
    assert('0' <= s[0]);
    assert(without_plus(s) == s);
    let t = seq!['+'] + s;
    assert(t.skip(1) =~= s);
    assert(without_plus(t) == s);
}

/// A text with anything but digits in it, a leading plus sign aside, is no number.
pub proof fn only_digits_are_numbers(s: Seq<char>, max: nat, i: int)
    requires
        0 <= i < s.len(),
        i == 0 ==> s[0] != '+',
        !('0' <= s[i] && s[i] <= '9'),
    ensures
        parsed_number(s, max) is None,
{
    let t = without_plus(s);
    if s[0] == '+' {
        assert(t[i - 1] == s[i]);
        assert(!is_digit(t[i - 1]));
    } else {
        assert(!is_digit(t[i]));
    }
}

/// Tenths and hundredths are written as the whole part, a point and the digits behind it.
pub proof fn decimals_follow_the_point(whole: nat, high: nat, low: nat)
    requires
        high < 10,
        low < 10,
    ensures
        tenths(10 * whole + high) == decimal(whole) + seq!['.'] + decimal(high),
        hundredths(100 * whole + 10 * high + low) == decimal(whole) + seq!['.'] + decimal(high)
            + decimal(low),
{
    assert((10 * whole + high) / 10 == whole);
    assert((10 * whole + high) % 10 == high);
    assert(tenths(10 * whole + high) =~= decimal(whole) + seq!['.'] + decimal(high));
    let n = 100 * whole + 10 * high + low;
    assert(n / 100 == whole);
    assert(n / 10 % 10 == high);
    assert(n % 10 == low);
    assert(hundredths(n) =~= decimal(whole) + seq!['.'] + decimal(high) + decimal(low));
}

/// Lower case: only the letters from `A` to `Z` change, each into the letter 32 places on;
/// doing it again changes nothing.
pub proof fn lower_case_touches_capitals_only(s: Seq<char>, i: int)
    requires
        0 <= i < s.len(),
    ensures
        lowered(s).len() == s.len(),
        'A' <= s[i] && s[i] <= 'Z' ==> lowered(s)[i] as int == s[i] as int + 32,
        !('A' <= s[i] && s[i] <= 'Z') ==> lowered(s)[i] == s[i],
        lowered(lowered(s)) == lowered(s),
        same_ignoring_case(s, lowered(s)),
{
    assert forall|k: int| 0 <= k < s.len() implies #[trigger] lowered(lowered(s))[k] == lowered(
        s,
    )[k] by {
        assert(lowered(s)[k] == ascii_lower(s[k]));
    }
    assert(lowered(lowered(s)) =~= lowered(s));
}

/// What is stripped from both ends: only characters of the kind, and all of them.
proof fn lemma_strip(s: Seq<char>, p: spec_fn(char) -> bool) -> (at: (int, int))
    ensures
        0 <= at.0 <= at.1 <= s.len(),
        stripped_back(stripped_front(s, p), p) == s.subrange(at.0, at.1),
        forall|i: int| 0 <= i < at.0 ==> p(#[trigger] s[i]),
        forall|i: int| at.1 <= i < s.len() ==> p(#[trigger] s[i]),
        at.0 < at.1 ==> !p(s[at.0]) && !p(s[at.1 - 1]),
{
    let lo = lemma_strip_front(s, p);
    let front = s.skip(lo);
    let k = lemma_strip_back(front, p);
    assert(front.take(k) =~= s.subrange(lo, lo + k));
    assert forall|i: int| lo + k <= i < s.len() implies p(#[trigger] s[i]) by {
        assert(front[i - lo] == s[i]);
    }
    if k > 0 {
        assert(front[k - 1] == s[lo + k - 1]);
        assert(front[0] == s[lo]);
    }
    (lo, lo + k)
}

/// How many characters are stripped at the front.
proof fn lemma_strip_front(s: Seq<char>, p: spec_fn(char) -> bool) -> (k: int)
    ensures
        0 <= k <= s.len(),
        stripped_front(s, p) == s.skip(k),
        forall|i: int| 0 <= i < k ==> p(#[trigger] s[i]),
        k < s.len() ==> !p(s[k]),
    decreases s.len(),
{
    if s.len() > 0 && p(s[0]) {
        let k = lemma_strip_front(s.skip(1), p);
        assert(s.skip(1).skip(k) =~= s.skip(k + 1));
        assert forall|i: int| 0 <= i < k + 1 implies p(#[trigger] s[i]) by {
            if i > 0 {
                assert(s.skip(1)[i - 1] == s[i]);
            }
        }
        if k + 1 < s.len() {
            assert(s.skip(1)[k] == s[k + 1]);
        }
        k + 1
    } else {
        assert(s.skip(0) =~= s);
        0
    }
}

/// How many characters are left when the back is stripped.
proof fn lemma_strip_back(s: Seq<char>, p: spec_fn(char) -> bool) -> (k: int)
    ensures
        0 <= k <= s.len(),
        stripped_back(s, p) == s.take(k),
        forall|i: int| k <= i < s.len() ==> p(#[trigger] s[i]),
        k > 0 ==> !p(s[k - 1]),
    decreases s.len(),
{
    if s.len() > 0 && p(s.last()) {
        let k = lemma_strip_back(s.drop_last(), p);
        assert(s.drop_last().take(k) =~= s.take(k));
        assert forall|i: int| k <= i < s.len() implies p(#[trigger] s[i]) by {
            if i < s.len() - 1 {
                assert(s.drop_last()[i] == s[i]);
            }
        }
        k
    } else {
        assert(s.take(s.len() as int) =~= s);
        s.len() as int
    }
}

/// Trimming takes white space from both ends, all of it and nothing else.
pub proof fn trimming_takes_white_space_only(s: Seq<char>) -> (at: (int, int))
    ensures
        0 <= at.0 <= at.1 <= s.len(),
        trimmed(s) == s.subrange(at.0, at.1),
        forall|i: int| 0 <= i < at.0 ==> is_white_space(#[trigger] s[i]),
        forall|i: int| at.1 <= i < s.len() ==> is_white_space(#[trigger] s[i]),
        at.0 < at.1 ==> !is_white_space(s[at.0]) && !is_white_space(s[at.1 - 1]),
{
    let p = |c: char| is_white_space(c);
    let at = lemma_strip(s, p);
    assert forall|i: int| 0 <= i < at.0 implies is_white_space(#[trigger] s[i]) by {
        assert(p(s[i]));
    }
    assert forall|i: int| at.1 <= i < s.len() implies is_white_space(#[trigger] s[i]) by {
        assert(p(s[i]));
    }
    if at.0 < at.1 {
        assert(!p(s[at.0]) && !p(s[at.1 - 1]));
    }
    at
}

/// Unquoting takes quotes from both ends, all of them and nothing else.
pub proof fn unquoting_takes_quotes_only(s: Seq<char>, quote: char) -> (at: (int, int))
    ensures
        0 <= at.0 <= at.1 <= s.len(),
        unquoted(s, quote) == s.subrange(at.0, at.1),
        forall|i: int| 0 <= i < at.0 ==> #[trigger] s[i] == quote,
        forall|i: int| at.1 <= i < s.len() ==> #[trigger] s[i] == quote,
        at.0 < at.1 ==> s[at.0] != quote && s[at.1 - 1] != quote,
{
    let p = is_char(quote);
    let at = lemma_strip(s, p);
    assert forall|i: int| 0 <= i < at.0 implies #[trigger] s[i] == quote by {
        assert(p(s[i]));
    }
    assert forall|i: int| at.1 <= i < s.len() implies #[trigger] s[i] == quote by {
        assert(p(s[i]));
    }
    if at.0 < at.1 {
        assert(!p(s[at.0]) && !p(s[at.1 - 1]));
    }
    at
}

/// Alignment fills up with spaces to the width, on the one side or the other, and never cuts.
pub proof fn alignment_fills_with_spaces(s: Seq<char>, width: nat)
    ensures
        s.len() >= width ==> left_aligned(s, width) == s && right_aligned(s, width) == s,
        s.len() <= width ==> left_aligned(s, width).len() == width && right_aligned(
            s,
            width,
        ).len() == width,
        s.is_prefix_of(left_aligned(s, width)),
        right_aligned(s, width).subrange(
            right_aligned(s, width).len() - s.len(),
            right_aligned(s, width).len() as int,
        ) == s,
        forall|i: int|
            s.len() <= i < left_aligned(s, width).len() ==> #[trigger] left_aligned(s, width)[i]
                == ' ',
        forall|i: int|
            0 <= i < right_aligned(s, width).len() - s.len() ==> #[trigger] right_aligned(
                s,
                width,
            )[i] == ' ',
{
    assert(s.len() >= width ==> left_aligned(s, width) =~= s);
    assert(s.len() >= width ==> right_aligned(s, width) =~= s);
    assert(right_aligned(s, width).subrange(
        right_aligned(s, width).len() - s.len(),
        right_aligned(s, width).len() as int,
    ) =~= s);
}

/// Replacing goes from left to right: where the text begins with what is sought, that is
/// replaced and the rest is gone through; else its first character is kept.
pub proof fn replacing_goes_from_left_to_right(s: Seq<char>, from: Seq<char>, to: Seq<char>, c: char)
    requires
        from.len() > 0,
    ensures
        replaced(from + s, from, to) == to + replaced(s, from, to),
        !occurs_at(seq![c] + s, from, 0) ==> replaced(seq![c] + s, from, to) == seq![c] + replaced(
            s,
            from,
            to,
        ),
        replaced(Seq::empty(), from, to) == Seq::<char>::empty(),
{
    let a = from + s;
    assert(a.subrange(0, from.len() as int) =~= from);
    assert(a.skip(from.len() as int) =~= s);
    let b = seq![c] + s;
    assert(b.skip(1) =~= s);
}

/// A cut at a character keeps everything but that character, and nothing before it is one.
pub proof fn cuts_lose_the_separator_only(s: Seq<char>, c: char)
    ensures
        match cut(s, c) {
            Some((before, after)) => {
                &&& s == before + seq![c] + after
                &&& forall|i: int| 0 <= i < before.len() ==> #[trigger] before[i] != c
            },
            None => forall|i: int| 0 <= i < s.len() ==> #[trigger] s[i] != c,
        },
{
    lemma_before_first(s, c);
    let i = first_index(s, c) as int;
    if i < s.len() {
        assert(s =~= s.take(i) + seq![c] + s.skip(i + 1));
    }
}

/// Nothing before the first `c` is a `c`.
proof fn lemma_before_first(s: Seq<char>, c: char)
    ensures
        first_index(s, c) <= s.len(),
        forall|i: int| 0 <= i < first_index(s, c) ==> #[trigger] s[i] != c,
        first_index(s, c) < s.len() ==> s[first_index(s, c) as int] == c,
    decreases s.len(),
{
    if s.len() > 0 && s[0] != c {
        lemma_before_first(s.skip(1), c);
        assert forall|i: int| 0 <= i < first_index(s, c) implies #[trigger] s[i] != c by {
            if i > 0 {
                assert(s.skip(1)[i - 1] == s[i]);
            }
        }
        let k = first_index(s.skip(1), c);
        if k < s.skip(1).len() {
            assert(s.skip(1)[k as int] == s[k as int + 1]);
        }
    }
}

/// Splitting loses nothing but the separators: the pieces joined by them are the text, and no
/// piece has one in it.
pub proof fn splitting_loses_the_separators_only(s: Seq<char>, c: char)
    ensures
        pieces(s, c).len() >= 1,
        joined(pieces(s, c), seq![c]) == s,
        forall|k: int, i: int|
            0 <= k < pieces(s, c).len() && 0 <= i < pieces(s, c)[k].len()
                ==> #[trigger] pieces(s, c)[k][i] != c,
    decreases s.len(),
{
    lemma_before_first(s, c);
    let i = first_index(s, c) as int;
    if i < s.len() {
        let rest = pieces(s.skip(i + 1), c);
        splitting_loses_the_separators_only(s.skip(i + 1), c);
        lemma_join_front(s.take(i), rest, seq![c]);
        assert(s =~= s.take(i) + seq![c] + s.skip(i + 1));
        assert forall|k: int, j: int|
            0 <= k < pieces(s, c).len() && 0 <= j < pieces(s, c)[k].len() implies #[trigger] pieces(
            s,
            c,
        )[k][j] != c by {
            if k > 0 {
                assert(pieces(s, c)[k] == rest[k - 1]);
                assert(rest[k - 1][j] != c);
            } else {
                assert(pieces(s, c)[0] == s.take(i));
                assert(s[j] != c);
            }
        }
    } else {
        assert forall|k: int, j: int|
            0 <= k < pieces(s, c).len() && 0 <= j < pieces(s, c)[k].len() implies #[trigger] pieces(
            s,
            c,
        )[k][j] != c by {
            assert(pieces(s, c)[k] == s);
        }
    }
}

/// Joining with one more text at the front puts it and a separator before the others.
proof fn lemma_join_front(first: Seq<char>, rest: Seq<Seq<char>>, separator: Seq<char>)
    requires
        rest.len() >= 1,
    ensures
        joined(seq![first] + rest, separator) == first + separator + joined(rest, separator),
    decreases rest.len(),
{
    let all = seq![first] + rest;
    assert(all.drop_last() =~= seq![first] + rest.drop_last());
    if rest.len() > 1 {
        lemma_join_front(first, rest.drop_last(), separator);
        assert(joined(all, separator) =~= first + separator + joined(rest, separator));
    } else {
        assert(rest.drop_last() =~= Seq::empty());
        assert(all.drop_last() =~= seq![first]);
        assert(joined(seq![first], separator) == first);
        assert(joined(rest, separator) == rest[0]);
        assert(all.last() == rest[0]);
        assert(joined(all, separator) =~= first + separator + joined(rest, separator));
    }
}

/// Joining puts the separator between neighbours, and nowhere else.
pub proof fn joining_separates_neighbours(
    parts: Seq<Seq<char>>,
    last: Seq<char>,
    separator: Seq<char>,
)
    ensures
        joined(Seq::empty(), separator) == Seq::<char>::empty(),
        joined(seq![last], separator) == last,
        parts.len() >= 1 ==> joined(parts.push(last), separator) == joined(parts, separator)
            + separator + last,
{
    assert(parts.push(last).drop_last() =~= parts);
}

/// A line ends where a line feed stands; a carriage return before it belongs to the end.
pub proof fn lines_end_with_a_line_feed(line: Seq<char>, rest: Seq<char>)
    requires
        forall|i: int| 0 <= i < line.len() ==> #[trigger] line[i] != '\n',
        line.len() > 0 ==> line.last() != '\r',
    ensures
        lines(line + seq!['\n'] + rest) == seq![line] + lines(rest),
        lines(line + seq!['\r', '\n'] + rest) == seq![line] + lines(rest),
        line.len() > 0 ==> lines(line) == seq![line],
        lines(Seq::empty()) == Seq::<Seq<char>>::empty(),
{
    lemma_first_line(line, rest);
    let returned = line + seq!['\r'];
    assert forall|i: int| 0 <= i < returned.len() implies #[trigger] returned[i] != '\n' by {
        if i < line.len() {
            assert(returned[i] == line[i]);
        }
    }
    lemma_first_line(returned, rest);
    assert(returned + seq!['\n'] + rest =~= line + seq!['\r', '\n'] + rest);
    assert(without_return(returned) =~= line);
    assert(without_return(line) == line);
    lemma_first_index(line, '\n', line.len() as int);
    let e = Seq::<char>::empty();
    assert(pieces(e, '\n') =~= seq![e]);
    assert(lines(e) =~= Seq::<Seq<char>>::empty());
    if line.len() > 0 {
        assert(pieces(line, '\n') =~= seq![line]);
        assert(lines(line) =~= seq![line]);
    }
}

/// The first line of a text stands before the lines of the rest.
proof fn lemma_first_line(line: Seq<char>, rest: Seq<char>)
    requires
        forall|i: int| 0 <= i < line.len() ==> #[trigger] line[i] != '\n',
    ensures
        lines(line + seq!['\n'] + rest) == seq![without_return(line)] + lines(rest),
{
    let s = line + seq!['\n'] + rest;
    assert forall|i: int| 0 <= i < line.len() implies #[trigger] s[i] != '\n' by {
        assert(s[i] == line[i]);
    }
    lemma_first_index(s, '\n', line.len() as int);
    assert(s.take(line.len() as int) =~= line);
    assert(s.skip(line.len() as int + 1) =~= rest);
    let later = pieces(rest, '\n');
    splitting_loses_the_separators_only(rest, '\n');
    let all = pieces(s, '\n');
    assert(all =~= seq![line] + later);
    let f = |p: Seq<char>| without_return(p);
    assert(all.drop_last() =~= seq![line] + later.drop_last());
    assert(all.drop_last().map_values(f) =~= seq![without_return(line)]
        + later.drop_last().map_values(f));
    assert(all.last() == later.last());
    assert(lines(s) =~= seq![without_return(line)] + lines(rest));
}

/// Hexadecimal numerals have the width asked for, and each digit stands for four bits.
pub proof fn hexadecimal_digits_are_four_bits(n: nat, width: nat)
    ensures
        hex(n, width).len() == width,
        width > 0 ==> hex(n, width).last() as int == if n % 16 < 10 {
            48 + n % 16
        } else {
            55 + n % 16
        },
        width > 0 ==> hex(n, width).drop_last() == hex(n / 16, (width - 1) as nat),
    decreases width,
{
    if width > 0 {
        hexadecimal_digits_are_four_bits(n / 16, (width - 1) as nat);
        assert(hex(n, width).drop_last() =~= hex(n / 16, (width - 1) as nat));
    }
}

/// Texts are ordered by the first character in which they differ; a text stands before its
/// continuations.
pub proof fn texts_are_ordered_by_their_first_difference(
    common: Seq<char>,
    a: Seq<char>,
    b: Seq<char>,
)
    ensures
        a.len() > 0 && b.len() > 0 && a[0] != b[0] ==> (text_before(common + a, common + b)
            <==> a[0] < b[0]),
        a.len() > 0 ==> text_before(common, common + a),
        !text_before(common + a, common),
    decreases common.len(),
{
    if common.len() > 0 {
        let shorter = common.skip(1);
        texts_are_ordered_by_their_first_difference(shorter, a, b);
        assert((common + a).skip(1) =~= shorter + a);
        assert((common + b).skip(1) =~= shorter + b);
    } else {
        assert(common + a =~= a);
        assert(common + b =~= b);
    }
}

/// These characters are white space, and no others: the tabulator and the line breaks, the
/// space, and the spaces and breaks outside ASCII.
pub proof fn white_space_is_known(c: char)
    ensures
        c < 'A' ==> (is_white_space(c) <==> c == '\t' || c == '\n' || c == '\u{b}' || c == '\u{c}' || c
            == '\r' || c == ' '),
        'A' <= c <= '~' ==> !is_white_space(c),
        c > '~' ==> (is_white_space(c) <==> c == '\u{85}' || c == '\u{a0}' || c == '\u{1680}' || (
        '\u{2000}' <= c <= '\u{200a}') || c == '\u{2028}' || c == '\u{2029}' || c == '\u{202f}' || c
            == '\u{205f}' || c == '\u{3000}'),
{
}

} // verus!
