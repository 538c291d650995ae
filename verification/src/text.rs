//! Character sequence utilities: trimming, case folding, substring search,
//! decimal formatting and parsing, and lexicographic ordering.

use vstd::prelude::*;

verus! {

// ---------------------------------------------------------------------------
// Conversions between strings and character vectors
// ---------------------------------------------------------------------------

/// The characters of `s`, in order.
pub fn chars_of(s: &str) -> (result: Vec<char>)
    ensures
        result@ == s@,
{
    let mut result: Vec<char> = Vec::new();
    for c in it: s.chars()
        invariant
            result@ == it.seq().take(it.index() as int),
    {
        result.push(c);
    }
    result
}

/// Appends one character to a string (`String::push`).
#[verifier::external_body]
fn push_char(s: &mut String, c: char)
    ensures
        final(s)@ == old(s)@.push(c),
{
    s.push(c);
}

/// The string made of the characters of `chars`, in order.
pub fn string_from_chars(chars: &Vec<char>) -> (result: String)
    ensures
        result@ == chars@,
{
    let mut result = String::new();
    let mut i: usize = 0;
    while i < chars.len()
        invariant
            i <= chars.len(),
            result@ == chars@.take(i as int),
        decreases chars.len() - i,
    {
        push_char(&mut result, chars[i]);
        i = i + 1;
        assert(chars@.take(i as int) =~= chars@.take((i - 1) as int).push(chars@[i - 1]));
    }
    assert(chars@.take(i as int) =~= chars@);
    result
}

/// Appends the characters of `tail` to `s`.
pub fn append_str(s: &mut String, tail: &str)
    ensures
        final(s)@ == old(s)@ + tail@,
{
    let chars = chars_of(tail);
    let mut i: usize = 0;
    while i < chars.len()
        invariant
            i <= chars.len(),
            chars@ == tail@,
            s@ == old(s)@ + chars@.take(i as int),
        decreases chars.len() - i,
    {
        push_char(s, chars[i]);
        i = i + 1;
        assert(chars@.take(i as int) =~= chars@.take((i - 1) as int).push(chars@[i - 1]));
    }
    assert(chars@.take(i as int) =~= chars@);
}

/// Whether two character vectors hold the same characters.
pub fn chars_equal(a: &Vec<char>, b: &Vec<char>) -> (result: bool)
    ensures
        result == (a@ == b@),
{
    if a.len() != b.len() {
        return false;
    }
    let mut i: usize = 0;
    while i < a.len()
        invariant
            i <= a.len(),
            a.len() == b.len(),
            forall|j: int| 0 <= j < i ==> a@[j] == b@[j],
        decreases a.len() - i,
    {
        if a[i] != b[i] {
            return false;
        }
        i = i + 1;
    }
    assert(a@ =~= b@);
    true
}

// ---------------------------------------------------------------------------
// Whitespace trimming
// ---------------------------------------------------------------------------

/// Whether `c` has the Unicode `White_Space` property, as `char::is_whitespace`
/// decides it: tab, line feed, vertical tab, form feed, carriage return,
/// space, next line, no-break space, Ogham space mark, the spaces from en
/// quad to hair space, line and paragraph separators, narrow no-break space,
/// medium mathematical space and ideographic space.
pub open spec fn unicode_white_space(c: char) -> bool {
    let v = c as int;
    ||| 0x09 <= v <= 0x0d
    ||| v == 0x20
    ||| v == 0x85
    ||| v == 0xa0
    ||| v == 0x1680
    ||| 0x2000 <= v <= 0x200a
    ||| v == 0x2028
    ||| v == 0x2029
    ||| v == 0x202f
    ||| v == 0x205f
    ||| v == 0x3000
}

/// Whether `c` has the Unicode `White_Space` property, as `char::is_whitespace`
/// answers.
fn char_is_whitespace(c: char) -> (result: bool)
    ensures
        result == unicode_white_space(c),
{
    let v = c as u32;
    (0x09 <= v && v <= 0x0d) || v == 0x20 || v == 0x85 || v == 0xa0 || v == 0x1680 || (0x2000 <= v && v <= 0x200a)
        || v == 0x2028 || v == 0x2029 || v == 0x202f || v == 0x205f || v == 0x3000
}

/// The number of whitespace characters at the start of `s`.
pub open spec fn leading_white_space(s: Seq<char>) -> nat
    decreases s.len(),
{
    if s.len() == 0 || !unicode_white_space(s[0]) {
        0
    } else {
        1 + leading_white_space(s.drop_first())
    }
}

/// The number of whitespace characters at the end of `s`.
pub open spec fn trailing_white_space(s: Seq<char>) -> nat
    decreases s.len(),
{
    if s.len() == 0 || !unicode_white_space(s.last()) {
        0
    } else {
        1 + trailing_white_space(s.drop_last())
    }
}

/// `s` without its leading and trailing whitespace (what `str::trim` returns).
pub open spec fn trimmed(s: Seq<char>) -> Seq<char> {
    let rest = s.skip(leading_white_space(s) as int);
    rest.take(rest.len() - trailing_white_space(rest))
}

proof fn lemma_leading_bound(s: Seq<char>)
    ensures
        leading_white_space(s) <= s.len(),
    decreases s.len(),
{
    if s.len() > 0 && unicode_white_space(s[0]) {
        lemma_leading_bound(s.drop_first());
    }
}

proof fn lemma_trailing_bound(s: Seq<char>)
    ensures
        trailing_white_space(s) <= s.len(),
    decreases s.len(),
{
    if s.len() > 0 && unicode_white_space(s.last()) {
        lemma_trailing_bound(s.drop_last());
    }
}

/// Counting whitespace from `i`: if the first `i` characters are whitespace,
/// the leading run of `s` is `i` longer than the leading run of `s.skip(i)`.
proof fn lemma_leading_skip(s: Seq<char>, i: int)
    requires
        0 <= i <= s.len(),
        forall|j: int| 0 <= j < i ==> unicode_white_space(#[trigger] s[j]),
    ensures
        leading_white_space(s) == i + leading_white_space(s.skip(i)),
    decreases i,
{
    if i > 0 {
        assert(s.drop_first().skip(i - 1) =~= s.skip(i));
        assert forall|j: int| 0 <= j < i - 1 implies unicode_white_space(
            #[trigger] s.drop_first()[j],
        ) by {
            assert(s.drop_first()[j] == s[j + 1]);
        }
        lemma_leading_skip(s.drop_first(), i - 1);
    } else {
        assert(s.skip(0) =~= s);
    }
}

/// The trailing analogue of [`lemma_leading_skip`].
proof fn lemma_trailing_take(s: Seq<char>, n: int)
    requires
        0 <= n <= s.len(),
        forall|j: int| n <= j < s.len() ==> unicode_white_space(#[trigger] s[j]),
    ensures
        trailing_white_space(s) == (s.len() - n) + trailing_white_space(s.take(n)),
    decreases s.len() - n,
{
    if n < s.len() {
        assert(s.drop_last().take(n) =~= s.take(n));
        assert forall|j: int| n <= j < s.drop_last().len() implies unicode_white_space(
            #[trigger] s.drop_last()[j],
        ) by {
            assert(s.drop_last()[j] == s[j]);
        }
        assert(unicode_white_space(s[s.len() - 1]));
        lemma_trailing_take(s.drop_last(), n);
    } else {
        assert(s.take(n) =~= s);
    }
}

proof fn lemma_leading_run(s: Seq<char>)
    ensures
        leading_white_space(s) <= s.len(),
        forall|i: int| 0 <= i < leading_white_space(s) ==> unicode_white_space(#[trigger] s[i]),
        leading_white_space(s) < s.len() ==> !unicode_white_space(s[leading_white_space(s) as int]),
    decreases s.len(),
{
    if s.len() > 0 && unicode_white_space(s[0]) {
        let rest = s.drop_first();
        lemma_leading_run(rest);
        assert forall|i: int| 0 <= i < leading_white_space(s) implies unicode_white_space(#[trigger] s[i]) by {
            if i > 0 {
                assert(s[i] == rest[i - 1]);
            }
        }
        if leading_white_space(s) < s.len() {
            assert(s[leading_white_space(s) as int] == rest[leading_white_space(rest) as int]);
        }
    }
}

proof fn lemma_trailing_run(s: Seq<char>)
    ensures
        trailing_white_space(s) <= s.len(),
        forall|i: int| s.len() - trailing_white_space(s) <= i < s.len() ==> unicode_white_space(#[trigger] s[i]),
        trailing_white_space(s) < s.len() ==> !unicode_white_space(s[s.len() - 1 - trailing_white_space(s)]),
    decreases s.len(),
{
    if s.len() > 0 && unicode_white_space(s.last()) {
        let rest = s.drop_last();
        lemma_trailing_run(rest);
        assert forall|i: int| s.len() - trailing_white_space(s) <= i < s.len() implies unicode_white_space(
            #[trigger] s[i],
        ) by {
            if i < s.len() - 1 {
                assert(s[i] == rest[i]);
            }
        }
        if trailing_white_space(s) < s.len() {
            assert(s[s.len() - 1 - trailing_white_space(s)] == rest[rest.len() - 1 - trailing_white_space(rest)]);
        }
    }
}

/// Trimming removes a run of whitespace from each end and nothing else: the
/// result is a contiguous part of `s`, everything before and after it is
/// whitespace, and it neither starts nor ends with whitespace.
pub proof fn lemma_trimmed_law(s: Seq<char>)
    ensures
        exists|l: int|
            #![trigger s.subrange(l, l + trimmed(s).len())]
            0 <= l && l + trimmed(s).len() <= s.len() && trimmed(s) == s.subrange(l, l + trimmed(s).len()) && (
            forall|i: int| 0 <= i < l ==> unicode_white_space(#[trigger] s[i])) && (forall|i: int|
                l + trimmed(s).len() <= i < s.len() ==> unicode_white_space(#[trigger] s[i])),
        trimmed(s).len() > 0 ==> !unicode_white_space(trimmed(s)[0]) && !unicode_white_space(
            trimmed(s)[trimmed(s).len() - 1],
        ),
{
    let l = leading_white_space(s) as int;
    lemma_leading_run(s);
    let rest = s.skip(l);
    lemma_trailing_run(rest);
    let t = trimmed(s);
    let n = rest.len() - trailing_white_space(rest);
    assert(t == rest.take(n));
    assert(t =~= s.subrange(l, l + t.len()));
    assert forall|i: int| l + t.len() <= i < s.len() implies unicode_white_space(#[trigger] s[i]) by {
        assert(s[i] == rest[i - l]);
    }
    if t.len() > 0 {
        assert(t[0] == s[l]);
        assert(t[t.len() - 1] == rest[rest.len() - 1 - trailing_white_space(rest)]);
    }
    assert(0 <= l && l + t.len() <= s.len() && t == s.subrange(l, l + t.len()));
}

/// `s` without its leading and trailing Unicode whitespace (`str::trim`).
pub fn trim_white_space(s: &Vec<char>) -> (result: Vec<char>)
    ensures
        result@ == trimmed(s@),
{
    let n = s.len();
    let mut start: usize = 0;
    while start < n && char_is_whitespace(s[start])
        invariant
            start <= n,
            n == s.len(),
            forall|j: int| 0 <= j < start ==> unicode_white_space(#[trigger] s@[j]),
        decreases n - start,
    {
        start = start + 1;
    }
    proof {
        lemma_leading_skip(s@, start as int);
        let rest = s@.skip(start as int);
        if rest.len() > 0 {
            assert(rest[0] == s@[start as int]);
        }
        assert(leading_white_space(rest) == 0);
    }
    let mut end: usize = n;
    while end > start && char_is_whitespace(s[end - 1])
        invariant
            start <= end <= n,
            n == s.len(),
            forall|j: int| end <= j < n ==> unicode_white_space(#[trigger] s@[j]),
        decreases end,
    {
        end = end - 1;
    }
    let ghost rest = s@.skip(start as int);
    proof {
        let k = end - start;
        assert forall|j: int| k <= j < rest.len() implies unicode_white_space(
            #[trigger] rest[j],
        ) by {
            assert(rest[j] == s@[j + start]);
        }
        lemma_trailing_take(rest, k as int);
        let front = rest.take(k as int);
        if front.len() > 0 {
            assert(front.last() == s@[end - 1]);
        }
        assert(trailing_white_space(front) == 0);
    }
    let mut result: Vec<char> = Vec::new();
    let mut i: usize = start;
    while i < end
        invariant
            start <= i <= end <= n,
            n == s.len(),
            result@ == s@.subrange(start as int, i as int),
        decreases end - i,
    {
        result.push(s[i]);
        i = i + 1;
        assert(s@.subrange(start as int, i as int) =~= s@.subrange(start as int, (i - 1) as int).push(
            s@[i - 1],
        ));
    }
    assert(result@ =~= rest.take(end - start));
    result
}

// ---------------------------------------------------------------------------
// Case folding
// ---------------------------------------------------------------------------

/// The Unicode lowercase mapping of `s`, as `str::to_lowercase` computes it.
pub uninterp spec fn unicode_lowercase(s: Seq<char>) -> Seq<char>;

/// `str::to_lowercase`: the result is named by [`unicode_lowercase`].
#[verifier::external_body]
pub(crate) fn to_lowercase(s: &str) -> (result: String)
    ensures
        result@ == unicode_lowercase(s@),
{
    s.to_lowercase()
}

// ---------------------------------------------------------------------------
// Substring search
// ---------------------------------------------------------------------------

/// Whether `needle` occurs in `hay` at position `i`.
pub open spec fn occurs_at(hay: Seq<char>, needle: Seq<char>, i: int) -> bool {
    0 <= i && i + needle.len() <= hay.len() && hay.subrange(i, i + needle.len()) == needle
}

/// Whether `needle` occurs somewhere in `hay` (what `str::contains` decides
/// for a string pattern).
pub open spec fn has_infix(hay: Seq<char>, needle: Seq<char>) -> bool {
    exists|i: int| occurs_at(hay, needle, i)
}

fn occurs_at_exec(hay: &Vec<char>, needle: &Vec<char>, i: usize) -> (result: bool)
    requires
        i + needle.len() <= hay.len(),
    ensures
        result == occurs_at(hay@, needle@, i as int),
{
    let mut j: usize = 0;
    while j < needle.len()
        invariant
            j <= needle.len(),
            i + needle.len() <= hay.len(),
            forall|k: int| 0 <= k < j ==> hay@[i + k] == needle@[k],
        decreases needle.len() - j,
    {
        if hay[i + j] != needle[j] {
            assert(hay@.subrange(i as int, i + needle.len())[j as int] != needle@[j as int]);
            return false;
        }
        j = j + 1;
    }
    assert(hay@.subrange(i as int, i + needle.len()) =~= needle@);
    true
}

/// Whether `needle` occurs in `hay`.
pub fn contains_chars(hay: &Vec<char>, needle: &Vec<char>) -> (result: bool)
    ensures
        result == has_infix(hay@, needle@),
{
    if needle.len() > hay.len() {
        return false;
    }
    let last = hay.len() - needle.len();
    let mut i: usize = 0;
    loop
        invariant
            i <= last,
            last + needle.len() == hay.len(),
            forall|k: int| 0 <= k < i ==> !occurs_at(hay@, needle@, k),
        decreases last - i,
    {
        if occurs_at_exec(hay, needle, i) {
            return true;
        }
        if i == last {
            assert forall|k: int| !occurs_at(hay@, needle@, k) by {
                if 0 <= k < i {
                } else if k == i {
                }
            }
            return false;
        }
        i = i + 1;
    }
}

// ---------------------------------------------------------------------------
// Decimal text
// ---------------------------------------------------------------------------

/// The ASCII digit for `d`.
pub open spec fn digit_char(d: nat) -> char {
    ((d + 48) as u8) as char
}

/// The decimal text of `n`, without sign or leading zeros (`u32::to_string`).
pub open spec fn decimal_text(n: nat) -> Seq<char>
    decreases n,
{
    if n < 10 {
        seq![digit_char(n)]
    } else {
        decimal_text(n / 10).push(digit_char(n % 10))
    }
}

/// The decimal text of `n`.
pub fn decimal_chars(n: u32) -> (result: Vec<char>)
    ensures
        result@ == decimal_text(n as nat),
    decreases n,
{
    let digit = ((n % 10) as u8 + 48u8) as char;
    if n < 10 {
        let mut result: Vec<char> = Vec::new();
        result.push(digit);
        result
    } else {
        let mut result = decimal_chars(n / 10);
        result.push(digit);
        result
    }
}

/// The decimal text of `n`, as a string.
pub fn decimal_string(n: u32) -> (result: String)
    ensures
        result@ == decimal_text(n as nat),
{
    let chars = decimal_chars(n);
    string_from_chars(&chars)
}

/// Whether `c` is one of the ASCII digits `0` to `9`.
pub open spec fn is_decimal_digit(c: char) -> bool {
    48 <= (c as int) <= 57
}

/// The value of the digit character `c`.
pub open spec fn digit_value(c: char) -> nat {
    ((c as int) - 48) as nat
}

/// The value of a run of decimal digits, most significant first.
pub open spec fn digits_value(d: Seq<char>) -> nat
    decreases d.len(),
{
    if d.len() == 0 {
        0
    } else {
        digits_value(d.drop_last()) * 10 + digit_value(d.last())
    }
}

/// The digits of `s` once an optional leading `+` is removed.
pub open spec fn unsigned_digits(s: Seq<char>) -> Seq<char> {
    if s.len() > 0 && s[0] == '+' {
        s.drop_first()
    } else {
        s
    }
}

/// What `u32::from_str` gives for `s`: an optional `+`, then one or more
/// decimal digits whose value fits in a `u32`.
pub open spec fn u32_from_decimal(s: Seq<char>) -> Option<u32> {
    let d = unsigned_digits(s);
    if d.len() == 0 || exists|i: int| 0 <= i < d.len() && !is_decimal_digit(#[trigger] d[i]) {
        None
    } else if digits_value(d) > u32::MAX {
        None
    } else {
        Some(digits_value(d) as u32)
    }
}

proof fn lemma_digits_value_prefix(d: Seq<char>, k: int)
    requires
        0 <= k <= d.len(),
        forall|i: int| 0 <= i < d.len() ==> is_decimal_digit(#[trigger] d[i]),
    ensures
        digits_value(d.take(k)) <= digits_value(d),
    decreases d.len(),
{
    if k < d.len() {
        let rest = d.drop_last();
        assert forall|i: int| 0 <= i < rest.len() implies is_decimal_digit(#[trigger] rest[i]) by {
            assert(rest[i] == d[i]);
        }
        lemma_digits_value_prefix(rest, k);
        assert(rest.take(k) =~= d.take(k));
    } else {
        assert(d.take(k) =~= d);
    }
}

/// Parses `s` as `u32::from_str` does.
pub fn parse_u32_decimal(s: &Vec<char>) -> (result: Option<u32>)
    ensures
        result == u32_from_decimal(s@),
{
    let ghost d = unsigned_digits(s@);
    let start: usize = if s.len() > 0 && s[0] == '+' { 1 } else { 0 };
    assert(d =~= s@.skip(start as int));
    if start == s.len() {
        return None;
    }
    let mut value: u64 = 0;
    let mut i: usize = start;
    while i < s.len()
        invariant
            start <= i <= s.len(),
            d =~= s@.skip(start as int),
            d == unsigned_digits(s@),
            forall|j: int| 0 <= j < i - start ==> is_decimal_digit(#[trigger] d[j]),
            value == digits_value(d.take(i - start)),
            value <= u32::MAX,
        decreases s.len() - i,
    {
        let c = s[i];
        let zero: char = '0';
        let nine: char = '9';
        if c < zero || c > nine {
            assert(('0' as int) == 48 && ('9' as int) == 57);
            assert(d[i - start] == c);
            assert(!is_decimal_digit(d[(i - start) as int]));
            return None;
        }
        let code = c as u32;
        assert(code as int == c as int);
        let next = value * 10 + (code - 48) as u64;
        proof {
            let k = (i - start) as int;
            assert(d.take(k + 1).drop_last() =~= d.take(k));
            assert(d.take(k + 1).last() == c);
        }
        if next > 0xffff_ffff {
            proof {
                let k = (i - start) as int;
                if forall|j: int| 0 <= j < d.len() ==> is_decimal_digit(#[trigger] d[j]) {
                    lemma_digits_value_prefix(d, k + 1);
                }
            }
            return None;
        }
        value = next;
        i = i + 1;
    }
    assert(d.take(i - start) =~= d);
    Some(value as u32)
}

// ---------------------------------------------------------------------------
// Lexicographic order
// ---------------------------------------------------------------------------

/// Lexicographic order on character sequences by code point, which is the
/// order of `String` comparison in Rust.
pub open spec fn text_less(a: Seq<char>, b: Seq<char>) -> bool
    decreases a.len(),
{
    if a.len() == 0 {
        b.len() > 0
    } else if b.len() == 0 {
        false
    } else if a[0] != b[0] {
        (a[0] as int) < (b[0] as int)
    } else {
        text_less(a.drop_first(), b.drop_first())
    }
}

/// Whether `a` comes before `b` in dictionary order: at the first position
/// where they differ `a` has the smaller character, or `a` is a proper
/// prefix of `b`.
pub open spec fn lexicographically_before(a: Seq<char>, b: Seq<char>) -> bool {
    ||| exists|k: int|
        0 <= k < a.len() && k < b.len() && a.take(k) == b.take(k) && (a[k] as int) < (#[trigger] b[k] as int)
    ||| a.len() < b.len() && a == b.take(a.len() as int)
}

/// [`text_less`] is dictionary order.
pub proof fn lemma_text_less_lexicographic(a: Seq<char>, b: Seq<char>)
    ensures
        text_less(a, b) == lexicographically_before(a, b),
    decreases a.len(),
{
    if a.len() == 0 {
        assert(a =~= b.take(0));
    } else if b.len() == 0 {
    } else if a[0] != b[0] {
        if (a[0] as int) < (b[0] as int) {
            assert(a.take(0) =~= b.take(0));
            assert(0 < a.len() && 0 < b.len() && a.take(0) == b.take(0) && (a[0] as int) < (b[0] as int));
        }
        if exists|k: int|
            0 <= k < a.len() && k < b.len() && a.take(k) == b.take(k) && (a[k] as int) < (#[trigger] b[k] as int) {
            let k = choose|k: int|
                0 <= k < a.len() && k < b.len() && a.take(k) == b.take(k) && (a[k] as int) < (#[trigger] b[k] as int);
            if k > 0 {
                assert(a.take(k)[0] == b.take(k)[0]);
            }
        }
        if a.len() < b.len() && a == b.take(a.len() as int) {
            assert(a[0] == b.take(a.len() as int)[0]);
        }
    } else {
        let a1 = a.drop_first();
        let b1 = b.drop_first();
        lemma_text_less_lexicographic(a1, b1);
        if lexicographically_before(a1, b1) {
            if exists|k: int|
                0 <= k < a1.len() && k < b1.len() && a1.take(k) == b1.take(k) && (a1[k] as int) < (
                #[trigger] b1[k] as int) {
                let k = choose|k: int|
                    0 <= k < a1.len() && k < b1.len() && a1.take(k) == b1.take(k) && (a1[k] as int) < (
                    #[trigger] b1[k] as int);
                assert(a.take(k + 1) =~= seq![a[0]] + a1.take(k));
                assert(b.take(k + 1) =~= seq![b[0]] + b1.take(k));
                assert(a[k + 1] == a1[k] && b[k + 1] == b1[k]);
            } else {
                assert(a =~= seq![a[0]] + a1);
                assert(b.take(a.len() as int) =~= seq![b[0]] + b1.take(a1.len() as int));
            }
        }
        if lexicographically_before(a, b) {
            if exists|k: int|
                0 <= k < a.len() && k < b.len() && a.take(k) == b.take(k) && (a[k] as int) < (#[trigger] b[k] as int) {
                let k = choose|k: int|
                    0 <= k < a.len() && k < b.len() && a.take(k) == b.take(k) && (a[k] as int) < (#[trigger] b[k] as int);
                assert(k > 0);
                assert(a1.take(k - 1) =~= a.take(k).drop_first());
                assert(b1.take(k - 1) =~= b.take(k).drop_first());
                assert(a1[k - 1] == a[k] && b1[k - 1] == b[k]);
            } else {
                assert(a1 =~= a.drop_first());
                assert(b1.take(a1.len() as int) =~= b.take(a.len() as int).drop_first());
            }
        }
    }
}

/// No sequence is less than itself.
pub proof fn lemma_text_less_irreflexive(a: Seq<char>)
    ensures
        !text_less(a, a),
    decreases a.len(),
{
    if a.len() > 0 {
        lemma_text_less_irreflexive(a.drop_first());
    }
}

/// The lexicographic order is transitive.
pub proof fn lemma_text_less_transitive(a: Seq<char>, b: Seq<char>, c: Seq<char>)
    requires
        text_less(a, b),
        text_less(b, c),
    ensures
        text_less(a, c),
    decreases a.len(),
{
    if a.len() > 0 && b.len() > 0 && c.len() > 0 && a[0] == b[0] && b[0] == c[0] {
        lemma_text_less_transitive(a.drop_first(), b.drop_first(), c.drop_first());
    }
}

/// Two different sequences are ordered one way or the other, never both.
pub proof fn lemma_text_less_total(a: Seq<char>, b: Seq<char>)
    ensures
        a != b ==> (text_less(a, b) || text_less(b, a)),
        !(text_less(a, b) && text_less(b, a)),
    decreases a.len(),
{
    if a.len() > 0 && b.len() > 0 {
        if a[0] == b[0] {
            lemma_text_less_total(a.drop_first(), b.drop_first());
            if a.drop_first() == b.drop_first() {
                assert(a =~= seq![a[0]] + a.drop_first());
                assert(b =~= seq![b[0]] + b.drop_first());
            }
        } else {
            assert((a[0] as int) != (b[0] as int));
        }
    } else if a.len() == 0 && b.len() == 0 {
        assert(a =~= b);
    }
}

proof fn lemma_text_less_skip(a: Seq<char>, b: Seq<char>, i: int)
    requires
        0 <= i <= a.len(),
        i <= b.len(),
        a.take(i) == b.take(i),
    ensures
        text_less(a, b) == text_less(a.skip(i), b.skip(i)),
    decreases i,
{
    if i > 0 {
        assert(a[0] == a.take(i)[0]);
        assert(b[0] == b.take(i)[0]);
        assert(a.drop_first().take(i - 1) =~= a.take(i).drop_first());
        assert(b.drop_first().take(i - 1) =~= b.take(i).drop_first());
        lemma_text_less_skip(a.drop_first(), b.drop_first(), i - 1);
        assert(a.drop_first().skip(i - 1) =~= a.skip(i));
        assert(b.drop_first().skip(i - 1) =~= b.skip(i));
    } else {
        assert(a.skip(0) =~= a);
        assert(b.skip(0) =~= b);
    }
}

/// Whether `a` comes before `b` in lexicographic order.
pub fn text_less_exec(a: &Vec<char>, b: &Vec<char>) -> (result: bool)
    ensures
        result == text_less(a@, b@),
{
    let mut i: usize = 0;
    while i < a.len() && i < b.len() && a[i] == b[i]
        invariant
            i <= a.len(),
            i <= b.len(),
            a@.take(i as int) == b@.take(i as int),
        decreases a.len() - i,
    {
        assert(a@.take(i + 1) =~= a@.take(i as int).push(a@[i as int]));
        assert(b@.take(i + 1) =~= b@.take(i as int).push(b@[i as int]));
        i = i + 1;
    }
    proof {
        lemma_text_less_skip(a@, b@, i as int);
        if i < a.len() {
            assert(a@.skip(i as int)[0] == a@[i as int]);
        }
        if i < b.len() {
            assert(b@.skip(i as int)[0] == b@[i as int]);
        }
    }
    if i == a.len() {
        i < b.len()
    } else if i == b.len() {
        false
    } else {
        a[i] < b[i]
    }
}

proof fn lemma_decimal_digits(n: nat)
    ensures
        decimal_text(n).len() > 0,
        forall|i: int| 0 <= i < decimal_text(n).len() ==> is_decimal_digit(#[trigger] decimal_text(n)[i]),
        digits_value(decimal_text(n)) == n,
    decreases n,
{
    let d = digit_char(n % 10);
    assert((d as int) == (n % 10) + 48);
    if n >= 10 {
        lemma_decimal_digits(n / 10);
        let t = decimal_text(n);
        assert(t.drop_last() =~= decimal_text(n / 10));
        assert(t.last() == d);
        assert(digit_value(d) == n % 10);
        assert((n / 10) * 10 + n % 10 == n) by (nonlinear_arith);
        assert(digits_value(t) == digits_value(decimal_text(n / 10)) * 10 + digit_value(d));
        assert forall|i: int| 0 <= i < t.len() implies is_decimal_digit(#[trigger] t[i]) by {
            if i < t.len() - 1 {
                assert(t[i] == decimal_text(n / 10)[i]);
            }
        }
    } else {
        let t = decimal_text(n);
        assert(t.drop_last() =~= Seq::<char>::empty());
        assert(digits_value(t.drop_last()) == 0);
        assert(t.last() == d);
        assert(digit_value(d) == n);
    }
}

/// Reading back the decimal text of a number gives the number.
pub proof fn lemma_decimal_round_trip(n: u32)
    ensures
        u32_from_decimal(decimal_text(n as nat)) == Some(n),
{
    lemma_decimal_digits(n as nat);
    let t = decimal_text(n as nat);
    assert(is_decimal_digit(t[0]));
    assert(t[0] != '+');
    assert(unsigned_digits(t) == t);
}

} // verus!
