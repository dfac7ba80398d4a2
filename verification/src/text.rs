//! Characters and text: the character classes the lexer reads by, and the
//! small set of string operations the rest of the crate builds its values
//! and messages from.

use vstd::prelude::*;
use vstd::string::*;

verus! {

/// Whether `c` has the Unicode `White_Space` property.
pub uninterp spec fn char_is_whitespace(c: char) -> bool;

/// Whether `c` has the Unicode `Alphabetic` property.
pub uninterp spec fn char_is_alphabetic(c: char) -> bool;

/// Whether `c` is in one of the Unicode number categories (`Nd`, `Nl`, `No`).
pub uninterp spec fn char_is_numeric(c: char) -> bool;

/// `char::is_whitespace` decides the `White_Space` property; the tables it
/// reads are not restated here, its answer is named.
pub assume_specification[ char::is_whitespace ](c: char) -> (b: bool)
    ensures
        b == char_is_whitespace(c),
;

/// `char::is_alphabetic` decides the `Alphabetic` property; its answer is named.
pub assume_specification[ char::is_alphabetic ](c: char) -> (b: bool)
    ensures
        b == char_is_alphabetic(c),
;

/// `char::is_numeric` decides membership in the number categories; its answer
/// is named.
pub assume_specification[ char::is_numeric ](c: char) -> (b: bool)
    ensures
        b == char_is_numeric(c),
;

/// A code is a Unicode scalar value when it lies outside the surrogate range
/// and does not exceed `0x10FFFF`.
pub open spec fn is_scalar_value(code: u32) -> bool {
    code <= 0xD7FF || (0xE000 <= code && code <= 0x10FFFF)
}

/// `char::from_u32` returns the character with the given code exactly when the
/// code is a Unicode scalar value, and `None` otherwise.
pub assume_specification[ char::from_u32 ](i: u32) -> (r: Option<char>)
    ensures
        r == (if is_scalar_value(i) {
            Some(i as char)
        } else {
            None::<char>
        }),
;

/// `String::push` appends one character to the end of the string.
#[verifier::external_body]
pub(crate) fn push_char(s: &mut String, c: char)
    ensures
        final(s)@ == old(s)@.push(c),
{
    s.push(c);
}

/// Characters a name may start with.
pub open spec fn is_identifier_start(c: char) -> bool {
    char_is_alphabetic(c) || c == '_'
}

/// Characters a name may continue with.
pub open spec fn is_identifier_part(c: char) -> bool {
    char_is_alphabetic(c) || char_is_numeric(c) || c == '_'
}

/// The characters `0` to `9`.
pub open spec fn is_decimal_digit(c: char) -> bool {
    '0' <= c && c <= '9'
}

/// The number that a decimal digit writes.
pub open spec fn decimal_digit_value(c: char) -> nat
    recommends
        is_decimal_digit(c),
{
    (c as u32 - '0' as u32) as nat
}

/// The characters `0` to `9`, `a` to `f` and `A` to `F`.
pub open spec fn is_hex_digit(c: char) -> bool {
    ('0' <= c && c <= '9') || ('a' <= c && c <= 'f') || ('A' <= c && c <= 'F')
}

/// The number that a hexadecimal digit writes.
pub open spec fn hex_digit_value(c: char) -> nat
    recommends
        is_hex_digit(c),
{
    if '0' <= c && c <= '9' {
        (c as u32 - '0' as u32) as nat
    } else if 'a' <= c && c <= 'f' {
        (c as u32 - 'a' as u32 + 10) as nat
    } else {
        (c as u32 - 'A' as u32 + 10) as nat
    }
}

/// Whether a name may start with `c`.
pub fn starts_identifier(c: char) -> (b: bool)
    ensures
        b == is_identifier_start(c),
{
    c.is_alphabetic() || c == '_'
}

/// Whether a name may continue with `c`.
pub fn continues_identifier(c: char) -> (b: bool)
    ensures
        b == is_identifier_part(c),
{
    c.is_alphabetic() || c.is_numeric() || c == '_'
}

/// Whether `c` is a decimal digit.
pub fn decimal_digit(c: char) -> (b: bool)
    ensures
        b == is_decimal_digit(c),
{
    '0' <= c && c <= '9'
}

/// The value of a hexadecimal digit, `None` for any other character.
pub fn hex_digit(c: char) -> (r: Option<u32>)
    ensures
        r is Some <==> is_hex_digit(c),
        r is Some ==> r->0 == hex_digit_value(c) && r->0 < 16,
{
    if '0' <= c && c <= '9' {
        Some(c as u32 - '0' as u32)
    } else if 'a' <= c && c <= 'f' {
        Some(c as u32 - 'a' as u32 + 10)
    } else if 'A' <= c && c <= 'F' {
        Some(c as u32 - 'A' as u32 + 10)
    } else {
        None
    }
}

/// The decimal digit that writes `d`.
pub open spec fn digit_char(d: nat) -> char
    recommends
        d < 10,
{
    ('0' as u8 + d as u8) as char
}

/// `n` written in decimal, without sign or leading zeros.
pub open spec fn decimal_text(n: nat) -> Seq<char>
    decreases n,
{
    if n < 10 {
        seq![digit_char(n)]
    } else {
        decimal_text(n / 10).push(digit_char(n % 10))
    }
}

/// `v` written in decimal, with a leading `-` when negative.
pub open spec fn signed_decimal_text(v: int) -> Seq<char> {
    if v < 0 {
        seq!['-'] + decimal_text((-v) as nat)
    } else {
        decimal_text(v as nat)
    }
}

/// `n` written in decimal.
pub fn render_u64(n: u64) -> (s: String)
    ensures
        s@ == decimal_text(n as nat),
    decreases n,
{
    if n < 10 {
        let mut s = String::new();
        push_char(&mut s, ('0' as u8 + n as u8) as char);
        assert(s@ =~= seq![digit_char(n as nat)]);
        s
    } else {
        let mut s = render_u64(n / 10);
        push_char(&mut s, ('0' as u8 + (n % 10) as u8) as char);
        s
    }
}

/// `n` written in decimal.
pub fn render_usize(n: usize) -> (s: String)
    ensures
        s@ == decimal_text(n as nat),
{
    render_u64(n as u64)
}

/// `v` written in decimal, with a leading `-` when negative.
pub fn render_i64(v: i64) -> (s: String)
    ensures
        s@ == signed_decimal_text(v as int),
{
    if v < 0 {
        let magnitude: u64 = (-(v + 1)) as u64 + 1;
        let digits = render_u64(magnitude);
        let mut s = String::new();
        push_char(&mut s, '-');
        s.append(digits.as_str());
        assert(s@ =~= seq!['-'] + decimal_text((-v) as nat));
        s
    } else {
        render_u64(v as u64)
    }
}

/// A new string holding the characters of `s`.
pub fn text(s: &str) -> (r: String)
    ensures
        r@ == s@,
{
    String::from_str(s)
}

/// Whether `s` reads exactly as `word`.
pub fn is_word(s: &String, word: &str) -> (b: bool)
    ensures
        b == (s@ == word@),
{
    let w = String::from_str(word);
    *s == w
}

/// A string holding `chars[from..to]`.
pub fn string_from_chars(chars: &[char], from: usize, to: usize) -> (s: String)
    requires
        from <= to <= chars@.len(),
    ensures
        s@ == chars@.subrange(from as int, to as int),
{
    let mut s = String::new();
    let mut i: usize = from;
    while i < to
        invariant
            from <= i <= to <= chars@.len(),
            s@ == chars@.subrange(from as int, i as int),
        decreases to - i,
    {
        push_char(&mut s, chars[i]);
        i = i + 1;
        assert(s@ =~= chars@.subrange(from as int, i as int));
    }
    s
}

/// Index of the first character of `s` that is not white space, `s.len()` when
/// there is none.
pub open spec fn trim_start(s: Seq<char>) -> int
    decreases s.len(),
{
    if s.len() == 0 || !char_is_whitespace(s[0]) {
        0
    } else {
        1 + trim_start(s.subrange(1, s.len() as int))
    }
}

/// One past the index of the last character of `s` that is not white space,
/// `0` when there is none.
pub open spec fn trim_end(s: Seq<char>) -> int
    decreases s.len(),
{
    if s.len() == 0 || !char_is_whitespace(s[s.len() - 1]) {
        s.len() as int
    } else {
        trim_end(s.subrange(0, s.len() - 1))
    }
}

/// `s` without its leading and trailing white space.
pub open spec fn trimmed(s: Seq<char>) -> Seq<char> {
    if trim_start(s) >= trim_end(s) {
        Seq::<char>::empty()
    } else {
        s.subrange(trim_start(s), trim_end(s))
    }
}

/// The two trim indices lie inside the text; before the first and from the
/// second on there is white space only, and next to them inside there is
/// none.
pub proof fn lemma_trim_bounds(s: Seq<char>)
    ensures
        0 <= trim_start(s) <= s.len(),
        0 <= trim_end(s) <= s.len(),
        forall|i: int| 0 <= i < trim_start(s) ==> char_is_whitespace(#[trigger] s[i]),
        forall|i: int| trim_end(s) <= i < s.len() ==> char_is_whitespace(#[trigger] s[i]),
        trim_start(s) < s.len() ==> !char_is_whitespace(s[trim_start(s)]),
        trim_end(s) > 0 ==> !char_is_whitespace(s[trim_end(s) - 1]),
    decreases s.len(),
{
    if s.len() > 0 {
        if char_is_whitespace(s[0]) {
            let rest = s.subrange(1, s.len() as int);
            lemma_trim_bounds(rest);
            assert forall|i: int| 0 <= i < trim_start(s) implies char_is_whitespace(
                #[trigger] s[i],
            ) by {
                if i > 0 {
                    assert(s[i] == rest[i - 1]);
                }
            }
            if trim_start(s) < s.len() {
                assert(s[trim_start(s)] == rest[trim_start(rest)]);
            }
        }
        if char_is_whitespace(s[s.len() - 1]) {
            let front = s.subrange(0, s.len() - 1);
            lemma_trim_bounds(front);
            assert forall|i: int| trim_end(s) <= i < s.len() implies char_is_whitespace(
                #[trigger] s[i],
            ) by {
                if i < s.len() - 1 {
                    assert(s[i] == front[i]);
                }
            }
            if trim_end(s) > 0 {
                assert(s[trim_end(s) - 1] == front[trim_end(front) - 1]);
            }
        }
    }
}

/// The two trim indices are the only ones with the properties that
/// `lemma_trim_bounds` states.
pub proof fn lemma_trim_unique(s: Seq<char>, a: int, b: int)
    requires
        0 <= a <= s.len(),
        0 <= b <= s.len(),
        forall|i: int| 0 <= i < a ==> char_is_whitespace(#[trigger] s[i]),
        a < s.len() ==> !char_is_whitespace(s[a]),
        forall|i: int| b <= i < s.len() ==> char_is_whitespace(#[trigger] s[i]),
        b > 0 ==> !char_is_whitespace(s[b - 1]),
    ensures
        a == trim_start(s),
        b == trim_end(s),
{
    lemma_trim_bounds(s);
    let ts = trim_start(s);
    let te = trim_end(s);
    if a < ts {
        assert(char_is_whitespace(s[a]));
    }
    if ts < a {
        assert(char_is_whitespace(s[ts]));
    }
    if b < te {
        assert(char_is_whitespace(s[te - 1]));
    }
    if te < b {
        assert(char_is_whitespace(s[b - 1]));
    }
}

/// The characters of `chars[from..to]` without leading and trailing white
/// space.
pub fn trim_chars(chars: &[char], from: usize, to: usize) -> (s: String)
    requires
        from <= to <= chars@.len(),
    ensures
        s@ == trimmed(chars@.subrange(from as int, to as int)),
{
    let ghost part = chars@.subrange(from as int, to as int);
    let mut a: usize = from;
    while a < to && chars[a].is_whitespace()
        invariant
            from <= a <= to <= chars@.len(),
            part == chars@.subrange(from as int, to as int),
            forall|i: int| 0 <= i < a - from ==> char_is_whitespace(#[trigger] part[i]),
        decreases to - a,
    {
        a = a + 1;
    }
    let mut b: usize = to;
    while b > from && chars[b - 1].is_whitespace()
        invariant
            from <= b <= to <= chars@.len(),
            part == chars@.subrange(from as int, to as int),
            forall|i: int| b - from <= i < part.len() ==> char_is_whitespace(#[trigger] part[i]),
        decreases b,
    {
        b = b - 1;
    }
    proof {
        lemma_trim_unique(part, a - from, b - from);
    }
    if a >= b {
        String::new()
    } else {
        let s = string_from_chars(chars, a, b);
        assert(s@ =~= part.subrange(a - from, b - from));
        s
    }
}

} // verus!
