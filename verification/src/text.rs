//! Text as sequences of characters: decimal numbers, searching, trimming
//! and splitting, with the conversions to and from `String`.

use std::string::FromUtf8Error;
use vstd::prelude::*;
use vstd::string::*;
use vstd::utf8::{
    char_u32_cast, decode_utf8, encode_scalar, encode_utf8, has_width_1_encoding, valid_utf8,
};

verus! {

/// `String::push` appends one character to the end of the string.
pub assume_specification[ String::push ](s: &mut String, c: char)
    ensures
        final(s)@ == old(s)@.push(c),
;

/// The characters of a string, in order.
pub fn chars_of(s: &str) -> (v: Vec<char>)
    ensures
        v@ == s@,
{
    let mut v: Vec<char> = Vec::new();
    for c in it: s.chars()
        invariant
            it.seq() == s@,
            v@ == it.seq().take(it.index() as int),
    {
        v.push(c);
    }
    assert(v@ =~= s@);
    v
}

/// Appends the characters `chars[from..to]` to `out`.
pub fn push_chars(out: &mut String, chars: &[char], from: usize, to: usize)
    requires
        from <= to <= chars@.len(),
    ensures
        final(out)@ == old(out)@ + chars@.subrange(from as int, to as int),
{
    let mut i: usize = from;
    while i < to
        invariant
            from <= i <= to <= chars@.len(),
            out@ == old(out)@ + chars@.subrange(from as int, i as int),
        decreases to - i,
    {
        out.push(chars[i]);
        i += 1;
        assert(out@ =~= old(out)@ + chars@.subrange(from as int, i as int));
    }
}

/// The string made of the characters `chars[from..to]`.
pub fn string_of(chars: &[char], from: usize, to: usize) -> (s: String)
    requires
        from <= to <= chars@.len(),
    ensures
        s@ == chars@.subrange(from as int, to as int),
{
    let mut s = String::new();
    push_chars(&mut s, chars, from, to);
    s
}

/// The decimal digit `d` as a character.
pub open spec fn digit_char(d: nat) -> char {
    (d + 48) as char
}

/// True for the ten decimal digits `0` to `9`.
pub open spec fn is_digit(c: char) -> bool {
    '0' <= c <= '9'
}

/// The shortest decimal numeral of `n`: no sign, no leading zero.
pub open spec fn decimal_text(n: nat) -> Seq<char>
    decreases n,
{
    if n < 10 {
        seq![digit_char(n)]
    } else {
        decimal_text(n / 10).push(digit_char(n % 10))
    }
}

/// True if `s` holds decimal digits only.
pub open spec fn all_digits(s: Seq<char>) -> bool {
    forall|i: int| 0 <= i < s.len() ==> is_digit(#[trigger] s[i])
}

/// The number that a sequence of decimal digits denotes; 0 for the empty
/// sequence.
pub open spec fn digits_value(s: Seq<char>) -> nat
    decreases s.len(),
{
    if s.len() == 0 {
        0
    } else {
        (digits_value(s.drop_last()) * 10 + (s.last() as int - 48)) as nat
    }
}

/// The digits of a numeral: the text itself, without one leading `+` if it
/// has one.
pub open spec fn numeral_digits(s: Seq<char>) -> Seq<char> {
    if s.len() > 0 && s[0] == '+' {
        s.drop_first()
    } else {
        s
    }
}

/// The value of an unsigned decimal numeral: an optional `+`, then one or
/// more digits and nothing else. `None` for any other text.
pub open spec fn parse_decimal(s: Seq<char>) -> Option<nat> {
    let digits = numeral_digits(s);
    if digits.len() > 0 && all_digits(digits) {
        Some(digits_value(digits))
    } else {
        None
    }
}

/// The value of an unsigned decimal numeral that is at most `max`.
pub open spec fn parse_decimal_up_to(s: Seq<char>, max: nat) -> Option<nat> {
    match parse_decimal(s) {
        Some(v) => if v <= max {
            Some(v)
        } else {
            None
        },
        None => None,
    }
}

/// A numeral written by `decimal_text` is made of digits, at least one.
pub proof fn lemma_decimal_text_digits(n: nat)
    ensures
        decimal_text(n).len() > 0,
        all_digits(decimal_text(n)),
    decreases n,
{
    if n >= 10 {
        lemma_decimal_text_digits(n / 10);
    }
}

/// The digits written for `n` denote `n`.
pub proof fn lemma_decimal_text_value(n: nat)
    ensures
        digits_value(decimal_text(n)) == n,
    decreases n,
{
    if n < 10 {
        let s = decimal_text(n);
        assert(s.drop_last() =~= Seq::<char>::empty());
        assert(digits_value(s.drop_last()) == 0);
    } else {
        lemma_decimal_text_value(n / 10);
        let s = decimal_text(n);
        assert(s.drop_last() =~= decimal_text(n / 10));
    }
}

/// Reading back a numeral written by `decimal_text` gives the number.
pub proof fn lemma_decimal_round_trip(n: nat)
    ensures
        parse_decimal(decimal_text(n)) == Some(n),
{
    lemma_decimal_text_digits(n);
    lemma_decimal_text_value(n);
    assert(is_digit(decimal_text(n)[0]));
}

/// A longer run of digits denotes at least as much as its prefix.
pub proof fn lemma_digits_value_prefix(s: Seq<char>, k: int)
    requires
        all_digits(s),
        0 <= k <= s.len(),
    ensures
        digits_value(s.take(k)) <= digits_value(s),
    decreases s.len() - k,
{
    if k < s.len() {
        lemma_digits_value_prefix(s, k + 1);
        assert(s.take(k + 1).drop_last() =~= s.take(k));
        assert(is_digit(s[k]));
    } else {
        assert(s.take(k) =~= s);
    }
}

/// Appends the decimal numeral of `n` to `out`.
pub fn push_decimal(out: &mut String, n: u64)
    ensures
        final(out)@ == old(out)@ + decimal_text(n as nat),
    decreases n,
{
    if n >= 10 {
        push_decimal(out, n / 10);
    }
    let d: u8 = (n % 10) as u8;
    out.push((d + 48) as char);
    assert(out@ =~= old(out)@ + decimal_text(n as nat));
}

/// Reads `chars[from..to]` as an unsigned decimal numeral of at most `max`.
pub fn parse_number(chars: &[char], from: usize, to: usize, max: u32) -> (r: Option<u32>)
    requires
        from <= to <= chars@.len(),
    ensures
        r is Some <==> parse_decimal_up_to(chars@.subrange(from as int, to as int), max as nat) is Some,
        r is Some ==> r->0 as nat == parse_decimal_up_to(
            chars@.subrange(from as int, to as int),
            max as nat,
        )->0,
{
    let ghost s = chars@.subrange(from as int, to as int);
    let start: usize = if from < to && chars[from] == '+' {
        from + 1
    } else {
        from
    };
    let ghost digits = numeral_digits(s);
    assert(digits =~= chars@.subrange(start as int, to as int));
    if start == to {
        return None;
    }
    let mut value: u64 = 0;
    let mut i: usize = start;
    while i < to
        invariant
            start <= i <= to <= chars@.len(),
            digits == chars@.subrange(start as int, to as int),
            digits == numeral_digits(chars@.subrange(from as int, to as int)),
            digits.len() > 0,
            all_digits(digits.take(i - start)),
            value == digits_value(digits.take(i - start)),
            value <= max,
        decreases to - i,
    {
        let c = chars[i];
        assert(c == digits[i - start]);
        if !('0' <= c && c <= '9') {
            assert(!is_digit(digits[i - start]));
            return None;
        }
        let d: u64 = ((c as u32) - 48) as u64;
        let next: u64 = value * 10 + d;
        proof {
            let p = digits.take(i - start + 1);
            assert(p.drop_last() =~= digits.take(i - start));
            assert(p.last() == c);
            assert(digits_value(p) == next);
            assert forall|j: int| 0 <= j < p.len() implies is_digit(#[trigger] p[j]) by {
                if j < i - start {
                    assert(p[j] == digits.take(i - start)[j]);
                }
            }
        }
        if next > max as u64 {
            proof {
                if all_digits(digits) {
                    lemma_digits_value_prefix(digits, i - start + 1);
                }
            }
            return None;
        }
        value = next;
        i += 1;
    }
    assert(digits.take(i - start) =~= digits);
    Some(value as u32)
}

/// What `String::from_utf8_lossy` makes of bytes that are not valid UTF-8:
/// the text in which each invalid sequence is replaced by U+FFFD.
pub uninterp spec fn lossy_text(bytes: Seq<u8>) -> Seq<char>;

/// The text that bytes stand for when nothing is rejected: the characters
/// they encode if they are valid UTF-8, else the text with replacement
/// characters.
pub open spec fn text_lossy(bytes: Seq<u8>) -> Seq<char> {
    if valid_utf8(bytes) {
        decode_utf8(bytes)
    } else {
        lossy_text(bytes)
    }
}

/// `String::from_utf8_lossy`, made an owned string: valid UTF-8 is decoded
/// as it is, anything else comes with replacement characters.
#[verifier::external_body]
pub(crate) fn from_utf8_lossy(bytes: &[u8]) -> (s: String)
    ensures
        s@ == (if valid_utf8(bytes@) {
            decode_utf8(bytes@)
        } else {
            lossy_text(bytes@)
        }),
{
    String::from_utf8_lossy(bytes).into_owned()
}

/// `String::from_utf8` gives the string that the bytes encode if they are
/// valid UTF-8, and an error otherwise.
pub assume_specification[ String::from_utf8 ](bytes: Vec<u8>) -> (r: Result<String, FromUtf8Error>)
    ensures
        r is Ok <==> valid_utf8(bytes@),
        r is Ok ==> r->Ok_0@ == decode_utf8(bytes@),
;

/// The UTF-8 encoding of a scalar value other than zero holds no zero byte.
pub proof fn lemma_scalar_has_no_zero_byte(v: u32)
    requires
        v != 0,
    ensures
        forall|i: int| 0 <= i < encode_scalar(v).len() ==> encode_scalar(v)[i] != 0u8,
{
    if has_width_1_encoding(v) {
        assert((v & 0x7F) as u8 != 0u8) by (bit_vector)
            requires
                0 < v <= 0x7F,
        ;
    }
    assert(0xC0u8 | ((v >> 6) & 0x1F) as u8 != 0u8) by (bit_vector);
    assert(0xE0u8 | ((v >> 12) & 0x0F) as u8 != 0u8) by (bit_vector);
    assert(0xF0u8 | ((v >> 18) & 0x7) as u8 != 0u8) by (bit_vector);
    assert(0x80u8 | (v & 0x3F) as u8 != 0u8) by (bit_vector);
    assert(0x80u8 | ((v >> 6) & 0x3F) as u8 != 0u8) by (bit_vector);
    assert(0x80u8 | ((v >> 12) & 0x3F) as u8 != 0u8) by (bit_vector);
}

/// The UTF-8 encoding of a text without a NUL character holds no zero byte.
pub proof fn lemma_text_has_no_zero_byte(s: Seq<char>)
    requires
        !s.contains('\0'),
    ensures
        !encode_utf8(s).contains(0u8),
    decreases s.len(),
{
    if s.len() > 0 {
        let head = encode_scalar(s[0] as u32);
        let tail = encode_utf8(s.drop_first());
        assert(s[0] != '\0') by {
            if s[0] == '\0' {
                assert(s.contains('\0'));
            }
        }
        assert(!s.drop_first().contains('\0')) by {
            if s.drop_first().contains('\0') {
                let k = choose|k: int| 0 <= k < s.drop_first().len() && s.drop_first()[k] == '\0';
                assert(s[k + 1] == '\0');
                assert(s.contains('\0'));
            }
        }
        let v = s[0] as u32;
        assert(v != 0) by {
            char_u32_cast(s[0], v);
            char_u32_cast('\0', 0u32);
        }
        lemma_scalar_has_no_zero_byte(v);
        lemma_text_has_no_zero_byte(s.drop_first());
        assert forall|i: int| 0 <= i < encode_utf8(s).len() implies encode_utf8(s)[i] != 0u8 by {
            if i >= head.len() {
                assert(encode_utf8(s)[i] == tail[i - head.len()]);
                if tail[i - head.len()] == 0u8 {
                    assert(tail.contains(0u8));
                }
            }
        }
    }
}

/// The index of the first `c` in `s`, or the length of `s` if it holds none.
pub open spec fn index_of<T>(s: Seq<T>, c: T) -> int
    decreases s.len(),
{
    if s.len() == 0 || s[0] == c {
        0
    } else {
        1 + index_of(s.drop_first(), c)
    }
}

/// `index_of` gives a position in or just behind `s`, with no `c` before it
/// and `c` at it if it is inside.
pub proof fn lemma_index_of<T>(s: Seq<T>, c: T)
    ensures
        0 <= index_of(s, c) <= s.len(),
        forall|k: int| 0 <= k < index_of(s, c) ==> s[k] != c,
        index_of(s, c) < s.len() ==> s[index_of(s, c)] == c,
    decreases s.len(),
{
    if !(s.len() == 0 || s[0] == c) {
        let t = s.drop_first();
        lemma_index_of(t, c);
        assert forall|k: int| 0 <= k < index_of(s, c) implies s[k] != c by {
            if k > 0 {
                assert(s[k] == t[k - 1]);
            }
        }
    }
}

/// A position with no `c` before it, which is the end of `s` or holds `c`,
/// is the one that `index_of` gives.
pub proof fn lemma_index_of_is<T>(s: Seq<T>, c: T, i: int)
    requires
        0 <= i <= s.len(),
        forall|k: int| 0 <= k < i ==> s[k] != c,
        i < s.len() ==> s[i] == c,
    ensures
        index_of(s, c) == i,
{
    lemma_index_of(s, c);
    let j = index_of(s, c);
    if j < i {
        assert(s[j] != c);
    } else if i < j {
        assert(s[i] != c);
    }
}

/// The position in `chars[from..to]` of the first `c`, counted from the
/// start of `chars`; `to` if there is none.
pub fn find_char(chars: &[char], from: usize, to: usize, c: char) -> (i: usize)
    requires
        from <= to <= chars@.len(),
    ensures
        from <= i <= to,
        i - from == index_of(chars@.subrange(from as int, to as int), c),
{
    let ghost s = chars@.subrange(from as int, to as int);
    let mut i: usize = from;
    while i < to && chars[i] != c
        invariant
            from <= i <= to <= chars@.len(),
            s == chars@.subrange(from as int, to as int),
            forall|k: int| 0 <= k < i - from ==> s[k] != c,
        decreases to - i,
    {
        assert(s[i - from] == chars@[i as int]);
        i += 1;
    }
    proof {
        if i < to {
            assert(s[i - from] == chars@[i as int]);
        }
        lemma_index_of_is(s, c, i - from);
    }
    i
}

/// True if `chars[from..to]` begins with the characters of `prefix`.
pub fn has_prefix(chars: &[char], from: usize, to: usize, prefix: &str) -> (b: bool)
    requires
        from <= to <= chars@.len(),
    ensures
        b == prefix@.is_prefix_of(chars@.subrange(from as int, to as int)),
{
    let p = chars_of(prefix);
    let ghost s = chars@.subrange(from as int, to as int);
    if p.len() > to - from {
        return false;
    }
    let mut i: usize = 0;
    while i < p.len()
        invariant
            i <= p@.len() <= to - from,
            from <= to <= chars@.len(),
            p@ == prefix@,
            s == chars@.subrange(from as int, to as int),
            forall|k: int| 0 <= k < i ==> p@[k] == s[k],
        decreases p.len() - i,
    {
        if p[i] != chars[from + i] {
            assert(s[i as int] != p@[i as int]);
            assert(s.subrange(0, p@.len() as int)[i as int] != p@[i as int]);
            return false;
        }
        assert(s[i as int] == chars@[from + i]);
        i += 1;
    }
    assert(p@ =~= s.subrange(0, p@.len() as int));
    true
}

/// The parts written one after another, with one space between each two.
pub open spec fn join_with_space(parts: Seq<Seq<char>>) -> Seq<char>
    decreases parts.len(),
{
    if parts.len() == 0 {
        Seq::empty()
    } else if parts.len() == 1 {
        parts[0]
    } else {
        join_with_space(parts.drop_last()) + seq![' '] + parts.last()
    }
}

/// The list that holds `flag` if `on` is set, and nothing otherwise.
pub open spec fn flag_if(on: bool, flag: Seq<char>) -> Seq<Seq<char>> {
    if on {
        seq![flag]
    } else {
        Seq::empty()
    }
}

/// True if no part is empty.
pub open spec fn no_empty_part(parts: Seq<Seq<char>>) -> bool {
    forall|i: int| 0 <= i < parts.len() ==> (#[trigger] parts[i]).len() > 0
}

/// Parts that are not empty join to a text that is empty only if there is
/// no part.
pub proof fn lemma_join_empty(parts: Seq<Seq<char>>)
    requires
        no_empty_part(parts),
    ensures
        join_with_space(parts).len() == 0 <==> parts.len() == 0,
{
    if parts.len() == 1 {
        assert(parts[0].len() > 0);
    }
}

/// Appends `part` to the joined text `out` of `parts`, after a space if
/// there is a part before it.
pub(crate) fn push_part(out: &mut String, Ghost(parts): Ghost<Seq<Seq<char>>>, part: &str)
    requires
        old(out)@ == join_with_space(parts),
        no_empty_part(parts),
        part@.len() > 0,
    ensures
        final(out)@ == join_with_space(parts.push(part@)),
        no_empty_part(parts.push(part@)),
{
    proof {
        lemma_join_empty(parts);
        assert(parts.push(part@).drop_last() =~= parts);
    }
    if !out.as_str().is_empty() {
        out.push(' ');
    }
    out.append(part);
    assert(out@ =~= join_with_space(parts.push(part@)));
}

/// True for the characters that Unicode lists as white space.
pub open spec fn is_space(c: char) -> bool {
    ||| '\u{9}' <= c <= '\u{d}'
    ||| c == ' '
    ||| c == '\u{85}'
    ||| c == '\u{a0}'
    ||| c == '\u{1680}'
    ||| '\u{2000}' <= c <= '\u{200a}'
    ||| c == '\u{2028}'
    ||| c == '\u{2029}'
    ||| c == '\u{202f}'
    ||| c == '\u{205f}'
    ||| c == '\u{3000}'
}

/// True if `c` is white space.
pub fn is_white_space(c: char) -> (b: bool)
    ensures
        b == is_space(c),
{
    ('\u{9}' <= c && c <= '\u{d}') || c == ' ' || c == '\u{85}' || c == '\u{a0}' || c
        == '\u{1680}' || ('\u{2000}' <= c && c <= '\u{200a}') || c == '\u{2028}' || c
        == '\u{2029}' || c == '\u{202f}' || c == '\u{205f}' || c == '\u{3000}'
}

/// The number of white-space characters at the start of `s`.
pub open spec fn leading_space(s: Seq<char>) -> int
    decreases s.len(),
{
    if s.len() > 0 && is_space(s[0]) {
        1 + leading_space(s.drop_first())
    } else {
        0
    }
}

/// The number of white-space characters at the end of `s`.
pub open spec fn trailing_space(s: Seq<char>) -> int
    decreases s.len(),
{
    if s.len() > 0 && is_space(s.last()) {
        1 + trailing_space(s.drop_last())
    } else {
        0
    }
}

/// `s` without the white space at its start and at its end.
pub open spec fn trimmed(s: Seq<char>) -> Seq<char> {
    let t = s.skip(leading_space(s));
    t.take(t.len() - trailing_space(t))
}

/// A run of `i` white-space characters at the start of `s` that ends `s` or
/// is followed by another character is all the leading white space.
pub proof fn lemma_leading_space_is(s: Seq<char>, i: int)
    requires
        0 <= i <= s.len(),
        forall|k: int| 0 <= k < i ==> is_space(s[k]),
        i < s.len() ==> !is_space(s[i]),
    ensures
        leading_space(s) == i,
    decreases s.len(),
{
    if i > 0 {
        let t = s.drop_first();
        assert forall|k: int| 0 <= k < i - 1 implies is_space(t[k]) by {
            assert(t[k] == s[k + 1]);
        }
        lemma_leading_space_is(t, i - 1);
    }
}

/// A run of `i` white-space characters at the end of `s` that is all of `s`
/// or is preceded by another character is all the trailing white space.
pub proof fn lemma_trailing_space_is(s: Seq<char>, i: int)
    requires
        0 <= i <= s.len(),
        forall|k: int| s.len() - i <= k < s.len() ==> is_space(s[k]),
        i < s.len() ==> !is_space(s[s.len() - i - 1]),
    ensures
        trailing_space(s) == i,
    decreases s.len(),
{
    if i > 0 {
        let t = s.drop_last();
        assert forall|k: int| t.len() - (i - 1) <= k < t.len() implies is_space(t[k]) by {
            assert(t[k] == s[k]);
        }
        lemma_trailing_space_is(t, i - 1);
    }
}

/// The bounds of `chars[from..to]` without the white space at its ends.
pub fn trim_range(chars: &[char], from: usize, to: usize) -> (r: (usize, usize))
    requires
        from <= to <= chars@.len(),
    ensures
        from <= r.0 <= r.1 <= to,
        chars@.subrange(r.0 as int, r.1 as int) == trimmed(chars@.subrange(from as int, to as int)),
{
    let ghost s = chars@.subrange(from as int, to as int);
    let mut a: usize = from;
    while a < to && is_white_space(chars[a])
        invariant
            from <= a <= to <= chars@.len(),
            s == chars@.subrange(from as int, to as int),
            forall|k: int| 0 <= k < a - from ==> is_space(s[k]),
        decreases to - a,
    {
        assert(s[a - from] == chars@[a as int]);
        a += 1;
    }
    proof {
        if a < to {
            assert(s[a - from] == chars@[a as int]);
        }
        lemma_leading_space_is(s, a - from);
    }
    let ghost t = s.skip(a - from);
    assert(t =~= chars@.subrange(a as int, to as int));
    let mut b: usize = to;
    while a < b && is_white_space(chars[b - 1])
        invariant
            from <= a <= b <= to <= chars@.len(),
            t == chars@.subrange(a as int, to as int),
            forall|k: int| b - a <= k < t.len() ==> is_space(t[k]),
        decreases b - a,
    {
        assert(t[b - 1 - a] == chars@[b - 1]);
        b -= 1;
    }
    proof {
        if a < b {
            assert(t[b - 1 - a] == chars@[b - 1]);
        }
        lemma_trailing_space_is(t, to - b);
        assert(chars@.subrange(a as int, b as int) =~= t.take(t.len() - (to - b)));
    }
    (a, b)
}

/// The lines of `s` that hold more than white space, each without the white
/// space at its ends. Lines end at a line feed; a carriage return before it
/// is white space and falls away with the rest.
pub open spec fn device_lines(s: Seq<char>) -> Seq<Seq<char>>
    decreases s.len(),
{
    let end = index_of(s, '\n');
    let line = trimmed(s.take(end));
    let rest = if 0 <= end < s.len() {
        device_lines(s.skip(end + 1))
    } else {
        Seq::empty()
    };
    if line.len() > 0 {
        seq![line] + rest
    } else {
        rest
    }
}

/// The texts that a list of strings holds.
pub open spec fn texts(v: Seq<String>) -> Seq<Seq<char>> {
    Seq::new(v.len(), |i: int| v[i]@)
}

/// Splits `s` into its lines, trims each and keeps those that are not
/// empty.
pub fn split_lines(s: &str) -> (lines: Vec<String>)
    ensures
        texts(lines@) == device_lines(s@),
{
    let chars = chars_of(s);
    let n = chars.len();
    let mut lines: Vec<String> = Vec::new();
    let mut start: usize = 0;
    let mut done = false;
    assert(chars@.skip(0) =~= s@);
    assert(texts(lines@) =~= Seq::<Seq<char>>::empty());
    while !done
        invariant
            start <= n == chars@.len(),
            chars@ == s@,
            !done ==> texts(lines@) + device_lines(chars@.skip(start as int)) == device_lines(s@),
            done ==> texts(lines@) == device_lines(s@),
        decreases n - start + (if done { 0int } else { 1int }),
    {
        let ghost tail = chars@.skip(start as int);
        let ghost before = texts(lines@);
        assert(chars@.subrange(start as int, n as int) =~= tail);
        let end = find_char(&chars, start, n, '\n');
        assert(chars@.subrange(start as int, end as int) =~= tail.take(end - start));
        let (a, b) = trim_range(&chars, start, end);
        if a < b {
            let line = string_of(&chars, a, b);
            lines.push(line);
            assert(texts(lines@) =~= before + seq![line@]);
        }
        if end < n {
            assert(tail.skip(end - start + 1) =~= chars@.skip(end + 1));
            start = end + 1;
            assert(texts(lines@) + device_lines(chars@.skip(start as int)) =~= before
                + device_lines(tail));
        } else {
            done = true;
            assert(texts(lines@) =~= before + device_lines(tail));
        }
    }
    lines
}

/// True if `needle` stands in `hay` at position `i`.
pub open spec fn occurs_at(hay: Seq<char>, needle: Seq<char>, i: int) -> bool {
    0 <= i && i + needle.len() <= hay.len() && hay.subrange(i, i + needle.len()) == needle
}

/// True if `needle` stands somewhere in `hay`.
pub open spec fn has_text(hay: Seq<char>, needle: Seq<char>) -> bool {
    exists|i: int| occurs_at(hay, needle, i)
}

/// True if `i` is the first position at which `needle` stands in `hay`.
pub open spec fn first_occurrence(hay: Seq<char>, needle: Seq<char>, i: int) -> bool {
    occurs_at(hay, needle, i) && forall|j: int| 0 <= j < i ==> !occurs_at(hay, needle, j)
}

/// The first position at which `needle` stands in `hay`; the length of `hay`
/// if it stands nowhere.
pub open spec fn find_text(hay: Seq<char>, needle: Seq<char>) -> int {
    if has_text(hay, needle) {
        choose|i: int| first_occurrence(hay, needle, i)
    } else {
        hay.len() as int
    }
}

/// A first position of `needle` in `hay` is the one that `find_text` gives.
pub proof fn lemma_find_text_is(hay: Seq<char>, needle: Seq<char>, i: int)
    requires
        first_occurrence(hay, needle, i),
    ensures
        has_text(hay, needle),
        find_text(hay, needle) == i,
{
    let c = find_text(hay, needle);
    assert(first_occurrence(hay, needle, c));
    if c < i {
        assert(!occurs_at(hay, needle, c));
    } else if i < c {
        assert(!occurs_at(hay, needle, i));
    }
}

/// True if `needle` stands in `chars` at position `at`.
fn matches_at(chars: &[char], to: usize, needle: &[char], at: usize) -> (b: bool)
    requires
        to <= chars@.len(),
        at + needle@.len() <= to,
    ensures
        b == (chars@.subrange(at as int, at + needle@.len()) == needle@),
{
    let mut k: usize = 0;
    while k < needle.len()
        invariant
            k <= needle@.len(),
            at + needle@.len() <= to <= chars@.len(),
            forall|j: int| 0 <= j < k ==> chars@[at + j] == needle@[j],
        decreases needle@.len() - k,
    {
        if chars[at + k] != needle[k] {
            assert(chars@.subrange(at as int, at + needle@.len())[k as int] != needle@[k as int]);
            return false;
        }
        k += 1;
    }
    assert(chars@.subrange(at as int, at + needle@.len()) =~= needle@);
    true
}

/// The first position in `chars[from..to]` at which `needle` stands,
/// counted from `from`; `None` if it stands nowhere in it.
pub fn find_in(chars: &[char], from: usize, to: usize, needle: &[char]) -> (r: Option<usize>)
    requires
        from <= to <= chars@.len(),
    ensures
        r is Some <==> has_text(chars@.subrange(from as int, to as int), needle@),
        r is Some ==> first_occurrence(
            chars@.subrange(from as int, to as int),
            needle@,
            r->0 as int,
        ),
{
    let ghost hay = chars@.subrange(from as int, to as int);
    if needle.len() > to - from {
        assert forall|i: int| !occurs_at(hay, needle@, i) by {}
        return None;
    }
    if needle.len() == 0 {
        assert(hay.subrange(0, 0) =~= needle@);
        assert(occurs_at(hay, needle@, 0));
        return Some(0);
    }
    let last: usize = to - from - needle.len();
    let mut i: usize = 0;
    while i <= last
        invariant
            from <= to <= chars@.len(),
            0 < needle@.len() <= to - from,
            last == to - from - needle@.len(),
            i <= last + 1,
            hay == chars@.subrange(from as int, to as int),
            forall|j: int| 0 <= j < i ==> !occurs_at(hay, needle@, j),
        decreases last + 1 - i,
    {
        let found = matches_at(chars, to, needle, from + i);
        assert(hay.subrange(i as int, i + needle@.len()) =~= chars@.subrange(
            from + i,
            from + i + needle@.len(),
        ));
        if found {
            assert(occurs_at(hay, needle@, i as int));
            return Some(i);
        }
        i += 1;
    }
    assert forall|j: int| !occurs_at(hay, needle@, j) by {}
    None
}

/// True if the text `needle` stands somewhere in `chars`.
pub fn contains_text(chars: &[char], needle: &str) -> (b: bool)
    ensures
        b == has_text(chars@, needle@),
{
    let pattern = chars_of(needle);
    let n = chars.len();
    assert(chars@.subrange(0, n as int) =~= chars@);
    find_in(chars, 0, n, pattern.as_slice()).is_some()
}

} // verus!
