//! Texts as sequences of characters.

use vstd::prelude::*;

verus! {

/// What `String::push` does, by its documentation: it appends the character
/// to the end of the string.
pub assume_specification[ std::string::String::push ](s: &mut std::string::String, ch: char)
    ensures
        final(s)@ == old(s)@.push(ch),
;

/// What `==` on string slices means, by the documentation of `str`: the two
/// slices hold the same characters.
pub assume_specification[ <str as PartialEq>::eq ](a: &str, b: &str) -> (same: bool)
    ensures
        same == (a@ == b@),
;

/// The characters of `s`, in order.
pub fn chars_of(s: &str) -> (chars: Vec<char>)
    ensures
        chars@ == s@,
{
    let mut chars: Vec<char> = Vec::new();
    for c in it: s.chars()
        invariant
            it.seq() == s@,
            chars@ == it.seq().take(it.index() as int),
    {
        chars.push(c);
    }
    chars
}

/// The text made of `chars[from..to]`.
pub fn text_of(chars: &Vec<char>, from: usize, to: usize) -> (s: String)
    requires
        from <= to <= chars.len(),
    ensures
        s@ == chars@.subrange(from as int, to as int),
{
    let mut s = String::new();
    let mut i: usize = from;
    while i < to
        invariant
            from <= i <= to <= chars.len(),
            s@ == chars@.subrange(from as int, i as int),
        decreases to - i,
    {
        s.push(chars[i]);
        i += 1;
    }
    s
}

/// The character of the decimal digit `d`.
pub open spec fn digit_of(d: int) -> char {
    (d + 48) as char
}

/// The decimal digit that the character `c` stands for.
pub open spec fn digit_value(c: char) -> int {
    c as int - 48
}

/// Whether `c` is a decimal digit of ASCII.
pub open spec fn is_decimal_digit(c: char) -> bool {
    '0' <= c && c <= '9'
}

/// `n` in decimal digits, without leading zeros.
pub open spec fn decimal(n: nat) -> Seq<char>
    decreases n,
{
    if n < 10 {
        seq![digit_of(n as int)]
    } else {
        decimal(n / 10).push(digit_of((n % 10) as int))
    }
}

/// `n` in decimal digits, after a minus sign where it is negative.
pub open spec fn signed_decimal(n: int) -> Seq<char> {
    if n < 0 {
        seq!['-'] + decimal((-n) as nat)
    } else {
        decimal(n as nat)
    }
}

/// The number that the decimal digits `digits` write.
pub open spec fn number_of(digits: Seq<char>) -> nat
    decreases digits.len(),
{
    if digits.len() == 0 {
        0
    } else {
        (number_of(digits.drop_last()) * 10 + digit_value(digits.last())) as nat
    }
}

/// Whether `digits` is one decimal digit or more, and nothing else.
pub open spec fn is_number(digits: Seq<char>) -> bool {
    digits.len() > 0 && forall|i: int| 0 <= i < digits.len() ==> is_decimal_digit(#[trigger] digits[i])
}

/// Appends `n` in decimal digits to `out`.
pub fn push_decimal(out: &mut String, n: u64)
    ensures
        final(out)@ == old(out)@ + decimal(n as nat),
    decreases n,
{
    if n >= 10 {
        push_decimal(out, n / 10);
    }
    let digit: u8 = (n % 10) as u8;
    out.push((digit + 48) as char);
    assert(out@ =~= old(out)@ + decimal(n as nat));
}

/// `n` in decimal digits.
pub fn decimal_text(n: u64) -> (text: String)
    ensures
        text@ == decimal(n as nat),
{
    let mut text = String::new();
    push_decimal(&mut text, n);
    assert(text@ =~= decimal(n as nat));
    text
}

/// `n` in decimal digits, after a minus sign where it is negative.
pub fn signed_decimal_text(n: i32) -> (text: String)
    ensures
        text@ == signed_decimal(n as int),
{
    let mut text = String::new();
    if n < 0 {
        text.push('-');
        let magnitude: u64 = (-(n as i64)) as u64;
        push_decimal(&mut text, magnitude);
    } else {
        push_decimal(&mut text, n as u64);
    }
    assert(text@ =~= signed_decimal(n as int));
    text
}

/// Whether `c` is white space as Unicode defines it.
pub open spec fn is_white_space(c: char) -> bool {
    ('\u{9}' <= c && c <= '\u{d}') || c == ' ' || c == '\u{85}' || c == '\u{a0}' || c
        == '\u{1680}' || ('\u{2000}' <= c && c <= '\u{200a}') || c == '\u{2028}' || c
        == '\u{2029}' || c == '\u{202f}' || c == '\u{205f}' || c == '\u{3000}'
}

/// Where the white space that starts at `i` ends.
pub open spec fn white_end(text: Seq<char>, i: int) -> int
    decreases text.len() - i,
{
    if 0 <= i < text.len() && is_white_space(text[i]) {
        white_end(text, i + 1)
    } else {
        i
    }
}

/// Where the white space that ends before `j` starts.
pub open spec fn white_start(text: Seq<char>, j: int) -> int
    decreases j,
{
    if 0 < j <= text.len() && is_white_space(text[j - 1]) {
        white_start(text, j - 1)
    } else {
        j
    }
}

/// `text` without the white space at its start and at its end.
pub open spec fn trimmed(text: Seq<char>) -> Seq<char> {
    let start = white_end(text, 0);
    let stop = white_start(text, text.len() as int);
    if start < stop {
        text.subrange(start, stop)
    } else {
        Seq::empty()
    }
}

/// Whether `c` is white space as Unicode defines it.
pub fn white_space(c: char) -> (yes: bool)
    ensures
        yes == is_white_space(c),
{
    ('\u{9}' <= c && c <= '\u{d}') || c == ' ' || c == '\u{85}' || c == '\u{a0}' || c
        == '\u{1680}' || ('\u{2000}' <= c && c <= '\u{200a}') || c == '\u{2028}' || c
        == '\u{2029}' || c == '\u{202f}' || c == '\u{205f}' || c == '\u{3000}'
}

/// `text` without the white space at its start and at its end.
pub fn trim(text: &str) -> (kept: String)
    ensures
        kept@ == trimmed(text@),
{
    let chars = chars_of(text);
    let mut start: usize = 0;
    while start < chars.len() && white_space(chars[start])
        invariant
            start <= chars.len(),
            white_end(chars@, 0) == white_end(chars@, start as int),
        decreases chars.len() - start,
    {
        start += 1;
    }
    let mut stop: usize = chars.len();
    while stop > 0 && white_space(chars[stop - 1])
        invariant
            stop <= chars.len(),
            white_start(chars@, chars.len() as int) == white_start(chars@, stop as int),
        decreases stop,
    {
        stop -= 1;
    }
    if start < stop {
        text_of(&chars, start, stop)
    } else {
        String::new()
    }
}

/// White space ends where it ends: from the end of a run no further run
/// starts.
pub proof fn lemma_white_end(text: Seq<char>, i: int)
    requires
        0 <= i <= text.len(),
    ensures
        i <= white_end(text, i) <= text.len(),
        white_end(text, i) < text.len() ==> !is_white_space(text[white_end(text, i)]),
    decreases text.len() - i,
{
    if i < text.len() && is_white_space(text[i]) {
        lemma_white_end(text, i + 1);
    }
}

/// The white space before `j` starts within the text, after a character that
/// is none.
pub proof fn lemma_white_start(text: Seq<char>, j: int)
    requires
        0 <= j <= text.len(),
    ensures
        0 <= white_start(text, j) <= j,
        white_start(text, j) > 0 ==> !is_white_space(text[white_start(text, j) - 1]),
    decreases j,
{
    if 0 < j && is_white_space(text[j - 1]) {
        lemma_white_start(text, j - 1);
    }
}

/// A trimmed text that is not empty starts and ends with a character that is
/// no white space, so trimming it again changes nothing.
pub proof fn lemma_trimmed_twice(text: Seq<char>)
    ensures
        trimmed(trimmed(text)) == trimmed(text),
{
    let start = white_end(text, 0);
    let stop = white_start(text, text.len() as int);
    lemma_white_end(text, 0);
    lemma_white_start(text, text.len() as int);
    let kept = trimmed(text);
    if start < stop {
        assert(kept[0] == text[start]);
        assert(kept[kept.len() - 1] == text[stop - 1]);
        assert(kept.subrange(0, kept.len() as int) =~= kept);
    }
}

} // verus!
