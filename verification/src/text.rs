//! Helpers on characters and sequences, shared by the parsers and the
//! formatters.
//!
//! Text is modelled as `Seq<char>`. Executable code works on `Vec<char>` and
//! converts at the edges.

use vstd::prelude::*;

verus! {

/// What `str::to_lowercase` returns for a text.
pub uninterp spec fn lowercase_text(text: Seq<char>) -> Seq<char>;

/// What `str::to_uppercase` returns for a text.
pub uninterp spec fn uppercase_text(text: Seq<char>) -> Seq<char>;

/// Calls `str::to_lowercase`. The Unicode case mapping is not spelled out
/// here: the result is known only as `lowercase_text` of the argument.
#[verifier::external_body]
pub(crate) fn to_lowercase(s: &str) -> (r: String)
    ensures
        r@ == lowercase_text(s@),
{
    s.to_lowercase()
}

/// Calls `str::to_uppercase`. The Unicode case mapping is not spelled out
/// here: the result is known only as `uppercase_text` of the argument.
#[verifier::external_body]
pub(crate) fn to_uppercase(s: &str) -> (r: String)
    ensures
        r@ == uppercase_text(s@),
{
    s.to_uppercase()
}

/// Calls `String::push`, which appends the character at the end.
#[verifier::external_body]
pub(crate) fn push_char(s: &mut String, c: char)
    ensures
        final(s)@ == old(s)@.push(c),
{
    s.push(c)
}

/// The characters of a string, in order.
pub fn to_chars(s: &str) -> (chars: Vec<char>)
    ensures
        chars@ == s@,
{
    let mut chars: Vec<char> = Vec::new();
    for c in it: s.chars()
        invariant
            chars@ == it.seq().subrange(0, it.index() as int),
            it.seq() == s@,
    {
        chars.push(c);
    }
    chars
}

/// The string made of the given characters, in order.
pub fn from_chars(chars: &[char]) -> (s: String)
    ensures
        s@ == chars@,
{
    let mut s = String::new();
    let mut i: usize = 0;
    while i < chars.len()
        invariant
            i <= chars.len(),
            s@ == chars@.subrange(0, i as int),
        decreases chars.len() - i,
    {
        push_char(&mut s, chars[i]);
        i += 1;
    }
    s
}

/// The characters of `chars` from `from` up to, not including, `to`.
pub fn sub_chars(chars: &[char], from: usize, to: usize) -> (part: Vec<char>)
    requires
        from <= to <= chars.len(),
    ensures
        part@ == chars@.subrange(from as int, to as int),
{
    let mut part: Vec<char> = Vec::new();
    let mut i: usize = from;
    while i < to
        invariant
            from <= i <= to <= chars.len(),
            part@ == chars@.subrange(from as int, i as int),
        decreases to - i,
    {
        part.push(chars[i]);
        i += 1;
    }
    part
}

/// Whether two texts hold the same characters.
pub fn same_chars(a: &[char], b: &[char]) -> (same: bool)
    ensures
        same == (a@ == b@),
{
    if a.len() != b.len() {
        return false;
    }
    let mut i: usize = 0;
    while i < a.len()
        invariant
            i <= a.len(),
            a.len() == b.len(),
            a@.subrange(0, i as int) == b@.subrange(0, i as int),
        decreases a.len() - i,
    {
        if a[i] != b[i] {
            return false;
        }
        i += 1;
    }
    assert(a@ == a@.subrange(0, a.len() as int));
    assert(b@ == b@.subrange(0, b.len() as int));
    true
}

/// Whether two strings hold the same text.
pub fn same_text(a: &str, b: &str) -> (same: bool)
    ensures
        same == (a@ == b@),
{
    let x = to_chars(a);
    let y = to_chars(b);
    same_chars(x.as_slice(), y.as_slice())
}

/// The text of an optional string.
pub open spec fn option_text(text: Option<String>) -> Option<Seq<char>> {
    match text {
        Some(t) => Some(t@),
        None => None,
    }
}

/// Whether the characters spell the given word.
pub fn is_word(chars: &[char], word: &str) -> (same: bool)
    ensures
        same == (chars@ == word@),
{
    let w = to_chars(word);
    same_chars(chars, w.as_slice())
}

/// The index of the first `c` in `s` at or after `from`, or the length of
/// `s` where there is none.
pub open spec fn index_of_from<T>(s: Seq<T>, c: T, from: int) -> int
    decreases s.len() - from,
{
    if from < 0 || from >= s.len() {
        s.len() as int
    } else if s[from] == c {
        from
    } else {
        index_of_from(s, c, from + 1)
    }
}

/// `index_of_from` finds the first occurrence and nothing before it.
pub proof fn lemma_index_of_from<T>(s: Seq<T>, c: T, from: int)
    requires
        0 <= from <= s.len(),
    ensures
        from <= index_of_from(s, c, from) <= s.len(),
        index_of_from(s, c, from) < s.len() ==> s[index_of_from(s, c, from)] == c,
        forall|j: int| from <= j < index_of_from(s, c, from) ==> s[j] != c,
    decreases s.len() - from,
{
    if from < s.len() && s[from] != c {
        lemma_index_of_from(s, c, from + 1);
    }
}

/// The pieces of `s` between the occurrences of `c`, from `from` on. There
/// is always one piece more than there are occurrences.
pub open spec fn pieces_from<T>(s: Seq<T>, c: T, from: int) -> Seq<Seq<T>>
    decreases s.len() - from,
{
    if from < 0 || from > s.len() {
        Seq::empty()
    } else {
        let at = index_of_from(s, c, from);
        proof {
            lemma_index_of_from(s, c, from);
        }
        if at >= s.len() {
            seq![s.subrange(from, s.len() as int)]
        } else {
            seq![s.subrange(from, at)] + pieces_from(s, c, at + 1)
        }
    }
}

/// The index of the first `c` at or after `from`, or the length where there
/// is none.
pub fn find_char(chars: &[char], c: char, from: usize) -> (at: usize)
    requires
        from <= chars.len(),
    ensures
        at == index_of_from(chars@, c, from as int),
        from <= at <= chars.len(),
        at < chars.len() ==> chars@[at as int] == c,
        forall|j: int| from <= j < at ==> chars@[j] != c,
{
    let mut i: usize = from;
    while i < chars.len() && chars[i] != c
        invariant
            from <= i <= chars.len(),
            index_of_from(chars@, c, from as int) == index_of_from(chars@, c, i as int),
            forall|j: int| from <= j < i ==> chars@[j] != c,
        decreases chars.len() - i,
    {
        i += 1;
    }
    i
}

/// Whether `c` occurs in `s`.
pub open spec fn has_char(s: Seq<char>, c: char) -> bool {
    exists|i: int| 0 <= i < s.len() && s[i] == c
}

/// Whether the character occurs in the text.
pub fn contains_char(chars: &[char], c: char) -> (found: bool)
    ensures
        found == has_char(chars@, c),
{
    let at = find_char(chars, c, 0);
    at < chars.len()
}

/// The character of a decimal digit.
pub open spec fn digit_char(d: int) -> char {
    if d == 0 {
        '0'
    } else if d == 1 {
        '1'
    } else if d == 2 {
        '2'
    } else if d == 3 {
        '3'
    } else if d == 4 {
        '4'
    } else if d == 5 {
        '5'
    } else if d == 6 {
        '6'
    } else if d == 7 {
        '7'
    } else if d == 8 {
        '8'
    } else {
        '9'
    }
}

/// A number in decimal, most significant digit first, without leading zeros.
pub open spec fn decimal_text(n: nat) -> Seq<char>
    decreases n,
{
    if n < 10 {
        seq![digit_char(n as int)]
    } else {
        decimal_text(n / 10).push(digit_char((n % 10) as int))
    }
}

fn digit(d: u64) -> (c: char)
    requires
        d < 10,
    ensures
        c == digit_char(d as int),
{
    if d == 0 {
        '0'
    } else if d == 1 {
        '1'
    } else if d == 2 {
        '2'
    } else if d == 3 {
        '3'
    } else if d == 4 {
        '4'
    } else if d == 5 {
        '5'
    } else if d == 6 {
        '6'
    } else if d == 7 {
        '7'
    } else if d == 8 {
        '8'
    } else {
        '9'
    }
}

fn push_decimal(s: &mut String, n: u64)
    ensures
        final(s)@ == old(s)@ + decimal_text(n as nat),
    decreases n,
{
    if n >= 10 {
        push_decimal(s, n / 10);
    }
    push_char(s, digit(n % 10));
}

/// A number written in decimal.
pub fn decimal(n: u64) -> (s: String)
    ensures
        s@ == decimal_text(n as nat),
{
    let mut s = String::new();
    push_decimal(&mut s, n);
    s
}

/// The value of a decimal digit character, or -1.
pub open spec fn digit_value(c: char) -> int {
    if c == '0' {
        0
    } else if c == '1' {
        1
    } else if c == '2' {
        2
    } else if c == '3' {
        3
    } else if c == '4' {
        4
    } else if c == '5' {
        5
    } else if c == '6' {
        6
    } else if c == '7' {
        7
    } else if c == '8' {
        8
    } else if c == '9' {
        9
    } else {
        -1
    }
}

/// Whether the text is made of the digits `0` to `9` only.
pub open spec fn all_digits(s: Seq<char>) -> bool {
    forall|i: int| 0 <= i < s.len() ==> digit_value(#[trigger] s[i]) >= 0
}

/// The number that a text of decimal digits spells.
pub open spec fn digits_value(s: Seq<char>) -> nat
    decreases s.len(),
{
    if s.len() == 0 {
        0
    } else {
        (digits_value(s.drop_last()) * 10 + digit_value(s.last())) as nat
    }
}

/// What a text of decimal digits spells, where it is not empty, holds
/// digits only and the number fits.
pub open spec fn parsed_number(s: Seq<char>) -> Option<u32> {
    if s.len() > 0 && all_digits(s) && digits_value(s) <= u32::MAX {
        Some(digits_value(s) as u32)
    } else {
        None
    }
}

fn digit_of(c: char) -> (d: Option<u32>)
    ensures
        d is Some <==> digit_value(c) >= 0,
        d is Some ==> d->0 == digit_value(c),
{
    if c == '0' {
        Some(0)
    } else if c == '1' {
        Some(1)
    } else if c == '2' {
        Some(2)
    } else if c == '3' {
        Some(3)
    } else if c == '4' {
        Some(4)
    } else if c == '5' {
        Some(5)
    } else if c == '6' {
        Some(6)
    } else if c == '7' {
        Some(7)
    } else if c == '8' {
        Some(8)
    } else if c == '9' {
        Some(9)
    } else {
        None
    }
}

/// Reads an unsigned decimal number.
pub fn parse_number(chars: &[char]) -> (n: Option<u32>)
    ensures
        n == parsed_number(chars@),
{
    if chars.len() == 0 {
        return None;
    }
    let mut value: u64 = 0;
    let mut i: usize = 0;
    let mut overflow = false;
    while i < chars.len()
        invariant
            i <= chars.len(),
            all_digits(chars@.subrange(0, i as int)),
            !overflow ==> value == digits_value(chars@.subrange(0, i as int)) && value
                <= u32::MAX,
            overflow ==> digits_value(chars@.subrange(0, i as int)) > u32::MAX,
        decreases chars.len() - i,
    {
        let ghost before = chars@.subrange(0, i as int);
        let ghost after = chars@.subrange(0, i + 1);
        assert(after.drop_last() == before);
        match digit_of(chars[i]) {
            None => {
                return None;
            },
            Some(d) => {
                if !overflow {
                    value = value * 10 + d as u64;
                    if value > 0xffff_ffff {
                        overflow = true;
                    }
                }
            },
        }
        i += 1;
    }
    assert(chars@.subrange(0, i as int) == chars@);
    if overflow {
        None
    } else {
        Some(value as u32)
    }
}

} // verus!
