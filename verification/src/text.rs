//! Text helpers: substring search, decimal numbers and lower case.

use vstd::prelude::*;

verus! {

/// `needle` stands in `hay` at offset `at`.
pub open spec fn occurs_at(hay: Seq<char>, needle: Seq<char>, at: int) -> bool {
    &&& 0 <= at
    &&& at + needle.len() <= hay.len()
    &&& hay.subrange(at, at + needle.len()) == needle
}

/// `needle` stands somewhere in `hay`. The empty text stands in every text.
pub open spec fn has_substring(hay: Seq<char>, needle: Seq<char>) -> bool {
    exists|at: int| occurs_at(hay, needle, at)
}

/// A text that stands in neither of two texts does not stand in the two put
/// together, if the first ends with a character that the text does not hold.
pub proof fn lemma_no_occurrence_across(
    first: Seq<char>,
    second: Seq<char>,
    needle: Seq<char>,
    stop: char,
)
    requires
        !has_substring(first, needle),
        !has_substring(second, needle),
        first.len() > 0 ==> first.last() == stop,
        !needle.contains(stop),
    ensures
        !has_substring(first + second, needle),
{
    let both = first + second;
    assert forall|at: int| !occurs_at(both, needle, at) by {
        if occurs_at(both, needle, at) {
            let window = both.subrange(at, at + needle.len());
            if at + needle.len() <= first.len() {
                assert(first.subrange(at, at + needle.len()) =~= window);
                assert(occurs_at(first, needle, at));
            } else if at >= first.len() {
                let shifted = at - first.len();
                assert(second.subrange(shifted, shifted + needle.len()) =~= window);
                assert(occurs_at(second, needle, shifted));
            } else {
                let k = first.len() - 1 - at;
                assert(needle[k] == stop);
            }
        }
    }
}

/// A text that lacks a character of another does not hold the other.
pub proof fn lemma_missing_char_excludes(hay: Seq<char>, needle: Seq<char>, c: char)
    requires
        needle.contains(c),
        !hay.contains(c),
    ensures
        !has_substring(hay, needle),
{
    assert forall|at: int| !occurs_at(hay, needle, at) by {
        if occurs_at(hay, needle, at) {
            let k = choose|k: int| 0 <= k < needle.len() && needle[k] == c;
            assert(hay.subrange(at, at + needle.len())[k] == hay[at + k]);
        }
    }
}

/// The characters of `s`, in order.
pub fn chars_of(s: &str) -> (chars: Vec<char>)
    ensures
        chars@ == s@,
{
    let mut chars: Vec<char> = Vec::new();
    for c in it: s.chars()
        invariant
            chars@ == it.seq().take(it.index()),
            it.seq() == s@,
    {
        chars.push(c);
    }
    chars
}

/// Compares `needle` with the characters of `hay` that start at `at`.
fn matches_at(hay: &Vec<char>, needle: &Vec<char>, at: usize) -> (same: bool)
    requires
        at + needle.len() <= hay.len(),
    ensures
        same == occurs_at(hay@, needle@, at as int),
{
    let mut i: usize = 0;
    while i < needle.len()
        invariant
            i <= needle.len(),
            at + needle.len() <= hay.len(),
            forall|k: int| 0 <= k < i ==> hay@[at + k] == needle@[k],
        decreases needle.len() - i,
    {
        if hay[at + i] != needle[i] {
            assert(hay@.subrange(at as int, at + needle.len())[i as int] != needle@[i as int]);
            return false;
        }
        i += 1;
    }
    assert(hay@.subrange(at as int, at + needle.len()) =~= needle@);
    true
}

/// Searches `hay` for `needle`, character by character.
pub fn find_chars(hay: &Vec<char>, needle: &Vec<char>) -> (found: bool)
    ensures
        found == has_substring(hay@, needle@),
{
    if needle.len() > hay.len() {
        return false;
    }
    let last: usize = hay.len() - needle.len();
    let mut at: usize = 0;
    loop
        invariant
            at <= last,
            last == hay.len() - needle.len(),
            forall|k: int| 0 <= k < at ==> !occurs_at(hay@, needle@, k),
        decreases last - at,
    {
        if matches_at(hay, needle, at) {
            return true;
        }
        if at == last {
            return false;
        }
        at += 1;
    }
}

/// Whether `needle` stands somewhere in `hay`.
pub fn contains(hay: &str, needle: &str) -> (found: bool)
    ensures
        found == has_substring(hay@, needle@),
{
    let hay_chars = chars_of(hay);
    let needle_chars = chars_of(needle);
    find_chars(&hay_chars, &needle_chars)
}

/// `String::push` appends one character to the text.
pub assume_specification[ String::push ](text: &mut String, c: char)
    ensures
        final(text)@ == old(text)@.push(c),
;

/// The character that stands for a digit.
pub open spec fn digit_char(digit: nat) -> char {
    if digit == 0 {
        '0'
    } else if digit == 1 {
        '1'
    } else if digit == 2 {
        '2'
    } else if digit == 3 {
        '3'
    } else if digit == 4 {
        '4'
    } else if digit == 5 {
        '5'
    } else if digit == 6 {
        '6'
    } else if digit == 7 {
        '7'
    } else if digit == 8 {
        '8'
    } else {
        '9'
    }
}

/// A number in decimal notation, without a sign and without leading zeros.
pub open spec fn decimal_text(n: nat) -> Seq<char>
    decreases n,
{
    if n < 10 {
        seq![digit_char(n)]
    } else {
        decimal_text(n / 10).push(digit_char(n % 10))
    }
}

/// A number in decimal notation is made of digits.
pub proof fn lemma_decimal_is_digits(n: nat)
    ensures
        forall|k: int|
            0 <= k < decimal_text(n).len() ==> '0' <= #[trigger] decimal_text(n)[k] <= '9',
    decreases n,
{
    if n >= 10 {
        lemma_decimal_is_digits(n / 10);
        let front = decimal_text(n / 10);
        assert forall|k: int| 0 <= k < decimal_text(n).len() implies '0' <= #[trigger] decimal_text(
            n,
        )[k] <= '9' by {
            if k < front.len() {
                assert(decimal_text(n)[k] == front[k]);
            }
        }
    }
}

/// Appends `n` in decimal notation to `text`.
pub fn push_decimal(text: &mut String, n: u64)
    ensures
        final(text)@ == old(text)@ + decimal_text(n as nat),
    decreases n,
{
    if n >= 10 {
        push_decimal(text, n / 10);
    }
    let digit: u8 = (n % 10) as u8;
    let c: char = (48u8 + digit) as char;
    text.push(c);
    proof {
        if n >= 10 {
            assert((old(text)@ + decimal_text((n / 10) as nat)).push(c) =~= old(text)@
                + decimal_text(n as nat));
        }
    }
}

/// A letter of the upper case becomes that of the lower case, from `A` to
/// `Z`; every other character stays.
pub open spec fn lower_char(c: char) -> char {
    if 'A' <= c <= 'Z' {
        ((c as u8) + 32) as char
    } else {
        c
    }
}

/// `text` with the letters `A` to `Z` in lower case.
pub open spec fn lower_text(text: Seq<char>) -> Seq<char> {
    text.map_values(|c: char| lower_char(c))
}

/// `text` with the letters `A` to `Z` in lower case.
pub fn to_lower(text: &str) -> (lower: String)
    ensures
        lower@ == lower_text(text@),
{
    let chars = chars_of(text);
    let mut lower = String::new();
    let mut i: usize = 0;
    while i < chars.len()
        invariant
            i <= chars.len(),
            chars@ == text@,
            lower@ == lower_text(text@).take(i as int),
        decreases chars.len() - i,
    {
        let c = chars[i];
        let low: char = if 'A' <= c && c <= 'Z' {
            ((c as u8) + 32) as char
        } else {
            c
        };
        lower.push(low);
        i += 1;
    }
    lower
}

} // verus!
