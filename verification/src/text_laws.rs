//! What trimming, affixes and numbers in text come to.

use crate::text::{
    begins, blank, decimal, digit, ends, holds, is_white, joined, trim, trim_end, trim_end_char, trim_start,
};
use vstd::prelude::*;

verus! {

/// What is left of a text without white space at its start is an end of it: all before it is white space, and it does
/// not begin with any.
pub proof fn only_white_space_goes_at_the_start(s: Seq<char>) -> (n: int)
    ensures
        0 <= n <= s.len(),
        trim_start(s) == s.skip(n),
        forall|i: int| 0 <= i < n ==> is_white(#[trigger] s[i]),
        n < s.len() ==> !is_white(s[n]),
    decreases s.len(),
{
    if s.len() > 0 && is_white(s[0]) {
        let rest = s.drop_first();
        let n = only_white_space_goes_at_the_start(rest);
        assert(rest.skip(n) =~= s.skip(n + 1));
        assert forall|i: int| 0 <= i < n + 1 implies is_white(#[trigger] s[i]) by {
            if i > 0 {
                assert(rest[i - 1] == s[i]);
            }
        }
        if n + 1 < s.len() {
            assert(rest[n] == s[n + 1]);
        }
        n + 1
    } else {
        assert(s.skip(0) =~= s);
        0
    }
}

/// What is left of a text without white space at its end is a start of it: all behind it is white space, and it does
/// not end with any.
pub proof fn only_white_space_goes_at_the_end(s: Seq<char>) -> (n: int)
    ensures
        0 <= n <= s.len(),
        trim_end(s) == s.take(n),
        forall|i: int| n <= i < s.len() ==> is_white(#[trigger] s[i]),
        n > 0 ==> !is_white(s[n - 1]),
    decreases s.len(),
{
    if s.len() > 0 && is_white(s.last()) {
        let front = s.drop_last();
        let n = only_white_space_goes_at_the_end(front);
        assert(front.take(n) =~= s.take(n));
        assert forall|i: int| n <= i < s.len() implies is_white(#[trigger] s[i]) by {
            if i < front.len() {
                assert(front[i] == s[i]);
            }
        }
        if n > 0 {
            assert(front[n - 1] == s[n - 1]);
        }
        n
    } else {
        assert(s.take(s.len() as int) =~= s);
        s.len() as int
    }
}

/// Trimming takes white space from the ends of a text and nothing else: what is left stands in the text, all around it
/// is white space, and it neither begins nor ends with any.
pub proof fn trimming_takes_white_space_only(s: Seq<char>)
    ensures
        exists|i: int, j: int|
            #![trigger s.subrange(i, j)]
            0 <= i <= j <= s.len() && trim(s) == s.subrange(i, j) && (forall|k: int|
                0 <= k < i || j <= k < s.len() ==> is_white(#[trigger] s[k])),
        trim(s).len() > 0 ==> !is_white(trim(s)[0]) && !is_white(trim(s).last()),
{
    let i = only_white_space_goes_at_the_start(s);
    let rest = s.skip(i);
    let n = only_white_space_goes_at_the_end(rest);
    let j = i + n;
    assert(rest.take(n) =~= s.subrange(i, j));
    assert forall|k: int| 0 <= k < i || j <= k < s.len() implies is_white(#[trigger] s[k]) by {
        if j <= k {
            assert(rest[k - i] == s[k]);
        }
    }
    if n > 0 {
        assert(rest[0] == s[i]);
        assert(trim(s)[0] == s[i]);
        assert(trim(s).last() == rest[n - 1]);
    }
    assert(trim(s) == s.subrange(i, j));
}

/// A text is blank exactly where it holds nothing but white space.
pub proof fn a_blank_text_is_white_space(s: Seq<char>)
    ensures
        blank(s) <==> forall|i: int| 0 <= i < s.len() ==> is_white(#[trigger] s[i]),
{
    let i = only_white_space_goes_at_the_start(s);
    let rest = s.skip(i);
    let n = only_white_space_goes_at_the_end(rest);
    if i < s.len() {
        assert(rest[0] == s[i]);
        if n == 0 {
            assert(is_white(rest[0]));
        }
    }
}

/// Taking a character from the end of a text takes it as often as it stands there and nothing else.
pub proof fn only_the_character_goes_at_the_end(s: Seq<char>, c: char)
    ensures
        trim_end_char(s, c).len() <= s.len(),
        trim_end_char(s, c) == s.take(trim_end_char(s, c).len() as int),
        forall|i: int| trim_end_char(s, c).len() <= i < s.len() ==> #[trigger] s[i] == c,
        trim_end_char(s, c).len() > 0 ==> trim_end_char(s, c).last() != c,
    decreases s.len(),
{
    if s.len() > 0 && s.last() == c {
        let front = s.drop_last();
        only_the_character_goes_at_the_end(front, c);
        let n = trim_end_char(s, c).len() as int;
        assert(front.take(n) =~= s.take(n));
        assert forall|i: int| n <= i < s.len() implies #[trigger] s[i] == c by {
            if i < front.len() {
                assert(front[i] == s[i]);
            }
        }
    } else {
        assert(s.take(s.len() as int) =~= s);
    }
}

/// A text begins with another exactly where it is that one and something behind it.
pub proof fn a_beginning_is_followed_by_the_rest(prefix: Seq<char>, rest: Seq<char>, s: Seq<char>)
    ensures
        begins(prefix + rest, prefix),
        begins(s, prefix) ==> s == prefix + s.skip(prefix.len() as int),
{
    assert((prefix + rest).take(prefix.len() as int) =~= prefix);
    if begins(s, prefix) {
        assert(s =~= s.take(prefix.len() as int) + s.skip(prefix.len() as int));
    }
}

/// A text ends with another exactly where it is something and that one behind it.
pub proof fn an_ending_follows_the_rest(rest: Seq<char>, suffix: Seq<char>, s: Seq<char>)
    ensures
        ends(rest + suffix, suffix),
        ends(s, suffix) ==> s == s.take(s.len() - suffix.len()) + suffix,
{
    assert((rest + suffix).skip(rest.len() as int) =~= suffix);
    if ends(s, suffix) {
        assert(s =~= s.take(s.len() - suffix.len()) + s.skip(s.len() - suffix.len()));
    }
}

/// A text holds another exactly where that one stands somewhere in it.
pub proof fn a_part_stands_between_the_rest(before: Seq<char>, part: Seq<char>, behind: Seq<char>, s: Seq<char>)
    ensures
        holds(before + part + behind, part),
        holds(s, part) ==> exists|i: int|
            #![trigger s.subrange(i, i + part.len())]
            0 <= i && i + part.len() <= s.len() && s.subrange(i, i + part.len()) == part,
{
    let all = before + part + behind;
    let n = before.len() as int;
    assert(all.skip(n).take(part.len() as int) =~= part);
    assert(begins(all.skip(n), part));
    if holds(s, part) {
        let i = choose|i: int| 0 <= i <= s.len() && begins(#[trigger] s.skip(i), part);
        assert(s.skip(i).take(part.len() as int) =~= s.subrange(i, i + part.len()));
    }
}

/// The number that decimal digits write.
pub open spec fn digits_value(s: Seq<char>) -> int
    decreases s.len(),
{
    if s.len() == 0 {
        0
    } else {
        10 * digits_value(s.drop_last()) + (s.last() as int - '0' as int)
    }
}

/// A number in decimal is written in digits, reads back as the number, and does not begin with a zero unless it is one.
pub proof fn a_number_reads_back(n: nat)
    ensures
        digits_value(decimal(n)) == n,
        decimal(n).len() > 0,
        forall|i: int| 0 <= i < decimal(n).len() ==> '0' <= (#[trigger] decimal(n)[i]) <= '9',
        n > 0 ==> decimal(n)[0] != '0',
    decreases n,
{
    reveal_with_fuel(digits_value, 2);
    if n < 10 {
        assert(decimal(n) =~= seq![digit(n)]);
        assert(seq![digit(n)].drop_last() =~= Seq::empty());
        assert(digits_value(Seq::empty()) == 0);
    } else {
        a_number_reads_back(n / 10);
        let front = decimal(n / 10);
        let last = digit(n % 10);
        assert(decimal(n) == front.push(last));
        assert(front.push(last).drop_last() =~= front);
        assert(last as int - '0' as int == n % 10);
    }
}

/// Texts are joined with the separator between each and the next, none before the first and none behind the last.
pub proof fn a_separator_stands_between_two_texts(parts: Seq<Seq<char>>, more: Seq<char>, separator: Seq<char>)
    ensures
        joined(Seq::<Seq<char>>::empty(), separator) == Seq::<char>::empty(),
        joined(seq![more], separator) == more,
        parts.len() > 0 ==> joined(parts.push(more), separator) == joined(parts, separator) + separator + more,
{
    assert(parts.push(more).drop_last() =~= parts);
}

/// White space is what Unicode counts as such: the tab and what follows it up to the carriage return, the space and the
/// space that does not break, the next line, and the wider spaces and separators.
pub proof fn white_space_is_that_of_unicode(c: char)
    ensures
        is_white(c) <==> {
            ||| c == '\t' || c == '\n' || c == '\u{b}' || c == '\u{c}' || c == '\r' || c == ' '
            ||| c == '\u{85}' || c == '\u{a0}' || c == '\u{1680}'
            ||| '\u{2000}' <= c <= '\u{200a}'
            ||| c == '\u{2028}' || c == '\u{2029}' || c == '\u{202f}' || c == '\u{205f}' || c == '\u{3000}'
        },
{
}

} // verus!
