//! Searching and trimming text, over its characters.

use vstd::prelude::*;
use vstd::string::*;

verus! {

/// Whether `char::is_whitespace` holds of a character: whether it has the
/// Unicode property White_Space.
pub uninterp spec fn is_white_space(c: char) -> bool;

/// Trusted: `char::is_whitespace` says whether the character has the
/// property White_Space, and nothing else decides its answer.
pub assume_specification[ char::is_whitespace ](c: char) -> (white: bool)
    ensures
        white == is_white_space(c),
;

/// `needle` stands in `hay` at place `at`.
pub open spec fn occurs_at(hay: Seq<char>, needle: Seq<char>, at: int) -> bool {
    &&& 0 <= at
    &&& at + needle.len() <= hay.len()
    &&& hay.subrange(at, at + needle.len()) == needle
}

/// `needle` stands somewhere in `hay`.
pub open spec fn contains_text(hay: Seq<char>, needle: Seq<char>) -> bool {
    exists|at: int| occurs_at(hay, needle, at)
}

/// The characters of a text.
pub fn chars_of(s: &str) -> (chars: Vec<char>)
    ensures
        chars@ == s@,
{
    let n: usize = s.unicode_len();
    let mut chars: Vec<char> = Vec::new();
    let mut i: usize = 0;
    while i < n
        invariant
            n == s@.len(),
            i <= n,
            chars@ == s@.take(i as int),
        decreases n - i,
    {
        chars.push(s.get_char(i));
        proof {
            assert(s@.take(i as int).push(s@[i as int]) =~= s@.take(i + 1));
        }
        i += 1;
    }
    proof {
        assert(s@.take(n as int) =~= s@);
    }
    chars
}

/// Whether `needle` stands in `hay` at `at`.
fn matches_at(hay: &Vec<char>, needle: &Vec<char>, at: usize) -> (found: bool)
    requires
        at + needle@.len() <= hay@.len(),
    ensures
        found == occurs_at(hay@, needle@, at as int),
{
    let n: usize = hay.len();
    let m: usize = needle.len();
    let mut j: usize = 0;
    while j < m
        invariant
            n == hay@.len(),
            m == needle@.len(),
            at + m <= n,
            j <= m,
            forall|k: int| 0 <= k < j ==> hay@[at + k] == needle@[k],
        decreases m - j,
    {
        if hay[at + j] != needle[j] {
            proof {
                assert(hay@.subrange(at as int, at + m)[j as int] == hay@[at + j]);
            }
            return false;
        }
        j += 1;
    }
    proof {
        assert(hay@.subrange(at as int, at + m) =~= needle@);
    }
    true
}

/// Whether `needle` stands somewhere in `hay`. The empty text stands in every
/// text.
pub fn contains(hay: &str, needle: &str) -> (found: bool)
    ensures
        found == contains_text(hay@, needle@),
{
    let hay_chars = chars_of(hay);
    let needle_chars = chars_of(needle);
    let n: usize = hay_chars.len();
    let m: usize = needle_chars.len();
    if m > n {
        return false;
    }
    let last: usize = n - m;
    let mut at: usize = 0;
    while at < last
        invariant
            n == hay_chars@.len(),
            m == needle_chars@.len(),
            last == n - m,
            at <= last,
            hay_chars@ == hay@,
            needle_chars@ == needle@,
            forall|k: int| 0 <= k < at ==> !occurs_at(hay@, needle@, k),
        decreases last - at,
    {
        if matches_at(&hay_chars, &needle_chars, at) {
            return true;
        }
        at += 1;
    }
    matches_at(&hay_chars, &needle_chars, last)
}

/// The number of white-space characters that `s` begins with.
pub open spec fn leading_white(s: Seq<char>) -> nat
    decreases s.len(),
{
    if s.len() > 0 && is_white_space(s[0]) {
        1 + leading_white(s.skip(1))
    } else {
        0
    }
}

/// The number of white-space characters that `s` ends with.
pub open spec fn trailing_white(s: Seq<char>) -> nat
    decreases s.len(),
{
    if s.len() > 0 && is_white_space(s.last()) {
        1 + trailing_white(s.drop_last())
    } else {
        0
    }
}

/// `s` without the white space it begins and ends with.
pub open spec fn trim_spec(s: Seq<char>) -> Seq<char> {
    let rest = s.skip(leading_white(s) as int);
    rest.take(rest.len() - trailing_white(rest))
}

/// The white space a text begins with is no longer than the text, and what
/// follows it is none.
proof fn lemma_leading_white(s: Seq<char>)
    ensures
        leading_white(s) <= s.len(),
        forall|k: int| 0 <= k < leading_white(s) ==> is_white_space(#[trigger] s[k]),
        leading_white(s) < s.len() ==> !is_white_space(s[leading_white(s) as int]),
    decreases s.len(),
{
    if s.len() > 0 && is_white_space(s[0]) {
        let rest = s.skip(1);
        lemma_leading_white(rest);
        assert forall|k: int| 0 <= k < leading_white(s) implies is_white_space(#[trigger] s[k]) by {
            if k > 0 {
                assert(rest[k - 1] == s[k]);
            }
        }
        if leading_white(s) < s.len() {
            assert(rest[leading_white(rest) as int] == s[leading_white(s) as int]);
        }
    }
}

/// The white space a text ends with is no longer than the text, and what
/// stands before it is none.
proof fn lemma_trailing_white(s: Seq<char>)
    ensures
        trailing_white(s) <= s.len(),
        forall|k: int| s.len() - trailing_white(s) <= k < s.len() ==> is_white_space(#[trigger] s[k]),
        trailing_white(s) < s.len() ==> !is_white_space(s[s.len() - trailing_white(s) - 1]),
    decreases s.len(),
{
    if s.len() > 0 && is_white_space(s.last()) {
        let rest = s.drop_last();
        lemma_trailing_white(rest);
        assert forall|k: int| s.len() - trailing_white(s) <= k < s.len() implies is_white_space(
            #[trigger] s[k],
        ) by {
            if k < s.len() - 1 {
                assert(rest[k] == s[k]);
            }
        }
        if trailing_white(s) < s.len() {
            assert(rest[rest.len() - trailing_white(rest) - 1] == s[s.len() - trailing_white(s) - 1]);
        }
    }
}

/// A run of white space from the start of `s` up to a character that is none
/// is all the white space `s` begins with.
proof fn lemma_leading_white_is(s: Seq<char>, n: int)
    requires
        0 <= n <= s.len(),
        forall|k: int| 0 <= k < n ==> is_white_space(#[trigger] s[k]),
        n < s.len() ==> !is_white_space(s[n]),
    ensures
        leading_white(s) == n,
    decreases n,
{
    if n > 0 {
        let rest = s.skip(1);
        assert forall|k: int| 0 <= k < n - 1 implies is_white_space(#[trigger] rest[k]) by {
            assert(rest[k] == s[k + 1]);
        }
        if n - 1 < rest.len() {
            assert(rest[n - 1] == s[n]);
        }
        lemma_leading_white_is(rest, n - 1);
    }
}

/// A run of white space up to the end of `s`, after a character that is none,
/// is all the white space `s` ends with.
proof fn lemma_trailing_white_is(s: Seq<char>, n: int)
    requires
        0 <= n <= s.len(),
        forall|k: int| s.len() - n <= k < s.len() ==> is_white_space(#[trigger] s[k]),
        n < s.len() ==> !is_white_space(s[s.len() - n - 1]),
    ensures
        trailing_white(s) == n,
    decreases n,
{
    if n > 0 {
        let rest = s.drop_last();
        assert forall|k: int| rest.len() - (n - 1) <= k < rest.len() implies is_white_space(
            #[trigger] rest[k],
        ) by {
            assert(rest[k] == s[k]);
        }
        if n - 1 < rest.len() {
            assert(rest[rest.len() - (n - 1) - 1] == s[s.len() - n - 1]);
        }
        lemma_trailing_white_is(rest, n - 1);
    }
}

/// A trimmed text is a piece of the text it was trimmed from, with nothing
/// but white space before and after it, and it neither begins nor ends with
/// white space.
pub proof fn lemma_trim(s: Seq<char>)
    ensures
        leading_white(s) + trim_spec(s).len() <= s.len(),
        trim_spec(s) == s.subrange(
            leading_white(s) as int,
            (leading_white(s) + trim_spec(s).len()) as int,
        ),
        forall|k: int| 0 <= k < leading_white(s) ==> is_white_space(#[trigger] s[k]),
        forall|k: int|
            leading_white(s) + trim_spec(s).len() <= k < s.len() ==> is_white_space(#[trigger] s[k]),
        trim_spec(s).len() > 0 ==> !is_white_space(trim_spec(s).first()) && !is_white_space(
            trim_spec(s).last(),
        ),
{
    lemma_leading_white(s);
    let from = leading_white(s) as int;
    let rest = s.skip(from);
    lemma_trailing_white(rest);
    let kept = rest.len() - trailing_white(rest);
    assert(trim_spec(s) =~= s.subrange(from, from + kept));
    assert forall|k: int| from + kept <= k < s.len() implies is_white_space(#[trigger] s[k]) by {
        assert(rest[k - from] == s[k]);
    }
    if kept > 0 {
        assert(rest[0] == s[from]);
        assert(trim_spec(s).first() == s[from]);
        assert(trim_spec(s).last() == rest[kept - 1]);
    }
}

/// Removes the white space a text begins and ends with.
pub fn trim(s: &str) -> (trimmed: String)
    ensures
        trimmed@ == trim_spec(s@),
{
    let chars = chars_of(s);
    let n: usize = chars.len();
    let mut from: usize = 0;
    while from < n && chars[from].is_whitespace()
        invariant
            n == chars@.len(),
            from <= n,
            forall|k: int| 0 <= k < from ==> is_white_space(#[trigger] chars@[k]),
        decreases n - from,
    {
        from += 1;
    }
    let mut to: usize = n;
    while to > from && chars[to - 1].is_whitespace()
        invariant
            n == chars@.len(),
            from <= to <= n,
            forall|k: int| to <= k < n ==> is_white_space(#[trigger] chars@[k]),
        decreases to,
    {
        to -= 1;
    }
    proof {
        lemma_leading_white_is(s@, from as int);
        let rest = s@.skip(from as int);
        assert forall|k: int| rest.len() - (n - to) <= k < rest.len() implies is_white_space(
            #[trigger] rest[k],
        ) by {
            assert(rest[k] == s@[from + k]);
        }
        if to > from {
            assert(rest[rest.len() - (n - to) - 1] == s@[to - 1]);
        }
        lemma_trailing_white_is(rest, n - to);
        assert(rest.take(rest.len() - (n - to)) =~= s@.subrange(from as int, to as int));
    }
    String::from_str(s.substring_char(from, to))
}

/// The character for a decimal digit.
pub open spec fn digit_spec(d: int) -> char {
    if d == 0 {
        '0'
    } else if d == 1 {
        '1'
    } else if d == 2 {
        '2'
    } else if d == 3 {
        '3'
    } else if d == 4 {
        '4'
    } else if d == 5 {
        '5'
    } else if d == 6 {
        '6'
    } else if d == 7 {
        '7'
    } else if d == 8 {
        '8'
    } else {
        '9'
    }
}

/// A natural number in decimal digits, with no leading zero but for zero
/// itself.
pub open spec fn decimal_nat(n: nat) -> Seq<char>
    decreases n,
{
    if n < 10 {
        seq![digit_spec(n as int)]
    } else {
        decimal_nat(n / 10).push(digit_spec((n % 10) as int))
    }
}

/// An integer in decimal digits, after a minus sign where it is negative.
pub open spec fn decimal_spec(n: int) -> Seq<char> {
    if n < 0 {
        seq!['-'] + decimal_nat((-n) as nat)
    } else {
        decimal_nat(n as nat)
    }
}

fn digit(d: u32) -> (text: &'static str)
    requires
        d < 10,
    ensures
        text@ == seq![digit_spec(d as int)],
{
    proof {
        reveal_strlit("0");
        reveal_strlit("1");
        reveal_strlit("2");
        reveal_strlit("3");
        reveal_strlit("4");
        reveal_strlit("5");
        reveal_strlit("6");
        reveal_strlit("7");
        reveal_strlit("8");
        reveal_strlit("9");
    }
    let text = match d {
        0 => "0",
        1 => "1",
        2 => "2",
        3 => "3",
        4 => "4",
        5 => "5",
        6 => "6",
        7 => "7",
        8 => "8",
        _ => "9",
    };
    assert(text@ =~= seq![digit_spec(d as int)]);
    text
}

fn decimal_unsigned(n: u32) -> (text: String)
    ensures
        text@ == decimal_nat(n as nat),
    decreases n,
{
    if n < 10 {
        String::from_str(digit(n))
    } else {
        let mut text = decimal_unsigned(n / 10);
        text.append(digit(n % 10));
        proof {
            assert(decimal_nat((n / 10) as nat) + seq![digit_spec((n % 10) as int)] =~= decimal_nat(
                (n / 10) as nat,
            ).push(digit_spec((n % 10) as int)));
        }
        text
    }
}

/// Writes an integer in decimal digits.
pub fn decimal(n: i32) -> (text: String)
    ensures
        text@ == decimal_spec(n as int),
{
    if n < 0 {
        let wide: i64 = n as i64;
        let size: u32 = (-wide) as u32;
        proof {
            reveal_strlit("-");
            assert("-"@ =~= seq!['-']);
        }
        let mut text = String::from_str("-");
        text.append(decimal_unsigned(size).as_str());
        text
    } else {
        decimal_unsigned(n as u32)
    }
}

} // verus!
