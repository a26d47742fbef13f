//! Text helpers shared by the rest of the crate: decimal rendering, trimming,
//! searching for a separator and joining tokens.

use vstd::prelude::*;
use vstd::string::*;

verus! {

/// The decimal digit that stands for `d`; a nine for whatever is more.
pub open spec fn digit(d: int) -> char {
    if d == 0 {
        '0'
    } else if d == 1 {
        '1'
    } else if d == 2 {
        '2'
    } else if d == 3 {
        '3'
    } else if d == 4 {
        '4'
    } else if d == 5 {
        '5'
    } else if d == 6 {
        '6'
    } else if d == 7 {
        '7'
    } else if d == 8 {
        '8'
    } else {
        '9'
    }
}

/// The decimal digits of `n`, most significant first, without leading zeros.
pub open spec fn digits(n: nat) -> Seq<char>
    decreases n,
{
    if n < 10 {
        seq![digit(n as int)]
    } else {
        digits(n / 10).push(digit((n % 10) as int))
    }
}

/// The decimal text of `i`, with a leading minus sign where it is negative.
pub open spec fn decimal(i: int) -> Seq<char> {
    if i < 0 {
        seq!['-'] + digits((-i) as nat)
    } else {
        digits(i as nat)
    }
}

/// The value of a decimal digit; zero for any other character.
pub open spec fn digit_value(c: char) -> int {
    if c == '1' {
        1
    } else if c == '2' {
        2
    } else if c == '3' {
        3
    } else if c == '4' {
        4
    } else if c == '5' {
        5
    } else if c == '6' {
        6
    } else if c == '7' {
        7
    } else if c == '8' {
        8
    } else if c == '9' {
        9
    } else {
        0
    }
}

/// The number that a text of decimal digits spells.
pub open spec fn number(text: Seq<char>) -> int
    decreases text.len(),
{
    if text.len() == 0 {
        0
    } else {
        number(text.drop_last()) * 10 + digit_value(text.last())
    }
}

/// The digits of a number spell that number, and they start with a zero
/// only where the number is zero.
pub proof fn digits_spell_the_number(n: nat)
    ensures
        number(digits(n)) == n,
        digits(n).len() >= 1,
        n > 0 ==> digits(n)[0] != '0',
    decreases n,
{
    if n < 10 {
        let one = seq![digit(n as int)];
        assert(one.drop_last() =~= Seq::<char>::empty());
        assert(number(one.drop_last()) == 0);
    } else {
        digits_spell_the_number(n / 10);
        let all = digits(n);
        assert(all.drop_last() =~= digits(n / 10));
        assert(all[0] == digits(n / 10)[0]);
    }
}

/// The one-character text of a decimal digit.
pub fn digit_text(d: u8) -> (text: &'static str)
    ensures
        text@ == seq![digit(d as int)],
{
    proof {
        reveal_strlit("0");
        reveal_strlit("1");
        reveal_strlit("2");
        reveal_strlit("3");
        reveal_strlit("4");
        reveal_strlit("5");
        reveal_strlit("6");
        reveal_strlit("7");
        reveal_strlit("8");
        reveal_strlit("9");
    }
    let text = if d == 0 {
        "0"
    } else if d == 1 {
        "1"
    } else if d == 2 {
        "2"
    } else if d == 3 {
        "3"
    } else if d == 4 {
        "4"
    } else if d == 5 {
        "5"
    } else if d == 6 {
        "6"
    } else if d == 7 {
        "7"
    } else if d == 8 {
        "8"
    } else {
        "9"
    };
    assert(text@ =~= seq![digit(d as int)]);
    text
}

/// Appends the decimal digits of `n` to `text`.
fn push_digits(text: &mut String, n: u32)
    ensures
        final(text)@ == old(text)@ + digits(n as nat),
    decreases n,
{
    if n >= 10 {
        push_digits(text, n / 10);
    }
    let last: u8 = (n % 10) as u8;
    text.append(digit_text(last));
    proof {
        if n >= 10 {
            assert(text@ =~= old(text)@ + digits((n / 10) as nat).push(digit((n % 10) as int)));
        } else {
            assert(text@ =~= old(text)@ + seq![digit(n as int)]);
        }
    }
}

/// Renders `n` in decimal.
pub fn decimal_text(n: i32) -> (text: String)
    ensures
        text@ == decimal(n as int),
{
    let wide: i64 = n as i64;
    let mut text = String::new();
    if wide < 0 {
        proof {
            reveal_strlit("-");
        }
        text.append("-");
        assert(text@ =~= seq!['-']);
        push_digits(&mut text, (-wide) as u32);
    } else {
        push_digits(&mut text, wide as u32);
        assert(text@ =~= digits(n as nat));
    }
    text
}

/// Whether `c` is white space: a character that trimming removes.
pub open spec fn is_space(c: char) -> bool {
    let u = c as u32;
    ||| 0x09 <= u <= 0x0D
    ||| u == 0x20
    ||| u == 0x85
    ||| u == 0xA0
    ||| u == 0x1680
    ||| 0x2000 <= u <= 0x200A
    ||| u == 0x2028
    ||| u == 0x2029
    ||| u == 0x202F
    ||| u == 0x205F
    ||| u == 0x3000
}

/// Tests whether `c` is white space.
pub fn is_whitespace(c: char) -> (b: bool)
    ensures
        b == is_space(c),
{
    let u: u32 = c as u32;
    (0x09 <= u && u <= 0x0D) || u == 0x20 || u == 0x85 || u == 0xA0 || u == 0x1680 || (0x2000 <= u
        && u <= 0x200A) || u == 0x2028 || u == 0x2029 || u == 0x202F || u == 0x205F || u == 0x3000
}

/// How many white-space characters `s` starts with.
pub open spec fn leading_spaces(s: Seq<char>) -> nat
    decreases s.len(),
{
    if s.len() > 0 && is_space(s[0]) {
        1 + leading_spaces(s.drop_first())
    } else {
        0
    }
}

/// How many white-space characters `s` ends with.
pub open spec fn trailing_spaces(s: Seq<char>) -> nat
    decreases s.len(),
{
    if s.len() > 0 && is_space(s.last()) {
        1 + trailing_spaces(s.drop_last())
    } else {
        0
    }
}

/// `s` without the white space at its start.
pub open spec fn trim_start(s: Seq<char>) -> Seq<char> {
    s.skip(leading_spaces(s) as int)
}

/// `s` without the white space at its end.
pub open spec fn trim_end(s: Seq<char>) -> Seq<char> {
    s.take(s.len() - trailing_spaces(s))
}

/// `s` without the white space at either end.
pub open spec fn trim(s: Seq<char>) -> Seq<char> {
    trim_end(trim_start(s))
}

/// The leading white space is a run of white space that ends at the first
/// character which is none, or at the end of the text.
pub proof fn lemma_leading_spaces(s: Seq<char>)
    ensures
        leading_spaces(s) <= s.len(),
        forall|i: int| 0 <= i < leading_spaces(s) ==> is_space(#[trigger] s[i]),
        leading_spaces(s) < s.len() ==> !is_space(s[leading_spaces(s) as int]),
    decreases s.len(),
{
    if s.len() > 0 && is_space(s[0]) {
        let rest = s.drop_first();
        lemma_leading_spaces(rest);
        assert forall|i: int| 0 <= i < leading_spaces(s) implies is_space(#[trigger] s[i]) by {
            if i > 0 {
                assert(s[i] == rest[i - 1]);
            }
        }
        if leading_spaces(s) < s.len() {
            assert(s[leading_spaces(s) as int] == rest[leading_spaces(rest) as int]);
        }
    }
}

/// The trailing white space is a run of white space that begins after the
/// last character which is none, or at the start of the text.
pub proof fn lemma_trailing_spaces(s: Seq<char>)
    ensures
        trailing_spaces(s) <= s.len(),
        forall|i: int| s.len() - trailing_spaces(s) <= i < s.len() ==> is_space(#[trigger] s[i]),
        trailing_spaces(s) < s.len() ==> !is_space(s[s.len() - trailing_spaces(s) - 1]),
    decreases s.len(),
{
    if s.len() > 0 && is_space(s.last()) {
        let rest = s.drop_last();
        lemma_trailing_spaces(rest);
        assert forall|i: int| s.len() - trailing_spaces(s) <= i < s.len() implies is_space(
            #[trigger] s[i],
        ) by {
            if i < s.len() - 1 {
                assert(s[i] == rest[i]);
            }
        }
        if trailing_spaces(s) < s.len() {
            assert(s[s.len() - trailing_spaces(s) - 1] == rest[rest.len() - trailing_spaces(rest)
                - 1]);
        }
    }
}

/// What trimming leaves is the part of the text from its first to its last
/// character that is not white space: all that stands before and behind is
/// white space, and what is left neither begins nor ends with any.
pub proof fn trim_is_the_inner_part(s: Seq<char>)
    ensures
        ({
            let from = leading_spaces(s) as int;
            let to = s.len() - trailing_spaces(trim_start(s));
            &&& 0 <= from <= to <= s.len()
            &&& trim(s) == s.subrange(from, to)
            &&& forall|i: int| 0 <= i < from ==> is_space(#[trigger] s[i])
            &&& forall|i: int| to <= i < s.len() ==> is_space(#[trigger] s[i])
            &&& from < to ==> !is_space(s[from]) && !is_space(s[to - 1])
        }),
{
    lemma_leading_spaces(s);
    let from = leading_spaces(s) as int;
    let rest = s.skip(from);
    lemma_trailing_spaces(rest);
    let to = s.len() - trailing_spaces(rest);
    assert(trim(s) =~= s.subrange(from, to));
    assert forall|i: int| to <= i < s.len() implies is_space(#[trigger] s[i]) by {
        assert(s[i] == rest[i - from]);
    }
    if from < to {
        assert(s[to - 1] == rest[rest.len() - trailing_spaces(rest) - 1]);
    }
}

/// The characters of `s`, one element each.
pub fn chars_of(s: &str) -> (chars: Vec<char>)
    ensures
        chars@ == s@,
{
    let mut chars: Vec<char> = Vec::new();
    for c in it: s.chars()
        invariant
            chars@ == it.seq().take(it.index() as int),
            it.seq() == s@,
    {
        chars.push(c);
    }
    chars
}

/// The characters of `s` from position `from` up to, not including, `to`.
pub fn slice_text(s: &str, from: usize, to: usize) -> (part: String)
    requires
        from <= to <= s@.len(),
    ensures
        part@ == s@.subrange(from as int, to as int),
{
    String::from_str(s.substring_char(from, to))
}

/// Removes the white space at both ends of `s`.
pub fn trim_text(s: &str) -> (trimmed: String)
    ensures
        trimmed@ == trim(s@),
{
    let chars = chars_of(s);
    let n = chars.len();
    let mut from: usize = 0;
    assert(s@.skip(0) =~= s@);
    while from < n && is_whitespace(chars[from])
        invariant
            chars@ == s@,
            n == chars@.len(),
            from <= n,
            leading_spaces(s@) == from + leading_spaces(s@.skip(from as int)),
        decreases n - from,
    {
        proof {
            let rest = s@.skip(from as int);
            assert(rest[0] == s@[from as int]);
            assert(rest.drop_first() =~= s@.skip(from + 1));
        }
        from += 1;
    }
    proof {
        let rest = s@.skip(from as int);
        if from < n {
            assert(rest[0] == s@[from as int]);
        }
        assert(leading_spaces(rest) == 0);
        assert(trim_start(s@) == rest);
    }
    let ghost rest = s@.skip(from as int);
    let mut to: usize = n;
    assert(s@.subrange(from as int, n as int) =~= rest);
    while to > from && is_whitespace(chars[to - 1])
        invariant
            chars@ == s@,
            n == chars@.len(),
            from <= to <= n,
            rest == s@.skip(from as int),
            trailing_spaces(rest) == (n - to) + trailing_spaces(s@.subrange(from as int, to as int)),
        decreases to - from,
    {
        proof {
            let window = s@.subrange(from as int, to as int);
            assert(window.last() == s@[to - 1]);
            assert(window.drop_last() =~= s@.subrange(from as int, to - 1));
        }
        to -= 1;
    }
    proof {
        let window = s@.subrange(from as int, to as int);
        if to > from {
            assert(window.last() == s@[to - 1]);
        }
        assert(trailing_spaces(window) == 0);
        assert(rest.take(rest.len() - trailing_spaces(rest)) =~= window);
    }
    slice_text(s, from, to)
}

/// Finds the first `c` among the characters from `lo` up to, not including, `hi`.
pub fn find_first(chars: &Vec<char>, lo: usize, hi: usize, c: char) -> (found: Option<usize>)
    requires
        lo <= hi <= chars@.len(),
    ensures
        match found {
            Some(i) => lo <= i < hi && chars@.subrange(lo as int, hi as int).index_of_first(c)
                == Some(i - lo),
            None => chars@.subrange(lo as int, hi as int).index_of_first(c) is None,
        },
{
    let ghost window = chars@.subrange(lo as int, hi as int);
    let mut i: usize = lo;
    while i < hi
        invariant
            lo <= i <= hi <= chars@.len(),
            window == chars@.subrange(lo as int, hi as int),
            forall|j: int| 0 <= j < i - lo ==> window[j] != c,
        decreases hi - i,
    {
        if chars[i] == c {
            proof {
                assert(window[i - lo] == c);
                window.index_of_first_ensures(c);
            }
            return Some(i);
        }
        i += 1;
    }
    proof {
        window.index_of_first_ensures(c);
    }
    None
}

/// Finds the last `c` among the characters from `lo` up to, not including, `hi`.
pub fn find_last(chars: &Vec<char>, lo: usize, hi: usize, c: char) -> (found: Option<usize>)
    requires
        lo <= hi <= chars@.len(),
    ensures
        match found {
            Some(i) => lo <= i < hi && chars@.subrange(lo as int, hi as int).index_of_last(c)
                == Some(i - lo),
            None => chars@.subrange(lo as int, hi as int).index_of_last(c) is None,
        },
{
    let ghost window = chars@.subrange(lo as int, hi as int);
    let mut i: usize = hi;
    while i > lo
        invariant
            lo <= i <= hi <= chars@.len(),
            window == chars@.subrange(lo as int, hi as int),
            forall|j: int| i - lo <= j < hi - lo ==> window[j] != c,
        decreases i - lo,
    {
        i -= 1;
        if chars[i] == c {
            proof {
                assert(window[i - lo] == c);
                window.index_of_last_ensures(c);
            }
            return Some(i);
        }
    }
    proof {
        window.index_of_last_ensures(c);
    }
    None
}

/// Whether `wanted` stands in `chars` at position `at`.
fn equal_run(chars: &Vec<char>, at: usize, wanted: &Vec<char>) -> (b: bool)
    requires
        at + wanted@.len() <= chars@.len(),
    ensures
        b == (chars@.subrange(at as int, at + wanted@.len()) == wanted@),
{
    let n = wanted.len();
    let total = chars.len();
    let mut i: usize = 0;
    while i < n
        invariant
            at + n <= total == chars@.len(),
            n == wanted@.len(),
            i <= n,
            forall|j: int| 0 <= j < i ==> chars@[at + j] == wanted@[j],
        decreases n - i,
    {
        if chars[at + i] != wanted[i] {
            assert(chars@.subrange(at as int, at + n)[i as int] != wanted@[i as int]);
            return false;
        }
        i += 1;
    }
    assert(chars@.subrange(at as int, at + n) =~= wanted@);
    true
}

/// Whether the characters from `lo` up to, not including, `hi` begin with `pattern`.
pub fn has_prefix(chars: &Vec<char>, lo: usize, hi: usize, pattern: &str) -> (b: bool)
    requires
        lo <= hi <= chars@.len(),
    ensures
        b == pattern@.is_prefix_of(chars@.subrange(lo as int, hi as int)),
{
    let wanted = chars_of(pattern);
    if hi - lo < wanted.len() {
        return false;
    }
    let found = equal_run(chars, lo, &wanted);
    proof {
        let window = chars@.subrange(lo as int, hi as int);
        assert(window.subrange(0, wanted@.len() as int) =~= chars@.subrange(
            lo as int,
            lo + wanted@.len(),
        ));
    }
    found
}

/// Whether the characters from `lo` up to, not including, `hi` end with `pattern`.
pub fn has_suffix(chars: &Vec<char>, lo: usize, hi: usize, pattern: &str) -> (b: bool)
    requires
        lo <= hi <= chars@.len(),
    ensures
        b == pattern@.is_suffix_of(chars@.subrange(lo as int, hi as int)),
{
    let wanted = chars_of(pattern);
    if hi - lo < wanted.len() {
        return false;
    }
    let at = hi - wanted.len();
    let found = equal_run(chars, at, &wanted);
    proof {
        let window = chars@.subrange(lo as int, hi as int);
        assert(window.subrange(window.len() - wanted@.len(), window.len() as int)
            =~= chars@.subrange(at as int, at + wanted@.len()));
    }
    found
}

/// The tokens with `sep` between each two neighbours.
pub open spec fn join(tokens: Seq<Seq<char>>, sep: Seq<char>) -> Seq<char>
    decreases tokens.len(),
{
    if tokens.len() == 0 {
        Seq::empty()
    } else if tokens.len() == 1 {
        tokens[0]
    } else {
        join(tokens.drop_last(), sep) + sep + tokens.last()
    }
}

/// Joins `tokens` into one text, with `sep` between each two neighbours.
pub fn join_text(tokens: &Vec<String>, sep: &str) -> (joined: String)
    ensures
        joined@ == join(tokens.deep_view(), sep@),
{
    let mut joined = String::new();
    let mut i: usize = 0;
    while i < tokens.len()
        invariant
            i <= tokens@.len(),
            joined@ == join(tokens.deep_view().take(i as int), sep@),
        decreases tokens@.len() - i,
    {
        let ghost before = tokens.deep_view().take(i as int);
        let ghost after = tokens.deep_view().take(i + 1);
        if i > 0 {
            joined.append(sep);
        }
        joined.append(tokens[i].as_str());
        proof {
            assert(after.drop_last() =~= before);
            assert(after.last() == tokens@[i as int]@);
            if i == 0 {
                assert(joined@ =~= after[0]);
            }
        }
        i += 1;
    }
    assert(tokens.deep_view().take(i as int) =~= tokens.deep_view());
    joined
}

} // verus!
