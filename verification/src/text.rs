//! Text helpers: decimal numerals, white space, ASCII case and replacement.
use vstd::prelude::*;
use vstd::string::StringExecFns;

verus! {

/// `String::push`, which puts one character at the end of the text.
///
/// The contract claims that the text afterwards is the text before with that
/// character added behind it.
pub assume_specification[ String::push ](s: &mut String, c: char)
    ensures
        final(s)@ == old(s)@.push(c),
;

/// The text of an optional string.
pub open spec fn option_text(s: Option<String>) -> Option<Seq<char>> {
    match s {
        Some(s) => Some(s@),
        None => None,
    }
}

/// The text of an optional piece of text.
pub open spec fn option_str(s: Option<&str>) -> Option<Seq<char>> {
    match s {
        Some(s) => Some(s@),
        None => None,
    }
}

/// The numeral of a number below ten.
pub open spec fn digit(d: nat) -> char {
    (0x30 + d) as char
}

/// The decimal numeral of a natural number, without leading zeros.
pub open spec fn decimal_nat(n: nat) -> Seq<char>
    decreases n,
{
    if n < 10 {
        seq![digit(n)]
    } else {
        decimal_nat(n / 10).push(digit(n % 10))
    }
}

/// The decimal numeral of an integer, with a minus sign in front of a negative one.
pub open spec fn decimal_int(n: int) -> Seq<char> {
    if n < 0 {
        seq!['-'] + decimal_nat((-n) as nat)
    } else {
        decimal_nat(n as nat)
    }
}

/// Writes the decimal numeral of `n` behind `out`.
pub fn push_decimal(out: &mut String, n: u64)
    ensures
        final(out)@ == old(out)@ + decimal_nat(n as nat),
    decreases n,
{
    if n >= 10 {
        push_decimal(out, n / 10);
    }
    let d: u8 = 0x30 + (n % 10) as u8;
    out.push(d as char);
}

/// Writes the decimal numeral of `n`, with its sign if it is negative.
pub fn decimal(n: i64) -> (r: String)
    ensures
        r@ == decimal_int(n as int),
{
    let mut out = String::new();
    if n < 0 {
        out.push('-');
        let magnitude: u64 = (-(n + 1)) as u64 + 1;
        push_decimal(&mut out, magnitude);
    } else {
        push_decimal(&mut out, n as u64);
    }
    out
}

/// The characters with the Unicode property `White_Space`.
pub open spec fn white_space(c: char) -> bool {
    ||| '\u{9}' <= c <= '\u{d}'
    ||| c == ' '
    ||| c == '\u{85}'
    ||| c == '\u{a0}'
    ||| c == '\u{1680}'
    ||| '\u{2000}' <= c <= '\u{200a}'
    ||| c == '\u{2028}'
    ||| c == '\u{2029}'
    ||| c == '\u{202f}'
    ||| c == '\u{205f}'
    ||| c == '\u{3000}'
}

/// Whether `c` is white space.
pub fn is_white_space(c: char) -> (r: bool)
    ensures
        r == white_space(c),
{
    ('\u{9}' <= c && c <= '\u{d}') || c == ' ' || c == '\u{85}' || c == '\u{a0}' || c == '\u{1680}'
        || ('\u{2000}' <= c && c <= '\u{200a}') || c == '\u{2028}' || c == '\u{2029}' || c
        == '\u{202f}' || c == '\u{205f}' || c == '\u{3000}'
}

/// Whether some character of `s` is white space.
pub open spec fn has_white_space(s: Seq<char>) -> bool {
    exists|i: int| 0 <= i < s.len() && white_space(#[trigger] s[i])
}

/// Whether `s` holds any white space.
pub fn contains_white_space(s: &str) -> (r: bool)
    ensures
        r == has_white_space(s@),
{
    let mut rest = s.chars();
    let ghost mut done: int = 0;
    loop
        invariant
            0 <= done <= s@.len(),
            vstd::std_specs::iter::IteratorSpec::remaining(&rest) == s@.skip(done),
            forall|i: int| 0 <= i < done ==> !white_space(#[trigger] s@[i]),
        decreases s@.len() - done,
    {
        match rest.next() {
            None => {
                return false;
            },
            Some(c) => {
                assert(s@.skip(done)[0] == s@[done]);
                if is_white_space(c) {
                    return true;
                }
                assert(s@.skip(done).drop_first() =~= s@.skip(done + 1));
                proof {
                    done = done + 1;
                }
            },
        }
    }
}

/// The lower case of an ASCII letter; any other character is its own.
pub open spec fn ascii_lower(c: char) -> char {
    if 'A' <= c <= 'Z' {
        (c as u32 + 32) as char
    } else {
        c
    }
}

/// `s` with its ASCII letters in lower case.
pub open spec fn ascii_lowered(s: Seq<char>) -> Seq<char> {
    s.map_values(|c: char| ascii_lower(c))
}

/// The lower case of `c` if it is an ASCII letter, else `c`.
pub fn to_ascii_lower(c: char) -> (r: char)
    ensures
        r == ascii_lower(c),
{
    if 'A' <= c && c <= 'Z' {
        ((c as u8) + 32) as char
    } else {
        c
    }
}

/// Whether `left` and `right` differ at most in the case of ASCII letters.
pub fn same_ignoring_ascii_case(left: &str, right: &str) -> (r: bool)
    ensures
        r == (ascii_lowered(left@) == ascii_lowered(right@)),
{
    let mut l = left.chars();
    let mut r = right.chars();
    let ghost mut done: int = 0;
    loop
        invariant
            0 <= done <= left@.len(),
            done <= right@.len(),
            vstd::std_specs::iter::IteratorSpec::remaining(&l) == left@.skip(done),
            vstd::std_specs::iter::IteratorSpec::remaining(&r) == right@.skip(done),
            forall|i: int|
                0 <= i < done ==> ascii_lower(#[trigger] left@[i]) == ascii_lower(right@[i]),
        decreases left@.len() - done,
    {
        let a = l.next();
        let b = r.next();
        match (a, b) {
            (None, None) => {
                assert(ascii_lowered(left@) =~= ascii_lowered(right@));
                return true;
            },
            (Some(c), Some(d)) => {
                assert(c == left@[done] && d == right@[done]);
                if to_ascii_lower(c) != to_ascii_lower(d) {
                    assert(ascii_lowered(left@)[done] != ascii_lowered(right@)[done]);
                    return false;
                }
                assert(left@.skip(done).drop_first() =~= left@.skip(done + 1));
                assert(right@.skip(done).drop_first() =~= right@.skip(done + 1));
                proof {
                    done = done + 1;
                }
            },
            _ => {
                assert(ascii_lowered(left@).len() != ascii_lowered(right@).len());
                return false;
            },
        }
    }
}

/// `s` with `to` in place of every `from`.
pub open spec fn replaced(s: Seq<char>, from: char, to: Seq<char>) -> Seq<char>
    decreases s.len(),
{
    if s.len() == 0 {
        seq![]
    } else {
        replaced(s.drop_last(), from, to) + (if s.last() == from {
            to
        } else {
            seq![s.last()]
        })
    }
}

/// Puts `to` in place of every `from` in `s`.
pub fn replace_char(s: &str, from: char, to: &str) -> (r: String)
    ensures
        r@ == replaced(s@, from, to@),
{
    let mut out = String::new();
    let mut rest = s.chars();
    let ghost mut done: int = 0;
    loop
        invariant
            0 <= done <= s@.len(),
            vstd::std_specs::iter::IteratorSpec::remaining(&rest) == s@.skip(done),
            out@ == replaced(s@.take(done), from, to@),
        decreases s@.len() - done,
    {
        match rest.next() {
            None => {
                assert(s@.take(done) =~= s@);
                return out;
            },
            Some(c) => {
                assert(s@.take(done + 1).drop_last() =~= s@.take(done));
                assert(s@.skip(done).drop_first() =~= s@.skip(done + 1));
                if c == from {
                    out.append(to);
                } else {
                    out.push(c);
                }
                proof {
                    done = done + 1;
                }
            },
        }
    }
}

/// A numeral of one digit is that digit; one more digit behind a numeral makes it ten times
/// as much and that digit more. A minus sign in front makes it negative.
pub proof fn numerals_are_positional(m: nat, d: nat)
    requires
        d < 10,
    ensures
        decimal_nat(d) == seq![(0x30 + d) as char],
        m > 0 ==> decimal_nat(10 * m + d) == decimal_nat(m).push((0x30 + d) as char),
        decimal_int(m as int) == decimal_nat(m),
        m > 0 ==> decimal_int(-m) == seq!['-'] + decimal_nat(m),
{
    if m > 0 {
        let n = 10 * m + d;
        assert(n / 10 == m && n % 10 == d);
    }
}

/// White space is what Unicode gives that property, and no other character is.
pub proof fn white_space_is_that_of_unicode(c: char)
    ensures
        white_space(c) <==> ({
            let code = c as u32;
            ||| 0x9 <= code <= 0xd
            ||| code == 0x20
            ||| code == 0x85
            ||| code == 0xa0
            ||| code == 0x1680
            ||| 0x2000 <= code <= 0x200a
            ||| 0x2028 <= code <= 0x2029
            ||| code == 0x202f
            ||| code == 0x205f
            ||| code == 0x3000
        }),
{
}

/// A text holds white space exactly if one of its parts does, down to its characters.
pub proof fn white_space_is_found_in_any_part(a: Seq<char>, b: Seq<char>, c: char)
    ensures
        !has_white_space(seq![]),
        has_white_space(seq![c]) == white_space(c),
        has_white_space(a + b) == (has_white_space(a) || has_white_space(b)),
{
    assert(seq![c][0] == c);
    if has_white_space(a) {
        let i = choose|i: int| 0 <= i < a.len() && white_space(#[trigger] a[i]);
        assert((a + b)[i] == a[i]);
    }
    if has_white_space(b) {
        let i = choose|i: int| 0 <= i < b.len() && white_space(#[trigger] b[i]);
        assert((a + b)[a.len() + i] == b[i]);
    }
    if has_white_space(a + b) {
        let i = choose|i: int| 0 <= i < (a + b).len() && white_space(#[trigger] (a + b)[i]);
        if i < a.len() {
            assert(white_space(a[i]));
        } else {
            assert(white_space(b[i - a.len()]));
        }
    }
}

/// In lower case the 26 capital letters of ASCII move by 32, and no other character changes,
/// nor does the place of any.
pub proof fn only_ascii_capitals_are_lowered(s: Seq<char>, i: int)
    requires
        0 <= i < s.len(),
    ensures
        ascii_lowered(s).len() == s.len(),
        0x41 <= s[i] as u32 <= 0x5a ==> ascii_lowered(s)[i] as u32 == s[i] as u32 + 32,
        !(0x41 <= s[i] as u32 <= 0x5a) ==> ascii_lowered(s)[i] == s[i],
        ascii_lower(s[i]) == ascii_lowered(s)[i],
{
}

/// Replacing goes character by character: a text without the character stays, the character
/// itself becomes the other text, and of two texts each is replaced by itself.
pub proof fn replacing_goes_by_characters(
    a: Seq<char>,
    b: Seq<char>,
    c: char,
    from: char,
    to: Seq<char>,
)
    ensures
        replaced(seq![], from, to) == Seq::<char>::empty(),
        replaced(seq![from], from, to) == to,
        c != from ==> replaced(seq![c], from, to) == seq![c],
        replaced(a + b, from, to) == replaced(a, from, to) + replaced(b, from, to),
    decreases b.len(),
{
    reveal_with_fuel(replaced, 2);
    assert(seq![c].drop_last() =~= Seq::<char>::empty());
    assert(seq![from].drop_last() =~= Seq::<char>::empty());
    assert(replaced(seq![from], from, to) =~= to);
    if c != from {
        assert(replaced(seq![c], from, to) =~= seq![c]);
    }
    if b.len() == 0 {
        assert(a + b =~= a);
        assert(replaced(a, from, to) + replaced(b, from, to) =~= replaced(a, from, to));
    } else {
        replacing_goes_by_characters(a, b.drop_last(), c, from, to);
        assert((a + b).drop_last() =~= a + b.drop_last());
        assert((a + b).last() == b.last());
        assert(replaced(a + b, from, to) =~= replaced(a, from, to) + replaced(b, from, to));
    }
}

/// The text of an optional text is all of it, and there is none only if there is no text.
pub proof fn optional_texts_are_whole(owned: String, lent: &str)
    ensures
        option_text(Some(owned)) == Some(owned@),
        option_text(None) == None::<Seq<char>>,
        option_str(Some(lent)) == Some(lent@),
        option_str(None) == None::<Seq<char>>,
{
}

} // verus!
