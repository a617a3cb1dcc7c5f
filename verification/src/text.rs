//! Text building blocks shared by the request, message and path builders.

use vstd::prelude::*;

verus! {

/// `String::push` appends one character and changes nothing else.
pub assume_specification[ String::push ](s: &mut String, c: char)
    ensures
        final(s)@ == old(s)@.push(c),
;

/// What `str::to_lowercase` makes of a text: its Unicode lowercase mapping.
pub uninterp spec fn lowercase_of(s: Seq<char>) -> Seq<char>;

/// `str::to_lowercase`: the result is the Unicode lowercase mapping of the
/// argument, which depends on the argument's characters alone.
#[verifier::external_body]
pub(crate) fn to_lowercase(s: &str) -> (lower: String)
    ensures
        lower@ == lowercase_of(s@),
{
    s.to_lowercase()
}

/// Whether two texts hold the same characters.
pub fn str_eq(a: &str, b: &str) -> (same: bool)
    ensures
        same == (a@ == b@),
{
    let left = a.to_owned();
    let right = b.to_owned();
    left == right
}

/// `s` with every dash turned into a space.
pub open spec fn spec_dashes_to_spaces(s: Seq<char>) -> Seq<char> {
    s.map_values(|c: char| if c == '-' { ' ' } else { c })
}

/// Turns a slug into a search term: every `-` becomes a space, everything
/// else stays in place.
pub fn dashes_to_spaces(s: &str) -> (out: String)
    ensures
        out@ == spec_dashes_to_spaces(s@),
{
    let mut out = String::new();
    for c in it: s.chars()
        invariant
            out@ == spec_dashes_to_spaces(s@.take(it.index() as int)),
            it.seq() == s@,
    {
        assert(s@.take(it.index() + 1) == s@.take(it.index() as int).push(c));
        if c == '-' {
            out.push(' ');
        } else {
            out.push(c);
        }
    }
    assert(s@.take(s@.len() as int) == s@);
    out
}

/// The decimal digit that stands for `d`.
pub open spec fn digit_char(d: nat) -> char
    recommends
        d < 10,
{
    (('0' as u8) + (d as u8)) as char
}

/// The decimal numeral of `n`, without leading zeros (`"0"` for zero).
pub open spec fn decimal(n: nat) -> Seq<char>
    decreases n,
{
    if n < 10 {
        seq![digit_char(n)]
    } else {
        decimal(n / 10).push(digit_char(n % 10))
    }
}

/// The decimal numeral of `n`.
pub fn u64_to_decimal(n: u64) -> (out: String)
    ensures
        out@ == decimal(n as nat),
    decreases n,
{
    let last: u8 = (n % 10) as u8;
    let digit: char = (48u8 + last) as char;
    if n < 10 {
        let mut out = String::new();
        out.push(digit);
        out
    } else {
        let mut out = u64_to_decimal(n / 10);
        out.push(digit);
        out
    }
}

/// The concatenation of two texts.
pub fn concat2(a: &str, b: &str) -> (out: String)
    ensures
        out@ == a@ + b@,
{
    let mut out = a.to_owned();
    out.append(b);
    out
}

/// The concatenation of three texts.
pub fn concat3(a: &str, b: &str, c: &str) -> (out: String)
    ensures
        out@ == a@ + b@ + c@,
{
    let mut out = a.to_owned();
    out.append(b);
    out.append(c);
    out
}

/// What `str::trim` leaves of a text: the text without the white space at
/// its two ends.
pub uninterp spec fn trimmed(s: Seq<char>) -> Seq<char>;

/// `str::trim`: the result depends on the argument's characters alone.
#[verifier::external_body]
pub(crate) fn trim(s: &str) -> (out: String)
    ensures
        out@ == trimmed(s@),
{
    s.trim().to_owned()
}

/// The text with `c` put in before the character at `index`.
pub fn insert_char(s: &str, index: usize, c: char) -> (out: String)
    requires
        index <= s@.len(),
    ensures
        out@ == s@.insert(index as int, c),
{
    let total = s.unicode_len();
    let mut out = String::new();
    let mut seen: usize = 0;
    for current in it: s.chars()
        invariant
            it.seq() == s@,
            seen == it.index(),
            total == s@.len(),
            index <= s@.len(),
            out@ == if seen <= index {
                s@.take(seen as int)
            } else {
                s@.take(seen as int).insert(index as int, c)
            },
    {
        assert(s@.take(seen + 1) == s@.take(seen as int).push(current));
        if seen == index {
            out.push(c);
            out.push(current);
            assert(out@ =~= s@.take(seen + 1).insert(index as int, c));
        } else {
            out.push(current);
            assert(seen > index ==> out@ =~= s@.take(seen + 1).insert(index as int, c));
        }
        seen = seen + 1;
    }
    assert(s@.take(s@.len() as int) == s@);
    if seen == index {
        out.push(c);
        assert(out@ =~= s@.insert(index as int, c));
    }
    out
}

/// The text without the character at `index`.
pub fn remove_char(s: &str, index: usize) -> (out: String)
    requires
        index < s@.len(),
    ensures
        out@ == s@.remove(index as int),
{
    let total = s.unicode_len();
    let mut out = String::new();
    let mut seen: usize = 0;
    for current in it: s.chars()
        invariant
            it.seq() == s@,
            seen == it.index(),
            total == s@.len(),
            index < s@.len(),
            out@ == if seen <= index {
                s@.take(seen as int)
            } else {
                s@.take(seen as int).remove(index as int)
            },
    {
        assert(s@.take(seen + 1) == s@.take(seen as int).push(current));
        if seen != index {
            out.push(current);
        }
        assert(out@ =~= if seen + 1 <= index {
            s@.take(seen + 1)
        } else {
            s@.take(seen + 1).remove(index as int)
        });
        seen = seen + 1;
    }
    assert(s@.take(s@.len() as int) == s@);
    out
}

} // verus!
