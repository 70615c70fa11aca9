//! Character tests and conversions taken from the standard library, each
//! behind a contract, together with helpers between strings and character
//! vectors.

use vstd::prelude::*;
use vstd::string::StrSliceExecFns;

verus! {

/// Whether `u` is a Unicode scalar value, the set of code points a `char` can hold.
pub open spec fn scalar_ok(u: u32) -> bool {
    u < 0xD800 || (0xE000 <= u && u <= 0x10FFFF)
}

/// Whether a character is alphanumeric.
pub uninterp spec fn alnum_char(c: char) -> bool;

/// Whether a character is alphabetic.
pub uninterp spec fn alpha_char(c: char) -> bool;

/// Whether a character is a control character.
pub uninterp spec fn control_char(c: char) -> bool;

/// Whether a character is numeric.
pub uninterp spec fn numeric_char(c: char) -> bool;

/// Whether a character is lowercase.
pub uninterp spec fn lower_char(c: char) -> bool;

/// Whether a character is uppercase.
pub uninterp spec fn upper_char(c: char) -> bool;

/// Whether a character is whitespace.
pub uninterp spec fn white_char(c: char) -> bool;

/// The first character of a character's lowercase mapping.
pub uninterp spec fn lower_first(c: char) -> char;

/// The first character of a character's uppercase mapping.
pub uninterp spec fn upper_first(c: char) -> char;

/// Relies on char::is_alphanumeric: membership in the Unicode letter and
/// number categories, a function of the character alone.
#[verifier::external_body]
pub(crate) fn char_is_alphanumeric(c: char) -> (r: bool)
    ensures
        r == alnum_char(c),
{
    c.is_alphanumeric()
}

/// Relies on char::is_alphabetic: membership in the Unicode letter
/// categories, a function of the character alone.
#[verifier::external_body]
pub(crate) fn char_is_alphabetic(c: char) -> (r: bool)
    ensures
        r == alpha_char(c),
{
    c.is_alphabetic()
}

/// Relies on char::is_control: membership in the Unicode control category,
/// a function of the character alone.
#[verifier::external_body]
pub(crate) fn char_is_control(c: char) -> (r: bool)
    ensures
        r == control_char(c),
{
    c.is_control()
}

/// Relies on char::is_numeric: membership in the Unicode number categories,
/// a function of the character alone.
#[verifier::external_body]
pub(crate) fn char_is_numeric(c: char) -> (r: bool)
    ensures
        r == numeric_char(c),
{
    c.is_numeric()
}

/// Relies on char::is_lowercase: the Unicode lowercase property, a function
/// of the character alone.
#[verifier::external_body]
pub(crate) fn char_is_lowercase(c: char) -> (r: bool)
    ensures
        r == lower_char(c),
{
    c.is_lowercase()
}

/// Relies on char::is_uppercase: the Unicode uppercase property, a function
/// of the character alone.
#[verifier::external_body]
pub(crate) fn char_is_uppercase(c: char) -> (r: bool)
    ensures
        r == upper_char(c),
{
    c.is_uppercase()
}

/// Relies on char::is_whitespace: the Unicode whitespace property, a function
/// of the character alone.
#[verifier::external_body]
pub(crate) fn char_is_whitespace(c: char) -> (r: bool)
    ensures
        r == white_char(c),
{
    c.is_whitespace()
}

/// Relies on char::to_lowercase: the lowercase mapping of a character, a
/// function of the character alone; its iterator yields at least one
/// character, of which this returns the first.
#[verifier::external_body]
pub(crate) fn char_to_lowercase_first(c: char) -> (r: char)
    ensures
        r == lower_first(c),
{
    match c.to_lowercase().next() {
        Some(l) => l,
        None => c,
    }
}

/// Relies on char::to_uppercase: the uppercase mapping of a character, a
/// function of the character alone; its iterator yields at least one
/// character, of which this returns the first.
#[verifier::external_body]
pub(crate) fn char_to_uppercase_first(c: char) -> (r: char)
    ensures
        r == upper_first(c),
{
    match c.to_uppercase().next() {
        Some(u) => u,
        None => c,
    }
}

/// Relies on char::from_u32: `Some` exactly on Unicode scalar values, and
/// the character returned has code point `u`.
#[verifier::external_body]
pub(crate) fn char_from_u32(u: u32) -> (r: Option<char>)
    ensures
        r is Some <==> scalar_ok(u),
        r matches Some(c) ==> c as u32 == u,
{
    char::from_u32(u)
}

/// Relies on String::push: appends the character to the end of the string.
#[verifier::external_body]
pub(crate) fn push_char(s: &mut String, c: char)
    ensures
        final(s)@ == old(s)@.push(c),
{
    s.push(c);
}

/// The characters of a string slice, in order.
pub(crate) fn str_chars(s: &str) -> (v: Vec<char>)
    ensures
        v@ == s@,
{
    let n = s.unicode_len();
    let mut v: Vec<char> = Vec::new();
    let mut i: usize = 0;
    while i < n
        invariant
            n == s@.len(),
            i <= n,
            v@ == s@.subrange(0, i as int),
        decreases n - i,
    {
        v.push(s.get_char(i));
        proof {
            assert(s@.subrange(0, i + 1 as int) =~= s@.subrange(0, i as int).push(s@[i as int]));
        }
        i += 1;
    }
    proof {
        assert(v@ =~= s@);
    }
    v
}

/// A string holding exactly the given characters, in order.
pub(crate) fn chars_to_string(v: &Vec<char>) -> (s: String)
    ensures
        s@ == v@,
{
    let mut s = String::new();
    let mut i: usize = 0;
    while i < v.len()
        invariant
            i <= v@.len(),
            s@ == v@.subrange(0, i as int),
        decreases v@.len() - i,
    {
        push_char(&mut s, v[i]);
        proof {
            assert(v@.subrange(0, i + 1 as int) =~= v@.subrange(0, i as int).push(v@[i as int]));
        }
        i += 1;
    }
    proof {
        assert(s@ =~= v@);
    }
    s
}

} // verus!
