//! The pattern tokens of an operand string, the errors of the library, and
//! the table of character-membership tests.

use vstd::prelude::*;
use vstd::string::StringExecFns;

use crate::chars::{
    alnum_char, alpha_char, char_is_alphabetic, char_is_alphanumeric, char_is_control,
    char_is_lowercase, char_is_numeric, char_is_uppercase, char_is_whitespace, control_char,
    lower_char, numeric_char, upper_char, white_char,
};

verus! {

/// One token of a parsed operand string: a literal character or a named
/// character class.
#[derive(Debug, Clone, Copy, PartialEq, Eq, Structural)]
pub enum Pattern {
    /// A literal character.
    Char(char),
    Alnum,
    Alpha,
    Blank,
    Cntrl,
    Digit,
    Lower,
    Space,
    Upper,
}

/// The errors the library can surface; all abort the current invocation.
#[derive(Debug, Clone, Copy, PartialEq, Eq, Structural)]
pub enum TrError {
    /// A `[:`...`:]`-shaped token does not name a known class.
    InvalidClassName,
    /// The second operand has no token to pad with.
    EmptyAlignmentTarget,
    /// A shifted code point fell outside the Unicode scalar values.
    CodePointOverflow,
    /// The flag and operand combination selects no mode.
    Usage,
}

impl TrError {
    /// A human-readable description of the error.
    pub fn message(&self) -> (r: String)
        ensures
            *self is InvalidClassName ==> r@ == "Invalid class."@,
            *self is EmptyAlignmentTarget ==> r@ == "Empty alignment target."@,
            *self is CodePointOverflow ==> r@ == "Code point out of range."@,
            *self is Usage ==> r@
                == "usage: \n            tr [-Ccsu] string1 string2\n            tr [-Ccu] -d string1\n            tr [-Ccu] -s string1\n            tr [-Ccu] -ds string1 string2"@,
    {
        match self {
            TrError::InvalidClassName => String::from_str("Invalid class."),
            TrError::EmptyAlignmentTarget => String::from_str("Empty alignment target."),
            TrError::CodePointOverflow => String::from_str("Code point out of range."),
            TrError::Usage => String::from_str(
                "usage: \n            tr [-Ccsu] string1 string2\n            tr [-Ccu] -d string1\n            tr [-Ccu] -s string1\n            tr [-Ccu] -ds string1 string2",
            ),
        }
    }
}

/// The character test a pattern stands for in the delete and squeeze
/// operations: Blank and Space test for any whitespace.
pub open spec fn pattern_test(p: Pattern, c: char) -> bool {
    match p {
        Pattern::Char(c1) => c == c1,
        Pattern::Alnum => alnum_char(c),
        Pattern::Alpha => alpha_char(c),
        Pattern::Blank => white_char(c),
        Pattern::Cntrl => control_char(c),
        Pattern::Digit => numeric_char(c),
        Pattern::Lower => lower_char(c),
        Pattern::Space => white_char(c),
        Pattern::Upper => upper_char(c),
    }
}

/// The character test a source pattern stands for in the translate
/// operation: there, Blank and Space match only the ASCII space character.
pub open spec fn pattern_selects(p: Pattern, c: char) -> bool {
    match p {
        Pattern::Char(c1) => c == c1,
        Pattern::Alnum => alnum_char(c),
        Pattern::Alpha => alpha_char(c),
        Pattern::Blank => c == ' ',
        Pattern::Cntrl => control_char(c),
        Pattern::Digit => numeric_char(c),
        Pattern::Lower => lower_char(c),
        Pattern::Space => c == ' ',
        Pattern::Upper => upper_char(c),
    }
}

/// Whether the character belongs to the pattern's delete/squeeze test.
pub fn check_char(pattern: &Pattern, character: &char) -> (r: bool)
    ensures
        r == pattern_test(*pattern, *character),
{
    match pattern {
        Pattern::Char(c1) => *c1 == *character,
        Pattern::Alnum => char_is_alphanumeric(*character),
        Pattern::Alpha => char_is_alphabetic(*character),
        Pattern::Blank => char_is_whitespace(*character),
        Pattern::Cntrl => char_is_control(*character),
        Pattern::Digit => char_is_numeric(*character),
        Pattern::Lower => char_is_lowercase(*character),
        Pattern::Space => char_is_whitespace(*character),
        Pattern::Upper => char_is_uppercase(*character),
    }
}

/// Whether the character is selected by a source pattern in translation.
pub(crate) fn check_selects(pattern: &Pattern, character: char) -> (r: bool)
    ensures
        r == pattern_selects(*pattern, character),
{
    match pattern {
        Pattern::Char(c1) => *c1 == character,
        Pattern::Alnum => char_is_alphanumeric(character),
        Pattern::Alpha => char_is_alphabetic(character),
        Pattern::Blank => character == ' ',
        Pattern::Cntrl => char_is_control(character),
        Pattern::Digit => char_is_numeric(character),
        Pattern::Lower => char_is_lowercase(character),
        Pattern::Space => character == ' ',
        Pattern::Upper => char_is_uppercase(character),
    }
}

} // verus!
