//! The flags and operands of one invocation, as plain values, and the
//! validation applied to operand strings.

use vstd::prelude::*;
use vstd::string::StringExecFns;

verus! {

/// The flags and operands the user supplied.
#[derive(Debug)]
pub struct Cli {
    /// Complement the set of characters in string1; accepted but never
    /// consulted by the line operations.
    pub complement1: bool,
    /// Complement the set of values in string1; accepted but never
    /// consulted by the line operations.
    pub complement2: bool,
    /// Delete characters in string1 from the input.
    pub delete: bool,
    /// Squeeze repeated occurrences of the characters in the last operand.
    pub squeeze: bool,
    /// Guarantee that any output is unbuffered; accepted but never
    /// consulted by the line operations.
    pub unbuffered: bool,
    /// A set of characters to translate into the characters in string2.
    pub string1: String,
    /// A set of characters to replace the characters in string1.
    pub string2: Option<String>,
}

impl Default for Cli {
    /// All flags off and empty operands.
    fn default() -> (r: Self)
        ensures
            !r.complement1,
            !r.complement2,
            !r.delete,
            !r.squeeze,
            !r.unbuffered,
            r.string1@ == Seq::<char>::empty(),
            r.string2 is None,
    {
        Cli {
            complement1: false,
            complement2: false,
            delete: false,
            squeeze: false,
            unbuffered: false,
            string1: String::new(),
            string2: None,
        }
    }
}

/// Accept an operand only if it holds at least one character.
pub fn not_empty(arg: &str) -> (r: Result<String, String>)
    ensures
        arg@.len() > 0 ==> (r matches Ok(s) && s@ == arg@),
        arg@.len() == 0 ==> (r matches Err(m) && m@ == " contains no characters"@),
{
    if arg.is_empty() {
        Err(String::from_str(" contains no characters"))
    } else {
        Ok(arg.to_owned())
    }
}

} // verus!
