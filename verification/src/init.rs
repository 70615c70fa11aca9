//! Mode selection: which line operation the flag and operand combination
//! asks for.

use vstd::prelude::*;

use crate::args::Cli;
use crate::pattern::TrError;

verus! {

/// The line operation one invocation runs.
#[derive(Debug, Clone, Copy, PartialEq, Eq, Structural)]
pub enum Mode {
    /// Translate the characters from string1 to string2.
    Translate,
    /// Delete the characters listed in string1.
    Delete,
    /// Remove the duplicate characters listed in string1.
    Compress,
    /// Delete the characters listed in string1 and remove duplicate
    /// characters listed in string2.
    DeleteCompress,
}

/// The mode a flag and operand combination selects, or a usage error when
/// no mode fits.
pub open spec fn mode_choice(args: Cli) -> Result<Mode, TrError> {
    if args.string2 is None && args.delete && !args.squeeze {
        Ok(Mode::Delete)
    } else if args.string2 is None && !args.delete && args.squeeze {
        Ok(Mode::Compress)
    } else if args.string2 is Some && !args.delete {
        Ok(Mode::Translate)
    } else if args.string2 is Some && args.delete && args.squeeze {
        Ok(Mode::DeleteCompress)
    } else {
        Err(TrError::Usage)
    }
}

/// Decide what mode to run in.
pub fn init(args: &Cli) -> (r: Result<Mode, TrError>)
    ensures
        r == mode_choice(*args),
{
    if args.string2.is_none() && args.delete && !args.squeeze {
        Ok(Mode::Delete)
    } else if args.string2.is_none() && !args.delete && args.squeeze {
        Ok(Mode::Compress)
    } else if args.string2.is_some() && !args.delete {
        Ok(Mode::Translate)
    } else if args.string2.is_some() && args.delete && args.squeeze {
        Ok(Mode::DeleteCompress)
    } else {
        Err(TrError::Usage)
    }
}

} // verus!
