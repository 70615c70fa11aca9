//! Line processing: dispatch one line of text to the operation the selected
//! mode asks for.

use vstd::prelude::*;

use crate::args::Cli;
use crate::delete::{delete, delete_result};
use crate::init::Mode;
use crate::pattern::TrError;
use crate::squeeze::{compress, squeeze_result};
use crate::translate::{translate, translate_result};

verus! {

/// What processing one line returns in the given mode.
pub open spec fn process_result(mode: Mode, args: Cli, line: Seq<char>) -> Result<
    Seq<char>,
    TrError,
> {
    match mode {
        Mode::Translate => translate_result(args.string1@, (args.string2->0)@, line),
        Mode::Delete => delete_result(args.string1@, line),
        Mode::Compress => squeeze_result(args.string1@, line),
        Mode::DeleteCompress => Ok(Seq::empty()),
    }
}

/// Translate, delete or squeeze a single line.
pub fn process_line(line: String, args: &Cli, mode: &Mode) -> (r: Result<String, TrError>)
    requires
        *mode is Translate ==> args.string2 is Some,
    ensures
        (match r {
            Ok(out) => process_result(*mode, *args, line@) == Ok::<Seq<char>, TrError>(out@),
            Err(e) => process_result(*mode, *args, line@) == Err::<Seq<char>, TrError>(e),
        }),
{
    match mode {
        Mode::Translate => translate(line, args),
        Mode::Delete => delete(line, args),
        Mode::Compress => compress(line, args),
        Mode::DeleteCompress => delete_and_compress(line, args),
    }
}

/// The delete-and-compress mode has no defined line transformation yet:
/// every line yields an empty result.
pub fn delete_and_compress(line: String, args: &Cli) -> (r: Result<String, TrError>)
    ensures
        r matches Ok(out) && out@ == Seq::<char>::empty(),
{
    let _ = line;
    let _ = args;
    Ok(String::new())
}

} // verus!
