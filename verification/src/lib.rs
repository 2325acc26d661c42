pub mod command_line;
pub mod decimal;
pub mod errors;
pub mod file_size_formatter;
pub mod text;

use vstd::prelude::*;

use crate::errors::Error;
use crate::file_size_formatter::{new_outcome, FileSizeFormatter, Size};

verus! {

/// One whole run on an already materialized argument: parse, convert and
/// render the size-and-unit string, or report the first thing wrong with it.
/// An absent argument is its own error; printing the result and choosing the
/// exit status are the caller's business.
pub fn process(size_and_unit: Option<String>) -> (r: Result<Size, Error>)
    ensures
        size_and_unit is None ==> (r matches Err(e) && (e matches Error::NotArgumentSizeAndUnitProvided(m)
            && m@ == "NotArgumentSizeAndUnitProvided"@)),
        size_and_unit matches Some(s) ==> new_outcome(s@, r),
{
    let arg = match size_and_unit {
        Some(s) => s,
        None => {
            return Err(
                Error::NotArgumentSizeAndUnitProvided(
                    String::from_str("NotArgumentSizeAndUnitProvided"),
                ),
            );
        },
    };
    FileSizeFormatter::new(arg)
}

} // verus!
