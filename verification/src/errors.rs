//! How the engine's errors read.

use crate::text::{contains, mentions};
use vstd::prelude::*;

verus! {

/// The description of an error says that a file was not found: it gives the
/// error's name, or its number in round brackets.
pub open spec fn names_missing_file(description: Seq<char>) -> bool {
    mentions(description, "ERR_FILE_NOTFOUND"@) || mentions(description, "(23)"@)
}

/// Whether the description of an error says that a file was not found.
pub fn is_file_not_found(description: &str) -> (missing: bool)
    ensures
        missing == names_missing_file(description@),
{
    contains(description, "ERR_FILE_NOTFOUND") || contains(description, "(23)")
}

} // verus!
