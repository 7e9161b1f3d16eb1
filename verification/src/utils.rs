//! Small helpers shared by the commands.
use vstd::prelude::*;
use crate::text::{blanks_to_underscores, lowercased, to_lowercase, underscored};

verus! {

/// The identifier that belongs to a display name: lower case, with an
/// underscore for every blank.
pub open spec fn name_id(name: Seq<char>) -> Seq<char> {
    underscored(lowercased(name))
}

/// Turns a display name into an identifier: `Crimson Theta` becomes `crimson_theta`.
pub fn name_to_id(name: &str) -> (id: String)
    ensures
        id@ == name_id(name@),
{
    let lower = to_lowercase(name);
    blanks_to_underscores(lower.as_str())
}

} // verus!
