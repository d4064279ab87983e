//! The flags of the catalog.

use vstd::prelude::*;
use crate::error::{CatalogField, SchemaError};
use crate::text::{lower, lower_eq, to_chars};

verus! {

/// What a yes-or-no flag of the catalog says, letter case aside.
pub open spec fn yes_or_no(flag: Seq<char>) -> Option<bool> {
    if lower(flag) == "yes"@ {
        Some(true)
    } else if lower(flag) == "no"@ {
        Some(false)
    } else {
        None
    }
}

/// Decodes a yes-or-no flag of the catalog; anything else is a malformed
/// sentinel.
pub fn yes_or_no_to_bool(string: &str) -> (r: Result<bool, SchemaError>)
    ensures
        r == (match yes_or_no(string@) {
            Some(b) => Ok::<bool, SchemaError>(b),
            None => Err(SchemaError::MalformedSentinel(CatalogField::IsNullable)),
        }),
{
    let t = to_chars(string);
    assert(t@.subrange(0, t@.len() as int) =~= string@);
    if lower_eq(&t, 0, t.len(), "yes") {
        Ok(true)
    } else if lower_eq(&t, 0, t.len(), "no") {
        Ok(false)
    } else {
        Err(SchemaError::MalformedSentinel(CatalogField::IsNullable))
    }
}

} // verus!
