//! How the optional text fields of a row are updated.
use vstd::prelude::*;
use vstd::string::*;

verus! {

/// The change that a requested value makes to an optional text field:
/// `None` keeps the field, `Some(None)` clears it, `Some(Some(s))` sets it.
/// No value keeps the field, the empty string clears it, any other string
/// sets it.
pub open spec fn spec_string_update(requested: Option<String>) -> Option<Option<String>> {
    match requested {
        None => None,
        Some(s) => if s@.len() == 0 {
            Some(None)
        } else {
            Some(Some(s))
        },
    }
}

/// The change that a requested value makes to an optional text field.
pub fn string_update(requested: Option<String>) -> (res: Option<Option<String>>)
    ensures
        res == spec_string_update(requested),
{
    match requested {
        None => None,
        Some(s) => {
            if s.as_str().is_empty() {
                Some(None)
            } else {
                Some(Some(s))
            }
        },
    }
}

} // verus!
