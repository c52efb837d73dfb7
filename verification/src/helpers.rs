//! Small checks used across the library.

use vstd::prelude::*;
use crate::errors::MyError;

verus! {

/// The text itself when it is not empty, an error otherwise.
pub fn get_non_empty_string(string: String) -> (r: Result<String, MyError>)
    ensures
        match r {
            Ok(s) => string@.len() > 0 && s == string,
            Err(e) => string@.len() == 0 && e.message@ == " string is empty"@,
        },
{
    if string.as_str().is_empty() {
        Err(MyError::from_text(" string is empty"))
    } else {
        Ok(string)
    }
}

} // verus!
