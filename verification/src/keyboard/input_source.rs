//! The sources local key events can come from.

use vstd::prelude::*;

verus! {

/// Prepares the input source; there is nothing to prepare.
pub fn init_input_source() {
}

/// The input sources to choose from: none.
pub fn get_supported_input_source() -> (v: Vec<String>)
    ensures
        v@.len() == 0,
{
    Vec::new()
}

} // verus!
