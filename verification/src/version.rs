//! The version of the service.

use vstd::prelude::*;

verus! {

/// The version of the service.
pub fn current() -> (v: &'static str)
    ensures
        v@ == "0.1.0"@,
{
    "0.1.0"
}

} // verus!
