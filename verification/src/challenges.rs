//! Challenge (survey user) allocation routes.  Allocating the user's
//! identifier follows the same retry discipline as every other random
//! identifier; see the allocator module.

use vstd::prelude::*;

verus! {

/// Route table of the challenge API.
pub struct Challenges {
    pub add: &'static str,
}

impl Challenges {
    /// The fixed challenge routes.
    pub fn new() -> (r: Challenges)
        ensures
            r.add@ == "/api/v1/admin/challenges/add"@,
    {
        let add = "/api/v1/admin/challenges/add";
        Challenges { add }
    }
}

} // verus!
