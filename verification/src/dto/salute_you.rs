use vstd::prelude::*;

verus! {

/// The name a greeting route addresses.
#[derive(Debug)]
pub struct SaluteYou {
    pub first_name: String,
    pub last_name: String,
}

} // verus!
