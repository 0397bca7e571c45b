use vstd::prelude::*;

verus! {

/// A demonstration payload of the scratch routes.
#[derive(Debug)]
pub struct Employee {
    pub rate: u32,
    pub name: String,
}

} // verus!
