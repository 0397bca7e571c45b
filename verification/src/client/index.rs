use vstd::prelude::*;

verus! {

/// The scratch page template's data.
pub struct Page<'a> {
    pub name: &'a str,
}

} // verus!
