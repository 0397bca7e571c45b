use vstd::prelude::*;

verus! {

/// A piece of text kept in both languages.
#[derive(Debug)]
pub struct Translation {
    pub en: String,
    pub cs: String,
}

} // verus!
