use vstd::prelude::*;

verus! {

/// What a client may change about one painting image.
#[derive(Debug)]
pub struct PaintingImageUpdate {
    pub alt_cs: Option<String>,
    pub alt_en: Option<String>,
    pub title_cs: Option<String>,
    pub title_en: Option<String>,
    pub status: Option<String>,
    pub preview: Option<bool>,
}

} // verus!
