use vstd::prelude::*;

verus! {

/// What it takes to create a painting.
#[derive(Debug)]
pub struct PaintingCreate {
    pub price: i64,
    pub title_cs: String,
    pub title_en: String,
    pub description_cs: String,
    pub description_en: String,
    pub width: i64,
    pub height: i64,
}

/// What a client may change about a painting.
#[derive(Debug)]
pub struct PaintingUpdate {
    pub price: Option<i64>,
    pub title_cs: Option<String>,
    pub title_en: Option<String>,
    pub description_cs: Option<String>,
    pub description_en: Option<String>,
    pub width: Option<i64>,
    pub height: Option<i64>,
    pub sold: Option<bool>,
}

/// Whether a painting is deleted even if it is referenced.
#[derive(Debug)]
pub struct PaintingDelete {
    pub force: bool,
}

} // verus!
