use vstd::prelude::*;

verus! {

/// The metadata block in the shape the shared page templates borrow it.
pub struct MetaProps<'a> {
    pub description: &'a str,
    pub keywords: &'a str,
    pub author: &'a str,
    pub robots: &'a str,
    pub image: &'a str,
    pub locale: &'a str,
    pub favicon: &'a str,
    pub summary_large_image: &'a str,
    pub twitter_handle: &'a str,
    pub url: &'a str,
}

} // verus!
