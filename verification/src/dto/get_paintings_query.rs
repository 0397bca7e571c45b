use vstd::prelude::*;

use crate::client::translations::{spec_lang_code, spec_lang_or_default, Language};
use crate::text::str_eq;

verus! {

/// A gallery page query as it leaves the parser: every field present and
/// within bounds.
#[derive(Debug)]
pub struct GetPaintingsQueryParsed {
    pub limit: u8,
    pub offset: u32,
    pub sort: String,
    pub order: String,
    pub lang: String,
    pub search: Option<String>,
}

/// A gallery page query as the client sent it: everything optional,
/// nothing trusted.
#[derive(Debug)]
pub struct GetPaintingsQuery {
    pub limit: Option<u8>,
    pub offset: Option<u32>,
    pub sort: Option<String>,
    pub order: Option<String>,
    pub search: Option<String>,
    pub lang: Option<String>,
}

/// The page size that survives parsing: absent or out of the 0..=100
/// window collapses to 0.
pub open spec fn spec_parsed_limit(limit: Option<u8>) -> u8 {
    match limit {
        Some(l) => if l > 100 {
            0
        } else {
            l
        },
        None => 0,
    }
}

/// The offset that survives parsing: absent collapses to 0.
pub open spec fn spec_parsed_offset(offset: Option<u32>) -> u32 {
    match offset {
        Some(o) => o,
        None => 0,
    }
}

/// The sort key that survives parsing: one of the known column names
/// passes through, the title and description columns pick the requested
/// language's text, and anything else falls back to `created`.
pub open spec fn spec_parsed_sort(sort: Option<String>, lang: Language) -> Seq<char> {
    match sort {
        Some(s) => if s@ == "created"@ || s@ == "price"@ || s@ == "width"@ || s@ == "height"@
            || s@ == "sold"@ {
            s@
        } else if s@ == "painting_title"@ {
            match lang {
                Language::Cs => "painting_title->>'cs'"@,
                Language::En => "painting_title->>'en'"@,
            }
        } else if s@ == "painting_description"@ {
            match lang {
                Language::Cs => "painting_description->>'cs'"@,
                Language::En => "painting_description->>'en'"@,
            }
        } else {
            "created"@
        },
        None => "created"@,
    }
}

/// The sort order that survives parsing: `ASC`/`asc` ascend, everything
/// else descends.
pub open spec fn spec_parsed_order(order: Option<String>) -> Seq<char> {
    match order {
        Some(o) => if o@ == "ASC"@ || o@ == "asc"@ {
            "asc"@
        } else {
            "desc"@
        },
        None => "desc"@,
    }
}

impl GetPaintingsQuery {
    /// The query a page starts with when the client sent none.
    pub fn default(language: Option<Language>) -> (r: GetPaintingsQueryParsed)
        ensures
            r.limit == 20,
            r.offset == 0,
            r.sort@ == "created"@,
            r.order@ == "desc"@,
            r.search is None,
            r.lang@ == spec_lang_code(spec_lang_or_default(language)),
    {
        let lang = match language {
            Some(l) => l,
            None => Language::Cs,
        };
        GetPaintingsQueryParsed {
            limit: 20,
            offset: 0,
            sort: String::from_str("created"),
            order: String::from_str("desc"),
            search: None,
            lang: lang.to_string(),
        }
    }

    /// Collapses a client's query into one the database can be asked
    /// safely: unknown sort keys and orders fall back to their defaults,
    /// the limit is clamped, and the search text passes through.
    pub fn safe_parse(&self, language: Option<Language>) -> (r: GetPaintingsQueryParsed)
        ensures
            r.limit == spec_parsed_limit(self.limit),
            r.offset == spec_parsed_offset(self.offset),
            r.sort@ == spec_parsed_sort(self.sort, spec_lang_or_default(language)),
            r.order@ == spec_parsed_order(self.order),
            r.search == self.search,
            r.lang@ == spec_lang_code(spec_lang_or_default(language)),
    {
        let lang = match language {
            Some(l) => l,
            None => Language::Cs,
        };

        let limit: u8 = match &self.limit {
            Some(limit_value) => {
                if *limit_value > 100u8 {
                    0u8
                } else {
                    *limit_value
                }
            }
            None => 0u8,
        };

        let offset: u32 = match &self.offset {
            Some(offset_value) => *offset_value,
            None => 0u32,
        };

        let sort: String = match &self.sort {
            Some(sort_value) => {
                if str_eq(sort_value.as_str(), "created") || str_eq(sort_value.as_str(), "price")
                    || str_eq(sort_value.as_str(), "width") || str_eq(
                    sort_value.as_str(),
                    "height",
                ) || str_eq(sort_value.as_str(), "sold") {
                    sort_value.clone()
                } else if str_eq(sort_value.as_str(), "painting_title") {
                    match lang {
                        Language::Cs => String::from_str("painting_title->>'cs'"),
                        Language::En => String::from_str("painting_title->>'en'"),
                    }
                } else if str_eq(sort_value.as_str(), "painting_description") {
                    match lang {
                        Language::Cs => String::from_str("painting_description->>'cs'"),
                        Language::En => String::from_str("painting_description->>'en'"),
                    }
                } else {
                    String::from_str("created")
                }
            }
            None => String::from_str("created"),
        };

        let order: String = match &self.order {
            Some(order_value) => {
                if str_eq(order_value.as_str(), "ASC") || str_eq(order_value.as_str(), "asc") {
                    String::from_str("asc")
                } else {
                    String::from_str("desc")
                }
            }
            None => String::from_str("desc"),
        };

        let search: Option<String> = match &self.search {
            Some(search_value) => Some(search_value.clone()),
            None => None,
        };

        GetPaintingsQueryParsed { limit, offset, sort, order, search, lang: lang.to_string() }
    }
}

} // verus!
