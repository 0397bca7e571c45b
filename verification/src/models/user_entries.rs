use vstd::prelude::*;

verus! {

/// How many entries a user left in the last day.
#[derive(Debug)]
pub struct UserEntryCount {
    pub count: i64,
}

/// What kind of entry a user left.
#[derive(Debug, Clone, Copy)]
pub enum UserEntryType {
    ContactForm,
}

/// The database's name for each entry type.
pub open spec fn spec_entry_type_name(t: UserEntryType) -> Seq<char> {
    match t {
        UserEntryType::ContactForm => "contact_form"@,
    }
}

impl UserEntryType {
    /// The entry type's name.
    pub fn to_str(&self) -> (r: &'static str)
        ensures
            r@ == spec_entry_type_name(*self),
    {
        match self {
            UserEntryType::ContactForm => "contact_form",
        }
    }

    /// The entry type's name as an owned string.
    pub fn to_string(&self) -> (r: String)
        ensures
            r@ == spec_entry_type_name(*self),
    {
        match self {
            UserEntryType::ContactForm => String::from_str("contact_form"),
        }
    }
}

} // verus!
