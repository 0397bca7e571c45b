pub mod emails;
pub mod generics;
pub mod image;
pub mod painting;
pub mod user;
pub mod user_entries;
