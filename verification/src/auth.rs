pub mod password;
pub mod token;
