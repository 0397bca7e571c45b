pub mod common_dto;
pub mod contact;
pub mod index;
