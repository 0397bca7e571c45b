//! Core of a portfolio website backend: an image-derivative pipeline that
//! turns one uploaded source image into several resized JPEG variants
//! ("breakpoints") for responsive delivery, together with the small pure
//! value types (translations, configuration, request DTOs) that the
//! surrounding web layer exchanges with it.

pub mod auth;
pub mod client;
pub mod config;
pub mod dto;
pub mod frontend;
pub mod images;
pub mod jobs;
pub mod models;
pub mod text;
