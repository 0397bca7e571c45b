pub mod image_processing;
