pub mod resize_to_max;
