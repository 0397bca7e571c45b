pub mod component_props;
pub mod index;
pub mod localization;
pub mod translations;
