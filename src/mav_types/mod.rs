pub mod field_types;
pub mod mav_frame;
pub mod mav_header;
pub mod mav_message;
pub mod payload;
pub mod serde_utils;
