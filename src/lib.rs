//! Value types shared by protocol-buffer messages: UTF-8 text held in a
//! shared byte buffer, and conversions for the well-known duration record.

pub mod bytes_specs;
pub mod chars;
pub mod duration;
