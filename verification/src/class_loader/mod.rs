//! The class-file decoder: from raw bytes to a structured class.

pub mod attribute_info;
pub mod class_file;
pub mod class_registry;
pub mod constant_pool;
pub mod field_info;
pub mod member;
pub mod method_info;
pub mod opcodes;
pub mod raw_data;
