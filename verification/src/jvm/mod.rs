//! The interpreter: values, frames and the fetch-decode-execute loop.

pub mod jvm_engine;
pub mod jvm_frame;
pub mod jvm_type;
