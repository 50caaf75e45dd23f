//! A small Java Virtual Machine core: a decoder for compiled class files and
//! an interpreter for the bytecode of a single method.
//!
//! The functions of this crate carry contracts that Verus proves. The
//! contracts are stated over mathematical models: a class file is a sequence
//! of bytes, a constant pool a sequence of entries, a frame a pair of value
//! sequences, and a run of the interpreter a recursive function on machine
//! states.
//!
//! Two contracts are believed and not proved, because they describe
//! functions of the standard library: the decoding of UTF-8 in
//! `class_loader::raw_data` and the replacement of a character in
//! `class_loader::class_registry`.

pub mod error;
pub mod class_loader;
pub mod jvm;
pub mod launcher;
