//! The single error type of the crate and its classification.

use vstd::prelude::*;

verus! {

/// Everything that can go wrong while a class is decoded or a method runs.
///
/// No failure is recovered inside the crate: the first error ends the
/// current class load or method execution and is handed to the caller.
#[derive(Debug, Clone, Copy, PartialEq, Eq, Structural)]
pub enum JvmError {
    /// A read would have gone beyond the end of the byte buffer.
    BoundedRead,
    /// The first four bytes are not `0xCAFEBABE`.
    InvalidMagic,
    /// The bytes of a string are not well-formed UTF-8.
    InvalidUtf8,
    /// A constant-pool entry starts with a tag that the decoder does not know.
    UnknownConstantTag { tag: u8 },
    /// A `Long` or `Double` entry sits in the last slot of the pool, so the
    /// second slot it needs does not exist.
    MissingSecondSlot,
    /// A constant-pool index is out of range, or the entry it names has the
    /// wrong kind for the place that refers to it.
    UnresolvableIndex { index: usize },
    /// A byte of the code does not stand for a supported instruction.
    UnknownOpcode { code: u8 },
    /// The code ends in the middle of an instruction's operands.
    TruncatedOperand,
    /// A push onto an operand stack that already holds `max_stack` values.
    StackOverflow,
    /// A pop from an empty operand stack.
    StackUnderflow,
    /// A local-variable slot at or beyond `max_locals`.
    LocalOutOfRange,
    /// A value does not have the tag that the instruction requires.
    TypeMismatch,
    /// A branch target before the first byte or beyond the end of the code.
    BranchOutOfRange,
    /// The interpreter used up its budget of instructions.
    StepLimit,
    /// The method has no `Code` attribute.
    MissingCode,
    /// The class has no method named `main`.
    NoMainMethod,
    /// The command line has neither one nor three arguments.
    InvalidArguments,
}

/// The classes of failure that callers tell apart.
#[derive(Debug, Clone, Copy, PartialEq, Eq, Structural)]
pub enum ErrorCategory {
    /// An attempted read beyond the end of the buffer.
    BoundedRead,
    /// The bytes do not have the layout of a class file.
    Format,
    /// A constant-pool reference that cannot be followed.
    Resolution,
    /// The code cannot be decoded into instructions.
    Decode,
    /// The frame discipline was violated while the code ran.
    Execution,
    /// The program could not be started.
    Launch,
}

impl JvmError {
    /// The category of each error.
    pub open spec fn spec_category(self) -> ErrorCategory {
        match self {
            JvmError::BoundedRead => ErrorCategory::BoundedRead,
            JvmError::InvalidMagic => ErrorCategory::Format,
            JvmError::InvalidUtf8 => ErrorCategory::Format,
            JvmError::UnknownConstantTag { .. } => ErrorCategory::Format,
            JvmError::MissingSecondSlot => ErrorCategory::Format,
            JvmError::UnresolvableIndex { .. } => ErrorCategory::Resolution,
            JvmError::UnknownOpcode { .. } => ErrorCategory::Decode,
            JvmError::TruncatedOperand => ErrorCategory::Decode,
            JvmError::StackOverflow => ErrorCategory::Execution,
            JvmError::StackUnderflow => ErrorCategory::Execution,
            JvmError::LocalOutOfRange => ErrorCategory::Execution,
            JvmError::TypeMismatch => ErrorCategory::Execution,
            JvmError::BranchOutOfRange => ErrorCategory::Execution,
            JvmError::StepLimit => ErrorCategory::Execution,
            JvmError::MissingCode => ErrorCategory::Execution,
            JvmError::NoMainMethod => ErrorCategory::Launch,
            JvmError::InvalidArguments => ErrorCategory::Launch,
        }
    }

    /// Classifies the error.
    pub fn category(&self) -> (c: ErrorCategory)
        ensures
            c == self.spec_category(),
    {
        match self {
            JvmError::BoundedRead => ErrorCategory::BoundedRead,
            JvmError::InvalidMagic
            | JvmError::InvalidUtf8
            | JvmError::UnknownConstantTag { .. }
            | JvmError::MissingSecondSlot => ErrorCategory::Format,
            JvmError::UnresolvableIndex { .. } => ErrorCategory::Resolution,
            JvmError::UnknownOpcode { .. } | JvmError::TruncatedOperand => ErrorCategory::Decode,
            JvmError::StackOverflow
            | JvmError::StackUnderflow
            | JvmError::LocalOutOfRange
            | JvmError::TypeMismatch
            | JvmError::BranchOutOfRange
            | JvmError::StepLimit
            | JvmError::MissingCode => ErrorCategory::Execution,
            JvmError::NoMainMethod | JvmError::InvalidArguments => ErrorCategory::Launch,
        }
    }

    /// The text of the diagnostic for each error.
    pub open spec fn spec_message(self) -> Seq<char> {
        match self {
            JvmError::BoundedRead => "can't read beyond the buffer boundary"@,
            JvmError::InvalidMagic => "invalid magic"@,
            JvmError::InvalidUtf8 => "can't parse UTF-8 string"@,
            JvmError::UnknownConstantTag { .. } => "unrecognised constant pool tag"@,
            JvmError::MissingSecondSlot => "two-slot constant in the last pool slot"@,
            JvmError::UnresolvableIndex { .. } => "unresolvable constant pool index"@,
            JvmError::UnknownOpcode { .. } => "unrecognised opcode"@,
            JvmError::TruncatedOperand => "truncated operand"@,
            JvmError::StackOverflow => "operand stack overflow"@,
            JvmError::StackUnderflow => "operand stack underflow"@,
            JvmError::LocalOutOfRange => "local slot out of range"@,
            JvmError::TypeMismatch => "value of the wrong type"@,
            JvmError::BranchOutOfRange => "branch target out of range"@,
            JvmError::StepLimit => "instruction budget used up"@,
            JvmError::MissingCode => "method has no code"@,
            JvmError::NoMainMethod => "no main method"@,
            JvmError::InvalidArguments => "can't parse command line arguments"@,
        }
    }

    /// A short diagnostic, without the data that the error carries.
    pub fn message(&self) -> (s: String)
        ensures
            s@ == self.spec_message(),
    {
        match self {
            JvmError::BoundedRead => String::from_str("can't read beyond the buffer boundary"),
            JvmError::InvalidMagic => String::from_str("invalid magic"),
            JvmError::InvalidUtf8 => String::from_str("can't parse UTF-8 string"),
            JvmError::UnknownConstantTag { .. } => String::from_str(
                "unrecognised constant pool tag",
            ),
            JvmError::MissingSecondSlot => String::from_str(
                "two-slot constant in the last pool slot",
            ),
            JvmError::UnresolvableIndex { .. } => String::from_str(
                "unresolvable constant pool index",
            ),
            JvmError::UnknownOpcode { .. } => String::from_str("unrecognised opcode"),
            JvmError::TruncatedOperand => String::from_str("truncated operand"),
            JvmError::StackOverflow => String::from_str("operand stack overflow"),
            JvmError::StackUnderflow => String::from_str("operand stack underflow"),
            JvmError::LocalOutOfRange => String::from_str("local slot out of range"),
            JvmError::TypeMismatch => String::from_str("value of the wrong type"),
            JvmError::BranchOutOfRange => String::from_str("branch target out of range"),
            JvmError::StepLimit => String::from_str("instruction budget used up"),
            JvmError::MissingCode => String::from_str("method has no code"),
            JvmError::NoMainMethod => String::from_str("no main method"),
            JvmError::InvalidArguments => String::from_str("can't parse command line arguments"),
        }
    }
}

} // verus!
