//! The instructions that the interpreter supports and their encoding.

use crate::error::JvmError;
use vstd::prelude::*;

verus! {

/// A supported instruction. The operands, if any, follow the opcode byte in
/// the code and are read when the instruction runs.
#[derive(Debug, Clone, Copy, PartialEq, Eq, Structural)]
pub enum Opcode {
    Nop,
    Iconst0,
    Iconst1,
    Iconst2,
    Iconst3,
    Iconst4,
    Iconst5,
    Bipush,
    Aload0,
    Aload1,
    Aload2,
    Aload3,
    Istore0,
    Istore1,
    Istore2,
    Istore3,
    Iadd,
    Iinc,
    Ificmpeq,
    Ificmpne,
    Ificmplt,
    Ificmpge,
    Ificmpgt,
    Ificmple,
    Goto,
    Ireturn,
    Return,
    Getstatic,
    Invokevirtual,
    Invokespecial,
    Invokestatic,
    Ldc,
    Iload0,
    Iload1,
    Iload2,
    Iload3,
    New,
}

/// The relation that a conditional branch tests between two integers.
#[derive(Debug, Clone, Copy, PartialEq, Eq, Structural)]
pub enum Comparison {
    Equal,
    NotEqual,
    Less,
    GreaterOrEqual,
    Greater,
    LessOrEqual,
}

/// The kind of pool entry that an instruction refers to by name.
#[derive(Debug, Clone, Copy, PartialEq, Eq, Structural)]
pub enum Symbol {
    /// A field reference.
    Field,
    /// A method reference, of a class or of an interface.
    Method,
    /// A class.
    Class,
}

/// What an instruction does. Instructions that differ only in a number
/// built into the opcode share one operation, which carries that number.
#[derive(Debug, Clone, Copy, PartialEq, Eq, Structural)]
pub enum Operation {
    /// Does nothing.
    Nop,
    /// Pushes the given integer.
    PushInt(i32),
    /// Pushes the operand byte, sign-extended.
    PushByte,
    /// Pushes the constant in the pool slot that the operand byte names.
    LoadConstant,
    /// Pushes the integer in the given local slot.
    LoadInt(u16),
    /// Pushes the reference in the given local slot.
    LoadReference(u16),
    /// Pops an integer into the given local slot.
    StoreInt(u16),
    /// Pops two integers and pushes their sum.
    AddInt,
    /// Adds the second operand byte, sign-extended, to the integer in the
    /// local slot that the first operand byte names.
    Increment,
    /// Pops two integers and branches if they stand in the given relation.
    BranchIf(Comparison),
    /// Branches.
    Jump,
    /// Pops an integer and ends the invocation with it.
    ReturnInt,
    /// Ends the invocation.
    Return,
    /// Resolves the pool entry of the given kind that the two operand bytes
    /// name.
    Resolve(Symbol),
}

impl Operation {
    /// How many operand bytes follow the opcode byte.
    pub open spec fn spec_operand_len(self) -> int {
        match self {
            Operation::PushByte | Operation::LoadConstant => 1,
            Operation::Increment
            | Operation::BranchIf(_)
            | Operation::Jump
            | Operation::Resolve(_) => 2,
            _ => 0,
        }
    }

    /// How many operand bytes follow the opcode byte.
    pub fn operand_len(&self) -> (len: usize)
        ensures
            len == self.spec_operand_len(),
    {
        match self {
            Operation::PushByte | Operation::LoadConstant => 1,
            Operation::Increment
            | Operation::BranchIf(_)
            | Operation::Jump
            | Operation::Resolve(_) => 2,
            _ => 0,
        }
    }
}

/// The instruction that a byte stands for.
pub open spec fn spec_opcode(code: u8) -> Result<Opcode, JvmError> {
    match code {
        0x00 => Ok(Opcode::Nop),
        0x03 => Ok(Opcode::Iconst0),
        0x04 => Ok(Opcode::Iconst1),
        0x05 => Ok(Opcode::Iconst2),
        0x06 => Ok(Opcode::Iconst3),
        0x07 => Ok(Opcode::Iconst4),
        0x08 => Ok(Opcode::Iconst5),
        0x10 => Ok(Opcode::Bipush),
        0x12 => Ok(Opcode::Ldc),
        0x1A => Ok(Opcode::Iload0),
        0x1B => Ok(Opcode::Iload1),
        0x1C => Ok(Opcode::Iload2),
        0x1D => Ok(Opcode::Iload3),
        0x2A => Ok(Opcode::Aload0),
        0x2B => Ok(Opcode::Aload1),
        0x2C => Ok(Opcode::Aload2),
        0x2D => Ok(Opcode::Aload3),
        0x3B => Ok(Opcode::Istore0),
        0x3C => Ok(Opcode::Istore1),
        0x3D => Ok(Opcode::Istore2),
        0x3E => Ok(Opcode::Istore3),
        0x60 => Ok(Opcode::Iadd),
        0x84 => Ok(Opcode::Iinc),
        0x9F => Ok(Opcode::Ificmpeq),
        0xA0 => Ok(Opcode::Ificmpne),
        0xA1 => Ok(Opcode::Ificmplt),
        0xA2 => Ok(Opcode::Ificmpge),
        0xA3 => Ok(Opcode::Ificmpgt),
        0xA4 => Ok(Opcode::Ificmple),
        0xA7 => Ok(Opcode::Goto),
        0xAC => Ok(Opcode::Ireturn),
        0xB1 => Ok(Opcode::Return),
        0xB2 => Ok(Opcode::Getstatic),
        0xB6 => Ok(Opcode::Invokevirtual),
        0xB7 => Ok(Opcode::Invokespecial),
        0xB8 => Ok(Opcode::Invokestatic),
        0xBB => Ok(Opcode::New),
        _ => Err(JvmError::UnknownOpcode { code }),
    }
}

/// The bytes of the instruction table, by their ranges.
pub open spec fn is_supported(code: u8) -> bool {
    ||| code == 0x00
    ||| 0x03 <= code <= 0x08
    ||| code == 0x10
    ||| code == 0x12
    ||| 0x1A <= code <= 0x1D
    ||| 0x2A <= code <= 0x2D
    ||| 0x3B <= code <= 0x3E
    ||| code == 0x60
    ||| code == 0x84
    ||| 0x9F <= code <= 0xA4
    ||| code == 0xA7
    ||| code == 0xAC
    ||| 0xB1 <= code <= 0xB2
    ||| 0xB6 <= code <= 0xB8
    ||| code == 0xBB
}

/// Decoding is total over the instruction table and fails everywhere else:
/// a byte of the table stands for an instruction whose encoding is that
/// byte, and any other byte gives the decode error that names it.
pub proof fn lemma_decode_total(code: u8)
    ensures
        is_supported(code) <==> spec_opcode(code) is Ok,
        spec_opcode(code) matches Ok(op) ==> op.spec_byte() == code,
        !is_supported(code) ==> spec_opcode(code) == Err::<Opcode, JvmError>(
            JvmError::UnknownOpcode { code },
        ),
{
}

/// Distinct instructions have distinct encodings, and each decodes to
/// itself.
pub proof fn lemma_encoding_round_trip(op: Opcode)
    ensures
        spec_opcode(op.spec_byte()) == Ok::<Opcode, JvmError>(op),
{
}

impl Opcode {
    /// The byte that encodes the instruction.
    pub open spec fn spec_byte(self) -> u8 {
        match self {
            Opcode::Nop => 0x00,
            Opcode::Iconst0 => 0x03,
            Opcode::Iconst1 => 0x04,
            Opcode::Iconst2 => 0x05,
            Opcode::Iconst3 => 0x06,
            Opcode::Iconst4 => 0x07,
            Opcode::Iconst5 => 0x08,
            Opcode::Bipush => 0x10,
            Opcode::Ldc => 0x12,
            Opcode::Iload0 => 0x1A,
            Opcode::Iload1 => 0x1B,
            Opcode::Iload2 => 0x1C,
            Opcode::Iload3 => 0x1D,
            Opcode::Aload0 => 0x2A,
            Opcode::Aload1 => 0x2B,
            Opcode::Aload2 => 0x2C,
            Opcode::Aload3 => 0x2D,
            Opcode::Istore0 => 0x3B,
            Opcode::Istore1 => 0x3C,
            Opcode::Istore2 => 0x3D,
            Opcode::Istore3 => 0x3E,
            Opcode::Iadd => 0x60,
            Opcode::Iinc => 0x84,
            Opcode::Ificmpeq => 0x9F,
            Opcode::Ificmpne => 0xA0,
            Opcode::Ificmplt => 0xA1,
            Opcode::Ificmpge => 0xA2,
            Opcode::Ificmpgt => 0xA3,
            Opcode::Ificmple => 0xA4,
            Opcode::Goto => 0xA7,
            Opcode::Ireturn => 0xAC,
            Opcode::Return => 0xB1,
            Opcode::Getstatic => 0xB2,
            Opcode::Invokevirtual => 0xB6,
            Opcode::Invokespecial => 0xB7,
            Opcode::Invokestatic => 0xB8,
            Opcode::New => 0xBB,
        }
    }

    /// What the instruction does.
    pub open spec fn spec_operation(self) -> Operation {
        match self {
            Opcode::Nop => Operation::Nop,
            Opcode::Iconst0 => Operation::PushInt(0),
            Opcode::Iconst1 => Operation::PushInt(1),
            Opcode::Iconst2 => Operation::PushInt(2),
            Opcode::Iconst3 => Operation::PushInt(3),
            Opcode::Iconst4 => Operation::PushInt(4),
            Opcode::Iconst5 => Operation::PushInt(5),
            Opcode::Bipush => Operation::PushByte,
            Opcode::Ldc => Operation::LoadConstant,
            Opcode::Iload0 => Operation::LoadInt(0),
            Opcode::Iload1 => Operation::LoadInt(1),
            Opcode::Iload2 => Operation::LoadInt(2),
            Opcode::Iload3 => Operation::LoadInt(3),
            Opcode::Aload0 => Operation::LoadReference(0),
            Opcode::Aload1 => Operation::LoadReference(1),
            Opcode::Aload2 => Operation::LoadReference(2),
            Opcode::Aload3 => Operation::LoadReference(3),
            Opcode::Istore0 => Operation::StoreInt(0),
            Opcode::Istore1 => Operation::StoreInt(1),
            Opcode::Istore2 => Operation::StoreInt(2),
            Opcode::Istore3 => Operation::StoreInt(3),
            Opcode::Iadd => Operation::AddInt,
            Opcode::Iinc => Operation::Increment,
            Opcode::Ificmpeq => Operation::BranchIf(Comparison::Equal),
            Opcode::Ificmpne => Operation::BranchIf(Comparison::NotEqual),
            Opcode::Ificmplt => Operation::BranchIf(Comparison::Less),
            Opcode::Ificmpge => Operation::BranchIf(Comparison::GreaterOrEqual),
            Opcode::Ificmpgt => Operation::BranchIf(Comparison::Greater),
            Opcode::Ificmple => Operation::BranchIf(Comparison::LessOrEqual),
            Opcode::Goto => Operation::Jump,
            Opcode::Ireturn => Operation::ReturnInt,
            Opcode::Return => Operation::Return,
            Opcode::Getstatic => Operation::Resolve(Symbol::Field),
            Opcode::Invokevirtual => Operation::Resolve(Symbol::Method),
            Opcode::Invokespecial => Operation::Resolve(Symbol::Method),
            Opcode::Invokestatic => Operation::Resolve(Symbol::Method),
            Opcode::New => Operation::Resolve(Symbol::Class),
        }
    }

    /// How many operand bytes follow the opcode byte.
    pub open spec fn spec_operand_len(self) -> int {
        self.spec_operation().spec_operand_len()
    }

    /// What the instruction does.
    pub fn operation(&self) -> (operation: Operation)
        ensures
            operation == self.spec_operation(),
    {
        match self {
            Opcode::Nop => Operation::Nop,
            Opcode::Iconst0 => Operation::PushInt(0),
            Opcode::Iconst1 => Operation::PushInt(1),
            Opcode::Iconst2 => Operation::PushInt(2),
            Opcode::Iconst3 => Operation::PushInt(3),
            Opcode::Iconst4 => Operation::PushInt(4),
            Opcode::Iconst5 => Operation::PushInt(5),
            Opcode::Bipush => Operation::PushByte,
            Opcode::Ldc => Operation::LoadConstant,
            Opcode::Iload0 => Operation::LoadInt(0),
            Opcode::Iload1 => Operation::LoadInt(1),
            Opcode::Iload2 => Operation::LoadInt(2),
            Opcode::Iload3 => Operation::LoadInt(3),
            Opcode::Aload0 => Operation::LoadReference(0),
            Opcode::Aload1 => Operation::LoadReference(1),
            Opcode::Aload2 => Operation::LoadReference(2),
            Opcode::Aload3 => Operation::LoadReference(3),
            Opcode::Istore0 => Operation::StoreInt(0),
            Opcode::Istore1 => Operation::StoreInt(1),
            Opcode::Istore2 => Operation::StoreInt(2),
            Opcode::Istore3 => Operation::StoreInt(3),
            Opcode::Iadd => Operation::AddInt,
            Opcode::Iinc => Operation::Increment,
            Opcode::Ificmpeq => Operation::BranchIf(Comparison::Equal),
            Opcode::Ificmpne => Operation::BranchIf(Comparison::NotEqual),
            Opcode::Ificmplt => Operation::BranchIf(Comparison::Less),
            Opcode::Ificmpge => Operation::BranchIf(Comparison::GreaterOrEqual),
            Opcode::Ificmpgt => Operation::BranchIf(Comparison::Greater),
            Opcode::Ificmple => Operation::BranchIf(Comparison::LessOrEqual),
            Opcode::Goto => Operation::Jump,
            Opcode::Ireturn => Operation::ReturnInt,
            Opcode::Return => Operation::Return,
            Opcode::Getstatic => Operation::Resolve(Symbol::Field),
            Opcode::Invokevirtual => Operation::Resolve(Symbol::Method),
            Opcode::Invokespecial => Operation::Resolve(Symbol::Method),
            Opcode::Invokestatic => Operation::Resolve(Symbol::Method),
            Opcode::New => Operation::Resolve(Symbol::Class),
        }
    }

    /// Decodes one byte of the code.
    pub fn from(code: u8) -> (res: Result<Opcode, JvmError>)
        ensures
            res == spec_opcode(code),
            res is Ok <==> is_supported(code),
    {
        match code {
            0x00 => Ok(Opcode::Nop),
            0x03 => Ok(Opcode::Iconst0),
            0x04 => Ok(Opcode::Iconst1),
            0x05 => Ok(Opcode::Iconst2),
            0x06 => Ok(Opcode::Iconst3),
            0x07 => Ok(Opcode::Iconst4),
            0x08 => Ok(Opcode::Iconst5),
            0x10 => Ok(Opcode::Bipush),
            0x12 => Ok(Opcode::Ldc),
            0x1A => Ok(Opcode::Iload0),
            0x1B => Ok(Opcode::Iload1),
            0x1C => Ok(Opcode::Iload2),
            0x1D => Ok(Opcode::Iload3),
            0x2A => Ok(Opcode::Aload0),
            0x2B => Ok(Opcode::Aload1),
            0x2C => Ok(Opcode::Aload2),
            0x2D => Ok(Opcode::Aload3),
            0x3B => Ok(Opcode::Istore0),
            0x3C => Ok(Opcode::Istore1),
            0x3D => Ok(Opcode::Istore2),
            0x3E => Ok(Opcode::Istore3),
            0x60 => Ok(Opcode::Iadd),
            0x84 => Ok(Opcode::Iinc),
            0x9F => Ok(Opcode::Ificmpeq),
            0xA0 => Ok(Opcode::Ificmpne),
            0xA1 => Ok(Opcode::Ificmplt),
            0xA2 => Ok(Opcode::Ificmpge),
            0xA3 => Ok(Opcode::Ificmpgt),
            0xA4 => Ok(Opcode::Ificmple),
            0xA7 => Ok(Opcode::Goto),
            0xAC => Ok(Opcode::Ireturn),
            0xB1 => Ok(Opcode::Return),
            0xB2 => Ok(Opcode::Getstatic),
            0xB6 => Ok(Opcode::Invokevirtual),
            0xBB => Ok(Opcode::New),
            0xB7 => Ok(Opcode::Invokespecial),
            0xB8 => Ok(Opcode::Invokestatic),
            _ => Err(JvmError::UnknownOpcode { code }),
        }
    }

    /// The byte that encodes the instruction.
    pub fn byte(&self) -> (code: u8)
        ensures
            code == self.spec_byte(),
    {
        match self {
            Opcode::Nop => 0x00,
            Opcode::Iconst0 => 0x03,
            Opcode::Iconst1 => 0x04,
            Opcode::Iconst2 => 0x05,
            Opcode::Iconst3 => 0x06,
            Opcode::Iconst4 => 0x07,
            Opcode::Iconst5 => 0x08,
            Opcode::Bipush => 0x10,
            Opcode::Ldc => 0x12,
            Opcode::Iload0 => 0x1A,
            Opcode::Iload1 => 0x1B,
            Opcode::Iload2 => 0x1C,
            Opcode::Iload3 => 0x1D,
            Opcode::Aload0 => 0x2A,
            Opcode::Aload1 => 0x2B,
            Opcode::Aload2 => 0x2C,
            Opcode::Aload3 => 0x2D,
            Opcode::Istore0 => 0x3B,
            Opcode::Istore1 => 0x3C,
            Opcode::Istore2 => 0x3D,
            Opcode::Istore3 => 0x3E,
            Opcode::Iadd => 0x60,
            Opcode::Iinc => 0x84,
            Opcode::Ificmpeq => 0x9F,
            Opcode::Ificmpne => 0xA0,
            Opcode::Ificmplt => 0xA1,
            Opcode::Ificmpge => 0xA2,
            Opcode::Ificmpgt => 0xA3,
            Opcode::Ificmple => 0xA4,
            Opcode::Goto => 0xA7,
            Opcode::Ireturn => 0xAC,
            Opcode::Return => 0xB1,
            Opcode::Getstatic => 0xB2,
            Opcode::Invokevirtual => 0xB6,
            Opcode::Invokespecial => 0xB7,
            Opcode::Invokestatic => 0xB8,
            Opcode::New => 0xBB,
        }
    }
}

} // verus!
