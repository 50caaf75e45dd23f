//! The fetch-decode-execute loop.
//!
//! The model of the machine is a position in the code and a frame. One
//! instruction is a function from such a state to the next position, the
//! next frame and what happens to the flow of control; a run is that
//! function applied until the code ends, the method returns, an instruction
//! fails, or the budget of instructions is used up.

use crate::class_loader::attribute_info::AttributeInfo;
use crate::class_loader::attribute_info::SpecAttribute;
use crate::class_loader::constant_pool::spec_resolve;
use crate::class_loader::constant_pool::ConstantPool;
use crate::class_loader::constant_pool::ConstantType;
use crate::class_loader::constant_pool::SpecConstant;
use crate::class_loader::constant_pool::MAX_RESOLVE_DEPTH;
use crate::class_loader::method_info::MethodInfo;
use crate::class_loader::opcodes::spec_opcode;
use crate::class_loader::opcodes::Comparison;
use crate::class_loader::opcodes::Opcode;
use crate::class_loader::opcodes::Operation;
use crate::class_loader::opcodes::Symbol;
use crate::class_loader::raw_data::be_u16;
use crate::error::JvmError;
use crate::jvm::jvm_frame::JvmFrame;
use crate::jvm::jvm_frame::SpecFrame;
use crate::jvm::jvm_type::JvmValue;
use vstd::prelude::*;

verus! {

/// The budget of instructions of `execute_bytecode`: the greatest number
/// that a 64-bit counter holds. A method that has run that many instructions
/// and has not ended fails with `StepLimit`.
pub const STEP_LIMIT: u64 = 0xFFFF_FFFF_FFFF_FFFF;

/// What an instruction does to the flow of control.
#[derive(Debug, Clone, Copy, PartialEq, Eq, Structural)]
pub enum Flow {
    /// The run goes on at the next position.
    Continue,
    /// The method returns without a value.
    Return,
    /// The method returns the given value.
    ReturnValue(JvmValue),
}

/// How a run ended.
#[derive(Debug, Clone, Copy, PartialEq, Eq, Structural)]
pub enum Exit {
    /// The position reached the end of the code.
    EndOfCode,
    /// The method returned without a value.
    Return,
    /// The method returned the given value.
    ReturnValue(JvmValue),
}

/// The state in which a run ended.
#[derive(Debug)]
pub struct Execution {
    /// The frame as the last instruction left it.
    pub frame: JvmFrame,
    /// The position behind the last instruction, or the target of the last
    /// branch.
    pub pc: usize,
    /// The number of instructions that ran.
    pub steps: u64,
    /// How the run ended.
    pub exit: Exit,
}

/// The model of the state in which a run ended.
pub ghost struct SpecExecution {
    pub frame: SpecFrame,
    pub pc: int,
    pub steps: nat,
    pub exit: Exit,
}

impl View for Execution {
    type V = SpecExecution;

    open spec fn view(&self) -> SpecExecution {
        SpecExecution {
            frame: self.frame@,
            pc: self.pc as int,
            steps: self.steps as nat,
            exit: self.exit,
        }
    }
}

/// The number that a byte stands for as a signed operand.
pub open spec fn sign_extend(byte: u8) -> int {
    if byte < 0x80 {
        byte as int
    } else {
        byte - 0x100
    }
}

/// The signed 16-bit number that the two bytes at `at` hold, high byte
/// first.
pub open spec fn branch_offset(code: Seq<u8>, at: int) -> int {
    if be_u16(code, at) < 0x8000 {
        be_u16(code, at)
    } else {
        be_u16(code, at) - 0x1_0000
    }
}

/// The signed integer that 32 bits stand for.
pub open spec fn int_from_bits(bits: u32) -> int {
    if bits < 0x8000_0000 {
        bits as int
    } else {
        bits - 0x1_0000_0000
    }
}

/// The value that a load of the constant in slot `index` pushes: the integer
/// or the float that the entry holds, or, for a string, a class, a method
/// type or a method handle, a reference whose handle is `index`. No other
/// kind of entry can be loaded.
pub open spec fn spec_constant_value(pool: Seq<SpecConstant>, index: int) -> Result<
    JvmValue,
    JvmError,
> {
    if !(0 <= index < pool.len()) {
        Err(JvmError::UnresolvableIndex { index: index as usize })
    } else {
        match pool[index] {
            SpecConstant::Integer { val } => Ok(JvmValue::Int(int_from_bits(val) as i32)),
            SpecConstant::Float { val } => Ok(JvmValue::Float(val)),
            SpecConstant::String { .. }
            | SpecConstant::Class { .. }
            | SpecConstant::MethodType
            | SpecConstant::MethodHandle => Ok(JvmValue::Reference(index as usize)),
            _ => Err(JvmError::UnresolvableIndex { index: index as usize }),
        }
    }
}

/// Whether `left` and `right` stand in `relation`.
pub open spec fn holds(relation: Comparison, left: i32, right: i32) -> bool {
    match relation {
        Comparison::Equal => left == right,
        Comparison::NotEqual => left != right,
        Comparison::Less => left < right,
        Comparison::GreaterOrEqual => left >= right,
        Comparison::Greater => left > right,
        Comparison::LessOrEqual => left <= right,
    }
}

/// Whether slot `index` of `pool` holds an entry of the kind `symbol`.
pub open spec fn names_symbol(pool: Seq<SpecConstant>, index: int, symbol: Symbol) -> bool {
    0 <= index < pool.len() && match symbol {
        Symbol::Field => pool[index] is Fieldref,
        Symbol::Method => pool[index] is Methodref || pool[index] is InterfaceMethodref,
        Symbol::Class => pool[index] is Class,
    }
}

/// The name of the entry of kind `symbol` in slot `index`.
pub open spec fn spec_symbol(pool: Seq<SpecConstant>, index: int, symbol: Symbol) -> Result<
    Seq<char>,
    JvmError,
> {
    if names_symbol(pool, index, symbol) {
        spec_resolve(pool, index, MAX_RESOLVE_DEPTH as nat)
    } else {
        Err(JvmError::UnresolvableIndex { index: index as usize })
    }
}

/// The integer on top of the stack and the frame without it.
pub open spec fn spec_pop_int(frame: SpecFrame) -> Result<(i32, SpecFrame), JvmError> {
    match frame.pop() {
        Err(e) => Err(e),
        Ok((JvmValue::Int(value), rest)) => Ok((value, rest)),
        Ok(_) => Err(JvmError::TypeMismatch),
    }
}

/// The target of the branch whose opcode stands at `pc`: `pc` plus the
/// signed offset in the two operand bytes. A target before the code or
/// beyond its end is an error; the end itself is a target, and ends the run.
pub open spec fn spec_branch(code: Seq<u8>, pc: int) -> Result<int, JvmError> {
    let target = pc + branch_offset(code, pc + 1);
    if 0 <= target <= code.len() {
        Ok(target)
    } else {
        Err(JvmError::BranchOutOfRange)
    }
}

/// The step that goes on at `next` with the frame that `moved` gives.
pub open spec fn then_at(moved: Result<SpecFrame, JvmError>, next: int) -> Result<
    (int, SpecFrame, Flow),
    JvmError,
> {
    match moved {
        Err(e) => Err(e),
        Ok(frame) => Ok((next, frame, Flow::Continue)),
    }
}

/// What `operation` does when its opcode stands at `pc` and all its operand
/// bytes are inside the code.
pub open spec fn spec_execute(
    operation: Operation,
    code: Seq<u8>,
    pool: Seq<SpecConstant>,
    pc: int,
    frame: SpecFrame,
) -> Result<(int, SpecFrame, Flow), JvmError> {
    let next = pc + 1 + operation.spec_operand_len();
    match operation {
        Operation::Nop => Ok((next, frame, Flow::Continue)),
        Operation::PushInt(value) => then_at(frame.push(JvmValue::Int(value)), next),
        Operation::PushByte => then_at(
            frame.push(JvmValue::Int(sign_extend(code[pc + 1]) as i32)),
            next,
        ),
        Operation::LoadConstant => match spec_constant_value(pool, code[pc + 1] as int) {
            Err(e) => Err(e),
            Ok(value) => then_at(frame.push(value), next),
        },
        Operation::LoadInt(slot) => match frame.get_local(slot as int) {
            Err(e) => Err(e),
            Ok(JvmValue::Int(_)) => then_at(frame.load_from_local(slot as int), next),
            Ok(_) => Err(JvmError::TypeMismatch),
        },
        Operation::LoadReference(slot) => match frame.get_local(slot as int) {
            Err(e) => Err(e),
            Ok(JvmValue::Reference(_)) => then_at(frame.load_from_local(slot as int), next),
            Ok(_) => Err(JvmError::TypeMismatch),
        },
        Operation::StoreInt(slot) => match frame.pop() {
            Err(e) => Err(e),
            Ok((JvmValue::Int(_), _)) => then_at(frame.store_to_local(slot as int), next),
            Ok(_) => Err(JvmError::TypeMismatch),
        },
        Operation::AddInt => match spec_pop_int(frame) {
            Err(e) => Err(e),
            Ok((right, rest)) => match spec_pop_int(rest) {
                Err(e) => Err(e),
                Ok((left, rest)) => then_at(
                    rest.push(JvmValue::Int(left.wrapping_add(right))),
                    next,
                ),
            },
        },
        Operation::Increment => match frame.get_local(code[pc + 1] as int) {
            Err(e) => Err(e),
            Ok(JvmValue::Int(value)) => then_at(
                frame.set_local(
                    code[pc + 1] as int,
                    JvmValue::Int(value.wrapping_add(sign_extend(code[pc + 2]) as i32)),
                ),
                next,
            ),
            Ok(_) => Err(JvmError::TypeMismatch),
        },
        Operation::BranchIf(relation) => match spec_pop_int(frame) {
            Err(e) => Err(e),
            Ok((right, rest)) => match spec_pop_int(rest) {
                Err(e) => Err(e),
                Ok((left, rest)) => if holds(relation, left, right) {
                    match spec_branch(code, pc) {
                        Err(e) => Err(e),
                        Ok(target) => Ok((target, rest, Flow::Continue)),
                    }
                } else {
                    Ok((next, rest, Flow::Continue))
                },
            },
        },
        Operation::Jump => match spec_branch(code, pc) {
            Err(e) => Err(e),
            Ok(target) => Ok((target, frame, Flow::Continue)),
        },
        Operation::ReturnInt => match spec_pop_int(frame) {
            Err(e) => Err(e),
            Ok((value, rest)) => Ok((next, rest, Flow::ReturnValue(JvmValue::Int(value)))),
        },
        Operation::Return => Ok((next, frame, Flow::Return)),
        Operation::Resolve(symbol) => match spec_symbol(pool, be_u16(code, pc + 1), symbol) {
            Err(e) => Err(e),
            Ok(_) => Ok((next, frame, Flow::Continue)),
        },
    }
}

/// One instruction: the byte at `pc` is decoded, its operand bytes must lie
/// inside the code, and the operation it stands for is carried out.
pub open spec fn spec_step(code: Seq<u8>, pool: Seq<SpecConstant>, pc: int, frame: SpecFrame) -> Result<
    (int, SpecFrame, Flow),
    JvmError,
> {
    if !(0 <= pc < code.len()) {
        Err(JvmError::TruncatedOperand)
    } else {
        match spec_opcode(code[pc]) {
            Err(e) => Err(e),
            Ok(opcode) => if pc + 1 + opcode.spec_operand_len() > code.len() {
                Err(JvmError::TruncatedOperand)
            } else {
                spec_execute(opcode.spec_operation(), code, pool, pc, frame)
            },
        }
    }
}

/// A run from position `pc` with `steps` instructions behind it: it ends
/// where the position has reached the end of the code, where an instruction
/// returns, and with an error where an instruction fails or where `limit`
/// instructions have run and the code has not ended.
pub open spec fn spec_run(
    code: Seq<u8>,
    pool: Seq<SpecConstant>,
    pc: int,
    frame: SpecFrame,
    steps: nat,
    limit: nat,
) -> Result<SpecExecution, JvmError>
    decreases limit - steps,
{
    if pc >= code.len() {
        Ok(SpecExecution { frame, pc, steps, exit: Exit::EndOfCode })
    } else if steps >= limit {
        Err(JvmError::StepLimit)
    } else {
        match spec_step(code, pool, pc, frame) {
            Err(e) => Err(e),
            Ok((next, after, Flow::Continue)) => spec_run(code, pool, next, after, steps + 1, limit),
            Ok((next, after, Flow::Return)) => Ok(
                SpecExecution { frame: after, pc: next, steps: steps + 1, exit: Exit::Return },
            ),
            Ok((next, after, Flow::ReturnValue(value))) => Ok(
                SpecExecution {
                    frame: after,
                    pc: next,
                    steps: steps + 1,
                    exit: Exit::ReturnValue(value),
                },
            ),
        }
    }
}

/// The state that `n` instructions lead to from position `pc` and `frame`,
/// if each of them runs without error and none of them returns.
pub open spec fn spec_state_after(
    code: Seq<u8>,
    pool: Seq<SpecConstant>,
    pc: int,
    frame: SpecFrame,
    n: nat,
) -> Option<(int, SpecFrame)>
    decreases n,
{
    if n == 0 {
        Some((pc, frame))
    } else {
        match spec_step(code, pool, pc, frame) {
            Ok((next, after, Flow::Continue)) => spec_state_after(
                code,
                pool,
                next,
                after,
                (n - 1) as nat,
            ),
            _ => None,
        }
    }
}

/// The operation that the opcode at `pc` stands for.
pub open spec fn operation_at(code: Seq<u8>, pc: int) -> Operation {
    spec_opcode(code[pc])->Ok_0.spec_operation()
}

/// No instruction takes a frame out of its bounds: behind an instruction
/// that runs without error the stack is no deeper than `max_stack`, and the
/// bound and the number of local slots are what they were.
pub proof fn lemma_step_keeps_frame_bounds(
    code: Seq<u8>,
    pool: Seq<SpecConstant>,
    pc: int,
    frame: SpecFrame,
)
    requires
        frame.within_bounds(),
    ensures
        spec_step(code, pool, pc, frame) matches Ok((_, after, _)) ==> {
            &&& after.within_bounds()
            &&& after.max_stack == frame.max_stack
            &&& after.locals.len() == frame.locals.len()
        },
{
}

/// No instruction leaves the code: behind an instruction that runs without
/// error the position is inside the code or at its end.
pub proof fn lemma_step_stays_in_code(
    code: Seq<u8>,
    pool: Seq<SpecConstant>,
    pc: int,
    frame: SpecFrame,
)
    ensures
        spec_step(code, pool, pc, frame) matches Ok((next, _, _)) ==> 0 <= next <= code.len(),
{
}

/// The stack bound at every position: in every state that a method reaches
/// from its first instruction with a fresh frame, the operand stack is no
/// deeper than the declared `max_stack`, the frame has the declared number
/// of local slots, and the position is inside the code or at its end.
pub proof fn lemma_reached_states_within_bounds(
    code: Seq<u8>,
    pool: Seq<SpecConstant>,
    max_stack: nat,
    max_locals: nat,
    n: nat,
)
    ensures
        spec_state_after(code, pool, 0, SpecFrame::fresh(max_stack, max_locals), n) matches Some(
            (pc, frame),
        ) ==> {
            &&& frame.stack.len() <= max_stack
            &&& frame.max_stack == max_stack
            &&& frame.locals.len() == max_locals
            &&& 0 <= pc <= code.len()
        },
{
    lemma_states_within_bounds(code, pool, 0, SpecFrame::fresh(max_stack, max_locals), n);
}

/// As `lemma_reached_states_within_bounds`, from any state within bounds.
pub proof fn lemma_states_within_bounds(
    code: Seq<u8>,
    pool: Seq<SpecConstant>,
    pc: int,
    frame: SpecFrame,
    n: nat,
)
    requires
        frame.within_bounds(),
        0 <= pc <= code.len(),
    ensures
        spec_state_after(code, pool, pc, frame, n) matches Some((end, after)) ==> {
            &&& after.within_bounds()
            &&& after.max_stack == frame.max_stack
            &&& after.locals.len() == frame.locals.len()
            &&& 0 <= end <= code.len()
        },
    decreases n,
{
    if n > 0 {
        if let Ok((next, after, Flow::Continue)) = spec_step(code, pool, pc, frame) {
            lemma_step_keeps_frame_bounds(code, pool, pc, frame);
            lemma_step_stays_in_code(code, pool, pc, frame);
            lemma_states_within_bounds(code, pool, next, after, (n - 1) as nat);
        }
    }
}

/// A run that ends without error ends within bounds: the stack is no deeper
/// than `max_stack`, the number of local slots is what it was, the position
/// is inside the code or at its end, and no more than `limit` instructions
/// have run.
pub proof fn lemma_run_ends_within_bounds(
    code: Seq<u8>,
    pool: Seq<SpecConstant>,
    pc: int,
    frame: SpecFrame,
    steps: nat,
    limit: nat,
)
    requires
        frame.within_bounds(),
        0 <= pc <= code.len(),
        steps <= limit,
    ensures
        spec_run(code, pool, pc, frame, steps, limit) matches Ok(end) ==> {
            &&& end.frame.within_bounds()
            &&& end.frame.max_stack == frame.max_stack
            &&& end.frame.locals.len() == frame.locals.len()
            &&& 0 <= end.pc <= code.len()
            &&& steps <= end.steps <= limit
            &&& end.exit == Exit::EndOfCode ==> end.pc == code.len()
        },
    decreases limit - steps,
{
    if pc < code.len() && steps < limit {
        if let Ok((next, after, flow)) = spec_step(code, pool, pc, frame) {
            lemma_step_keeps_frame_bounds(code, pool, pc, frame);
            lemma_step_stays_in_code(code, pool, pc, frame);
            if flow == Flow::Continue {
                lemma_run_ends_within_bounds(code, pool, next, after, steps + 1, limit);
            }
        }
    }
}

/// The local-slot bound: an instruction that loads from, stores to or
/// increments a local slot runs without error only if the slot exists.
pub proof fn lemma_local_slots_in_range(
    code: Seq<u8>,
    pool: Seq<SpecConstant>,
    pc: int,
    frame: SpecFrame,
)
    requires
        spec_step(code, pool, pc, frame) is Ok,
    ensures
        match operation_at(code, pc) {
            Operation::LoadInt(slot)
            | Operation::LoadReference(slot)
            | Operation::StoreInt(slot) => slot < frame.locals.len(),
            Operation::Increment => code[pc + 1] < frame.locals.len(),
            _ => true,
        },
{
}

/// Branch targets: a jump, and a conditional branch whose relation holds
/// between the two integers on top of the stack, go on at the position of
/// their opcode plus the signed offset in their operand bytes; a
/// conditional branch whose relation does not hold goes on behind its
/// operand bytes.
pub proof fn lemma_branch_targets(
    code: Seq<u8>,
    pool: Seq<SpecConstant>,
    pc: int,
    frame: SpecFrame,
)
    requires
        spec_step(code, pool, pc, frame) is Ok,
    ensures
        match operation_at(code, pc) {
            Operation::Jump => spec_step(code, pool, pc, frame)->Ok_0.0 == pc + branch_offset(
                code,
                pc + 1,
            ),
            Operation::BranchIf(relation) => {
                let right = frame.stack[frame.stack.len() - 1];
                let left = frame.stack[frame.stack.len() - 2];
                &&& frame.stack.len() >= 2
                &&& right is Int
                &&& left is Int
                &&& spec_step(code, pool, pc, frame)->Ok_0.0 == if holds(
                    relation,
                    left->Int_0,
                    right->Int_0,
                ) {
                    pc + branch_offset(code, pc + 1)
                } else {
                    pc + 3
                }
            },
            _ => spec_step(code, pool, pc, frame)->Ok_0.0 == pc + 1 + operation_at(
                code,
                pc,
            ).spec_operand_len(),
        },
{
}

/// What the execution of a method gives: a run of its first `Code`
/// attribute from position 0 with a fresh frame of the bounds that the
/// attribute declares, or the error for a method without code.
pub open spec fn spec_execute_bytecode(
    code_attribute: Option<SpecAttribute>,
    pool: Seq<SpecConstant>,
    limit: nat,
) -> Result<SpecExecution, JvmError> {
    match code_attribute {
        Some(SpecAttribute::Code { bytecode, max_stack, max_locals, .. }) => spec_run(
            bytecode,
            pool,
            0,
            SpecFrame::fresh(max_stack as nat, max_locals as nat),
            0,
            limit,
        ),
        _ => Err(JvmError::MissingCode),
    }
}

/// Whether `res` is the end of a run that `expected` gives.
pub open spec fn same_execution(
    res: Result<Execution, JvmError>,
    expected: Result<SpecExecution, JvmError>,
) -> bool {
    match expected {
        Ok(execution) => res is Ok && res->Ok_0@ == execution,
        Err(e) => res is Err && res->Err_0 == e,
    }
}

/// The integer that a byte stands for as a signed operand.
fn signed_operand(byte: u8) -> (value: i32)
    ensures
        value == sign_extend(byte),
{
    if byte < 0x80 {
        byte as i32
    } else {
        byte as i32 - 0x100
    }
}

/// The 16-bit number in the two bytes behind the opcode at `pc`.
fn wide_operand(code: &[u8], pc: usize) -> (value: u16)
    requires
        pc + 3 <= code@.len() <= usize::MAX,
    ensures
        value == be_u16(code@, pc + 1),
{
    code[pc + 1] as u16 * 0x100 + code[pc + 2] as u16
}

/// The value that a load of the constant in slot `index` pushes.
fn constant_value(constant_pool: &ConstantPool, index: usize) -> (res: Result<JvmValue, JvmError>)
    ensures
        res == spec_constant_value(constant_pool@, index as int),
{
    match constant_pool.get(index) {
        Some(ConstantType::Integer { val }) => {
            let bits = *val;
            if bits < 0x8000_0000 {
                Ok(JvmValue::Int(bits as i32))
            } else {
                Ok(JvmValue::Int((bits - 0x8000_0000) as i32 - 0x4000_0000 - 0x4000_0000))
            }
        },
        Some(ConstantType::Float { val }) => Ok(JvmValue::Float(*val)),
        Some(ConstantType::String { .. })
        | Some(ConstantType::Class { .. })
        | Some(ConstantType::MethodType)
        | Some(ConstantType::MethodHandle) => Ok(JvmValue::Reference(index)),
        _ => Err(JvmError::UnresolvableIndex { index }),
    }
}

/// Resolves the name of the entry of kind `symbol` in slot `index`.
fn resolve_symbol(constant_pool: &ConstantPool, index: usize, symbol: Symbol) -> (res: Result<
    String,
    JvmError,
>)
    ensures
        match spec_symbol(constant_pool@, index as int, symbol) {
            Ok(name) => res is Ok && res->Ok_0@ == name,
            Err(e) => res is Err && res->Err_0 == e,
        },
{
    let named = match (constant_pool.get(index), symbol) {
        (Some(ConstantType::Fieldref { .. }), Symbol::Field) => true,
        (Some(ConstantType::Methodref { .. }), Symbol::Method) => true,
        (Some(ConstantType::InterfaceMethodref { .. }), Symbol::Method) => true,
        (Some(ConstantType::Class { .. }), Symbol::Class) => true,
        _ => false,
    };
    if !named {
        return Err(JvmError::UnresolvableIndex { index });
    }
    constant_pool.resolve_constant_pool_utf(index)
}

/// Pops the integer on top of the stack.
fn pop_int(frame: &mut JvmFrame) -> (res: Result<i32, JvmError>)
    ensures
        match spec_pop_int(old(frame)@) {
            Ok((value, rest)) => res == Ok::<i32, JvmError>(value) && final(frame)@ == rest,
            Err(e) => res == Err::<i32, JvmError>(e),
        },
{
    match frame.pop()? {
        JvmValue::Int(value) => Ok(value),
        _ => Err(JvmError::TypeMismatch),
    }
}

/// The target of the branch whose opcode stands at `pc`.
fn branch_target(code: &[u8], pc: usize) -> (res: Result<usize, JvmError>)
    requires
        pc + 3 <= code@.len() <= usize::MAX,
    ensures
        match spec_branch(code@, pc as int) {
            Ok(target) => res == Ok::<usize, JvmError>(target as usize) && target <= usize::MAX,
            Err(e) => res == Err::<usize, JvmError>(e),
        },
{
    let offset = wide_operand(code, pc) as usize;
    if offset < 0x8000 {
        if offset > code.len() - pc {
            return Err(JvmError::BranchOutOfRange);
        }
        Ok(pc + offset)
    } else {
        let back = 0x1_0000 - offset;
        if back > pc {
            return Err(JvmError::BranchOutOfRange);
        }
        Ok(pc - back)
    }
}

/// Whether `left` and `right` stand in `relation`.
fn relation_holds(relation: Comparison, left: i32, right: i32) -> (yes: bool)
    ensures
        yes == holds(relation, left, right),
{
    match relation {
        Comparison::Equal => left == right,
        Comparison::NotEqual => left != right,
        Comparison::Less => left < right,
        Comparison::GreaterOrEqual => left >= right,
        Comparison::Greater => left > right,
        Comparison::LessOrEqual => left <= right,
    }
}

/// Whether `res` and `frame` are the outcome of a step that `expected`
/// gives.
pub open spec fn same_step(
    res: Result<(usize, Flow), JvmError>,
    frame: SpecFrame,
    expected: Result<(int, SpecFrame, Flow), JvmError>,
) -> bool {
    match expected {
        Ok((next, after, flow)) => res == Ok::<(usize, Flow), JvmError>((next as usize, flow))
            && 0 <= next <= usize::MAX && frame == after,
        Err(e) => res == Err::<(usize, Flow), JvmError>(e),
    }
}

/// Carries out `operation`, whose opcode stands at `pc`.
fn execute(
    operation: Operation,
    code: &[u8],
    pc: usize,
    frame: &mut JvmFrame,
    constant_pool: &ConstantPool,
) -> (res: Result<(usize, Flow), JvmError>)
    requires
        pc + 1 + operation.spec_operand_len() <= code@.len() <= usize::MAX,
    ensures
        same_step(
            res,
            final(frame)@,
            spec_execute(operation, code@, constant_pool@, pc as int, old(frame)@),
        ),
{
    let next = pc + 1 + operation.operand_len();
    match operation {
        Operation::Nop => {},
        Operation::PushInt(value) => {
            frame.push(JvmValue::Int(value))?;
        },
        Operation::PushByte => {
            frame.push(JvmValue::Int(signed_operand(code[pc + 1])))?;
        },
        Operation::LoadConstant => {
            let value = constant_value(constant_pool, code[pc + 1] as usize)?;
            frame.push(value)?;
        },
        Operation::LoadInt(slot) => {
            match frame.get_local(slot)? {
                JvmValue::Int(_) => {},
                _ => {
                    return Err(JvmError::TypeMismatch);
                },
            }
            frame.load_from_local(slot)?;
        },
        Operation::LoadReference(slot) => {
            match frame.get_local(slot)? {
                JvmValue::Reference(_) => {},
                _ => {
                    return Err(JvmError::TypeMismatch);
                },
            }
            frame.load_from_local(slot)?;
        },
        Operation::StoreInt(slot) => {
            match frame.peek()? {
                JvmValue::Int(_) => {},
                _ => {
                    return Err(JvmError::TypeMismatch);
                },
            }
            frame.store_to_local(slot)?;
        },
        Operation::AddInt => {
            let right = pop_int(frame)?;
            let left = pop_int(frame)?;
            frame.push(JvmValue::Int(left.wrapping_add(right)))?;
        },
        Operation::Increment => {
            let slot = code[pc + 1] as u16;
            let delta = signed_operand(code[pc + 2]);
            match frame.get_local(slot)? {
                JvmValue::Int(value) => {
                    frame.set_local(slot, JvmValue::Int(value.wrapping_add(delta)))?;
                },
                _ => {
                    return Err(JvmError::TypeMismatch);
                },
            }
        },
        Operation::BranchIf(relation) => {
            let right = pop_int(frame)?;
            let left = pop_int(frame)?;
            if relation_holds(relation, left, right) {
                let target = branch_target(code, pc)?;
                return Ok((target, Flow::Continue));
            }
        },
        Operation::Jump => {
            let target = branch_target(code, pc)?;
            return Ok((target, Flow::Continue));
        },
        Operation::ReturnInt => {
            let value = pop_int(frame)?;
            return Ok((next, Flow::ReturnValue(JvmValue::Int(value))));
        },
        Operation::Return => {
            return Ok((next, Flow::Return));
        },
        Operation::Resolve(symbol) => {
            let index = wide_operand(code, pc) as usize;
            let _name = resolve_symbol(constant_pool, index, symbol)?;
        },
    }
    Ok((next, Flow::Continue))
}

/// Runs the instruction at `pc`. Returns the position of the next
/// instruction and what happens to the flow of control, and leaves `frame`
/// as the instruction leaves it. After an error the frame is of no use.
pub fn step(code: &[u8], pc: usize, frame: &mut JvmFrame, constant_pool: &ConstantPool) -> (res:
    Result<(usize, Flow), JvmError>)
    ensures
        same_step(res, final(frame)@, spec_step(code@, constant_pool@, pc as int, old(frame)@)),
{
    if pc >= code.len() {
        return Err(JvmError::TruncatedOperand);
    }
    let opcode = Opcode::from(code[pc])?;
    let operation = opcode.operation();
    if operation.operand_len() > code.len() - pc - 1 {
        return Err(JvmError::TruncatedOperand);
    }
    execute(operation, code, pc, frame, constant_pool)
}

/// Runs `code` from position `pc` with the given frame, for at most
/// `limit` instructions.
#[verifier::loop_isolation(false)]
pub fn run_from(
    code: &[u8],
    pc: usize,
    frame: JvmFrame,
    constant_pool: &ConstantPool,
    limit: u64,
) -> (res: Result<Execution, JvmError>)
    ensures
        same_execution(res, spec_run(code@, constant_pool@, pc as int, frame@, 0, limit as nat)),
        res matches Ok(end) ==> end.steps <= limit,
        frame@.within_bounds() && pc <= code@.len() ==> (res matches Ok(end) ==> {
            &&& end@.frame.within_bounds()
            &&& end@.frame.max_stack == frame@.max_stack
            &&& end@.frame.locals.len() == frame@.locals.len()
            &&& end.pc <= code@.len()
        }),
{
    proof {
        if frame@.within_bounds() && pc <= code@.len() {
            lemma_run_ends_within_bounds(
                code@,
                constant_pool@,
                pc as int,
                frame@,
                0,
                limit as nat,
            );
        }
    }
    let ghost start = frame@;
    let ghost entry = pc as int;
    let mut frame = frame;
    let mut pc = pc;
    let mut steps: u64 = 0;
    while pc < code.len()
        invariant
            steps <= limit,
            spec_run(code@, constant_pool@, pc as int, frame@, steps as nat, limit as nat)
                == spec_run(code@, constant_pool@, entry, start, 0, limit as nat),
        decreases limit - steps,
    {
        if steps >= limit {
            return Err(JvmError::StepLimit);
        }
        let (next, flow) = step(code, pc, &mut frame, constant_pool)?;
        steps += 1;
        pc = next;
        match flow {
            Flow::Continue => {},
            Flow::Return => {
                return Ok(Execution { frame, pc, steps, exit: Exit::Return });
            },
            Flow::ReturnValue(value) => {
                return Ok(Execution { frame, pc, steps, exit: Exit::ReturnValue(value) });
            },
        }
    }
    Ok(Execution { frame, pc, steps, exit: Exit::EndOfCode })
}

/// Runs `code` from its first byte with a fresh frame of the given bounds,
/// for at most `limit` instructions.
pub fn run(
    code: &[u8],
    max_stack: u16,
    max_locals: u16,
    constant_pool: &ConstantPool,
    limit: u64,
) -> (res: Result<Execution, JvmError>)
    ensures
        same_execution(
            res,
            spec_run(
                code@,
                constant_pool@,
                0,
                SpecFrame::fresh(max_stack as nat, max_locals as nat),
                0,
                limit as nat,
            ),
        ),
        res matches Ok(end) ==> {
            &&& end@.frame.stack.len() <= max_stack
            &&& end@.frame.max_stack == max_stack
            &&& end@.frame.locals.len() == max_locals
            &&& end.pc <= code@.len()
            &&& end.steps <= limit
        },
{
    run_from(code, 0, JvmFrame::new(max_stack, max_locals), constant_pool, limit)
}

/// Runs the code of `method` with the instruction budget `STEP_LIMIT`.
pub fn execute_bytecode(method: &MethodInfo, constant_pool: &ConstantPool) -> (res: Result<
    Execution,
    JvmError,
>)
    ensures
        same_execution(
            res,
            spec_execute_bytecode(method@.code_attribute(), constant_pool@, STEP_LIMIT as nat),
        ),
        res matches Ok(end) ==> method@.code_attribute() matches Some(
            SpecAttribute::Code { bytecode, max_stack, max_locals, .. },
        ) && {
            &&& end@.frame.stack.len() <= max_stack
            &&& end@.frame.locals.len() == max_locals
            &&& end.pc <= bytecode.len()
        },
{
    match method.get_code_attribute() {
        Some(AttributeInfo::Code { bytecode, max_stack, max_locals, .. }) => run(
            bytecode.as_slice(),
            *max_stack,
            *max_locals,
            constant_pool,
            STEP_LIMIT,
        ),
        _ => Err(JvmError::MissingCode),
    }
}

} // verus!
