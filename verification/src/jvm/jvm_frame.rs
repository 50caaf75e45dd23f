//! The frame of one method invocation: an operand stack of bounded depth and
//! a fixed number of local-variable slots.

use crate::error::JvmError;
use crate::jvm::jvm_type::JvmValue;
use vstd::prelude::*;

verus! {

/// The model of a frame.
pub ghost struct SpecFrame {
    /// The operand stack, with its top at the end.
    pub stack: Seq<JvmValue>,
    /// The local-variable slots.
    pub locals: Seq<JvmValue>,
    /// The greatest depth that the stack may reach.
    pub max_stack: nat,
}

impl SpecFrame {
    /// The frame at the start of an invocation: an empty stack and
    /// `max_locals` slots that hold `Undefined`.
    pub open spec fn fresh(max_stack: nat, max_locals: nat) -> SpecFrame {
        SpecFrame {
            stack: Seq::empty(),
            locals: Seq::new(max_locals, |i: int| JvmValue::Undefined),
            max_stack,
        }
    }

    /// The invariant of a frame: the stack is no deeper than `max_stack`.
    pub open spec fn within_bounds(self) -> bool {
        self.stack.len() <= self.max_stack
    }

    /// The frame after `value` was pushed, or the overflow error if the
    /// stack is full.
    pub open spec fn push(self, value: JvmValue) -> Result<SpecFrame, JvmError> {
        if self.stack.len() >= self.max_stack {
            Err(JvmError::StackOverflow)
        } else {
            Ok(SpecFrame { stack: self.stack.push(value), ..self })
        }
    }

    /// The top of the stack and the frame without it, or the underflow error
    /// if the stack is empty.
    pub open spec fn pop(self) -> Result<(JvmValue, SpecFrame), JvmError> {
        if self.stack.len() == 0 {
            Err(JvmError::StackUnderflow)
        } else {
            Ok((self.stack.last(), SpecFrame { stack: self.stack.drop_last(), ..self }))
        }
    }

    /// The value in slot `index`.
    pub open spec fn get_local(self, index: int) -> Result<JvmValue, JvmError> {
        if 0 <= index < self.locals.len() {
            Ok(self.locals[index])
        } else {
            Err(JvmError::LocalOutOfRange)
        }
    }

    /// The frame with `value` in slot `index`.
    pub open spec fn set_local(self, index: int, value: JvmValue) -> Result<SpecFrame, JvmError> {
        if 0 <= index < self.locals.len() {
            Ok(SpecFrame { locals: self.locals.update(index, value), ..self })
        } else {
            Err(JvmError::LocalOutOfRange)
        }
    }

    /// The frame after the top of the stack was moved into slot `index`. An
    /// empty stack is reported before a slot out of range.
    pub open spec fn store_to_local(self, index: int) -> Result<SpecFrame, JvmError> {
        match self.pop() {
            Err(e) => Err(e),
            Ok((value, rest)) => rest.set_local(index, value),
        }
    }

    /// The frame after a copy of slot `index` was pushed. A slot out of range
    /// is reported before a full stack.
    pub open spec fn load_from_local(self, index: int) -> Result<SpecFrame, JvmError> {
        match self.get_local(index) {
            Err(e) => Err(e),
            Ok(value) => self.push(value),
        }
    }
}

/// The operand stack and the local variables of one method invocation.
///
/// A frame starts within its bounds, and no operation takes it out of them:
/// the stack never grows beyond `max_stack`, and the number of slots never
/// changes.
#[derive(Debug)]
pub struct JvmFrame {
    stack: Vec<JvmValue>,
    local_slots: Vec<JvmValue>,
    max_stack: u16,
}

impl View for JvmFrame {
    type V = SpecFrame;

    closed spec fn view(&self) -> SpecFrame {
        SpecFrame {
            stack: self.stack@,
            locals: self.local_slots@,
            max_stack: self.max_stack as nat,
        }
    }
}

/// Whether `res` reports that `frame` now is what `expected` gives, or the
/// error that `expected` gives with the frame as it was.
pub open spec fn moved_to(
    res: Result<(), JvmError>,
    before: SpecFrame,
    after: SpecFrame,
    expected: Result<SpecFrame, JvmError>,
) -> bool {
    match expected {
        Ok(frame) => res is Ok && after == frame,
        Err(e) => res == Err::<(), JvmError>(e) && after == before,
    }
}

impl JvmFrame {
    /// A frame for a method with the given bounds.
    pub fn new(stack_length: u16, locals_length: u16) -> (frame: JvmFrame)
        ensures
            frame@ == SpecFrame::fresh(stack_length as nat, locals_length as nat),
    {
        let mut local_slots: Vec<JvmValue> = Vec::with_capacity(locals_length as usize);
        while local_slots.len() < locals_length as usize
            invariant
                local_slots.len() <= locals_length,
                forall|i: int| 0 <= i < local_slots.len() ==> local_slots[i] == JvmValue::Undefined,
            decreases locals_length - local_slots.len(),
        {
            local_slots.push(JvmValue::Undefined);
        }
        let frame = JvmFrame {
            stack: Vec::with_capacity(stack_length as usize),
            local_slots,
            max_stack: stack_length,
        };
        assert(frame@.locals =~= SpecFrame::fresh(stack_length as nat, locals_length as nat).locals);
        assert(frame@.stack =~= Seq::empty());
        frame
    }

    /// Pushes `value`. Fails, and leaves the frame as it is, if the stack
    /// already holds `max_stack` values.
    pub fn push(&mut self, value: JvmValue) -> (res: Result<(), JvmError>)
        ensures
            moved_to(res, old(self)@, final(self)@, old(self)@.push(value)),
            old(self)@.within_bounds() ==> final(self)@.within_bounds(),
    {
        if self.stack.len() >= self.max_stack as usize {
            return Err(JvmError::StackOverflow);
        }
        self.stack.push(value);
        Ok(())
    }

    /// Removes the top of the stack and returns it. Fails, and leaves the
    /// frame as it is, if the stack is empty.
    pub fn pop(&mut self) -> (res: Result<JvmValue, JvmError>)
        ensures
            match old(self)@.pop() {
                Ok((value, frame)) => res == Ok::<JvmValue, JvmError>(value) && final(self)@ == frame,
                Err(e) => res == Err::<JvmValue, JvmError>(e) && final(self)@ == old(self)@,
            },
            old(self)@.within_bounds() ==> final(self)@.within_bounds(),
    {
        match self.stack.pop() {
            Some(value) => Ok(value),
            None => Err(JvmError::StackUnderflow),
        }
    }

    /// The top of the stack, which stays where it is.
    pub fn peek(&self) -> (res: Result<JvmValue, JvmError>)
        ensures
            match self@.pop() {
                Ok((value, _)) => res == Ok::<JvmValue, JvmError>(value),
                Err(e) => res == Err::<JvmValue, JvmError>(e),
            },
    {
        if self.stack.len() == 0 {
            return Err(JvmError::StackUnderflow);
        }
        Ok(self.stack[self.stack.len() - 1])
    }

    /// Moves the top of the stack into slot `local_idx`. Fails, and leaves
    /// the frame as it is, if the stack is empty or the slot does not exist.
    pub fn store_to_local(&mut self, local_idx: u16) -> (res: Result<(), JvmError>)
        ensures
            moved_to(res, old(self)@, final(self)@, old(self)@.store_to_local(local_idx as int)),
            old(self)@.within_bounds() ==> final(self)@.within_bounds(),
    {
        if self.stack.len() == 0 {
            return Err(JvmError::StackUnderflow);
        }
        if local_idx as usize >= self.local_slots.len() {
            return Err(JvmError::LocalOutOfRange);
        }
        let value = self.stack.pop().unwrap();
        self.local_slots.set(local_idx as usize, value);
        Ok(())
    }

    /// Pushes a copy of slot `local_idx`. Fails, and leaves the frame as it
    /// is, if the slot does not exist or the stack is full.
    pub fn load_from_local(&mut self, local_idx: u16) -> (res: Result<(), JvmError>)
        ensures
            moved_to(res, old(self)@, final(self)@, old(self)@.load_from_local(local_idx as int)),
            old(self)@.within_bounds() ==> final(self)@.within_bounds(),
    {
        if local_idx as usize >= self.local_slots.len() {
            return Err(JvmError::LocalOutOfRange);
        }
        if self.stack.len() >= self.max_stack as usize {
            return Err(JvmError::StackOverflow);
        }
        let value = self.local_slots[local_idx as usize];
        self.stack.push(value);
        Ok(())
    }

    /// The value in slot `local_idx`. A slot that was never written holds
    /// `Undefined`.
    pub fn get_local(&self, local_idx: u16) -> (res: Result<JvmValue, JvmError>)
        ensures
            res == self@.get_local(local_idx as int),
    {
        if local_idx as usize >= self.local_slots.len() {
            return Err(JvmError::LocalOutOfRange);
        }
        Ok(self.local_slots[local_idx as usize])
    }

    /// Writes `value` into slot `local_idx`. Fails, and leaves the frame as
    /// it is, if the slot does not exist.
    pub fn set_local(&mut self, local_idx: u16, value: JvmValue) -> (res: Result<(), JvmError>)
        ensures
            moved_to(res, old(self)@, final(self)@, old(self)@.set_local(local_idx as int, value)),
            old(self)@.within_bounds() ==> final(self)@.within_bounds(),
    {
        if local_idx as usize >= self.local_slots.len() {
            return Err(JvmError::LocalOutOfRange);
        }
        self.local_slots.set(local_idx as usize, value);
        Ok(())
    }

    /// The number of values on the operand stack.
    pub fn stack_depth(&self) -> (depth: usize)
        ensures
            depth == self@.stack.len(),
    {
        self.stack.len()
    }

    /// The greatest depth that the operand stack may reach.
    pub fn max_stack(&self) -> (bound: u16)
        ensures
            bound == self@.max_stack,
    {
        self.max_stack
    }

    /// The number of local-variable slots.
    pub fn max_locals(&self) -> (slots: usize)
        ensures
            slots == self@.locals.len(),
    {
        self.local_slots.len()
    }
}

} // verus!
