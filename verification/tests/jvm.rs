use mini_jvm::class_loader::constant_pool::ConstantPool;
use mini_jvm::class_loader::raw_data::RawClassData;
use mini_jvm::error::ErrorCategory;
use mini_jvm::error::JvmError;
use mini_jvm::jvm::jvm_engine::run;
use mini_jvm::jvm::jvm_engine::run_from;
use mini_jvm::jvm::jvm_engine::step;
use mini_jvm::jvm::jvm_engine::Execution;
use mini_jvm::jvm::jvm_engine::Exit;
use mini_jvm::jvm::jvm_engine::Flow;
use mini_jvm::jvm::jvm_engine::STEP_LIMIT;
use mini_jvm::jvm::jvm_frame::JvmFrame;
use mini_jvm::jvm::jvm_type::JvmValue;

fn utf8(text: &str) -> Vec<u8> {
    let mut bytes = vec![1, (text.len() >> 8) as u8, text.len() as u8];
    bytes.extend_from_slice(text.as_bytes());
    bytes
}

// Slots: 1 Integer 100000, 2 Integer -2, 3 Float 1.0, 4 String(5), 5 "hello",
// 6 Class(7), 7 "java/lang/Object", 8 Methodref(6, 9), 9 NameAndType(10, 11),
// 10 "<init>", 11 "()V", 12 Fieldref(6, 9), 13 InterfaceMethodref(6, 9),
// 14 and 15 Long, 16 MethodHandle, 17 MethodType, 18 InvokeDynamic.
fn pool() -> ConstantPool {
    let entries = vec![
        vec![3, 0x00, 0x01, 0x86, 0xA0],
        vec![3, 0xFF, 0xFF, 0xFF, 0xFE],
        vec![4, 0x3F, 0x80, 0x00, 0x00],
        vec![8, 0, 5],
        utf8("hello"),
        vec![7, 0, 7],
        utf8("java/lang/Object"),
        vec![10, 0, 6, 0, 9],
        vec![12, 0, 10, 0, 11],
        utf8("<init>"),
        utf8("()V"),
        vec![9, 0, 6, 0, 9],
        vec![11, 0, 6, 0, 9],
        vec![5, 0, 0, 0, 0, 0, 0, 0, 1],
        vec![15, 1, 0, 12],
        vec![16, 0, 11],
        vec![18, 0, 0, 0, 9],
    ];
    let mut bytes = vec![0, 19];
    for entry in entries {
        bytes.extend(entry);
    }
    let mut data = RawClassData::new(bytes);
    ConstantPool::new(&mut data).unwrap()
}

fn exec(code: &[u8], max_stack: u16, max_locals: u16) -> Result<Execution, JvmError> {
    run(code, max_stack, max_locals, &pool(), 10_000)
}

fn fails(code: &[u8], max_stack: u16, max_locals: u16) -> JvmError {
    exec(code, max_stack, max_locals).unwrap_err()
}

fn stack_of(end: &mut Execution) -> Vec<JvmValue> {
    let mut values = vec![];
    while let Ok(value) = end.frame.pop() {
        values.push(value);
    }
    values.reverse();
    values
}

#[test]
fn fresh_frame_is_empty_with_undefined_locals() {
    let frame = JvmFrame::new(2, 3);
    assert_eq!(frame.stack_depth(), 0);
    assert_eq!(frame.max_stack(), 2);
    assert_eq!(frame.max_locals(), 3);
    for slot in 0..3 {
        assert_eq!(frame.get_local(slot), Ok(JvmValue::Undefined));
    }
    assert_eq!(frame.get_local(3), Err(JvmError::LocalOutOfRange));
    assert_eq!(frame.peek(), Err(JvmError::StackUnderflow));
}

#[test]
fn push_and_pop_are_last_in_first_out() {
    let mut frame = JvmFrame::new(3, 0);
    assert_eq!(frame.push(JvmValue::Int(1)), Ok(()));
    assert_eq!(frame.push(JvmValue::Long(2)), Ok(()));
    assert_eq!(frame.push(JvmValue::Reference(3)), Ok(()));
    assert_eq!(frame.stack_depth(), 3);
    assert_eq!(frame.peek(), Ok(JvmValue::Reference(3)));
    assert_eq!(frame.stack_depth(), 3);
    assert_eq!(frame.pop(), Ok(JvmValue::Reference(3)));
    assert_eq!(frame.pop(), Ok(JvmValue::Long(2)));
    assert_eq!(frame.pop(), Ok(JvmValue::Int(1)));
    assert_eq!(frame.stack_depth(), 0);
}

#[test]
fn push_beyond_max_stack_fails_and_changes_nothing() {
    let mut frame = JvmFrame::new(1, 0);
    assert_eq!(frame.push(JvmValue::Int(7)), Ok(()));
    assert_eq!(frame.push(JvmValue::Int(8)), Err(JvmError::StackOverflow));
    assert_eq!(frame.stack_depth(), 1);
    assert_eq!(frame.pop(), Ok(JvmValue::Int(7)));
    let mut none = JvmFrame::new(0, 0);
    assert_eq!(none.push(JvmValue::Undefined), Err(JvmError::StackOverflow));
    assert_eq!(JvmError::StackOverflow.category(), ErrorCategory::Execution);
}

#[test]
fn pop_from_an_empty_stack_fails() {
    let mut frame = JvmFrame::new(4, 0);
    assert_eq!(frame.pop(), Err(JvmError::StackUnderflow));
    assert_eq!(frame.stack_depth(), 0);
}

#[test]
fn store_moves_the_top_into_a_slot() {
    let mut frame = JvmFrame::new(2, 2);
    frame.push(JvmValue::Int(5)).unwrap();
    frame.push(JvmValue::Float(9)).unwrap();
    assert_eq!(frame.store_to_local(1), Ok(()));
    assert_eq!(frame.get_local(1), Ok(JvmValue::Float(9)));
    assert_eq!(frame.get_local(0), Ok(JvmValue::Undefined));
    assert_eq!(frame.stack_depth(), 1);
    assert_eq!(frame.peek(), Ok(JvmValue::Int(5)));
}

#[test]
fn store_fails_without_a_value_or_a_slot() {
    let mut frame = JvmFrame::new(2, 2);
    assert_eq!(frame.store_to_local(0), Err(JvmError::StackUnderflow));
    assert_eq!(frame.store_to_local(2), Err(JvmError::StackUnderflow));
    frame.push(JvmValue::Int(5)).unwrap();
    assert_eq!(frame.store_to_local(2), Err(JvmError::LocalOutOfRange));
    assert_eq!(frame.stack_depth(), 1);
    assert_eq!(frame.get_local(0), Ok(JvmValue::Undefined));
    assert_eq!(frame.get_local(1), Ok(JvmValue::Undefined));
}

#[test]
fn load_pushes_a_copy_of_a_slot() {
    let mut frame = JvmFrame::new(2, 2);
    assert_eq!(frame.set_local(1, JvmValue::Double(4)), Ok(()));
    assert_eq!(frame.load_from_local(1), Ok(()));
    assert_eq!(frame.load_from_local(0), Ok(()));
    assert_eq!(frame.get_local(1), Ok(JvmValue::Double(4)));
    assert_eq!(frame.pop(), Ok(JvmValue::Undefined));
    assert_eq!(frame.pop(), Ok(JvmValue::Double(4)));
}

#[test]
fn load_fails_without_a_slot_or_room() {
    let mut frame = JvmFrame::new(1, 1);
    assert_eq!(frame.load_from_local(1), Err(JvmError::LocalOutOfRange));
    assert_eq!(frame.load_from_local(0), Ok(()));
    assert_eq!(frame.load_from_local(0), Err(JvmError::StackOverflow));
    assert_eq!(frame.load_from_local(1), Err(JvmError::LocalOutOfRange));
    assert_eq!(frame.stack_depth(), 1);
    assert_eq!(frame.set_local(1, JvmValue::Int(0)), Err(JvmError::LocalOutOfRange));
    assert_eq!(frame.set_local(u16::MAX, JvmValue::Int(0)), Err(JvmError::LocalOutOfRange));
}

#[test]
fn return_ends_the_run_after_one_step() {
    let end = exec(&[0xB1], 0, 1).unwrap();
    assert_eq!(end.exit, Exit::Return);
    assert_eq!(end.steps, 1);
    assert_eq!(end.pc, 1);
    assert_eq!(end.frame.stack_depth(), 0);
}

#[test]
fn nothing_behind_a_return_runs() {
    let end = exec(&[0xB1, 0xFF, 0x60], 0, 0).unwrap();
    assert_eq!(end.exit, Exit::Return);
    assert_eq!(end.steps, 1);
}

#[test]
fn pushed_byte_is_stored() {
    let end = exec(&[0x10, 0x2A, 0x3C, 0xB1], 1, 2).unwrap();
    assert_eq!(end.frame.get_local(1), Ok(JvmValue::Int(42)));
    assert_eq!(end.frame.get_local(0), Ok(JvmValue::Undefined));
    assert_eq!(end.frame.stack_depth(), 0);
    assert_eq!(end.exit, Exit::Return);
    assert_eq!(end.steps, 3);
    assert_eq!(end.pc, 4);
}

#[test]
fn two_and_three_are_five() {
    let end = exec(&[0x05, 0x06, 0x60, 0x3C, 0xB1], 2, 2).unwrap();
    assert_eq!(end.frame.get_local(1), Ok(JvmValue::Int(5)));
    assert_eq!(end.frame.stack_depth(), 0);
    assert_eq!(end.steps, 5);
}

fn positions(code: &[u8], max_stack: u16, max_locals: u16) -> (Vec<usize>, Flow) {
    let constants = pool();
    let mut frame = JvmFrame::new(max_stack, max_locals);
    let mut visited = vec![];
    let mut pc = 0;
    loop {
        visited.push(pc);
        let (next, flow) = step(code, pc, &mut frame, &constants).unwrap();
        pc = next;
        if flow != Flow::Continue || pc >= code.len() {
            return (visited, flow);
        }
    }
}

#[test]
fn equal_values_take_the_branch() {
    // 0: iconst_1; 1: iconst_1; 2: if_icmpeq +6; 5: iconst_0; 6: goto +3;
    // 9: iconst_1; 10: return. The branch goes on at 2 + 6, which is the low
    // byte of the offset of the goto; the bytes are decoded from there.
    let code = [0x04, 0x04, 0x9F, 0x00, 0x06, 0x03, 0xA7, 0x00, 0x03, 0x04, 0xB1];
    let (visited, flow) = positions(&code, 2, 0);
    assert_eq!(visited, vec![0, 1, 2, 8, 9, 10]);
    assert!(!visited.contains(&5));
    assert!(!visited.contains(&6));
    assert_eq!(flow, Flow::Return);
    let mut end = exec(&code, 2, 0).unwrap();
    assert_eq!(end.exit, Exit::Return);
    assert_eq!(end.pc, 11);
    assert_eq!(end.steps, 6);
    assert_eq!(stack_of(&mut end), vec![JvmValue::Int(0), JvmValue::Int(1)]);
}

#[test]
fn branch_over_two_instructions() {
    // As above, with the offset that leads to the iconst_1 at 9.
    let code = [0x04, 0x04, 0x9F, 0x00, 0x07, 0x03, 0xA7, 0x00, 0x03, 0x04, 0xB1];
    let (visited, flow) = positions(&code, 2, 0);
    assert_eq!(visited, vec![0, 1, 2, 9, 10]);
    assert_eq!(flow, Flow::Return);
    let mut end = exec(&code, 2, 0).unwrap();
    assert_eq!(end.steps, 5);
    assert_eq!(stack_of(&mut end), vec![JvmValue::Int(1)]);
}

#[test]
fn unequal_values_fall_through() {
    // 0: iconst_1; 1: iconst_2; 2: if_icmpeq +7; 5: iconst_0; 6: goto +4;
    // 9: iconst_1; 10: return.
    let code = [0x04, 0x05, 0x9F, 0x00, 0x07, 0x03, 0xA7, 0x00, 0x04, 0x04, 0xB1];
    let (visited, _) = positions(&code, 2, 0);
    assert_eq!(visited, vec![0, 1, 2, 5, 6, 10]);
    let mut end = exec(&code, 2, 0).unwrap();
    assert_eq!(end.exit, Exit::Return);
    assert_eq!(end.steps, 6);
    assert_eq!(stack_of(&mut end), vec![JvmValue::Int(0)]);
}

#[test]
fn constants_zero_to_five_are_pushed() {
    let mut end = exec(&[0x03, 0x04, 0x05, 0x06, 0x07, 0x08], 6, 0).unwrap();
    assert_eq!(end.exit, Exit::EndOfCode);
    assert_eq!(end.pc, 6);
    assert_eq!(end.steps, 6);
    assert_eq!(
        stack_of(&mut end),
        vec![
            JvmValue::Int(0),
            JvmValue::Int(1),
            JvmValue::Int(2),
            JvmValue::Int(3),
            JvmValue::Int(4),
            JvmValue::Int(5)
        ]
    );
}

#[test]
fn empty_code_ends_at_once() {
    let end = exec(&[], 0, 0).unwrap();
    assert_eq!(end.exit, Exit::EndOfCode);
    assert_eq!(end.steps, 0);
    assert_eq!(end.pc, 0);
    let end = run(&[], 0, 0, &pool(), 0).unwrap();
    assert_eq!(end.exit, Exit::EndOfCode);
}

#[test]
fn nop_does_nothing() {
    let end = exec(&[0x00, 0x00, 0xB1], 0, 0).unwrap();
    assert_eq!(end.steps, 3);
    assert_eq!(end.frame.stack_depth(), 0);
}

#[test]
fn pushed_byte_is_sign_extended() {
    let mut end = exec(&[0x10, 0xFF, 0x10, 0x80, 0x10, 0x7F, 0x10, 0x00], 4, 0).unwrap();
    assert_eq!(
        stack_of(&mut end),
        vec![JvmValue::Int(-1), JvmValue::Int(-128), JvmValue::Int(127), JvmValue::Int(0)]
    );
}

#[test]
fn constants_are_loaded_by_their_kind() {
    let mut end = exec(&[0x12, 1, 0x12, 2, 0x12, 3, 0x12, 4], 4, 0).unwrap();
    assert_eq!(
        stack_of(&mut end),
        vec![
            JvmValue::Int(100_000),
            JvmValue::Int(-2),
            JvmValue::Float(0x3F80_0000),
            JvmValue::Reference(4)
        ]
    );
}

#[test]
fn constants_of_other_kinds_cannot_be_loaded() {
    for index in [0u8, 5, 7, 8, 9, 10, 11, 12, 13, 14, 15, 18, 19, 200] {
        let error = fails(&[0x12, index], 1, 0);
        assert_eq!(error, JvmError::UnresolvableIndex { index: index as usize });
        assert_eq!(error.category(), ErrorCategory::Resolution);
    }
}

#[test]
fn loaded_constant_needs_room() {
    assert_eq!(fails(&[0x12, 1], 0, 0), JvmError::StackOverflow);
}

#[test]
fn integers_are_stored_and_loaded_in_every_slot() {
    let code = [
        0x05, 0x3B, 0x06, 0x3C, 0x07, 0x3D, 0x08, 0x3E, 0x1A, 0x1B, 0x1C, 0x1D, 0xB1,
    ];
    let mut end = exec(&code, 4, 4).unwrap();
    assert_eq!(end.frame.get_local(0), Ok(JvmValue::Int(2)));
    assert_eq!(end.frame.get_local(1), Ok(JvmValue::Int(3)));
    assert_eq!(end.frame.get_local(2), Ok(JvmValue::Int(4)));
    assert_eq!(end.frame.get_local(3), Ok(JvmValue::Int(5)));
    assert_eq!(
        stack_of(&mut end),
        vec![JvmValue::Int(2), JvmValue::Int(3), JvmValue::Int(4), JvmValue::Int(5)]
    );
}

#[test]
fn slot_beyond_max_locals_is_refused() {
    assert_eq!(fails(&[0x04, 0x3C], 1, 1), JvmError::LocalOutOfRange);
    assert_eq!(fails(&[0x04, 0x3E], 1, 3), JvmError::LocalOutOfRange);
    assert_eq!(fails(&[0x04, 0x3B], 1, 0), JvmError::LocalOutOfRange);
    assert_eq!(fails(&[0x1A], 1, 0), JvmError::LocalOutOfRange);
    assert_eq!(fails(&[0x1D], 1, 3), JvmError::LocalOutOfRange);
    assert_eq!(fails(&[0x2A], 1, 0), JvmError::LocalOutOfRange);
    assert_eq!(fails(&[0x2D], 1, 3), JvmError::LocalOutOfRange);
    assert_eq!(fails(&[0x84, 2, 1], 1, 2), JvmError::LocalOutOfRange);
    assert_eq!(fails(&[0x84, 255, 1], 1, 255), JvmError::LocalOutOfRange);
    assert_eq!(JvmError::LocalOutOfRange.category(), ErrorCategory::Execution);
}

#[test]
fn load_of_an_undefined_slot_is_a_type_error() {
    assert_eq!(fails(&[0x1A], 1, 1), JvmError::TypeMismatch);
    assert_eq!(fails(&[0x2B], 1, 2), JvmError::TypeMismatch);
    assert_eq!(fails(&[0x84, 0, 1], 1, 1), JvmError::TypeMismatch);
    assert_eq!(JvmError::TypeMismatch.category(), ErrorCategory::Execution);
}

#[test]
fn load_checks_the_type_before_the_room() {
    assert_eq!(fails(&[0x1A], 0, 1), JvmError::TypeMismatch);
    assert_eq!(fails(&[0x04, 0x3B, 0x04, 0x1A], 1, 1), JvmError::StackOverflow);
}

#[test]
fn reference_load_wants_a_reference() {
    let code = [0x12, 4, 0x3B];
    assert_eq!(fails(&code, 1, 1), JvmError::TypeMismatch);
    assert_eq!(fails(&[0x04, 0x3B, 0x2A], 1, 1), JvmError::TypeMismatch);
}

#[test]
fn store_wants_an_integer() {
    assert_eq!(fails(&[0x12, 3, 0x3B], 1, 1), JvmError::TypeMismatch);
    assert_eq!(fails(&[0x3B], 1, 1), JvmError::StackUnderflow);
    assert_eq!(fails(&[0x12, 4, 0x3E], 1, 1), JvmError::TypeMismatch);
}

#[test]
fn sum_of_a_positive_and_a_negative_constant() {
    let mut end = exec(&[0x12, 1, 0x12, 2, 0x60], 2, 0).unwrap();
    assert_eq!(stack_of(&mut end), vec![JvmValue::Int(99_998)]);
}

#[test]
fn doubling_wraps_to_the_least_integer() {
    // local0 = 1; thirty-one times local0 = local0 + local0.
    let mut code = vec![0x04, 0x3B];
    for _ in 0..31 {
        code.extend_from_slice(&[0x1A, 0x1A, 0x60, 0x3B]);
    }
    let end = exec(&code, 2, 1).unwrap();
    assert_eq!(end.frame.get_local(0), Ok(JvmValue::Int(i32::MIN)));
    code.extend_from_slice(&[0x1A, 0x1A, 0x60, 0x3B]);
    let end = exec(&code, 2, 1).unwrap();
    assert_eq!(end.frame.get_local(0), Ok(JvmValue::Int(0)));
}

#[test]
fn sum_wants_two_integers() {
    assert_eq!(fails(&[0x60], 2, 0), JvmError::StackUnderflow);
    assert_eq!(fails(&[0x04, 0x60], 2, 0), JvmError::StackUnderflow);
    assert_eq!(fails(&[0x04, 0x12, 3, 0x60], 2, 0), JvmError::TypeMismatch);
    assert_eq!(fails(&[0x12, 4, 0x04, 0x60], 2, 0), JvmError::TypeMismatch);
    assert_eq!(JvmError::StackUnderflow.category(), ErrorCategory::Execution);
}

#[test]
fn increment_adds_a_signed_byte() {
    let end = exec(&[0x10, 10, 0x3C, 0x84, 1, 5, 0x84, 1, 0xFD, 0xB1], 1, 2).unwrap();
    assert_eq!(end.frame.get_local(1), Ok(JvmValue::Int(12)));
    assert_eq!(end.frame.stack_depth(), 0);
    let end = exec(&[0x03, 0x3B, 0x84, 0, 0x80], 1, 1).unwrap();
    assert_eq!(end.frame.get_local(0), Ok(JvmValue::Int(-128)));
}

#[test]
fn increment_wraps_around() {
    let mut code = vec![0x04, 0x3B];
    for _ in 0..31 {
        code.extend_from_slice(&[0x1A, 0x1A, 0x60, 0x3B]);
    }
    code.extend_from_slice(&[0x84, 0, 0xFF]);
    let end = exec(&code, 2, 1).unwrap();
    assert_eq!(end.frame.get_local(0), Ok(JvmValue::Int(i32::MAX)));
}

fn branch_taken(opcode: u8, left: i8, right: i8) -> bool {
    // push left; push right; branch +5; iconst_0; return; iconst_1; return
    let code = [0x10, left as u8, 0x10, right as u8, opcode, 0, 5, 0x03, 0xB1, 0x04, 0xB1];
    let mut end = exec(&code, 2, 0).unwrap();
    assert_eq!(end.exit, Exit::Return);
    let stack = stack_of(&mut end);
    assert_eq!(stack.len(), 1);
    stack[0] == JvmValue::Int(1)
}

#[test]
fn branches_test_the_left_against_the_right() {
    for (left, right) in [(1, 2), (2, 1), (3, 3), (-1, 1), (1, -1), (-128, 127)] {
        assert_eq!(branch_taken(0x9F, left, right), left == right);
        assert_eq!(branch_taken(0xA0, left, right), left != right);
        assert_eq!(branch_taken(0xA1, left, right), left < right);
        assert_eq!(branch_taken(0xA2, left, right), left >= right);
        assert_eq!(branch_taken(0xA3, left, right), left > right);
        assert_eq!(branch_taken(0xA4, left, right), left <= right);
    }
}

#[test]
fn branch_wants_two_integers() {
    assert_eq!(fails(&[0x9F, 0, 3], 2, 0), JvmError::StackUnderflow);
    assert_eq!(fails(&[0x04, 0xA0, 0, 3], 2, 0), JvmError::StackUnderflow);
    assert_eq!(fails(&[0x04, 0x12, 4, 0xA1, 0, 3], 2, 0), JvmError::TypeMismatch);
    assert_eq!(fails(&[0x12, 3, 0x04, 0xA4, 0, 3], 2, 0), JvmError::TypeMismatch);
}

#[test]
fn jump_is_relative_to_its_opcode() {
    // 0: goto +4; 3: iconst_0; 4: iconst_1; 5: return
    let mut end = exec(&[0xA7, 0, 4, 0x03, 0x04, 0xB1], 2, 0).unwrap();
    assert_eq!(end.steps, 3);
    assert_eq!(stack_of(&mut end), vec![JvmValue::Int(1)]);
    // 0: nop; 1: goto +3; 4: return
    let end = exec(&[0x00, 0xA7, 0, 3, 0xB1], 0, 0).unwrap();
    assert_eq!(end.steps, 3);
    assert_eq!(end.pc, 5);
}

#[test]
fn loop_counts_to_ten() {
    // 0: iconst_0; 1: istore_0; 2: iload_0; 3: bipush 10; 5: if_icmpge +9;
    // 8: iinc 0 1; 11: goto -9; 14: iload_0; 15: ireturn
    let code = [
        0x03, 0x3B, 0x1A, 0x10, 10, 0xA2, 0, 9, 0x84, 0, 1, 0xA7, 0xFF, 0xF7, 0x1A, 0xAC,
    ];
    let end = exec(&code, 2, 1).unwrap();
    assert_eq!(end.exit, Exit::ReturnValue(JvmValue::Int(10)));
    assert_eq!(end.frame.get_local(0), Ok(JvmValue::Int(10)));
    assert_eq!(end.frame.stack_depth(), 0);
    assert_eq!(end.steps, 2 + 10 * 5 + 3 + 2);
    assert_eq!(end.pc, 16);
}

#[test]
fn branch_to_the_end_of_the_code_ends_the_run() {
    let end = exec(&[0xA7, 0, 3], 0, 0).unwrap();
    assert_eq!(end.exit, Exit::EndOfCode);
    assert_eq!(end.pc, 3);
    assert_eq!(end.steps, 1);
    let end = exec(&[0x04, 0x04, 0x9F, 0, 4, 0x00], 2, 0).unwrap();
    assert_eq!(end.exit, Exit::EndOfCode);
    assert_eq!(end.pc, 6);
}

#[test]
fn branch_out_of_the_code_is_refused() {
    assert_eq!(fails(&[0xA7, 0, 4], 0, 0), JvmError::BranchOutOfRange);
    assert_eq!(fails(&[0xA7, 0x7F, 0xFF], 0, 0), JvmError::BranchOutOfRange);
    assert_eq!(fails(&[0xA7, 0xFF, 0xFF], 0, 0), JvmError::BranchOutOfRange);
    assert_eq!(fails(&[0x00, 0xA7, 0xFF, 0xFE], 0, 0), JvmError::BranchOutOfRange);
    assert_eq!(fails(&[0xA7, 0x80, 0x00], 0, 0), JvmError::BranchOutOfRange);
    assert_eq!(fails(&[0x04, 0x04, 0x9F, 0xFF, 0xFD], 2, 0), JvmError::BranchOutOfRange);
    assert_eq!(JvmError::BranchOutOfRange.category(), ErrorCategory::Execution);
}

#[test]
fn branch_not_taken_ignores_its_target() {
    let end = exec(&[0x04, 0x05, 0x9F, 0x7F, 0xFF, 0xB1], 2, 0).unwrap();
    assert_eq!(end.exit, Exit::Return);
    assert_eq!(end.pc, 6);
}

#[test]
fn jump_back_to_the_first_byte_is_allowed() {
    // 0: nop; 1: goto -1
    let (next, flow) = step(&[0x00, 0xA7, 0xFF, 0xFF], 1, &mut JvmFrame::new(0, 0), &pool()).unwrap();
    assert_eq!(next, 0);
    assert_eq!(flow, Flow::Continue);
    let error = run(&[0x00, 0xA7, 0xFF, 0xFF], 0, 0, &pool(), 7).unwrap_err();
    assert_eq!(error, JvmError::StepLimit);
}

#[test]
fn endless_loop_uses_up_the_budget() {
    assert_eq!(run(&[0xA7, 0, 0], 0, 0, &pool(), 1000).unwrap_err(), JvmError::StepLimit);
    assert_eq!(run(&[0xB1], 0, 0, &pool(), 0).unwrap_err(), JvmError::StepLimit);
    assert_eq!(JvmError::StepLimit.category(), ErrorCategory::Execution);
    assert_eq!(STEP_LIMIT, u64::MAX);
}

#[test]
fn budget_that_is_just_enough_suffices() {
    let end = run(&[0x00, 0x00, 0xB1], 0, 0, &pool(), 3).unwrap();
    assert_eq!(end.steps, 3);
    assert_eq!(run(&[0x00, 0x00, 0xB1], 0, 0, &pool(), 2).unwrap_err(), JvmError::StepLimit);
    let end = run(&[0x00, 0x00], 0, 0, &pool(), 2).unwrap();
    assert_eq!(end.exit, Exit::EndOfCode);
}

#[test]
fn integer_return_gives_the_value() {
    let end = exec(&[0x10, 0xF9, 0xAC], 1, 0).unwrap();
    assert_eq!(end.exit, Exit::ReturnValue(JvmValue::Int(-7)));
    assert_eq!(end.frame.stack_depth(), 0);
    assert_eq!(end.steps, 2);
    assert_eq!(fails(&[0xAC], 1, 0), JvmError::StackUnderflow);
    assert_eq!(fails(&[0x12, 4, 0xAC], 1, 0), JvmError::TypeMismatch);
}

#[test]
fn stack_deeper_than_max_stack_is_refused() {
    assert_eq!(fails(&[0x03], 0, 0), JvmError::StackOverflow);
    assert_eq!(fails(&[0x04, 0x05, 0x06], 2, 0), JvmError::StackOverflow);
    assert_eq!(fails(&[0x10, 1], 0, 0), JvmError::StackOverflow);
    assert!(exec(&[0x04, 0x05, 0x60, 0x06], 2, 0).is_ok());
}

#[test]
fn unknown_opcode_is_a_decode_error() {
    let error = fails(&[0x00, 0x01], 1, 1);
    assert_eq!(error, JvmError::UnknownOpcode { code: 0x01 });
    assert_eq!(error.category(), ErrorCategory::Decode);
    assert_eq!(fails(&[0xFF], 1, 1), JvmError::UnknownOpcode { code: 0xFF });
    assert_eq!(fails(&[0xB9, 0, 1, 1, 0], 1, 1), JvmError::UnknownOpcode { code: 0xB9 });
}

#[test]
fn operand_bytes_are_not_decoded_as_opcodes() {
    let end = exec(&[0x10, 0xFF, 0xB1], 1, 0).unwrap();
    assert_eq!(end.steps, 2);
}

#[test]
fn code_that_ends_inside_an_instruction_is_a_decode_error() {
    for code in [
        vec![0x10],
        vec![0x12],
        vec![0x84],
        vec![0x84, 0],
        vec![0x9F],
        vec![0xA4, 0],
        vec![0xA7],
        vec![0xA7, 0],
        vec![0xB2, 0],
        vec![0xB6],
        vec![0xB7, 0],
        vec![0xB8],
        vec![0xBB, 0],
    ] {
        let error = fails(&code, 2, 2);
        assert_eq!(error, JvmError::TruncatedOperand);
        assert_eq!(error.category(), ErrorCategory::Decode);
    }
}

#[test]
fn truncation_is_found_before_the_operation_runs() {
    assert_eq!(fails(&[0x9F, 0], 2, 0), JvmError::TruncatedOperand);
    assert_eq!(fails(&[0x84, 9], 0, 0), JvmError::TruncatedOperand);
}

#[test]
fn named_entries_are_resolved_without_effect_on_the_frame() {
    let code = [
        0xB2, 0, 12, 0xB6, 0, 8, 0xB7, 0, 8, 0xB8, 0, 13, 0xB7, 0, 13, 0xBB, 0, 6, 0xB1,
    ];
    let end = exec(&code, 0, 0).unwrap();
    assert_eq!(end.steps, 7);
    assert_eq!(end.frame.stack_depth(), 0);
    assert_eq!(end.exit, Exit::Return);
}

#[test]
fn named_entries_of_the_wrong_kind_are_refused() {
    assert_eq!(fails(&[0xB2, 0, 8], 0, 0), JvmError::UnresolvableIndex { index: 8 });
    assert_eq!(fails(&[0xB2, 0, 6], 0, 0), JvmError::UnresolvableIndex { index: 6 });
    assert_eq!(fails(&[0xB6, 0, 12], 0, 0), JvmError::UnresolvableIndex { index: 12 });
    assert_eq!(fails(&[0xB7, 0, 9], 0, 0), JvmError::UnresolvableIndex { index: 9 });
    assert_eq!(fails(&[0xB8, 0, 7], 0, 0), JvmError::UnresolvableIndex { index: 7 });
    assert_eq!(fails(&[0xBB, 0, 7], 0, 0), JvmError::UnresolvableIndex { index: 7 });
    assert_eq!(fails(&[0xBB, 0, 8], 0, 0), JvmError::UnresolvableIndex { index: 8 });
    assert_eq!(fails(&[0xBB, 0, 0], 0, 0), JvmError::UnresolvableIndex { index: 0 });
    assert_eq!(fails(&[0xBB, 1, 6], 0, 0), JvmError::UnresolvableIndex { index: 262 });
    assert_eq!(fails(&[0xB6, 0xFF, 0xFF], 0, 0), JvmError::UnresolvableIndex { index: 0xFFFF });
}

#[test]
fn single_steps_report_position_and_flow() {
    let constants = pool();
    let code = [0x10, 7, 0x3B, 0xA7, 0xFF, 0xFD, 0x1A, 0xAC, 0xB1];
    let mut frame = JvmFrame::new(1, 1);
    assert_eq!(step(&code, 0, &mut frame, &constants), Ok((2, Flow::Continue)));
    assert_eq!(frame.peek(), Ok(JvmValue::Int(7)));
    assert_eq!(step(&code, 2, &mut frame, &constants), Ok((3, Flow::Continue)));
    assert_eq!(frame.get_local(0), Ok(JvmValue::Int(7)));
    assert_eq!(step(&code, 3, &mut frame, &constants), Ok((0, Flow::Continue)));
    assert_eq!(step(&code, 6, &mut frame, &constants), Ok((7, Flow::Continue)));
    assert_eq!(
        step(&code, 7, &mut frame, &constants),
        Ok((8, Flow::ReturnValue(JvmValue::Int(7))))
    );
    assert_eq!(step(&code, 8, &mut frame, &constants), Ok((9, Flow::Return)));
    assert_eq!(step(&code, 9, &mut frame, &constants), Err(JvmError::TruncatedOperand));
    assert_eq!(step(&code, usize::MAX, &mut frame, &constants), Err(JvmError::TruncatedOperand));
    assert_eq!(step(&code, 1, &mut frame, &constants), Ok((2, Flow::Continue)));
}

#[test]
fn stack_never_exceeds_its_bound_while_a_program_runs() {
    let constants = pool();
    let code = [
        0x03, 0x3B, 0x1A, 0x10, 10, 0xA2, 0, 9, 0x84, 0, 1, 0xA7, 0xFF, 0xF7, 0x1A, 0xAC,
    ];
    let mut frame = JvmFrame::new(2, 1);
    let mut pc = 0;
    let mut steps = 0;
    loop {
        let (next, flow) = step(&code, pc, &mut frame, &constants).unwrap();
        assert!(frame.stack_depth() <= 2);
        assert_eq!(frame.max_locals(), 1);
        assert!(next <= code.len());
        pc = next;
        steps += 1;
        if flow != Flow::Continue {
            assert_eq!(flow, Flow::ReturnValue(JvmValue::Int(10)));
            break;
        }
    }
    assert_eq!(steps, 57);
}

#[test]
fn references_are_loaded_from_every_slot() {
    let mut frame = JvmFrame::new(4, 4);
    for slot in 0..4 {
        frame.set_local(slot, JvmValue::Reference(10 + slot as usize)).unwrap();
    }
    let mut end = run_from(&[0x2A, 0x2B, 0x2C, 0x2D, 0xB1], 0, frame, &pool(), 10).unwrap();
    assert_eq!(end.exit, Exit::Return);
    assert_eq!(
        stack_of(&mut end),
        vec![
            JvmValue::Reference(10),
            JvmValue::Reference(11),
            JvmValue::Reference(12),
            JvmValue::Reference(13)
        ]
    );
}

#[test]
fn integer_load_refuses_a_reference() {
    let mut frame = JvmFrame::new(1, 1);
    frame.set_local(0, JvmValue::Reference(1)).unwrap();
    assert_eq!(run_from(&[0x1A], 0, frame, &pool(), 10).unwrap_err(), JvmError::TypeMismatch);
    let mut frame = JvmFrame::new(1, 1);
    frame.set_local(0, JvmValue::Long(1)).unwrap();
    assert_eq!(run_from(&[0x84, 0, 1], 0, frame, &pool(), 10).unwrap_err(), JvmError::TypeMismatch);
}

#[test]
fn run_resumes_in_the_middle_of_the_code() {
    let mut frame = JvmFrame::new(2, 1);
    frame.push(JvmValue::Int(20)).unwrap();
    let end = run_from(&[0xFF, 0x10, 22, 0x60, 0xAC], 1, frame, &pool(), 10).unwrap();
    assert_eq!(end.exit, Exit::ReturnValue(JvmValue::Int(42)));
    assert_eq!(end.steps, 3);
    assert_eq!(end.pc, 5);
    let end = run_from(&[0x00], 5, JvmFrame::new(0, 0), &pool(), 0).unwrap();
    assert_eq!(end.exit, Exit::EndOfCode);
    assert_eq!(end.pc, 5);
    assert_eq!(end.steps, 0);
}

#[test]
fn classes_method_types_and_method_handles_are_loaded_as_references() {
    let mut end = exec(&[0x12, 6, 0x12, 17, 0x12, 16], 3, 0).unwrap();
    assert_eq!(
        stack_of(&mut end),
        vec![JvmValue::Reference(6), JvmValue::Reference(17), JvmValue::Reference(16)]
    );
}
