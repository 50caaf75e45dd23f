use mini_jvm::class_loader::raw_data::RawClassData;
use mini_jvm::error::ErrorCategory;
use mini_jvm::error::JvmError;

#[test]
fn reads_one_byte_and_advances() {
    let mut data = RawClassData { cursor: 0, data: vec![0xAB, 0xCD] };
    assert_eq!(data.read_1_byte(), Ok(0xAB));
    assert_eq!(data.cursor, 1);
    assert_eq!(data.read_1_byte(), Ok(0xCD));
    assert_eq!(data.cursor, 2);
}

#[test]
fn reads_two_bytes_big_endian() {
    let mut data = RawClassData::new(vec![0x12, 0x34, 0xFF]);
    assert_eq!(data.read_2_bytes(), Ok(0x1234));
    assert_eq!(data.cursor, 2);
}

#[test]
fn reads_four_bytes_big_endian() {
    let mut data = RawClassData::new(vec![0xCA, 0xFE, 0xBA, 0xBE]);
    assert_eq!(data.read_4_bytes(), Ok(0xCAFEBABE));
    assert_eq!(data.cursor, 4);
}

#[test]
fn reads_eight_bytes_big_endian() {
    let mut data = RawClassData::new(vec![0x01, 0x23, 0x45, 0x67, 0x89, 0xAB, 0xCD, 0xEF]);
    assert_eq!(data.read_8_bytes(), Ok(0x0123_4567_89AB_CDEF));
    assert_eq!(data.cursor, 8);
}

#[test]
fn read_of_the_last_byte_succeeds() {
    let mut data = RawClassData { cursor: 2, data: vec![1, 2, 3] };
    assert_eq!(data.read_1_byte(), Ok(3));
    assert_eq!(data.cursor, 3);
    assert_eq!(data.read_1_byte(), Err(JvmError::BoundedRead));
    assert_eq!(data.cursor, 3);
}

#[test]
fn overrun_fails_and_leaves_the_cursor() {
    let mut data = RawClassData { cursor: 1, data: vec![1, 2, 3] };
    assert_eq!(data.read_4_bytes(), Err(JvmError::BoundedRead));
    assert_eq!(data.cursor, 1);
    assert_eq!(data.read_8_bytes(), Err(JvmError::BoundedRead));
    assert_eq!(data.cursor, 1);
    assert_eq!(data.read_string(3), Err(JvmError::BoundedRead));
    assert_eq!(data.cursor, 1);
    assert_eq!(data.read_bytes(3), Err(JvmError::BoundedRead));
    assert_eq!(data.skip(3), Err(JvmError::BoundedRead));
    assert_eq!(data.cursor, 1);
    assert_eq!(data.read_2_bytes(), Ok(0x0203));
    assert_eq!(data.read_2_bytes(), Err(JvmError::BoundedRead));
    assert_eq!(data.cursor, 3);
}

#[test]
fn cursor_beyond_the_end_fails_every_read() {
    let mut data = RawClassData { cursor: 7, data: vec![1, 2, 3] };
    assert_eq!(data.read_1_byte(), Err(JvmError::BoundedRead));
    assert_eq!(data.skip(0), Err(JvmError::BoundedRead));
    assert_eq!(data.check_boundary(0), Some(JvmError::BoundedRead));
    assert_eq!(data.cursor, 7);
}

#[test]
fn huge_length_does_not_wrap() {
    let mut data = RawClassData { cursor: 2, data: vec![1, 2, 3] };
    assert_eq!(data.read_string(usize::MAX), Err(JvmError::BoundedRead));
    assert_eq!(data.skip(usize::MAX - 1), Err(JvmError::BoundedRead));
    assert_eq!(data.cursor, 2);
}

#[test]
fn check_boundary_accepts_what_fits() {
    let data = RawClassData { cursor: 1, data: vec![1, 2, 3] };
    assert_eq!(data.check_boundary(0), None);
    assert_eq!(data.check_boundary(2), None);
    assert_eq!(data.check_boundary(3), Some(JvmError::BoundedRead));
}

#[test]
fn reads_a_string() {
    let mut data = RawClassData::new(b"xjava/lang/Objecty".to_vec());
    data.skip(1).unwrap();
    assert_eq!(data.read_string(16), Ok("java/lang/Object".to_string()));
    assert_eq!(data.cursor, 17);
    assert_eq!(data.read_string(0), Ok(String::new()));
    assert_eq!(data.cursor, 17);
}

#[test]
fn reads_a_string_of_several_bytes_per_character() {
    let mut data = RawClassData::new(vec![0xC3, 0xA9, 0xE2, 0x82, 0xAC, 0x41]);
    assert_eq!(data.read_string(5), Ok("\u{e9}\u{20ac}".to_string()));
    assert_eq!(data.cursor, 5);
}

#[test]
fn malformed_utf8_fails_and_leaves_the_cursor() {
    let mut data = RawClassData::new(vec![0x41, 0xFF, 0x42]);
    assert_eq!(data.read_string(3), Err(JvmError::InvalidUtf8));
    assert_eq!(data.cursor, 0);
    let mut cut = RawClassData::new(vec![0xE2, 0x82, 0xAC]);
    assert_eq!(cut.read_string(2), Err(JvmError::InvalidUtf8));
    assert_eq!(cut.cursor, 0);
}

#[test]
fn reads_bytes_verbatim() {
    let mut data = RawClassData::new(vec![9, 8, 7, 6]);
    data.skip(1).unwrap();
    assert_eq!(data.read_bytes(2), Ok(vec![8, 7]));
    assert_eq!(data.cursor, 3);
    assert_eq!(data.data, vec![9, 8, 7, 6]);
}

#[test]
fn errors_have_categories_and_messages() {
    assert_eq!(JvmError::BoundedRead.category(), ErrorCategory::BoundedRead);
    assert_eq!(JvmError::InvalidMagic.category(), ErrorCategory::Format);
    assert_eq!(JvmError::InvalidUtf8.category(), ErrorCategory::Format);
    assert_eq!(JvmError::UnknownConstantTag { tag: 2 }.category(), ErrorCategory::Format);
    assert_eq!(JvmError::MissingSecondSlot.category(), ErrorCategory::Format);
    assert_eq!(JvmError::UnresolvableIndex { index: 3 }.category(), ErrorCategory::Resolution);
    assert_eq!(JvmError::UnknownOpcode { code: 1 }.category(), ErrorCategory::Decode);
    assert_eq!(JvmError::TruncatedOperand.category(), ErrorCategory::Decode);
    assert_eq!(JvmError::StackOverflow.category(), ErrorCategory::Execution);
    assert_eq!(JvmError::StackUnderflow.category(), ErrorCategory::Execution);
    assert_eq!(JvmError::LocalOutOfRange.category(), ErrorCategory::Execution);
    assert_eq!(JvmError::TypeMismatch.category(), ErrorCategory::Execution);
    assert_eq!(JvmError::BranchOutOfRange.category(), ErrorCategory::Execution);
    assert_eq!(JvmError::StepLimit.category(), ErrorCategory::Execution);
    assert_eq!(JvmError::MissingCode.category(), ErrorCategory::Execution);
    assert_eq!(JvmError::NoMainMethod.category(), ErrorCategory::Launch);
    assert_eq!(JvmError::InvalidArguments.category(), ErrorCategory::Launch);
    assert_eq!(JvmError::InvalidMagic.message(), "invalid magic");
    assert_eq!(JvmError::BoundedRead.message(), "can't read beyond the buffer boundary");
}

#[test]
fn four_byte_characters_are_decoded() {
    let mut data = RawClassData::new(vec![0xF0, 0x9F, 0x98, 0x80]);
    assert_eq!(data.read_string(4), Ok("\u{1F600}".to_string()));
    assert_eq!(data.cursor, 4);
}

#[test]
fn surrogates_overlong_forms_and_large_values_are_refused() {
    for bytes in [
        vec![0xED, 0xA0, 0x80],
        vec![0xC0, 0x80],
        vec![0xE0, 0x80, 0x80],
        vec![0xF4, 0x90, 0x80, 0x80],
        vec![0x80],
        vec![0xC3],
    ] {
        let length = bytes.len();
        let mut data = RawClassData::new(bytes);
        assert_eq!(data.read_string(length), Err(JvmError::InvalidUtf8));
        assert_eq!(data.cursor, 0);
    }
}

#[test]
fn every_error_has_its_message() {
    let messages = [
        (JvmError::BoundedRead, "can't read beyond the buffer boundary"),
        (JvmError::InvalidMagic, "invalid magic"),
        (JvmError::InvalidUtf8, "can't parse UTF-8 string"),
        (JvmError::UnknownConstantTag { tag: 2 }, "unrecognised constant pool tag"),
        (JvmError::MissingSecondSlot, "two-slot constant in the last pool slot"),
        (JvmError::UnresolvableIndex { index: 3 }, "unresolvable constant pool index"),
        (JvmError::UnknownOpcode { code: 1 }, "unrecognised opcode"),
        (JvmError::TruncatedOperand, "truncated operand"),
        (JvmError::StackOverflow, "operand stack overflow"),
        (JvmError::StackUnderflow, "operand stack underflow"),
        (JvmError::LocalOutOfRange, "local slot out of range"),
        (JvmError::TypeMismatch, "value of the wrong type"),
        (JvmError::BranchOutOfRange, "branch target out of range"),
        (JvmError::StepLimit, "instruction budget used up"),
        (JvmError::MissingCode, "method has no code"),
        (JvmError::NoMainMethod, "no main method"),
        (JvmError::InvalidArguments, "can't parse command line arguments"),
    ];
    for (error, message) in messages {
        assert_eq!(error.message(), message);
    }
}
