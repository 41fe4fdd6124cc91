use stack_vm::composite_stack::StackValue;
use stack_vm::op::{decode_instruction, decode_program, OpCode, Operation};
use stack_vm::result::{error_code, value_tag, ByteArrayPtr, VMResultTag};
use stack_vm::stack::StackError;
use stack_vm::vm::{RunOutcome, VirtualMachine, VM};

fn record(kind: u8, val: u32) -> Operation {
    Operation { kind, val }
}

#[test]
fn test_decode_every_recognized_tag() {
    let cases = vec![
        (0x00u8, 0u32, OpCode::HALT),
        (0x01, 7, OpCode::PUSHINT(7)),
        (0x02, 3.5f32.to_bits(), OpCode::PUSHFLOAT(3.5f32.to_bits())),
        (0x03, 0x41, OpCode::PUSHBYTE(0x41)),
        (0x04, 2, OpCode::PACK(2)),
        (0x05, 0, OpCode::POP),
        (0x06, 0, OpCode::ADD),
        (0x07, 0, OpCode::SUB),
        (0x08, 0, OpCode::MUL),
        (0x09, 0, OpCode::DIV),
        (0x0A, 0, OpCode::EQ),
        (0x0B, 0, OpCode::GT),
        (0x0C, 0, OpCode::GTE),
        (0x0D, 0, OpCode::LT),
        (0x0E, 0, OpCode::LTE),
        (0x0F, 0, OpCode::CONCAT),
    ];
    for (kind, val, expected) in cases {
        assert_eq!(decode_instruction(record(kind, val)), Some(expected));
    }
}

#[test]
fn test_decode_unrecognized_tag() {
    assert_eq!(decode_instruction(record(0x10, 0)), None);
    assert_eq!(decode_instruction(record(0xFF, 7)), None);
}

#[test]
fn test_decode_payload_reinterpretation() {
    // An integer operand is the payload word reinterpreted as signed; a
    // byte operand sits in the word's least-significant byte.
    assert_eq!(decode_instruction(record(0x01, 0xFFFF_FFFF)), Some(OpCode::PUSHINT(-1)));
    assert_eq!(decode_instruction(record(0x03, 0x1234)), Some(OpCode::PUSHBYTE(0x34)));
}

#[test]
fn test_decode_program_in_order() {
    let records = vec![record(0x01, 3), record(0x01, 4), record(0x06, 0), record(0x00, 0)];
    let ops = decode_program(&records).unwrap();
    assert_eq!(
        ops,
        vec![OpCode::PUSHINT(3), OpCode::PUSHINT(4), OpCode::ADD, OpCode::HALT]
    );
}

#[test]
fn test_decode_program_rejects_bad_tag() {
    let records = vec![record(0x01, 3), record(0x42, 0), record(0x00, 0)];
    assert_eq!(decode_program(&records), None);
}

#[test]
fn test_decode_program_empty() {
    let records: Vec<Operation> = vec![];
    assert_eq!(decode_program(&records), Some(vec![]));
}

#[test]
fn test_decode_then_run() {
    let records = vec![record(0x01, 3), record(0x01, 4), record(0x06, 0), record(0x00, 0)];
    let ops = decode_program(&records).unwrap();
    let mut vm = VM::new(16, ops);
    assert_eq!(vm.execute(), RunOutcome::Done(StackValue::Integer(7)));
}

#[test]
fn test_error_codes_are_small_and_disjoint() {
    assert_eq!(error_code(&StackError::StackUnderFlow), 0);
    assert_eq!(error_code(&StackError::StackOverFlow), 1);
    assert_eq!(error_code(&StackError::StackInvalidType), 2);
    assert_eq!(error_code(&StackError::DivisionByZero), 3);
}

#[test]
fn test_value_tags_match_variants() {
    assert_eq!(value_tag(&StackValue::Integer(1)), VMResultTag::Integer);
    assert_eq!(value_tag(&StackValue::Float(0)), VMResultTag::Float);
    assert_eq!(value_tag(&StackValue::Byte(9)), VMResultTag::Byte);
    assert_eq!(value_tag(&StackValue::ByteArray(vec![1])), VMResultTag::ByteArray);
    assert_eq!(value_tag(&StackValue::Bool(false)), VMResultTag::Bool);
}

#[test]
fn test_byte_array_ptr_carries_triple() {
    let triple = ByteArrayPtr { ptr: 0x1000, len: 2, capacity: 2 };
    let copy = triple;
    assert_eq!(copy, ByteArrayPtr { ptr: 0x1000, len: 2, capacity: 2 });
    assert_eq!(copy.len, 2);
    assert_eq!(copy.capacity, 2);
}
