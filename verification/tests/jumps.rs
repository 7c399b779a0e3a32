use vm::errors::Fault;
use vm::opcode::{split_u24, OpCode, JUMP_LIMIT};
use vm::types::Value;
use vm::vm::{Halt, VM};

#[test]
fn offset_is_read_most_significant_byte_first() {
    assert_eq!(OpCode::JmpPost(0, 0, 2).get_u24(), 2);
    assert_eq!(OpCode::JmpPost(0, 1, 0).get_u24(), 256);
    assert_eq!(OpCode::JmpPost(1, 0, 0).get_u24(), 65536);
    assert_eq!(OpCode::JmpPrev(1, 2, 3).get_u24(), 0x010203);
    assert_eq!(OpCode::JmpPrev(255, 255, 255).get_u24(), 0xFF_FFFF);
    assert_eq!(OpCode::JmpPost(0, 0, 0).get_u24(), 0);
    assert_eq!(OpCode::Add(1, 2, 3).get_u24(), 0);
    assert_eq!(OpCode::Ret.get_u24(), 0);
}

#[test]
fn offsets_are_encoded_and_decoded() {
    assert_eq!(JUMP_LIMIT, 1 << 24);
    assert_eq!(split_u24(0x010203), Some((1, 2, 3)));
    assert_eq!(split_u24(0), Some((0, 0, 0)));
    assert_eq!(split_u24(JUMP_LIMIT - 1), Some((255, 255, 255)));
    assert_eq!(split_u24(JUMP_LIMIT), None);
    assert_eq!(split_u24(u32::MAX), None);
    assert_eq!(OpCode::jmp_post(2), Some(OpCode::JmpPost(0, 0, 2)));
    assert_eq!(OpCode::jmp_prev(0x010203), Some(OpCode::JmpPrev(1, 2, 3)));
    assert_eq!(OpCode::jmp_post(JUMP_LIMIT), None);
    assert_eq!(OpCode::jmp_prev(JUMP_LIMIT), None);
    for offset in [0u32, 1, 255, 256, 65535, 65536, 0xABCDEF, JUMP_LIMIT - 1] {
        assert_eq!(OpCode::jmp_post(offset).unwrap().get_u24(), offset);
        assert_eq!(OpCode::jmp_prev(offset).unwrap().get_u24(), offset);
    }
}

#[test]
fn forward_then_backward_restores_the_program_counter() {
    for start in [0usize, 1, 5] {
        for offset in [0u32, 1, 2, 300, 70000, JUMP_LIMIT - 1] {
            let mut vm = VM::new(vec![], vec![]);
            for _ in 0..start {
                assert_eq!(vm.execute_code(OpCode::Chk(0)), Ok(()));
            }
            assert_eq!(vm.pc(), start);
            assert_eq!(vm.execute_code(OpCode::jmp_post(offset).unwrap()), Ok(()));
            assert_eq!(vm.pc(), start + offset as usize);
            assert_eq!(vm.execute_code(OpCode::jmp_prev(offset).unwrap()), Ok(()));
            assert_eq!(vm.pc(), start);
        }
    }
}

#[test]
fn backward_jump_before_the_start_is_a_fault() {
    let mut vm = VM::new(vec![OpCode::Chk(0), OpCode::JmpPrev(0, 0, 2)], vec![]);
    assert_eq!(vm.run(10), Err(Fault::ArithmeticError));
    assert_eq!(vm.pc(), 1);
    let mut at_start = VM::new(vec![OpCode::JmpPrev(0, 0, 1)], vec![]);
    assert_eq!(at_start.step(), Err(Fault::ArithmeticError));
    assert_eq!(at_start.pc(), 0);
}

#[test]
fn backward_jump_by_nothing_stays() {
    let mut vm = VM::new(vec![OpCode::JmpPrev(0, 0, 0)], vec![]);
    assert_eq!(vm.run(5), Ok(Halt::OutOfSteps));
    assert_eq!(vm.pc(), 0);
}

#[test]
fn forward_jump_past_the_end_halts() {
    let mut vm = VM::new(
        vec![OpCode::JmpPost(0, 1, 0), OpCode::LoadAsConstRef(0, 0)],
        vec![Value::number(1)],
    );
    assert_eq!(vm.run(10), Ok(Halt::Finished));
    assert_eq!(vm.pc(), 256);
    assert!(vm.is_halted());
    assert!(vm.register(0).unwrap().is_uninit());
    assert_eq!(vm.step(), Ok(false));
    assert_eq!(vm.pc(), 256);
}

#[test]
fn a_loop_that_counts_down() {
    // r0 = 3, r1 = 1, r2 = 0; repeat r0 = r0 - r1 until r0 == r2.
    let code = vec![
        OpCode::LoadAsMutRef(0, 0),
        OpCode::LoadAsConstRef(1, 1),
        OpCode::LoadAsConstRef(2, 2),
        OpCode::Sub(0, 0, 1),
        OpCode::NE(3, 0, 2),
        OpCode::Add(4, 3, 3),
        OpCode::JmpPrev(0, 0, 2),
    ];
    let mut vm = VM::new(code, vec![Value::number(3), Value::number(1), Value::number(0)]);
    // Add of two booleans is a type fault: the run stops there, at once.
    assert_eq!(vm.run(1000), Err(Fault::TypeError));
    assert_eq!(vm.pc(), 5);
    assert_eq!(vm.register(0).unwrap().as_int(), Some(2));
    assert_eq!(vm.register(3).unwrap().as_bool(), Some(true));
    assert!(vm.register(4).unwrap().is_uninit());
}

#[test]
fn run_in_pieces_is_run_in_one() {
    let code = vec![
        OpCode::LoadAsConstRef(0, 0),
        OpCode::LoadAsConstRef(1, 1),
        OpCode::Mul(2, 0, 1),
        OpCode::Fact(3, 0, 1),
        OpCode::Mod(4, 2, 0),
    ];
    let constants = vec![Value::number(6), Value::number(2)];
    let mut whole = VM::new(code.clone(), constants.clone());
    assert_eq!(whole.run(100), Ok(Halt::Finished));
    let mut pieces = VM::new(code, constants);
    assert_eq!(pieces.run(2), Ok(Halt::OutOfSteps));
    assert_eq!(pieces.pc(), 2);
    assert_eq!(pieces.run(2), Ok(Halt::OutOfSteps));
    assert_eq!(pieces.run(1), Ok(Halt::Finished));
    for reg in 0..5u8 {
        assert_eq!(whole.register(reg).unwrap(), pieces.register(reg).unwrap());
    }
    assert_eq!(whole.register(2).unwrap().as_int(), Some(12));
    assert_eq!(whole.register(3).unwrap().as_int(), Some(30));
    assert_eq!(whole.register(4).unwrap().as_int(), Some(0));
    assert_eq!(whole.pc(), 5);
}
