use vm::errors::Fault;
use vm::opcode::OpCode;
use vm::types::{Datum, Mutability, Value};
use vm::vm::{Halt, VM};

fn load_two(first: Value, second: Value, then: Vec<OpCode>) -> VM {
    let mut code = vec![OpCode::LoadAsConstRef(0, 0), OpCode::LoadAsConstRef(1, 1)];
    code.extend(then);
    VM::new(code, vec![first, second])
}

#[test]
fn add_of_two_constants() {
    let mut vm = load_two(Value::number(5), Value::number(3), vec![OpCode::Add(2, 0, 1)]);
    assert_eq!(vm.run(100), Ok(Halt::Finished));
    assert_eq!(vm.register(2).unwrap().as_int(), Some(8));
    assert_eq!(*vm.register(2).unwrap(), Value::number(8));
    assert_eq!(vm.register(2).unwrap().tag, Mutability::Owned);
    assert_eq!(vm.pc(), 3);
    assert!(vm.is_halted());
}

#[test]
fn sub_is_subtraction_not_a_logical_operator() {
    let mut vm = load_two(Value::number(5), Value::number(3), vec![OpCode::Sub(2, 0, 1)]);
    assert_eq!(vm.run(100), Ok(Halt::Finished));
    assert_eq!(vm.register(2).unwrap().as_int(), Some(2));
}

#[test]
fn ge_is_not_le() {
    let mut vm = load_two(
        Value::number(5),
        Value::number(3),
        vec![OpCode::GE(2, 0, 1), OpCode::LE(3, 0, 1)],
    );
    assert_eq!(vm.run(100), Ok(Halt::Finished));
    assert_eq!(vm.register(2).unwrap().as_bool(), Some(true));
    assert_eq!(vm.register(3).unwrap().as_bool(), Some(false));
}

#[test]
fn division_by_zero_halts_the_run() {
    let mut vm = load_two(Value::number(0), Value::number(0), vec![OpCode::Div(2, 0, 1)]);
    assert_eq!(vm.run(100), Err(Fault::ArithmeticError));
    assert!(vm.register(2).unwrap().is_uninit());
    assert_eq!(vm.register(2).unwrap().datum, Datum::Uninit);
    assert_eq!(vm.pc(), 2);
    assert!(!vm.is_halted());
    assert_eq!(vm.register(0).unwrap().as_int(), Some(0));
    assert_eq!(vm.register(1).unwrap().as_int(), Some(0));
}

#[test]
fn modulo_by_zero_halts_the_run() {
    let mut vm = load_two(Value::number(7), Value::number(0), vec![OpCode::Mod(2, 0, 1)]);
    assert_eq!(vm.run(100), Err(Fault::ArithmeticError));
    assert!(vm.register(2).unwrap().is_uninit());
    assert_eq!(vm.pc(), 2);
}

#[test]
fn a_fault_stops_before_later_instructions() {
    let mut vm = load_two(
        Value::number(1),
        Value::number(0),
        vec![OpCode::Div(2, 0, 1), OpCode::Add(3, 0, 0)],
    );
    assert_eq!(vm.run(100), Err(Fault::ArithmeticError));
    assert!(vm.register(3).unwrap().is_uninit());
    assert_eq!(vm.run(100), Err(Fault::ArithmeticError));
    assert_eq!(vm.pc(), 2);
}

#[test]
fn or_then_not() {
    let mut vm = load_two(
        Value::boolean(true),
        Value::boolean(false),
        vec![OpCode::Or(2, 0, 1), OpCode::Not(3, 2)],
    );
    assert_eq!(vm.run(100), Ok(Halt::Finished));
    assert_eq!(vm.register(2).unwrap().as_bool(), Some(true));
    assert_eq!(vm.register(3).unwrap().as_bool(), Some(false));
    assert_eq!(*vm.register(2).unwrap(), Value::boolean(true));
    assert_eq!(*vm.register(3).unwrap(), Value::boolean(false));
}

#[test]
fn forward_jump_skips_instructions() {
    let code = vec![
        OpCode::JmpPost(0, 0, 3),
        OpCode::LoadAsConstRef(1, 0),
        OpCode::LoadAsConstRef(2, 0),
        OpCode::LoadAsConstRef(3, 0),
    ];
    let mut vm = VM::new(code, vec![Value::number(9)]);
    assert_eq!(vm.step(), Ok(true));
    assert_eq!(vm.pc(), 3);
    assert_eq!(vm.run(100), Ok(Halt::Finished));
    assert_eq!(vm.pc(), 4);
    assert!(vm.register(1).unwrap().is_uninit());
    assert!(vm.register(2).unwrap().is_uninit());
    assert_eq!(vm.register(3).unwrap().as_int(), Some(9));
}

#[test]
fn jump_by_two_lands_two_on() {
    let code = vec![
        OpCode::JmpPost(0, 0, 2),
        OpCode::LoadAsConstRef(1, 0),
        OpCode::LoadAsConstRef(2, 0),
        OpCode::LoadAsConstRef(3, 0),
    ];
    let mut vm = VM::new(code, vec![Value::number(9)]);
    assert_eq!(vm.step(), Ok(true));
    assert_eq!(vm.pc(), 2);
    assert_eq!(vm.run(100), Ok(Halt::Finished));
    assert!(vm.register(1).unwrap().is_uninit());
    assert_eq!(vm.register(2).unwrap().as_int(), Some(9));
    assert_eq!(vm.register(3).unwrap().as_int(), Some(9));
}

#[test]
fn call_is_not_implemented() {
    let code = vec![OpCode::LoadAsConstRef(0, 0), OpCode::Call(0), OpCode::LoadAsConstRef(1, 0)];
    let mut vm = VM::new(code, vec![Value::number(4)]);
    assert_eq!(vm.run(100), Err(Fault::NotImplemented));
    assert_eq!(vm.pc(), 1);
    assert_eq!(vm.register(0).unwrap().as_int(), Some(4));
    assert!(vm.register(1).unwrap().is_uninit());
}

#[test]
fn call_alone_mutates_nothing() {
    let mut vm = VM::with_capacity(vec![OpCode::Call(3)], vec![], 8);
    assert_eq!(vm.run(100), Err(Fault::NotImplemented));
    assert_eq!(vm.pc(), 0);
    for reg in 0..8u8 {
        assert!(vm.register(reg).unwrap().is_uninit());
    }
}

#[test]
fn every_reserved_instruction_faults() {
    let reserved = vec![
        OpCode::Call(0),
        OpCode::CallConst0(0),
        OpCode::Ret,
        OpCode::RefAssign(0, 1),
        OpCode::RefEQ(0, 1, 2),
        OpCode::RefNE(0, 1, 2),
    ];
    for op in reserved {
        let mut vm = VM::new(vec![], vec![Value::number(1)]);
        assert_eq!(vm.execute_code(op), Err(Fault::NotImplemented));
        assert_eq!(vm.pc(), 0);
        assert!(vm.register(0).unwrap().is_uninit());
    }
}

#[test]
fn chk_and_val_assign_only_move_on() {
    let mut vm = load_two(
        Value::number(5),
        Value::number(3),
        vec![OpCode::Chk(0), OpCode::ValAssign(0, 1)],
    );
    assert_eq!(vm.run(100), Ok(Halt::Finished));
    assert_eq!(vm.pc(), 4);
    assert_eq!(vm.register(0).unwrap().as_int(), Some(5));
    assert_eq!(vm.register(1).unwrap().as_int(), Some(3));
}

#[test]
fn backward_jump_loops_until_the_budget_is_spent() {
    let code = vec![OpCode::Chk(0), OpCode::JmpPrev(0, 0, 1)];
    let mut vm = VM::new(code, vec![]);
    assert_eq!(vm.run(7), Ok(Halt::OutOfSteps));
    assert_eq!(vm.pc(), 1);
    assert_eq!(vm.run(1), Ok(Halt::OutOfSteps));
    assert_eq!(vm.pc(), 0);
    assert_eq!(vm.run(0), Ok(Halt::OutOfSteps));
}

#[test]
fn empty_program_is_halted_at_once() {
    let mut vm = VM::new(vec![], vec![]);
    assert!(vm.is_halted());
    assert_eq!(vm.step(), Ok(false));
    assert_eq!(vm.run(0), Ok(Halt::Finished));
    assert_eq!(vm.run(10), Ok(Halt::Finished));
    assert_eq!(vm.pc(), 0);
}

#[test]
fn machines_share_nothing() {
    let mut one = load_two(Value::number(5), Value::number(3), vec![OpCode::Mul(2, 0, 1)]);
    let mut two = load_two(Value::number(7), Value::number(2), vec![OpCode::Mul(2, 0, 1)]);
    assert_eq!(one.run(100), Ok(Halt::Finished));
    assert!(two.register(2).unwrap().is_uninit());
    assert_eq!(two.run(100), Ok(Halt::Finished));
    assert_eq!(one.register(2).unwrap().as_int(), Some(15));
    assert_eq!(two.register(2).unwrap().as_int(), Some(14));
}
