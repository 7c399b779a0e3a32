use vm::const_table::ConstTable;
use vm::errors::Fault;
use vm::opcode::OpCode;
use vm::stack::{VmStack, DEFAULT_CAPACITY};
use vm::types::{Datum, Mutability, Value};
use vm::vm::VM;

#[test]
fn write_then_read_round_trip() {
    let mut stack = VmStack::with_capacity(4);
    for reg in 0..4u8 {
        let value = Value::number(10 + reg as i64);
        *stack.register_mut(reg).unwrap() = value;
        assert_eq!(*stack.register(reg).unwrap(), value);
        assert_eq!(stack.register(reg).unwrap().tag, Mutability::Owned);
    }
    assert_eq!(stack.register(0).unwrap().as_int(), Some(10));
    assert_eq!(stack.register(3).unwrap().as_int(), Some(13));
    assert_eq!(stack.capacity(), 4);
}

#[test]
fn write_then_read_through_the_machine() {
    let mut vm = VM::new(vec![], vec![]);
    *vm.register_mut(255).unwrap() = Value::boolean(true).load_variable(false);
    assert_eq!(vm.register(255).unwrap().as_bool(), Some(true));
    assert_eq!(vm.register(255).unwrap().tag, Mutability::Aliased);
    assert!(vm.register(254).unwrap().is_uninit());
    assert_eq!(vm.pc(), 0);
}

#[test]
fn default_register_file_has_every_slot_unwritten() {
    let stack = VmStack::default();
    assert_eq!(stack.capacity(), 256);
    assert_eq!(DEFAULT_CAPACITY, 256);
    for reg in 0..=255u8 {
        assert_eq!(stack.register(reg).unwrap().datum, Datum::Uninit);
    }
    assert_eq!(VM::new(vec![], vec![]).capacity(), 256);
}

#[test]
fn register_index_beyond_capacity_is_an_index_fault() {
    let mut stack = VmStack::with_capacity(4);
    assert!(stack.register(3).is_ok());
    assert_eq!(stack.register(4).err(), Some(Fault::IndexFault));
    assert_eq!(stack.register(255).err(), Some(Fault::IndexFault));
    assert_eq!(stack.register_mut(4).err(), Some(Fault::IndexFault));
    let mut empty = VmStack::with_capacity(0);
    assert_eq!(empty.register(0).err(), Some(Fault::IndexFault));
    assert_eq!(empty.register_mut(0).err(), Some(Fault::IndexFault));
}

#[test]
fn machine_register_beyond_capacity_is_an_index_fault() {
    let mut vm = VM::with_capacity(vec![], vec![Value::number(1)], 2);
    assert_eq!(vm.capacity(), 2);
    assert_eq!(vm.register(2).err(), Some(Fault::IndexFault));
    assert_eq!(vm.register_mut(2).err(), Some(Fault::IndexFault));
    assert_eq!(vm.execute_code(OpCode::LoadAsConstRef(2, 0)), Err(Fault::IndexFault));
    assert_eq!(vm.execute_code(OpCode::Add(0, 2, 1)), Err(Fault::IndexFault));
    assert_eq!(vm.execute_code(OpCode::Add(0, 1, 2)), Err(Fault::IndexFault));
    assert_eq!(vm.execute_code(OpCode::Not(0, 2)), Err(Fault::IndexFault));
    assert_eq!(vm.pc(), 0);
    assert_eq!(vm.execute_code(OpCode::LoadAsConstRef(0, 0)), Ok(()));
    assert_eq!(vm.execute_code(OpCode::LoadAsConstRef(1, 0)), Ok(()));
    assert_eq!(vm.execute_code(OpCode::Add(2, 0, 1)), Err(Fault::IndexFault));
    assert_eq!(vm.execute_code(OpCode::Pos(2, 0)), Err(Fault::IndexFault));
    assert_eq!(vm.pc(), 2);
    assert_eq!(vm.register(0).unwrap().as_int(), Some(1));
}

#[test]
fn constant_address_beyond_the_table_is_an_address_fault() {
    let table = ConstTable::new(vec![Value::number(1), Value::number(2)]);
    assert_eq!(table.len(), 2);
    assert!(table.load_variable(1, false).is_ok());
    assert_eq!(table.load_variable(2, false), Err(Fault::AddressFault));
    assert_eq!(table.load_variable(2, true), Err(Fault::AddressFault));
    assert_eq!(table.load_variable(u16::MAX, true), Err(Fault::AddressFault));
    assert_eq!(ConstTable::new(vec![]).load_variable(0, false), Err(Fault::AddressFault));
}

#[test]
fn load_from_a_missing_address_changes_nothing() {
    let mut vm = VM::new(vec![OpCode::LoadAsMutRef(0, 1)], vec![Value::number(1)]);
    assert_eq!(vm.step(), Err(Fault::AddressFault));
    assert_eq!(vm.pc(), 0);
    assert!(vm.register(0).unwrap().is_uninit());
    // The address is looked at before the register.
    let mut small = VM::with_capacity(vec![], vec![], 1);
    assert_eq!(small.execute_code(OpCode::LoadAsConstRef(9, 0)), Err(Fault::AddressFault));
}

#[test]
fn loading_a_constant_twice_gives_equal_values() {
    let constant = Value::number(42);
    let table = ConstTable::new(vec![Value::boolean(false), constant]);
    let first = table.load_variable(1, false).unwrap();
    let second = table.load_variable(1, false).unwrap();
    assert_eq!(first, second);
    assert_eq!(first, constant);
    assert_eq!(first.datum, Datum::Int(42));
    assert_eq!(first.tag, Mutability::Aliased);
    assert_eq!(second.tag, Mutability::Aliased);
    assert!(!first.is_mutable());
}

#[test]
fn loading_a_constant_twice_into_registers() {
    let code = vec![OpCode::LoadAsConstRef(0, 0), OpCode::LoadAsConstRef(1, 0)];
    let mut vm = VM::new(code, vec![Value::boolean(true)]);
    assert_eq!(vm.step(), Ok(true));
    assert_eq!(vm.step(), Ok(true));
    assert_eq!(vm.step(), Ok(false));
    let first = *vm.register(0).unwrap();
    let second = *vm.register(1).unwrap();
    assert_eq!(first, second);
    assert_eq!(first, Value::boolean(true));
    assert_eq!(first.tag, Mutability::Aliased);
    assert_eq!(second.tag, Mutability::Aliased);
}

#[test]
fn load_as_mutable_tags_the_copy_owned() {
    let aliased = Value::number(3).load_variable(false);
    let table = ConstTable::new(vec![aliased]);
    let owned = table.load_variable(0, true).unwrap();
    assert_eq!(owned.tag, Mutability::Owned);
    assert!(owned.is_mutable());
    assert_eq!(owned.as_int(), Some(3));
    let mut vm = VM::new(vec![OpCode::LoadAsMutRef(5, 0)], vec![aliased]);
    assert_eq!(vm.step(), Ok(true));
    assert_eq!(vm.register(5).unwrap().tag, Mutability::Owned);
    assert_eq!(vm.register(5).unwrap().as_int(), Some(3));
}

#[test]
fn computed_results_are_owned_whatever_the_operands() {
    let mut vm = VM::new(
        vec![OpCode::LoadAsConstRef(0, 0), OpCode::Pos(1, 0), OpCode::BitOr(2, 0, 0)],
        vec![Value::number(6)],
    );
    assert_eq!(vm.step(), Ok(true));
    assert_eq!(vm.step(), Ok(true));
    assert_eq!(vm.step(), Ok(true));
    assert_eq!(vm.register(0).unwrap().tag, Mutability::Aliased);
    assert_eq!(vm.register(1).unwrap().tag, Mutability::Owned);
    assert_eq!(vm.register(2).unwrap().tag, Mutability::Owned);
    assert_eq!(vm.register(1).unwrap().as_int(), Some(6));
}

#[test]
fn value_accessors() {
    assert_eq!(Value::uninit().datum, Datum::Uninit);
    assert!(Value::uninit().is_uninit());
    assert_eq!(Value::uninit().truthy(), None);
    assert_eq!(Value::uninit().as_int(), None);
    assert_eq!(Value::uninit().as_bool(), None);
    assert_eq!(Value::number(-4).as_int(), Some(-4));
    assert_eq!(Value::number(-4).as_bool(), None);
    assert_eq!(Value::number(-4).truthy(), Some(true));
    assert_eq!(Value::number(0).truthy(), Some(false));
    assert_eq!(Value::boolean(true).as_bool(), Some(true));
    assert_eq!(Value::boolean(true).as_int(), None);
    assert_eq!(Value::boolean(false).truthy(), Some(false));
    assert!(Value::number(1).is_mutable());
    assert!(!Value::number(1).load_variable(false).is_mutable());
    assert!(Value::number(1).load_variable(false).load_variable(true).is_mutable());
}

#[test]
fn equality_of_values_is_by_datum() {
    assert_eq!(Value::number(1), Value::number(1).load_variable(false));
    assert_ne!(Value::number(1), Value::number(2));
    assert_ne!(Value::number(1), Value::boolean(true));
    assert_ne!(Value::number(0), Value::uninit());
    assert_eq!(Value::uninit(), Value::uninit());
}
