//! Laws of the machine: what holds of every state and every instruction.
//!
//! Each law is a proof function over the model that the contracts of the
//! executable functions speak of, so it holds of every run of those
//! functions.

use vstd::prelude::*;
use crate::const_table::load_constant;
use crate::errors::Fault;
use crate::opcode::{u24_of, OpCode};
use crate::operators::{binary_result, BinaryOp, UnaryOp};
use crate::stack::read_slot;
use crate::types::{Datum, Mutability, Value};
use crate::vm::{Halt, Machine};

verus! {

/// Whether `op` is one of the logical and comparison operators: `Or`,
/// `And`, and the six that order their operands.
pub open spec fn yields_boolean(op: BinaryOp) -> bool {
    op is Or || op is And || op is Equal || op is NotEqual || op is Less || op is Greater
        || op is LessEq || op is GreaterEq
}

/// The operator that a comparison or logical instruction applies, with its
/// destination and operand registers; `None` for every other instruction.
pub open spec fn boolean_instruction(op: OpCode) -> Option<(BinaryOp, u8, u8, u8)> {
    match op {
        OpCode::Or(a, b, c) => Some((BinaryOp::Or, a, b, c)),
        OpCode::And(a, b, c) => Some((BinaryOp::And, a, b, c)),
        OpCode::EQ(a, b, c) => Some((BinaryOp::Equal, a, b, c)),
        OpCode::NE(a, b, c) => Some((BinaryOp::NotEqual, a, b, c)),
        OpCode::LT(a, b, c) => Some((BinaryOp::Less, a, b, c)),
        OpCode::GT(a, b, c) => Some((BinaryOp::Greater, a, b, c)),
        OpCode::LE(a, b, c) => Some((BinaryOp::LessEq, a, b, c)),
        OpCode::GE(a, b, c) => Some((BinaryOp::GreaterEq, a, b, c)),
        _ => None,
    }
}

/// A logical or comparison operator yields a boolean on every pair of
/// operands that hold something, and a type fault on every other pair.
pub proof fn lemma_boolean_operators(op: BinaryOp, x: Datum, y: Datum)
    requires
        yields_boolean(op),
    ensures
        x != Datum::Uninit && y != Datum::Uninit ==> binary_result(op, x, y) is Ok,
        x == Datum::Uninit || y == Datum::Uninit ==> binary_result(op, x, y) == Err::<
            Datum,
            Fault,
        >(Fault::TypeError),
        binary_result(op, x, y) matches Ok(datum) ==> datum is Bool,
{
}

/// After `And`, `Or`, `EQ`, `NE`, `LT`, `GT`, `LE` or `GE` the destination
/// register holds a boolean, freshly owned. The instruction succeeds
/// whenever its three registers exist, both operands hold something, and the
/// program counter can go one on.
pub proof fn lemma_comparison_stores_boolean(m: Machine, op: OpCode)
    requires
        boolean_instruction(op) is Some,
    ensures
        ({
            let (_, dst, lhs, rhs) = boolean_instruction(op)->Some_0;
            &&& m.execute(op) matches Ok(next) ==> {
                &&& next.registers.len() == m.registers.len()
                &&& next.registers[dst as int].datum is Bool
                &&& next.registers[dst as int].tag == Mutability::Owned
            }
            &&& {
                &&& (dst as int) < m.registers.len()
                &&& read_slot(m.registers, lhs) matches Ok(x) && x.datum != Datum::Uninit
                &&& read_slot(m.registers, rhs) matches Ok(y) && y.datum != Datum::Uninit
                &&& m.pc + 1 <= usize::MAX
            } ==> m.execute(op) is Ok
        }),
{
    let (kind, dst, lhs, rhs) = boolean_instruction(op)->Some_0;
    assert(m.execute(op) == m.binary(kind, dst, lhs, rhs));
    if read_slot(m.registers, lhs) is Ok && read_slot(m.registers, rhs) is Ok {
        let x = read_slot(m.registers, lhs)->Ok_0;
        let y = read_slot(m.registers, rhs)->Ok_0;
        lemma_boolean_operators(kind, x.datum, y.datum);
    }
}

/// A forward jump followed by the backward jump of the same offset leaves
/// the machine exactly as it was, wherever the forward jump can be made.
pub proof fn lemma_jump_there_and_back(m: Machine, a: u8, b: u8, c: u8)
    requires
        m.pc + u24_of(a, b, c) <= usize::MAX,
    ensures
        m.execute(OpCode::JmpPost(a, b, c)) matches Ok(there) && {
            &&& there.pc == m.pc + u24_of(a, b, c)
            &&& there.registers == m.registers
            &&& there.execute(OpCode::JmpPrev(a, b, c)) == Ok::<Machine, Fault>(m)
        },
{
}

/// Division and modulo of a number by zero end in an arithmetic fault, as
/// operators and as instructions; the instruction leaves no machine behind
/// but the one before it.
pub proof fn lemma_division_by_zero(m: Machine, n: i64, dst: u8, lhs: u8, rhs: u8)
    ensures
        binary_result(BinaryOp::Div, Datum::Int(n), Datum::Int(0)) == Err::<Datum, Fault>(
            Fault::ArithmeticError,
        ),
        binary_result(BinaryOp::Mod, Datum::Int(n), Datum::Int(0)) == Err::<Datum, Fault>(
            Fault::ArithmeticError,
        ),
        ({
            &&& read_slot(m.registers, lhs) matches Ok(x) && x.datum == Datum::Int(n)
            &&& read_slot(m.registers, rhs) matches Ok(y) && y.datum == Datum::Int(0)
        }) ==> {
            &&& m.execute(OpCode::Div(dst, lhs, rhs)) == Err::<Machine, Fault>(
                Fault::ArithmeticError,
            )
            &&& m.execute(OpCode::Mod(dst, lhs, rhs)) == Err::<Machine, Fault>(
                Fault::ArithmeticError,
            )
        },
{
}

/// Two loads of one constant as an alias, into any two registers, leave
/// there two values that are equal to each other and to the constant; they
/// differ from the constant in nothing but, at most, the tag, which is
/// `Aliased`. The table is the same after as before.
pub proof fn lemma_constant_loads_agree(m: Machine, first: u8, second: u8, address: u16)
    requires
        m.execute(OpCode::LoadAsConstRef(first, address)) matches Ok(once) && (once.execute(
            OpCode::LoadAsConstRef(second, address),
        ) is Ok),
    ensures
        ({
            let once = m.execute(OpCode::LoadAsConstRef(first, address))->Ok_0;
            let twice = once.execute(OpCode::LoadAsConstRef(second, address))->Ok_0;
            let constant = m.constants[address as int];
            &&& (address as int) < m.constants.len()
            &&& twice.constants == m.constants
            &&& once.registers[first as int] == twice.registers[second as int]
            &&& once.registers[first as int].same(constant)
            &&& twice.registers[second as int].same(constant)
            &&& once.registers[first as int] == constant.retagged(false)
            &&& once.registers[first as int].tag == Mutability::Aliased
        }),
{
}

/// An instruction that names a register which the register file does not
/// have ends in an index fault, and a load from an address which the table
/// does not have ends in an address fault, whatever else the instruction
/// names.
pub proof fn lemma_out_of_range(m: Machine, reg: u8, other: u8, address: u16, as_mutable: bool)
    ensures
        (reg as int) >= m.registers.len() ==> {
            &&& read_slot(m.registers, reg) == Err::<Value, Fault>(Fault::IndexFault)
            &&& m.unary(UnaryOp::Pos, other, reg) == Err::<Machine, Fault>(
                Fault::IndexFault,
            )
            &&& m.binary(BinaryOp::Or, other, reg, other) == Err::<Machine, Fault>(
                Fault::IndexFault,
            )
            &&& (address as int) < m.constants.len() ==> m.load(reg, address, as_mutable)
                == Err::<Machine, Fault>(Fault::IndexFault)
        },
        (address as int) >= m.constants.len() ==> {
            &&& load_constant(m.constants, address, as_mutable) == Err::<Value, Fault>(
                Fault::AddressFault,
            )
            &&& m.load(reg, address, as_mutable) == Err::<Machine, Fault>(Fault::AddressFault)
        },
{
}

/// A reserved instruction ends in the fault `NotImplemented`, from every
/// state.
pub proof fn lemma_reserved(m: Machine, a: u8, b: u8, c: u8, address: u16)
    ensures
        m.execute(OpCode::Call(a)) == Err::<Machine, Fault>(Fault::NotImplemented),
        m.execute(OpCode::CallConst0(address)) == Err::<Machine, Fault>(Fault::NotImplemented),
        m.execute(OpCode::Ret) == Err::<Machine, Fault>(Fault::NotImplemented),
        m.execute(OpCode::RefAssign(a, b)) == Err::<Machine, Fault>(Fault::NotImplemented),
        m.execute(OpCode::RefEQ(a, b, c)) == Err::<Machine, Fault>(Fault::NotImplemented),
        m.execute(OpCode::RefNE(a, b, c)) == Err::<Machine, Fault>(Fault::NotImplemented),
{
}

/// Whether `outcome`, if it is a machine, has the program, the constants
/// and the number of registers of `m`, and a program counter that a machine
/// can hold.
pub open spec fn keeps_program(m: Machine, outcome: Result<Machine, Fault>) -> bool {
    outcome matches Ok(next) ==> {
        &&& next.code == m.code
        &&& next.constants == m.constants
        &&& next.registers.len() == m.registers.len()
        &&& next.pc <= usize::MAX
    }
}

/// Each of the effects that an instruction can have keeps the program.
proof fn lemma_effects_keep_program(m: Machine)
    ensures
        forall|op: BinaryOp, dst: u8, lhs: u8, rhs: u8|
            keeps_program(m, #[trigger] m.binary(op, dst, lhs, rhs)),
        forall|op: UnaryOp, dst: u8, src: u8| keeps_program(m, #[trigger] m.unary(op, dst, src)),
        forall|dst: u8, address: u16, as_mutable: bool|
            keeps_program(m, #[trigger] m.load(dst, address, as_mutable)),
        forall|pc: int| keeps_program(m, #[trigger] m.goto(pc)),
{
}

/// An instruction changes neither the program nor the constants nor the
/// number of registers, and leaves a program counter that a machine can
/// hold.
pub proof fn lemma_execute_keeps_program(m: Machine, op: OpCode)
    ensures
        keeps_program(m, m.execute(op)),
{
    lemma_effects_keep_program(m);
    assert(op is Or
            || op is And
            || op is BitOr
            || op is BitXor
            || op is BitAnd
            || op is NE
            || op is EQ
            || op is RefEQ
            || op is RefNE
            || op is LT
            || op is GT
            || op is LE
            || op is GE
            || op is LMov
            || op is RMov
            || op is Add
            || op is Sub
            || op is Mul
            || op is Div
            || op is Mod
            || op is Fact
            || op is BitNot
            || op is Not
            || op is Neg
            || op is Pos
            || op is RefAssign
            || op is ValAssign
            || op is JmpPrev
            || op is JmpPost
            || op is Chk
            || op is Call
            || op is CallConst0
            || op is Ret
            || op is LoadAsMutRef
            || op is LoadAsConstRef);
}

/// A run changes neither the program nor the constants nor the number of
/// registers.
pub proof fn lemma_run_keeps_program(m: Machine, steps: nat)
    ensures
        m.run(steps).0.code == m.code,
        m.run(steps).0.constants == m.constants,
        m.run(steps).0.registers.len() == m.registers.len(),
    decreases steps,
{
    if !m.halted() && steps > 0 {
        let op = m.code[m.pc as int];
        lemma_execute_keeps_program(m, op);
        if m.execute(op) is Ok {
            lemma_run_keeps_program(m.execute(op)->Ok_0, (steps - 1) as nat);
        }
    }
}

/// A run that is given more steps than it needs ends as it does with
/// fewer: once a run has finished or faulted, a larger budget changes
/// nothing.
pub proof fn lemma_run_budget(m: Machine, steps: nat, more: nat)
    requires
        steps <= more,
        m.run(steps).1 != Ok::<Halt, Fault>(Halt::OutOfSteps),
    ensures
        m.run(more) == m.run(steps),
    decreases steps,
{
    if !m.halted() && steps > 0 {
        let op = m.code[m.pc as int];
        if m.execute(op) is Ok {
            lemma_run_budget(m.execute(op)->Ok_0, (steps - 1) as nat, (more - 1) as nat);
        }
    }
}

} // verus!
