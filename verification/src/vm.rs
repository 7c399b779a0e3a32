//! The dispatch loop: the machine that executes instructions.

use vstd::prelude::*;
use crate::const_table::{load_constant, ConstTable};
use crate::errors::Fault;
use crate::opcode::{u24_of, OpCode};
use crate::operators::{
    binary_result, op_and, op_bit_and, op_bit_not, op_bit_or, op_bit_xor, op_div, op_eq, op_fact,
    op_ge, op_gt, op_l_mov, op_le, op_lt, op_mod, op_mul, op_ne, op_neg, op_not, op_or, op_pos,
    op_r_mov, op_sub, op_add, unary_result, BinaryOp, UnaryOp,
};
use crate::stack::{blank, read_slot, write_slot, VmStack, DEFAULT_CAPACITY};
use crate::types::{Mutability, RegType, Value};

verus! {

/// The mathematical model of a machine: what its registers hold, where its
/// program counter stands, and the program and constants it was built with.
pub struct Machine {
    pub registers: Seq<Value>,
    pub pc: nat,
    pub code: Seq<OpCode>,
    pub constants: Seq<Value>,
}

/// How a run ended without a fault.
#[derive(Clone, Copy, Debug, PartialEq, Eq, Structural)]
pub enum Halt {
    /// The program counter went past the last instruction.
    Finished,
    /// The budget of steps was used up with the program still running.
    OutOfSteps,
}

impl Machine {
    /// Whether the program counter stands past the last instruction.
    pub open spec fn halted(self) -> bool {
        self.pc >= self.code.len()
    }

    /// The machine with its program counter at `pc`, where a program
    /// counter can hold `pc`; an arithmetic fault where it cannot.
    pub open spec fn goto(self, pc: int) -> Result<Machine, Fault> {
        if 0 <= pc <= usize::MAX {
            Ok(Machine { pc: pc as nat, ..self })
        } else {
            Err(Fault::ArithmeticError)
        }
    }

    /// The machine after `value` was stored into register `dst` and the
    /// program counter went on by one.
    pub open spec fn store(self, dst: u8, value: Value) -> Result<Machine, Fault> {
        match write_slot(self.registers, dst, value) {
            Ok(registers) => (Machine { registers, ..self }).goto(self.pc as int + 1),
            Err(fault) => Err(fault),
        }
    }

    /// The machine after the operator `op` was applied to the registers
    /// `lhs` and `rhs` and the result stored into `dst`.
    ///
    /// The operands are read first, the second after the first; then the
    /// result is computed; then the destination is written; the program
    /// counter moves last. The first of these that fails gives the fault.
    pub open spec fn binary(self, op: BinaryOp, dst: u8, lhs: u8, rhs: u8) -> Result<
        Machine,
        Fault,
    > {
        match read_slot(self.registers, lhs) {
            Ok(x) => match read_slot(self.registers, rhs) {
                Ok(y) => match binary_result(op, x.datum, y.datum) {
                    Ok(datum) => self.store(dst, Value { datum, tag: Mutability::Owned }),
                    Err(fault) => Err(fault),
                },
                Err(fault) => Err(fault),
            },
            Err(fault) => Err(fault),
        }
    }

    /// The machine after the operator `op` was applied to the register
    /// `src` and the result stored into `dst`.
    pub open spec fn unary(self, op: UnaryOp, dst: u8, src: u8) -> Result<Machine, Fault> {
        match read_slot(self.registers, src) {
            Ok(x) => match unary_result(op, x.datum) {
                Ok(datum) => self.store(dst, Value { datum, tag: Mutability::Owned }),
                Err(fault) => Err(fault),
            },
            Err(fault) => Err(fault),
        }
    }

    /// The machine after a copy of the constant at `address` was stored into
    /// `dst`, under the tag that `as_mutable` asks for.
    pub open spec fn load(self, dst: u8, address: u16, as_mutable: bool) -> Result<
        Machine,
        Fault,
    > {
        match load_constant(self.constants, address, as_mutable) {
            Ok(value) => self.store(dst, value),
            Err(fault) => Err(fault),
        }
    }

    /// The machine after it executed `op`, or the fault that `op` ends in.
    ///
    /// | instruction | effect | program counter |
    /// |---|---|---|
    /// | two-operand operator `(a, b, c)` | `reg[a] = operator(reg[b], reg[c])` | one on |
    /// | one-operand operator `(a, b)` | `reg[a] = operator(reg[b])` | one on |
    /// | `LoadAsMutRef`, `LoadAsConstRef` `(a, addr)` | `reg[a] =` constant at `addr` | one on |
    /// | `JmpPost` | none | forward by the offset |
    /// | `JmpPrev` | none | back by the offset |
    /// | `Chk`, `ValAssign` | none | one on |
    /// | `Call`, `CallConst0`, `Ret`, `RefAssign`, `RefEQ`, `RefNE` | fault `NotImplemented` | |
    pub open spec fn execute(self, op: OpCode) -> Result<Machine, Fault> {
        match op {
            OpCode::Or(a, b, c) => self.binary(BinaryOp::Or, a, b, c),
            OpCode::And(a, b, c) => self.binary(BinaryOp::And, a, b, c),
            OpCode::BitOr(a, b, c) => self.binary(BinaryOp::BitOr, a, b, c),
            OpCode::BitXor(a, b, c) => self.binary(BinaryOp::BitXor, a, b, c),
            OpCode::BitAnd(a, b, c) => self.binary(BinaryOp::BitAnd, a, b, c),
            OpCode::NE(a, b, c) => self.binary(BinaryOp::NotEqual, a, b, c),
            OpCode::EQ(a, b, c) => self.binary(BinaryOp::Equal, a, b, c),
            OpCode::RefEQ(_, _, _) => Err(Fault::NotImplemented),
            OpCode::RefNE(_, _, _) => Err(Fault::NotImplemented),
            OpCode::LT(a, b, c) => self.binary(BinaryOp::Less, a, b, c),
            OpCode::GT(a, b, c) => self.binary(BinaryOp::Greater, a, b, c),
            OpCode::LE(a, b, c) => self.binary(BinaryOp::LessEq, a, b, c),
            OpCode::GE(a, b, c) => self.binary(BinaryOp::GreaterEq, a, b, c),
            OpCode::LMov(a, b, c) => self.binary(BinaryOp::LMov, a, b, c),
            OpCode::RMov(a, b, c) => self.binary(BinaryOp::RMov, a, b, c),
            OpCode::Add(a, b, c) => self.binary(BinaryOp::Add, a, b, c),
            OpCode::Sub(a, b, c) => self.binary(BinaryOp::Sub, a, b, c),
            OpCode::Mul(a, b, c) => self.binary(BinaryOp::Mul, a, b, c),
            OpCode::Div(a, b, c) => self.binary(BinaryOp::Div, a, b, c),
            OpCode::Mod(a, b, c) => self.binary(BinaryOp::Mod, a, b, c),
            OpCode::Fact(a, b, c) => self.binary(BinaryOp::Fact, a, b, c),
            OpCode::BitNot(a, b) => self.unary(UnaryOp::BitNot, a, b),
            OpCode::Not(a, b) => self.unary(UnaryOp::Not, a, b),
            OpCode::Neg(a, b) => self.unary(UnaryOp::Neg, a, b),
            OpCode::Pos(a, b) => self.unary(UnaryOp::Pos, a, b),
            OpCode::RefAssign(_, _) => Err(Fault::NotImplemented),
            OpCode::ValAssign(_, _) => self.goto(self.pc as int + 1),
            OpCode::JmpPrev(a, b, c) => self.goto(self.pc as int - u24_of(a, b, c)),
            OpCode::JmpPost(a, b, c) => self.goto(self.pc as int + u24_of(a, b, c)),
            OpCode::Chk(_) => self.goto(self.pc as int + 1),
            OpCode::Call(_) => Err(Fault::NotImplemented),
            OpCode::CallConst0(_) => Err(Fault::NotImplemented),
            OpCode::Ret => Err(Fault::NotImplemented),
            OpCode::LoadAsMutRef(a, address) => self.load(a, address, true),
            OpCode::LoadAsConstRef(a, address) => self.load(a, address, false),
        }
    }

    /// Where the machine stands after a run of at most `steps` instructions,
    /// and how the run ended. A run ends when the machine is halted, when an
    /// instruction faults (the machine is then as it was before that
    /// instruction), or when `steps` instructions were executed.
    pub open spec fn run(self, steps: nat) -> (Machine, Result<Halt, Fault>)
        decreases steps,
    {
        if self.halted() {
            (self, Ok(Halt::Finished))
        } else if steps == 0 {
            (self, Ok(Halt::OutOfSteps))
        } else {
            match self.execute(self.code[self.pc as int]) {
                Ok(next) => next.run((steps - 1) as nat),
                Err(fault) => (self, Err(fault)),
            }
        }
    }
}

/// The virtual machine: a register file, a program counter, the program and
/// its constants. The program and the constants never change.
#[derive(Debug)]
pub struct VM {
    stack: VmStack,
    pc: usize,
    op_codes: Vec<OpCode>,
    const_table: ConstTable,
}

impl View for VM {
    type V = Machine;

    closed spec fn view(&self) -> Machine {
        Machine {
            registers: self.stack@,
            pc: self.pc as nat,
            code: self.op_codes@,
            constants: self.const_table@,
        }
    }
}

impl VM {
    /// A machine at the start of the program `op_codes`, with a register
    /// file of [`DEFAULT_CAPACITY`] unwritten slots.
    pub fn new(op_codes: Vec<OpCode>, const_table: Vec<Value>) -> (r: VM)
        ensures
            r@ == (Machine {
                registers: blank(DEFAULT_CAPACITY as nat),
                pc: 0,
                code: op_codes@,
                constants: const_table@,
            }),
    {
        VM {
            stack: Default::default(),
            pc: 0,
            op_codes,
            const_table: ConstTable::new(const_table),
        }
    }

    /// A machine at the start of the program `op_codes`, with a register
    /// file of `capacity` unwritten slots.
    pub fn with_capacity(op_codes: Vec<OpCode>, const_table: Vec<Value>, capacity: usize) -> (r:
        VM)
        ensures
            r@ == (Machine {
                registers: blank(capacity as nat),
                pc: 0,
                code: op_codes@,
                constants: const_table@,
            }),
    {
        VM {
            stack: VmStack::with_capacity(capacity),
            pc: 0,
            op_codes,
            const_table: ConstTable::new(const_table),
        }
    }

    /// The index of the instruction that is executed next.
    pub fn pc(&self) -> (r: usize)
        ensures
            r == self@.pc,
    {
        self.pc
    }

    /// The register file, to be looked at.
    pub fn stack(&self) -> (r: &VmStack)
        ensures
            r@ == self@.registers,
    {
        &self.stack
    }

    /// The number of register slots.
    pub fn capacity(&self) -> (r: usize)
        ensures
            r == self@.registers.len(),
    {
        self.stack.capacity()
    }

    /// Whether the program counter stands past the last instruction.
    pub fn is_halted(&self) -> (r: bool)
        ensures
            r == self@.halted(),
    {
        self.pc >= self.op_codes.len()
    }

    /// The value in register `reg`; an index fault where the register file
    /// has no such slot.
    pub fn register(&self, reg: u8) -> (r: Result<&RegType, Fault>)
        ensures
            match r {
                Ok(value) => read_slot(self@.registers, reg) == Ok::<Value, Fault>(*value),
                Err(fault) => read_slot(self@.registers, reg) == Err::<Value, Fault>(fault),
            },
            (reg as int) >= self@.registers.len() ==> r == Err::<&RegType, Fault>(
                Fault::IndexFault,
            ),
    {
        self.stack.register(reg)
    }

    /// Register `reg`, to be written; an index fault where the register
    /// file has no such slot. Whatever the caller leaves in the slot is what
    /// the register then holds; nothing else about the machine changes.
    pub fn register_mut(&mut self, reg: u8) -> (r: Result<&mut RegType, Fault>)
        ensures
            match r {
                Ok(slot) => {
                    &&& read_slot(old(self)@.registers, reg) == Ok::<Value, Fault>(*slot)
                    &&& write_slot(old(self)@.registers, reg, *final(slot)) == Ok::<
                        Seq<Value>,
                        Fault,
                    >(final(self)@.registers)
                    &&& final(self)@ == (Machine {
                        registers: final(self)@.registers,
                        ..old(self)@
                    })
                },
                Err(fault) => {
                    &&& read_slot(old(self)@.registers, reg) == Err::<Value, Fault>(fault)
                    &&& final(self)@ == old(self)@
                },
            },
            (reg as int) >= old(self)@.registers.len() ==> r is Err && r->Err_0
                == Fault::IndexFault,
    {
        self.stack.register_mut(reg)
    }
    /// Stores `value` into register `dst` and moves on to the next
    /// instruction. On a fault nothing is changed.
    fn store(&mut self, dst: u8, value: RegType) -> (r: Result<(), Fault>)
        ensures
            match old(self)@.store(dst, value) {
                Ok(next) => r is Ok && final(self)@ == next,
                Err(fault) => r == Err::<(), Fault>(fault) && final(self)@ == old(self)@,
            },
    {
        if dst as usize >= self.stack.capacity() {
            return Err(Fault::IndexFault);
        }
        let next = match self.pc.checked_add(1) {
            Some(next) => next,
            None => {
                return Err(Fault::ArithmeticError);
            },
        };
        match self.stack.register_mut(dst) {
            Ok(slot) => {
                *slot = value;
            },
            Err(fault) => {
                return Err(fault);
            },
        }
        self.pc = next;
        Ok(())
    }

    /// Moves the program counter to `target`, where there is one.
    fn jump(&mut self, target: Option<usize>) -> (r: Result<(), Fault>)
        ensures
            match target {
                Some(pc) => r is Ok && final(self)@ == (Machine { pc: pc as nat, ..old(self)@ }),
                None => r == Err::<(), Fault>(Fault::ArithmeticError) && final(self)@ == old(
                    self,
                )@,
            },
    {
        match target {
            Some(pc) => {
                self.pc = pc;
                Ok(())
            },
            None => Err(Fault::ArithmeticError),
        }
    }

    /// Executes the instruction `op`: reads its operands, computes, writes
    /// the destination register and moves the program counter, as
    /// [`Machine::execute`] says. On a fault the machine is left as it was.
    pub fn execute_code(&mut self, op: OpCode) -> (r: Result<(), Fault>)
        ensures
            match old(self)@.execute(op) {
                Ok(next) => r is Ok && final(self)@ == next,
                Err(fault) => r == Err::<(), Fault>(fault) && final(self)@ == old(self)@,
            },
    {
        // The prover goes through the variants one by one only once it is
        // told that there are no others.
        assert(op is Or
            || op is And
            || op is BitOr
            || op is BitXor
            || op is BitAnd
            || op is NE
            || op is EQ
            || op is RefEQ
            || op is RefNE
            || op is LT
            || op is GT
            || op is LE
            || op is GE
            || op is LMov
            || op is RMov
            || op is Add
            || op is Sub
            || op is Mul
            || op is Div
            || op is Mod
            || op is Fact
            || op is BitNot
            || op is Not
            || op is Neg
            || op is Pos
            || op is RefAssign
            || op is ValAssign
            || op is JmpPrev
            || op is JmpPost
            || op is Chk
            || op is Call
            || op is CallConst0
            || op is Ret
            || op is LoadAsMutRef
            || op is LoadAsConstRef);
        match op {
            OpCode::Or(a, b, c) => {
                let value = op_or(self.register(b)?, self.register(c)?)?.load_variable(true);
                self.store(a, value)
            },
            OpCode::And(a, b, c) => {
                let value = op_and(self.register(b)?, self.register(c)?)?.load_variable(true);
                self.store(a, value)
            },
            OpCode::BitOr(a, b, c) => {
                let value = op_bit_or(self.register(b)?, self.register(c)?)?.load_variable(true);
                self.store(a, value)
            },
            OpCode::BitXor(a, b, c) => {
                let value = op_bit_xor(self.register(b)?, self.register(c)?)?.load_variable(true);
                self.store(a, value)
            },
            OpCode::BitAnd(a, b, c) => {
                let value = op_bit_and(self.register(b)?, self.register(c)?)?.load_variable(true);
                self.store(a, value)
            },
            OpCode::NE(a, b, c) => {
                let value = op_ne(self.register(b)?, self.register(c)?)?.load_variable(true);
                self.store(a, value)
            },
            OpCode::EQ(a, b, c) => {
                let value = op_eq(self.register(b)?, self.register(c)?)?.load_variable(true);
                self.store(a, value)
            },
            OpCode::RefEQ(_, _, _) => Err(Fault::NotImplemented),
            OpCode::RefNE(_, _, _) => Err(Fault::NotImplemented),
            OpCode::LT(a, b, c) => {
                let value = op_lt(self.register(b)?, self.register(c)?)?.load_variable(true);
                self.store(a, value)
            },
            OpCode::GT(a, b, c) => {
                let value = op_gt(self.register(b)?, self.register(c)?)?.load_variable(true);
                self.store(a, value)
            },
            OpCode::LE(a, b, c) => {
                let value = op_le(self.register(b)?, self.register(c)?)?.load_variable(true);
                self.store(a, value)
            },
            OpCode::GE(a, b, c) => {
                let value = op_ge(self.register(b)?, self.register(c)?)?.load_variable(true);
                self.store(a, value)
            },
            OpCode::LMov(a, b, c) => {
                let value = op_l_mov(self.register(b)?, self.register(c)?)?.load_variable(true);
                self.store(a, value)
            },
            OpCode::RMov(a, b, c) => {
                let value = op_r_mov(self.register(b)?, self.register(c)?)?.load_variable(true);
                self.store(a, value)
            },
            OpCode::Add(a, b, c) => {
                let value = op_add(self.register(b)?, self.register(c)?)?.load_variable(true);
                self.store(a, value)
            },
            OpCode::Sub(a, b, c) => {
                let value = op_sub(self.register(b)?, self.register(c)?)?.load_variable(true);
                self.store(a, value)
            },
            OpCode::Mul(a, b, c) => {
                let value = op_mul(self.register(b)?, self.register(c)?)?.load_variable(true);
                self.store(a, value)
            },
            OpCode::Div(a, b, c) => {
                let value = op_div(self.register(b)?, self.register(c)?)?.load_variable(true);
                self.store(a, value)
            },
            OpCode::Mod(a, b, c) => {
                let value = op_mod(self.register(b)?, self.register(c)?)?.load_variable(true);
                self.store(a, value)
            },
            OpCode::Fact(a, b, c) => {
                let value = op_fact(self.register(b)?, self.register(c)?)?.load_variable(true);
                self.store(a, value)
            },
            OpCode::BitNot(a, b) => {
                let value = op_bit_not(self.register(b)?)?.load_variable(true);
                self.store(a, value)
            },
            OpCode::Not(a, b) => {
                let value = op_not(self.register(b)?)?.load_variable(true);
                self.store(a, value)
            },
            OpCode::Neg(a, b) => {
                let value = op_neg(self.register(b)?)?.load_variable(true);
                self.store(a, value)
            },
            OpCode::Pos(a, b) => {
                let value = op_pos(self.register(b)?)?.load_variable(true);
                self.store(a, value)
            },
            OpCode::RefAssign(_, _) => Err(Fault::NotImplemented),
            OpCode::ValAssign(_, _) => {
                let target = self.pc.checked_add(1);
                self.jump(target)
            },
            OpCode::JmpPrev(a, b, c) => {
                let pos = OpCode::JmpPrev(a, b, c).get_u24();
                let target = self.pc.checked_sub(pos as usize);
                self.jump(target)
            },
            OpCode::JmpPost(a, b, c) => {
                let pos = OpCode::JmpPost(a, b, c).get_u24();
                let target = self.pc.checked_add(pos as usize);
                self.jump(target)
            },
            OpCode::Chk(_) => {
                let target = self.pc.checked_add(1);
                self.jump(target)
            },
            OpCode::Call(_) => Err(Fault::NotImplemented),
            OpCode::CallConst0(_) => Err(Fault::NotImplemented),
            OpCode::Ret => Err(Fault::NotImplemented),
            OpCode::LoadAsMutRef(a, addr) => {
                let value = self.const_table.load_variable(addr, true)?;
                self.store(a, value)
            },
            OpCode::LoadAsConstRef(a, addr) => {
                let value = self.const_table.load_variable(addr, false)?;
                self.store(a, value)
            },
        }
    }

    /// Executes the instruction at the program counter, if there is one.
    /// The result says whether an instruction was executed: `false` means
    /// that the machine is halted, and it is then left as it was.
    pub fn step(&mut self) -> (r: Result<bool, Fault>)
        ensures
            old(self)@.halted() ==> r == Ok::<bool, Fault>(false) && final(self)@ == old(self)@,
            !old(self)@.halted() ==> match old(self)@.execute(
                old(self)@.code[old(self)@.pc as int],
            ) {
                Ok(next) => r == Ok::<bool, Fault>(true) && final(self)@ == next,
                Err(fault) => r == Err::<bool, Fault>(fault) && final(self)@ == old(self)@,
            },
    {
        if self.pc >= self.op_codes.len() {
            return Ok(false);
        }
        let op = self.op_codes[self.pc];
        match self.execute_code(op) {
            Ok(()) => Ok(true),
            Err(fault) => Err(fault),
        }
    }

    /// Runs the program from the program counter on: executes instruction
    /// after instruction until the program counter is past the end, an
    /// instruction faults, or `max_steps` instructions were executed. A fault
    /// stops the run at once and is handed to the caller; the machine is
    /// then as it was before the instruction that faulted.
    pub fn run(&mut self, max_steps: usize) -> (r: Result<Halt, Fault>)
        ensures
            old(self)@.run(max_steps as nat) == (final(self)@, r),
    {
        let mut done: usize = 0;
        while done < max_steps
            invariant
                done <= max_steps,
                old(self)@.run(max_steps as nat) == self@.run((max_steps - done) as nat),
            decreases max_steps - done,
        {
            match self.step() {
                Ok(true) => {
                    done = done + 1;
                },
                Ok(false) => {
                    return Ok(Halt::Finished);
                },
                Err(fault) => {
                    return Err(fault);
                },
            }
        }
        if self.is_halted() {
            Ok(Halt::Finished)
        } else {
            Ok(Halt::OutOfSteps)
        }
    }
}

} // verus!
