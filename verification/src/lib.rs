//! Execution core of a register-based bytecode virtual machine.
//!
//! A [`vm::VM`] interprets a stream of fixed-width instructions against a bank
//! of registers and a read-only table of constants. Every public function
//! carries a contract over a mathematical model of the machine, and the
//! contracts are proved.
//!
//! * [`types`]: the runtime value and its tag.
//! * [`errors`]: the faults.
//! * [`operators`]: what each operator computes.
//! * [`stack`]: the register file.
//! * [`const_table`]: the constant table.
//! * [`opcode`]: the instruction set.
//! * [`vm`]: the machine, its model, and the run loop.
//! * [`laws`]: what holds of every state and instruction.

pub mod errors;
pub mod types;
pub mod operators;
pub mod stack;
pub mod const_table;
pub mod opcode;
pub mod vm;
pub mod laws;
