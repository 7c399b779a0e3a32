//! The register file: a bank of slots whose number never changes.

use vstd::prelude::*;
use crate::errors::Fault;
use crate::types::{RegType, Value};

verus! {

/// The number of slots of a register file made by `Default`: one for every
/// index that an instruction can name.
pub const DEFAULT_CAPACITY: usize = 256;

/// A register file in which no slot was written yet.
pub open spec fn blank(capacity: nat) -> Seq<Value> {
    Seq::new(capacity, |i: int| Value::uninit_spec())
}

/// What reading slot `reg` of the registers `regs` gives.
pub open spec fn read_slot(regs: Seq<Value>, reg: u8) -> Result<Value, Fault> {
    if (reg as int) < regs.len() {
        Ok(regs[reg as int])
    } else {
        Err(Fault::IndexFault)
    }
}

/// The registers after `value` was written to slot `reg` of `regs`.
pub open spec fn write_slot(regs: Seq<Value>, reg: u8, value: Value) -> Result<Seq<Value>, Fault> {
    if (reg as int) < regs.len() {
        Ok(regs.update(reg as int, value))
    } else {
        Err(Fault::IndexFault)
    }
}

/// Reading a slot gives back what was last written to it, and a write
/// touches no other slot and keeps the number of slots. A write fails
/// exactly where a read does.
pub proof fn lemma_write_then_read(regs: Seq<Value>, reg: u8, other: u8, value: Value)
    ensures
        write_slot(regs, reg, value) is Ok <==> read_slot(regs, reg) is Ok,
        write_slot(regs, reg, value) matches Ok(after) ==> {
            &&& read_slot(after, reg) == Ok::<Value, Fault>(value)
            &&& after.len() == regs.len()
            &&& other != reg ==> read_slot(after, other) == read_slot(regs, other)
        },
{
}

/// The bank of register slots. The model is the sequence of the values in
/// the slots, in the order of their indices.
#[derive(Debug)]
pub struct VmStack {
    registers: Vec<RegType>,
}

impl View for VmStack {
    type V = Seq<Value>;

    closed spec fn view(&self) -> Seq<Value> {
        self.registers@
    }
}

impl VmStack {
    /// A register file of `capacity` slots, none of them written.
    pub fn with_capacity(capacity: usize) -> (r: VmStack)
        ensures
            r@ == blank(capacity as nat),
    {
        let mut registers: Vec<RegType> = Vec::new();
        let mut made: usize = 0;
        while made < capacity
            invariant
                made <= capacity,
                registers@ == blank(made as nat),
            decreases capacity - made,
        {
            registers.push(Value::uninit());
            made = made + 1;
        }
        VmStack { registers }
    }

    /// The number of slots.
    pub fn capacity(&self) -> (r: usize)
        ensures
            r == self@.len(),
    {
        self.registers.len()
    }

    /// The value in slot `reg`.
    pub fn register(&self, reg: u8) -> (r: Result<&RegType, Fault>)
        ensures
            match r {
                Ok(value) => read_slot(self@, reg) == Ok::<Value, Fault>(*value),
                Err(fault) => read_slot(self@, reg) == Err::<Value, Fault>(fault),
            },
    {
        let index: usize = reg as usize;
        if index < self.registers.len() {
            Ok(&self.registers[index])
        } else {
            Err(Fault::IndexFault)
        }
    }

    /// Slot `reg`, to be written. Whatever the caller leaves in the slot is
    /// what the register file then holds there; nothing else changes.
    pub fn register_mut(&mut self, reg: u8) -> (r: Result<&mut RegType, Fault>)
        ensures
            match r {
                Ok(slot) => {
                    &&& read_slot(old(self)@, reg) == Ok::<Value, Fault>(*slot)
                    &&& write_slot(old(self)@, reg, *final(slot)) == Ok::<Seq<Value>, Fault>(
                        final(self)@,
                    )
                },
                Err(fault) => {
                    &&& read_slot(old(self)@, reg) == Err::<Value, Fault>(fault)
                    &&& final(self)@ == old(self)@
                },
            },
    {
        let index: usize = reg as usize;
        if index < self.registers.len() {
            Ok(&mut self.registers[index])
        } else {
            Err(Fault::IndexFault)
        }
    }
}

impl Default for VmStack {
    /// A register file of [`DEFAULT_CAPACITY`] slots, none of them written.
    fn default() -> (r: VmStack)
        ensures
            r@ == blank(DEFAULT_CAPACITY as nat),
    {
        VmStack::with_capacity(DEFAULT_CAPACITY)
    }
}

} // verus!
