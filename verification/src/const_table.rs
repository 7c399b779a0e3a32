//! The constant table: literal values, fixed when the program is loaded.

use vstd::prelude::*;
use crate::errors::Fault;
use crate::types::{Mutability, RegType, Value};

verus! {

/// What loading the constant at `address` of the table `constants` gives:
/// a copy of the constant under the tag that `as_mutable` asks for.
pub open spec fn load_constant(constants: Seq<Value>, address: u16, as_mutable: bool) -> Result<
    Value,
    Fault,
> {
    if (address as int) < constants.len() {
        Ok(constants[address as int].retagged(as_mutable))
    } else {
        Err(Fault::AddressFault)
    }
}

/// A load as an alias gives a value equal to the constant: it differs from
/// the constant in nothing but, at most, the tag, which is `Aliased`. Since
/// a load is a function of the table and the address, two loads of one
/// address give the same value.
pub proof fn lemma_load_repeatable(constants: Seq<Value>, address: u16)
    requires
        (address as int) < constants.len(),
    ensures
        load_constant(constants, address, false) matches Ok(loaded) && {
            &&& loaded.same(constants[address as int])
            &&& loaded == constants[address as int].retagged(false)
            &&& loaded.tag == Mutability::Aliased
        },
{
}

/// The pool of constants. The model is the sequence of the constants, in
/// the order of their addresses. No method changes it.
#[derive(Debug)]
pub struct ConstTable {
    constants: Vec<Value>,
}

impl View for ConstTable {
    type V = Seq<Value>;

    closed spec fn view(&self) -> Seq<Value> {
        self.constants@
    }
}

impl ConstTable {
    /// The table that holds `constants`, in their order.
    pub fn new(constants: Vec<Value>) -> (r: ConstTable)
        ensures
            r@ == constants@,
    {
        ConstTable { constants }
    }

    /// The number of constants.
    pub fn len(&self) -> (r: usize)
        ensures
            r == self@.len(),
    {
        self.constants.len()
    }

    /// A copy of the constant at `address`, tagged `Owned` for `as_mutable`
    /// and `Aliased` otherwise.
    pub fn load_variable(&self, address: u16, as_mutable: bool) -> (r: Result<RegType, Fault>)
        ensures
            r == load_constant(self@, address, as_mutable),
    {
        let index: usize = address as usize;
        if index < self.constants.len() {
            Ok(self.constants[index].load_variable(as_mutable))
        } else {
            Err(Fault::AddressFault)
        }
    }
}

} // verus!
