//! The runtime value model.

use vstd::prelude::*;
use vstd::std_specs::cmp::PartialEqSpecImpl;

verus! {

/// What a value holds.
#[derive(Clone, Copy, Debug, PartialEq, Eq, Structural)]
pub enum Datum {
    /// The sentinel found in a register that was never written.
    Uninit,
    /// A truth value.
    Bool(bool),
    /// A signed 64-bit number.
    Int(i64),
}

/// How a register holds its value.
#[derive(Clone, Copy, Debug, PartialEq, Eq, Structural)]
pub enum Mutability {
    /// The register owns a fresh copy, independent of every other location.
    Owned,
    /// The value stands for the identity of another, immutable location.
    Aliased,
}

/// A runtime value: a datum and the tag that says how it is held.
///
/// Values are never changed in place: operators read their operands and
/// build new values.
#[derive(Clone, Copy, Debug)]
pub struct Value {
    pub datum: Datum,
    pub tag: Mutability,
}

/// What a register slot holds.
pub type RegType = Value;

/// The tag that a load with the flag `as_mutable` gives.
pub open spec fn tag_for(as_mutable: bool) -> Mutability {
    if as_mutable {
        Mutability::Owned
    } else {
        Mutability::Aliased
    }
}

/// The truth value that a datum stands for, where it stands for one: a
/// boolean stands for itself, a number for "is not zero"; the sentinel
/// stands for none.
pub open spec fn truthiness(d: Datum) -> Option<bool> {
    match d {
        Datum::Uninit => None,
        Datum::Bool(b) => Some(b),
        Datum::Int(n) => Some(n != 0),
    }
}

impl Value {
    /// The value of a register that was never written.
    pub fn uninit() -> (r: Value)
        ensures
            r == Self::uninit_spec(),
    {
        Value { datum: Datum::Uninit, tag: Mutability::Owned }
    }

    pub open spec fn uninit_spec() -> Value {
        Value { datum: Datum::Uninit, tag: Mutability::Owned }
    }

    /// A freshly owned truth value.
    pub fn boolean(b: bool) -> (r: Value)
        ensures
            r == (Value { datum: Datum::Bool(b), tag: Mutability::Owned }),
    {
        Value { datum: Datum::Bool(b), tag: Mutability::Owned }
    }

    /// A freshly owned number.
    pub fn number(n: i64) -> (r: Value)
        ensures
            r == (Value { datum: Datum::Int(n), tag: Mutability::Owned }),
    {
        Value { datum: Datum::Int(n), tag: Mutability::Owned }
    }

    /// Whether two values are equal: whether they hold the same datum. This
    /// is what `==` computes.
    pub open spec fn same(self, other: Value) -> bool {
        self.datum == other.datum
    }

    /// The same datum under the tag that `as_mutable` asks for.
    pub open spec fn retagged(self, as_mutable: bool) -> Value {
        Value { datum: self.datum, tag: tag_for(as_mutable) }
    }

    /// Copies the value into the form in which a register holds it: the datum
    /// is kept, the tag is `Owned` for `as_mutable` and `Aliased` otherwise.
    pub fn load_variable(self, as_mutable: bool) -> (r: RegType)
        ensures
            r == self.retagged(as_mutable),
    {
        let tag = if as_mutable {
            Mutability::Owned
        } else {
            Mutability::Aliased
        };
        Value { datum: self.datum, tag }
    }

    /// Whether the register that holds this value owns it.
    pub fn is_mutable(&self) -> (r: bool)
        ensures
            r == (self.tag == Mutability::Owned),
    {
        self.tag == Mutability::Owned
    }

    /// Whether the value is the sentinel of an unwritten register.
    pub fn is_uninit(&self) -> (r: bool)
        ensures
            r == (self.datum == Datum::Uninit),
    {
        self.datum == Datum::Uninit
    }

    /// The truth value held, if the value is of boolean kind.
    pub fn as_bool(&self) -> (r: Option<bool>)
        ensures
            r == (match self.datum {
                Datum::Bool(b) => Some(b),
                _ => None,
            }),
    {
        match self.datum {
            Datum::Bool(b) => Some(b),
            _ => None,
        }
    }

    /// The number held, if the value is of numeric kind.
    pub fn as_int(&self) -> (r: Option<i64>)
        ensures
            r == (match self.datum {
                Datum::Int(n) => Some(n),
                _ => None,
            }),
    {
        match self.datum {
            Datum::Int(n) => Some(n),
            _ => None,
        }
    }

    /// The truth value that the value stands for; `None` for the sentinel.
    pub fn truthy(&self) -> (r: Option<bool>)
        ensures
            r == truthiness(self.datum),
    {
        match self.datum {
            Datum::Uninit => None,
            Datum::Bool(b) => Some(b),
            Datum::Int(n) => Some(n != 0),
        }
    }
}

/// Two values are equal when they hold the same datum. The tag says how a
/// register holds a value, not what the value is, and takes no part.
impl PartialEq for Value {
    fn eq(&self, other: &Value) -> (r: bool) {
        self.datum == other.datum
    }
}

impl PartialEqSpecImpl for Value {
    open spec fn obeys_eq_spec() -> bool {
        true
    }

    open spec fn eq_spec(&self, other: &Value) -> bool {
        self.same(*other)
    }
}

} // verus!
