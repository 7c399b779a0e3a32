//! The instruction set.

use vstd::prelude::*;

verus! {

/// One more than the largest offset that a jump can carry.
pub const JUMP_LIMIT: u32 = 0x100_0000;

/// An instruction: an operation and its operands. Registers are named by a
/// byte, constants by a 16-bit address; a jump carries its offset in three
/// bytes, the most significant first.
#[derive(Clone, Copy, Debug, PartialEq, Eq, Structural)]
pub enum OpCode {
    Or(u8, u8, u8),
    And(u8, u8, u8),
    BitOr(u8, u8, u8),
    BitXor(u8, u8, u8),
    BitAnd(u8, u8, u8),
    NE(u8, u8, u8),
    EQ(u8, u8, u8),
    RefEQ(u8, u8, u8),
    RefNE(u8, u8, u8),
    LT(u8, u8, u8),
    GT(u8, u8, u8),
    LE(u8, u8, u8),
    GE(u8, u8, u8),
    LMov(u8, u8, u8),
    RMov(u8, u8, u8),
    Add(u8, u8, u8),
    Sub(u8, u8, u8),
    Mul(u8, u8, u8),
    Div(u8, u8, u8),
    Mod(u8, u8, u8),
    Fact(u8, u8, u8),
    BitNot(u8, u8),
    Not(u8, u8),
    Neg(u8, u8),
    Pos(u8, u8),
    RefAssign(u8, u8),
    ValAssign(u8, u8),
    JmpPrev(u8, u8, u8),
    JmpPost(u8, u8, u8),
    Chk(u8),
    Call(u8),
    CallConst0(u16),
    Ret,
    LoadAsMutRef(u8, u16),
    LoadAsConstRef(u8, u16),
}

/// The number that three operand bytes spell, the first the most
/// significant.
pub open spec fn u24_of(a: u8, b: u8, c: u8) -> nat {
    (a * 0x1_0000 + b * 0x100 + c) as nat
}

impl OpCode {
    /// The 24-bit field of a jump: its offset. Every other instruction has
    /// no such field.
    pub open spec fn jump_offset(self) -> Option<nat> {
        match self {
            OpCode::JmpPost(a, b, c) => Some(u24_of(a, b, c)),
            OpCode::JmpPrev(a, b, c) => Some(u24_of(a, b, c)),
            _ => None,
        }
    }

    /// The offset that a jump carries, read from its three operand bytes;
    /// zero for an instruction that is no jump.
    pub fn get_u24(&self) -> (r: u32)
        ensures
            r < JUMP_LIMIT,
            r as nat == (match self.jump_offset() {
                Some(offset) => offset,
                None => 0nat,
            }),
    {
        match *self {
            OpCode::JmpPost(a, b, c) | OpCode::JmpPrev(a, b, c) => {
                (a as u32) * 0x1_0000 + (b as u32) * 0x100 + (c as u32)
            },
            _ => 0,
        }
    }

    /// The forward jump by `offset`, where three bytes can hold the offset.
    pub fn jmp_post(offset: u32) -> (r: Option<OpCode>)
        ensures
            offset < JUMP_LIMIT <==> r is Some,
            r matches Some(op) ==> op is JmpPost && op.jump_offset() == Some(offset as nat),
    {
        match split_u24(offset) {
            Some((a, b, c)) => Some(OpCode::JmpPost(a, b, c)),
            None => None,
        }
    }

    /// The backward jump by `offset`, where three bytes can hold the offset.
    pub fn jmp_prev(offset: u32) -> (r: Option<OpCode>)
        ensures
            offset < JUMP_LIMIT <==> r is Some,
            r matches Some(op) ==> op is JmpPrev && op.jump_offset() == Some(offset as nat),
    {
        match split_u24(offset) {
            Some((a, b, c)) => Some(OpCode::JmpPrev(a, b, c)),
            None => None,
        }
    }
}

/// Three bytes spell one number only: an offset has one encoding.
pub proof fn lemma_u24_unique(a: u8, b: u8, c: u8, x: u8, y: u8, z: u8)
    requires
        u24_of(a, b, c) == u24_of(x, y, z),
    ensures
        a == x,
        b == y,
        c == z,
        u24_of(a, b, c) < JUMP_LIMIT,
{
}

/// The three bytes that spell `offset`, where three bytes can.
pub fn split_u24(offset: u32) -> (r: Option<(u8, u8, u8)>)
    ensures
        offset < JUMP_LIMIT <==> r is Some,
        r matches Some((a, b, c)) ==> u24_of(a, b, c) == offset,
{
    if offset < JUMP_LIMIT {
        let a: u8 = (offset / 0x1_0000) as u8;
        let b: u8 = ((offset / 0x100) % 0x100) as u8;
        let c: u8 = (offset % 0x100) as u8;
        Some((a, b, c))
    } else {
        None
    }
}

} // verus!
