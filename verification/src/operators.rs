//! The operator library: what each operator computes, and when it faults.
//!
//! Every operator is described twice. A spec function over [`Datum`] says
//! what the operator yields; an executable function over values computes it
//! and is proved to agree. The tag of an operand plays no part, and every
//! computed value is freshly owned.

use vstd::prelude::*;
use crate::errors::Fault;
use crate::types::{truthiness, Datum, Mutability, RegType, Value};

verus! {

/// The operators that take two operands.
pub enum BinaryOp {
    Or,
    And,
    BitOr,
    BitXor,
    BitAnd,
    NotEqual,
    Equal,
    Less,
    Greater,
    LessEq,
    GreaterEq,
    LMov,
    RMov,
    Add,
    Sub,
    Mul,
    Div,
    Mod,
    Fact,
}

/// The operators that take one operand.
pub enum UnaryOp {
    BitNot,
    Not,
    Neg,
    Pos,
}

/// Whether a mathematical integer can be held in a number datum.
pub open spec fn fits(n: int) -> bool {
    i64::MIN <= n <= i64::MAX
}

/// A computed datum as the value an operator hands back: freshly owned.
pub open spec fn fresh(r: Result<Datum, Fault>) -> Result<Value, Fault> {
    match r {
        Ok(d) => Ok(Value { datum: d, tag: Mutability::Owned }),
        Err(f) => Err(f),
    }
}

/// The number datum for `n` where it can be held, an arithmetic fault where
/// it cannot.
pub open spec fn number_or_overflow(n: int) -> Result<Datum, Fault> {
    if fits(n) {
        Ok(Datum::Int(n as i64))
    } else {
        Err(Fault::ArithmeticError)
    }
}

/// The two integers by which a pair of data is ordered. Two numbers are
/// ordered as numbers. In every other pair each datum is reduced to its
/// truthiness, false before true. A pair with the sentinel has no order.
pub open spec fn ranks(x: Datum, y: Datum) -> Option<(int, int)> {
    match (x, y) {
        (Datum::Int(a), Datum::Int(b)) => Some((a as int, b as int)),
        _ => match (truthiness(x), truthiness(y)) {
            (Some(p), Some(q)) => Some((if p { 1int } else { 0int }, if q { 1int } else { 0int })),
            _ => None,
        },
    }
}

/// The distance of `x` from zero.
pub open spec fn magnitude(x: int) -> int {
    if x >= 0 {
        x
    } else {
        -x
    }
}

/// `x / d` rounded toward zero, for `d != 0`.
pub open spec fn trunc_div(x: int, d: int) -> int {
    if (x >= 0) == (d > 0) {
        magnitude(x) / magnitude(d)
    } else {
        -(magnitude(x) / magnitude(d))
    }
}

/// What is left of `x` after [`trunc_div`] by `d`, for `d != 0`: it has the
/// sign of `x`.
pub open spec fn trunc_rem(x: int, d: int) -> int {
    if x >= 0 {
        x % magnitude(d)
    } else {
        -((-x) % magnitude(d))
    }
}

/// The product of the `k` integers `n, n - 1, ..., n - k + 1`.
pub open spec fn falling_factorial(n: int, k: nat) -> int
    decreases k,
{
    if k == 0 {
        1
    } else {
        falling_factorial(n, (k - 1) as nat) * (n - k + 1)
    }
}

/// What a two-operand operator yields on the data `x` and `y`.
///
/// * `Or`, `And`: the operands are reduced to their truthiness; the result
///   is a boolean. Both operands are always looked at.
/// * `Equal` ... `GreaterEq`: the operands are ordered by [`ranks`]; the
///   result is a boolean.
/// * `BitOr`, `BitXor`, `BitAnd`: bit by bit on two numbers, or the same
///   connective on two booleans.
/// * `Add`, `Sub`, `Mul`: on two numbers; an arithmetic fault where the
///   result cannot be held.
/// * `Div`, `Mod`: on two numbers, rounding toward zero; an arithmetic fault
///   for a zero divisor, and for the one quotient that cannot be held.
/// * `Fact`: the falling factorial of two numbers that are not negative; an
///   arithmetic fault for a negative operand or a result that cannot be held.
/// * `LMov`, `RMov`: the first number shifted by the second, which must be
///   in `0..64`, else an arithmetic fault.
///
/// An operand of a kind that the operator does not take is a type fault;
/// the sentinel is of no kind that any operator takes.
pub open spec fn binary_result(op: BinaryOp, x: Datum, y: Datum) -> Result<Datum, Fault> {
    match op {
        BinaryOp::Or => match (truthiness(x), truthiness(y)) {
            (Some(p), Some(q)) => Ok(Datum::Bool(p || q)),
            _ => Err(Fault::TypeError),
        },
        BinaryOp::And => match (truthiness(x), truthiness(y)) {
            (Some(p), Some(q)) => Ok(Datum::Bool(p && q)),
            _ => Err(Fault::TypeError),
        },
        BinaryOp::BitOr => match (x, y) {
            (Datum::Int(a), Datum::Int(b)) => Ok(Datum::Int(a | b)),
            (Datum::Bool(p), Datum::Bool(q)) => Ok(Datum::Bool(p || q)),
            _ => Err(Fault::TypeError),
        },
        BinaryOp::BitXor => match (x, y) {
            (Datum::Int(a), Datum::Int(b)) => Ok(Datum::Int(a ^ b)),
            (Datum::Bool(p), Datum::Bool(q)) => Ok(Datum::Bool(p != q)),
            _ => Err(Fault::TypeError),
        },
        BinaryOp::BitAnd => match (x, y) {
            (Datum::Int(a), Datum::Int(b)) => Ok(Datum::Int(a & b)),
            (Datum::Bool(p), Datum::Bool(q)) => Ok(Datum::Bool(p && q)),
            _ => Err(Fault::TypeError),
        },
        BinaryOp::NotEqual => match ranks(x, y) {
            Some((a, b)) => Ok(Datum::Bool(a != b)),
            None => Err(Fault::TypeError),
        },
        BinaryOp::Equal => match ranks(x, y) {
            Some((a, b)) => Ok(Datum::Bool(a == b)),
            None => Err(Fault::TypeError),
        },
        BinaryOp::Less => match ranks(x, y) {
            Some((a, b)) => Ok(Datum::Bool(a < b)),
            None => Err(Fault::TypeError),
        },
        BinaryOp::Greater => match ranks(x, y) {
            Some((a, b)) => Ok(Datum::Bool(a > b)),
            None => Err(Fault::TypeError),
        },
        BinaryOp::LessEq => match ranks(x, y) {
            Some((a, b)) => Ok(Datum::Bool(a <= b)),
            None => Err(Fault::TypeError),
        },
        BinaryOp::GreaterEq => match ranks(x, y) {
            Some((a, b)) => Ok(Datum::Bool(a >= b)),
            None => Err(Fault::TypeError),
        },
        BinaryOp::LMov => match (x, y) {
            (Datum::Int(a), Datum::Int(s)) => if 0 <= s < 64 {
                Ok(Datum::Int(a << s))
            } else {
                Err(Fault::ArithmeticError)
            },
            _ => Err(Fault::TypeError),
        },
        BinaryOp::RMov => match (x, y) {
            (Datum::Int(a), Datum::Int(s)) => if 0 <= s < 64 {
                Ok(Datum::Int(a >> s))
            } else {
                Err(Fault::ArithmeticError)
            },
            _ => Err(Fault::TypeError),
        },
        BinaryOp::Add => match (x, y) {
            (Datum::Int(a), Datum::Int(b)) => number_or_overflow(a + b),
            _ => Err(Fault::TypeError),
        },
        BinaryOp::Sub => match (x, y) {
            (Datum::Int(a), Datum::Int(b)) => number_or_overflow(a - b),
            _ => Err(Fault::TypeError),
        },
        BinaryOp::Mul => match (x, y) {
            (Datum::Int(a), Datum::Int(b)) => number_or_overflow(a * b),
            _ => Err(Fault::TypeError),
        },
        BinaryOp::Div => match (x, y) {
            (Datum::Int(a), Datum::Int(b)) => if b == 0 {
                Err(Fault::ArithmeticError)
            } else {
                number_or_overflow(trunc_div(a as int, b as int))
            },
            _ => Err(Fault::TypeError),
        },
        BinaryOp::Mod => match (x, y) {
            (Datum::Int(a), Datum::Int(b)) => if b == 0 {
                Err(Fault::ArithmeticError)
            } else {
                number_or_overflow(trunc_rem(a as int, b as int))
            },
            _ => Err(Fault::TypeError),
        },
        BinaryOp::Fact => match (x, y) {
            (Datum::Int(n), Datum::Int(k)) => if n < 0 || k < 0 {
                Err(Fault::ArithmeticError)
            } else {
                number_or_overflow(falling_factorial(n as int, k as nat))
            },
            _ => Err(Fault::TypeError),
        },
    }
}

/// What a one-operand operator yields on the datum `x`.
///
/// * `BitNot`: every bit of a number flipped, or a boolean negated.
/// * `Not`: the negation of the operand's truthiness; the result is a
///   boolean.
/// * `Neg`: the negative of a number; an arithmetic fault for the one number
///   whose negative cannot be held.
/// * `Pos`: the number itself.
pub open spec fn unary_result(op: UnaryOp, x: Datum) -> Result<Datum, Fault> {
    match op {
        UnaryOp::BitNot => match x {
            Datum::Int(a) => Ok(Datum::Int(!a)),
            Datum::Bool(p) => Ok(Datum::Bool(!p)),
            Datum::Uninit => Err(Fault::TypeError),
        },
        UnaryOp::Not => match truthiness(x) {
            Some(p) => Ok(Datum::Bool(!p)),
            None => Err(Fault::TypeError),
        },
        UnaryOp::Neg => match x {
            Datum::Int(a) => number_or_overflow(-a),
            _ => Err(Fault::TypeError),
        },
        UnaryOp::Pos => match x {
            Datum::Int(a) => Ok(Datum::Int(a)),
            _ => Err(Fault::TypeError),
        },
    }
}

/// The truthiness of both operands, where both have one.
fn truth_pair(a: &RegType, b: &RegType) -> (r: Option<(bool, bool)>)
    ensures
        r == (match (truthiness(a.datum), truthiness(b.datum)) {
            (Some(p), Some(q)) => Some((p, q)),
            _ => None::<(bool, bool)>,
        }),
{
    match (a.truthy(), b.truthy()) {
        (Some(p), Some(q)) => Some((p, q)),
        _ => None,
    }
}

/// The integers by which the operands are ordered, where they have an order.
fn rank_pair(a: &RegType, b: &RegType) -> (r: Option<(i64, i64)>)
    ensures
        match ranks(a.datum, b.datum) {
            Some((x, y)) => r == Some((x as i64, y as i64)) && fits(x) && fits(y),
            None => r is None,
        },
{
    match (a.datum, b.datum) {
        (Datum::Int(x), Datum::Int(y)) => Some((x, y)),
        _ => match truth_pair(a, b) {
            Some((p, q)) => {
                let x: i64 = if p { 1 } else { 0 };
                let y: i64 = if q { 1 } else { 0 };
                Some((x, y))
            },
            None => None,
        },
    }
}

/// Logical or of the operands' truthiness.
pub fn op_or(a: &RegType, b: &RegType) -> (r: Result<Value, Fault>)
    ensures
        r == fresh(binary_result(BinaryOp::Or, a.datum, b.datum)),
{
    match truth_pair(a, b) {
        Some((p, q)) => Ok(Value::boolean(p || q)),
        None => Err(Fault::TypeError),
    }
}

/// Logical and of the operands' truthiness.
pub fn op_and(a: &RegType, b: &RegType) -> (r: Result<Value, Fault>)
    ensures
        r == fresh(binary_result(BinaryOp::And, a.datum, b.datum)),
{
    match truth_pair(a, b) {
        Some((p, q)) => Ok(Value::boolean(p && q)),
        None => Err(Fault::TypeError),
    }
}

/// Bitwise or of two numbers; or of two booleans.
pub fn op_bit_or(a: &RegType, b: &RegType) -> (r: Result<Value, Fault>)
    ensures
        r == fresh(binary_result(BinaryOp::BitOr, a.datum, b.datum)),
{
    match (a.datum, b.datum) {
        (Datum::Int(x), Datum::Int(y)) => Ok(Value::number(x | y)),
        (Datum::Bool(p), Datum::Bool(q)) => Ok(Value::boolean(p || q)),
        _ => Err(Fault::TypeError),
    }
}

/// Bitwise exclusive or of two numbers; exclusive or of two booleans.
pub fn op_bit_xor(a: &RegType, b: &RegType) -> (r: Result<Value, Fault>)
    ensures
        r == fresh(binary_result(BinaryOp::BitXor, a.datum, b.datum)),
{
    match (a.datum, b.datum) {
        (Datum::Int(x), Datum::Int(y)) => Ok(Value::number(x ^ y)),
        (Datum::Bool(p), Datum::Bool(q)) => Ok(Value::boolean(p != q)),
        _ => Err(Fault::TypeError),
    }
}

/// Bitwise and of two numbers; and of two booleans.
pub fn op_bit_and(a: &RegType, b: &RegType) -> (r: Result<Value, Fault>)
    ensures
        r == fresh(binary_result(BinaryOp::BitAnd, a.datum, b.datum)),
{
    match (a.datum, b.datum) {
        (Datum::Int(x), Datum::Int(y)) => Ok(Value::number(x & y)),
        (Datum::Bool(p), Datum::Bool(q)) => Ok(Value::boolean(p && q)),
        _ => Err(Fault::TypeError),
    }
}

/// Whether the operands differ in rank.
pub fn op_ne(a: &RegType, b: &RegType) -> (r: Result<Value, Fault>)
    ensures
        r == fresh(binary_result(BinaryOp::NotEqual, a.datum, b.datum)),
{
    match rank_pair(a, b) {
        Some((x, y)) => Ok(Value::boolean(x != y)),
        None => Err(Fault::TypeError),
    }
}

/// Whether the operands agree in rank.
pub fn op_eq(a: &RegType, b: &RegType) -> (r: Result<Value, Fault>)
    ensures
        r == fresh(binary_result(BinaryOp::Equal, a.datum, b.datum)),
{
    match rank_pair(a, b) {
        Some((x, y)) => Ok(Value::boolean(x == y)),
        None => Err(Fault::TypeError),
    }
}

/// Whether the first operand ranks below the second.
pub fn op_lt(a: &RegType, b: &RegType) -> (r: Result<Value, Fault>)
    ensures
        r == fresh(binary_result(BinaryOp::Less, a.datum, b.datum)),
{
    match rank_pair(a, b) {
        Some((x, y)) => Ok(Value::boolean(x < y)),
        None => Err(Fault::TypeError),
    }
}

/// Whether the first operand ranks above the second.
pub fn op_gt(a: &RegType, b: &RegType) -> (r: Result<Value, Fault>)
    ensures
        r == fresh(binary_result(BinaryOp::Greater, a.datum, b.datum)),
{
    match rank_pair(a, b) {
        Some((x, y)) => Ok(Value::boolean(x > y)),
        None => Err(Fault::TypeError),
    }
}

/// Whether the first operand ranks below the second or with it.
pub fn op_le(a: &RegType, b: &RegType) -> (r: Result<Value, Fault>)
    ensures
        r == fresh(binary_result(BinaryOp::LessEq, a.datum, b.datum)),
{
    match rank_pair(a, b) {
        Some((x, y)) => Ok(Value::boolean(x <= y)),
        None => Err(Fault::TypeError),
    }
}

/// Whether the first operand ranks above the second or with it.
pub fn op_ge(a: &RegType, b: &RegType) -> (r: Result<Value, Fault>)
    ensures
        r == fresh(binary_result(BinaryOp::GreaterEq, a.datum, b.datum)),
{
    match rank_pair(a, b) {
        Some((x, y)) => Ok(Value::boolean(x >= y)),
        None => Err(Fault::TypeError),
    }
}

/// The first number shifted left by the second.
pub fn op_l_mov(a: &RegType, b: &RegType) -> (r: Result<Value, Fault>)
    ensures
        r == fresh(binary_result(BinaryOp::LMov, a.datum, b.datum)),
{
    match (a.datum, b.datum) {
        (Datum::Int(x), Datum::Int(s)) => {
            if 0 <= s && s < 64 {
                Ok(Value::number(x << s))
            } else {
                Err(Fault::ArithmeticError)
            }
        },
        _ => Err(Fault::TypeError),
    }
}

/// The first number shifted right by the second; the sign is kept.
pub fn op_r_mov(a: &RegType, b: &RegType) -> (r: Result<Value, Fault>)
    ensures
        r == fresh(binary_result(BinaryOp::RMov, a.datum, b.datum)),
{
    match (a.datum, b.datum) {
        (Datum::Int(x), Datum::Int(s)) => {
            if 0 <= s && s < 64 {
                Ok(Value::number(x >> s))
            } else {
                Err(Fault::ArithmeticError)
            }
        },
        _ => Err(Fault::TypeError),
    }
}

/// The sum of two numbers.
pub fn op_add(a: &RegType, b: &RegType) -> (r: Result<Value, Fault>)
    ensures
        r == fresh(binary_result(BinaryOp::Add, a.datum, b.datum)),
{
    match (a.datum, b.datum) {
        (Datum::Int(x), Datum::Int(y)) => match x.checked_add(y) {
            Some(n) => Ok(Value::number(n)),
            None => Err(Fault::ArithmeticError),
        },
        _ => Err(Fault::TypeError),
    }
}

/// The difference of two numbers.
pub fn op_sub(a: &RegType, b: &RegType) -> (r: Result<Value, Fault>)
    ensures
        r == fresh(binary_result(BinaryOp::Sub, a.datum, b.datum)),
{
    match (a.datum, b.datum) {
        (Datum::Int(x), Datum::Int(y)) => match x.checked_sub(y) {
            Some(n) => Ok(Value::number(n)),
            None => Err(Fault::ArithmeticError),
        },
        _ => Err(Fault::TypeError),
    }
}

/// The product of two numbers.
pub fn op_mul(a: &RegType, b: &RegType) -> (r: Result<Value, Fault>)
    ensures
        r == fresh(binary_result(BinaryOp::Mul, a.datum, b.datum)),
{
    match (a.datum, b.datum) {
        (Datum::Int(x), Datum::Int(y)) => match x.checked_mul(y) {
            Some(n) => Ok(Value::number(n)),
            None => Err(Fault::ArithmeticError),
        },
        _ => Err(Fault::TypeError),
    }
}

/// Every bit of a number flipped; a boolean negated.
pub fn op_bit_not(a: &RegType) -> (r: Result<Value, Fault>)
    ensures
        r == fresh(unary_result(UnaryOp::BitNot, a.datum)),
{
    match a.datum {
        Datum::Int(x) => Ok(Value::number(!x)),
        Datum::Bool(p) => Ok(Value::boolean(!p)),
        Datum::Uninit => Err(Fault::TypeError),
    }
}

/// The negation of the operand's truthiness.
pub fn op_not(a: &RegType) -> (r: Result<Value, Fault>)
    ensures
        r == fresh(unary_result(UnaryOp::Not, a.datum)),
{
    match a.truthy() {
        Some(p) => Ok(Value::boolean(!p)),
        None => Err(Fault::TypeError),
    }
}

/// The negative of a number.
pub fn op_neg(a: &RegType) -> (r: Result<Value, Fault>)
    ensures
        r == fresh(unary_result(UnaryOp::Neg, a.datum)),
{
    match a.datum {
        Datum::Int(x) => {
            if x == i64::MIN {
                Err(Fault::ArithmeticError)
            } else {
                Ok(Value::number(-x))
            }
        },
        _ => Err(Fault::TypeError),
    }
}

/// The number itself.
pub fn op_pos(a: &RegType) -> (r: Result<Value, Fault>)
    ensures
        r == fresh(unary_result(UnaryOp::Pos, a.datum)),
{
    match a.datum {
        Datum::Int(x) => Ok(Value::number(x)),
        _ => Err(Fault::TypeError),
    }
}

/// Division rounded toward zero undoes multiplication up to the remainder,
/// and the remainder is smaller than the divisor and has the sign of the
/// dividend.
pub proof fn lemma_trunc_div_rem(x: int, d: int)
    requires
        d != 0,
    ensures
        x == d * trunc_div(x, d) + trunc_rem(x, d),
        magnitude(trunc_rem(x, d)) < magnitude(d),
        x >= 0 ==> trunc_rem(x, d) >= 0,
        x <= 0 ==> trunc_rem(x, d) <= 0,
{
    let m = magnitude(d);
    let a = magnitude(x);
    vstd::arithmetic::div_mod::lemma_fundamental_div_mod(a, m);
    vstd::arithmetic::div_mod::lemma_mod_bound(a, m);
    let q = a / m;
    assert(d * (-q) == -(d * q)) by (nonlinear_arith);
    assert(d < 0 ==> d * q == -(m * q)) by (nonlinear_arith)
        requires
            d < 0 ==> m == -d,
    ;
}

/// The quotient rounded toward zero of two numbers can be held, but for the
/// least number divided by minus one.
proof fn lemma_trunc_div_fits(x: int, d: int)
    requires
        fits(x),
        fits(d),
        d != 0,
    ensures
        fits(trunc_div(x, d)) <==> !(x == i64::MIN && d == -1),
        fits(trunc_rem(x, d)),
{
    let m = magnitude(d);
    let a = magnitude(x);
    lemma_trunc_div_rem(x, d);
    vstd::arithmetic::div_mod::lemma_fundamental_div_mod(a, m);
    vstd::arithmetic::div_mod::lemma_mod_bound(a, m);
    let q = a / m;
    assert(0 <= q <= a) by (nonlinear_arith)
        requires
            a == m * q + a % m,
            0 <= a % m < m,
            m >= 1,
            a >= 0,
    ;
    if m >= 2 {
        assert(2 * q <= a) by (nonlinear_arith)
            requires
                a == m * q + a % m,
                0 <= a % m,
                m >= 2,
                q >= 0,
        ;
    } else {
        assert(q == a) by (nonlinear_arith)
            requires
                a == m * q + a % m,
                0 <= a % m < m,
                m == 1,
        ;
    }
}

/// Zero divided by anything leaves nothing, and multiplying by minus one
/// is taking the negative: the two facts that link the sign cases in which
/// the checked division of the standard library is described to
/// [`trunc_div`] and [`trunc_rem`].
proof fn lemma_magnitude_div(x: int, d: int)
    requires
        d != 0,
    ensures
        0int / magnitude(d) == 0,
        0int % magnitude(d) == 0,
        x * -1 == -x,
        d * -1 == -d,
        (magnitude(x) / magnitude(d)) * -1 == -(magnitude(x) / magnitude(d)),
        (magnitude(x) % magnitude(d)) * -1 == -(magnitude(x) % magnitude(d)),
{
    vstd::arithmetic::div_mod::lemma_div_basics(magnitude(d));
    vstd::arithmetic::div_mod::lemma_small_mod(0, magnitude(d) as nat);
}

/// The quotient of two numbers, rounded toward zero.
pub fn op_div(a: &RegType, b: &RegType) -> (r: Result<Value, Fault>)
    ensures
        r == fresh(binary_result(BinaryOp::Div, a.datum, b.datum)),
        a.datum is Int && b.datum == Datum::Int(0) ==> r == Err::<Value, Fault>(
            Fault::ArithmeticError,
        ),
{
    match (a.datum, b.datum) {
        (Datum::Int(x), Datum::Int(y)) => {
            if y == 0 {
                return Err(Fault::ArithmeticError);
            }
            proof {
                lemma_trunc_div_fits(x as int, y as int);
                lemma_magnitude_div(x as int, y as int);
            }
            match x.checked_div(y) {
                Some(n) => Ok(Value::number(n)),
                None => Err(Fault::ArithmeticError),
            }
        },
        _ => Err(Fault::TypeError),
    }
}

/// What is left of the first number after division by the second; it has
/// the sign of the first.
pub fn op_mod(a: &RegType, b: &RegType) -> (r: Result<Value, Fault>)
    ensures
        r == fresh(binary_result(BinaryOp::Mod, a.datum, b.datum)),
        a.datum is Int && b.datum == Datum::Int(0) ==> r == Err::<Value, Fault>(
            Fault::ArithmeticError,
        ),
{
    match (a.datum, b.datum) {
        (Datum::Int(x), Datum::Int(y)) => {
            if y == 0 {
                return Err(Fault::ArithmeticError);
            }
            proof {
                lemma_trunc_div_fits(x as int, y as int);
                lemma_magnitude_div(x as int, y as int);
            }
            if y == -1 {
                return Ok(Value::number(0));
            }
            match x.checked_rem(y) {
                Some(n) => Ok(Value::number(n)),
                None => Err(Fault::ArithmeticError),
            }
        },
        _ => Err(Fault::TypeError),
    }
}

/// A falling factorial that stops at or above one is at least one.
proof fn lemma_falling_factorial_positive(n: int, k: nat)
    requires
        k <= n,
    ensures
        falling_factorial(n, k) >= 1,
    decreases k,
{
    if k > 0 {
        lemma_falling_factorial_positive(n, (k - 1) as nat);
        assert(falling_factorial(n, (k - 1) as nat) * (n - k + 1) >= 1) by (nonlinear_arith)
            requires
                falling_factorial(n, (k - 1) as nat) >= 1,
                n - k + 1 >= 1,
        ;
    }
}

/// As long as it stops at or above one, a falling factorial does not get
/// smaller with more factors.
proof fn lemma_falling_factorial_grows(n: int, i: nat, j: nat)
    requires
        i <= j <= n,
    ensures
        falling_factorial(n, i) <= falling_factorial(n, j),
    decreases j,
{
    if i < j {
        lemma_falling_factorial_grows(n, i, (j - 1) as nat);
        lemma_falling_factorial_positive(n, (j - 1) as nat);
        assert(falling_factorial(n, (j - 1) as nat) * (n - j + 1) >= falling_factorial(
            n,
            (j - 1) as nat,
        )) by (nonlinear_arith)
            requires
                falling_factorial(n, (j - 1) as nat) >= 1,
                n - j + 1 >= 1,
        ;
    }
}

/// A falling factorial that runs past zero has zero among its factors.
pub proof fn lemma_falling_factorial_past_zero(n: int, k: nat)
    requires
        0 <= n < k,
    ensures
        falling_factorial(n, k) == 0,
    decreases k,
{
    if k == n + 1 {
        assert(falling_factorial(n, (k - 1) as nat) * (n - k + 1) == 0) by (nonlinear_arith)
            requires
                n - k + 1 == 0,
        ;
    } else {
        lemma_falling_factorial_past_zero(n, (k - 1) as nat);
        assert(falling_factorial(n, (k - 1) as nat) * (n - k + 1) == 0) by (nonlinear_arith)
            requires
                falling_factorial(n, (k - 1) as nat) == 0,
        ;
    }
}

/// The falling factorial of two numbers: the product of as many integers as
/// the second says, counting down from the first. With both operands equal
/// it is the factorial.
pub fn op_fact(a: &RegType, b: &RegType) -> (r: Result<Value, Fault>)
    ensures
        r == fresh(binary_result(BinaryOp::Fact, a.datum, b.datum)),
{
    match (a.datum, b.datum) {
        (Datum::Int(n), Datum::Int(k)) => {
            if n < 0 || k < 0 {
                return Err(Fault::ArithmeticError);
            }
            if k > n {
                proof {
                    lemma_falling_factorial_past_zero(n as int, k as nat);
                }
                return Ok(Value::number(0));
            }
            let mut product: i64 = 1;
            let mut done: i64 = 0;
            while done < k
                invariant
                    a.datum == Datum::Int(n),
                    b.datum == Datum::Int(k),
                    0 <= done <= k <= n,
                    product == falling_factorial(n as int, done as nat),
                decreases k - done,
            {
                let factor: i64 = n - done;
                match product.checked_mul(factor) {
                    Some(next) => {
                        product = next;
                    },
                    None => {
                        proof {
                            lemma_falling_factorial_positive(n as int, done as nat);
                            lemma_falling_factorial_grows(n as int, (done + 1) as nat, k as nat);
                            assert(product * factor >= 1) by (nonlinear_arith)
                                requires
                                    product >= 1,
                                    factor >= 1,
                            ;
                        }
                        return Err(Fault::ArithmeticError);
                    },
                }
                done = done + 1;
            }
            Ok(Value::number(product))
        },
        _ => Err(Fault::TypeError),
    }
}

} // verus!
