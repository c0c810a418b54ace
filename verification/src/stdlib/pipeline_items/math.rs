use vstd::prelude::*;
use vstd::arithmetic::power::{lemma_pow0, lemma_pow1, pow};
use crate::namespace::namespace::{is_item, Namespace};
use crate::path::error::{Error, ErrorKind, ErrorView};
use crate::pipeline::item::item::ItemCall;
use crate::value::decimal::{
    decimal_abs, decimal_add, decimal_cbrt, decimal_cube_root, decimal_difference, decimal_div,
    decimal_from, decimal_integer, decimal_is_integer, decimal_is_less, decimal_is_zero,
    decimal_less, decimal_magnitude, decimal_mul, decimal_of, decimal_product, decimal_rem,
    decimal_remainder, decimal_rescaled, decimal_round, decimal_rounded, decimal_sqrt,
    decimal_square_root, decimal_sub, decimal_sum, decimal_with_scale, decimal_zero, Decimal,
    DecimalView, ROOT_PRECISION,
};
use crate::collections::names::{text_is_less, text_less};
use crate::value::value::{copy_value, spec_to_int64, Value, ValueView};

verus! {

/// The arithmetic operations of two operands.
#[derive(Debug, Copy, Clone, PartialEq, Eq, Structural)]
pub enum Arithmetic {
    Add,
    Sub,
    Mul,
    Div,
    Mod,
}

/// What went wrong in a math item.
#[derive(Debug, Copy, Clone, PartialEq, Eq, Structural)]
pub enum Fault {
    /// The input is of a kind that the item does not take.
    Input,
    /// The operands are of kinds that do not go together.
    Operands,
    /// The result does not fit the kind of the input.
    Overflow,
    /// The divisor is zero.
    DivisionByZero,
    /// The root of the input is no real number, or of degree zero.
    Imaginary,
    /// The scale of a decimal is beyond the limit for arithmetic.
    Scale,
    /// The operands are floating-point numbers, which the host computes.
    Floating,
}

/// The message of a fault.
pub open spec fn fault_message(fault: Fault) -> Seq<char> {
    match fault {
        Fault::Input => "invalid input"@,
        Fault::Operands => "invalid operands"@,
        Fault::Overflow => "overflow"@,
        Fault::DivisionByZero => "division by zero"@,
        Fault::Imaginary => "no real root"@,
        Fault::Scale => "scale out of range"@,
        Fault::Floating => "floating point"@,
    }
}

/// The kind of error that a fault is reported as: operands of the wrong
/// kind are a type error, floating-point operands are left to the host, and
/// every other fault is a value error.
pub open spec fn fault_kind(fault: Fault) -> ErrorKind {
    match fault {
        Fault::Input => ErrorKind::TypeError,
        Fault::Operands => ErrorKind::TypeError,
        Fault::Floating => ErrorKind::InvalidOperation,
        _ => ErrorKind::ValueError,
    }
}

/// The error of an item for a fault: the name of the item, a colon and the
/// message of the fault.
pub open spec fn fault_error(item: Seq<char>, fault: Fault) -> ErrorView {
    ErrorView {
        kind: fault_kind(fault),
        message: item + ": "@ + fault_message(fault),
        path: None,
    }
}

/// The error of an item for a fault.
pub fn fail(item: &str, fault: Fault) -> (error: Error)
    ensures
        error@ == fault_error(item@, fault),
{
    let (kind, message) = match fault {
        Fault::Input => (ErrorKind::TypeError, "invalid input"),
        Fault::Operands => (ErrorKind::TypeError, "invalid operands"),
        Fault::Overflow => (ErrorKind::ValueError, "overflow"),
        Fault::DivisionByZero => (ErrorKind::ValueError, "division by zero"),
        Fault::Imaginary => (ErrorKind::ValueError, "no real root"),
        Fault::Scale => (ErrorKind::ValueError, "scale out of range"),
        Fault::Floating => (ErrorKind::InvalidOperation, "floating point"),
    };
    let mut text = item.to_owned();
    text.append(": ");
    text.append(message);
    Error { kind, message: text, path: None }
}

/// The quotient of two integers, rounded toward zero.
pub open spec fn quotient(a: int, b: int) -> int {
    if a >= 0 && b > 0 {
        a / b
    } else if a < 0 && b > 0 {
        -((-a) / b)
    } else if a >= 0 && b < 0 {
        -(a / (-b))
    } else {
        (-a) / (-b)
    }
}

/// What an arithmetic operation makes of two integers; `None` for a
/// division by zero.
pub open spec fn computed(op: Arithmetic, a: int, b: int) -> Option<int> {
    match op {
        Arithmetic::Add => Some(a + b),
        Arithmetic::Sub => Some(a - b),
        Arithmetic::Mul => Some(a * b),
        Arithmetic::Div => if b == 0 {
            None
        } else {
            Some(quotient(a, b))
        },
        Arithmetic::Mod => if b == 0 {
            None
        } else {
            Some(a - b * quotient(a, b))
        },
    }
}

/// The quotient of two integers, rounded toward zero.
pub fn divide(a: i64, b: i64) -> (q: i128)
    requires
        b != 0,
    ensures
        q == quotient(a as int, b as int),
{
    let wide_a: i128 = a as i128;
    let wide_b: i128 = b as i128;
    let magnitude_a: i128 = if wide_a < 0 {
        -wide_a
    } else {
        wide_a
    };
    let magnitude_b: i128 = if wide_b < 0 {
        -wide_b
    } else {
        wide_b
    };
    let q: i128 = magnitude_a / magnitude_b;
    if (a < 0) != (b < 0) {
        -q
    } else {
        q
    }
}

/// What an arithmetic operation makes of two integers; `None` for a
/// division by zero.
pub fn compute(op: Arithmetic, a: i64, b: i64) -> (r: Option<i128>)
    ensures
        match r {
            Some(value) => computed(op, a as int, b as int) == Some(value as int),
            None => computed(op, a as int, b as int) is None,
        },
{
    let wide_a: i128 = a as i128;
    let wide_b: i128 = b as i128;
    match op {
        Arithmetic::Add => Some(wide_a + wide_b),
        Arithmetic::Sub => Some(wide_a - wide_b),
        Arithmetic::Mul => {
            assert(-0x8000_0000_0000_0000 <= a <= 0x7fff_ffff_ffff_ffff);
            assert(-0x8000_0000_0000_0000 <= b <= 0x7fff_ffff_ffff_ffff);
            assert(-0x4000_0000_0000_0000_0000_0000_0000_0000 <= a * b
                <= 0x4000_0000_0000_0000_0000_0000_0000_0000) by (nonlinear_arith)
                requires
                    -0x8000_0000_0000_0000 <= a <= 0x7fff_ffff_ffff_ffff,
                    -0x8000_0000_0000_0000 <= b <= 0x7fff_ffff_ffff_ffff,
            ;
            Some(wide_a * wide_b)
        },
        Arithmetic::Div => if b == 0 {
            None
        } else {
            Some(divide(a, b))
        },
        Arithmetic::Mod => if b == 0 {
            None
        } else {
            let q = divide(a, b);
            assert(-0x8000_0000_0000_0000 <= q <= 0x8000_0000_0000_0000) by (nonlinear_arith)
                requires
                    q == quotient(a as int, b as int),
                    b != 0,
                    -0x8000_0000_0000_0000 <= a <= 0x7fff_ffff_ffff_ffff,
            ;
            assert(-0x4000_0000_0000_0000_0000_0000_0000_0000 <= b * q
                <= 0x4000_0000_0000_0000_0000_0000_0000_0000) by (nonlinear_arith)
                requires
                    -0x8000_0000_0000_0000 <= q <= 0x8000_0000_0000_0000,
                    -0x8000_0000_0000_0000 <= b <= 0x7fff_ffff_ffff_ffff,
            ;
            Some(wide_a - wide_b * q)
        },
    }
}

/// What an arithmetic operation makes of an input and an argument.
///
/// Integers are computed exactly, and a result that does not fit the width
/// of the input is an overflow. Decimals are computed by decimal
/// arithmetic; of a quotient only its kind is said. Strings can be added.
/// Floating-point inputs are left to the host. Operands of kinds that do
/// not go together are a fault.
pub open spec fn arithmetic_of(op: Arithmetic, input: ValueView, argument: ValueView) -> Result<
    Option<ValueView>,
    Fault,
> {
    match input {
        ValueView::Int(a) => match spec_to_int64(argument) {
            Some(b) => match computed(op, a as int, b as int) {
                Some(r) => if -0x8000_0000 <= r <= 0x7fff_ffff {
                    Ok(Some(ValueView::Int(r as i32)))
                } else {
                    Err(Fault::Overflow)
                },
                None => Err(Fault::DivisionByZero),
            },
            None => Err(Fault::Operands),
        },
        ValueView::Int64(a) => match spec_to_int64(argument) {
            Some(b) => match computed(op, a as int, b as int) {
                Some(r) => if -0x8000_0000_0000_0000 <= r <= 0x7fff_ffff_ffff_ffff {
                    Ok(Some(ValueView::Int64(r as i64)))
                } else {
                    Err(Fault::Overflow)
                },
                None => Err(Fault::DivisionByZero),
            },
            None => Err(Fault::Operands),
        },
        ValueView::Float32(_) => Err(Fault::Floating),
        ValueView::Float(_) => Err(Fault::Floating),
        ValueView::Decimal(a) => match argument {
            ValueView::Decimal(b) => if !a.within_limit() || !b.within_limit() {
                Err(Fault::Scale)
            } else {
                match op {
                    Arithmetic::Add => Ok(Some(ValueView::Decimal(decimal_sum(a, b)))),
                    Arithmetic::Sub => Ok(Some(ValueView::Decimal(decimal_difference(a, b)))),
                    Arithmetic::Mul => Ok(Some(ValueView::Decimal(decimal_product(a, b)))),
                    Arithmetic::Div => if decimal_is_zero(b) {
                        Err(Fault::DivisionByZero)
                    } else {
                        Ok(None)
                    },
                    Arithmetic::Mod => if decimal_is_zero(b) {
                        Err(Fault::DivisionByZero)
                    } else {
                        Ok(Some(ValueView::Decimal(decimal_remainder(a, b))))
                    },
                }
            },
            _ => Err(Fault::Operands),
        },
        ValueView::String(a) => match (op, argument) {
            (Arithmetic::Add, ValueView::String(b)) => Ok(Some(ValueView::String(a + b))),
            _ => Err(Fault::Operands),
        },
        _ => Err(Fault::Operands),
    }
}

/// Whether `result` is what an item named `item` hands back for what is
/// expected of it: the value expected, a value of the kind of the input
/// where only that is said, or the error of the fault.
pub open spec fn hands_back(item: Seq<char>, expected: Result<Option<ValueView>, Fault>, input: ValueView, result: Result<Value, Error>) -> bool {
    match expected {
        Ok(Some(value)) => result matches Ok(given) && given@ == value,
        Ok(None) => result matches Ok(given) && (given@ is Decimal <==> input is Decimal),
        Err(fault) => result matches Err(error) && error@ == fault_error(item, fault),
    }
}

/// Applies an arithmetic operation to the input and the argument of the
/// item named `item`.
pub fn arithmetic(item: &str, op: Arithmetic, input: &Value, argument: &Value) -> (result: Result<
    Value,
    Error,
>)
    ensures
        hands_back(item@, arithmetic_of(op, input@, argument@), input@, result),
{
    match input {
        Value::Int(a) => match argument.to_int64() {
            Some(b) => match compute(op, *a as i64, b) {
                Some(r) => if -0x8000_0000 <= r && r <= 0x7fff_ffff {
                    Ok(Value::Int(r as i32))
                } else {
                    Err(fail(item, Fault::Overflow))
                },
                None => Err(fail(item, Fault::DivisionByZero)),
            },
            None => Err(fail(item, Fault::Operands)),
        },
        Value::Int64(a) => match argument.to_int64() {
            Some(b) => match compute(op, *a, b) {
                Some(r) => if -0x8000_0000_0000_0000 <= r && r <= 0x7fff_ffff_ffff_ffff {
                    Ok(Value::Int64(r as i64))
                } else {
                    Err(fail(item, Fault::Overflow))
                },
                None => Err(fail(item, Fault::DivisionByZero)),
            },
            None => Err(fail(item, Fault::Operands)),
        },
        Value::Float32(_) => Err(fail(item, Fault::Floating)),
        Value::Float(_) => Err(fail(item, Fault::Floating)),
        Value::Decimal(a) => match argument {
            Value::Decimal(b) => {
                if !a.within_limit() || !b.within_limit() {
                    return Err(fail(item, Fault::Scale));
                }
                match op {
                    Arithmetic::Add => Ok(Value::Decimal(decimal_add(a, b))),
                    Arithmetic::Sub => Ok(Value::Decimal(decimal_sub(a, b))),
                    Arithmetic::Mul => Ok(Value::Decimal(decimal_mul(a, b))),
                    Arithmetic::Div => if decimal_zero(b) {
                        Err(fail(item, Fault::DivisionByZero))
                    } else {
                        Ok(Value::Decimal(decimal_div(a, b)))
                    },
                    Arithmetic::Mod => if decimal_zero(b) {
                        Err(fail(item, Fault::DivisionByZero))
                    } else {
                        Ok(Value::Decimal(decimal_rem(a, b)))
                    },
                }
            },
            _ => Err(fail(item, Fault::Operands)),
        },
        Value::String(a) => match (op, argument) {
            (Arithmetic::Add, Value::String(b)) => {
                let mut sum = a.clone();
                sum.append(b.as_str());
                Ok(Value::String(sum))
            },
            _ => Err(fail(item, Fault::Operands)),
        },
        _ => Err(fail(item, Fault::Operands)),
    }
}

/// Whether one value is less than another: integers by their numbers,
/// decimals whose scales are within the limit by decimal comparison,
/// strings by the order of strings. Values of other kinds, and of kinds
/// that do not go together, are not less than one another.
pub open spec fn is_less(left: ValueView, right: ValueView) -> bool {
    match (left, right) {
        (ValueView::Decimal(a), ValueView::Decimal(b)) => a.within_limit() && b.within_limit()
            && decimal_is_less(a, b),
        (ValueView::String(a), ValueView::String(b)) => text_is_less(a, b),
        _ => match (spec_to_int64(left), spec_to_int64(right)) {
            (Some(a), Some(b)) => a < b,
            _ => false,
        },
    }
}

/// Whether one value is less than another.
pub fn less(left: &Value, right: &Value) -> (result: bool)
    ensures
        result == is_less(left@, right@),
{
    match (left, right) {
        (Value::Decimal(a), Value::Decimal(b)) => a.within_limit() && b.within_limit()
            && decimal_less(a, b),
        (Value::String(a), Value::String(b)) => text_less(a.as_str(), b.as_str()),
        _ => match (left.to_int64(), right.to_int64()) {
            (Some(a), Some(b)) => a < b,
            _ => false,
        },
    }
}

/// The input kept at most as large as the argument: the argument where the
/// input is greater, else the input.
pub fn max(input: &Value, argument: &Value) -> (result: Value)
    ensures
        result@ == if is_less(argument@, input@) {
            argument@
        } else {
            input@
        },
{
    if less(argument, input) {
        copy_value(argument)
    } else {
        copy_value(input)
    }
}

/// The input kept at least as large as the argument: the argument where
/// the input is less, else the input.
pub fn min(input: &Value, argument: &Value) -> (result: Value)
    ensures
        result@ == if is_less(input@, argument@) {
            argument@
        } else {
            input@
        },
{
    if less(input, argument) {
        copy_value(argument)
    } else {
        copy_value(input)
    }
}

/// The ways to bring a decimal to a whole number.
#[derive(Debug, Copy, Clone, PartialEq, Eq, Structural)]
pub enum Rounding {
    Floor,
    Ceil,
    Round,
}

/// What rounding makes of a decimal whose scale is within the limit: the
/// floor drops the digits after the point; the ceiling drops them and adds
/// one where there were any other than zero; rounding goes to the nearest
/// whole number, halves to the even one.
pub open spec fn rounding_of(mode: Rounding, d: DecimalView) -> DecimalView {
    match mode {
        Rounding::Floor => decimal_rescaled(d, 0),
        Rounding::Ceil => if decimal_is_integer(d) {
            decimal_rescaled(d, 0)
        } else {
            decimal_sum(decimal_rescaled(d, 0), decimal_of(1))
        },
        Rounding::Round => decimal_rounded(d, 0),
    }
}

/// What rounding makes of an input: decimals are rounded, floating-point
/// inputs are left to the host, inputs of other kinds are a fault.
pub open spec fn rounded_of(mode: Rounding, input: ValueView) -> Result<Option<ValueView>, Fault> {
    match input {
        ValueView::Decimal(d) => if d.within_limit() {
            Ok(Some(ValueView::Decimal(rounding_of(mode, d))))
        } else {
            Err(Fault::Scale)
        },
        ValueView::Float32(_) => Err(Fault::Floating),
        ValueView::Float(_) => Err(Fault::Floating),
        _ => Err(Fault::Input),
    }
}

/// Brings the input of the item named `item` to a whole number.
pub fn rounded(item: &str, mode: Rounding, input: &Value) -> (result: Result<Value, Error>)
    ensures
        hands_back(item@, rounded_of(mode, input@), input@, result),
{
    match input {
        Value::Decimal(d) => {
            if !d.within_limit() {
                return Err(fail(item, Fault::Scale));
            }
            let whole = match mode {
                Rounding::Floor => decimal_with_scale(d, 0),
                Rounding::Ceil => if decimal_integer(d) {
                    decimal_with_scale(d, 0)
                } else {
                    decimal_add(&decimal_with_scale(d, 0), &decimal_from(1))
                },
                Rounding::Round => decimal_round(d, 0),
            };
            Ok(Value::Decimal(whole))
        },
        Value::Float32(_) => Err(fail(item, Fault::Floating)),
        Value::Float(_) => Err(fail(item, Fault::Floating)),
        _ => Err(fail(item, Fault::Input)),
    }
}

/// What the absolute value makes of an input.
pub open spec fn abs_of(input: ValueView) -> Result<Option<ValueView>, Fault> {
    match input {
        ValueView::Int(a) => if a == -0x8000_0000 {
            Err(Fault::Overflow)
        } else if a < 0 {
            Ok(Some(ValueView::Int((-a) as i32)))
        } else {
            Ok(Some(ValueView::Int(a)))
        },
        ValueView::Int64(a) => if a == -0x8000_0000_0000_0000 {
            Err(Fault::Overflow)
        } else if a < 0 {
            Ok(Some(ValueView::Int64((-a) as i64)))
        } else {
            Ok(Some(ValueView::Int64(a)))
        },
        ValueView::Decimal(d) => Ok(Some(ValueView::Decimal(decimal_magnitude(d)))),
        ValueView::Float32(_) => Err(Fault::Floating),
        ValueView::Float(_) => Err(Fault::Floating),
        _ => Err(Fault::Input),
    }
}

/// The absolute value of the input.
pub fn abs(input: &Value) -> (result: Result<Value, Error>)
    ensures
        hands_back("abs"@, abs_of(input@), input@, result),
{
    match input {
        Value::Int(a) => if *a == -0x8000_0000 {
            Err(fail("abs", Fault::Overflow))
        } else if *a < 0 {
            Ok(Value::Int(-*a))
        } else {
            Ok(Value::Int(*a))
        },
        Value::Int64(a) => if *a == -0x8000_0000_0000_0000 {
            Err(fail("abs", Fault::Overflow))
        } else if *a < 0 {
            Ok(Value::Int64(-*a))
        } else {
            Ok(Value::Int64(*a))
        },
        Value::Decimal(d) => Ok(Value::Decimal(decimal_abs(d))),
        Value::Float32(_) => Err(fail("abs", Fault::Floating)),
        Value::Float(_) => Err(fail("abs", Fault::Floating)),
        _ => Err(fail("abs", Fault::Input)),
    }
}

/// Whether `r` is the root of degree `n` of `x`, rounded toward zero.
pub open spec fn is_root(x: int, n: nat, r: int) -> bool {
    if x >= 0 {
        r >= 0 && pow(r, n) <= x < pow(r + 1, n)
    } else {
        r <= 0 && pow(r - 1, n) < x <= pow(r, n)
    }
}

/// `num_integer::Roots::sqrt`: the square root of an integer that is not
/// negative, rounded toward zero.
#[verifier::external_body]
pub(crate) fn integer_sqrt(x: i64) -> (r: i64)
    requires
        x >= 0,
    ensures
        is_root(x as int, 2, r as int),
{
    num_integer::Roots::sqrt(&x)
}

/// `num_integer::Roots::cbrt`: the cube root of an integer, rounded toward
/// zero.
#[verifier::external_body]
pub(crate) fn integer_cbrt(x: i64) -> (r: i64)
    ensures
        is_root(x as int, 3, r as int),
{
    num_integer::Roots::cbrt(&x)
}

/// `num_integer::Roots::nth_root`: the root of a degree above zero of an
/// integer, rounded toward zero; the integer is not negative where the
/// degree is even. The root of degree one of the least integer is left
/// out: the function negates the root of the magnitude, and that root is
/// the least integer again.
#[verifier::external_body]
pub(crate) fn integer_nth_root(x: i64, n: u32) -> (r: i64)
    requires
        n > 0,
        x >= 0 || n % 2 == 1,
        n > 1 || x > -0x8000_0000_0000_0000,
    ensures
        is_root(x as int, n as nat, r as int),
{
    num_integer::Roots::nth_root(&x, n)
}

/// Whether `result` is what an item named `item` hands back for the root
/// of degree `n` of an integer input: the root in the width of the input,
/// or the error of the fault where there is no real root.
pub open spec fn hands_root(item: Seq<char>, input: ValueView, n: nat, imaginary: bool, result: Result<Value, Error>) -> bool {
    match spec_to_int64(input) {
        Some(x) => if imaginary {
            result matches Err(error) && error@ == fault_error(item, Fault::Imaginary)
        } else {
            match result {
                Ok(Value::Int(r)) => input is Int && is_root(x as int, n, r as int),
                Ok(Value::Int64(r)) => input is Int64 && is_root(x as int, n, r as int),
                Ok(_) => false,
                Err(error) => error@ == fault_error(item, Fault::Overflow),
            }
        },
        None => false,
    }
}

/// The root `r` of an integer input in the width of the input.
fn root_value(item: &str, input: &Value, r: i64) -> (result: Result<Value, Error>)
    requires
        input@ is Int || input@ is Int64,
    ensures
        match result {
            Ok(Value::Int(given)) => input@ is Int && given == r,
            Ok(Value::Int64(given)) => input@ is Int64 && given == r,
            Ok(_) => false,
            Err(error) => error@ == fault_error(item@, Fault::Overflow),
        },
{
    match input {
        Value::Int(_) => if -0x8000_0000 <= r && r <= 0x7fff_ffff {
            Ok(Value::Int(r as i32))
        } else {
            Err(fail(item, Fault::Overflow))
        },
        _ => Ok(Value::Int64(r)),
    }
}

/// Whether `result` is what the item `sqrt` hands back for an input: of
/// an integer that is not negative the root rounded toward zero, of a
/// decimal its root to a hundred digits.
pub open spec fn square_rooted(input: ValueView, result: Result<Value, Error>) -> bool {
    match input {
        ValueView::Decimal(d) => hands_back(
            "sqrt"@,
            if !d.within_limit() {
                Err(Fault::Scale)
            } else {
                match decimal_square_root(d, ROOT_PRECISION) {
                    Some(root) => Ok(Some(ValueView::Decimal(root))),
                    None => Err(Fault::Imaginary),
                }
            },
            input,
            result,
        ),
        ValueView::Float32(_) => hands_back("sqrt"@, Err(Fault::Floating), input, result),
        ValueView::Float(_) => hands_back("sqrt"@, Err(Fault::Floating), input, result),
        other => match spec_to_int64(other) {
            Some(x) => hands_root("sqrt"@, input, 2, x < 0, result),
            None => hands_back("sqrt"@, Err(Fault::Input), input, result),
        },
    }
}

/// The square root of the input: of an integer that is not negative the
/// root rounded toward zero, of a decimal its root to a hundred digits.
pub fn sqrt(input: &Value) -> (result: Result<Value, Error>)
    ensures
        square_rooted(input@, result),
{
    match input {
        Value::Decimal(d) => {
            if !d.within_limit() {
                return Err(fail("sqrt", Fault::Scale));
            }
            match decimal_sqrt(d, ROOT_PRECISION) {
                Some(root) => Ok(Value::Decimal(root)),
                None => Err(fail("sqrt", Fault::Imaginary)),
            }
        },
        Value::Float32(_) => Err(fail("sqrt", Fault::Floating)),
        Value::Float(_) => Err(fail("sqrt", Fault::Floating)),
        _ => match input.to_int64() {
            Some(x) => if x < 0 {
                Err(fail("sqrt", Fault::Imaginary))
            } else {
                root_value("sqrt", input, integer_sqrt(x))
            },
            None => Err(fail("sqrt", Fault::Input)),
        },
    }
}

/// Whether `result` is what the item `cbrt` hands back for an input: of
/// an integer the root rounded toward zero, of a decimal its root to a
/// hundred digits.
pub open spec fn cube_rooted(input: ValueView, result: Result<Value, Error>) -> bool {
    match input {
        ValueView::Decimal(d) => hands_back(
            "cbrt"@,
            if !d.within_limit() {
                Err(Fault::Scale)
            } else {
                Ok(Some(ValueView::Decimal(decimal_cube_root(d, ROOT_PRECISION))))
            },
            input,
            result,
        ),
        ValueView::Float32(_) => hands_back("cbrt"@, Err(Fault::Floating), input, result),
        ValueView::Float(_) => hands_back("cbrt"@, Err(Fault::Floating), input, result),
        other => match spec_to_int64(other) {
            Some(x) => hands_root("cbrt"@, input, 3, false, result),
            None => hands_back("cbrt"@, Err(Fault::Input), input, result),
        },
    }
}

/// The cube root of the input: of an integer the root rounded toward
/// zero, of a decimal its root to a hundred digits.
pub fn cbrt(input: &Value) -> (result: Result<Value, Error>)
    ensures
        cube_rooted(input@, result),
{
    match input {
        Value::Decimal(d) => {
            if !d.within_limit() {
                return Err(fail("cbrt", Fault::Scale));
            }
            Ok(Value::Decimal(decimal_cbrt(d, ROOT_PRECISION)))
        },
        Value::Float32(_) => Err(fail("cbrt", Fault::Floating)),
        Value::Float(_) => Err(fail("cbrt", Fault::Floating)),
        _ => match input.to_int64() {
            Some(x) => root_value("cbrt", input, integer_cbrt(x)),
            None => Err(fail("cbrt", Fault::Input)),
        },
    }
}

/// Whether the root of degree `n` of `x` is no real number, or the degree
/// is not above zero.
pub open spec fn no_root(x: int, n: int) -> bool {
    n <= 0 || (x < 0 && n % 2 == 0)
}

/// Whether `result` is what the item `root` hands back for an input and
/// an argument: of an integer, for a degree that is an integer above zero,
/// the root rounded toward zero.
pub open spec fn rooted(input: ValueView, argument: ValueView, result: Result<Value, Error>) -> bool {
    match (spec_to_int64(input), argument) {
        (Some(x), ValueView::Int(n)) => hands_root(
            "root"@,
            input,
            n as nat,
            no_root(x as int, n as int),
            result,
        ),
        (Some(_), _) => hands_back("root"@, Err(Fault::Operands), input, result),
        (None, _) => hands_back("root"@, Err(Fault::Input), input, result),
    }
}

/// The root of the input of the degree that the argument gives: of an
/// integer, for a degree that is an integer above zero, the root rounded
/// toward zero.
pub fn root(input: &Value, argument: &Value) -> (result: Result<Value, Error>)
    ensures
        rooted(input@, argument@, result),
{
    let x = match input.to_int64() {
        Some(x) => x,
        None => {
            return Err(fail("root", Fault::Input));
        },
    };
    let n = match argument {
        Value::Int(n) => *n,
        _ => {
            return Err(fail("root", Fault::Operands));
        },
    };
    if n <= 0 || (x < 0 && n % 2 == 0) {
        return Err(fail("root", Fault::Imaginary));
    }
    if n == 1 {
        proof {
            lemma_pow1(x as int);
            lemma_pow1(x + 1);
            lemma_pow1(x - 1);
        }
        return root_value("root", input, x);
    }
    root_value("root", input, integer_nth_root(x, n as u32))
}

/// Whether an integer fits 64 bits.
pub open spec fn fits(value: int) -> bool {
    -0x8000_0000_0000_0000 <= value <= 0x7fff_ffff_ffff_ffff
}

/// The power of a base to an exponent that is not negative: `Ok` with the
/// power where every power of the base up to the exponent fits 64 bits,
/// `Err` with the first exponent whose power does not.
pub fn power(base: i64, exponent: i64) -> (result: Result<i64, i64>)
    requires
        exponent >= 0,
    ensures
        match result {
            Ok(value) => value == pow(base as int, exponent as nat),
            Err(at) => 0 < at <= exponent && !fits(pow(base as int, at as nat)),
        },
{
    if exponent == 0 {
        proof {
            lemma_pow0(base as int);
        }
        return Ok(1);
    }
    if base == 0 || base == 1 {
        proof {
            lemma_trivial_base(base as int, exponent as nat);
        }
        return Ok(base);
    }
    if base == -1 {
        proof {
            lemma_minus_one(exponent as nat);
        }
        return Ok(
            if exponent % 2 == 0 {
                1
            } else {
                -1
            },
        );
    }
    let mut value: i64 = 1;
    let mut done: i64 = 0;
    proof {
        lemma_pow0(base as int);
    }
    while done < exponent
        invariant
            0 <= done <= exponent,
            value == pow(base as int, done as nat),
        decreases exponent - done,
    {
        assert(-0x4000_0000_0000_0000_0000_0000_0000_0000 <= value * base
            <= 0x4000_0000_0000_0000_0000_0000_0000_0000) by (nonlinear_arith)
            requires
                -0x8000_0000_0000_0000 <= value <= 0x7fff_ffff_ffff_ffff,
                -0x8000_0000_0000_0000 <= base <= 0x7fff_ffff_ffff_ffff,
        ;
        let wide: i128 = (value as i128) * (base as i128);
        proof {
            assert(pow(base as int, (done + 1) as nat) == base * pow(base as int, done as nat)) by {
                vstd::arithmetic::power::lemma_pow_adds(base as int, 1, done as nat);
                lemma_pow1(base as int);
            }
            assert(wide == pow(base as int, (done + 1) as nat)) by (nonlinear_arith)
                requires
                    wide == value * base,
                    value == pow(base as int, done as nat),
                    pow(base as int, (done + 1) as nat) == base * pow(base as int, done as nat),
            ;
        }
        if wide < -0x8000_0000_0000_0000 || wide > 0x7fff_ffff_ffff_ffff {
            return Err(done + 1);
        }
        value = wide as i64;
        done += 1;
    }
    Ok(value)
}

/// Every power of zero and of one, to an exponent above zero, is the base.
proof fn lemma_trivial_base(base: int, exponent: nat)
    requires
        base == 0 || base == 1,
        exponent > 0,
    ensures
        pow(base, exponent) == base,
    decreases exponent,
{
    reveal(pow);
    if exponent > 1 {
        lemma_trivial_base(base, (exponent - 1) as nat);
    } else {
        lemma_pow1(base);
    }
}

/// The powers of minus one alternate between one and minus one.
proof fn lemma_minus_one(exponent: nat)
    ensures
        pow(-1, exponent) == if exponent % 2 == 0 {
            1int
        } else {
            -1int
        },
    decreases exponent,
{
    reveal(pow);
    if exponent > 0 {
        lemma_minus_one((exponent - 1) as nat);
    }
}

/// Whether `result` is what the item `pow` hands back for an integer base
/// and an exponent that is not negative: the power in the width of the
/// input, or an overflow where a power of the base up to the exponent does
/// not fit that width.
pub open spec fn hands_power(input: ValueView, base: int, exponent: nat, result: Result<Value, Error>) -> bool {
    match result {
        Ok(Value::Int(value)) => input is Int && value == pow(base, exponent),
        Ok(Value::Int64(value)) => input is Int64 && value == pow(base, exponent),
        Ok(_) => false,
        Err(error) => error@ == fault_error("pow"@, Fault::Overflow) && exists|at: nat|
            at <= exponent && !(-0x8000_0000 <= #[trigger] pow(base, at) <= 0x7fff_ffff) && (
            input is Int64 ==> !fits(pow(base, at))),
    }
}

/// Whether `result` is what the item `pow` hands back for an input and an
/// argument: of an integer, for an exponent that is an integer and not
/// negative, the power in the width of the input.
pub open spec fn raised(input: ValueView, argument: ValueView, result: Result<Value, Error>) -> bool {
    match input {
        ValueView::Float32(_) => hands_back("pow"@, Err(Fault::Floating), input, result),
        ValueView::Float(_) => hands_back("pow"@, Err(Fault::Floating), input, result),
        other => match (spec_to_int64(other), spec_to_int64(argument)) {
            (None, _) => hands_back("pow"@, Err(Fault::Input), input, result),
            (Some(_), None) => hands_back("pow"@, Err(Fault::Operands), input, result),
            (Some(base), Some(exponent)) => if exponent < 0 {
                hands_back("pow"@, Err(Fault::Operands), input, result)
            } else {
                hands_power(input, base as int, exponent as nat, result)
            },
        },
    }
}

/// The input raised to the power that the argument gives: of an integer,
/// for an exponent that is an integer and not negative, the power in the
/// width of the input.
pub fn raise(input: &Value, argument: &Value) -> (result: Result<Value, Error>)
    ensures
        raised(input@, argument@, result),
{
    match input {
        Value::Float32(_) => {
            return Err(fail("pow", Fault::Floating));
        },
        Value::Float(_) => {
            return Err(fail("pow", Fault::Floating));
        },
        _ => {},
    }
    let base = match input.to_int64() {
        Some(base) => base,
        None => {
            return Err(fail("pow", Fault::Input));
        },
    };
    let exponent = match argument.to_int64() {
        Some(exponent) => exponent,
        None => {
            return Err(fail("pow", Fault::Operands));
        },
    };
    if exponent < 0 {
        return Err(fail("pow", Fault::Operands));
    }
    match power(base, exponent) {
        Ok(value) => match input {
            Value::Int(_) => if -0x8000_0000 <= value && value <= 0x7fff_ffff {
                Ok(Value::Int(value as i32))
            } else {
                proof {
                    assert(!(-0x8000_0000 <= pow(base as int, exponent as nat) <= 0x7fff_ffff));
                }
                Err(fail("pow", Fault::Overflow))
            },
            _ => Ok(Value::Int64(value)),
        },
        Err(at) => {
            proof {
                assert(!fits(pow(base as int, at as nat)));
            }
            Err(fail("pow", Fault::Overflow))
        },
    }
}

/// What a math item hands back for an input and the argument that it was
/// written with, where it takes one.
///
/// The items of two operands are refused without an argument; every item
/// that is no math item refuses its input.
pub fn call_math_item(call: ItemCall, input: &Value, argument: Option<&Value>) -> (result: Result<
    Value,
    Error,
>)
    ensures
        match call {
            ItemCall::Floor => hands_back(
                "floor"@,
                rounded_of(Rounding::Floor, input@),
                input@,
                result,
            ),
            ItemCall::Ceil => hands_back("ceil"@, rounded_of(Rounding::Ceil, input@), input@, result),
            ItemCall::Round => hands_back(
                "round"@,
                rounded_of(Rounding::Round, input@),
                input@,
                result,
            ),
            ItemCall::Abs => hands_back("abs"@, abs_of(input@), input@, result),
            ItemCall::Add => two_operands("add"@, Arithmetic::Add, input@, argument, result),
            ItemCall::Sub => two_operands("sub"@, Arithmetic::Sub, input@, argument, result),
            ItemCall::Mul => two_operands("mul"@, Arithmetic::Mul, input@, argument, result),
            ItemCall::Div => two_operands("div"@, Arithmetic::Div, input@, argument, result),
            ItemCall::Mod => two_operands("mod"@, Arithmetic::Mod, input@, argument, result),
            ItemCall::Max => match argument {
                Some(given) => result matches Ok(value) && value@ == if is_less(given@, input@) {
                    given@
                } else {
                    input@
                },
                None => hands_back("max"@, Err(Fault::Operands), input@, result),
            },
            ItemCall::Min => match argument {
                Some(given) => result matches Ok(value) && value@ == if is_less(input@, given@) {
                    given@
                } else {
                    input@
                },
                None => hands_back("min"@, Err(Fault::Operands), input@, result),
            },
            ItemCall::Sqrt => square_rooted(input@, result),
            ItemCall::Cbrt => cube_rooted(input@, result),
            ItemCall::Pow => match argument {
                Some(given) => raised(input@, given@, result),
                None => hands_back("pow"@, Err(Fault::Operands), input@, result),
            },
            ItemCall::Root => match argument {
                Some(given) => rooted(input@, given@, result),
                None => hands_back("root"@, Err(Fault::Operands), input@, result),
            },
            _ => hands_back("math"@, Err(Fault::Input), input@, result),
        },
{
    match call {
        ItemCall::Floor => rounded("floor", Rounding::Floor, input),
        ItemCall::Ceil => rounded("ceil", Rounding::Ceil, input),
        ItemCall::Round => rounded("round", Rounding::Round, input),
        ItemCall::Abs => abs(input),
        ItemCall::Sqrt => sqrt(input),
        ItemCall::Cbrt => cbrt(input),
        ItemCall::Add => match argument {
            Some(given) => arithmetic("add", Arithmetic::Add, input, given),
            None => Err(fail("add", Fault::Operands)),
        },
        ItemCall::Sub => match argument {
            Some(given) => arithmetic("sub", Arithmetic::Sub, input, given),
            None => Err(fail("sub", Fault::Operands)),
        },
        ItemCall::Mul => match argument {
            Some(given) => arithmetic("mul", Arithmetic::Mul, input, given),
            None => Err(fail("mul", Fault::Operands)),
        },
        ItemCall::Div => match argument {
            Some(given) => arithmetic("div", Arithmetic::Div, input, given),
            None => Err(fail("div", Fault::Operands)),
        },
        ItemCall::Mod => match argument {
            Some(given) => arithmetic("mod", Arithmetic::Mod, input, given),
            None => Err(fail("mod", Fault::Operands)),
        },
        ItemCall::Max => match argument {
            Some(given) => Ok(max(input, given)),
            None => Err(fail("max", Fault::Operands)),
        },
        ItemCall::Min => match argument {
            Some(given) => Ok(min(input, given)),
            None => Err(fail("min", Fault::Operands)),
        },
        ItemCall::Pow => match argument {
            Some(given) => raise(input, given),
            None => Err(fail("pow", Fault::Operands)),
        },
        ItemCall::Root => match argument {
            Some(given) => root(input, given),
            None => Err(fail("root", Fault::Operands)),
        },
        _ => Err(fail("math", Fault::Input)),
    }
}

/// Whether `result` is what an arithmetic item hands back: what the
/// operation makes of the input and the argument, or a fault where the
/// item was written without an argument.
pub open spec fn two_operands(item: Seq<char>, op: Arithmetic, input: ValueView, argument: Option<&Value>, result: Result<Value, Error>) -> bool {
    match argument {
        Some(given) => hands_back(item, arithmetic_of(op, input, given@), input, result),
        None => hands_back(item, Err(Fault::Operands), input, result),
    }
}

/// The number of standard math items.
pub const MATH_ITEMS: usize = 15;

/// The standard math item at a position: its name and what it does.
pub open spec fn standard_math_item(position: usize) -> (Seq<char>, ItemCall) {
    match position {
        0 => ("add"@, ItemCall::Add),
        1 => ("sub"@, ItemCall::Sub),
        2 => ("mul"@, ItemCall::Mul),
        3 => ("div"@, ItemCall::Div),
        4 => ("mod"@, ItemCall::Mod),
        5 => ("max"@, ItemCall::Max),
        6 => ("min"@, ItemCall::Min),
        7 => ("floor"@, ItemCall::Floor),
        8 => ("ceil"@, ItemCall::Ceil),
        9 => ("round"@, ItemCall::Round),
        10 => ("abs"@, ItemCall::Abs),
        11 => ("sqrt"@, ItemCall::Sqrt),
        12 => ("cbrt"@, ItemCall::Cbrt),
        13 => ("pow"@, ItemCall::Pow),
        _ => ("root"@, ItemCall::Root),
    }
}

/// The standard math item at a position.
pub fn math_item(position: usize) -> (item: (&'static str, ItemCall))
    ensures
        item.0@ == standard_math_item(position).0,
        item.1 == standard_math_item(position).1,
{
    match position {
        0 => ("add", ItemCall::Add),
        1 => ("sub", ItemCall::Sub),
        2 => ("mul", ItemCall::Mul),
        3 => ("div", ItemCall::Div),
        4 => ("mod", ItemCall::Mod),
        5 => ("max", ItemCall::Max),
        6 => ("min", ItemCall::Min),
        7 => ("floor", ItemCall::Floor),
        8 => ("ceil", ItemCall::Ceil),
        9 => ("round", ItemCall::Round),
        10 => ("abs", ItemCall::Abs),
        11 => ("sqrt", ItemCall::Sqrt),
        12 => ("cbrt", ItemCall::Cbrt),
        13 => ("pow", ItemCall::Pow),
        _ => ("root", ItemCall::Root),
    }
}

/// Defines the standard math items in `namespace`, after the pipeline items
/// that it holds. Nothing else of the namespace changes.
pub fn load_pipeline_math_items(namespace: &mut Namespace)
    ensures
        final(namespace).pipeline_items@.len() == old(namespace).pipeline_items@.len() + MATH_ITEMS,
        forall|i: int|
            0 <= i < old(namespace).pipeline_items@.len() ==> #[trigger] final(namespace).pipeline_items@[i]
                == old(namespace).pipeline_items@[i],
        forall|i: usize|
            i < MATH_ITEMS ==> is_item(
                #[trigger] final(namespace).pipeline_items@[old(namespace).pipeline_items@.len()
                    + i],
                standard_math_item(i).0,
                standard_math_item(i).1,
            ),
        final(namespace).models == old(namespace).models,
        final(namespace).model_field_decorators == old(namespace).model_field_decorators,
{
    let ghost start = namespace.pipeline_items@;
    let mut i: usize = 0;
    while i < MATH_ITEMS
        invariant
            i <= MATH_ITEMS,
            start == old(namespace).pipeline_items@,
            namespace.pipeline_items@.len() == start.len() + i,
            forall|k: int| 0 <= k < start.len() ==> #[trigger] namespace.pipeline_items@[k] == start[k],
            forall|k: usize|
                k < i ==> is_item(
                    #[trigger] namespace.pipeline_items@[start.len() + k],
                    standard_math_item(k).0,
                    standard_math_item(k).1,
                ),
            namespace.models == old(namespace).models,
            namespace.model_field_decorators == old(namespace).model_field_decorators,
        decreases MATH_ITEMS - i,
    {
        let ghost before = namespace.pipeline_items@;
        let (name, call) = math_item(i);
        namespace.define_pipeline_item(name, call);
        proof {
            let after = namespace.pipeline_items@;
            assert forall|k: int| 0 <= k < before.len() implies #[trigger] after[k]
                == before[k] by {
                assert(after.drop_last()[k] == after[k]);
            }
            assert(after[start.len() + i] == after.last());
        }
        i += 1;
    }
}

} // verus!
