//! The meaning of expressions, and the evaluator that computes it.
use vstd::prelude::*;
use crate::expr::{ArithCmpOp, ArithExpr, BinArithOp, BinLogicOp, BoolExpr, EvalError, Expr, Value};

verus! {

/// The number of distinct `i64` values.
pub open spec fn modulus() -> int {
    0x1_0000_0000_0000_0000
}

/// The `i64` congruent to `x` modulo 2^64: two's-complement wrap-around.
pub open spec fn wrap(x: int) -> i64 {
    let m = x % modulus();
    if m > i64::MAX { (m - modulus()) as i64 } else { m as i64 }
}

/// The absolute value of `x`.
pub open spec fn abs(x: int) -> int {
    if x < 0 { -x } else { x }
}

/// Integer division rounded toward zero.
pub open spec fn trunc_div(l: int, r: int) -> int
    recommends r != 0,
{
    let q = abs(l) / abs(r);
    if (l < 0) == (r < 0) { q } else { -q }
}

/// The result of applying an arithmetic operator to two integers.
pub open spec fn apply_arith(op: BinArithOp, l: i64, r: i64) -> Result<i64, EvalError> {
    match op {
        BinArithOp::AddOp => Ok(wrap(l + r)),
        BinArithOp::SubOp => Ok(wrap(l - r)),
        BinArithOp::MulOp => Ok(wrap(l * r)),
        BinArithOp::IntDivOp => if r == 0 {
            Err(EvalError::DivisionByZero)
        } else {
            Ok(wrap(trunc_div(l as int, r as int)))
        },
    }
}

/// The value of an arithmetic expression; the leftmost fault wins.
pub open spec fn arith_value(e: ArithExpr) -> Result<i64, EvalError>
    decreases e,
{
    match e {
        ArithExpr::IntLit(v) => Ok(v),
        ArithExpr::BinArithExpr { left, right, op } => match arith_value(*left) {
            Err(err) => Err(err),
            Ok(l) => match arith_value(*right) {
                Err(err) => Err(err),
                Ok(r) => apply_arith(op, l, r),
            },
        },
    }
}

/// Evaluates an arithmetic expression.
pub fn eval_arith_expr(arith_expr: ArithExpr) -> (r: Result<i64, EvalError>)
    ensures
        r == arith_value(arith_expr),
    decreases arith_expr,
{
    match arith_expr {
        ArithExpr::IntLit(x) => Ok(x),
        ArithExpr::BinArithExpr { left, right, op } => {
            let l = match eval_arith_expr(*left) {
                Ok(v) => v,
                Err(err) => return Err(err),
            };
            let r = match eval_arith_expr(*right) {
                Ok(v) => v,
                Err(err) => return Err(err),
            };
            match op {
                BinArithOp::AddOp => Ok(l.wrapping_add(r)),
                BinArithOp::SubOp => Ok(l.wrapping_sub(r)),
                BinArithOp::MulOp => Ok(l.wrapping_mul(r)),
                BinArithOp::IntDivOp => {
                    if r == 0 {
                        Err(EvalError::DivisionByZero)
                    } else {
                        match l.checked_div(r) {
                            Some(q) => Ok(q),
                            None => Ok(i64::MIN),
                        }
                    }
                },
            }
        },
    }
}

/// The result of applying a comparison to two integers.
pub open spec fn apply_cmp(op: ArithCmpOp, l: i64, r: i64) -> bool {
    match op {
        ArithCmpOp::LtOp => l < r,
        ArithCmpOp::LteOp => l <= r,
        ArithCmpOp::GtOp => l > r,
        ArithCmpOp::GteOp => l >= r,
        ArithCmpOp::ArithEqOp => l == r,
        ArithCmpOp::ArithNeqOp => l != r,
    }
}

/// The result of applying a logical connective to two booleans.
pub open spec fn apply_logic(op: BinLogicOp, l: bool, r: bool) -> bool {
    match op {
        BinLogicOp::AndOp => l && r,
        BinLogicOp::OrOp => l || r,
        BinLogicOp::BoolEqOp => l == r,
        BinLogicOp::BoolNeqOp => l != r,
    }
}

/// The value of a boolean expression. Both operands of a binary node are
/// always evaluated, so a fault in either one is reported; the leftmost wins.
pub open spec fn bool_value(e: BoolExpr) -> Result<bool, EvalError>
    decreases e,
{
    match e {
        BoolExpr::BoolLit(b) => Ok(b),
        BoolExpr::NotExpr(inner) => match bool_value(*inner) {
            Err(err) => Err(err),
            Ok(b) => Ok(!b),
        },
        BoolExpr::ArithCmpExpr { left, right, op } => match arith_value(*left) {
            Err(err) => Err(err),
            Ok(l) => match arith_value(*right) {
                Err(err) => Err(err),
                Ok(r) => Ok(apply_cmp(op, l, r)),
            },
        },
        BoolExpr::BinBoolExpr { left, right, op } => match bool_value(*left) {
            Err(err) => Err(err),
            Ok(l) => match bool_value(*right) {
                Err(err) => Err(err),
                Ok(r) => Ok(apply_logic(op, l, r)),
            },
        },
    }
}

/// The value of an expression of either sort.
pub open spec fn expr_value(e: Expr) -> Result<Value, EvalError> {
    match e {
        Expr::ArithExpr(a) => match arith_value(a) {
            Err(err) => Err(err),
            Ok(v) => Ok(Value::IntValue(v)),
        },
        Expr::BoolExpr(b) => match bool_value(b) {
            Err(err) => Err(err),
            Ok(v) => Ok(Value::BoolValue(v)),
        },
    }
}

/// Evaluates a boolean expression.
pub fn eval_bool_expr(bool_expr: BoolExpr) -> (r: Result<bool, EvalError>)
    ensures
        r == bool_value(bool_expr),
    decreases bool_expr,
{
    match bool_expr {
        BoolExpr::BoolLit(y) => Ok(y),
        BoolExpr::NotExpr(inner) => match eval_bool_expr(*inner) {
            Ok(v) => Ok(!v),
            Err(err) => Err(err),
        },
        BoolExpr::ArithCmpExpr { left, right, op } => {
            let l = match eval_arith_expr(*left) {
                Ok(v) => v,
                Err(err) => return Err(err),
            };
            let r = match eval_arith_expr(*right) {
                Ok(v) => v,
                Err(err) => return Err(err),
            };
            Ok(
                match op {
                    ArithCmpOp::LtOp => l < r,
                    ArithCmpOp::LteOp => l <= r,
                    ArithCmpOp::GtOp => l > r,
                    ArithCmpOp::GteOp => l >= r,
                    ArithCmpOp::ArithEqOp => l == r,
                    ArithCmpOp::ArithNeqOp => l != r,
                },
            )
        },
        BoolExpr::BinBoolExpr { left, right, op } => {
            let l = match eval_bool_expr(*left) {
                Ok(v) => v,
                Err(err) => return Err(err),
            };
            let r = match eval_bool_expr(*right) {
                Ok(v) => v,
                Err(err) => return Err(err),
            };
            Ok(
                match op {
                    BinLogicOp::AndOp => l && r,
                    BinLogicOp::OrOp => l || r,
                    BinLogicOp::BoolEqOp => l == r,
                    BinLogicOp::BoolNeqOp => l != r,
                },
            )
        },
    }
}

/// Evaluates an expression of either sort to a tagged value.
pub fn eval(expr: Expr) -> (r: Result<Value, EvalError>)
    ensures
        r == expr_value(expr),
{
    match expr {
        Expr::ArithExpr(arith_expr) => match eval_arith_expr(arith_expr) {
            Ok(v) => Ok(Value::IntValue(v)),
            Err(err) => Err(err),
        },
        Expr::BoolExpr(bool_expr) => match eval_bool_expr(bool_expr) {
            Ok(v) => Ok(Value::BoolValue(v)),
            Err(err) => Err(err),
        },
    }
}


} // verus!
