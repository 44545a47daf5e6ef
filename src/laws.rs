//! Algebraic laws of the evaluator, stated over the meaning of expressions.
use vstd::prelude::*;
use crate::eval::{arith_value, bool_value, expr_value};
use crate::expr::{ArithExpr, BinArithOp, BinLogicOp, BoolExpr, EvalError, Expr, Value};

verus! {

/// An integer literal evaluates to itself.
pub proof fn lemma_int_literal(v: i64)
    ensures
        expr_value(Expr::ArithExpr(ArithExpr::IntLit(v))) == Ok::<Value, EvalError>(Value::IntValue(v)),
{
}

/// A boolean literal evaluates to itself.
pub proof fn lemma_bool_literal(b: bool)
    ensures
        expr_value(Expr::BoolExpr(BoolExpr::BoolLit(b))) == Ok::<Value, EvalError>(Value::BoolValue(b)),
{
}

/// Negating twice gives back the original value, or the same fault.
pub proof fn lemma_double_negation(e: BoolExpr)
    ensures
        bool_value(BoolExpr::NotExpr(Box::new(BoolExpr::NotExpr(Box::new(e))))) == bool_value(e),
{
    reveal_with_fuel(bool_value, 2);
}

/// Swapping the operands of an addition does not change its value.
pub proof fn lemma_add_commutative(a: ArithExpr, b: ArithExpr)
    ensures
        arith_value(ArithExpr::BinArithExpr { left: Box::new(a), right: Box::new(b), op: BinArithOp::AddOp })
            == arith_value(ArithExpr::BinArithExpr { left: Box::new(b), right: Box::new(a), op: BinArithOp::AddOp }),
{
}

/// Swapping the operands of a multiplication does not change its value.
pub proof fn lemma_mul_commutative(a: ArithExpr, b: ArithExpr)
    ensures
        arith_value(ArithExpr::BinArithExpr { left: Box::new(a), right: Box::new(b), op: BinArithOp::MulOp })
            == arith_value(ArithExpr::BinArithExpr { left: Box::new(b), right: Box::new(a), op: BinArithOp::MulOp }),
{
}

/// Dividing any integer literal by the literal zero is a division fault.
pub proof fn lemma_division_by_zero(k: i64)
    ensures
        arith_value(
            ArithExpr::BinArithExpr {
                left: Box::new(ArithExpr::IntLit(k)),
                right: Box::new(ArithExpr::IntLit(0)),
                op: BinArithOp::IntDivOp,
            },
        ) == Err::<i64, EvalError>(EvalError::DivisionByZero),
{
    reveal_with_fuel(arith_value, 2);
}

/// A binary boolean node never skips an operand: it succeeds exactly when
/// both operands succeed, whatever the connective and whatever the left value.
pub proof fn lemma_binary_bool_evaluates_both(left: BoolExpr, right: BoolExpr, op: BinLogicOp)
    ensures
        bool_value(BoolExpr::BinBoolExpr { left: Box::new(left), right: Box::new(right), op }) is Ok
            <==> (bool_value(left) is Ok && bool_value(right) is Ok),
{
}

} // verus!
