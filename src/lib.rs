//! An evaluator for a two-sorted expression language: integer arithmetic
//! and boolean expressions that may compare arithmetic subterms.
//!
//! Arithmetic on `i64` wraps around in two's complement; the one fault is
//! division by zero, reported as `EvalError::DivisionByZero`.
pub mod expr;
pub mod eval;
pub mod laws;

pub use expr::{ArithCmpOp, ArithExpr, BinArithOp, BinLogicOp, BoolExpr, EvalError, Expr, Value};
pub use eval::{eval, eval_arith_expr, eval_bool_expr};
