//! Evaluation of expressions and conditions against the state of a turn.

use vstd::prelude::*;
use crate::ast::{Expr, Infix};
use crate::context::{Data, DataV};
use crate::data::{lookup_memory, lookup_spec};
use crate::value::{
    arith_spec, compare_spec, field_spec, method_spec, truthy, type_text, ErrorInfo, ErrorKind,
    Interval, LitV, Literal, Value, ValueV,
};

verus! {

pub open spec fn zero_interval() -> Interval {
    Interval { line: 0, column: 0 }
}

/// A computed value, tagged with the name of its type.
pub open spec fn lit_of(v: ValueV) -> LitV {
    LitV { content_type: type_text(v), value: v, interval: zero_interval() }
}

/// The value of a variable: step variables shadow the memory, and a name
/// bound nowhere reads as null.
pub open spec fn var_spec(d: DataV, name: Seq<char>) -> LitV {
    match lookup_spec(d.step_vars, name) {
        Some(l) => l,
        None => match lookup_spec(d.current, name) {
            Some(l) => l,
            None => lit_of(ValueV::Null),
        },
    }
}

/// A field of the inbound event; null where it is absent.
pub open spec fn event_spec(d: DataV, key: Seq<char>) -> LitV {
    match lookup_spec(d.event, key) {
        Some(l) => l,
        None => lit_of(ValueV::Null),
    }
}

/// A condition's outcome: an error counts as false.
pub open spec fn valid_spec(r: Result<LitV, ErrorKind>) -> bool {
    match r {
        Ok(l) => truthy(l.value),
        Err(_) => false,
    }
}

pub open spec fn cmp_holds(op: Infix, o: Option<core::cmp::Ordering>) -> bool {
    match o {
        Some(core::cmp::Ordering::Less) => op == Infix::LessThan || op == Infix::LessThanEqual,
        Some(core::cmp::Ordering::Equal) => op == Infix::GreaterThanEqual || op == Infix::LessThanEqual,
        Some(core::cmp::Ordering::Greater) => op == Infix::GreaterThan || op == Infix::GreaterThanEqual,
        None => false,
    }
}

/// The value of `r1 op r2` from the values of the operands.
pub open spec fn infix_spec(op: Infix, r1: Result<LitV, ErrorKind>, r2: Result<LitV, ErrorKind>) -> Result<LitV, ErrorKind> {
    match op {
        Infix::Not => Ok(lit_of(ValueV::Boolean(!valid_spec(r1)))),
        Infix::And => Ok(lit_of(ValueV::Boolean(valid_spec(r1) && valid_spec(r2)))),
        Infix::Or => Ok(lit_of(ValueV::Boolean(valid_spec(r1) || valid_spec(r2)))),
        _ => match (r1, r2) {
            (Err(e), _) => Err(e),
            (_, Err(e)) => Err(e),
            (Ok(a), Ok(b)) => match op {
                Infix::Equal => Ok(lit_of(ValueV::Boolean(a.value == b.value))),
                Infix::NotEqual => Ok(lit_of(ValueV::Boolean(a.value != b.value))),
                Infix::Arith(o) => match arith_spec(o, a.value, b.value) {
                    Ok(v) => Ok(lit_of(v)),
                    Err(e) => Err(e),
                },
                _ => Ok(lit_of(ValueV::Boolean(cmp_holds(op, compare_spec(a.value, b.value))))),
            },
        },
    }
}

/// The value of an expression in a state.
pub open spec fn eval_spec(e: Expr, d: DataV) -> Result<LitV, ErrorKind>
    decreases e,
{
    match e {
        Expr::LitExpr(l) => Ok(l@),
        Expr::IdentExpr(n) => Ok(var_spec(d, n@)),
        Expr::EventPath(k) => Ok(event_spec(d, k@)),
        Expr::InfixExpr(op, a, b) => infix_spec(op, eval_spec(*a, d), eval_spec(*b, d)),
        Expr::MethodExpr(a, name) => match eval_spec(*a, d) {
            Ok(l) => match method_spec(l.value, name@) {
                Ok(v) => Ok(lit_of(v)),
                Err(k) => Err(k),
            },
            Err(k) => Err(k),
        },
        Expr::PathExpr(a, key) => match eval_spec(*a, d) {
            Ok(l) => match l.value {
                ValueV::Object(fields) => Ok(lit_of(
                    match field_spec(fields, key@) {
                        Some(v) => v,
                        None => ValueV::Null,
                    },
                )),
                _ => Err(ErrorKind::IllegalOperation),
            },
            Err(k) => Err(k),
        },
        Expr::IndexExpr(a, i) => match eval_spec(*a, d) {
            Ok(l) => match l.value {
                ValueV::Array(items) => Ok(lit_of(if i < items.len() { items[i as int] } else { ValueV::Null })),
                _ => Err(ErrorKind::IllegalOperation),
            },
            Err(k) => Err(k),
        },
    }
}

pub open spec fn lit_res_v(r: Result<Literal, ErrorInfo>) -> Result<LitV, ErrorKind> {
    match r {
        Ok(l) => Ok(l@),
        Err(e) => Err(e.kind),
    }
}

// ---------------------------------------------------------------------------
// Evaluation
// ---------------------------------------------------------------------------

pub(crate) fn error_at(kind: ErrorKind) -> (r: ErrorInfo)
    ensures
        r.kind == kind,
{
    ErrorInfo { kind, interval: Interval::new(0, 0) }
}

pub(crate) fn make_lit(v: Value) -> (r: Literal)
    ensures
        r@ == lit_of(v@),
{
    Literal { content_type: v.type_of(), primitive: v, interval: Interval::new(0, 0) }
}

/// The value of a variable, or null.
pub fn get_var(name: &String, data: &Data) -> (r: Literal)
    ensures
        r@ == var_spec(data@, name@),
{
    match lookup_memory(&data.step_vars, name) {
        Some(l) => l,
        None => match lookup_memory(&data.context.current, name) {
            Some(l) => l,
            None => make_lit(Value::Null),
        },
    }
}

fn valid_literal(result: &Result<Literal, ErrorInfo>) -> (r: bool)
    ensures
        r == valid_spec(lit_res_v(*result)),
{
    match result {
        Ok(literal) => literal.primitive.as_bool(),
        Err(_) => false,
    }
}

fn solve_infix(op: Infix, r1: Result<Literal, ErrorInfo>, r2: Result<Literal, ErrorInfo>) -> (r: Result<Literal, ErrorInfo>)
    ensures
        lit_res_v(r) == infix_spec(op, lit_res_v(r1), lit_res_v(r2)),
{
    match op {
        Infix::Not => Ok(make_lit(Value::Boolean(!valid_literal(&r1)))),
        Infix::And => {
            let a = valid_literal(&r1);
            let b = valid_literal(&r2);
            Ok(make_lit(Value::Boolean(a && b)))
        },
        Infix::Or => {
            let a = valid_literal(&r1);
            let b = valid_literal(&r2);
            Ok(make_lit(Value::Boolean(a || b)))
        },
        _ => {
            let a = match r1 {
                Ok(a) => a,
                Err(e) => return Err(e),
            };
            let b = match r2 {
                Ok(b) => b,
                Err(e) => return Err(e),
            };
            match op {
                Infix::Equal => Ok(make_lit(Value::Boolean(a.primitive.equals(&b.primitive)))),
                Infix::NotEqual => Ok(make_lit(Value::Boolean(!a.primitive.equals(&b.primitive)))),
                Infix::Arith(o) => match a.primitive.arith(o, &b.primitive) {
                    Ok(v) => Ok(make_lit(v)),
                    Err(k) => Err(error_at(k)),
                },
                _ => {
                    let holds = match a.primitive.compare(&b.primitive) {
                        Some(core::cmp::Ordering::Less) => op == Infix::LessThan || op == Infix::LessThanEqual,
                        Some(core::cmp::Ordering::Equal) => op == Infix::GreaterThanEqual || op == Infix::LessThanEqual,
                        Some(core::cmp::Ordering::Greater) => op == Infix::GreaterThan || op == Infix::GreaterThanEqual,
                        None => false,
                    };
                    Ok(make_lit(Value::Boolean(holds)))
                },
            }
        },
    }
}

/// Evaluates an expression in the current state.
pub fn expr_to_literal(expr: &Expr, data: &Data) -> (r: Result<Literal, ErrorInfo>)
    ensures
        lit_res_v(r) == eval_spec(*expr, data@),
    decreases expr,
{
    match expr {
        Expr::LitExpr(l) => Ok(l.duplicate()),
        Expr::IdentExpr(n) => Ok(get_var(n, data)),
        Expr::EventPath(k) => match lookup_memory(&data.event, k) {
            Some(l) => Ok(l),
            None => Ok(make_lit(Value::Null)),
        },
        Expr::InfixExpr(op, a, b) => {
            let r1 = expr_to_literal(a, data);
            let r2 = expr_to_literal(b, data);
            solve_infix(*op, r1, r2)
        },
        Expr::MethodExpr(a, name) => {
            let l = expr_to_literal(a, data)?;
            match l.primitive.dispatch(name, 0) {
                Ok((v, _)) => Ok(make_lit(v)),
                Err(k) => Err(error_at(k)),
            }
        },
        Expr::PathExpr(a, key) => {
            let l = expr_to_literal(a, data)?;
            match &l.primitive {
                Value::Object(fields) => {
                    proof { crate::value::lemma_fields_v(fields@, fields@.len() as int); }
                    match crate::value::get_field(fields, key) {
                        Some(v) => Ok(make_lit(v)),
                        None => Ok(make_lit(Value::Null)),
                    }
                },
                _ => Err(error_at(ErrorKind::IllegalOperation)),
            }
        },
        Expr::IndexExpr(a, i) => {
            let l = expr_to_literal(a, data)?;
            match &l.primitive {
                Value::Array(items) => {
                    proof { crate::value::lemma_values_v(items@, items@.len() as int); }
                    if *i < items.len() {
                        Ok(make_lit(items[*i].duplicate()))
                    } else {
                        Ok(make_lit(Value::Null))
                    }
                },
                _ => Err(error_at(ErrorKind::IllegalOperation)),
            }
        },
    }
}

/// Evaluates `expr1 infix expr2` as a condition does.
pub fn evaluate_condition(infix: &Infix, expr1: &Expr, expr2: &Expr, data: &Data) -> (r: Result<Literal, ErrorInfo>)
    ensures
        lit_res_v(r) == infix_spec(*infix, eval_spec(*expr1, data@), eval_spec(*expr2, data@)),
{
    let r1 = expr_to_literal(expr1, data);
    let r2 = expr_to_literal(expr2, data);
    solve_infix(*infix, r1, r2)
}

/// Whether a condition holds; one whose evaluation fails does not.
pub fn valid_condition(expr: &Expr, data: &Data) -> (r: bool)
    ensures
        r == valid_spec(eval_spec(*expr, data@)),
{
    let res = expr_to_literal(expr, data);
    valid_literal(&res)
}

} // verus!
