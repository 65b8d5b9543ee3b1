//! The tree-walking evaluator.  It executes statements in sequence,
//! short-circuiting on the first error, and reduces expressions to
//! runtime values against the binding environment and the builtins.
//!
//! The meaning of every construct is written down once, as the big-step
//! evaluation rule `eval_stmt`/`eval_expr` below; each evaluator
//! function is proved to produce exactly the state and result of that
//! rule wherever the rule is defined.  The rule is partial in one
//! place only: past the first read of interactive input (`readln`) no
//! rule can fix the outcome, and only the scope-discipline laws below
//! still constrain the run.
//!
//! `return` is propagated as an explicit outcome: a block stops at the
//! first statement whose outcome is `Returned`, and a function call
//! unwraps the outcome into the call's result value.
//!
//! Every recursive descent is bounded by a call-depth budget; a call
//! that would exceed it fails with `DepthExceeded` instead of
//! overflowing the stack.

use crate::common::ast::{
    ArrayExpression, AssignmentStatement, BinaryExpression, BlockExpression, CallExpression,
    ElseBlock, Expression, FunctionStatement, GroupExpression, IdentifierExpression, IfExpression,
    LetStatement, Program, Statement, UnaryExpression,
};
use crate::common::error::{Error, ErrorKind, ErrorKindV, ErrorV, OperandFault};
use crate::common::number::{
    add_numbers, div_numbers, ieee_add, ieee_div, ieee_le, ieee_lt, ieee_mul, ieee_rem, ieee_sub,
    le_numbers, lt_numbers, mul_numbers, rem_numbers, sub_numbers,
};
use crate::common::object::{clone_object, is_truthy, object_equals, values_equal, Object, Value};
use crate::common::position::PositionV;
use crate::common::token::{Token, TokenType, TokenV};
use crate::runtime::builtin::{
    builtin_name, builtin_of_name, builtin_params, builtin_table, pure_builtin_result, Builtin,
};
use crate::runtime::environment::{assigned, lookup, FunctionBindings, Frames, VariableBindings};
use vstd::prelude::*;

verus! {

/// The bit pattern of the IEEE-754 double `-1.0`; numeric negation is
/// multiplication by it.
pub const NEG_ONE_BITS: u64 = 0xBFF0_0000_0000_0000;

/// How many nested function calls the evaluator allows.  Each level
/// costs several machine stack frames, so the budget is sized to stay
/// well inside a default 8 MiB thread stack.
pub const CALL_DEPTH_LIMIT: u64 = 1024;

/// How a statement or expression finished: with a plain value, or with
/// a value produced by `return` that must unwind the enclosing blocks.
pub enum Outcome {
    Completed(Object),
    Returned(Object),
}

/// The mathematical model of an [`Outcome`].
pub enum OutcomeV {
    Completed(Value),
    Returned(Value),
}

impl View for Outcome {
    type V = OutcomeV;

    open spec fn view(&self) -> OutcomeV {
        match self {
            Outcome::Completed(o) => OutcomeV::Completed(o@),
            Outcome::Returned(o) => OutcomeV::Returned(o@),
        }
    }
}

/// The value an outcome carries.
pub open spec fn outcome_value(o: OutcomeV) -> Value {
    match o {
        OutcomeV::Completed(v) => v,
        OutcomeV::Returned(v) => v,
    }
}

impl Outcome {
    /// The carried value, dropping the control-flow mark.
    pub fn into_value(self) -> (r: Object)
        ensures
            r@ == outcome_value(self@),
    {
        match self {
            Outcome::Completed(o) => o,
            Outcome::Returned(o) => o,
        }
    }

    /// Whether this outcome came from `return`.
    pub fn is_returned(&self) -> (r: bool)
        ensures
            r == (self@ matches OutcomeV::Returned(_)),
    {
        match self {
            Outcome::Returned(_) => true,
            Outcome::Completed(_) => false,
        }
    }
}

/// Evaluating an expression preserves every scope frame's domain: a
/// `let` inside a block never leaks a binding into any surviving
/// frame; only values already bound may change (through assignment).
pub open spec fn doms_preserved(pre: Frames, post: Frames) -> bool {
    &&& post.len() == pre.len()
    &&& forall|i: int| 0 <= i < pre.len() ==> (#[trigger] post[i]).dom() == pre[i].dom()
}

/// Executing a statement can add bindings only to the innermost frame;
/// the frame count and the domains of all enclosing frames survive.
pub open spec fn top_extended(pre: Frames, post: Frames) -> bool {
    &&& post.len() == pre.len()
    &&& (forall|i: int| 0 <= i < pre.len() - 1 ==> (#[trigger] post[i]).dom() == pre[i].dom())
    &&& (pre.len() >= 1 ==> pre.last().dom() <= post.last().dom())
}

/// The value a literal expression's token yields.
pub open spec fn literal_value(t: TokenV) -> Value {
    match t.literal {
        Some(v) => v,
        None => Value::Nil,
    }
}

/// The declared parameter names of a function.
pub open spec fn param_names(ps: Seq<crate::common::ast::ParameterV>) -> Seq<Seq<char>> {
    Seq::new(
        ps.len(),
        |i: int|
            if 0 <= i < ps.len() {
                ps[i].identifier.lexeme
            } else {
                Seq::empty()
            },
    )
}

/// A type-mismatch error for `operator` at its own position.
pub open spec fn mismatch(lexeme: Seq<char>, fault: OperandFault) -> ErrorKindV {
    ErrorKindV::TypeMismatch { operator: lexeme, fault }
}

/// The result of a binary operator on two evaluated operands.
/// `and`/`or` combine truthiness without short-circuit; equality is
/// structural and never fails; arithmetic and ordering need numbers
/// of matching types, except that two strings concatenate under `+`
/// and under the four ordering operators alike.
pub open spec fn binary_result(op: TokenType, lexeme: Seq<char>, l: Value, r: Value) -> Result<
    Value,
    ErrorKindV,
> {
    match op {
        TokenType::And => Ok(Value::Boolean(is_truthy(l) && is_truthy(r))),
        TokenType::Or => Ok(Value::Boolean(is_truthy(l) || is_truthy(r))),
        TokenType::EqualEqual => Ok(Value::Boolean(values_equal(l, r))),
        TokenType::NotEqual => Ok(Value::Boolean(!values_equal(l, r))),
        TokenType::Greater => match (l, r) {
            (Value::Number(x), Value::Number(y)) => Ok(Value::Boolean(ieee_lt(y, x))),
            (Value::Boolean(_), Value::Boolean(_)) => Err(
                mismatch(lexeme, OperandFault::BooleanOperand),
            ),
            (Value::Str(x), Value::Str(y)) => Ok(Value::Str(x + y)),
            (Value::Nil, Value::Nil) => Err(mismatch(lexeme, OperandFault::NilOperand)),
            _ => Err(mismatch(lexeme, OperandFault::MixedOperands)),
        },
        TokenType::GreaterEqual => match (l, r) {
            (Value::Number(x), Value::Number(y)) => Ok(Value::Boolean(ieee_le(y, x))),
            (Value::Boolean(_), Value::Boolean(_)) => Err(
                mismatch(lexeme, OperandFault::BooleanOperand),
            ),
            (Value::Str(x), Value::Str(y)) => Ok(Value::Str(x + y)),
            (Value::Nil, Value::Nil) => Err(mismatch(lexeme, OperandFault::NilOperand)),
            _ => Err(mismatch(lexeme, OperandFault::MixedOperands)),
        },
        TokenType::Less => match (l, r) {
            (Value::Number(x), Value::Number(y)) => Ok(Value::Boolean(ieee_lt(x, y))),
            (Value::Boolean(_), Value::Boolean(_)) => Err(
                mismatch(lexeme, OperandFault::BooleanOperand),
            ),
            (Value::Str(x), Value::Str(y)) => Ok(Value::Str(x + y)),
            (Value::Nil, Value::Nil) => Err(mismatch(lexeme, OperandFault::NilOperand)),
            _ => Err(mismatch(lexeme, OperandFault::MixedOperands)),
        },
        TokenType::LessEqual => match (l, r) {
            (Value::Number(x), Value::Number(y)) => Ok(Value::Boolean(ieee_le(x, y))),
            (Value::Boolean(_), Value::Boolean(_)) => Err(
                mismatch(lexeme, OperandFault::BooleanOperand),
            ),
            (Value::Str(x), Value::Str(y)) => Ok(Value::Str(x + y)),
            (Value::Nil, Value::Nil) => Err(mismatch(lexeme, OperandFault::NilOperand)),
            _ => Err(mismatch(lexeme, OperandFault::MixedOperands)),
        },
        TokenType::Plus => match (l, r) {
            (Value::Number(x), Value::Number(y)) => Ok(Value::Number(ieee_add(x, y))),
            (Value::Boolean(_), Value::Boolean(_)) => Err(
                mismatch(lexeme, OperandFault::BooleanOperand),
            ),
            (Value::Str(x), Value::Str(y)) => Ok(Value::Str(x + y)),
            (Value::Nil, Value::Nil) => Err(mismatch(lexeme, OperandFault::NilOperand)),
            _ => Err(mismatch(lexeme, OperandFault::MixedOperands)),
        },
        TokenType::Minus => match (l, r) {
            (Value::Number(x), Value::Number(y)) => Ok(Value::Number(ieee_sub(x, y))),
            (Value::Boolean(_), Value::Boolean(_)) => Err(
                mismatch(lexeme, OperandFault::BooleanOperand),
            ),
            (Value::Str(_), Value::Str(_)) => Err(mismatch(lexeme, OperandFault::StringOperand)),
            (Value::Nil, Value::Nil) => Err(mismatch(lexeme, OperandFault::NilOperand)),
            _ => Err(mismatch(lexeme, OperandFault::MixedOperands)),
        },
        TokenType::Star => match (l, r) {
            (Value::Number(x), Value::Number(y)) => Ok(Value::Number(ieee_mul(x, y))),
            (Value::Boolean(_), Value::Boolean(_)) => Err(
                mismatch(lexeme, OperandFault::BooleanOperand),
            ),
            (Value::Str(_), Value::Str(_)) => Err(mismatch(lexeme, OperandFault::StringOperand)),
            (Value::Nil, Value::Nil) => Err(mismatch(lexeme, OperandFault::NilOperand)),
            _ => Err(mismatch(lexeme, OperandFault::MixedOperands)),
        },
        TokenType::Slash => match (l, r) {
            (Value::Number(x), Value::Number(y)) => Ok(Value::Number(ieee_div(x, y))),
            (Value::Boolean(_), Value::Boolean(_)) => Err(
                mismatch(lexeme, OperandFault::BooleanOperand),
            ),
            (Value::Str(_), Value::Str(_)) => Err(mismatch(lexeme, OperandFault::StringOperand)),
            (Value::Nil, Value::Nil) => Err(mismatch(lexeme, OperandFault::NilOperand)),
            _ => Err(mismatch(lexeme, OperandFault::MixedOperands)),
        },
        TokenType::Modulo => match (l, r) {
            (Value::Number(x), Value::Number(y)) => Ok(Value::Number(ieee_rem(x, y))),
            (Value::Str(_), Value::Str(_)) => Err(mismatch(lexeme, OperandFault::StringOperand)),
            (Value::Nil, Value::Nil) => Err(mismatch(lexeme, OperandFault::NilOperand)),
            _ => Err(mismatch(lexeme, OperandFault::MixedOperands)),
        },
        _ => Err(ErrorKindV::UnknownOperator(lexeme)),
    }
}

/// The result of a unary operator on an evaluated operand: `not`
/// inverts truthiness for any operand; negation needs a number.
pub open spec fn unary_result(op: TokenType, lexeme: Seq<char>, v: Value) -> Result<
    Value,
    ErrorKindV,
> {
    match op {
        TokenType::Not => Ok(Value::Boolean(!is_truthy(v))),
        TokenType::Minus => match v {
            Value::Number(x) => Ok(Value::Number(ieee_mul(x, NEG_ONE_BITS))),
            Value::Boolean(_) => Err(mismatch(lexeme, OperandFault::BooleanOperand)),
            Value::Str(_) => Err(mismatch(lexeme, OperandFault::StringOperand)),
            Value::Nil => Err(mismatch(lexeme, OperandFault::NilOperand)),
            Value::Array(_) => Err(mismatch(lexeme, OperandFault::ArrayOperand)),
        },
        _ => Err(ErrorKindV::UnknownOperator(lexeme)),
    }
}

/// The function table: function name to declaration model.
pub type FunctionTable = Map<Seq<char>, crate::common::ast::FunctionStatementV>;

/// An undefined-identifier error value.
pub open spec fn undefined_at(name: Seq<char>, position: PositionV) -> ErrorV {
    ErrorV { kind: ErrorKindV::UndefinedIdentifier(name), position }
}

// The big-step evaluation rule.  Each function gives the configuration
// (scope stack, function table) and the result after evaluating one
// node with a given call-depth budget, or `None` past the first read
// of interactive input, whose outcome no rule can fix.  The executable
// evaluator is proved to follow this rule wherever it is `Some`.

/// Execute one statement.
pub open spec fn eval_stmt(vs: Frames, fs: FunctionTable, s: Statement, fuel: u64) -> Option<
    (Frames, FunctionTable, Result<OutcomeV, ErrorV>),
>
    decreases fuel, s,
{
    match s {
        Statement::Let(ls) => eval_let(vs, fs, ls, fuel),
        Statement::Assignment(st) => eval_assign(vs, fs, st, fuel),
        Statement::Function(f) => Some(
            (vs, fs.insert(f.identifier@.lexeme, f@), Ok(OutcomeV::Completed(Value::Nil))),
        ),
        Statement::Return(e) => match eval_expr(vs, fs, e, fuel) {
            None => None,
            Some((vs1, fs1, Err(er))) => Some((vs1, fs1, Err(er))),
            Some((vs1, fs1, Ok(out))) => Some(
                (vs1, fs1, Ok(OutcomeV::Returned(outcome_value(out)))),
            ),
        },
        Statement::Expression(e) => eval_expr(vs, fs, e, fuel),
    }
}

/// Evaluate the initializer, then bind the name in the current scope.
pub open spec fn eval_let(vs: Frames, fs: FunctionTable, ls: LetStatement, fuel: u64) -> Option<
    (Frames, FunctionTable, Result<OutcomeV, ErrorV>),
>
    decreases fuel, ls,
{
    match eval_expr(vs, fs, ls.expression, fuel) {
        None => None,
        Some((vs1, fs1, Err(er))) => Some((vs1, fs1, Err(er))),
        Some((vs1, fs1, Ok(out))) => Some(
            (
                vs1.update(
                    vs1.len() - 1,
                    vs1.last().insert(ls.identifier@.lexeme, outcome_value(out)),
                ),
                fs1,
                Ok(out),
            ),
        ),
    }
}

/// Require the name to be bound, evaluate the right-hand side, then
/// overwrite the binding in the scope that owns the name.
pub open spec fn eval_assign(
    vs: Frames,
    fs: FunctionTable,
    st: AssignmentStatement,
    fuel: u64,
) -> Option<(Frames, FunctionTable, Result<OutcomeV, ErrorV>)>
    decreases fuel, st,
{
    let name = st.identifier@.lexeme;
    if lookup(vs, name) is None {
        Some((vs, fs, Err(undefined_at(name, st.identifier@.position))))
    } else {
        match eval_expr(vs, fs, st.expression, fuel) {
            None => None,
            Some((vs1, fs1, Err(er))) => Some((vs1, fs1, Err(er))),
            Some((vs1, fs1, Ok(out))) => match assigned(vs1, name, outcome_value(out)) {
                Some(vs2) => Some((vs2, fs1, Ok(out))),
                None => Some((vs1, fs1, Err(undefined_at(name, st.identifier@.position)))),
            },
        }
    }
}

/// Evaluate one expression.
pub open spec fn eval_expr(vs: Frames, fs: FunctionTable, e: Expression, fuel: u64) -> Option<
    (Frames, FunctionTable, Result<OutcomeV, ErrorV>),
>
    decreases fuel, e,
{
    match e {
        Expression::Binary(be) => eval_binary(vs, fs, be, fuel),
        Expression::Unary(ue) => eval_unary(vs, fs, ue, fuel),
        Expression::Group(g) => eval_expr(vs, fs, *g.child, fuel),
        Expression::Identifier(ie) => Some(
            (
                vs,
                fs,
                match lookup(vs, ie.identifier@.lexeme) {
                    Some(v) => Ok(OutcomeV::Completed(v)),
                    None => Err(undefined_at(ie.identifier@.lexeme, ie.identifier@.position)),
                },
            ),
        ),
        Expression::Literal(le) => Some(
            (vs, fs, Ok(OutcomeV::Completed(literal_value(le.object@)))),
        ),
        Expression::Array(xe) => Some(
            (
                vs,
                fs,
                match array_items(crate::common::ast::tokens_view(xe.objects@), vs) {
                    Ok(items) => Ok(OutcomeV::Completed(Value::Array(items))),
                    Err(t) => Err(undefined_at(t.lexeme, t.position)),
                },
            ),
        ),
        Expression::Block(b) => eval_block(vs, fs, b, fuel),
        Expression::If(x) => eval_if(vs, fs, x, fuel),
        Expression::Call(ce) => eval_call(vs, fs, ce, fuel),
    }
}

/// Evaluate left then right eagerly, then apply the operator at its
/// own position.
pub open spec fn eval_binary(
    vs: Frames,
    fs: FunctionTable,
    be: BinaryExpression,
    fuel: u64,
) -> Option<(Frames, FunctionTable, Result<OutcomeV, ErrorV>)>
    decreases fuel, be,
{
    match eval_expr(vs, fs, *be.left, fuel) {
        None => None,
        Some((vs1, fs1, Err(er))) => Some((vs1, fs1, Err(er))),
        Some((vs1, fs1, Ok(lo))) => match eval_expr(vs1, fs1, *be.right, fuel) {
            None => None,
            Some((vs2, fs2, Err(er))) => Some((vs2, fs2, Err(er))),
            Some((vs2, fs2, Ok(ro))) => Some(
                (
                    vs2,
                    fs2,
                    match binary_result(
                        be.operator@.ttype,
                        be.operator@.lexeme,
                        outcome_value(lo),
                        outcome_value(ro),
                    ) {
                        Ok(v) => Ok(OutcomeV::Completed(v)),
                        Err(k) => Err(ErrorV { kind: k, position: be.operator@.position }),
                    },
                ),
            ),
        },
    }
}

/// Evaluate the operand, then apply the operator at its own position.
pub open spec fn eval_unary(
    vs: Frames,
    fs: FunctionTable,
    ue: UnaryExpression,
    fuel: u64,
) -> Option<(Frames, FunctionTable, Result<OutcomeV, ErrorV>)>
    decreases fuel, ue,
{
    match eval_expr(vs, fs, *ue.right, fuel) {
        None => None,
        Some((vs1, fs1, Err(er))) => Some((vs1, fs1, Err(er))),
        Some((vs1, fs1, Ok(vo))) => Some(
            (
                vs1,
                fs1,
                match unary_result(ue.operator@.ttype, ue.operator@.lexeme, outcome_value(vo)) {
                    Ok(v) => Ok(OutcomeV::Completed(v)),
                    Err(k) => Err(ErrorV { kind: k, position: ue.operator@.position }),
                },
            ),
        ),
    }
}

/// Evaluate the condition; truthy takes the `if` block, falsy the
/// `else` branch or nil without one.
pub open spec fn eval_if(vs: Frames, fs: FunctionTable, x: IfExpression, fuel: u64) -> Option<
    (Frames, FunctionTable, Result<OutcomeV, ErrorV>),
>
    decreases fuel, x,
{
    match eval_expr(vs, fs, *x.condition, fuel) {
        None => None,
        Some((vs1, fs1, Err(er))) => Some((vs1, fs1, Err(er))),
        Some((vs1, fs1, Ok(c))) => if is_truthy(outcome_value(c)) {
            eval_block(vs1, fs1, x.if_block, fuel)
        } else {
            match *x.else_block {
                Some(ElseBlock::Block(b)) => eval_block(vs1, fs1, b, fuel),
                Some(ElseBlock::If(nested)) => eval_if(vs1, fs1, nested, fuel),
                None => Some((vs1, fs1, Ok(OutcomeV::Completed(Value::Nil)))),
            }
        },
    }
}

/// Run a block's statements in a fresh scope, discarded afterwards.
pub open spec fn eval_block(vs: Frames, fs: FunctionTable, b: BlockExpression, fuel: u64) -> Option<
    (Frames, FunctionTable, Result<OutcomeV, ErrorV>),
>
    decreases fuel, b,
{
    match eval_stmts(
        vs.push(Map::empty()),
        fs,
        b.statements@,
        fuel,
        OutcomeV::Completed(Value::Nil),
    ) {
        None => None,
        Some((vs1, fs1, res)) => Some((vs1.drop_last(), fs1, res)),
    }
}

/// Run statements in order; the result is the last statement's
/// outcome (`cur` before any ran), stopping at the first `Returned`
/// outcome or error.
pub open spec fn eval_stmts(
    vs: Frames,
    fs: FunctionTable,
    stmts: Seq<Statement>,
    fuel: u64,
    cur: OutcomeV,
) -> Option<(Frames, FunctionTable, Result<OutcomeV, ErrorV>)>
    decreases fuel, stmts,
{
    if stmts.len() == 0 {
        Some((vs, fs, Ok(cur)))
    } else {
        match eval_stmt(vs, fs, stmts[0], fuel) {
            None => None,
            Some((vs1, fs1, Err(er))) => Some((vs1, fs1, Err(er))),
            Some((vs1, fs1, Ok(out))) => if out matches OutcomeV::Returned(_) {
                Some((vs1, fs1, Ok(out)))
            } else {
                eval_stmts(vs1, fs1, stmts.drop_first(), fuel, out)
            },
        }
    }
}

/// Resolve the callee, check the arity exactly, then run the call.
pub open spec fn eval_call(vs: Frames, fs: FunctionTable, ce: CallExpression, fuel: u64) -> Option<
    (Frames, FunctionTable, Result<OutcomeV, ErrorV>),
>
    decreases fuel, ce,
{
    let name = ce.identifier@.lexeme;
    if !fs.contains_key(name) {
        Some((vs, fs, Err(undefined_at(name, ce.identifier@.position))))
    } else {
        let f = fs[name];
        let expected = f.parameters.len();
        let got = ce.arguments@.len();
        if got < expected {
            Some(
                (
                    vs,
                    fs,
                    Err(
                        ErrorV {
                            kind: ErrorKindV::ArityTooFew {
                                expected: expected as usize,
                                got: got as usize,
                                missing: param_names(f.parameters).skip(got as int),
                            },
                            position: ce.identifier@.position,
                        },
                    ),
                ),
            )
        } else if got > expected {
            Some(
                (
                    vs,
                    fs,
                    Err(
                        ErrorV {
                            kind: ErrorKindV::ArityTooMany {
                                expected: expected as usize,
                                got: got as usize,
                            },
                            position: ce.identifier@.position,
                        },
                    ),
                ),
            )
        } else {
            eval_invoke(vs, fs, ce.arguments@, f, fuel)
        }
    }
}

/// Run a call with matching arity: consume one unit of depth budget,
/// evaluate the arguments left to right, bind the parameters in a
/// fresh scope, then run the body, or the builtin of the callee's
/// name when there is none; the scope is discarded and a `return`
/// from the body becomes the call's plain result.
pub open spec fn eval_invoke(
    vs: Frames,
    fs: FunctionTable,
    arguments: Seq<Expression>,
    f: crate::common::ast::FunctionStatementV,
    fuel: u64,
) -> Option<(Frames, FunctionTable, Result<OutcomeV, ErrorV>)>
    decreases fuel, arguments,
{
    if fuel == 0 {
        Some(
            (
                vs,
                fs,
                Err(ErrorV { kind: ErrorKindV::DepthExceeded, position: f.identifier.position }),
            ),
        )
    } else {
        match eval_args(vs, fs, arguments, (fuel - 1) as u64, Seq::empty()) {
            None => None,
            Some((vs1, fs1, Err(er))) => Some((vs1, fs1, Err(er))),
            Some((vs1, fs1, Ok(vals))) => {
                let bound = vs1.push(params_frame(f.parameters, vals, f.parameters.len() as int));
                match f.block {
                    Some(b) => match eval_block(bound, fs1, b, (fuel - 1) as u64) {
                        None => None,
                        Some((vs2, fs2, Err(er))) => Some((vs2.drop_last(), fs2, Err(er))),
                        Some((vs2, fs2, Ok(out))) => Some(
                            (vs2.drop_last(), fs2, Ok(OutcomeV::Completed(outcome_value(out)))),
                        ),
                    },
                    None => match builtin_of_name(f.identifier.lexeme) {
                        None => Some(
                            (
                                vs1,
                                fs1,
                                Err(
                                    ErrorV {
                                        kind: ErrorKindV::UnknownBuiltin(f.identifier.lexeme),
                                        position: f.identifier.position,
                                    },
                                ),
                            ),
                        ),
                        Some(bi) => if vals.len() != builtin_params(bi).len() {
                            Some(
                                (
                                    vs1,
                                    fs1,
                                    Err(
                                        ErrorV {
                                            kind: ErrorKindV::UnsupportedArgument(
                                                builtin_name(bi),
                                            ),
                                            position: f.identifier.position,
                                        },
                                    ),
                                ),
                            )
                        } else if bi == Builtin::Readln {
                            None
                        } else {
                            match pure_builtin_result(bi, vals) {
                                Ok(v) => Some((vs1, fs1, Ok(OutcomeV::Completed(v)))),
                                Err(k) => Some(
                                    (
                                        vs1,
                                        fs1,
                                        Err(ErrorV { kind: k, position: f.identifier.position }),
                                    ),
                                ),
                            }
                        },
                    },
                }
            },
        }
    }
}

/// Evaluate call arguments left to right, collecting their values
/// after `acc`.
pub open spec fn eval_args(
    vs: Frames,
    fs: FunctionTable,
    args: Seq<Expression>,
    fuel: u64,
    acc: Seq<Value>,
) -> Option<(Frames, FunctionTable, Result<Seq<Value>, ErrorV>)>
    decreases fuel, args,
{
    if args.len() == 0 {
        Some((vs, fs, Ok(acc)))
    } else {
        match eval_expr(vs, fs, args[0], fuel) {
            None => None,
            Some((vs1, fs1, Err(er))) => Some((vs1, fs1, Err(er))),
            Some((vs1, fs1, Ok(out))) => eval_args(
                vs1,
                fs1,
                args.drop_first(),
                fuel,
                acc.push(outcome_value(out)),
            ),
        }
    }
}

/// The scope frame that binds the first `n` parameters to their
/// argument values, left to right, a later duplicate shadowing an
/// earlier one.
pub open spec fn params_frame(
    ps: Seq<crate::common::ast::ParameterV>,
    vals: Seq<Value>,
    n: int,
) -> Map<Seq<char>, Value>
    decreases n,
{
    if n <= 0 {
        Map::empty()
    } else {
        params_frame(ps, vals, n - 1).insert(ps[n - 1].identifier.lexeme, vals[n - 1])
    }
}

/// Run a whole program: each top-level statement in order with a full
/// depth budget, stopping at the first error.
pub open spec fn run_program(vs: Frames, fs: FunctionTable, stmts: Seq<Statement>) -> Option<
    (Frames, FunctionTable, Result<(), ErrorV>),
>
    decreases stmts.len(),
{
    if stmts.len() == 0 {
        Some((vs, fs, Ok(())))
    } else {
        match eval_stmt(vs, fs, stmts[0], CALL_DEPTH_LIMIT) {
            None => None,
            Some((vs1, fs1, Err(er))) => Some((vs1, fs1, Err(er))),
            Some((vs1, fs1, Ok(_))) => run_program(vs1, fs1, stmts.drop_first()),
        }
    }
}

/// Whether an executable result is the one the evaluation rule gives.
pub open spec fn reflects(r: Result<Outcome, Error>, s: Result<OutcomeV, ErrorV>) -> bool {
    match s {
        Ok(o) => r matches Ok(x) && x@ == o,
        Err(e) => r matches Err(x) && x@ == e,
    }
}

/// A type-mismatch error value for `operator` at its position.
fn type_mismatch(operator: &Token, fault: OperandFault) -> (e: Error)
    ensures
        e@.kind == mismatch(operator@.lexeme, fault),
        e@.position == operator@.position,
{
    Error::new(
        ErrorKind::TypeMismatch { operator: operator.lexeme.clone(), fault },
        operator.position.clone(),
    )
}

/// Apply a binary operator to two evaluated operands.
pub fn apply_binary(operator: &Token, left: &Object, right: &Object) -> (r: Result<Object, Error>)
    ensures
        match binary_result(operator@.ttype, operator@.lexeme, left@, right@) {
            Ok(v) => r matches Ok(o) && o@ == v,
            Err(k) => r matches Err(e) && e@.kind == k && e@.position == operator@.position,
        },
{
    match operator.ttype {
        TokenType::And => Ok(Object::Boolean(left.is_true() && right.is_true())),
        TokenType::Or => Ok(Object::Boolean(left.is_true() || right.is_true())),
        TokenType::EqualEqual => Ok(Object::Boolean(object_equals(left, right))),
        TokenType::NotEqual => Ok(Object::Boolean(!object_equals(left, right))),
        TokenType::Greater => apply_ordering(operator, left, right),
        TokenType::GreaterEqual => apply_ordering(operator, left, right),
        TokenType::Less => apply_ordering(operator, left, right),
        TokenType::LessEqual => apply_ordering(operator, left, right),
        TokenType::Plus => apply_arithmetic(operator, left, right),
        TokenType::Minus => apply_arithmetic(operator, left, right),
        TokenType::Star => apply_arithmetic(operator, left, right),
        TokenType::Slash => apply_arithmetic(operator, left, right),
        TokenType::Modulo => apply_arithmetic(operator, left, right),
        _ => Err(
            Error::new(
                ErrorKind::UnknownOperator(operator.lexeme.clone()),
                operator.position.clone(),
            ),
        ),
    }
}

/// The four ordering operators: IEEE comparison on numbers,
/// concatenation on two strings, a type mismatch otherwise.
#[verifier::rlimit(100)]
fn apply_ordering(operator: &Token, left: &Object, right: &Object) -> (r: Result<Object, Error>)
    requires
        operator@.ttype == TokenType::Greater || operator@.ttype == TokenType::GreaterEqual
            || operator@.ttype == TokenType::Less || operator@.ttype == TokenType::LessEqual,
    ensures
        match binary_result(operator@.ttype, operator@.lexeme, left@, right@) {
            Ok(v) => r matches Ok(o) && o@ == v,
            Err(k) => r matches Err(e) && e@.kind == k && e@.position == operator@.position,
        },
{
    match (left, right) {
        (Object::Number(x), Object::Number(y)) => {
            let b = match operator.ttype {
                TokenType::Greater => lt_numbers(*y, *x),
                TokenType::GreaterEqual => le_numbers(*y, *x),
                TokenType::Less => lt_numbers(*x, *y),
                _ => le_numbers(*x, *y),
            };
            Ok(Object::Boolean(b))
        },
        (Object::Boolean(_), Object::Boolean(_)) => Err(
            type_mismatch(operator, OperandFault::BooleanOperand),
        ),
        (Object::Str(x), Object::Str(y)) => Ok(Object::Str(x.clone().concat(y.as_str()))),
        (Object::Nil, Object::Nil) => Err(type_mismatch(operator, OperandFault::NilOperand)),
        _ => Err(type_mismatch(operator, OperandFault::MixedOperands)),
    }
}

/// The five arithmetic operators: IEEE arithmetic on numbers, string
/// concatenation under `+`, a type mismatch otherwise.
#[verifier::rlimit(100)]
fn apply_arithmetic(operator: &Token, left: &Object, right: &Object) -> (r: Result<Object, Error>)
    requires
        operator@.ttype == TokenType::Plus || operator@.ttype == TokenType::Minus
            || operator@.ttype == TokenType::Star || operator@.ttype == TokenType::Slash
            || operator@.ttype == TokenType::Modulo,
    ensures
        match binary_result(operator@.ttype, operator@.lexeme, left@, right@) {
            Ok(v) => r matches Ok(o) && o@ == v,
            Err(k) => r matches Err(e) && e@.kind == k && e@.position == operator@.position,
        },
{
    match (left, right) {
        (Object::Number(x), Object::Number(y)) => {
            let b = match operator.ttype {
                TokenType::Plus => add_numbers(*x, *y),
                TokenType::Minus => sub_numbers(*x, *y),
                TokenType::Star => mul_numbers(*x, *y),
                TokenType::Slash => div_numbers(*x, *y),
                _ => rem_numbers(*x, *y),
            };
            Ok(Object::Number(b))
        },
        (Object::Boolean(_), Object::Boolean(_)) => {
            if let TokenType::Modulo = operator.ttype {
                Err(type_mismatch(operator, OperandFault::MixedOperands))
            } else {
                Err(type_mismatch(operator, OperandFault::BooleanOperand))
            }
        },
        (Object::Str(x), Object::Str(y)) => {
            if let TokenType::Plus = operator.ttype {
                Ok(Object::Str(x.clone().concat(y.as_str())))
            } else {
                Err(type_mismatch(operator, OperandFault::StringOperand))
            }
        },
        (Object::Nil, Object::Nil) => Err(type_mismatch(operator, OperandFault::NilOperand)),
        _ => Err(type_mismatch(operator, OperandFault::MixedOperands)),
    }
}

/// Apply a unary operator to an evaluated operand.
pub fn apply_unary(operator: &Token, value: &Object) -> (r: Result<Object, Error>)
    ensures
        match unary_result(operator@.ttype, operator@.lexeme, value@) {
            Ok(v) => r matches Ok(o) && o@ == v,
            Err(k) => r matches Err(e) && e@.kind == k && e@.position == operator@.position,
        },
{
    match operator.ttype {
        TokenType::Not => Ok(Object::Boolean(!value.is_true())),
        TokenType::Minus => match value {
            Object::Number(x) => Ok(Object::Number(mul_numbers(*x, NEG_ONE_BITS))),
            Object::Boolean(_) => Err(type_mismatch(operator, OperandFault::BooleanOperand)),
            Object::Str(_) => Err(type_mismatch(operator, OperandFault::StringOperand)),
            Object::Nil => Err(type_mismatch(operator, OperandFault::NilOperand)),
            Object::Array(_) => Err(type_mismatch(operator, OperandFault::ArrayOperand)),
        },
        _ => Err(
            Error::new(
                ErrorKind::UnknownOperator(operator.lexeme.clone()),
                operator.position.clone(),
            ),
        ),
    }
}

/// The evaluator's state: the variable scope stack and the function
/// table, preloaded with the builtin declarations.
pub struct Interpreter {
    variables: VariableBindings,
    functions: FunctionBindings,
}

impl Interpreter {
    /// The model of the variable scope stack.
    pub closed spec fn vars(&self) -> Frames {
        self.variables.model()
    }

    /// The model of the function table.
    pub closed spec fn funcs(&self) -> Map<Seq<char>, crate::common::ast::FunctionStatementV> {
        self.functions.model()
    }

    /// The scope stack always has its global frame.
    pub open spec fn wf(&self) -> bool {
        self.vars().len() >= 1
    }

    /// A fresh evaluator: one empty global scope, and the function
    /// table holding exactly the builtin declarations.
    pub fn new() -> (r: Self)
        ensures
            r.wf(),
            r.vars().len() == 1,
            r.vars()[0] == Map::<Seq<char>, Value>::empty(),
            r.funcs() == builtin_table(),
    {
        let mut functions = FunctionBindings::new();
        let decls = Builtin::init();
        let n = decls.len();
        let mut i: usize = 0;
        while i < n
            invariant
                n == 9,
                n == decls@.len(),
                i <= n,
                forall|j: int| 0 <= j < 9 ==> (#[trigger] decls@[j])@ == crate::runtime::builtin::builtin_function(crate::runtime::builtin::builtin_at(j)),
                functions.model() == partial_builtin_table(i as int),
            decreases n - i,
        {
            let f = &decls[i];
            functions.put(&f.identifier, f.clone());
            proof {
                lemma_partial_builtin_table_step(i as int);
            }
            i = i + 1;
        }
        proof {
            lemma_builtin_table_complete();
        }
        Interpreter { variables: VariableBindings::new(), functions }
    }

    /// Execute each top-level statement in sequence, stopping at the
    /// first error.
    #[verifier::loop_isolation(false)]
    pub fn interpret(&mut self, program: Program) -> (r: Result<(), Error>)
        requires
            old(self).wf(),
        ensures
            final(self).wf(),
            top_extended(old(self).vars(), final(self).vars()),
            old(self).funcs().dom() <= final(self).funcs().dom(),
            run_program(old(self).vars(), old(self).funcs(), program@) matches Some(t) ==> (
                final(self).vars() == t.0 && final(self).funcs() == t.1 && (t.2 matches Ok(_)
                    ==> r is Ok) && (t.2 matches Err(e) ==> r matches Err(x) && x@ == e)),
    {
        let n = program.len();
        proof {
            assert(program@.skip(0) =~= program@);
        }
        let mut i: usize = 0;
        while i < n
            invariant
                self.wf(),
                i <= n,
                n == program@.len(),
                top_extended(old(self).vars(), self.vars()),
                old(self).funcs().dom() <= self.funcs().dom(),
                ({
                    let entry = run_program(old(self).vars(), old(self).funcs(), program@);
                    entry is Some ==> entry == run_program(
                        self.vars(),
                        self.funcs(),
                        program@.skip(i as int),
                    )
                }),
            decreases n - i,
        {
            let ghost mid = self.vars();
            proof {
                assert(program@.skip(i as int)[0] == program@[i as int]);
                assert(program@.skip(i as int).drop_first() =~= program@.skip(i + 1));
            }
            match self.execute_statement(&program[i], CALL_DEPTH_LIMIT) {
                Ok(_) => {
                    proof {
                        lemma_top_extended_trans(old(self).vars(), mid, self.vars());
                    }
                },
                Err(e) => {
                    proof {
                        lemma_top_extended_trans(old(self).vars(), mid, self.vars());
                    }
                    return Err(e);
                },
            }
            i = i + 1;
        }
        Ok(())
    }

    /// Execute one statement.  Only the innermost frame can gain
    /// bindings; a `Return` statement, when it succeeds, always yields
    /// a `Returned` outcome carrying its expression's value.
    #[verifier::loop_isolation(false)]
    pub fn execute_statement(&mut self, statement: &Statement, fuel: u64) -> (r: Result<
        Outcome,
        Error,
    >)
        requires
            old(self).wf(),
        ensures
            final(self).wf(),
            top_extended(old(self).vars(), final(self).vars()),
            old(self).funcs().dom() <= final(self).funcs().dom(),
            statement matches Statement::Return(_) ==> (r matches Ok(o) ==> o@ matches
                OutcomeV::Returned(_)),
            eval_stmt(old(self).vars(), old(self).funcs(), *statement, fuel) matches Some(t)
                ==> (final(self).vars() == t.0 && final(self).funcs() == t.1 && reflects(r, t.2)),
        decreases fuel, *statement, 2int,
    {
        match statement {
            Statement::Let(ls) => self.execute_let_statement(ls, fuel),
            Statement::Assignment(st) => self.execute_assignment_statement(st, fuel),
            Statement::Function(fs) => self.define_function_statement(fs),
            Statement::Return(e) => {
                let out = match self.evaluate_expression(e, fuel) {
                    Ok(o) => o,
                    Err(e) => {
                        return Err(e);
                    },
                };
                Ok(Outcome::Returned(out.into_value()))
            },
            Statement::Expression(e) => self.evaluate_expression(e, fuel),
        }
    }

    /// Evaluate the initializer, then declare the name in the current
    /// scope; the binding holds the initializer's value.
    pub fn execute_let_statement(&mut self, ls: &LetStatement, fuel: u64) -> (r: Result<
        Outcome,
        Error,
    >)
        requires
            old(self).wf(),
        ensures
            final(self).wf(),
            top_extended(old(self).vars(), final(self).vars()),
            old(self).funcs().dom() <= final(self).funcs().dom(),
            r matches Ok(o) ==> final(self).vars().last().contains_key(ls.identifier@.lexeme)
                && final(self).vars().last()[ls.identifier@.lexeme] == outcome_value(o@),
            eval_let(old(self).vars(), old(self).funcs(), *ls, fuel) matches Some(t) ==> (
                final(self).vars() == t.0 && final(self).funcs() == t.1 && reflects(r, t.2)),
        decreases fuel, *ls, 2int,
    {
        let out = match self.evaluate_expression(&ls.expression, fuel) {
            Ok(o) => o,
            Err(e) => {
                return Err(e);
            },
        };
        let value = match &out {
            Outcome::Completed(o) => clone_object(o),
            Outcome::Returned(o) => clone_object(o),
        };
        let ghost mid = self.vars();
        self.variables.declare(&ls.identifier, value);
        proof {
            let name = ls.identifier@.lexeme;
            assert(self.vars() == mid.update(mid.len() - 1, mid.last().insert(name, value@)));
            assert forall|j: int|
                0 <= j < old(self).vars().len() - 1 implies (#[trigger] self.vars()[j]).dom()
                == old(self).vars()[j].dom() by {
                assert(self.vars()[j] == mid[j]);
                assert(mid[j].dom() == old(self).vars()[j].dom());
            }
            assert(self.vars().last() == mid.last().insert(name, value@));
            assert(self.vars().last().dom() == mid.last().dom().insert(name));
            assert(old(self).vars().last().dom() <= self.vars().last().dom());
        }
        Ok(out)
    }

    /// Require the name to be declared, evaluate the right-hand side,
    /// and overwrite the binding in whichever scope owns the name.
    pub fn execute_assignment_statement(&mut self, st: &AssignmentStatement, fuel: u64) -> (r:
        Result<Outcome, Error>)
        requires
            old(self).wf(),
        ensures
            final(self).wf(),
            doms_preserved(old(self).vars(), final(self).vars()),
            old(self).funcs().dom() <= final(self).funcs().dom(),
            r matches Ok(o) ==> lookup(final(self).vars(), st.identifier@.lexeme) == Some(
                outcome_value(o@),
            ),
            lookup(old(self).vars(), st.identifier@.lexeme) is None ==> (r matches Err(e)
                && e@.kind == ErrorKindV::UndefinedIdentifier(st.identifier@.lexeme)
                && e@.position == st.identifier@.position),
            eval_assign(old(self).vars(), old(self).funcs(), *st, fuel) matches Some(t) ==> (
                final(self).vars() == t.0 && final(self).funcs() == t.1 && reflects(r, t.2)),
        decreases fuel, *st, 2int,
    {
        match self.variables.get(&st.identifier) {
            Ok(_) => {},
            Err(e) => {
                return Err(e);
            },
        }
        let out = match self.evaluate_expression(&st.expression, fuel) {
            Ok(o) => o,
            Err(e) => {
                return Err(e);
            },
        };
        let value = match &out {
            Outcome::Completed(o) => clone_object(o),
            Outcome::Returned(o) => clone_object(o),
        };
        proof {
            lemma_lookup_some_doms(old(self).vars(), self.vars(), st.identifier@.lexeme);
            crate::runtime::environment::lemma_assigned_some_iff_lookup(
                self.vars(),
                st.identifier@.lexeme,
                value@,
            );
        }
        let ghost mid = self.vars();
        let ghost vv = value@;
        match self.variables.assign(&st.identifier, value) {
            Ok(_) => {
                proof {
                    crate::runtime::environment::lemma_assigned_props(
                        mid,
                        st.identifier@.lexeme,
                        vv,
                    );
                }
                Ok(out)
            },
            Err(e) => Err(e),
        }
    }

    /// Register the declaration in the function table; no part of it
    /// is executed now.
    pub fn define_function_statement(&mut self, fs: &FunctionStatement) -> (r: Result<
        Outcome,
        Error,
    >)
        requires
            old(self).wf(),
        ensures
            final(self).wf(),
            final(self).vars() == old(self).vars(),
            final(self).funcs() == old(self).funcs().insert(fs.identifier@.lexeme, fs@),
            r matches Ok(o) && o@ == OutcomeV::Completed(Value::Nil),
    {
        let f = fs.clone();
        self.functions.put(&fs.identifier, f);
        Ok(Outcome::Completed(Object::Nil))
    }

    /// Evaluate the condition; truthy takes the `if` block, falsy the
    /// `else` branch (block or chained `if`) or nil without one.
    pub fn evaluate_if_expression(&mut self, x: &IfExpression, fuel: u64) -> (r: Result<
        Outcome,
        Error,
    >)
        requires
            old(self).wf(),
        ensures
            final(self).wf(),
            doms_preserved(old(self).vars(), final(self).vars()),
            old(self).funcs().dom() <= final(self).funcs().dom(),
            eval_if(old(self).vars(), old(self).funcs(), *x, fuel) matches Some(t) ==> (
                final(self).vars() == t.0 && final(self).funcs() == t.1 && reflects(r, t.2)),
        decreases fuel, *x, 2int,
    {
        let cond = match self.evaluate_expression(&x.condition, fuel) {
            Ok(o) => o,
            Err(e) => {
                return Err(e);
            },
        };
        let c = cond.into_value();
        if c.is_true() {
            self.evaluate_block_expression(&x.if_block, fuel)
        } else {
            match &*x.else_block {
                Some(ElseBlock::Block(b)) => self.evaluate_block_expression(b, fuel),
                Some(ElseBlock::If(nested)) => self.evaluate_if_expression(nested, fuel),
                None => Ok(Outcome::Completed(Object::Nil)),
            }
        }
    }

    /// Execute the block's statements in a fresh scope, stopping at
    /// the first `Returned` outcome; the scope is discarded on exit,
    /// so no binding declared inside survives.
    #[verifier::loop_isolation(false)]
    pub fn evaluate_block_expression(&mut self, b: &BlockExpression, fuel: u64) -> (r: Result<
        Outcome,
        Error,
    >)
        requires
            old(self).wf(),
        ensures
            final(self).wf(),
            doms_preserved(old(self).vars(), final(self).vars()),
            old(self).funcs().dom() <= final(self).funcs().dom(),
            eval_block(old(self).vars(), old(self).funcs(), *b, fuel) matches Some(t) ==> (
                final(self).vars() == t.0 && final(self).funcs() == t.1 && reflects(r, t.2)),
        decreases fuel, *b, 2int,
    {
        self.variables.push_scope();
        let mut result = Outcome::Completed(Object::Nil);
        let n = b.statements.len();
        proof {
            assert(b.statements@.skip(0) =~= b.statements@);
        }
        let mut i: usize = 0;
        while i < n
            invariant
                self.wf(),
                i <= n,
                n == b.statements@.len(),
                self.vars().len() == old(self).vars().len() + 1,
                forall|j: int|
                    0 <= j < old(self).vars().len() ==> (#[trigger] self.vars()[j]).dom() == old(
                        self,
                    ).vars()[j].dom(),
                old(self).funcs().dom() <= self.funcs().dom(),
                ({
                    let entry = eval_stmts(
                        old(self).vars().push(Map::<Seq<char>, Value>::empty()),
                        old(self).funcs(),
                        b.statements@,
                        fuel,
                        OutcomeV::Completed(Value::Nil),
                    );
                    entry is Some ==> entry == eval_stmts(
                        self.vars(),
                        self.funcs(),
                        b.statements@.skip(i as int),
                        fuel,
                        result@,
                    )
                }),
            decreases n - i,
        {
            proof {
                assert(decreases_to!(*b => b.statements@[i as int]));
                assert(b.statements@.skip(i as int)[0] == b.statements@[i as int]);
                assert(b.statements@.skip(i as int).drop_first() =~= b.statements@.skip(i + 1));
            }
            match self.execute_statement(&b.statements[i], fuel) {
                Ok(out) => {
                    if out.is_returned() {
                        self.variables.pop_scope();
                        return Ok(out);
                    }
                    result = out;
                },
                Err(e) => {
                    self.variables.pop_scope();
                    return Err(e);
                },
            }
            i = i + 1;
        }
        proof {
            assert(b.statements@.skip(n as int).len() == 0);
        }
        self.variables.pop_scope();
        Ok(result)
    }

    /// Evaluate left then right eagerly, then apply the operator.
    pub fn evaluate_binary_expression(&mut self, be: &BinaryExpression, fuel: u64) -> (r: Result<
        Outcome,
        Error,
    >)
        requires
            old(self).wf(),
        ensures
            final(self).wf(),
            doms_preserved(old(self).vars(), final(self).vars()),
            old(self).funcs().dom() <= final(self).funcs().dom(),
            eval_binary(old(self).vars(), old(self).funcs(), *be, fuel) matches Some(t) ==> (
                final(self).vars() == t.0 && final(self).funcs() == t.1 && reflects(r, t.2)),
            r matches Ok(o) ==> o@ matches OutcomeV::Completed(_),
        decreases fuel, *be, 2int,
    {
        let lo = match self.match_expression(&be.left, fuel) {
            Ok(o) => o,
            Err(e) => {
                return Err(e);
            },
        };
        let left = lo.into_value();
        let ro = match self.match_expression(&be.right, fuel) {
            Ok(o) => o,
            Err(e) => {
                return Err(e);
            },
        };
        let right = ro.into_value();
        match apply_binary(&be.operator, &left, &right) {
            Ok(o) => Ok(Outcome::Completed(o)),
            Err(e) => Err(e),
        }
    }

    /// Evaluate the operand, then apply the operator.
    pub fn evaluate_unary_expression(&mut self, ue: &UnaryExpression, fuel: u64) -> (r: Result<
        Outcome,
        Error,
    >)
        requires
            old(self).wf(),
        ensures
            final(self).wf(),
            doms_preserved(old(self).vars(), final(self).vars()),
            old(self).funcs().dom() <= final(self).funcs().dom(),
            eval_unary(old(self).vars(), old(self).funcs(), *ue, fuel) matches Some(t) ==> (
                final(self).vars() == t.0 && final(self).funcs() == t.1 && reflects(r, t.2)),
            r matches Ok(o) ==> o@ matches OutcomeV::Completed(_),
        decreases fuel, *ue, 2int,
    {
        let vo = match self.match_expression(&ue.right, fuel) {
            Ok(o) => o,
            Err(e) => {
                return Err(e);
            },
        };
        let value = vo.into_value();
        match apply_unary(&ue.operator, &value) {
            Ok(o) => Ok(Outcome::Completed(o)),
            Err(e) => Err(e),
        }
    }

    /// A grouping changes nothing: the child's outcome is the result.
    pub fn evaluate_group_expression(&mut self, g: &GroupExpression, fuel: u64) -> (r: Result<
        Outcome,
        Error,
    >)
        requires
            old(self).wf(),
        ensures
            final(self).wf(),
            doms_preserved(old(self).vars(), final(self).vars()),
            old(self).funcs().dom() <= final(self).funcs().dom(),
            eval_expr(old(self).vars(), old(self).funcs(), *g.child, fuel) matches Some(t) ==> (
                final(self).vars() == t.0 && final(self).funcs() == t.1 && reflects(r, t.2)),
        decreases fuel, *g, 2int,
    {
        self.evaluate_expression(&g.child, fuel)
    }

    /// Resolve the callee, check the arity exactly, and run the call:
    /// too few arguments names the parameters that got none, too many
    /// reports the expected and actual counts.
    pub fn evaluate_call_expression(&mut self, ce: &CallExpression, fuel: u64) -> (r: Result<
        Outcome,
        Error,
    >)
        requires
            old(self).wf(),
        ensures
            final(self).wf(),
            doms_preserved(old(self).vars(), final(self).vars()),
            old(self).funcs().dom() <= final(self).funcs().dom(),
            !old(self).funcs().contains_key(ce.identifier@.lexeme) ==> (r matches Err(e)
                && e@.kind == ErrorKindV::UndefinedIdentifier(ce.identifier@.lexeme)
                && e@.position == ce.identifier@.position),
            (old(self).funcs().contains_key(ce.identifier@.lexeme) && ce.arguments@.len() < old(
                self,
            ).funcs()[ce.identifier@.lexeme].parameters.len()) ==> (r matches Err(e)
                && e@.position == ce.identifier@.position && (e@.kind matches
                ErrorKindV::ArityTooFew { expected, got, missing }
                && expected == old(self).funcs()[ce.identifier@.lexeme].parameters.len()
                && got == ce.arguments@.len() && missing == param_names(
                old(self).funcs()[ce.identifier@.lexeme].parameters,
            ).skip(ce.arguments@.len() as int))),
            (old(self).funcs().contains_key(ce.identifier@.lexeme) && ce.arguments@.len() > old(
                self,
            ).funcs()[ce.identifier@.lexeme].parameters.len()) ==> (r matches Err(e)
                && e@.position == ce.identifier@.position && (e@.kind matches
                ErrorKindV::ArityTooMany { expected, got }
                && expected == old(self).funcs()[ce.identifier@.lexeme].parameters.len()
                && got == ce.arguments@.len())),
            eval_call(old(self).vars(), old(self).funcs(), *ce, fuel) matches Some(t) ==> (
                final(self).vars() == t.0 && final(self).funcs() == t.1 && reflects(r, t.2)),
        decreases fuel, *ce, 2int,
    {
        let function = match self.functions.get(&ce.identifier) {
            Ok(f) => f,
            Err(e) => {
                return Err(e);
            },
        };
        let expected = function.parameters.len();
        let got = ce.arguments.len();
        if got < expected {
            let mut missing: Vec<String> = Vec::new();
            let mut j = got;
            while j < expected
                invariant
                    got <= j <= expected,
                    expected == function.parameters@.len(),
                    missing@.len() == j - got,
                    forall|k: int|
                        0 <= k < j - got ==> (#[trigger] missing@[k])@
                            == function.parameters@[k + got].identifier@.lexeme,
                decreases expected - j,
            {
                missing.push(function.parameters[j].identifier.lexeme.clone());
                j = j + 1;
            }
            proof {
                assert(crate::common::error::strs_view(missing@) =~= param_names(
                    function@.parameters,
                ).skip(got as int));
            }
            return Err(
                Error::new(
                    ErrorKind::ArityTooFew { expected, got, missing },
                    ce.identifier.position.clone(),
                ),
            );
        }
        if got > expected {
            return Err(
                Error::new(
                    ErrorKind::ArityTooMany { expected, got },
                    ce.identifier.position.clone(),
                ),
            );
        }
        self.execute_function_statement(&ce.arguments, function, fuel)
    }

    /// Run a call with matching arity: evaluate the arguments, bind
    /// the parameters in a fresh scope, then execute the body, or
    /// dispatch to the builtin when there is none.  The scope is
    /// discarded afterwards, and a `return` inside the body becomes
    /// the call's plain result value.
    #[verifier::loop_isolation(false)]
    pub fn execute_function_statement(
        &mut self,
        arguments: &Vec<Expression>,
        function: FunctionStatement,
        fuel: u64,
    ) -> (r: Result<Outcome, Error>)
        requires
            old(self).wf(),
            arguments@.len() == function.parameters@.len(),
        ensures
            final(self).wf(),
            doms_preserved(old(self).vars(), final(self).vars()),
            old(self).funcs().dom() <= final(self).funcs().dom(),
            r matches Ok(o) ==> o@ matches OutcomeV::Completed(_),
            eval_invoke(old(self).vars(), old(self).funcs(), arguments@, function@, fuel)
                matches Some(t) ==> (final(self).vars() == t.0 && final(self).funcs() == t.1
                && reflects(r, t.2)),
        decreases fuel, *arguments, 2int,
    {
        if fuel == 0 {
            return Err(Error::new(ErrorKind::DepthExceeded, function.identifier.position.clone()));
        }
        let depth = fuel - 1;
        let n = arguments.len();
        let mut values: Vec<Object> = Vec::new();
        proof {
            assert(arguments@.skip(0) =~= arguments@);
            assert(crate::common::object::seq_view(values@) =~= Seq::<Value>::empty());
        }
        let mut i: usize = 0;
        while i < n
            invariant
                self.wf(),
                i <= n,
                n == arguments@.len(),
                values@.len() == i,
                doms_preserved(old(self).vars(), self.vars()),
                old(self).funcs().dom() <= self.funcs().dom(),
                ({
                    let entry = eval_args(
                        old(self).vars(),
                        old(self).funcs(),
                        arguments@,
                        depth,
                        Seq::<Value>::empty(),
                    );
                    entry is Some ==> entry == eval_args(
                        self.vars(),
                        self.funcs(),
                        arguments@.skip(i as int),
                        depth,
                        crate::common::object::seq_view(values@),
                    )
                }),
            decreases n - i,
        {
            proof {
                assert(decreases_to!(*arguments => arguments@[i as int]));
                assert(arguments@.skip(i as int)[0] == arguments@[i as int]);
                assert(arguments@.skip(i as int).drop_first() =~= arguments@.skip(i + 1));
            }
            let ghost acc0 = crate::common::object::seq_view(values@);
            let out = match self.evaluate_expression(&arguments[i], depth) {
                Ok(o) => o,
                Err(e) => {
                    return Err(e);
                },
            };
            let ghost outv = out@;
            values.push(out.into_value());
            proof {
                assert(crate::common::object::seq_view(values@) =~= acc0.push(
                    outcome_value(outv),
                ));
            }
            i = i + 1;
        }
        proof {
            assert(arguments@.skip(n as int).len() == 0);
        }
        let ghost mid = self.vars();
        let ghost midf = self.funcs();
        let ghost vals = crate::common::object::seq_view(values@);
        self.variables.push_scope();
        let m = function.parameters.len();
        let mut j: usize = 0;
        while j < m
            invariant
                self.wf(),
                j <= m,
                m == function.parameters@.len(),
                m == values@.len(),
                self.vars().len() >= 1,
                self.vars().len() == old(self).vars().len() + 1,
                forall|k: int|
                    0 <= k < old(self).vars().len() ==> (#[trigger] self.vars()[k]).dom() == old(
                        self,
                    ).vars()[k].dom(),
                old(self).funcs().dom() <= self.funcs().dom(),
                self.funcs() == midf,
                vals == crate::common::object::seq_view(values@),
                self.vars() == mid.push(params_frame(function@.parameters, vals, j as int)),
            decreases m - j,
        {
            let v = clone_object(&values[j]);
            proof {
                assert(v@ == vals[j as int]);
                assert((function.parameters@[j as int])@ == function@.parameters[j as int]);
            }
            self.variables.declare(&function.parameters[j].identifier, v);
            proof {
                assert(self.vars() =~= mid.push(
                    params_frame(function@.parameters, vals, j + 1),
                ));
            }
            j = j + 1;
        }
        let result = match &function.block {
            Some(block) => {
                match self.evaluate_block_expression(&**block, depth) {
                    Ok(out) => out.into_value(),
                    Err(e) => {
                        self.variables.pop_scope();
                        return Err(e);
                    },
                }
            },
            None => {
                match Builtin::try_from(function.identifier.clone()) {
                    Ok(b) => {
                        let declared = b.parameters();
                        if values.len() != declared.len() {
                            self.variables.pop_scope();
                            return Err(
                                Error::new(
                                    ErrorKind::UnsupportedArgument(b.to_string()),
                                    function.identifier.position.clone(),
                                ),
                            );
                        }
                        match b.execute(values, function.identifier.position.clone()) {
                            Ok(o) => o,
                            Err(e) => {
                                self.variables.pop_scope();
                                return Err(e);
                            },
                        }
                    },
                    Err(e) => {
                        self.variables.pop_scope();
                        return Err(e);
                    },
                }
            },
        };
        self.variables.pop_scope();
        Ok(Outcome::Completed(result))
    }

    /// Resolve a variable in the current environment.
    pub fn evaluate_identifier_expression(&self, ie: &IdentifierExpression) -> (r: Result<
        Object,
        Error,
    >)
        requires
            self.wf(),
        ensures
            match r {
                Ok(o) => lookup(self.vars(), ie.identifier@.lexeme) == Some(o@),
                Err(e) => lookup(self.vars(), ie.identifier@.lexeme) is None && e@.kind
                    == ErrorKindV::UndefinedIdentifier(ie.identifier@.lexeme) && e@.position
                    == ie.identifier@.position,
            },
    {
        self.variables.get(&ie.identifier)
    }

    /// Evaluate an expression to an outcome.
    pub fn evaluate_expression(&mut self, e: &Expression, fuel: u64) -> (r: Result<Outcome, Error>)
        requires
            old(self).wf(),
        ensures
            final(self).wf(),
            doms_preserved(old(self).vars(), final(self).vars()),
            old(self).funcs().dom() <= final(self).funcs().dom(),
            eval_expr(old(self).vars(), old(self).funcs(), *e, fuel) matches Some(t) ==> (
                final(self).vars() == t.0 && final(self).funcs() == t.1 && reflects(r, t.2)),
        decreases fuel, *e, 1int,
    {
        self.match_expression(e, fuel)
    }

    /// Dispatch over the expression kinds.  A literal yields its
    /// token's pre-resolved value, or nil without one.
    pub fn match_expression(&mut self, e: &Expression, fuel: u64) -> (r: Result<Outcome, Error>)
        requires
            old(self).wf(),
        ensures
            final(self).wf(),
            doms_preserved(old(self).vars(), final(self).vars()),
            old(self).funcs().dom() <= final(self).funcs().dom(),
            e matches Expression::Literal(le) ==> (r matches Ok(o) ==> o@ == OutcomeV::Completed(
                literal_value(le.object@),
            )),
            e matches Expression::Identifier(ie) ==> (r matches Ok(o) ==> lookup(
                old(self).vars(),
                ie.identifier@.lexeme,
            ) == Some(outcome_value(o@))),
            eval_expr(old(self).vars(), old(self).funcs(), *e, fuel) matches Some(t) ==> (
                final(self).vars() == t.0 && final(self).funcs() == t.1 && reflects(r, t.2)),
        decreases fuel, *e, 0int,
    {
        match e {
            Expression::Binary(be) => self.evaluate_binary_expression(be, fuel),
            Expression::Unary(ue) => self.evaluate_unary_expression(ue, fuel),
            Expression::Group(g) => self.evaluate_group_expression(g, fuel),
            Expression::Call(ce) => self.evaluate_call_expression(ce, fuel),
            Expression::Identifier(ie) => {
                match self.evaluate_identifier_expression(ie) {
                    Ok(o) => Ok(Outcome::Completed(o)),
                    Err(e) => Err(e),
                }
            },
            Expression::Block(b) => self.evaluate_block_expression(b, fuel),
            Expression::If(x) => self.evaluate_if_expression(x, fuel),
            Expression::Literal(le) => {
                match &le.object.literal {
                    Some(o) => Ok(Outcome::Completed(clone_object(o))),
                    None => Ok(Outcome::Completed(Object::Nil)),
                }
            },
            Expression::Array(xe) => {
                match self.evaluate_array_expression(xe) {
                    Ok(o) => Ok(Outcome::Completed(o)),
                    Err(e) => Err(e),
                }
            },
        }
    }

    /// Build an array value from the literal and identifier tokens of
    /// an array expression; a token that is neither is dropped
    /// silently (a documented quirk of the surface language).
    #[verifier::loop_isolation(false)]
    pub fn evaluate_array_expression(&self, xe: &ArrayExpression) -> (r: Result<Object, Error>)
        requires
            self.wf(),
        ensures
            match array_items(crate::common::ast::tokens_view(xe.objects@), self.vars()) {
                Ok(s) => r matches Ok(o) && o@ == Value::Array(s),
                Err(t) => r matches Err(e) && e@.kind == ErrorKindV::UndefinedIdentifier(t.lexeme)
                    && e@.position == t.position,
            },
    {
        let ghost toks = crate::common::ast::tokens_view(xe.objects@);
        let n = xe.objects.len();
        let mut objects: Vec<Object> = Vec::new();
        proof {
            assert(toks.skip(0) =~= toks);
            match array_items(toks, self.vars()) {
                Ok(s) => {
                    assert(crate::common::object::seq_view(objects@) + s =~= s);
                },
                Err(_) => {},
            }
        }
        let mut i: usize = 0;
        while i < n
            invariant
                i <= n,
                n == xe.objects@.len(),
                n == toks.len(),
                array_items(toks, self.vars()) == (match array_items(
                    toks.skip(i as int),
                    self.vars(),
                ) {
                    Ok(s) => Ok::<Seq<Value>, TokenV>(
                        crate::common::object::seq_view(objects@) + s,
                    ),
                    Err(t) => Err::<Seq<Value>, TokenV>(t),
                }),
            decreases n - i,
        {
            let ghost pre = crate::common::object::seq_view(objects@);
            let ghost rest = toks.skip(i as int);
            proof {
                assert(rest[0] == toks[i as int]);
                assert(rest.drop_first() =~= toks.skip(i + 1));
            }
            let tok = &xe.objects[i];
            proof {
                assert(rest[0] == tok@);
            }
            match &tok.literal {
                Some(o) => {
                    let ghost v = o@;
                    let c = clone_object(o);
                    objects.push(c);
                    proof {
                        assert(crate::common::object::seq_view(objects@) =~= pre.push(v));
                        match array_items(toks.skip(i + 1), self.vars()) {
                            Ok(s) => {
                                assert(pre + (seq![v] + s) =~= pre.push(v) + s);
                            },
                            Err(_) => {},
                        }
                    }
                },
                None => {
                    if tok.ttype == TokenType::Identifier {
                        match self.variables.get(tok) {
                            Ok(o) => {
                                let ghost v = o@;
                                objects.push(o);
                                proof {
                                    assert(crate::common::object::seq_view(objects@) =~= pre.push(
                                        v,
                                    ));
                                    match array_items(toks.skip(i + 1), self.vars()) {
                                        Ok(s) => {
                                            assert(pre + (seq![v] + s) =~= pre.push(v) + s);
                                        },
                                        Err(_) => {},
                                    }
                                }
                            },
                            Err(e) => {
                                return Err(e);
                            },
                        }
                    }
                },
            }
            i = i + 1;
        }
        proof {
            assert(toks.skip(n as int).len() == 0);
            assert(crate::common::object::seq_view(objects@) + Seq::<Value>::empty()
                =~= crate::common::object::seq_view(objects@));
        }
        let r = Object::Array(objects);
        proof {
            assert(r@->Array_0 =~= crate::common::object::seq_view(r->Array_0@));
        }
        Ok(r)
    }
}

/// The items an array expression evaluates to, left to right: a token
/// with a pre-resolved literal contributes it, an identifier token
/// contributes the variable's value or fails on the first unbound
/// name, and any other token contributes nothing.
pub open spec fn array_items(toks: Seq<TokenV>, frames: Frames) -> Result<Seq<Value>, TokenV>
    decreases toks.len(),
{
    if toks.len() == 0 {
        Ok(Seq::empty())
    } else {
        let t = toks[0];
        match t.literal {
            Some(v) => match array_items(toks.drop_first(), frames) {
                Ok(s) => Ok(seq![v] + s),
                Err(u) => Err(u),
            },
            None => {
                if t.ttype == TokenType::Identifier {
                    match lookup(frames, t.lexeme) {
                        Some(v) => match array_items(toks.drop_first(), frames) {
                            Ok(s) => Ok(seq![v] + s),
                            Err(u) => Err(u),
                        },
                        None => Err(t),
                    }
                } else {
                    array_items(toks.drop_first(), frames)
                }
            },
        }
    }
}

/// Statement effects compose: extending only the top frame twice in
/// a row still extends only the top frame.
pub proof fn lemma_top_extended_trans(a: Frames, b: Frames, c: Frames)
    requires
        top_extended(a, b),
        top_extended(b, c),
    ensures
        top_extended(a, c),
{
    assert forall|i: int| 0 <= i < a.len() - 1 implies (#[trigger] c[i]).dom() == a[i].dom() by {
        assert(b[i].dom() == a[i].dom());
        assert(c[i].dom() == b[i].dom());
    }
}

/// Domain preservation keeps lookup success: if every frame keeps its
/// domain, a name resolves after exactly when it resolved before.
pub proof fn lemma_lookup_some_doms(pre: Frames, post: Frames, name: Seq<char>)
    requires
        doms_preserved(pre, post),
    ensures
        lookup(pre, name) is Some <==> lookup(post, name) is Some,
    decreases pre.len(),
{
    if pre.len() > 0 {
        assert(post.last().dom() == pre.last().dom());
        assert(post.last().contains_key(name) == pre.last().contains_key(name));
        if !pre.last().contains_key(name) {
            assert(doms_preserved(pre.drop_last(), post.drop_last())) by {
                assert(forall|i: int|
                    0 <= i < pre.len() - 1 ==> pre.drop_last()[i] == pre[i] && post.drop_last()[i]
                        == post[i]);
            }
            lemma_lookup_some_doms(pre.drop_last(), post.drop_last(), name);
        }
    }
}

/// The function table after the first `i` builtin declarations are
/// registered.
pub open spec fn partial_builtin_table(i: int) -> Map<
    Seq<char>,
    crate::common::ast::FunctionStatementV,
>
    decreases i,
{
    if i <= 0 {
        Map::empty()
    } else {
        partial_builtin_table(i - 1).insert(
            crate::runtime::builtin::builtin_name(crate::runtime::builtin::builtin_at(i - 1)),
            crate::runtime::builtin::builtin_function(crate::runtime::builtin::builtin_at(i - 1)),
        )
    }
}

/// Registering declaration `i` extends the partial table by one step.
proof fn lemma_partial_builtin_table_step(i: int)
    requires
        0 <= i < 9,
    ensures
        partial_builtin_table(i).insert(
            crate::runtime::builtin::builtin_name(crate::runtime::builtin::builtin_at(i)),
            crate::runtime::builtin::builtin_function(crate::runtime::builtin::builtin_at(i)),
        ) == partial_builtin_table(i + 1),
{
}

/// The fully registered table is the builtin table.
proof fn lemma_builtin_table_complete()
    ensures
        partial_builtin_table(9) == builtin_table(),
{
    reveal_with_fuel(partial_builtin_table, 10);
}

} // verus!
