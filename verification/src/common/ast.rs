//! The abstract syntax tree: statement and expression nodes as produced
//! by parsing, a pure data model with construction helpers.
//!
//! The tree is a single owned structure; child nodes are exclusively
//! owned by their parent.  A function's body is shared through `Rc` only
//! so that registering a function in the function table needs no deep
//! copy of the body; sharing a body never mutates it.

use crate::common::token::{Token, TokenV};
use std::rc::Rc;
use vstd::prelude::*;

verus! {

/// Relies on `Clone` for `std::rc::Rc`: the clone is a handle to the
/// same allocation, hence the same abstract value.
#[verifier::external_body]
fn clone_block_handle(v: &Rc<BlockExpression>) -> (res: Rc<BlockExpression>)
    ensures
        res == *v,
{
    v.clone()
}

/// An ordered list of top-level statements.
pub type Program = Vec<Statement>;

pub enum Statement {
    Let(LetStatement),
    Assignment(AssignmentStatement),
    Function(FunctionStatement),
    Return(Expression),
    Expression(Expression),
}

pub enum ElseBlock {
    Block(BlockExpression),
    If(IfExpression),
}

pub struct LetStatement {
    pub identifier: Token,
    pub expression: Expression,
}

pub struct AssignmentStatement {
    pub identifier: Token,
    pub expression: Expression,
}

pub struct BlockExpression {
    pub statements: Box<Vec<Statement>>,
}

pub struct IfExpression {
    pub condition: Box<Expression>,
    pub if_block: BlockExpression,
    pub else_block: Box<Option<ElseBlock>>,
}

pub struct Parameter {
    pub identifier: Token,
    pub is_pack: bool,
}

/// A function declaration.  The block is `None` for a builtin function
/// stub with no user-supplied implementation.
pub struct FunctionStatement {
    pub identifier: Token,
    pub parameters: Vec<Parameter>,
    pub block: Option<Rc<BlockExpression>>,
}

pub enum Expression {
    Block(BlockExpression),
    If(IfExpression),
    Binary(BinaryExpression),
    Unary(UnaryExpression),
    Group(GroupExpression),
    Call(CallExpression),
    Identifier(IdentifierExpression),
    Literal(LiteralExpression),
    Array(ArrayExpression),
}

pub struct BinaryExpression {
    pub left: Box<Expression>,
    pub operator: Token,
    pub right: Box<Expression>,
}

pub struct UnaryExpression {
    pub operator: Token,
    pub right: Box<Expression>,
}

pub struct GroupExpression {
    pub child: Box<Expression>,
}

pub struct CallExpression {
    pub identifier: Token,
    pub arguments: Vec<Expression>,
}

pub struct IdentifierExpression {
    pub identifier: Token,
}

pub struct LiteralExpression {
    pub object: Token,
}

pub struct ArrayExpression {
    pub objects: Vec<Token>,
}

/// The mathematical model of a [`Parameter`].
pub struct ParameterV {
    pub identifier: TokenV,
    pub is_pack: bool,
}

/// The mathematical model of a [`FunctionStatement`].  The body is the
/// block itself: bodies are shared, never copied, so the block value
/// identifies the body exactly.
pub struct FunctionStatementV {
    pub identifier: TokenV,
    pub parameters: Seq<ParameterV>,
    pub block: Option<BlockExpression>,
}

impl View for Parameter {
    type V = ParameterV;

    open spec fn view(&self) -> ParameterV {
        ParameterV { identifier: self.identifier@, is_pack: self.is_pack }
    }
}

/// The models of a sequence of parameters.
pub open spec fn params_view(s: Seq<Parameter>) -> Seq<ParameterV> {
    Seq::new(
        s.len(),
        |i: int|
            if 0 <= i < s.len() {
                s[i]@
            } else {
                arbitrary()
            },
    )
}

/// The models of a sequence of tokens.
pub open spec fn tokens_view(s: Seq<Token>) -> Seq<TokenV> {
    Seq::new(
        s.len(),
        |i: int|
            if 0 <= i < s.len() {
                s[i]@
            } else {
                arbitrary()
            },
    )
}

impl View for FunctionStatement {
    type V = FunctionStatementV;

    open spec fn view(&self) -> FunctionStatementV {
        FunctionStatementV {
            identifier: self.identifier@,
            parameters: params_view(self.parameters@),
            block: match self.block {
                Some(b) => Some(*b),
                None => None,
            },
        }
    }
}

impl LetStatement {
    pub fn new(identifier: Token, expression: Expression) -> (r: Self)
        ensures
            r.identifier@ == identifier@,
            r.expression == expression,
    {
        Self { identifier, expression }
    }
}

impl AssignmentStatement {
    pub fn new(identifier: Token, expression: Expression) -> (r: Self)
        ensures
            r.identifier@ == identifier@,
            r.expression == expression,
    {
        Self { identifier, expression }
    }
}

impl BlockExpression {
    pub fn new(statements: Vec<Statement>) -> (r: Self)
        ensures
            r.statements@ == statements@,
    {
        Self { statements: Box::new(statements) }
    }
}

impl IfExpression {
    pub fn new(condition: Expression, if_block: BlockExpression, else_block: Option<ElseBlock>) -> (r:
        Self)
        ensures
            *r.condition == condition,
            r.if_block == if_block,
            *r.else_block == else_block,
    {
        Self { condition: Box::new(condition), if_block, else_block: Box::new(else_block) }
    }
}

impl Parameter {
    pub fn new(identifier: Token, is_pack: bool) -> (r: Self)
        ensures
            r@ == (ParameterV { identifier: identifier@, is_pack }),
    {
        Self { identifier, is_pack }
    }
}

impl Clone for Parameter {
    /// Deep copy; the copy has the same model.
    fn clone(&self) -> (r: Self)
        ensures
            r@ == self@,
    {
        Parameter { identifier: self.identifier.clone(), is_pack: self.is_pack }
    }
}

impl FunctionStatement {
    pub fn new(identifier: Token, parameters: Vec<Parameter>, block: Option<BlockExpression>) -> (r:
        Self)
        ensures
            r@ == (FunctionStatementV {
                identifier: identifier@,
                parameters: params_view(parameters@),
                block,
            }),
    {
        Self {
            identifier,
            parameters,
            block: match block {
                Some(b) => Some(Rc::new(b)),
                None => None,
            },
        }
    }
}

impl Clone for FunctionStatement {
    /// Copy sharing the same body; the copy has the same model.
    fn clone(&self) -> (r: Self)
        ensures
            r@ == self@,
    {
        let mut params: Vec<Parameter> = Vec::new();
        let n = self.parameters.len();
        let mut i: usize = 0;
        while i < n
            invariant
                n == self.parameters@.len(),
                i <= n,
                params@.len() == i,
                forall|j: int| 0 <= j < i ==> (#[trigger] params@[j])@ == self.parameters@[j]@,
            decreases n - i,
        {
            let p = self.parameters[i].clone();
            params.push(p);
            i = i + 1;
        }
        let r = FunctionStatement {
            identifier: self.identifier.clone(),
            parameters: params,
            block: match &self.block {
                Some(b) => Some(clone_block_handle(b)),
                None => None,
            },
        };
        proof {
            assert(params_view(r.parameters@) =~= params_view(self.parameters@));
        }
        r
    }
}

impl BinaryExpression {
    pub fn new(left: Expression, operator: Token, right: Expression) -> (r: Self)
        ensures
            *r.left == left,
            r.operator@ == operator@,
            *r.right == right,
    {
        Self { left: Box::new(left), operator, right: Box::new(right) }
    }
}

impl UnaryExpression {
    pub fn new(operator: Token, right: Expression) -> (r: Self)
        ensures
            r.operator@ == operator@,
            *r.right == right,
    {
        Self { operator, right: Box::new(right) }
    }
}

impl GroupExpression {
    pub fn new(child: Expression) -> (r: Self)
        ensures
            *r.child == child,
    {
        Self { child: Box::new(child) }
    }
}

impl CallExpression {
    pub fn new(identifier: Token, arguments: Vec<Expression>) -> (r: Self)
        ensures
            r.identifier@ == identifier@,
            r.arguments@ == arguments@,
    {
        Self { identifier, arguments }
    }
}

impl IdentifierExpression {
    pub fn new(identifier: Token) -> (r: Self)
        ensures
            r.identifier@ == identifier@,
    {
        Self { identifier }
    }
}

impl LiteralExpression {
    pub fn new(object: Token) -> (r: Self)
        ensures
            r.object@ == object@,
    {
        Self { object }
    }
}

impl ArrayExpression {
    pub fn new(objects: Vec<Token>) -> (r: Self)
        ensures
            r.objects@ == objects@,
    {
        Self { objects }
    }
}

} // verus!
