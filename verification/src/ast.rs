//! The node types of the tree.
//!
//! Every recursive field is exclusively owned by its parent node, so a value
//! of any of these types is a strict tree: no sharing, no cycles. A parser
//! builds the tree bottom-up; nothing in this crate mutates it afterwards.

use vstd::prelude::*;

verus! {

/// The root of every tree: the ordered sequence of top-level statements.
/// An empty program is valid.
pub struct Program {
    pub statements: Vec<Statement>,
}

/// A top-level or block-level statement.
#[derive(Debug)]
pub enum Statement {
    Let(LetStatement),
    Return(ReturnStatement),
    Expression(ExpressionStatement),
}

/// `let name = value;` — binds a bare identifier to the value of an
/// expression. The name is always an identifier, never a pattern.
#[derive(Debug)]
pub struct LetStatement {
    pub name: IdentifierLiteral,
    pub value: Expression,
}

/// `return;` or `return value;` — an absent `return_value` means "return no
/// value", which the tree keeps distinct from returning an explicit
/// none-literal.
#[derive(Debug)]
pub struct ReturnStatement {
    pub return_value: Option<Expression>,
}

/// An expression in statement position. The variant records whether the
/// source wrote a trailing separator after the expression:
///
/// - `Terminating`: a separator followed, so the expression's value is
///   discarded once evaluated.
/// - `NonTerminating`: no separator followed; in last position of a block
///   this expression's value becomes the block's result.
///
/// The tag is decided once, at construction, and preserved wherever the
/// statement stands; only a `NonTerminating` in last position has an
/// observable effect on a block's result.
#[derive(Debug)]
pub enum ExpressionStatement {
    Terminating(Expression),
    NonTerminating(Expression),
}

/// An expression. The set of variants is closed: every consumer matches
/// exhaustively, and adding a variant is a compile-time-visible change.
#[derive(Debug)]
pub enum Expression {
    Identifier(IdentifierLiteral),
    Int(IntegerLiteral),
    Boolean(BooleanLiteral),
    Function(FunctionLiteral),
    If(IfExpression),
    Call(CallExpression),
    Block(BlockExpression),
    Prefix(PrefixExpression),
    Infix(InfixExpression),
    NoneLiteral,
}

/// A name reference.
#[derive(Debug)]
pub struct IdentifierLiteral {
    pub value: String,
}

/// A literal integer, platform-width signed.
#[derive(Debug)]
pub struct IntegerLiteral {
    pub value: isize,
}

/// A literal boolean.
#[derive(Debug)]
pub struct BooleanLiteral {
    pub value: bool,
}

/// An anonymous function value: ordered parameters and a body block.
/// Parameter names need not be unique here; scoping is the evaluator's
/// concern.
#[derive(Debug)]
pub struct FunctionLiteral {
    pub parameters: Vec<IdentifierLiteral>,
    pub body: BlockExpression,
}

/// A conditional. An absent `alternative` means "no else branch", which the
/// tree keeps distinct from an explicit empty else block.
#[derive(Debug)]
pub struct IfExpression {
    pub condition: Box<Expression>,
    pub consequence: BlockExpression,
    pub alternative: Option<BlockExpression>,
}

/// A call. The callee is a `CallableExpression`, so only a bare name or an
/// inline function literal can stand in call position — the restriction is
/// part of the tree's shape, not a runtime check.
#[derive(Debug)]
pub struct CallExpression {
    pub function: CallableExpression,
    pub arguments: Vec<Expression>,
}

/// The closed set of expression shapes legal in call position.
#[derive(Debug)]
pub enum CallableExpression {
    Identifier(IdentifierLiteral),
    Function(FunctionLiteral),
}

/// A sequence of statements that acts as an expression; which statement, if
/// any, supplies its value is decided by the rule in the `block` module.
#[derive(Debug)]
pub struct BlockExpression {
    pub statements: Vec<Statement>,
}

/// A prefix operator applied to one operand.
#[derive(Debug)]
pub struct PrefixExpression {
    pub operator: PrefixOperator,
    pub right: Box<Expression>,
}

/// An infix operator applied to two operands. The nesting of these nodes
/// already encodes precedence as the parser resolved it; the operator itself
/// carries none.
#[derive(Debug)]
pub struct InfixExpression {
    pub left: Box<Expression>,
    pub operator: InfixOperator,
    pub right: Box<Expression>,
}

/// The closed set of prefix operator kinds.
#[derive(Debug, Clone, Copy, PartialEq, Eq, Structural)]
pub enum PrefixOperator {
    Bang,
    Minus,
}

/// The closed set of infix operator kinds.
#[derive(Debug, Clone, Copy, PartialEq, Eq, Structural)]
pub enum InfixOperator {
    Plus,
    Minus,
    Asterisk,
    Slash,
    Equal,
    NotEqual,
    LessThan,
    GreaterThan,
}

/// The callee position is closed: every value that can stand there is a
/// bare identifier or an inline function literal; no other expression shape
/// is representable as a callee.
pub proof fn lemma_callable_closed(c: CallableExpression)
    ensures
        c is Identifier || c is Function,
{
}

} // verus!
