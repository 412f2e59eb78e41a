//! The mathematical model of the tree.
//!
//! Every node type has a ghost counterpart in which strings are `Seq<char>`,
//! integers are `int`, and every sequence field is a `Seq` of models. Two
//! nodes are structurally equal exactly when their models are equal, so all
//! contracts in this crate speak of models. The `view` (`@`) of every node
//! type is its model.

use vstd::prelude::*;

use crate::ast::BlockExpression;
use crate::ast::BooleanLiteral;
use crate::ast::CallExpression;
use crate::ast::CallableExpression;
use crate::ast::Expression;
use crate::ast::ExpressionStatement;
use crate::ast::FunctionLiteral;
use crate::ast::IdentifierLiteral;
use crate::ast::IfExpression;
use crate::ast::InfixExpression;
use crate::ast::InfixOperator;
use crate::ast::IntegerLiteral;
use crate::ast::LetStatement;
use crate::ast::PrefixExpression;
use crate::ast::PrefixOperator;
use crate::ast::Program;
use crate::ast::ReturnStatement;
use crate::ast::Statement;

verus! {

/// Model of a `Program`.
pub ghost struct ProgramModel {
    pub statements: Seq<StmtModel>,
}

/// Model of a `Statement`.
pub ghost enum StmtModel {
    Let(LetModel),
    Return(ReturnModel),
    Expression(ExprStmtModel),
}

/// Model of a `LetStatement`.
pub ghost struct LetModel {
    pub name: Seq<char>,
    pub value: ExprModel,
}

/// Model of a `ReturnStatement`.
pub ghost struct ReturnModel {
    pub return_value: Option<ExprModel>,
}

/// Model of an `ExpressionStatement`, keeping the separator tag.
pub ghost enum ExprStmtModel {
    Terminating(ExprModel),
    NonTerminating(ExprModel),
}

/// Model of an `Expression`.
pub ghost enum ExprModel {
    Identifier(Seq<char>),
    Int(int),
    Boolean(bool),
    Function(FunctionModel),
    If(IfModel),
    Call(CallModel),
    Block(BlockModel),
    Prefix(PrefixModel),
    Infix(InfixModel),
    NoneLiteral,
}

/// Model of a `FunctionLiteral`.
pub ghost struct FunctionModel {
    pub parameters: Seq<Seq<char>>,
    pub body: BlockModel,
}

/// Model of an `IfExpression`. `alternative` stays optional, so a missing
/// else branch and an explicit empty one have different models.
pub ghost struct IfModel {
    pub condition: Box<ExprModel>,
    pub consequence: BlockModel,
    pub alternative: Option<BlockModel>,
}

/// Model of a `CallExpression`.
pub ghost struct CallModel {
    pub function: CallableModel,
    pub arguments: Seq<ExprModel>,
}

/// Model of a `CallableExpression`: only the two legal callee shapes exist.
pub ghost enum CallableModel {
    Identifier(Seq<char>),
    Function(FunctionModel),
}

/// Model of a `BlockExpression`.
pub ghost struct BlockModel {
    pub statements: Seq<StmtModel>,
}

/// Model of a `PrefixExpression`. Operator kinds are already pure
/// enumerations, so the model keeps them as they are.
pub ghost struct PrefixModel {
    pub operator: PrefixOperator,
    pub right: Box<ExprModel>,
}

/// Model of an `InfixExpression`.
pub ghost struct InfixModel {
    pub left: Box<ExprModel>,
    pub operator: InfixOperator,
    pub right: Box<ExprModel>,
}

/// The model of each statement of a sequence, in order. The range test
/// around the recursive call only serves the termination check: `Seq::new`
/// applies the closure to in-range indices alone.
pub open spec fn stmts_model(stmts: Seq<Statement>) -> Seq<StmtModel>
    decreases stmts,
{
    Seq::new(
        stmts.len(),
        |i: int|
            if 0 <= i < stmts.len() {
                stmt_model(stmts[i])
            } else {
                arbitrary()
            },
    )
}

/// The model of each parameter name of a sequence, in order.
pub open spec fn params_model(params: Seq<IdentifierLiteral>) -> Seq<Seq<char>> {
    Seq::new(params.len(), |i: int| params[i].value@)
}

/// The model of each argument of a sequence, in order.
pub open spec fn exprs_model(exprs: Seq<Expression>) -> Seq<ExprModel>
    decreases exprs,
{
    Seq::new(
        exprs.len(),
        |i: int|
            if 0 <= i < exprs.len() {
                expr_model(exprs[i])
            } else {
                arbitrary()
            },
    )
}

/// The model of a statement.
pub open spec fn stmt_model(stmt: Statement) -> StmtModel
    decreases stmt,
{
    match stmt {
        Statement::Let(l) => StmtModel::Let(
            LetModel { name: l.name.value@, value: expr_model(l.value) },
        ),
        Statement::Return(r) => StmtModel::Return(
            ReturnModel {
                return_value: match r.return_value {
                    Option::Some(e) => Option::Some(expr_model(e)),
                    Option::None => Option::None,
                },
            },
        ),
        Statement::Expression(es) => StmtModel::Expression(expr_stmt_model(es)),
    }
}

/// The model of an expression statement.
pub open spec fn expr_stmt_model(stmt: ExpressionStatement) -> ExprStmtModel
    decreases stmt,
{
    match stmt {
        ExpressionStatement::Terminating(e) => ExprStmtModel::Terminating(expr_model(e)),
        ExpressionStatement::NonTerminating(e) => ExprStmtModel::NonTerminating(expr_model(e)),
    }
}

/// The model of a block.
pub open spec fn block_model(block: BlockExpression) -> BlockModel
    decreases block,
{
    BlockModel { statements: stmts_model(block.statements@) }
}

/// The model of a function literal.
pub open spec fn function_model(f: FunctionLiteral) -> FunctionModel
    decreases f,
{
    FunctionModel { parameters: params_model(f.parameters@), body: block_model(f.body) }
}

/// The model of a callee.
pub open spec fn callable_model(c: CallableExpression) -> CallableModel
    decreases c,
{
    match c {
        CallableExpression::Identifier(id) => CallableModel::Identifier(id.value@),
        CallableExpression::Function(f) => CallableModel::Function(function_model(f)),
    }
}

/// The model of an expression.
pub open spec fn expr_model(expr: Expression) -> ExprModel
    decreases expr,
{
    match expr {
        Expression::Identifier(id) => ExprModel::Identifier(id.value@),
        Expression::Int(i) => ExprModel::Int(i.value as int),
        Expression::Boolean(b) => ExprModel::Boolean(b.value),
        Expression::Function(f) => ExprModel::Function(function_model(f)),
        Expression::If(i) => ExprModel::If(
            IfModel {
                condition: Box::new(expr_model(*i.condition)),
                consequence: block_model(i.consequence),
                alternative: match i.alternative {
                    Option::Some(b) => Option::Some(block_model(b)),
                    Option::None => Option::None,
                },
            },
        ),
        Expression::Call(c) => ExprModel::Call(
            CallModel {
                function: callable_model(c.function),
                arguments: exprs_model(c.arguments@),
            },
        ),
        Expression::Block(b) => ExprModel::Block(block_model(b)),
        Expression::Prefix(p) => ExprModel::Prefix(
            PrefixModel { operator: p.operator, right: Box::new(expr_model(*p.right)) },
        ),
        Expression::Infix(i) => ExprModel::Infix(
            InfixModel {
                left: Box::new(expr_model(*i.left)),
                operator: i.operator,
                right: Box::new(expr_model(*i.right)),
            },
        ),
        Expression::NoneLiteral => ExprModel::NoneLiteral,
    }
}

impl View for Program {
    type V = ProgramModel;

    open spec fn view(&self) -> ProgramModel {
        ProgramModel { statements: stmts_model(self.statements@) }
    }
}

impl View for Statement {
    type V = StmtModel;

    open spec fn view(&self) -> StmtModel {
        stmt_model(*self)
    }
}

impl View for LetStatement {
    type V = LetModel;

    open spec fn view(&self) -> LetModel {
        LetModel { name: self.name.value@, value: expr_model(self.value) }
    }
}

impl View for ReturnStatement {
    type V = ReturnModel;

    open spec fn view(&self) -> ReturnModel {
        ReturnModel {
            return_value: match self.return_value {
                Option::Some(e) => Option::Some(expr_model(e)),
                Option::None => Option::None,
            },
        }
    }
}

impl View for ExpressionStatement {
    type V = ExprStmtModel;

    open spec fn view(&self) -> ExprStmtModel {
        expr_stmt_model(*self)
    }
}

impl View for Expression {
    type V = ExprModel;

    open spec fn view(&self) -> ExprModel {
        expr_model(*self)
    }
}

impl View for IdentifierLiteral {
    type V = Seq<char>;

    open spec fn view(&self) -> Seq<char> {
        self.value@
    }
}

impl View for IntegerLiteral {
    type V = int;

    open spec fn view(&self) -> int {
        self.value as int
    }
}

impl View for BooleanLiteral {
    type V = bool;

    open spec fn view(&self) -> bool {
        self.value
    }
}

impl View for FunctionLiteral {
    type V = FunctionModel;

    open spec fn view(&self) -> FunctionModel {
        function_model(*self)
    }
}

impl View for IfExpression {
    type V = IfModel;

    open spec fn view(&self) -> IfModel {
        IfModel {
            condition: Box::new(expr_model(*self.condition)),
            consequence: block_model(self.consequence),
            alternative: match self.alternative {
                Option::Some(b) => Option::Some(block_model(b)),
                Option::None => Option::None,
            },
        }
    }
}

impl View for CallExpression {
    type V = CallModel;

    open spec fn view(&self) -> CallModel {
        CallModel {
            function: callable_model(self.function),
            arguments: exprs_model(self.arguments@),
        }
    }
}

impl View for CallableExpression {
    type V = CallableModel;

    open spec fn view(&self) -> CallableModel {
        callable_model(*self)
    }
}

impl View for BlockExpression {
    type V = BlockModel;

    open spec fn view(&self) -> BlockModel {
        block_model(*self)
    }
}

impl View for PrefixExpression {
    type V = PrefixModel;

    open spec fn view(&self) -> PrefixModel {
        PrefixModel { operator: self.operator, right: Box::new(expr_model(*self.right)) }
    }
}

impl View for InfixExpression {
    type V = InfixModel;

    open spec fn view(&self) -> InfixModel {
        InfixModel {
            left: Box::new(expr_model(*self.left)),
            operator: self.operator,
            right: Box::new(expr_model(*self.right)),
        }
    }
}

} // verus!
