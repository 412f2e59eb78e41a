//! Deep copies.
//!
//! The original tree is never mutated, but consumers may want a tree of
//! their own. Every node type implements `Clone` by hand, with the contract
//! that the copy has the same model as the original — a clone is
//! structurally equal to what it was cloned from.

use vstd::prelude::*;

use crate::ast::BlockExpression;
use crate::ast::BooleanLiteral;
use crate::ast::CallExpression;
use crate::ast::CallableExpression;
use crate::ast::Expression;
use crate::ast::ExpressionStatement;
use crate::ast::FunctionLiteral;
use crate::ast::IdentifierLiteral;
use crate::ast::IfExpression;
use crate::ast::InfixExpression;
use crate::ast::IntegerLiteral;
use crate::ast::LetStatement;
use crate::ast::PrefixExpression;
use crate::ast::ReturnStatement;
use crate::ast::Statement;
use crate::model::expr_model;
use crate::model::exprs_model;
use crate::model::params_model;
use crate::model::stmt_model;
use crate::model::stmts_model;

verus! {

/// Element-wise copy of a statement sequence.
fn clone_stmt_vec(a: &Vec<Statement>) -> (r: Vec<Statement>)
    ensures
        stmts_model(r@) == stmts_model(a@),
    decreases a@,
{
    let mut r: Vec<Statement> = Vec::new();
    let mut i: usize = 0;
    while i < a.len()
        invariant
            i <= a@.len(),
            r@.len() == i,
            forall|j: int| 0 <= j < i ==> stmt_model(r@[j]) == stmt_model(a@[j]),
        decreases a@.len() - i,
    {
        r.push(a[i].clone());
        i += 1;
    }
    proof {
        assert(stmts_model(r@) =~= stmts_model(a@));
    }
    r
}

/// Element-wise copy of an expression sequence.
fn clone_expr_vec(a: &Vec<Expression>) -> (r: Vec<Expression>)
    ensures
        exprs_model(r@) == exprs_model(a@),
    decreases a@,
{
    let mut r: Vec<Expression> = Vec::new();
    let mut i: usize = 0;
    while i < a.len()
        invariant
            i <= a@.len(),
            r@.len() == i,
            forall|j: int| 0 <= j < i ==> expr_model(r@[j]) == expr_model(a@[j]),
        decreases a@.len() - i,
    {
        r.push(a[i].clone());
        i += 1;
    }
    proof {
        assert(exprs_model(r@) =~= exprs_model(a@));
    }
    r
}

/// Element-wise copy of a parameter-name sequence.
fn clone_ident_vec(a: &Vec<IdentifierLiteral>) -> (r: Vec<IdentifierLiteral>)
    ensures
        params_model(r@) == params_model(a@),
{
    let mut r: Vec<IdentifierLiteral> = Vec::new();
    let mut i: usize = 0;
    while i < a.len()
        invariant
            i <= a@.len(),
            r@.len() == i,
            forall|j: int| 0 <= j < i ==> r@[j].value@ == a@[j].value@,
        decreases a@.len() - i,
    {
        r.push(a[i].clone());
        i += 1;
    }
    proof {
        assert(params_model(r@) =~= params_model(a@));
    }
    r
}

impl Clone for Statement {
    /// A deep copy with the same model.
    fn clone(&self) -> (res: Self)
        ensures
            res@ == self@,
        decreases *self,
    {
        match self {
            Statement::Let(l) => Statement::Let(l.clone()),
            Statement::Return(r) => Statement::Return(r.clone()),
            Statement::Expression(e) => Statement::Expression(e.clone()),
        }
    }
}

impl Clone for LetStatement {
    /// A deep copy with the same model.
    fn clone(&self) -> (res: Self)
        ensures
            res@ == self@,
        decreases *self,
    {
        LetStatement { name: self.name.clone(), value: self.value.clone() }
    }
}

impl Clone for ReturnStatement {
    /// A deep copy with the same model.
    fn clone(&self) -> (res: Self)
        ensures
            res@ == self@,
        decreases *self,
    {
        ReturnStatement {
            return_value: match &self.return_value {
                Option::Some(e) => Option::Some(e.clone()),
                Option::None => Option::None,
            },
        }
    }
}

impl Clone for ExpressionStatement {
    /// A deep copy with the same model; the terminating tag is kept.
    fn clone(&self) -> (res: Self)
        ensures
            res@ == self@,
        decreases *self,
    {
        match self {
            ExpressionStatement::Terminating(e) => ExpressionStatement::Terminating(e.clone()),
            ExpressionStatement::NonTerminating(e) => ExpressionStatement::NonTerminating(
                e.clone(),
            ),
        }
    }
}

impl Clone for Expression {
    /// A deep copy with the same model.
    fn clone(&self) -> (res: Self)
        ensures
            res@ == self@,
        decreases *self,
    {
        match self {
            Expression::Identifier(id) => Expression::Identifier(id.clone()),
            Expression::Int(i) => Expression::Int(i.clone()),
            Expression::Boolean(b) => Expression::Boolean(b.clone()),
            Expression::Function(f) => Expression::Function(f.clone()),
            Expression::If(i) => Expression::If(i.clone()),
            Expression::Call(c) => Expression::Call(c.clone()),
            Expression::Block(b) => Expression::Block(b.clone()),
            Expression::Prefix(p) => Expression::Prefix(p.clone()),
            Expression::Infix(i) => Expression::Infix(i.clone()),
            Expression::NoneLiteral => Expression::NoneLiteral,
        }
    }
}

impl Clone for IdentifierLiteral {
    /// A copy with the same name.
    fn clone(&self) -> (res: Self)
        ensures
            res@ == self@,
    {
        IdentifierLiteral { value: self.value.clone() }
    }
}

impl Clone for IntegerLiteral {
    /// A copy with the same value.
    fn clone(&self) -> (res: Self)
        ensures
            res@ == self@,
    {
        IntegerLiteral { value: self.value }
    }
}

impl Clone for BooleanLiteral {
    /// A copy with the same value.
    fn clone(&self) -> (res: Self)
        ensures
            res@ == self@,
    {
        BooleanLiteral { value: self.value }
    }
}

impl Clone for FunctionLiteral {
    /// A deep copy with the same model.
    fn clone(&self) -> (res: Self)
        ensures
            res@ == self@,
        decreases *self,
    {
        FunctionLiteral {
            parameters: clone_ident_vec(&self.parameters),
            body: self.body.clone(),
        }
    }
}

impl Clone for IfExpression {
    /// A deep copy with the same model; a missing else branch stays
    /// missing.
    fn clone(&self) -> (res: Self)
        ensures
            res@ == self@,
        decreases *self,
    {
        IfExpression {
            condition: Box::new((&*self.condition).clone()),
            consequence: self.consequence.clone(),
            alternative: match &self.alternative {
                Option::Some(b) => Option::Some(b.clone()),
                Option::None => Option::None,
            },
        }
    }
}

impl Clone for CallExpression {
    /// A deep copy with the same model.
    fn clone(&self) -> (res: Self)
        ensures
            res@ == self@,
        decreases *self,
    {
        CallExpression {
            function: self.function.clone(),
            arguments: clone_expr_vec(&self.arguments),
        }
    }
}

impl Clone for CallableExpression {
    /// A deep copy with the same model.
    fn clone(&self) -> (res: Self)
        ensures
            res@ == self@,
        decreases *self,
    {
        match self {
            CallableExpression::Identifier(id) => CallableExpression::Identifier(id.clone()),
            CallableExpression::Function(f) => CallableExpression::Function(f.clone()),
        }
    }
}

impl Clone for BlockExpression {
    /// A deep copy with the same model.
    fn clone(&self) -> (res: Self)
        ensures
            res@ == self@,
        decreases *self,
    {
        BlockExpression { statements: clone_stmt_vec(&self.statements) }
    }
}

impl Clone for PrefixExpression {
    /// A deep copy with the same model.
    fn clone(&self) -> (res: Self)
        ensures
            res@ == self@,
        decreases *self,
    {
        PrefixExpression {
            operator: self.operator,
            right: Box::new((&*self.right).clone()),
        }
    }
}

impl Clone for InfixExpression {
    /// A deep copy with the same model.
    fn clone(&self) -> (res: Self)
        ensures
            res@ == self@,
        decreases *self,
    {
        InfixExpression {
            left: Box::new((&*self.left).clone()),
            operator: self.operator,
            right: Box::new((&*self.right).clone()),
        }
    }
}

} // verus!
