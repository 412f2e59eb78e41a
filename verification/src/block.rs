//! Which expression, if any, supplies a block's value.
//!
//! A block's result is decided by its last statement alone: a trailing
//! non-terminating expression statement propagates its expression as the
//! block's result; an empty block, or one ending in a `let`, a `return` or a
//! terminating expression statement, produces no value. Non-terminating tags
//! on earlier statements are preserved in the tree but have no effect here.

use vstd::prelude::*;

use crate::ast::BlockExpression;
use crate::ast::Expression;
use crate::ast::ExpressionStatement;
use crate::ast::Statement;
use crate::model::ExprModel;
use crate::model::ExprStmtModel;
use crate::model::StmtModel;

verus! {

/// The result an evaluator must give a block with these statements: the
/// expression of a trailing non-terminating expression statement, or no
/// value. This classification is a function of the tree alone.
pub open spec fn block_result(statements: Seq<StmtModel>) -> Option<ExprModel> {
    if statements.len() == 0 {
        Option::None
    } else {
        match statements.last() {
            StmtModel::Expression(ExprStmtModel::NonTerminating(e)) => Option::Some(e),
            _ => Option::None,
        }
    }
}

impl BlockExpression {
    /// The statement-model rule, decided on the tree itself: the expression
    /// whose value becomes this block's result, or `None` when the block
    /// produces no value.
    pub fn result_expression(&self) -> (r: Option<&Expression>)
        ensures
            match r {
                Option::Some(e) => block_result(self@.statements) == Option::Some(e@),
                Option::None => block_result(self@.statements) is None,
            },
    {
        if self.statements.len() == 0 {
            Option::None
        } else {
            match &self.statements[self.statements.len() - 1] {
                Statement::Expression(ExpressionStatement::NonTerminating(e)) => Option::Some(e),
                _ => Option::None,
            }
        }
    }

    /// Whether this block produces a value at all.
    pub fn produces_value(&self) -> (r: bool)
        ensures
            r == (block_result(self@.statements) is Some),
    {
        self.result_expression().is_some()
    }
}

impl ExpressionStatement {
    /// Whether this statement's value is discarded once evaluated.
    pub fn is_terminating(&self) -> (r: bool)
        ensures
            r == (self@ is Terminating),
    {
        match self {
            ExpressionStatement::Terminating(_) => true,
            ExpressionStatement::NonTerminating(_) => false,
        }
    }

    /// The wrapped expression, whatever the tag says about its value.
    pub fn expression(&self) -> (r: &Expression)
        ensures
            self@ is Terminating ==> self@ == ExprStmtModel::Terminating(r@),
            self@ is NonTerminating ==> self@ == ExprStmtModel::NonTerminating(r@),
    {
        match self {
            ExpressionStatement::Terminating(e) => e,
            ExpressionStatement::NonTerminating(e) => e,
        }
    }
}

/// The classification is a static property of the tree: two blocks with
/// equal models — in particular, one block read twice — classify the same
/// way every time.
pub proof fn lemma_block_result_deterministic(a: BlockExpression, b: BlockExpression)
    requires
        a@ == b@,
    ensures
        block_result(a@.statements) == block_result(b@.statements),
{
}

/// An empty block produces no value.
pub proof fn lemma_empty_block_no_value(b: BlockExpression)
    requires
        b.statements@.len() == 0,
    ensures
        block_result(b@.statements) is None,
{
}

/// A trailing non-terminating expression statement propagates: its
/// expression is the block's result, whatever stands before it.
pub proof fn lemma_trailing_non_terminating(statements: Seq<StmtModel>, e: ExprModel)
    requires
        statements.len() > 0,
        statements.last() == StmtModel::Expression(ExprStmtModel::NonTerminating(e)),
    ensures
        block_result(statements) == Option::Some(e),
{
}

/// A trailing terminating expression statement discards: the block produces
/// no value, although the expression is still evaluated for its effects.
pub proof fn lemma_trailing_terminating(statements: Seq<StmtModel>, e: ExprModel)
    requires
        statements.len() > 0,
        statements.last() == StmtModel::Expression(ExprStmtModel::Terminating(e)),
    ensures
        block_result(statements) is None,
{
}

/// Only the last statement decides: two non-empty statement sequences with
/// the same last statement classify identically, whatever stands earlier.
pub proof fn lemma_block_result_depends_on_last(a: Seq<StmtModel>, b: Seq<StmtModel>)
    requires
        a.len() > 0,
        b.len() > 0,
        a.last() == b.last(),
    ensures
        block_result(a) == block_result(b),
{
}

} // verus!
