//! Deep structural equality.
//!
//! Two trees are the same exactly when they have the same variant at every
//! node with equal fields, recursively, including the order of every
//! sequence — that is, exactly when their models are equal. `tree_eq` decides
//! that relation; the lemmas at the end state that it is an equivalence
//! relation and that an absent else branch stays distinguishable from an
//! explicit empty one.

use vstd::prelude::*;

use crate::ast::BlockExpression;
use crate::ast::BooleanLiteral;
use crate::ast::CallExpression;
use crate::ast::CallableExpression;
use crate::ast::Expression;
use crate::ast::ExpressionStatement;
use crate::ast::FunctionLiteral;
use crate::ast::IdentifierLiteral;
use crate::ast::IfExpression;
use crate::ast::InfixExpression;
use crate::ast::IntegerLiteral;
use crate::ast::LetStatement;
use crate::ast::PrefixExpression;
use crate::ast::Program;
use crate::ast::ReturnStatement;
use crate::ast::Statement;
use crate::model::expr_model;
use crate::model::exprs_model;
use crate::model::params_model;
use crate::model::stmt_model;
use crate::model::stmts_model;

verus! {

/// Element-wise equality of two statement sequences.
fn stmt_vec_eq(a: &Vec<Statement>, b: &Vec<Statement>) -> (r: bool)
    ensures
        r == (stmts_model(a@) == stmts_model(b@)),
    decreases a@,
{
    if a.len() != b.len() {
        proof {
            assert(stmts_model(a@).len() != stmts_model(b@).len());
        }
        return false;
    }
    let mut i: usize = 0;
    while i < a.len()
        invariant
            a@.len() == b@.len(),
            i <= a@.len(),
            forall|j: int| 0 <= j < i ==> stmt_model(a@[j]) == stmt_model(b@[j]),
        decreases a@.len() - i,
    {
        if !a[i].tree_eq(&b[i]) {
            assert(stmts_model(a@)[i as int] != stmts_model(b@)[i as int]);
            return false;
        }
        i += 1;
    }
    proof {
        assert(stmts_model(a@) =~= stmts_model(b@));
    }
    true
}

/// Element-wise equality of two expression sequences.
fn expr_vec_eq(a: &Vec<Expression>, b: &Vec<Expression>) -> (r: bool)
    ensures
        r == (exprs_model(a@) == exprs_model(b@)),
    decreases a@,
{
    if a.len() != b.len() {
        proof {
            assert(exprs_model(a@).len() != exprs_model(b@).len());
        }
        return false;
    }
    let mut i: usize = 0;
    while i < a.len()
        invariant
            a@.len() == b@.len(),
            i <= a@.len(),
            forall|j: int| 0 <= j < i ==> expr_model(a@[j]) == expr_model(b@[j]),
        decreases a@.len() - i,
    {
        if !a[i].tree_eq(&b[i]) {
            assert(exprs_model(a@)[i as int] != exprs_model(b@)[i as int]);
            return false;
        }
        i += 1;
    }
    proof {
        assert(exprs_model(a@) =~= exprs_model(b@));
    }
    true
}

/// Element-wise equality of two parameter-name sequences.
fn ident_vec_eq(a: &Vec<IdentifierLiteral>, b: &Vec<IdentifierLiteral>) -> (r: bool)
    ensures
        r == (params_model(a@) == params_model(b@)),
{
    if a.len() != b.len() {
        proof {
            assert(params_model(a@).len() != params_model(b@).len());
        }
        return false;
    }
    let mut i: usize = 0;
    while i < a.len()
        invariant
            a@.len() == b@.len(),
            i <= a@.len(),
            forall|j: int| 0 <= j < i ==> a@[j].value@ == b@[j].value@,
        decreases a@.len() - i,
    {
        if !a[i].tree_eq(&b[i]) {
            assert(params_model(a@)[i as int] != params_model(b@)[i as int]);
            return false;
        }
        i += 1;
    }
    proof {
        assert(params_model(a@) =~= params_model(b@));
    }
    true
}

impl Program {
    /// Deep structural equality of two programs.
    pub fn tree_eq(&self, other: &Program) -> (r: bool)
        ensures
            r == (self@ == other@),
    {
        stmt_vec_eq(&self.statements, &other.statements)
    }
}

impl Statement {
    /// Deep structural equality of two statements.
    pub fn tree_eq(&self, other: &Statement) -> (r: bool)
        ensures
            r == (self@ == other@),
        decreases *self,
    {
        match (self, other) {
            (Statement::Let(a), Statement::Let(b)) => a.tree_eq(b),
            (Statement::Return(a), Statement::Return(b)) => a.tree_eq(b),
            (Statement::Expression(a), Statement::Expression(b)) => a.tree_eq(b),
            _ => false,
        }
    }
}

impl LetStatement {
    /// Deep structural equality of two let statements.
    pub fn tree_eq(&self, other: &LetStatement) -> (r: bool)
        ensures
            r == (self@ == other@),
        decreases *self,
    {
        self.name.tree_eq(&other.name) && self.value.tree_eq(&other.value)
    }
}

impl ReturnStatement {
    /// Deep structural equality of two return statements. A missing return
    /// value only equals another missing one.
    pub fn tree_eq(&self, other: &ReturnStatement) -> (r: bool)
        ensures
            r == (self@ == other@),
        decreases *self,
    {
        match (&self.return_value, &other.return_value) {
            (Option::Some(a), Option::Some(b)) => a.tree_eq(b),
            (Option::None, Option::None) => true,
            _ => false,
        }
    }
}

impl ExpressionStatement {
    /// Deep structural equality of two expression statements; the
    /// terminating tag must agree.
    pub fn tree_eq(&self, other: &ExpressionStatement) -> (r: bool)
        ensures
            r == (self@ == other@),
        decreases *self,
    {
        match (self, other) {
            (ExpressionStatement::Terminating(a), ExpressionStatement::Terminating(b)) => a.tree_eq(
                b,
            ),
            (
                ExpressionStatement::NonTerminating(a),
                ExpressionStatement::NonTerminating(b),
            ) => a.tree_eq(b),
            _ => false,
        }
    }
}

impl Expression {
    /// Deep structural equality of two expressions.
    pub fn tree_eq(&self, other: &Expression) -> (r: bool)
        ensures
            r == (self@ == other@),
        decreases *self,
    {
        match (self, other) {
            (Expression::Identifier(a), Expression::Identifier(b)) => a.tree_eq(b),
            (Expression::Int(a), Expression::Int(b)) => a.tree_eq(b),
            (Expression::Boolean(a), Expression::Boolean(b)) => a.tree_eq(b),
            (Expression::Function(a), Expression::Function(b)) => a.tree_eq(b),
            (Expression::If(a), Expression::If(b)) => a.tree_eq(b),
            (Expression::Call(a), Expression::Call(b)) => a.tree_eq(b),
            (Expression::Block(a), Expression::Block(b)) => a.tree_eq(b),
            (Expression::Prefix(a), Expression::Prefix(b)) => a.tree_eq(b),
            (Expression::Infix(a), Expression::Infix(b)) => a.tree_eq(b),
            (Expression::NoneLiteral, Expression::NoneLiteral) => true,
            _ => false,
        }
    }
}

impl IdentifierLiteral {
    /// Equality of two identifiers: their names agree character for
    /// character.
    pub fn tree_eq(&self, other: &IdentifierLiteral) -> (r: bool)
        ensures
            r == (self@ == other@),
    {
        self.value == other.value
    }
}

impl IntegerLiteral {
    /// Equality of two integer literals.
    pub fn tree_eq(&self, other: &IntegerLiteral) -> (r: bool)
        ensures
            r == (self@ == other@),
    {
        self.value == other.value
    }
}

impl BooleanLiteral {
    /// Equality of two boolean literals.
    pub fn tree_eq(&self, other: &BooleanLiteral) -> (r: bool)
        ensures
            r == (self@ == other@),
    {
        self.value == other.value
    }
}

impl FunctionLiteral {
    /// Deep structural equality of two function literals: same parameter
    /// names in the same order, and equal bodies.
    pub fn tree_eq(&self, other: &FunctionLiteral) -> (r: bool)
        ensures
            r == (self@ == other@),
        decreases *self,
    {
        ident_vec_eq(&self.parameters, &other.parameters) && self.body.tree_eq(&other.body)
    }
}

impl IfExpression {
    /// Deep structural equality of two conditionals. A missing else branch
    /// only equals another missing one.
    pub fn tree_eq(&self, other: &IfExpression) -> (r: bool)
        ensures
            r == (self@ == other@),
        decreases *self,
    {
        let branches_eq = match (&self.alternative, &other.alternative) {
            (Option::Some(a), Option::Some(b)) => a.tree_eq(b),
            (Option::None, Option::None) => true,
            _ => false,
        };
        branches_eq && self.condition.tree_eq(&other.condition) && self.consequence.tree_eq(
            &other.consequence,
        )
    }
}

impl CallExpression {
    /// Deep structural equality of two calls: equal callees and equal
    /// arguments in the same order.
    pub fn tree_eq(&self, other: &CallExpression) -> (r: bool)
        ensures
            r == (self@ == other@),
        decreases *self,
    {
        self.function.tree_eq(&other.function) && expr_vec_eq(&self.arguments, &other.arguments)
    }
}

impl CallableExpression {
    /// Deep structural equality of two callees.
    pub fn tree_eq(&self, other: &CallableExpression) -> (r: bool)
        ensures
            r == (self@ == other@),
        decreases *self,
    {
        match (self, other) {
            (CallableExpression::Identifier(a), CallableExpression::Identifier(b)) => a.tree_eq(b),
            (CallableExpression::Function(a), CallableExpression::Function(b)) => a.tree_eq(b),
            _ => false,
        }
    }
}

impl BlockExpression {
    /// Deep structural equality of two blocks: equal statements in the same
    /// order.
    pub fn tree_eq(&self, other: &BlockExpression) -> (r: bool)
        ensures
            r == (self@ == other@),
        decreases *self,
    {
        stmt_vec_eq(&self.statements, &other.statements)
    }
}

impl PrefixExpression {
    /// Deep structural equality of two prefix applications.
    pub fn tree_eq(&self, other: &PrefixExpression) -> (r: bool)
        ensures
            r == (self@ == other@),
        decreases *self,
    {
        self.operator == other.operator && self.right.tree_eq(&other.right)
    }
}

impl InfixExpression {
    /// Deep structural equality of two infix applications.
    pub fn tree_eq(&self, other: &InfixExpression) -> (r: bool)
        ensures
            r == (self@ == other@),
        decreases *self,
    {
        self.operator == other.operator && self.left.tree_eq(&other.left) && self.right.tree_eq(
            &other.right,
        )
    }
}

impl PartialEq for Statement {
    /// Structural equality, as the `==` operator.
    fn eq(&self, other: &Statement) -> (r: bool) {
        self.tree_eq(other)
    }
}

impl vstd::std_specs::cmp::PartialEqSpecImpl for Statement {
    open spec fn obeys_eq_spec() -> bool {
        true
    }

    open spec fn eq_spec(&self, other: &Statement) -> bool {
        self@ == other@
    }
}

impl PartialEq for LetStatement {
    /// Structural equality, as the `==` operator.
    fn eq(&self, other: &LetStatement) -> (r: bool) {
        self.tree_eq(other)
    }
}

impl vstd::std_specs::cmp::PartialEqSpecImpl for LetStatement {
    open spec fn obeys_eq_spec() -> bool {
        true
    }

    open spec fn eq_spec(&self, other: &LetStatement) -> bool {
        self@ == other@
    }
}

impl PartialEq for ReturnStatement {
    /// Structural equality, as the `==` operator.
    fn eq(&self, other: &ReturnStatement) -> (r: bool) {
        self.tree_eq(other)
    }
}

impl vstd::std_specs::cmp::PartialEqSpecImpl for ReturnStatement {
    open spec fn obeys_eq_spec() -> bool {
        true
    }

    open spec fn eq_spec(&self, other: &ReturnStatement) -> bool {
        self@ == other@
    }
}

impl PartialEq for ExpressionStatement {
    /// Structural equality, as the `==` operator.
    fn eq(&self, other: &ExpressionStatement) -> (r: bool) {
        self.tree_eq(other)
    }
}

impl vstd::std_specs::cmp::PartialEqSpecImpl for ExpressionStatement {
    open spec fn obeys_eq_spec() -> bool {
        true
    }

    open spec fn eq_spec(&self, other: &ExpressionStatement) -> bool {
        self@ == other@
    }
}

impl PartialEq for Expression {
    /// Structural equality, as the `==` operator.
    fn eq(&self, other: &Expression) -> (r: bool) {
        self.tree_eq(other)
    }
}

impl vstd::std_specs::cmp::PartialEqSpecImpl for Expression {
    open spec fn obeys_eq_spec() -> bool {
        true
    }

    open spec fn eq_spec(&self, other: &Expression) -> bool {
        self@ == other@
    }
}

impl PartialEq for IdentifierLiteral {
    /// Structural equality, as the `==` operator.
    fn eq(&self, other: &IdentifierLiteral) -> (r: bool) {
        self.tree_eq(other)
    }
}

impl vstd::std_specs::cmp::PartialEqSpecImpl for IdentifierLiteral {
    open spec fn obeys_eq_spec() -> bool {
        true
    }

    open spec fn eq_spec(&self, other: &IdentifierLiteral) -> bool {
        self@ == other@
    }
}

impl PartialEq for IntegerLiteral {
    /// Structural equality, as the `==` operator.
    fn eq(&self, other: &IntegerLiteral) -> (r: bool) {
        self.tree_eq(other)
    }
}

impl vstd::std_specs::cmp::PartialEqSpecImpl for IntegerLiteral {
    open spec fn obeys_eq_spec() -> bool {
        true
    }

    open spec fn eq_spec(&self, other: &IntegerLiteral) -> bool {
        self@ == other@
    }
}

impl PartialEq for BooleanLiteral {
    /// Structural equality, as the `==` operator.
    fn eq(&self, other: &BooleanLiteral) -> (r: bool) {
        self.tree_eq(other)
    }
}

impl vstd::std_specs::cmp::PartialEqSpecImpl for BooleanLiteral {
    open spec fn obeys_eq_spec() -> bool {
        true
    }

    open spec fn eq_spec(&self, other: &BooleanLiteral) -> bool {
        self@ == other@
    }
}

impl PartialEq for FunctionLiteral {
    /// Structural equality, as the `==` operator.
    fn eq(&self, other: &FunctionLiteral) -> (r: bool) {
        self.tree_eq(other)
    }
}

impl vstd::std_specs::cmp::PartialEqSpecImpl for FunctionLiteral {
    open spec fn obeys_eq_spec() -> bool {
        true
    }

    open spec fn eq_spec(&self, other: &FunctionLiteral) -> bool {
        self@ == other@
    }
}

impl PartialEq for IfExpression {
    /// Structural equality, as the `==` operator.
    fn eq(&self, other: &IfExpression) -> (r: bool) {
        self.tree_eq(other)
    }
}

impl vstd::std_specs::cmp::PartialEqSpecImpl for IfExpression {
    open spec fn obeys_eq_spec() -> bool {
        true
    }

    open spec fn eq_spec(&self, other: &IfExpression) -> bool {
        self@ == other@
    }
}

impl PartialEq for CallExpression {
    /// Structural equality, as the `==` operator.
    fn eq(&self, other: &CallExpression) -> (r: bool) {
        self.tree_eq(other)
    }
}

impl vstd::std_specs::cmp::PartialEqSpecImpl for CallExpression {
    open spec fn obeys_eq_spec() -> bool {
        true
    }

    open spec fn eq_spec(&self, other: &CallExpression) -> bool {
        self@ == other@
    }
}

impl PartialEq for CallableExpression {
    /// Structural equality, as the `==` operator.
    fn eq(&self, other: &CallableExpression) -> (r: bool) {
        self.tree_eq(other)
    }
}

impl vstd::std_specs::cmp::PartialEqSpecImpl for CallableExpression {
    open spec fn obeys_eq_spec() -> bool {
        true
    }

    open spec fn eq_spec(&self, other: &CallableExpression) -> bool {
        self@ == other@
    }
}

impl PartialEq for BlockExpression {
    /// Structural equality, as the `==` operator.
    fn eq(&self, other: &BlockExpression) -> (r: bool) {
        self.tree_eq(other)
    }
}

impl vstd::std_specs::cmp::PartialEqSpecImpl for BlockExpression {
    open spec fn obeys_eq_spec() -> bool {
        true
    }

    open spec fn eq_spec(&self, other: &BlockExpression) -> bool {
        self@ == other@
    }
}

impl PartialEq for PrefixExpression {
    /// Structural equality, as the `==` operator.
    fn eq(&self, other: &PrefixExpression) -> (r: bool) {
        self.tree_eq(other)
    }
}

impl vstd::std_specs::cmp::PartialEqSpecImpl for PrefixExpression {
    open spec fn obeys_eq_spec() -> bool {
        true
    }

    open spec fn eq_spec(&self, other: &PrefixExpression) -> bool {
        self@ == other@
    }
}

impl PartialEq for InfixExpression {
    /// Structural equality, as the `==` operator.
    fn eq(&self, other: &InfixExpression) -> (r: bool) {
        self.tree_eq(other)
    }
}

impl vstd::std_specs::cmp::PartialEqSpecImpl for InfixExpression {
    open spec fn obeys_eq_spec() -> bool {
        true
    }

    open spec fn eq_spec(&self, other: &InfixExpression) -> bool {
        self@ == other@
    }
}

/// Structural equality is reflexive: comparing any expression with itself
/// can only answer `true`. Since `tree_eq` answers `true` exactly when the
/// models agree, two independently built trees with the same shape and
/// field values compare equal as well.
pub proof fn lemma_tree_eq_reflexive(a: &Expression, r: bool)
    requires
        call_ensures(Expression::tree_eq, (a, a), r),
    ensures
        r,
{
}

/// Structural equality is symmetric: comparing two expressions in either
/// order gives the same answer.
pub proof fn lemma_tree_eq_symmetric(a: &Expression, b: &Expression, r1: bool, r2: bool)
    requires
        call_ensures(Expression::tree_eq, (a, b), r1),
        call_ensures(Expression::tree_eq, (b, a), r2),
    ensures
        r1 == r2,
{
}

/// Structural equality is transitive: two expressions each equal to a third
/// are equal to one another.
pub proof fn lemma_tree_eq_transitive(
    a: &Expression,
    b: &Expression,
    c: &Expression,
    r1: bool,
    r2: bool,
    r3: bool,
)
    requires
        call_ensures(Expression::tree_eq, (a, b), r1),
        call_ensures(Expression::tree_eq, (b, c), r2),
        call_ensures(Expression::tree_eq, (a, c), r3),
        r1,
        r2,
    ensures
        r3,
{
}

/// The equivalence-relation laws hold of whole programs as well: reflexive,
/// symmetric and transitive, stated over the model that `Program::tree_eq`
/// decides.
pub proof fn lemma_program_eq_equivalence(a: &Program, b: &Program, c: &Program)
    ensures
        a@ == a@,
        (a@ == b@) == (b@ == a@),
        a@ == b@ && b@ == c@ ==> a@ == c@,
{
}

/// A conditional without an else branch never equals one with an else
/// branch — not even an explicit empty one: the optional field is kept
/// faithfully in the model.
pub proof fn lemma_missing_alternative_distinct(a: IfExpression, b: IfExpression)
    requires
        a.alternative is None,
        b.alternative is Some,
    ensures
        a@ != b@,
{
}

} // verus!
