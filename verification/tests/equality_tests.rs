//! Structural equality over whole trees.

use script_ast::BlockExpression;
use script_ast::BooleanLiteral;
use script_ast::CallExpression;
use script_ast::CallableExpression;
use script_ast::Expression;
use script_ast::ExpressionStatement;
use script_ast::FunctionLiteral;
use script_ast::IdentifierLiteral;
use script_ast::IfExpression;
use script_ast::InfixExpression;
use script_ast::InfixOperator;
use script_ast::IntegerLiteral;
use script_ast::LetStatement;
use script_ast::PrefixExpression;
use script_ast::PrefixOperator;
use script_ast::Program;
use script_ast::ReturnStatement;
use script_ast::Statement;

fn ident(name: &str) -> IdentifierLiteral {
    IdentifierLiteral {
        value: name.to_string(),
    }
}

fn int_lit(value: isize) -> Expression {
    Expression::Int(IntegerLiteral { value })
}

/// A tree exercising every expression and statement variant.
fn sample_program() -> Program {
    let body = BlockExpression {
        statements: vec![
            Statement::Let(LetStatement {
                name: ident("x"),
                value: Expression::Infix(InfixExpression {
                    left: Box::new(int_lit(1)),
                    operator: InfixOperator::Plus,
                    right: Box::new(Expression::Prefix(PrefixExpression {
                        operator: PrefixOperator::Minus,
                        right: Box::new(int_lit(2)),
                    })),
                }),
            }),
            Statement::Return(ReturnStatement {
                return_value: Some(Expression::Boolean(BooleanLiteral { value: true })),
            }),
            Statement::Expression(ExpressionStatement::NonTerminating(Expression::Identifier(
                ident("x"),
            ))),
        ],
    };
    let function = FunctionLiteral {
        parameters: vec![ident("a"), ident("b")],
        body,
    };
    let call = Expression::Call(CallExpression {
        function: CallableExpression::Function(function),
        arguments: vec![int_lit(3), Expression::NoneLiteral],
    });
    let conditional = Expression::If(IfExpression {
        condition: Box::new(Expression::Prefix(PrefixExpression {
            operator: PrefixOperator::Bang,
            right: Box::new(Expression::Boolean(BooleanLiteral { value: false })),
        })),
        consequence: BlockExpression {
            statements: vec![Statement::Expression(ExpressionStatement::NonTerminating(
                call,
            ))],
        },
        alternative: Some(BlockExpression { statements: vec![] }),
    });
    Program {
        statements: vec![
            Statement::Expression(ExpressionStatement::Terminating(conditional)),
            Statement::Expression(ExpressionStatement::NonTerminating(Expression::Block(
                BlockExpression { statements: vec![] },
            ))),
        ],
    }
}

#[test]
fn equality_is_reflexive() {
    let p = sample_program();
    assert!(p.tree_eq(&p));
}

#[test]
fn independently_built_trees_compare_equal() {
    let a = sample_program();
    let b = sample_program();
    assert!(a.tree_eq(&b));
    assert!(b.tree_eq(&a));
    assert_eq!(a.statements, b.statements);
}

#[test]
fn clone_compares_equal() {
    let a = sample_program();
    let first = a.statements[0].clone();
    assert!(first.tree_eq(&a.statements[0]));
    assert_eq!(first, a.statements[0]);
}

#[test]
fn different_integer_values_differ() {
    assert!(!int_lit(1).tree_eq(&int_lit(2)));
    assert_ne!(int_lit(1), int_lit(2));
    assert!(int_lit(1).tree_eq(&int_lit(1)));
}

#[test]
fn different_identifier_names_differ() {
    assert!(!ident("x").tree_eq(&ident("y")));
    assert!(ident("x").tree_eq(&ident("x")));
}

#[test]
fn different_variants_differ() {
    let boolean = Expression::Boolean(BooleanLiteral { value: true });
    assert!(!int_lit(1).tree_eq(&boolean));
    assert!(!boolean.tree_eq(&Expression::NoneLiteral));
}

#[test]
fn terminating_tag_distinguishes_statements() {
    let terminating = Statement::Expression(ExpressionStatement::Terminating(int_lit(5)));
    let non_terminating = Statement::Expression(ExpressionStatement::NonTerminating(int_lit(5)));
    assert!(!terminating.tree_eq(&non_terminating));
    assert_ne!(terminating, non_terminating);
}

#[test]
fn missing_return_value_differs_from_none_literal() {
    let bare = ReturnStatement { return_value: None };
    let explicit = ReturnStatement {
        return_value: Some(Expression::NoneLiteral),
    };
    assert!(!bare.tree_eq(&explicit));
    assert!(bare.tree_eq(&ReturnStatement { return_value: None }));
}

#[test]
fn missing_alternative_differs_from_empty_alternative() {
    let without_else = IfExpression {
        condition: Box::new(Expression::Boolean(BooleanLiteral { value: true })),
        consequence: BlockExpression { statements: vec![] },
        alternative: None,
    };
    let with_empty_else = IfExpression {
        condition: Box::new(Expression::Boolean(BooleanLiteral { value: true })),
        consequence: BlockExpression { statements: vec![] },
        alternative: Some(BlockExpression { statements: vec![] }),
    };
    assert!(!without_else.tree_eq(&with_empty_else));
    assert_ne!(without_else, with_empty_else);
}

#[test]
fn statement_order_matters() {
    let a = BlockExpression {
        statements: vec![
            Statement::Expression(ExpressionStatement::Terminating(int_lit(1))),
            Statement::Expression(ExpressionStatement::Terminating(int_lit(2))),
        ],
    };
    let b = BlockExpression {
        statements: vec![
            Statement::Expression(ExpressionStatement::Terminating(int_lit(2))),
            Statement::Expression(ExpressionStatement::Terminating(int_lit(1))),
        ],
    };
    assert!(!a.tree_eq(&b));
}

#[test]
fn extra_statement_differs() {
    let a = Program {
        statements: vec![Statement::Expression(ExpressionStatement::Terminating(
            int_lit(1),
        ))],
    };
    let b = Program { statements: vec![] };
    assert!(!a.tree_eq(&b));
    assert!(b.tree_eq(&Program { statements: vec![] }));
}

#[test]
fn parameter_lists_compare_by_name_and_order() {
    let f = |names: Vec<&str>| FunctionLiteral {
        parameters: names.into_iter().map(ident).collect(),
        body: BlockExpression { statements: vec![] },
    };
    assert!(f(vec!["a", "b"]).tree_eq(&f(vec!["a", "b"])));
    assert!(!f(vec!["a", "b"]).tree_eq(&f(vec!["b", "a"])));
    assert!(!f(vec!["a", "b"]).tree_eq(&f(vec!["a"])));
}

#[test]
fn callable_shapes_compare() {
    let by_name = CallableExpression::Identifier(ident("f"));
    let inline = CallableExpression::Function(FunctionLiteral {
        parameters: vec![],
        body: BlockExpression { statements: vec![] },
    });
    assert!(by_name.tree_eq(&CallableExpression::Identifier(ident("f"))));
    assert!(!by_name.tree_eq(&inline));
}
