//! The block-result rule: which statement, if any, supplies a block's value.

use script_ast::BlockExpression;
use script_ast::Expression;
use script_ast::ExpressionStatement;
use script_ast::IdentifierLiteral;
use script_ast::IntegerLiteral;
use script_ast::LetStatement;
use script_ast::ReturnStatement;
use script_ast::Statement;

fn ident_expr(name: &str) -> Expression {
    Expression::Identifier(IdentifierLiteral {
        value: name.to_string(),
    })
}

fn int_lit(value: isize) -> Expression {
    Expression::Int(IntegerLiteral { value })
}

#[test]
fn empty_block_produces_no_value() {
    let block = BlockExpression { statements: vec![] };
    assert!(block.result_expression().is_none());
    assert!(!block.produces_value());
}

#[test]
fn trailing_non_terminating_propagates() {
    let block = BlockExpression {
        statements: vec![
            Statement::Let(LetStatement {
                name: IdentifierLiteral {
                    value: "x".to_string(),
                },
                value: int_lit(1),
            }),
            Statement::Expression(ExpressionStatement::NonTerminating(ident_expr("x"))),
        ],
    };
    let result = block.result_expression().expect("a trailing value");
    assert!(result.tree_eq(&ident_expr("x")));
    assert!(block.produces_value());
}

#[test]
fn trailing_terminating_discards() {
    let block = BlockExpression {
        statements: vec![Statement::Expression(ExpressionStatement::Terminating(
            int_lit(5),
        ))],
    };
    assert!(block.result_expression().is_none());
    assert!(!block.produces_value());
}

#[test]
fn trailing_let_produces_no_value() {
    let block = BlockExpression {
        statements: vec![
            Statement::Expression(ExpressionStatement::NonTerminating(int_lit(1))),
            Statement::Let(LetStatement {
                name: IdentifierLiteral {
                    value: "x".to_string(),
                },
                value: int_lit(2),
            }),
        ],
    };
    assert!(block.result_expression().is_none());
}

#[test]
fn trailing_return_produces_no_value() {
    let block = BlockExpression {
        statements: vec![Statement::Return(ReturnStatement { return_value: None })],
    };
    assert!(block.result_expression().is_none());
}

#[test]
fn classification_is_deterministic() {
    let block = BlockExpression {
        statements: vec![Statement::Expression(ExpressionStatement::NonTerminating(
            int_lit(7),
        ))],
    };
    let first = block.result_expression().expect("a value");
    let second = block.result_expression().expect("a value");
    assert!(first.tree_eq(second));
    assert_eq!(block.produces_value(), block.produces_value());
}

#[test]
fn only_last_statement_decides() {
    let a = BlockExpression {
        statements: vec![
            Statement::Expression(ExpressionStatement::Terminating(int_lit(1))),
            Statement::Expression(ExpressionStatement::NonTerminating(int_lit(9))),
        ],
    };
    let b = BlockExpression {
        statements: vec![
            Statement::Expression(ExpressionStatement::NonTerminating(int_lit(2))),
            Statement::Expression(ExpressionStatement::NonTerminating(int_lit(9))),
        ],
    };
    let ra = a.result_expression().expect("a value");
    let rb = b.result_expression().expect("a value");
    assert!(ra.tree_eq(rb));
    assert!(ra.tree_eq(&int_lit(9)));
}

#[test]
fn expression_statement_tag_and_inner() {
    let discarded = ExpressionStatement::Terminating(int_lit(5));
    let kept = ExpressionStatement::NonTerminating(int_lit(5));
    assert!(discarded.is_terminating());
    assert!(!kept.is_terminating());
    assert!(discarded.expression().tree_eq(&int_lit(5)));
    assert!(kept.expression().tree_eq(&int_lit(5)));
}
