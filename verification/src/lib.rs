//! Abstract syntax tree for a small expression-oriented scripting language.
//!
//! The tree is a pure value: it is built once (by a parser, which is not part
//! of this crate), traversed and compared, and never mutated. The crate
//! provides the node types themselves (`ast`), a mathematical model of every
//! node (`model`), deep structural equality (`equality`), deep copies
//! (`duplicate`), the rule that decides which expression a block's value
//! comes from (`block`), and the canonical textual symbol of every operator
//! (`symbol`).

pub mod ast;
pub mod block;
pub mod duplicate;
pub mod equality;
pub mod model;
pub mod symbol;

pub use ast::BlockExpression;
pub use ast::BooleanLiteral;
pub use ast::CallExpression;
pub use ast::CallableExpression;
pub use ast::Expression;
pub use ast::ExpressionStatement;
pub use ast::FunctionLiteral;
pub use ast::IdentifierLiteral;
pub use ast::IfExpression;
pub use ast::InfixExpression;
pub use ast::InfixOperator;
pub use ast::IntegerLiteral;
pub use ast::LetStatement;
pub use ast::PrefixExpression;
pub use ast::PrefixOperator;
pub use ast::Program;
pub use ast::ReturnStatement;
pub use ast::Statement;
