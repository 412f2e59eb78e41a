//! The canonical operator symbols and their round trip.

use script_ast::InfixOperator;
use script_ast::PrefixOperator;

fn prefix_operators() -> Vec<PrefixOperator> {
    vec![PrefixOperator::Bang, PrefixOperator::Minus]
}

fn infix_operators() -> Vec<InfixOperator> {
    vec![
        InfixOperator::Plus,
        InfixOperator::Minus,
        InfixOperator::Asterisk,
        InfixOperator::Slash,
        InfixOperator::Equal,
        InfixOperator::NotEqual,
        InfixOperator::LessThan,
        InfixOperator::GreaterThan,
    ]
}

#[test]
fn prefix_symbols_are_canonical() {
    assert_eq!(PrefixOperator::Bang.symbol(), "!");
    assert_eq!(PrefixOperator::Minus.symbol(), "-");
}

#[test]
fn infix_symbols_are_canonical() {
    assert_eq!(InfixOperator::Plus.symbol(), "+");
    assert_eq!(InfixOperator::Minus.symbol(), "-");
    assert_eq!(InfixOperator::Asterisk.symbol(), "*");
    assert_eq!(InfixOperator::Slash.symbol(), "/");
    assert_eq!(InfixOperator::Equal.symbol(), "==");
    assert_eq!(InfixOperator::NotEqual.symbol(), "!=");
    assert_eq!(InfixOperator::LessThan.symbol(), "<");
    assert_eq!(InfixOperator::GreaterThan.symbol(), ">");
}

#[test]
fn prefix_symbols_round_trip() {
    for op in prefix_operators() {
        assert_eq!(PrefixOperator::from_symbol(&op.symbol()), Some(op));
    }
}

#[test]
fn infix_symbols_round_trip() {
    for op in infix_operators() {
        assert_eq!(InfixOperator::from_symbol(&op.symbol()), Some(op));
    }
}

#[test]
fn prefix_symbols_are_distinct() {
    // Injectivity, checked against a lookup kept by the test itself.
    let mut seen: Vec<String> = Vec::new();
    for op in prefix_operators() {
        let symbol = op.symbol();
        assert!(!seen.contains(&symbol));
        seen.push(symbol);
    }
}

#[test]
fn infix_symbols_are_distinct() {
    let mut seen: Vec<String> = Vec::new();
    for op in infix_operators() {
        let symbol = op.symbol();
        assert!(!seen.contains(&symbol));
        seen.push(symbol);
    }
}

#[test]
fn unknown_symbols_map_to_nothing() {
    assert_eq!(PrefixOperator::from_symbol(&"+".to_string()), None);
    assert_eq!(PrefixOperator::from_symbol(&"".to_string()), None);
    assert_eq!(InfixOperator::from_symbol(&"?".to_string()), None);
    assert_eq!(InfixOperator::from_symbol(&"=".to_string()), None);
    assert_eq!(InfixOperator::from_symbol(&"".to_string()), None);
}
