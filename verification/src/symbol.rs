//! The canonical textual symbol of every operator.
//!
//! Each operator kind renders to exactly one fixed one-or-two-character
//! symbol, for diagnostics and pretty-printing. The mapping is total by
//! construction and injective by the lemmas below, so mapping an operator to
//! its symbol and looking the symbol up again recovers the operator.

use vstd::prelude::*;

use crate::ast::InfixOperator;
use crate::ast::PrefixOperator;

verus! {

/// The canonical symbol of a prefix operator.
pub open spec fn prefix_symbol(op: PrefixOperator) -> Seq<char> {
    match op {
        PrefixOperator::Bang => seq!['!'],
        PrefixOperator::Minus => seq!['-'],
    }
}

/// The canonical symbol of an infix operator.
pub open spec fn infix_symbol(op: InfixOperator) -> Seq<char> {
    match op {
        InfixOperator::Plus => seq!['+'],
        InfixOperator::Minus => seq!['-'],
        InfixOperator::Asterisk => seq!['*'],
        InfixOperator::Slash => seq!['/'],
        InfixOperator::Equal => seq!['=', '='],
        InfixOperator::NotEqual => seq!['!', '='],
        InfixOperator::LessThan => seq!['<'],
        InfixOperator::GreaterThan => seq!['>'],
    }
}

/// The prefix operator whose canonical symbol is `s`, if any.
pub open spec fn prefix_of_symbol(s: Seq<char>) -> Option<PrefixOperator> {
    if s == prefix_symbol(PrefixOperator::Bang) {
        Option::Some(PrefixOperator::Bang)
    } else if s == prefix_symbol(PrefixOperator::Minus) {
        Option::Some(PrefixOperator::Minus)
    } else {
        Option::None
    }
}

/// The infix operator whose canonical symbol is `s`, if any.
pub open spec fn infix_of_symbol(s: Seq<char>) -> Option<InfixOperator> {
    if s == infix_symbol(InfixOperator::Plus) {
        Option::Some(InfixOperator::Plus)
    } else if s == infix_symbol(InfixOperator::Minus) {
        Option::Some(InfixOperator::Minus)
    } else if s == infix_symbol(InfixOperator::Asterisk) {
        Option::Some(InfixOperator::Asterisk)
    } else if s == infix_symbol(InfixOperator::Slash) {
        Option::Some(InfixOperator::Slash)
    } else if s == infix_symbol(InfixOperator::Equal) {
        Option::Some(InfixOperator::Equal)
    } else if s == infix_symbol(InfixOperator::NotEqual) {
        Option::Some(InfixOperator::NotEqual)
    } else if s == infix_symbol(InfixOperator::LessThan) {
        Option::Some(InfixOperator::LessThan)
    } else if s == infix_symbol(InfixOperator::GreaterThan) {
        Option::Some(InfixOperator::GreaterThan)
    } else {
        Option::None
    }
}

impl PrefixOperator {
    /// The canonical textual symbol of this operator.
    pub fn symbol(&self) -> (r: String)
        ensures
            r@ == prefix_symbol(*self),
    {
        match self {
            PrefixOperator::Bang => {
                let s = "!".to_owned();
                proof {
                    reveal_strlit("!");
                    assert(s@ =~= seq!['!']);
                }
                s
            },
            PrefixOperator::Minus => {
                let s = "-".to_owned();
                proof {
                    reveal_strlit("-");
                    assert(s@ =~= seq!['-']);
                }
                s
            },
        }
    }

    /// The prefix operator written with the given symbol, if any.
    pub fn from_symbol(s: &String) -> (r: Option<PrefixOperator>)
        ensures
            r == prefix_of_symbol(s@),
    {
        let bang = "!".to_owned();
        let minus = "-".to_owned();
        proof {
            reveal_strlit("!");
            reveal_strlit("-");
            assert(bang@ =~= seq!['!']);
            assert(minus@ =~= seq!['-']);
        }
        if *s == bang {
            Option::Some(PrefixOperator::Bang)
        } else if *s == minus {
            Option::Some(PrefixOperator::Minus)
        } else {
            Option::None
        }
    }
}

impl InfixOperator {
    /// The canonical textual symbol of this operator.
    pub fn symbol(&self) -> (r: String)
        ensures
            r@ == infix_symbol(*self),
    {
        match self {
            InfixOperator::Plus => {
                let s = "+".to_owned();
                proof {
                    reveal_strlit("+");
                    assert(s@ =~= seq!['+']);
                }
                s
            },
            InfixOperator::Minus => {
                let s = "-".to_owned();
                proof {
                    reveal_strlit("-");
                    assert(s@ =~= seq!['-']);
                }
                s
            },
            InfixOperator::Asterisk => {
                let s = "*".to_owned();
                proof {
                    reveal_strlit("*");
                    assert(s@ =~= seq!['*']);
                }
                s
            },
            InfixOperator::Slash => {
                let s = "/".to_owned();
                proof {
                    reveal_strlit("/");
                    assert(s@ =~= seq!['/']);
                }
                s
            },
            InfixOperator::Equal => {
                let s = "==".to_owned();
                proof {
                    reveal_strlit("==");
                    assert(s@ =~= seq!['=', '=']);
                }
                s
            },
            InfixOperator::NotEqual => {
                let s = "!=".to_owned();
                proof {
                    reveal_strlit("!=");
                    assert(s@ =~= seq!['!', '=']);
                }
                s
            },
            InfixOperator::LessThan => {
                let s = "<".to_owned();
                proof {
                    reveal_strlit("<");
                    assert(s@ =~= seq!['<']);
                }
                s
            },
            InfixOperator::GreaterThan => {
                let s = ">".to_owned();
                proof {
                    reveal_strlit(">");
                    assert(s@ =~= seq!['>']);
                }
                s
            },
        }
    }

    /// The infix operator written with the given symbol, if any.
    pub fn from_symbol(s: &String) -> (r: Option<InfixOperator>)
        ensures
            r == infix_of_symbol(s@),
    {
        let plus = "+".to_owned();
        let minus = "-".to_owned();
        let asterisk = "*".to_owned();
        let slash = "/".to_owned();
        let equal = "==".to_owned();
        let not_equal = "!=".to_owned();
        let less_than = "<".to_owned();
        let greater_than = ">".to_owned();
        proof {
            reveal_strlit("+");
            reveal_strlit("-");
            reveal_strlit("*");
            reveal_strlit("/");
            reveal_strlit("==");
            reveal_strlit("!=");
            reveal_strlit("<");
            reveal_strlit(">");
            assert(plus@ =~= seq!['+']);
            assert(minus@ =~= seq!['-']);
            assert(asterisk@ =~= seq!['*']);
            assert(slash@ =~= seq!['/']);
            assert(equal@ =~= seq!['=', '=']);
            assert(not_equal@ =~= seq!['!', '=']);
            assert(less_than@ =~= seq!['<']);
            assert(greater_than@ =~= seq!['>']);
        }
        if *s == plus {
            Option::Some(InfixOperator::Plus)
        } else if *s == minus {
            Option::Some(InfixOperator::Minus)
        } else if *s == asterisk {
            Option::Some(InfixOperator::Asterisk)
        } else if *s == slash {
            Option::Some(InfixOperator::Slash)
        } else if *s == equal {
            Option::Some(InfixOperator::Equal)
        } else if *s == not_equal {
            Option::Some(InfixOperator::NotEqual)
        } else if *s == less_than {
            Option::Some(InfixOperator::LessThan)
        } else if *s == greater_than {
            Option::Some(InfixOperator::GreaterThan)
        } else {
            Option::None
        }
    }
}

/// The length and characters of every infix symbol, spelled out so that two
/// symbols can be told apart.
proof fn lemma_infix_symbol_chars()
    ensures
        infix_symbol(InfixOperator::Plus).len() == 1,
        infix_symbol(InfixOperator::Minus).len() == 1,
        infix_symbol(InfixOperator::Asterisk).len() == 1,
        infix_symbol(InfixOperator::Slash).len() == 1,
        infix_symbol(InfixOperator::Equal).len() == 2,
        infix_symbol(InfixOperator::NotEqual).len() == 2,
        infix_symbol(InfixOperator::LessThan).len() == 1,
        infix_symbol(InfixOperator::GreaterThan).len() == 1,
        infix_symbol(InfixOperator::Plus)[0] == '+',
        infix_symbol(InfixOperator::Minus)[0] == '-',
        infix_symbol(InfixOperator::Asterisk)[0] == '*',
        infix_symbol(InfixOperator::Slash)[0] == '/',
        infix_symbol(InfixOperator::Equal)[0] == '=',
        infix_symbol(InfixOperator::NotEqual)[0] == '!',
        infix_symbol(InfixOperator::LessThan)[0] == '<',
        infix_symbol(InfixOperator::GreaterThan)[0] == '>',
{
}

/// The symbol mapping of prefix operators is injective: distinct operators
/// render to distinct symbols.
pub proof fn lemma_prefix_symbol_injective(a: PrefixOperator, b: PrefixOperator)
    requires
        prefix_symbol(a) == prefix_symbol(b),
    ensures
        a == b,
{
    assert(prefix_symbol(PrefixOperator::Bang)[0] == '!');
    assert(prefix_symbol(PrefixOperator::Minus)[0] == '-');
}

/// The symbol mapping of infix operators is injective: distinct operators
/// render to distinct symbols.
pub proof fn lemma_infix_symbol_injective(a: InfixOperator, b: InfixOperator)
    requires
        infix_symbol(a) == infix_symbol(b),
    ensures
        a == b,
{
    lemma_infix_symbol_chars();
}

/// Mapping a prefix operator to its symbol and looking the symbol up again
/// recovers the operator.
pub proof fn lemma_prefix_symbol_round_trip(op: PrefixOperator)
    ensures
        prefix_of_symbol(prefix_symbol(op)) == Option::Some(op),
{
    assert(prefix_symbol(PrefixOperator::Bang)[0] == '!');
    assert(prefix_symbol(PrefixOperator::Minus)[0] == '-');
}

/// Mapping an infix operator to its symbol and looking the symbol up again
/// recovers the operator.
pub proof fn lemma_infix_symbol_round_trip(op: InfixOperator)
    ensures
        infix_of_symbol(infix_symbol(op)) == Option::Some(op),
{
    lemma_infix_symbol_chars();
}

} // verus!
