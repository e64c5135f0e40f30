//! Operator model behaviour: spellings, precedence and associativity,
//! and the driver's unsupported ahead-of-time path.

use styxc::driver::{compile_to_binary, CompilerError};
use styxc::operations::{Associativity, BinaryOp, UnaryExprKind};

#[test]
fn unary_spellings_resolve() {
    assert_eq!(UnaryExprKind::from_str("++"), Some(UnaryExprKind::Increment));
    assert_eq!(UnaryExprKind::from_str("--"), Some(UnaryExprKind::Decrement));
    assert_eq!(UnaryExprKind::from_str("&"), Some(UnaryExprKind::AddressOf));
    assert_eq!(UnaryExprKind::from_str("~"), Some(UnaryExprKind::BitwiseNot));
    assert_eq!(UnaryExprKind::from_str("!"), Some(UnaryExprKind::LogicalNot));
    assert_eq!(UnaryExprKind::from_str("*"), Some(UnaryExprKind::Dereference));
    assert_eq!(UnaryExprKind::from_str("-"), None);
    assert_eq!(UnaryExprKind::from_str("@"), None);
}

#[test]
fn index_spellings_resolve() {
    assert_eq!(UnaryExprKind::from_str("[12]"), Some(UnaryExprKind::Index(12)));
    assert_eq!(UnaryExprKind::from_str("[+5]"), Some(UnaryExprKind::Index(5)));
    // Anything unreadable between the brackets indexes at zero.
    assert_eq!(UnaryExprKind::from_str("[]"), Some(UnaryExprKind::Index(0)));
    assert_eq!(UnaryExprKind::from_str("[abc]"), Some(UnaryExprKind::Index(0)));
    assert_eq!(
        UnaryExprKind::from_str("[99999999999999999999999]"),
        Some(UnaryExprKind::Index(0))
    );
}

#[test]
fn unary_precedence_table() {
    assert_eq!(UnaryExprKind::Increment.precedence(), 1);
    assert_eq!(UnaryExprKind::Decrement.precedence(), 1);
    assert_eq!(UnaryExprKind::Index(3).precedence(), 1);
    assert_eq!(UnaryExprKind::AddressOf.precedence(), 2);
    assert_eq!(UnaryExprKind::BitwiseNot.precedence(), 2);
    assert_eq!(UnaryExprKind::LogicalNot.precedence(), 2);
    assert_eq!(UnaryExprKind::Dereference.precedence(), 2);
    assert_eq!(UnaryExprKind::Negation.precedence(), 2);
}

#[test]
fn unary_associativity_table() {
    assert_eq!(UnaryExprKind::Increment.associativity(), Associativity::Ltr);
    assert_eq!(UnaryExprKind::Index(0).associativity(), Associativity::Ltr);
    assert_eq!(UnaryExprKind::Negation.associativity(), Associativity::Rtl);
    assert_eq!(UnaryExprKind::LogicalNot.associativity(), Associativity::Rtl);
}

#[test]
fn binary_spellings_resolve() {
    assert_eq!(BinaryOp::from_str("+"), Some(BinaryOp::Plus));
    assert_eq!(BinaryOp::from_str("-"), Some(BinaryOp::Minus));
    assert_eq!(BinaryOp::from_str("*"), Some(BinaryOp::Mul));
    assert_eq!(BinaryOp::from_str("/"), Some(BinaryOp::Div));
    assert_eq!(BinaryOp::from_str("%"), Some(BinaryOp::Mod));
    assert_eq!(BinaryOp::from_str("&"), Some(BinaryOp::BitwiseAnd));
    assert_eq!(BinaryOp::from_str("|"), Some(BinaryOp::BitwiseOr));
    assert_eq!(BinaryOp::from_str("^"), Some(BinaryOp::BitwiseXor));
    assert_eq!(BinaryOp::from_str("<<"), Some(BinaryOp::Shl));
    assert_eq!(BinaryOp::from_str(">>"), Some(BinaryOp::Shr));
    assert_eq!(BinaryOp::from_str("=="), Some(BinaryOp::Eq));
    assert_eq!(BinaryOp::from_str("!="), Some(BinaryOp::Ne));
    assert_eq!(BinaryOp::from_str("<"), Some(BinaryOp::Lt));
    assert_eq!(BinaryOp::from_str(">"), Some(BinaryOp::Gt));
    assert_eq!(BinaryOp::from_str("<="), Some(BinaryOp::Le));
    assert_eq!(BinaryOp::from_str(">="), Some(BinaryOp::Ge));
    assert_eq!(BinaryOp::from_str("="), Some(BinaryOp::Assign));
    assert_eq!(BinaryOp::from_str("+="), Some(BinaryOp::PlusEq));
    assert_eq!(BinaryOp::from_str("-="), Some(BinaryOp::MinusEq));
    assert_eq!(BinaryOp::from_str("*="), Some(BinaryOp::MulEq));
    assert_eq!(BinaryOp::from_str("/="), Some(BinaryOp::DivEq));
    assert_eq!(BinaryOp::from_str("%="), Some(BinaryOp::ModEq));
    assert_eq!(BinaryOp::from_str("&="), Some(BinaryOp::BitwiseAndEq));
    assert_eq!(BinaryOp::from_str("|="), Some(BinaryOp::BitwiseOrEq));
    assert_eq!(BinaryOp::from_str("^="), Some(BinaryOp::BitwiseXorEq));
    assert_eq!(BinaryOp::from_str("<<="), Some(BinaryOp::ShlEq));
    assert_eq!(BinaryOp::from_str(">>="), Some(BinaryOp::ShrEq));
    assert_eq!(BinaryOp::from_str("**"), None);
    assert_eq!(BinaryOp::from_str(""), None);
}

#[test]
fn binary_precedence_table() {
    assert_eq!(BinaryOp::Mul.precedence(), 5);
    assert_eq!(BinaryOp::Div.precedence(), 5);
    assert_eq!(BinaryOp::Mod.precedence(), 5);
    assert_eq!(BinaryOp::Plus.precedence(), 6);
    assert_eq!(BinaryOp::Minus.precedence(), 6);
    assert_eq!(BinaryOp::Shl.precedence(), 7);
    assert_eq!(BinaryOp::Shr.precedence(), 7);
    assert_eq!(BinaryOp::BitwiseAnd.precedence(), 8);
    assert_eq!(BinaryOp::BitwiseXor.precedence(), 9);
    assert_eq!(BinaryOp::BitwiseOr.precedence(), 10);
    assert_eq!(BinaryOp::Lt.precedence(), 11);
    assert_eq!(BinaryOp::Ge.precedence(), 11);
    assert_eq!(BinaryOp::Eq.precedence(), 12);
    assert_eq!(BinaryOp::Ne.precedence(), 12);
    assert_eq!(BinaryOp::LogicalAnd.precedence(), 13);
    assert_eq!(BinaryOp::LogicalOr.precedence(), 14);
    assert_eq!(BinaryOp::Assign.precedence(), 15);
    assert_eq!(BinaryOp::PlusEq.precedence(), 15);
    assert_eq!(BinaryOp::ShlEq.precedence(), 15);
    // Multiplication binds tighter than addition, which the lexer's
    // token stream for `1 + 2 * 3` relies on downstream.
    assert!(BinaryOp::Mul.precedence() < BinaryOp::Plus.precedence());
}

#[test]
fn binary_associativity_is_left_to_right() {
    assert_eq!(BinaryOp::Plus.associativity(), Associativity::Ltr);
    assert_eq!(BinaryOp::Assign.associativity(), Associativity::Ltr);
    assert_eq!(BinaryOp::ShlEq.associativity(), Associativity::Ltr);
    assert_eq!(BinaryOp::LogicalOr.associativity(), Associativity::Ltr);
}

#[test]
fn recursion_floor_climbs_past_the_rank() {
    assert_eq!(BinaryOp::Mul.recursion_floor(), 6);
    assert_eq!(BinaryOp::Plus.recursion_floor(), 7);
    assert_eq!(BinaryOp::Assign.recursion_floor(), 16);
}

#[test]
fn ahead_of_time_mode_is_unsupported() {
    let res = compile_to_binary("fn main() {}", "/tmp/out");
    assert_eq!(res, Err(CompilerError::UnsupportedMode));
    assert_eq!(
        CompilerError::UnsupportedMode.message(),
        "unsupported compiler mode"
    );
}
