//! Operator model: the closed sets of unary and binary operators, their
//! spellings, and the precedence and associativity tables that drive
//! precedence-climbing expression parsing.

use vstd::prelude::*;

verus! {

use crate::ast::{Expr, Ident, Node};
use crate::text::{all_digit_bytes, dec_value, parse_u64_digits};
use vstd::string::StringSliceAdditionalSpecFns;

/// Operator associativity: the direction in which chains of operators of
/// the same precedence bind.
#[derive(Debug, PartialEq, Eq, Structural, Clone, Copy)]
pub enum Associativity {
    /// Left-to-right associativity.
    Ltr,
    /// Right-to-left associativity.
    Rtl,
}

/// The closed set of unary operators: operators acting on one operand.
#[derive(Debug, PartialEq)]
pub enum UnaryExprKind {
    /// The suffix increment operator, `++`.
    Increment,
    /// The suffix decrement operator, `--`.
    Decrement,
    /// The index operator, `[n]`.
    Index(u64),
    /// The address-of operator, `&`.
    AddressOf,
    /// The bitwise not operator, `~`.
    BitwiseNot,
    /// The logical not operator, `!`.
    LogicalNot,
    /// The de-reference operator, `*`.
    Dereference,
    /// The negation operator, `-`.
    Negation,
    /// The call operator, `()`.
    Call(Vec<Expr>),
}

/// The precedence table for unary operators: the postfix forms bind
/// tightest at rank 1, every prefix form at rank 2.
pub open spec fn spec_unary_precedence(op: UnaryExprKind) -> usize {
    match op {
        UnaryExprKind::Increment | UnaryExprKind::Decrement | UnaryExprKind::Index(_) => 1usize,
        _ => 2usize,
    }
}

/// The associativity table for unary operators: postfix forms bind
/// left-to-right, prefix forms right-to-left.
pub open spec fn spec_unary_associativity(op: UnaryExprKind) -> Associativity {
    match op {
        UnaryExprKind::Increment | UnaryExprKind::Decrement | UnaryExprKind::Index(_) => Associativity::Ltr,
        _ => Associativity::Rtl,
    }
}

/// The index carried by a spelled index operator: the bracketed digits
/// when they fit in a `u64` (an optional leading plus sign is accepted),
/// and zero for anything else.
pub open spec fn spec_index_value(inner: Seq<u8>) -> u64 {
    let d = if inner.len() > 0 && inner[0] == 43 {
        inner.drop_first()
    } else {
        inner
    };
    if d.len() > 0 && all_digit_bytes(d) && dec_value(d) <= u64::MAX {
        dec_value(d) as u64
    } else {
        0
    }
}

/// Which unary operator, if any, a byte spelling denotes. A bracketed
/// spelling is the index operator; negation and calls have no spelling of
/// their own here.
pub open spec fn spec_unary_op_of(b: Seq<u8>) -> Option<UnaryExprKind> {
    if b.len() >= 1 && b[0] == 91 && b[b.len() - 1] == 93 {
        Some(UnaryExprKind::Index(spec_index_value(b.subrange(1, b.len() - 1))))
    } else if b.len() == 2 && b[0] == 43 && b[1] == 43 {
        Some(UnaryExprKind::Increment)
    } else if b.len() == 2 && b[0] == 45 && b[1] == 45 {
        Some(UnaryExprKind::Decrement)
    } else if b.len() == 1 && b[0] == 38 {
        Some(UnaryExprKind::AddressOf)
    } else if b.len() == 1 && b[0] == 126 {
        Some(UnaryExprKind::BitwiseNot)
    } else if b.len() == 1 && b[0] == 33 {
        Some(UnaryExprKind::LogicalNot)
    } else if b.len() == 1 && b[0] == 42 {
        Some(UnaryExprKind::Dereference)
    } else {
        None
    }
}

impl UnaryExprKind {
    /// Fetch the precedence of this unary operator; a lower rank binds
    /// more tightly.
    pub fn precedence(&self) -> (r: usize)
        ensures
            r == spec_unary_precedence(*self),
    {
        match self {
            UnaryExprKind::Increment | UnaryExprKind::Decrement | UnaryExprKind::Index(_) => 1,
            _ => 2,
        }
    }

    /// Fetch the associativity of this unary operator.
    pub fn associativity(&self) -> (r: Associativity)
        ensures
            r == spec_unary_associativity(*self),
    {
        match self {
            UnaryExprKind::Increment | UnaryExprKind::Decrement | UnaryExprKind::Index(_) => Associativity::Ltr,
            _ => Associativity::Rtl,
        }
    }

    /// Resolve an operator spelling to the unary operator it denotes.
    pub fn from_str(s: &str) -> (r: Option<UnaryExprKind>)
        ensures
            r == spec_unary_op_of(s.spec_bytes()),
    {
        let b = s.as_bytes();
        let n = b.len();
        if n >= 1 && b[0] == 91 && b[n - 1] == 93 {
            // The bracketed digits, behind an optional leading plus sign.
            let from: usize = if n >= 3 && b[1] == 43 {
                2
            } else {
                1
            };
            let index: u64 = match parse_u64_digits(b, from, n - 1) {
                Some(v) => v,
                None => 0,
            };
            proof {
                let inner = s.spec_bytes().subrange(1, s.spec_bytes().len() - 1);
                if inner.len() > 0 && inner[0] == 43 {
                    assert(inner.drop_first() =~= b@.subrange(2, n - 1));
                } else {
                    assert(inner =~= b@.subrange(1, n - 1));
                }
            }
            return Some(UnaryExprKind::Index(index));
        }
        if n == 2 && b[0] == 43 && b[1] == 43 {
            Some(UnaryExprKind::Increment)
        } else if n == 2 && b[0] == 45 && b[1] == 45 {
            Some(UnaryExprKind::Decrement)
        } else if n == 1 && b[0] == 38 {
            Some(UnaryExprKind::AddressOf)
        } else if n == 1 && b[0] == 126 {
            Some(UnaryExprKind::BitwiseNot)
        } else if n == 1 && b[0] == 33 {
            Some(UnaryExprKind::LogicalNot)
        } else if n == 1 && b[0] == 42 {
            Some(UnaryExprKind::Dereference)
        } else {
            None
        }
    }
}

/// The closed set of binary operators.
#[derive(Clone, Copy, Debug, Eq, Hash, Ord, PartialEq, PartialOrd, Structural)]
pub enum BinaryOp {
    /// The addition operator, `+`.
    Plus,
    /// The subtraction operator, `-`.
    Minus,
    /// The multiplication operator, `*`.
    Mul,
    /// The division operator, `/`.
    Div,
    /// The modulo operator, `%`.
    Mod,
    /// The bitwise AND operator, `&`.
    BitwiseAnd,
    /// The bitwise OR operator, `|`.
    BitwiseOr,
    /// The bitwise XOR operator, `^`.
    BitwiseXor,
    /// The logical AND operator, `&&`.
    LogicalAnd,
    /// The logical OR operator, `||`.
    LogicalOr,
    /// The bitwise left shift operator, `<<`.
    Shl,
    /// The bitwise right shift operator, `>>`.
    Shr,
    /// The equality operator, `==`.
    Eq,
    /// The inequality operator, `!=`.
    Ne,
    /// The less-than operator, `<`.
    Lt,
    /// The greater-than operator, `>`.
    Gt,
    /// The less-than-or-equal operator, `<=`.
    Le,
    /// The greater-than-or-equal operator, `>=`.
    Ge,
    /// The assignment operator, `=`.
    Assign,
    /// The assignment operator, `+=`.
    PlusEq,
    /// The assignment operator, `-=`.
    MinusEq,
    /// The assignment operator, `*=`.
    MulEq,
    /// The assignment operator, `/=`.
    DivEq,
    /// The assignment operator, `%=`.
    ModEq,
    /// The assignment operator, `&=`.
    BitwiseAndEq,
    /// The assignment operator, `|=`.
    BitwiseOrEq,
    /// The assignment operator, `^=`.
    BitwiseXorEq,
    /// The assignment operator, `<<=`.
    ShlEq,
    /// The assignment operator, `>>=`.
    ShrEq,
}

/// Which binary operator, if any, a byte spelling denotes.
pub open spec fn spec_binary_op_of(b: Seq<u8>) -> Option<BinaryOp> {
    if b.len() == 1 {
        if b[0] == 43 {
            Some(BinaryOp::Plus)
        } else if b[0] == 45 {
            Some(BinaryOp::Minus)
        } else if b[0] == 42 {
            Some(BinaryOp::Mul)
        } else if b[0] == 47 {
            Some(BinaryOp::Div)
        } else if b[0] == 37 {
            Some(BinaryOp::Mod)
        } else if b[0] == 38 {
            Some(BinaryOp::BitwiseAnd)
        } else if b[0] == 124 {
            Some(BinaryOp::BitwiseOr)
        } else if b[0] == 94 {
            Some(BinaryOp::BitwiseXor)
        } else if b[0] == 60 {
            Some(BinaryOp::Lt)
        } else if b[0] == 62 {
            Some(BinaryOp::Gt)
        } else if b[0] == 61 {
            Some(BinaryOp::Assign)
        } else {
            None
        }
    } else if b.len() == 2 {
        if b[0] == 60 && b[1] == 60 {
            Some(BinaryOp::Shl)
        } else if b[0] == 62 && b[1] == 62 {
            Some(BinaryOp::Shr)
        } else if b[1] == 61 {
            if b[0] == 61 {
                Some(BinaryOp::Eq)
            } else if b[0] == 33 {
                Some(BinaryOp::Ne)
            } else if b[0] == 60 {
                Some(BinaryOp::Le)
            } else if b[0] == 62 {
                Some(BinaryOp::Ge)
            } else if b[0] == 43 {
                Some(BinaryOp::PlusEq)
            } else if b[0] == 45 {
                Some(BinaryOp::MinusEq)
            } else if b[0] == 42 {
                Some(BinaryOp::MulEq)
            } else if b[0] == 47 {
                Some(BinaryOp::DivEq)
            } else if b[0] == 37 {
                Some(BinaryOp::ModEq)
            } else if b[0] == 38 {
                Some(BinaryOp::BitwiseAndEq)
            } else if b[0] == 124 {
                Some(BinaryOp::BitwiseOrEq)
            } else if b[0] == 94 {
                Some(BinaryOp::BitwiseXorEq)
            } else {
                None
            }
        } else {
            None
        }
    } else if b.len() == 3 && b[1] == b[0] && b[2] == 61 && (b[0] == 60 || b[0] == 62) {
        if b[0] == 60 {
            Some(BinaryOp::ShlEq)
        } else {
            Some(BinaryOp::ShrEq)
        }
    } else {
        None
    }
}

/// The precedence table for binary operators: multiplicative forms bind
/// tightest at rank 5, then additive, shifts, bitwise AND, XOR, OR,
/// relational, equality, logical AND, logical OR; everything else,
/// including every assignment form, binds loosest at rank 15.
pub open spec fn spec_binary_precedence(op: BinaryOp) -> usize {
    match op {
        BinaryOp::Mul | BinaryOp::Div | BinaryOp::Mod => 5usize,
        BinaryOp::Plus | BinaryOp::Minus => 6usize,
        BinaryOp::Shl | BinaryOp::Shr => 7usize,
        BinaryOp::BitwiseAnd => 8usize,
        BinaryOp::BitwiseXor => 9usize,
        BinaryOp::BitwiseOr => 10usize,
        BinaryOp::Lt | BinaryOp::Gt | BinaryOp::Le | BinaryOp::Ge => 11usize,
        BinaryOp::Eq | BinaryOp::Ne => 12usize,
        BinaryOp::LogicalAnd => 13usize,
        BinaryOp::LogicalOr => 14usize,
        _ => 15usize,
    }
}

impl BinaryOp {
    /// Resolve an operator spelling to the binary operator it denotes.
    pub fn from_str(s: &str) -> (r: Option<BinaryOp>)
        ensures
            r == spec_binary_op_of(s.spec_bytes()),
    {
        let b = s.as_bytes();
        let n = b.len();
        if n == 1 {
            if b[0] == 43 {
                Some(BinaryOp::Plus)
            } else if b[0] == 45 {
                Some(BinaryOp::Minus)
            } else if b[0] == 42 {
                Some(BinaryOp::Mul)
            } else if b[0] == 47 {
                Some(BinaryOp::Div)
            } else if b[0] == 37 {
                Some(BinaryOp::Mod)
            } else if b[0] == 38 {
                Some(BinaryOp::BitwiseAnd)
            } else if b[0] == 124 {
                Some(BinaryOp::BitwiseOr)
            } else if b[0] == 94 {
                Some(BinaryOp::BitwiseXor)
            } else if b[0] == 60 {
                Some(BinaryOp::Lt)
            } else if b[0] == 62 {
                Some(BinaryOp::Gt)
            } else if b[0] == 61 {
                Some(BinaryOp::Assign)
            } else {
                None
            }
        } else if n == 2 {
            if b[0] == 60 && b[1] == 60 {
                Some(BinaryOp::Shl)
            } else if b[0] == 62 && b[1] == 62 {
                Some(BinaryOp::Shr)
            } else if b[1] == 61 {
                if b[0] == 61 {
                    Some(BinaryOp::Eq)
                } else if b[0] == 33 {
                    Some(BinaryOp::Ne)
                } else if b[0] == 60 {
                    Some(BinaryOp::Le)
                } else if b[0] == 62 {
                    Some(BinaryOp::Ge)
                } else if b[0] == 43 {
                    Some(BinaryOp::PlusEq)
                } else if b[0] == 45 {
                    Some(BinaryOp::MinusEq)
                } else if b[0] == 42 {
                    Some(BinaryOp::MulEq)
                } else if b[0] == 47 {
                    Some(BinaryOp::DivEq)
                } else if b[0] == 37 {
                    Some(BinaryOp::ModEq)
                } else if b[0] == 38 {
                    Some(BinaryOp::BitwiseAndEq)
                } else if b[0] == 124 {
                    Some(BinaryOp::BitwiseOrEq)
                } else if b[0] == 94 {
                    Some(BinaryOp::BitwiseXorEq)
                } else {
                    None
                }
            } else {
                None
            }
        } else if n == 3 && b[1] == b[0] && b[2] == 61 && (b[0] == 60 || b[0] == 62) {
            if b[0] == 60 {
                Some(BinaryOp::ShlEq)
            } else {
                Some(BinaryOp::ShrEq)
            }
        } else {
            None
        }
    }

    /// Fetch the precedence of this binary operator; a lower rank binds
    /// more tightly.
    pub fn precedence(&self) -> (r: usize)
        ensures
            r == spec_binary_precedence(*self),
    {
        match self {
            BinaryOp::Mul | BinaryOp::Div | BinaryOp::Mod => 5,
            BinaryOp::Plus | BinaryOp::Minus => 6,
            BinaryOp::Shl | BinaryOp::Shr => 7,
            BinaryOp::BitwiseAnd => 8,
            BinaryOp::BitwiseXor => 9,
            BinaryOp::BitwiseOr => 10,
            BinaryOp::Lt | BinaryOp::Gt | BinaryOp::Le | BinaryOp::Ge => 11,
            BinaryOp::Eq | BinaryOp::Ne => 12,
            BinaryOp::LogicalAnd => 13,
            BinaryOp::LogicalOr => 14,
            _ => 15,
        }
    }

    /// Fetch the associativity of this binary operator. Every binary
    /// operator, the compound assignment forms included, is defined as
    /// left-to-right.
    pub fn associativity(&self) -> (r: Associativity)
        ensures
            r == Associativity::Ltr,
    {
        match self {
            _ => Associativity::Ltr,
        }
    }

    /// The minimum binding power for the operand parsed after this
    /// operator under precedence climbing: a left-to-right operator
    /// raises the floor past its own rank, a right-to-left operator
    /// re-uses it.
    pub fn recursion_floor(&self) -> (r: usize)
        ensures
            r == spec_binary_precedence(*self) + 1,
    {
        self.precedence() + 1
    }
}

/// A binary expression: two operand expressions joined by an operator.
#[derive(Debug, PartialEq)]
pub struct BinaryExpr {
    /// The left hand side of the binary expression.
    pub lhs: Box<Node<Expr>>,
    /// The right hand side of the binary expression.
    pub rhs: Box<Node<Expr>>,
    /// The kind of binary expression.
    pub kind: BinaryOp,
}

/// A unary expression: one operand expression under a unary operator.
#[derive(Debug, PartialEq)]
pub struct UnaryExpr {
    /// The operand the operator acts on.
    pub expr: Box<Node<Expr>>,
    /// The kind of unary expression.
    pub kind: UnaryExprKind,
}

/// The closed set of assignment operator forms.
#[derive(Debug, PartialEq, Eq, Structural, Clone, Copy)]
pub enum AssignmentKind {
    /// The assignment operator, `=`.
    Assign,
    /// The bitwise left-shift assignment operator, `<<=`.
    ShlAssign,
    /// The bitwise right-shift assignment operator, `>>=`.
    ShrAssign,
    /// The bitwise AND assignment operator, `&=`.
    AndAssign,
    /// The bitwise OR assignment operator, `|=`.
    OrAssign,
    /// The bitwise XOR assignment operator, `^=`.
    XorAssign,
    /// The assignment by sum operator, `+=`.
    AddAssign,
    /// The assignment by difference operator, `-=`.
    SubAssign,
    /// The assignment by product operator, `*=`.
    MulAssign,
    /// The assignment by division operator, `/=`.
    DivAssign,
    /// The assignment by modulo operator, `%=`.
    ModAssign,
}

/// A variable assignment.
#[derive(Debug, PartialEq)]
pub struct Assignment {
    /// The identifier being assigned to.
    pub ident: Ident,
    /// The assigned value.
    pub value: Expr,
    /// The kind of assignment.
    pub kind: AssignmentKind,
}

} // verus!
