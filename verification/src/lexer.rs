//! The lexer: classifies raw source text into tokens, sub-classifies
//! literal tokens by numeric base and kind, and fails fast at the first
//! position where no rule matches.
//!
//! The scan works over the UTF-8 bytes of the source. At each position the
//! longest match among the rules wins; on a tie the rule listed first
//! does: whitespace, comments, literals (integers, floats, floats with an
//! exponent, characters, unicode-escaped characters, strings),
//! identifiers, then fixed punctuation.

use vstd::prelude::*;

verus! {

use crate::text::is_digit_byte;
use vstd::string::StringSliceAdditionalSpecFns;
use vstd::string::StrSliceExecFns;

/// The classes of bytes the scanner takes runs of.
#[derive(Debug, Clone, Copy)]
pub enum ByteClass {
    /// Space, tab, newline and the other ASCII whitespace bytes.
    Whitespace,
    /// A decimal digit.
    Digit,
    /// A hexadecimal digit.
    HexDigit,
    /// An octal digit.
    OctDigit,
    /// A binary digit.
    BinDigit,
    /// A letter, digit or underscore continuing an identifier.
    IdentContinue,
    /// Any byte but a newline.
    NotNewline,
}

/// Whether a byte belongs to a byte class.
pub open spec fn byte_in_class(c: ByteClass, b: u8) -> bool {
    match c {
        ByteClass::Whitespace => b == 32 || b == 9 || b == 10 || b == 13 || b == 11 || b == 12,
        ByteClass::Digit => is_digit_byte(b),
        ByteClass::HexDigit => is_digit_byte(b) || (97 <= b <= 102) || (65 <= b <= 70),
        ByteClass::OctDigit => 48 <= b <= 55,
        ByteClass::BinDigit => b == 48 || b == 49,
        ByteClass::IdentContinue => (97 <= b <= 122) || (65 <= b <= 90) || b == 95 || is_digit_byte(
            b,
        ),
        ByteClass::NotNewline => b != 10,
    }
}

/// The length of the run of bytes of class `c` starting at `i`.
pub open spec fn class_run(c: ByteClass, s: Seq<u8>, i: int) -> nat
    decreases s.len() - i,
{
    if i < 0 || i >= s.len() || !byte_in_class(c, s[i]) {
        0
    } else {
        (1 + class_run(c, s, i + 1)) as nat
    }
}

/// A run never reaches past the end of the sequence.
proof fn lemma_class_run_bound(c: ByteClass, s: Seq<u8>, i: int)
    requires
        0 <= i <= s.len(),
    ensures
        i + class_run(c, s, i) <= s.len(),
    decreases s.len() - i,
{
    if i < s.len() && byte_in_class(c, s[i]) {
        lemma_class_run_bound(c, s, i + 1);
    }
}

/// Walk the run of bytes of class `c` starting at `from`.
fn run_scan(src: &Vec<u8>, from: usize, c: ByteClass) -> (n: usize)
    requires
        from <= src@.len(),
    ensures
        n == class_run(c, src@, from as int),
        from + n <= src@.len(),
{
    let mut j: usize = from;
    while j < src.len() && byte_matches_class(c, src[j])
        invariant
            from <= j <= src@.len(),
            class_run(c, src@, from as int) == (j - from) + class_run(c, src@, j as int),
        decreases src@.len() - j,
    {
        j += 1;
    }
    j - from
}

/// Test a byte against a byte class.
fn byte_matches_class(c: ByteClass, b: u8) -> (r: bool)
    ensures
        r == byte_in_class(c, b),
{
    match c {
        ByteClass::Whitespace => b == 32 || b == 9 || b == 10 || b == 13 || b == 11 || b == 12,
        ByteClass::Digit => 48 <= b && b <= 57,
        ByteClass::HexDigit => (48 <= b && b <= 57) || (97 <= b && b <= 102) || (65 <= b && b
            <= 70),
        ByteClass::OctDigit => 48 <= b && b <= 55,
        ByteClass::BinDigit => b == 48 || b == 49,
        ByteClass::IdentContinue => (97 <= b && b <= 122) || (65 <= b && b <= 90) || b == 95 || (48
            <= b && b <= 57),
        ByteClass::NotNewline => b != 10,
    }
}

/// The numeric radix of an integer or float literal, read off the
/// literal's textual prefix.
#[derive(Debug, PartialEq, Eq, Structural, Clone, Copy)]
pub enum Base {
    /// A literal prefixed `0x`.
    Hexadecimal,
    /// A literal with no base prefix.
    Decimal,
    /// A literal prefixed `0o`.
    Octal,
    /// A literal prefixed `0b`.
    Binary,
}

/// The sub-kind of a literal token.
#[derive(Debug, PartialEq, Eq, Structural, Clone, Copy)]
pub enum LiteralKind {
    /// The slice matched no literal rule.
    Error,
    /// An integer literal and its base, e.g. `1234` or `0x1fff`.
    Int(Base),
    /// A floating point literal, in plain or scientific notation.
    Float(Base),
    /// A character literal, plain or unicode-escaped.
    Char,
    /// A string literal.
    String,
}

/// The kind of a token.
#[derive(Debug, PartialEq, Eq, Structural, Clone, Copy)]
pub enum TokenKind {
    /// The slice matched no rule.
    Error,
    /// An identifier or keyword.
    Ident,
    /// A run of whitespace; recognized and consumed, never emitted.
    Whitespace,
    /// A line comment, `# ...` to the end of the line.
    LineComment,
    /// A block comment, `/* ... */`.
    BlockComment,
    /// A literal, with its sub-kind.
    Literal(LiteralKind),
    /// `;`
    Semi,
    /// `{`
    OpenBrace,
    /// `}`
    CloseBrace,
    /// `(`
    OpenParen,
    /// `)`
    CloseParen,
    /// `[`
    OpenBracket,
    /// `]`
    CloseBracket,
    /// `+`
    Plus,
    /// `-`
    Minus,
    /// `*`
    Star,
    /// `/`
    Slash,
    /// `%`
    Percent,
    /// `=`
    Eq,
    /// `!`
    Not,
    /// `&`
    And,
    /// `|`
    Or,
    /// `<`
    Lt,
    /// `>`
    Gt,
    /// `^`
    Caret,
    /// `~`
    Tilde,
    /// `?`
    Question,
    /// `:`
    Colon,
    /// `.`
    Dot,
    /// `@`
    At,
}

/// The base a literal slice resolves to: the first two bytes after any
/// leading sign pick hexadecimal, octal or binary, anything else is
/// decimal. This is a pure function of the matched slice, so every
/// literal rule classifies one slice the same way.
pub open spec fn spec_base_of(t: Seq<u8>) -> Base {
    let u = if t.len() > 0 && (t[0] == 45 || t[0] == 43) {
        t.drop_first()
    } else {
        t
    };
    if u.len() < 2 {
        Base::Decimal
    } else if u[0] == 48 && u[1] == 120 {
        Base::Hexadecimal
    } else if u[0] == 48 && u[1] == 111 {
        Base::Octal
    } else if u[0] == 48 && u[1] == 98 {
        Base::Binary
    } else {
        Base::Decimal
    }
}

/// The position after an optional leading sign byte.
pub open spec fn sign_skip(s: Seq<u8>, i: int) -> int {
    if 0 <= i < s.len() && (s[i] == 43 || s[i] == 45) {
        i + 1
    } else {
        i
    }
}

/// The length of a `0`-prefixed integer core (`0x...`, `0o...`, `0b...`,
/// `0d...`) at `j`, for the given marker byte and digit class.
pub open spec fn based_core_len(s: Seq<u8>, j: int, marker: u8, c: ByteClass) -> nat {
    if 0 <= j && j + 1 < s.len() && s[j] == 48 && s[j + 1] == marker && class_run(c, s, j + 2) > 0 {
        (2 + class_run(c, s, j + 2)) as nat
    } else {
        0
    }
}

/// The length an integer literal matches at `i`: an optional sign, then
/// either a based core or a plain digit run, whichever is longest.
pub open spec fn int_match_len(s: Seq<u8>, i: int) -> nat {
    let j = sign_skip(s, i);
    let hex = based_core_len(s, j, 120, ByteClass::HexDigit);
    let dec_marked = based_core_len(s, j, 100, ByteClass::Digit);
    let oct = based_core_len(s, j, 111, ByteClass::OctDigit);
    let bin = based_core_len(s, j, 98, ByteClass::BinDigit);
    let plain = class_run(ByteClass::Digit, s, j);
    let core = if hex > 0 {
        hex
    } else if dec_marked > 0 {
        dec_marked
    } else if oct > 0 {
        oct
    } else if bin > 0 {
        bin
    } else {
        plain
    };
    if core > 0 {
        ((j - i) + core) as nat
    } else {
        0
    }
}

/// The length a plain float literal (digits, a dot, then at least one
/// digit) matches at `i`.
pub open spec fn float_match_len(s: Seq<u8>, i: int) -> nat {
    let j = sign_skip(s, i);
    let d1 = class_run(ByteClass::Digit, s, j);
    let dot = j + d1;
    if dot < s.len() && s[dot] == 46 && class_run(ByteClass::Digit, s, dot + 1) > 0 {
        ((j - i) + d1 + 1 + class_run(ByteClass::Digit, s, dot + 1)) as nat
    } else {
        0
    }
}

/// The length a float literal in scientific notation (digits, `e`, an
/// optional sign, then at least one digit) matches at `i`.
pub open spec fn float_exp_match_len(s: Seq<u8>, i: int) -> nat {
    let j = sign_skip(s, i);
    let d1 = class_run(ByteClass::Digit, s, j);
    if d1 > 0 && j + d1 < s.len() && s[j + d1] == 101 {
        let k = j + d1 + 1;
        let k2 = sign_skip(s, k);
        let d2 = class_run(ByteClass::Digit, s, k2);
        if d2 > 0 {
            ((j - i) + d1 + 1 + (k2 - k) + d2) as nat
        } else {
            0
        }
    } else {
        0
    }
}

/// How many bytes the UTF-8 character led by `b` occupies.
pub open spec fn utf8_width(b: u8) -> nat {
    if b < 0xc0 {
        1
    } else if b < 0xe0 {
        2
    } else if b < 0xf0 {
        3
    } else {
        4
    }
}

/// The length a plain character literal (a quote, one character other
/// than a newline, a quote) matches at `i`.
pub open spec fn char_match_len(s: Seq<u8>, i: int) -> nat {
    if 0 <= i && i + 1 < s.len() && s[i] == 39 && s[i + 1] != 10 {
        let w = utf8_width(s[i + 1]);
        if i + 1 + w < s.len() && s[i + 1 + w] == 39 {
            (w + 2) as nat
        } else {
            0
        }
    } else {
        0
    }
}

/// The length a unicode-escaped character literal (`'\uhhhh'`, eight
/// bytes) matches at `i`.
pub open spec fn unicode_char_match_len(s: Seq<u8>, i: int) -> nat {
    if 0 <= i && i + 7 < s.len() && s[i] == 39 && s[i + 1] == 92 && s[i + 2] == 117 && byte_in_class(
        ByteClass::HexDigit,
        s[i + 3],
    ) && byte_in_class(ByteClass::HexDigit, s[i + 4]) && byte_in_class(
        ByteClass::HexDigit,
        s[i + 5],
    ) && byte_in_class(ByteClass::HexDigit, s[i + 6]) && s[i + 7] == 39 {
        8
    } else {
        0
    }
}

/// The position one past the closing quote of a string literal body
/// starting at `k`, where a backslash escapes a quote; nothing when the
/// string never closes.
pub open spec fn string_body_end(s: Seq<u8>, k: int) -> Option<int>
    decreases s.len() - k,
{
    if k < 0 || k >= s.len() {
        None
    } else if s[k] == 34 {
        Some(k + 1)
    } else if s[k] == 92 && k + 1 < s.len() && s[k + 1] == 34 {
        string_body_end(s, k + 2)
    } else {
        string_body_end(s, k + 1)
    }
}

/// The length a string literal matches at `i`.
pub open spec fn string_match_len(s: Seq<u8>, i: int) -> nat {
    if 0 <= i && i < s.len() && s[i] == 34 {
        match string_body_end(s, i + 1) {
            Some(e) => (e - i) as nat,
            None => 0,
        }
    } else {
        0
    }
}

/// The length a line comment (`#`, then at least one byte before the
/// newline) matches at `i`.
pub open spec fn line_comment_match_len(s: Seq<u8>, i: int) -> nat {
    if 0 <= i && i < s.len() && s[i] == 35 && class_run(ByteClass::NotNewline, s, i + 1) > 0 {
        (1 + class_run(ByteClass::NotNewline, s, i + 1)) as nat
    } else {
        0
    }
}

/// The position one past the first `*/` at or after `k`; nothing when the
/// input ends first.
pub open spec fn block_body_end(s: Seq<u8>, k: int) -> Option<int>
    decreases s.len() - k,
{
    if k < 0 || k + 1 >= s.len() {
        None
    } else if s[k] == 42 && s[k + 1] == 47 {
        Some(k + 2)
    } else {
        block_body_end(s, k + 1)
    }
}

/// The length a block comment (`/*` up to and including the first `*/`)
/// matches at `i`.
pub open spec fn block_comment_match_len(s: Seq<u8>, i: int) -> nat {
    if 0 <= i && i + 1 < s.len() && s[i] == 47 && s[i + 1] == 42 {
        match block_body_end(s, i + 2) {
            Some(e) => (e - i) as nat,
            None => 0,
        }
    } else {
        0
    }
}

/// Whether a byte can open an identifier.
pub open spec fn is_ident_start(b: u8) -> bool {
    (97 <= b <= 122) || (65 <= b <= 90) || b == 95
}

/// The length an identifier matches at `i`.
pub open spec fn ident_match_len(s: Seq<u8>, i: int) -> nat {
    if 0 <= i && i < s.len() && is_ident_start(s[i]) {
        (1 + class_run(ByteClass::IdentContinue, s, i + 1)) as nat
    } else {
        0
    }
}

/// The punctuation token a single byte spells, if any.
pub open spec fn spec_punct_kind(b: u8) -> Option<TokenKind> {
    if b == 59 {
        Some(TokenKind::Semi)
    } else if b == 123 {
        Some(TokenKind::OpenBrace)
    } else if b == 125 {
        Some(TokenKind::CloseBrace)
    } else if b == 40 {
        Some(TokenKind::OpenParen)
    } else if b == 41 {
        Some(TokenKind::CloseParen)
    } else if b == 91 {
        Some(TokenKind::OpenBracket)
    } else if b == 93 {
        Some(TokenKind::CloseBracket)
    } else if b == 43 {
        Some(TokenKind::Plus)
    } else if b == 45 {
        Some(TokenKind::Minus)
    } else if b == 42 {
        Some(TokenKind::Star)
    } else if b == 47 {
        Some(TokenKind::Slash)
    } else if b == 37 {
        Some(TokenKind::Percent)
    } else if b == 61 {
        Some(TokenKind::Eq)
    } else if b == 33 {
        Some(TokenKind::Not)
    } else if b == 38 {
        Some(TokenKind::And)
    } else if b == 124 {
        Some(TokenKind::Or)
    } else if b == 60 {
        Some(TokenKind::Lt)
    } else if b == 62 {
        Some(TokenKind::Gt)
    } else if b == 94 {
        Some(TokenKind::Caret)
    } else if b == 126 {
        Some(TokenKind::Tilde)
    } else if b == 63 {
        Some(TokenKind::Question)
    } else if b == 58 {
        Some(TokenKind::Colon)
    } else if b == 46 {
        Some(TokenKind::Dot)
    } else if b == 64 {
        Some(TokenKind::At)
    } else {
        None
    }
}

/// The length punctuation matches at `i`: one byte, or none.
pub open spec fn punct_match_len(s: Seq<u8>, i: int) -> nat {
    if 0 <= i && i < s.len() && spec_punct_kind(s[i]) is Some {
        1
    } else {
        0
    }
}

/// The length the best literal rule matches at `i`.
pub open spec fn literal_match_len(s: Seq<u8>, i: int) -> nat {
    max6(
        int_match_len(s, i),
        float_match_len(s, i),
        float_exp_match_len(s, i),
        char_match_len(s, i),
        unicode_char_match_len(s, i),
        string_match_len(s, i),
    )
}

/// The largest of six lengths.
pub open spec fn max6(a: nat, b: nat, c: nat, d: nat, e: nat, f: nat) -> nat {
    max2(max2(max2(a, b), max2(c, d)), max2(e, f))
}

/// The larger of two lengths.
pub open spec fn max2(a: nat, b: nat) -> nat {
    if a >= b {
        a
    } else {
        b
    }
}

/// The sub-kind of the best literal rule at `i`, given that one matches:
/// ties fall to the rule listed first.
pub open spec fn literal_kind_at(s: Seq<u8>, i: int) -> LiteralKind {
    let m = literal_match_len(s, i);
    if int_match_len(s, i) == m {
        LiteralKind::Int(spec_base_of(s.subrange(i, i + m)))
    } else if float_match_len(s, i) == m {
        LiteralKind::Float(spec_base_of(s.subrange(i, i + m)))
    } else if float_exp_match_len(s, i) == m {
        LiteralKind::Float(spec_base_of(s.subrange(i, i + m)))
    } else if char_match_len(s, i) == m {
        LiteralKind::Char
    } else if unicode_char_match_len(s, i) == m {
        LiteralKind::Char
    } else {
        LiteralKind::String
    }
}

/// The length the best rule of the full token grammar matches at `i`;
/// whitespace is handled before this point.
pub open spec fn token_match_len(s: Seq<u8>, i: int) -> nat {
    max2(
        max2(line_comment_match_len(s, i), block_comment_match_len(s, i)),
        max2(max2(literal_match_len(s, i), ident_match_len(s, i)), punct_match_len(s, i)),
    )
}

/// The kind of the best rule of the full token grammar at `i`, given
/// that one matches: ties fall to the rule listed first.
pub open spec fn token_kind_at(s: Seq<u8>, i: int) -> TokenKind {
    let m = token_match_len(s, i);
    if line_comment_match_len(s, i) == m {
        TokenKind::LineComment
    } else if block_comment_match_len(s, i) == m {
        TokenKind::BlockComment
    } else if literal_match_len(s, i) == m {
        TokenKind::Literal(literal_kind_at(s, i))
    } else if ident_match_len(s, i) == m {
        TokenKind::Ident
    } else {
        spec_punct_kind(s[i]).unwrap()
    }
}

/// How many bytes an unmatched position consumes as the error slice: one
/// character, clipped to the input.
pub open spec fn err_match_len(s: Seq<u8>, i: int) -> nat {
    min2(utf8_width(s[i]), (s.len() - i) as nat)
}

/// The smaller of two lengths.
pub open spec fn min2(a: nat, b: nat) -> nat {
    if a <= b {
        a
    } else {
        b
    }
}

/// Walk an integer literal at `i`.
fn int_scan(src: &Vec<u8>, i: usize) -> (n: usize)
    requires
        i <= src@.len(),
    ensures
        n == int_match_len(src@, i as int),
        i + n <= src@.len(),
{
    let j: usize = if i < src.len() && (src[i] == 43 || src[i] == 45) {
        i + 1
    } else {
        i
    };
    let hex = based_scan(src, j, 120, ByteClass::HexDigit);
    let dec_marked = based_scan(src, j, 100, ByteClass::Digit);
    let oct = based_scan(src, j, 111, ByteClass::OctDigit);
    let bin = based_scan(src, j, 98, ByteClass::BinDigit);
    let plain = run_scan(src, j, ByteClass::Digit);
    let core = if hex > 0 {
        hex
    } else if dec_marked > 0 {
        dec_marked
    } else if oct > 0 {
        oct
    } else if bin > 0 {
        bin
    } else {
        plain
    };
    if core > 0 {
        (j - i) + core
    } else {
        0
    }
}

/// Walk a `0`-prefixed integer core at `j`.
fn based_scan(src: &Vec<u8>, j: usize, marker: u8, c: ByteClass) -> (n: usize)
    requires
        j <= src@.len(),
    ensures
        n == based_core_len(src@, j as int, marker, c),
        j + n <= src@.len(),
{
    if j < src.len() && j + 1 < src.len() && src[j] == 48 && src[j + 1] == marker {
        let r = run_scan(src, j + 2, c);
        if r > 0 {
            return 2 + r;
        }
    }
    0
}

/// Walk a plain float literal at `i`.
fn float_scan(src: &Vec<u8>, i: usize) -> (n: usize)
    requires
        i <= src@.len(),
    ensures
        n == float_match_len(src@, i as int),
        i + n <= src@.len(),
{
    let j: usize = if i < src.len() && (src[i] == 43 || src[i] == 45) {
        i + 1
    } else {
        i
    };
    let d1 = run_scan(src, j, ByteClass::Digit);
    let dot = j + d1;
    if dot < src.len() && src[dot] == 46 {
        let d2 = run_scan(src, dot + 1, ByteClass::Digit);
        if d2 > 0 {
            return (j - i) + d1 + 1 + d2;
        }
    }
    0
}

/// Walk a float literal in scientific notation at `i`.
fn float_exp_scan(src: &Vec<u8>, i: usize) -> (n: usize)
    requires
        i <= src@.len(),
    ensures
        n == float_exp_match_len(src@, i as int),
        i + n <= src@.len(),
{
    let j: usize = if i < src.len() && (src[i] == 43 || src[i] == 45) {
        i + 1
    } else {
        i
    };
    let d1 = run_scan(src, j, ByteClass::Digit);
    if d1 > 0 && j + d1 < src.len() && src[j + d1] == 101 {
        let k = j + d1 + 1;
        let k2: usize = if k < src.len() && (src[k] == 43 || src[k] == 45) {
            k + 1
        } else {
            k
        };
        let d2 = run_scan(src, k2, ByteClass::Digit);
        if d2 > 0 {
            return (j - i) + d1 + 1 + (k2 - k) + d2;
        }
    }
    0
}

/// How many bytes the UTF-8 character led by `b` occupies.
fn utf8_width_of(b: u8) -> (w: usize)
    ensures
        w == utf8_width(b),
        1 <= w <= 4,
{
    if b < 0xc0 {
        1
    } else if b < 0xe0 {
        2
    } else if b < 0xf0 {
        3
    } else {
        4
    }
}

/// Walk a plain character literal at `i`.
fn char_scan(src: &Vec<u8>, i: usize) -> (n: usize)
    requires
        i <= src@.len(),
    ensures
        n == char_match_len(src@, i as int),
        i + n <= src@.len(),
{
    if i < src.len() && i + 1 < src.len() && src[i] == 39 && src[i + 1] != 10 {
        let w = utf8_width_of(src[i + 1]);
        if w < src.len() - (i + 1) && src[i + 1 + w] == 39 {
            return w + 2;
        }
    }
    0
}

/// Walk a unicode-escaped character literal at `i`.
fn unicode_char_scan(src: &Vec<u8>, i: usize) -> (n: usize)
    requires
        i <= src@.len(),
    ensures
        n == unicode_char_match_len(src@, i as int),
        i + n <= src@.len(),
{
    if i < src.len() && src.len() - i >= 8 && src[i] == 39 && src[i + 1] == 92 && src[i + 2] == 117
        && byte_matches_class(ByteClass::HexDigit, src[i + 3]) && byte_matches_class(
        ByteClass::HexDigit,
        src[i + 4],
    ) && byte_matches_class(ByteClass::HexDigit, src[i + 5]) && byte_matches_class(
        ByteClass::HexDigit,
        src[i + 6],
    ) && src[i + 7] == 39 {
        8
    } else {
        0
    }
}

/// Walk a string literal at `i`.
fn string_scan(src: &Vec<u8>, i: usize) -> (n: usize)
    requires
        i <= src@.len(),
    ensures
        n == string_match_len(src@, i as int),
        i + n <= src@.len(),
{
    if i < src.len() && src[i] == 34 {
        let mut k: usize = i + 1;
        while k < src.len()
            invariant
                i < k <= src@.len(),
                src@[i as int] == 34,
                string_body_end(src@, i + 1) == string_body_end(src@, k as int),
            decreases src@.len() - k,
        {
            if src[k] == 34 {
                return k + 1 - i;
            } else if src[k] == 92 && k + 1 < src.len() && src[k + 1] == 34 {
                k += 2;
            } else {
                k += 1;
            }
        }
        0
    } else {
        0
    }
}

/// Walk a line comment at `i`.
fn line_comment_scan(src: &Vec<u8>, i: usize) -> (n: usize)
    requires
        i <= src@.len(),
    ensures
        n == line_comment_match_len(src@, i as int),
        i + n <= src@.len(),
{
    if i < src.len() && src[i] == 35 {
        let r = run_scan(src, i + 1, ByteClass::NotNewline);
        if r > 0 {
            return 1 + r;
        }
    }
    0
}

/// Walk a block comment at `i`.
fn block_comment_scan(src: &Vec<u8>, i: usize) -> (n: usize)
    requires
        i <= src@.len(),
    ensures
        n == block_comment_match_len(src@, i as int),
        i + n <= src@.len(),
{
    if i < src.len() && i + 1 < src.len() && src[i] == 47 && src[i + 1] == 42 {
        let mut k: usize = i + 2;
        while k < src.len() - 1
            invariant
                i + 2 <= k <= src@.len(),
                i + 1 < src@.len(),
                src@[i as int] == 47,
                src@[i + 1] == 42,
                block_body_end(src@, i + 2) == block_body_end(src@, k as int),
            decreases src@.len() - k,
        {
            if src[k] == 42 && src[k + 1] == 47 {
                return k + 2 - i;
            }
            k += 1;
        }
        0
    } else {
        0
    }
}

/// Walk an identifier at `i`.
fn ident_scan(src: &Vec<u8>, i: usize) -> (n: usize)
    requires
        i <= src@.len(),
    ensures
        n == ident_match_len(src@, i as int),
        i + n <= src@.len(),
{
    if i < src.len() {
        let b = src[i];
        if (97 <= b && b <= 122) || (65 <= b && b <= 90) || b == 95 {
            return 1 + run_scan(src, i + 1, ByteClass::IdentContinue);
        }
    }
    0
}

/// The punctuation token a single byte spells, if any.
fn punct_kind_of(b: u8) -> (r: Option<TokenKind>)
    ensures
        r == spec_punct_kind(b),
{
    if b == 59 {
        Some(TokenKind::Semi)
    } else if b == 123 {
        Some(TokenKind::OpenBrace)
    } else if b == 125 {
        Some(TokenKind::CloseBrace)
    } else if b == 40 {
        Some(TokenKind::OpenParen)
    } else if b == 41 {
        Some(TokenKind::CloseParen)
    } else if b == 91 {
        Some(TokenKind::OpenBracket)
    } else if b == 93 {
        Some(TokenKind::CloseBracket)
    } else if b == 43 {
        Some(TokenKind::Plus)
    } else if b == 45 {
        Some(TokenKind::Minus)
    } else if b == 42 {
        Some(TokenKind::Star)
    } else if b == 47 {
        Some(TokenKind::Slash)
    } else if b == 37 {
        Some(TokenKind::Percent)
    } else if b == 61 {
        Some(TokenKind::Eq)
    } else if b == 33 {
        Some(TokenKind::Not)
    } else if b == 38 {
        Some(TokenKind::And)
    } else if b == 124 {
        Some(TokenKind::Or)
    } else if b == 60 {
        Some(TokenKind::Lt)
    } else if b == 62 {
        Some(TokenKind::Gt)
    } else if b == 94 {
        Some(TokenKind::Caret)
    } else if b == 126 {
        Some(TokenKind::Tilde)
    } else if b == 63 {
        Some(TokenKind::Question)
    } else if b == 58 {
        Some(TokenKind::Colon)
    } else if b == 46 {
        Some(TokenKind::Dot)
    } else if b == 64 {
        Some(TokenKind::At)
    } else {
        None
    }
}

/// Read the base off a literal slice `src[from..to]`.
fn base_scan(src: &Vec<u8>, from: usize, to: usize) -> (r: Base)
    requires
        from <= to <= src@.len(),
    ensures
        r == spec_base_of(src@.subrange(from as int, to as int)),
{
    let ghost t = src@.subrange(from as int, to as int);
    let u_from: usize = if to - from > 0 && (src[from] == 45 || src[from] == 43) {
        proof {
            assert(t.drop_first() =~= src@.subrange(from + 1, to as int));
        }
        from + 1
    } else {
        from
    };
    if to - u_from < 2 {
        Base::Decimal
    } else if src[u_from] == 48 && src[u_from + 1] == 120 {
        Base::Hexadecimal
    } else if src[u_from] == 48 && src[u_from + 1] == 111 {
        Base::Octal
    } else if src[u_from] == 48 && src[u_from + 1] == 98 {
        Base::Binary
    } else {
        Base::Decimal
    }
}

/// Walk the best literal rule at `i`, reporting its sub-kind and length.
fn literal_scan(src: &Vec<u8>, i: usize) -> (r: (LiteralKind, usize))
    requires
        i <= src@.len(),
    ensures
        r.1 == literal_match_len(src@, i as int),
        r.1 > 0 ==> r.0 == literal_kind_at(src@, i as int),
        i + r.1 <= src@.len(),
{
    let total: usize = src.len();
    let int_len = int_scan(src, i);
    let float_len = float_scan(src, i);
    let float_exp_len = float_exp_scan(src, i);
    let char_len = char_scan(src, i);
    let unicode_len = unicode_char_scan(src, i);
    let string_len = string_scan(src, i);
    let mut m = int_len;
    if float_len > m {
        m = float_len;
    }
    if float_exp_len > m {
        m = float_exp_len;
    }
    if char_len > m {
        m = char_len;
    }
    if unicode_len > m {
        m = unicode_len;
    }
    if string_len > m {
        m = string_len;
    }
    if m == 0 {
        return (LiteralKind::Error, 0);
    }
    proof {
        assert(i + m <= total);
    }
    let kind = if int_len == m {
        LiteralKind::Int(base_scan(src, i, i + m))
    } else if float_len == m {
        LiteralKind::Float(base_scan(src, i, i + m))
    } else if float_exp_len == m {
        LiteralKind::Float(base_scan(src, i, i + m))
    } else if char_len == m {
        LiteralKind::Char
    } else if unicode_len == m {
        LiteralKind::Char
    } else {
        LiteralKind::String
    };
    (kind, m)
}

/// Walk the best rule of the full token grammar at `i`, reporting its
/// kind and length; a zero length means no rule matched.
fn token_scan(src: &Vec<u8>, i: usize) -> (r: (TokenKind, usize))
    requires
        i <= src@.len(),
    ensures
        r.1 == token_match_len(src@, i as int),
        r.1 > 0 ==> r.0 == token_kind_at(src@, i as int),
        i + r.1 <= src@.len(),
{
    let line_len = line_comment_scan(src, i);
    let block_len = block_comment_scan(src, i);
    let (lit_kind, lit_len) = literal_scan(src, i);
    let ident_len = ident_scan(src, i);
    let punct = if i < src.len() {
        punct_kind_of(src[i])
    } else {
        None
    };
    let punct_len: usize = match punct {
        Some(_) => 1,
        None => 0,
    };
    let mut m = line_len;
    if block_len > m {
        m = block_len;
    }
    if lit_len > m {
        m = lit_len;
    }
    if ident_len > m {
        m = ident_len;
    }
    if punct_len > m {
        m = punct_len;
    }
    if m == 0 {
        return (TokenKind::Error, 0);
    }
    let kind = if line_len == m {
        TokenKind::LineComment
    } else if block_len == m {
        TokenKind::BlockComment
    } else if lit_len == m {
        TokenKind::Literal(lit_kind)
    } else if ident_len == m {
        TokenKind::Ident
    } else {
        match punct {
            Some(k) => k,
            None => TokenKind::Error,
        }
    };
    (kind, m)
}

/// A closing quote is found, if at all, within the input.
proof fn lemma_string_body_end_bound(s: Seq<u8>, k: int)
    requires
        0 <= k,
    ensures
        match string_body_end(s, k) {
            Some(e) => k < e <= s.len(),
            None => true,
        },
    decreases s.len() - k,
{
    if k < s.len() && s[k] != 34 {
        if s[k] == 92 && k + 1 < s.len() && s[k + 1] == 34 {
            lemma_string_body_end_bound(s, k + 2);
        } else {
            lemma_string_body_end_bound(s, k + 1);
        }
    }
}

/// A comment terminator is found, if at all, within the input.
proof fn lemma_block_body_end_bound(s: Seq<u8>, k: int)
    requires
        0 <= k,
    ensures
        match block_body_end(s, k) {
            Some(e) => k < e <= s.len(),
            None => true,
        },
    decreases s.len() - k,
{
    if k + 1 < s.len() && !(s[k] == 42 && s[k + 1] == 47) {
        lemma_block_body_end_bound(s, k + 1);
    }
}

/// No rule matches past the end of the input.
proof fn lemma_token_match_len_bound(s: Seq<u8>, i: int)
    requires
        0 <= i <= s.len(),
    ensures
        i + token_match_len(s, i) <= s.len(),
{
    let j = sign_skip(s, i);
    if j + 2 <= s.len() {
        lemma_class_run_bound(ByteClass::HexDigit, s, j + 2);
        lemma_class_run_bound(ByteClass::Digit, s, j + 2);
        lemma_class_run_bound(ByteClass::OctDigit, s, j + 2);
        lemma_class_run_bound(ByteClass::BinDigit, s, j + 2);
    }
    lemma_class_run_bound(ByteClass::Digit, s, j);
    let d1 = class_run(ByteClass::Digit, s, j);
    if j + d1 + 1 <= s.len() {
        lemma_class_run_bound(ByteClass::Digit, s, j + d1 + 1);
        let k2 = sign_skip(s, j + d1 + 1);
        lemma_class_run_bound(ByteClass::Digit, s, k2);
    }
    if i < s.len() {
        lemma_class_run_bound(ByteClass::NotNewline, s, i + 1);
        lemma_class_run_bound(ByteClass::IdentContinue, s, i + 1);
        lemma_string_body_end_bound(s, i + 1);
        lemma_block_body_end_bound(s, i + 2);
    }
}

/// The position of the first byte at or after `i` that is not
/// whitespace.
pub open spec fn skip_ws(s: Seq<u8>, i: int) -> int {
    i + class_run(ByteClass::Whitespace, s, i)
}

/// The token sequence of the input from position `i` on, as triples of
/// kind, byte offset and byte length: whitespace and comments are
/// recognized and consumed but never emitted, and the first position
/// where no rule matches fails the whole scan with that position.
pub open spec fn spec_tokens(s: Seq<u8>, i: int) -> Result<Seq<(TokenKind, int, int)>, int>
    decreases s.len() - i,
        when 0 <= i <= s.len()
        via spec_tokens_decreases
{
    let j = skip_ws(s, i);
    if j >= s.len() {
        Ok(Seq::empty())
    } else {
        let m = token_match_len(s, j);
        if m == 0 {
            Err(j)
        } else {
            let kind = token_kind_at(s, j);
            match spec_tokens(s, j + m) {
                Ok(rest) => if kind == TokenKind::LineComment || kind == TokenKind::BlockComment {
                    Ok(rest)
                } else {
                    Ok(seq![(kind, j, m as int)] + rest)
                },
                Err(p) => Err(p),
            }
        }
    }
}

#[via_fn]
proof fn spec_tokens_decreases(s: Seq<u8>, i: int) {
    if 0 <= i <= s.len() {
        lemma_class_run_bound(ByteClass::Whitespace, s, i);
        let j = skip_ws(s, i);
        if j < s.len() {
            lemma_token_match_len_bound(s, j);
        }
    }
}

/// What one step of the scan found.
enum ScanNext {
    /// Only whitespace remained.
    End,
    /// A rule matched: the kind, start offset and length of the token.
    Matched(TokenKind, usize, usize),
    /// No rule matched: the start offset and length of the offending
    /// slice.
    NoMatch(usize, usize),
}

/// Skip whitespace and match one token at the front of the rest.
fn scan_next(src: &Vec<u8>, pos: usize) -> (r: ScanNext)
    requires
        pos <= src@.len(),
    ensures
        ({
            let s = src@;
            let j = skip_ws(s, pos as int);
            match r {
                ScanNext::End => j == s.len(),
                ScanNext::Matched(kind, start, len) => j < s.len() && start == j && len
                    == token_match_len(s, j) && len > 0 && kind == token_kind_at(s, j) && j + len
                    <= s.len(),
                ScanNext::NoMatch(start, len) => j < s.len() && start == j && token_match_len(s, j)
                    == 0 && len == err_match_len(s, j) && len > 0 && j + len <= s.len(),
            }
        }),
{
    let total: usize = src.len();
    let ws = run_scan(src, pos, ByteClass::Whitespace);
    let j = pos + ws;
    if j >= total {
        return ScanNext::End;
    }
    let (kind, m) = token_scan(src, j);
    if m > 0 {
        ScanNext::Matched(kind, j, m)
    } else {
        let w = utf8_width_of(src[j]);
        let rem = src.len() - j;
        let len = if w <= rem {
            w
        } else {
            rem
        };
        ScanNext::NoMatch(j, len)
    }
}

/// Copy the byte range `[from, to)` out of the source.
fn subvec(src: &Vec<u8>, from: usize, to: usize) -> (r: Vec<u8>)
    requires
        from <= to <= src@.len(),
    ensures
        r@ == src@.subrange(from as int, to as int),
{
    let mut out: Vec<u8> = Vec::new();
    let mut k: usize = from;
    while k < to
        invariant
            from <= k <= to <= src@.len(),
            out@.len() == k - from,
            forall|q: int| 0 <= q < out@.len() ==> out@[q] == src@[from + q],
        decreases to - k,
    {
        out.push(src[k]);
        k += 1;
    }
    proof {
        assert(out@ =~= src@.subrange(from as int, to as int));
    }
    out
}

impl Base {
    /// Read the base off a literal slice.
    pub fn parse(s: &str) -> (r: Base)
        ensures
            r == spec_base_of(s.spec_bytes()),
    {
        let bytes = s.as_bytes_vec();
        let n = bytes.len();
        proof {
            assert(bytes@.subrange(0, n as int) =~= s.spec_bytes());
        }
        base_scan(&bytes, 0, n)
    }
}

/// A literal's base is read off its matched slice alone, never off the
/// rule that matched it: whichever numeric rule wins at a position, the
/// base carried by the resulting kind is the base of that one slice.
pub proof fn lemma_literal_base_from_slice(s: Seq<u8>, i: int)
    requires
        literal_match_len(s, i) > 0,
    ensures
        ({
            let m = literal_match_len(s, i);
            match literal_kind_at(s, i) {
                LiteralKind::Int(b) => b == spec_base_of(s.subrange(i, i + m)),
                LiteralKind::Float(b) => b == spec_base_of(s.subrange(i, i + m)),
                _ => true,
            }
        }),
{
}

/// The emitted tokens partition the consumed input: every token is
/// non-empty and lies within the source, and offsets are strictly
/// increasing, with no two tokens overlapping.
pub proof fn lemma_tokens_partition(s: Seq<u8>, i: int)
    requires
        0 <= i <= s.len(),
        spec_tokens(s, i) is Ok,
    ensures
        ({
            let m = spec_tokens(s, i)->Ok_0;
            &&& forall|k: int|
                0 <= k < m.len() ==> i <= (#[trigger] m[k]).1 && m[k].2 > 0 && m[k].1 + m[k].2
                    <= s.len()
            &&& forall|k: int|
                0 <= k < m.len() - 1 ==> (#[trigger] m[k]).1 + m[k].2 <= m[k + 1].1
        }),
    decreases s.len() - i,
{
    lemma_class_run_bound(ByteClass::Whitespace, s, i);
    let j = skip_ws(s, i);
    if j < s.len() {
        let n = token_match_len(s, j);
        lemma_token_match_len_bound(s, j);
        if n > 0 {
            lemma_tokens_partition(s, j + n);
            let rest = spec_tokens(s, j + n)->Ok_0;
            let kind = token_kind_at(s, j);
            if kind == TokenKind::LineComment || kind == TokenKind::BlockComment {
            } else {
                let m = spec_tokens(s, i)->Ok_0;
                assert(m == seq![(kind, j, n as int)] + rest);
                assert(m[0] == (kind, j, n as int));
                assert forall|k: int| 1 <= k < m.len() implies m[k] == rest[k - 1] by {}
            }
        }
    }
}

/// Every integer literal text with no base prefix resolves to decimal:
/// after any leading sign, a run of plain digits can open with no base
/// marker, so the base read off it is base ten.
pub proof fn lemma_unprefixed_literal_is_decimal(t: Seq<u8>)
    requires
        t.len() > 0,
        ({
            let u = if t[0] == 45 || t[0] == 43 {
                t.drop_first()
            } else {
                t
            };
            u.len() > 0 && crate::text::all_digit_bytes(u)
        }),
    ensures
        spec_base_of(t) == Base::Decimal,
{
}

/// One token of the source: its kind, byte offset, byte length and the
/// matched bytes themselves.
#[derive(Debug, PartialEq)]
pub struct Token {
    /// The kind of the token.
    pub kind: TokenKind,
    /// The byte offset of the first byte of the token.
    pub index: usize,
    /// How many bytes the token covers.
    pub len: usize,
    /// The matched bytes.
    pub slice: Vec<u8>,
}

/// A lexer error thrown at the target position. Line and column are not
/// computed by this design and always read zero.
#[derive(Debug, PartialEq)]
pub struct LexerError {
    /// The byte offset of the offending slice.
    pub index: usize,
    /// Always zero.
    pub line: usize,
    /// Always zero.
    pub col: usize,
    /// The offending bytes.
    pub slice: Vec<u8>,
}

/// A scanner handing out raw token kinds one at a time, whitespace
/// skipped, comments included.
pub struct TokenKindLexer {
    src: Vec<u8>,
    pos: usize,
}

impl TokenKind {
    /// Start scanning the given source.
    pub fn lexer(source: &str) -> (r: TokenKindLexer)
        ensures
            r.source() == source.spec_bytes(),
            r.position() == 0,
            r.wf(),
    {
        TokenKindLexer { src: source.as_bytes_vec(), pos: 0 }
    }
}

impl TokenKindLexer {
    /// The bytes being scanned.
    pub closed spec fn source(&self) -> Seq<u8> {
        self.src@
    }

    /// The byte position the scan has reached.
    pub closed spec fn position(&self) -> int {
        self.pos as int
    }

    /// The position never passes the end of the source.
    pub closed spec fn wf(&self) -> bool {
        self.pos <= self.src@.len()
    }

    /// Hand out the kind of the next token: whitespace is skipped, the
    /// end of the source gives nothing, and a position where no rule
    /// matches gives the error kind and consumes one character.
    pub fn next(&mut self) -> (r: Option<TokenKind>)
        requires
            old(self).wf(),
        ensures
            final(self).wf(),
            final(self).source() == old(self).source(),
            ({
                let s = old(self).source();
                let j = skip_ws(s, old(self).position());
                if j >= s.len() {
                    r is None && final(self).position() == s.len()
                } else {
                    let m = token_match_len(s, j);
                    if m > 0 {
                        r == Some(token_kind_at(s, j)) && final(self).position() == j + m
                    } else {
                        r == Some(TokenKind::Error) && final(self).position() == j
                            + err_match_len(s, j)
                    }
                }
            }),
    {
        let total: usize = self.src.len();
        match scan_next(&self.src, self.pos) {
            ScanNext::End => {
                self.pos = total;
                None
            },
            ScanNext::Matched(kind, start, len) => {
                self.pos = start + len;
                Some(kind)
            },
            ScanNext::NoMatch(start, len) => {
                self.pos = start + len;
                Some(TokenKind::Error)
            },
        }
    }
}

/// A scanner handing out literal sub-kinds one at a time; only the
/// literal rules take part, nothing is skipped.
pub struct LiteralKindLexer {
    src: Vec<u8>,
    pos: usize,
}

impl LiteralKind {
    /// Start scanning the given source.
    pub fn lexer(source: &str) -> (r: LiteralKindLexer)
        ensures
            r.source() == source.spec_bytes(),
            r.position() == 0,
            r.wf(),
    {
        LiteralKindLexer { src: source.as_bytes_vec(), pos: 0 }
    }

    /// Classify a whole slice as the first literal it holds: the end of
    /// the input gives nothing, and a position where no literal rule
    /// matches gives the error kind.
    pub fn parse(s: &str) -> (r: Option<LiteralKind>)
        ensures
            ({
                let b = s.spec_bytes();
                if b.len() == 0 {
                    r is None
                } else {
                    let m = literal_match_len(b, 0);
                    if m > 0 {
                        r == Some(literal_kind_at(b, 0))
                    } else {
                        r == Some(LiteralKind::Error)
                    }
                }
            }),
    {
        let mut lex = LiteralKind::lexer(s);
        lex.next()
    }
}

impl LiteralKindLexer {
    /// The bytes being scanned.
    pub closed spec fn source(&self) -> Seq<u8> {
        self.src@
    }

    /// The byte position the scan has reached.
    pub closed spec fn position(&self) -> int {
        self.pos as int
    }

    /// The position never passes the end of the source.
    pub closed spec fn wf(&self) -> bool {
        self.pos <= self.src@.len()
    }

    /// Hand out the sub-kind of the next literal: the end of the source
    /// gives nothing, and a position where no literal rule matches gives
    /// the error kind and consumes one character.
    pub fn next(&mut self) -> (r: Option<LiteralKind>)
        requires
            old(self).wf(),
        ensures
            final(self).wf(),
            final(self).source() == old(self).source(),
            ({
                let s = old(self).source();
                let i = old(self).position();
                if i >= s.len() {
                    r is None && final(self).position() == i
                } else {
                    let m = literal_match_len(s, i);
                    if m > 0 {
                        r == Some(literal_kind_at(s, i)) && final(self).position() == i + m
                    } else {
                        r == Some(LiteralKind::Error) && final(self).position() == i
                            + err_match_len(s, i)
                    }
                }
            }),
    {
        let total: usize = self.src.len();
        if self.pos >= total {
            return None;
        }
        let (kind, m) = literal_scan(&self.src, self.pos);
        if m > 0 {
            self.pos = self.pos + m;
            Some(kind)
        } else {
            let w = utf8_width_of(self.src[self.pos]);
            let rem = total - self.pos;
            let step = if w <= rem {
                w
            } else {
                rem
            };
            self.pos = self.pos + step;
            Some(LiteralKind::Error)
        }
    }
}

/// The token triples a collected token list stands for.
pub open spec fn token_triples(toks: Seq<Token>) -> Seq<(TokenKind, int, int)> {
    toks.map_values(|t: Token| (t.kind, t.index as int, t.len as int))
}

/// Prepend already-collected triples to the outcome of the rest of a
/// scan.
pub open spec fn concat_scan(
    prefix: Seq<(TokenKind, int, int)>,
    rest: Result<Seq<(TokenKind, int, int)>, int>,
) -> Result<Seq<(TokenKind, int, int)>, int> {
    match rest {
        Ok(m) => Ok(prefix + m),
        Err(p) => Err(p),
    }
}

/// Prepending collected triples one batch at a time or both at once
/// comes to the same.
proof fn lemma_concat_scan_assoc(
    a: Seq<(TokenKind, int, int)>,
    b: Seq<(TokenKind, int, int)>,
    x: Result<Seq<(TokenKind, int, int)>, int>,
)
    ensures
        concat_scan(a, concat_scan(b, x)) == concat_scan(a + b, x),
{
    match x {
        Ok(m) => {
            assert(a + (b + m) =~= (a + b) + m);
        },
        Err(_) => {},
    }
}

/// The token lexer: collects the whole token sequence of a source, or
/// fails at the first position where no rule matches.
pub struct TokenLexer {
    src: Vec<u8>,
    pos: usize,
}

impl TokenLexer {
    /// The bytes being scanned.
    pub closed spec fn source(&self) -> Seq<u8> {
        self.src@
    }

    /// The byte position the scan has reached.
    pub closed spec fn position(&self) -> int {
        self.pos as int
    }

    /// The position never passes the end of the source.
    pub closed spec fn wf(&self) -> bool {
        self.pos <= self.src@.len()
    }

    /// Create a new token lexer over the given source.
    pub fn new(source: &str) -> (r: TokenLexer)
        ensures
            r.source() == source.spec_bytes(),
            r.position() == 0,
            r.wf(),
    {
        TokenLexer { src: source.as_bytes_vec(), pos: 0 }
    }

    /// Collect the tokens of the source: every token in order with its
    /// kind, byte offset, byte length and matched bytes, whitespace and
    /// comments consumed but not emitted. The first position where no
    /// rule matches fails the whole scan with that position and the
    /// offending slice; line and column are not computed and read zero.
    pub fn parse(&mut self) -> (r: Result<Vec<Token>, LexerError>)
        requires
            old(self).wf(),
        ensures
            final(self).wf(),
            final(self).source() == old(self).source(),
            ({
                let s = old(self).source();
                match spec_tokens(s, old(self).position()) {
                    Ok(m) => r matches Ok(toks) && toks@.len() == m.len() && (forall|q: int|
                        0 <= q < m.len() ==> (#[trigger] toks@[q]).kind == m[q].0 && toks@[q].index
                            == m[q].1 && toks@[q].len == m[q].2 && toks@[q].slice@ == s.subrange(
                            m[q].1,
                            m[q].1 + m[q].2,
                        )),
                    Err(p) => r matches Err(e) && e.index == p && e.line == 0 && e.col == 0
                        && e.slice@ == s.subrange(p, p + err_match_len(s, p)),
                }
            }),
    {
        let ghost s = self.src@;
        let ghost p0 = self.pos as int;
        let mut tokens: Vec<Token> = Vec::new();
        loop
            invariant
                s == old(self).source(),
                p0 == old(self).position(),
                self.src@ == s,
                self.pos <= self.src@.len(),
                0 <= p0 <= s.len(),
                spec_tokens(s, p0) == concat_scan(
                    token_triples(tokens@),
                    spec_tokens(s, self.pos as int),
                ),
                forall|q: int|
                    0 <= q < tokens@.len() ==> (#[trigger] tokens@[q]).slice@ == s.subrange(
                        tokens@[q].index as int,
                        tokens@[q].index + tokens@[q].len,
                    ),
            decreases s.len() - self.pos,
        {
            let total: usize = self.src.len();
            let ghost p = self.pos as int;
            let ghost j = skip_ws(s, p);
            match scan_next(&self.src, self.pos) {
                ScanNext::End => {
                    self.pos = total;
                    proof {
                        assert(token_triples(tokens@) + Seq::<(TokenKind, int, int)>::empty()
                            =~= token_triples(tokens@));
                    }
                    return Ok(tokens);
                },
                ScanNext::Matched(kind, start, len) => {
                    let ghost m = token_match_len(s, j);
                    let ghost before = tokens@;
                    self.pos = start + len;
                    if kind == TokenKind::LineComment || kind == TokenKind::BlockComment {
                        // Comments are recognized and consumed but never
                        // emitted, so the outcome from here is the
                        // outcome past the comment.
                    } else {
                        let slice = subvec(&self.src, start, start + len);
                        tokens.push(Token { kind, index: start, len, slice });
                        proof {
                            assert(token_triples(tokens@) =~= token_triples(before) + seq![
                                (kind, j, m as int)]);
                            lemma_concat_scan_assoc(
                                token_triples(before),
                                seq![(kind, j, m as int)],
                                spec_tokens(s, j + m),
                            );
                        }
                    }
                },
                ScanNext::NoMatch(start, len) => {
                    let slice = subvec(&self.src, start, start + len);
                    self.pos = start;
                    return Err(LexerError { index: start, line: 0, col: 0, slice });
                },
            }
        }
    }
}

} // verus!
