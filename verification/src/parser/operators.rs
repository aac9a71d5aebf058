//! Which tokens are operators, and how tightly they bind.

use vstd::prelude::*;
use crate::ast::node::{
    AssignmentOperator, BinaryOperator, LogicalOperator, UnaryOperator, UpdateOperator, VarKind,
};
use crate::lexer::token::TokenKind;

verus! {

/// Binding power (precedence) for Pratt parsing: on the left and on the right. Higher binds
/// tighter. A left-associative operator has a right power one above the left one, with a
/// right-associative one the two are equal. What follows the colon of a conditional
/// expression may be an assignment, which is the right power there.
#[verifier::opaque]
pub open spec fn binding_power(kind: TokenKind) -> Option<(u8, u8)> {
    match kind {
        TokenKind::Comma => Some((1u8, 2u8)),
        TokenKind::Assign
        | TokenKind::PlusAssign
        | TokenKind::MinusAssign
        | TokenKind::StarAssign
        | TokenKind::SlashAssign
        | TokenKind::PercentAssign
        | TokenKind::StarStarAssign
        | TokenKind::AmpAssign
        | TokenKind::PipeAssign
        | TokenKind::CaretAssign
        | TokenKind::LtLtAssign
        | TokenKind::GtGtAssign
        | TokenKind::GtGtGtAssign
        | TokenKind::AmpAmpAssign
        | TokenKind::PipePipeAssign
        | TokenKind::QuestionQuestionAssign => Some((3u8, 3u8)),
        TokenKind::Question => Some((4u8, 3u8)),
        TokenKind::QuestionQuestion => Some((5u8, 6u8)),
        TokenKind::PipePipe => Some((7u8, 8u8)),
        TokenKind::AmpAmp => Some((9u8, 10u8)),
        TokenKind::Pipe => Some((11u8, 12u8)),
        TokenKind::Caret => Some((13u8, 14u8)),
        TokenKind::Amp => Some((15u8, 16u8)),
        TokenKind::EqEq | TokenKind::NotEq | TokenKind::EqEqEq | TokenKind::NotEqEq => Some(
            (17u8, 18u8),
        ),
        TokenKind::Lt
        | TokenKind::Gt
        | TokenKind::LtEq
        | TokenKind::GtEq
        | TokenKind::Instanceof
        | TokenKind::In => Some((19u8, 20u8)),
        TokenKind::LtLt | TokenKind::GtGt | TokenKind::GtGtGt => Some((21u8, 22u8)),
        TokenKind::Plus | TokenKind::Minus => Some((23u8, 24u8)),
        TokenKind::Star | TokenKind::Slash | TokenKind::Percent => Some((25u8, 26u8)),
        TokenKind::StarStar => Some((28u8, 28u8)),
        _ => None,
    }
}

/// Binding power (precedence) for Pratt parsing: on the left and on the right. Higher binds
/// tighter. A left-associative operator has a right power one above the left one, with a
/// right-associative one the two are equal. What follows the colon of a conditional
/// expression may be an assignment, which is the right power there.
pub fn infix_binding_power(kind: TokenKind) -> (result: Option<(u8, u8)>)
    ensures
        result == binding_power(kind),
{
    reveal(binding_power);
    match kind {
        TokenKind::Comma => Some((1u8, 2u8)),
        TokenKind::Assign
        | TokenKind::PlusAssign
        | TokenKind::MinusAssign
        | TokenKind::StarAssign
        | TokenKind::SlashAssign
        | TokenKind::PercentAssign
        | TokenKind::StarStarAssign
        | TokenKind::AmpAssign
        | TokenKind::PipeAssign
        | TokenKind::CaretAssign
        | TokenKind::LtLtAssign
        | TokenKind::GtGtAssign
        | TokenKind::GtGtGtAssign
        | TokenKind::AmpAmpAssign
        | TokenKind::PipePipeAssign
        | TokenKind::QuestionQuestionAssign => Some((3u8, 3u8)),
        TokenKind::Question => Some((4u8, 3u8)),
        TokenKind::QuestionQuestion => Some((5u8, 6u8)),
        TokenKind::PipePipe => Some((7u8, 8u8)),
        TokenKind::AmpAmp => Some((9u8, 10u8)),
        TokenKind::Pipe => Some((11u8, 12u8)),
        TokenKind::Caret => Some((13u8, 14u8)),
        TokenKind::Amp => Some((15u8, 16u8)),
        TokenKind::EqEq | TokenKind::NotEq | TokenKind::EqEqEq | TokenKind::NotEqEq => Some(
            (17u8, 18u8),
        ),
        TokenKind::Lt
        | TokenKind::Gt
        | TokenKind::LtEq
        | TokenKind::GtEq
        | TokenKind::Instanceof
        | TokenKind::In => Some((19u8, 20u8)),
        TokenKind::LtLt | TokenKind::GtGt | TokenKind::GtGtGt => Some((21u8, 22u8)),
        TokenKind::Plus | TokenKind::Minus => Some((23u8, 24u8)),
        TokenKind::Star | TokenKind::Slash | TokenKind::Percent => Some((25u8, 26u8)),
        TokenKind::StarStar => Some((28u8, 28u8)),
        _ => None,
    }
}

/// The powers of a right-associative operator are equal, and the right power of a
/// left-associative one is one above the left power.
pub proof fn law_associativity(kind: TokenKind)
    ensures
        binding_power(kind) matches Some((l, r)) ==> if assignment_of(kind) is Some || kind
            == TokenKind::StarStar {
            r == l
        } else {
            kind == TokenKind::Question || r == l + 1
        },
        assignment_of(kind) is Some ==> binding_power(kind) is Some,
{
    reveal(binding_power);
    reveal(assignment_of);
}

/// The assignment operator that a token is.
#[verifier::opaque]
pub open spec fn assignment_of(kind: TokenKind) -> Option<AssignmentOperator> {
    match kind {
        TokenKind::Assign => Some(AssignmentOperator::Assign),
        TokenKind::PlusAssign => Some(AssignmentOperator::AddAssign),
        TokenKind::MinusAssign => Some(AssignmentOperator::SubAssign),
        TokenKind::StarAssign => Some(AssignmentOperator::MulAssign),
        TokenKind::SlashAssign => Some(AssignmentOperator::DivAssign),
        TokenKind::PercentAssign => Some(AssignmentOperator::RemAssign),
        TokenKind::StarStarAssign => Some(AssignmentOperator::ExpAssign),
        TokenKind::AmpAssign => Some(AssignmentOperator::BitAndAssign),
        TokenKind::PipeAssign => Some(AssignmentOperator::BitOrAssign),
        TokenKind::CaretAssign => Some(AssignmentOperator::BitXorAssign),
        TokenKind::LtLtAssign => Some(AssignmentOperator::ShlAssign),
        TokenKind::GtGtAssign => Some(AssignmentOperator::ShrAssign),
        TokenKind::GtGtGtAssign => Some(AssignmentOperator::UShrAssign),
        TokenKind::AmpAmpAssign => Some(AssignmentOperator::AndAssign),
        TokenKind::PipePipeAssign => Some(AssignmentOperator::OrAssign),
        TokenKind::QuestionQuestionAssign => Some(AssignmentOperator::NullishAssign),
        _ => None,
    }
}

/// The assignment operator that a token is.
pub fn assignment_operator(kind: TokenKind) -> (result: Option<AssignmentOperator>)
    ensures
        result == assignment_of(kind),
{
    reveal(assignment_of);
    match kind {
        TokenKind::Assign => Some(AssignmentOperator::Assign),
        TokenKind::PlusAssign => Some(AssignmentOperator::AddAssign),
        TokenKind::MinusAssign => Some(AssignmentOperator::SubAssign),
        TokenKind::StarAssign => Some(AssignmentOperator::MulAssign),
        TokenKind::SlashAssign => Some(AssignmentOperator::DivAssign),
        TokenKind::PercentAssign => Some(AssignmentOperator::RemAssign),
        TokenKind::StarStarAssign => Some(AssignmentOperator::ExpAssign),
        TokenKind::AmpAssign => Some(AssignmentOperator::BitAndAssign),
        TokenKind::PipeAssign => Some(AssignmentOperator::BitOrAssign),
        TokenKind::CaretAssign => Some(AssignmentOperator::BitXorAssign),
        TokenKind::LtLtAssign => Some(AssignmentOperator::ShlAssign),
        TokenKind::GtGtAssign => Some(AssignmentOperator::ShrAssign),
        TokenKind::GtGtGtAssign => Some(AssignmentOperator::UShrAssign),
        TokenKind::AmpAmpAssign => Some(AssignmentOperator::AndAssign),
        TokenKind::PipePipeAssign => Some(AssignmentOperator::OrAssign),
        TokenKind::QuestionQuestionAssign => Some(AssignmentOperator::NullishAssign),
        _ => None,
    }
}

/// The logical operator that a token is.
#[verifier::opaque]
pub open spec fn logical_of(kind: TokenKind) -> Option<LogicalOperator> {
    match kind {
        TokenKind::AmpAmp => Some(LogicalOperator::And),
        TokenKind::PipePipe => Some(LogicalOperator::Or),
        TokenKind::QuestionQuestion => Some(LogicalOperator::NullishCoalescing),
        _ => None,
    }
}

/// The logical operator that a token is.
pub fn logical_operator(kind: TokenKind) -> (result: Option<LogicalOperator>)
    ensures
        result == logical_of(kind),
{
    reveal(logical_of);
    match kind {
        TokenKind::AmpAmp => Some(LogicalOperator::And),
        TokenKind::PipePipe => Some(LogicalOperator::Or),
        TokenKind::QuestionQuestion => Some(LogicalOperator::NullishCoalescing),
        _ => None,
    }
}

/// The binary operator that a token is.
#[verifier::opaque]
pub open spec fn binary_of(kind: TokenKind) -> Option<BinaryOperator> {
    match kind {
        TokenKind::Plus => Some(BinaryOperator::Add),
        TokenKind::Minus => Some(BinaryOperator::Sub),
        TokenKind::Star => Some(BinaryOperator::Mul),
        TokenKind::Slash => Some(BinaryOperator::Div),
        TokenKind::Percent => Some(BinaryOperator::Rem),
        TokenKind::StarStar => Some(BinaryOperator::Exp),
        TokenKind::EqEq => Some(BinaryOperator::EqEq),
        TokenKind::NotEq => Some(BinaryOperator::NotEq),
        TokenKind::EqEqEq => Some(BinaryOperator::StrictEq),
        TokenKind::NotEqEq => Some(BinaryOperator::StrictNotEq),
        TokenKind::Lt => Some(BinaryOperator::Lt),
        TokenKind::LtEq => Some(BinaryOperator::LtEq),
        TokenKind::Gt => Some(BinaryOperator::Gt),
        TokenKind::GtEq => Some(BinaryOperator::GtEq),
        TokenKind::Amp => Some(BinaryOperator::BitAnd),
        TokenKind::Pipe => Some(BinaryOperator::BitOr),
        TokenKind::Caret => Some(BinaryOperator::BitXor),
        TokenKind::LtLt => Some(BinaryOperator::Shl),
        TokenKind::GtGt => Some(BinaryOperator::Shr),
        TokenKind::GtGtGt => Some(BinaryOperator::UShr),
        TokenKind::In => Some(BinaryOperator::In),
        TokenKind::Instanceof => Some(BinaryOperator::InstanceOf),
        _ => None,
    }
}

/// The binary operator that a token is.
pub fn binary_operator(kind: TokenKind) -> (result: Option<BinaryOperator>)
    ensures
        result == binary_of(kind),
{
    reveal(binary_of);
    match kind {
        TokenKind::Plus => Some(BinaryOperator::Add),
        TokenKind::Minus => Some(BinaryOperator::Sub),
        TokenKind::Star => Some(BinaryOperator::Mul),
        TokenKind::Slash => Some(BinaryOperator::Div),
        TokenKind::Percent => Some(BinaryOperator::Rem),
        TokenKind::StarStar => Some(BinaryOperator::Exp),
        TokenKind::EqEq => Some(BinaryOperator::EqEq),
        TokenKind::NotEq => Some(BinaryOperator::NotEq),
        TokenKind::EqEqEq => Some(BinaryOperator::StrictEq),
        TokenKind::NotEqEq => Some(BinaryOperator::StrictNotEq),
        TokenKind::Lt => Some(BinaryOperator::Lt),
        TokenKind::LtEq => Some(BinaryOperator::LtEq),
        TokenKind::Gt => Some(BinaryOperator::Gt),
        TokenKind::GtEq => Some(BinaryOperator::GtEq),
        TokenKind::Amp => Some(BinaryOperator::BitAnd),
        TokenKind::Pipe => Some(BinaryOperator::BitOr),
        TokenKind::Caret => Some(BinaryOperator::BitXor),
        TokenKind::LtLt => Some(BinaryOperator::Shl),
        TokenKind::GtGt => Some(BinaryOperator::Shr),
        TokenKind::GtGtGt => Some(BinaryOperator::UShr),
        TokenKind::In => Some(BinaryOperator::In),
        TokenKind::Instanceof => Some(BinaryOperator::InstanceOf),
        _ => None,
    }
}

/// The unary operator that a token is.
#[verifier::opaque]
pub open spec fn unary_of(kind: TokenKind) -> Option<UnaryOperator> {
    match kind {
        TokenKind::Minus => Some(UnaryOperator::Minus),
        TokenKind::Plus => Some(UnaryOperator::Plus),
        TokenKind::Bang => Some(UnaryOperator::Not),
        TokenKind::Tilde => Some(UnaryOperator::BitNot),
        TokenKind::Typeof => Some(UnaryOperator::TypeOf),
        TokenKind::Void => Some(UnaryOperator::Void),
        TokenKind::Delete => Some(UnaryOperator::Delete),
        _ => None,
    }
}

/// The unary operator that a token is.
pub fn unary_operator(kind: TokenKind) -> (result: Option<UnaryOperator>)
    ensures
        result == unary_of(kind),
{
    reveal(unary_of);
    match kind {
        TokenKind::Minus => Some(UnaryOperator::Minus),
        TokenKind::Plus => Some(UnaryOperator::Plus),
        TokenKind::Bang => Some(UnaryOperator::Not),
        TokenKind::Tilde => Some(UnaryOperator::BitNot),
        TokenKind::Typeof => Some(UnaryOperator::TypeOf),
        TokenKind::Void => Some(UnaryOperator::Void),
        TokenKind::Delete => Some(UnaryOperator::Delete),
        _ => None,
    }
}

/// The update operator that a token is.
#[verifier::opaque]
pub open spec fn update_of(kind: TokenKind) -> Option<UpdateOperator> {
    match kind {
        TokenKind::PlusPlus => Some(UpdateOperator::Increment),
        TokenKind::MinusMinus => Some(UpdateOperator::Decrement),
        _ => None,
    }
}

/// The update operator that a token is.
pub fn update_operator(kind: TokenKind) -> (result: Option<UpdateOperator>)
    ensures
        result == update_of(kind),
{
    reveal(update_of);
    match kind {
        TokenKind::PlusPlus => Some(UpdateOperator::Increment),
        TokenKind::MinusMinus => Some(UpdateOperator::Decrement),
        _ => None,
    }
}

/// The kind of declaration that a token starts.
#[verifier::opaque]
pub open spec fn declaration_of(kind: TokenKind) -> Option<VarKind> {
    match kind {
        TokenKind::Var => Some(VarKind::Var),
        TokenKind::Let => Some(VarKind::Let),
        TokenKind::Const => Some(VarKind::Const),
        _ => None,
    }
}

/// The kind of declaration that a token starts.
pub fn declaration_kind(kind: TokenKind) -> (result: Option<VarKind>)
    ensures
        result == declaration_of(kind),
{
    reveal(declaration_of);
    match kind {
        TokenKind::Var => Some(VarKind::Var),
        TokenKind::Let => Some(VarKind::Let),
        TokenKind::Const => Some(VarKind::Const),
        _ => None,
    }
}

/// Whether a keyword can be a property name.
#[verifier::opaque]
pub open spec fn keyword_property(kind: TokenKind) -> bool {
    match kind {
        TokenKind::Let
        | TokenKind::Const
        | TokenKind::Var
        | TokenKind::Function
        | TokenKind::Class
        | TokenKind::If
        | TokenKind::Else
        | TokenKind::For
        | TokenKind::While
        | TokenKind::Do
        | TokenKind::Return
        | TokenKind::Break
        | TokenKind::Continue
        | TokenKind::Switch
        | TokenKind::Case
        | TokenKind::Default
        | TokenKind::Try
        | TokenKind::Catch
        | TokenKind::Finally
        | TokenKind::Throw
        | TokenKind::New
        | TokenKind::Delete
        | TokenKind::Typeof
        | TokenKind::Void
        | TokenKind::In
        | TokenKind::Instanceof
        | TokenKind::This
        | TokenKind::Super
        | TokenKind::With
        | TokenKind::Yield
        | TokenKind::Await
        | TokenKind::Import
        | TokenKind::Export
        | TokenKind::Static
        | TokenKind::True
        | TokenKind::False
        | TokenKind::Null
        | TokenKind::Undefined
        | TokenKind::Of => true,
        _ => false,
    }
}

/// Whether a keyword can be a property name.
pub fn is_keyword_property(kind: TokenKind) -> (result: bool)
    ensures
        result == keyword_property(kind),
{
    reveal(keyword_property);
    match kind {
        TokenKind::Let
        | TokenKind::Const
        | TokenKind::Var
        | TokenKind::Function
        | TokenKind::Class
        | TokenKind::If
        | TokenKind::Else
        | TokenKind::For
        | TokenKind::While
        | TokenKind::Do
        | TokenKind::Return
        | TokenKind::Break
        | TokenKind::Continue
        | TokenKind::Switch
        | TokenKind::Case
        | TokenKind::Default
        | TokenKind::Try
        | TokenKind::Catch
        | TokenKind::Finally
        | TokenKind::Throw
        | TokenKind::New
        | TokenKind::Delete
        | TokenKind::Typeof
        | TokenKind::Void
        | TokenKind::In
        | TokenKind::Instanceof
        | TokenKind::This
        | TokenKind::Super
        | TokenKind::With
        | TokenKind::Yield
        | TokenKind::Await
        | TokenKind::Import
        | TokenKind::Export
        | TokenKind::Static
        | TokenKind::True
        | TokenKind::False
        | TokenKind::Null
        | TokenKind::Undefined
        | TokenKind::Of => true,
        _ => false,
    }
}

/// Whether a token ends a `yield` without an argument.
#[verifier::opaque]
pub open spec fn ends_yield(kind: TokenKind) -> bool {
    match kind {
        TokenKind::Semicolon
        | TokenKind::RBrace
        | TokenKind::RParen
        | TokenKind::RBracket
        | TokenKind::Comma
        | TokenKind::Colon
        | TokenKind::Eof => true,
        _ => false,
    }
}

/// Whether a token ends a `yield` without an argument.
pub fn is_yield_end(kind: TokenKind) -> (result: bool)
    ensures
        result == ends_yield(kind),
{
    reveal(ends_yield);
    match kind {
        TokenKind::Semicolon
        | TokenKind::RBrace
        | TokenKind::RParen
        | TokenKind::RBracket
        | TokenKind::Comma
        | TokenKind::Colon
        | TokenKind::Eof => true,
        _ => false,
    }
}

/// Whether a token ends the statements of a `switch` case.
#[verifier::opaque]
pub open spec fn ends_case(kind: TokenKind) -> bool {
    match kind {
        TokenKind::Case | TokenKind::Default | TokenKind::RBrace | TokenKind::Eof => true,
        _ => false,
    }
}

/// Whether a token ends the statements of a `switch` case.
pub fn is_case_end(kind: TokenKind) -> (result: bool)
    ensures
        result == ends_case(kind),
{
    reveal(ends_case);
    match kind {
        TokenKind::Case | TokenKind::Default | TokenKind::RBrace | TokenKind::Eof => true,
        _ => false,
    }
}

/// Whether a token behind `get` or `set` makes it an accessor of an object literal.
#[verifier::opaque]
pub open spec fn accessor_key(kind: TokenKind) -> bool {
    match kind {
        TokenKind::Identifier
        | TokenKind::String
        | TokenKind::Number
        | TokenKind::LBracket => true,
        _ => false,
    }
}

/// Whether a token behind `get` or `set` makes it an accessor of an object literal.
pub fn is_accessor_key(kind: TokenKind) -> (result: bool)
    ensures
        result == accessor_key(kind),
{
    reveal(accessor_key);
    match kind {
        TokenKind::Identifier
        | TokenKind::String
        | TokenKind::Number
        | TokenKind::LBracket => true,
        _ => false,
    }
}

/// Whether a token behind `async` makes it a modifier of a method.
#[verifier::opaque]
pub open spec fn async_key(kind: TokenKind) -> bool {
    match kind {
        TokenKind::Identifier
        | TokenKind::String
        | TokenKind::Number
        | TokenKind::LBracket
        | TokenKind::Star => true,
        _ => false,
    }
}

/// Whether a token behind `async` makes it a modifier of a method.
pub fn is_async_key(kind: TokenKind) -> (result: bool)
    ensures
        result == async_key(kind),
{
    reveal(async_key);
    match kind {
        TokenKind::Identifier
        | TokenKind::String
        | TokenKind::Number
        | TokenKind::LBracket
        | TokenKind::Star => true,
        _ => false,
    }
}

/// Whether a token attaches to the expression before it: a postfix operator on the same line,
/// or a member access, call, template or optional chain, which bind with power 30.
#[verifier::opaque]
pub open spec fn suffix(kind: TokenKind, newline: bool, min_bp: u8) -> bool {
    match kind {
        TokenKind::PlusPlus | TokenKind::MinusMinus => !newline,
        TokenKind::Dot
        | TokenKind::LBracket
        | TokenKind::LParen
        | TokenKind::TemplateLiteralFull
        | TokenKind::TemplateLiteralHead
        | TokenKind::QuestionDot => 30 >= min_bp,
        _ => false,
    }
}

/// Whether a token attaches to the expression before it.
pub fn is_suffix(kind: TokenKind, newline: bool, min_bp: u8) -> (result: bool)
    ensures
        result == suffix(kind, newline, min_bp),
{
    reveal(suffix);
    match kind {
        TokenKind::PlusPlus | TokenKind::MinusMinus => !newline,
        TokenKind::Dot
        | TokenKind::LBracket
        | TokenKind::LParen
        | TokenKind::TemplateLiteralFull
        | TokenKind::TemplateLiteralHead
        | TokenKind::QuestionDot => 30 >= min_bp,
        _ => false,
    }
}

} // verus!
