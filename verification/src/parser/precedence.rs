//! The ladder of operators in the grammar, and what it says of binding powers.

use vstd::prelude::*;
use crate::ast::node::{
    AssignmentOperator, BinaryOperator, BooleanLiteral, LogicalOperator, NumberLiteral,
    UnaryOperator, UpdateOperator, VarKind,
};
use crate::ast::span::Span;
use crate::ast::tree::{BinaryExpressionView, ExpressionView, UnaryExpressionView};
use crate::lexer::spelling;
use crate::lexer::token::TokenKind;
use crate::parser::cover;
use crate::parser::error::ErrorView;
use crate::parser::operators;
use crate::parser::parser::ParserState;
use crate::runtime::number_literal;

verus! {

/// How a token is written: as a punctuator or as a keyword.
pub open spec fn written(kind: TokenKind) -> Option<Seq<char>> {
    match spelling::spelling(kind) {
        Some(text) => Some(text),
        None => spelling::keyword_text(kind),
    }
}

/// The sign of a binary operator.
#[verifier::opaque]
pub open spec fn binary_sign(operator: BinaryOperator) -> Seq<char> {
    match operator {
        BinaryOperator::Add => seq!['+'],
        BinaryOperator::Sub => seq!['-'],
        BinaryOperator::Mul => seq!['*'],
        BinaryOperator::Div => seq!['/'],
        BinaryOperator::Rem => seq!['%'],
        BinaryOperator::Exp => seq!['*', '*'],
        BinaryOperator::EqEq => seq!['=', '='],
        BinaryOperator::NotEq => seq!['!', '='],
        BinaryOperator::StrictEq => seq!['=', '=', '='],
        BinaryOperator::StrictNotEq => seq!['!', '=', '='],
        BinaryOperator::Lt => seq!['<'],
        BinaryOperator::LtEq => seq!['<', '='],
        BinaryOperator::Gt => seq!['>'],
        BinaryOperator::GtEq => seq!['>', '='],
        BinaryOperator::BitAnd => seq!['&'],
        BinaryOperator::BitOr => seq!['|'],
        BinaryOperator::BitXor => seq!['^'],
        BinaryOperator::Shl => seq!['<', '<'],
        BinaryOperator::Shr => seq!['>', '>'],
        BinaryOperator::UShr => seq!['>', '>', '>'],
        BinaryOperator::In => "in"@,
        BinaryOperator::InstanceOf => "instanceof"@,
    }
}

/// The sign of a logical operator.
#[verifier::opaque]
pub open spec fn logical_sign(operator: LogicalOperator) -> Seq<char> {
    match operator {
        LogicalOperator::And => seq!['&', '&'],
        LogicalOperator::Or => seq!['|', '|'],
        LogicalOperator::NullishCoalescing => seq!['?', '?'],
    }
}

/// What an assignment operator does with the value that is there, if it does anything.
pub enum Combined {
    Binary(BinaryOperator),
    Logical(LogicalOperator),
    Nothing,
}

/// The operation inside of an assignment operator.
#[verifier::opaque]
pub open spec fn combined(operator: AssignmentOperator) -> Combined {
    match operator {
        AssignmentOperator::Assign => Combined::Nothing,
        AssignmentOperator::AddAssign => Combined::Binary(BinaryOperator::Add),
        AssignmentOperator::SubAssign => Combined::Binary(BinaryOperator::Sub),
        AssignmentOperator::MulAssign => Combined::Binary(BinaryOperator::Mul),
        AssignmentOperator::DivAssign => Combined::Binary(BinaryOperator::Div),
        AssignmentOperator::RemAssign => Combined::Binary(BinaryOperator::Rem),
        AssignmentOperator::ExpAssign => Combined::Binary(BinaryOperator::Exp),
        AssignmentOperator::BitAndAssign => Combined::Binary(BinaryOperator::BitAnd),
        AssignmentOperator::BitOrAssign => Combined::Binary(BinaryOperator::BitOr),
        AssignmentOperator::BitXorAssign => Combined::Binary(BinaryOperator::BitXor),
        AssignmentOperator::ShlAssign => Combined::Binary(BinaryOperator::Shl),
        AssignmentOperator::ShrAssign => Combined::Binary(BinaryOperator::Shr),
        AssignmentOperator::UShrAssign => Combined::Binary(BinaryOperator::UShr),
        AssignmentOperator::AndAssign => Combined::Logical(LogicalOperator::And),
        AssignmentOperator::OrAssign => Combined::Logical(LogicalOperator::Or),
        AssignmentOperator::NullishAssign => Combined::Logical(LogicalOperator::NullishCoalescing),
    }
}

/// The sign of an assignment operator: the sign of the operation inside of it, and `=`.
pub open spec fn assignment_sign(operator: AssignmentOperator) -> Seq<char> {
    let sign = match combined(operator) {
        Combined::Nothing => Seq::<char>::empty(),
        Combined::Binary(b) => binary_sign(b),
        Combined::Logical(l) => logical_sign(l),
    };
    sign.push('=')
}

/// The sign of a unary operator.
#[verifier::opaque]
pub open spec fn unary_sign(operator: UnaryOperator) -> Seq<char> {
    match operator {
        UnaryOperator::Minus => seq!['-'],
        UnaryOperator::Plus => seq!['+'],
        UnaryOperator::Not => seq!['!'],
        UnaryOperator::BitNot => seq!['~'],
        UnaryOperator::TypeOf => "typeof"@,
        UnaryOperator::Void => "void"@,
        UnaryOperator::Delete => "delete"@,
    }
}

/// The sign of an update operator.
#[verifier::opaque]
pub open spec fn update_sign(operator: UpdateOperator) -> Seq<char> {
    match operator {
        UpdateOperator::Increment => seq!['+', '+'],
        UpdateOperator::Decrement => seq!['-', '-'],
    }
}

/// The word that starts a declaration.
#[verifier::opaque]
pub open spec fn declaration_word(kind: VarKind) -> Seq<char> {
    match kind {
        VarKind::Var => "var"@,
        VarKind::Let => "let"@,
        VarKind::Const => "const"@,
    }
}

/// A token that is taken for a binary operator is written as its sign, and there is one for each.
pub proof fn law_binary_sign(kind: TokenKind, operator: BinaryOperator)
    ensures
        operators::binary_of(kind) == Some(operator) ==> written(kind) == Some(
            binary_sign(operator),
        ),
        exists|k: TokenKind| #[trigger] operators::binary_of(k) == Some(operator),
{
    reveal(spelling::spelling);
    reveal(spelling::keyword_text);
    reveal(operators::binary_of);
    reveal(binary_sign);
    match operator {
        BinaryOperator::Add => {
            assert(operators::binary_of(TokenKind::Plus) == Some(operator));
        },
        BinaryOperator::Sub => {
            assert(operators::binary_of(TokenKind::Minus) == Some(operator));
        },
        BinaryOperator::Mul => {
            assert(operators::binary_of(TokenKind::Star) == Some(operator));
        },
        BinaryOperator::Div => {
            assert(operators::binary_of(TokenKind::Slash) == Some(operator));
        },
        BinaryOperator::Rem => {
            assert(operators::binary_of(TokenKind::Percent) == Some(operator));
        },
        BinaryOperator::Exp => {
            assert(operators::binary_of(TokenKind::StarStar) == Some(operator));
        },
        BinaryOperator::EqEq => {
            assert(operators::binary_of(TokenKind::EqEq) == Some(operator));
        },
        BinaryOperator::NotEq => {
            assert(operators::binary_of(TokenKind::NotEq) == Some(operator));
        },
        BinaryOperator::StrictEq => {
            assert(operators::binary_of(TokenKind::EqEqEq) == Some(operator));
        },
        BinaryOperator::StrictNotEq => {
            assert(operators::binary_of(TokenKind::NotEqEq) == Some(operator));
        },
        BinaryOperator::Lt => {
            assert(operators::binary_of(TokenKind::Lt) == Some(operator));
        },
        BinaryOperator::LtEq => {
            assert(operators::binary_of(TokenKind::LtEq) == Some(operator));
        },
        BinaryOperator::Gt => {
            assert(operators::binary_of(TokenKind::Gt) == Some(operator));
        },
        BinaryOperator::GtEq => {
            assert(operators::binary_of(TokenKind::GtEq) == Some(operator));
        },
        BinaryOperator::BitAnd => {
            assert(operators::binary_of(TokenKind::Amp) == Some(operator));
        },
        BinaryOperator::BitOr => {
            assert(operators::binary_of(TokenKind::Pipe) == Some(operator));
        },
        BinaryOperator::BitXor => {
            assert(operators::binary_of(TokenKind::Caret) == Some(operator));
        },
        BinaryOperator::Shl => {
            assert(operators::binary_of(TokenKind::LtLt) == Some(operator));
        },
        BinaryOperator::Shr => {
            assert(operators::binary_of(TokenKind::GtGt) == Some(operator));
        },
        BinaryOperator::UShr => {
            assert(operators::binary_of(TokenKind::GtGtGt) == Some(operator));
        },
        BinaryOperator::In => {
            assert(operators::binary_of(TokenKind::In) == Some(operator));
        },
        BinaryOperator::InstanceOf => {
            assert(operators::binary_of(TokenKind::Instanceof) == Some(operator));
        },
    }
}

/// A token that is taken for a logical operator is written as its sign, and there is one for each.
pub proof fn law_logical_sign(kind: TokenKind, operator: LogicalOperator)
    ensures
        operators::logical_of(kind) == Some(operator) ==> written(kind) == Some(
            logical_sign(operator),
        ),
        exists|k: TokenKind| #[trigger] operators::logical_of(k) == Some(operator),
{
    reveal(spelling::spelling);
    reveal(spelling::keyword_text);
    reveal(operators::logical_of);
    reveal(logical_sign);
    match operator {
        LogicalOperator::And => {
            assert(operators::logical_of(TokenKind::AmpAmp) == Some(operator));
        },
        LogicalOperator::Or => {
            assert(operators::logical_of(TokenKind::PipePipe) == Some(operator));
        },
        LogicalOperator::NullishCoalescing => {
            assert(operators::logical_of(TokenKind::QuestionQuestion) == Some(operator));
        },
    }
}

/// A token that is taken for an assignment operator is written as its sign, and there is one for
/// each.
pub proof fn law_assignment_sign(kind: TokenKind, operator: AssignmentOperator)
    ensures
        operators::assignment_of(kind) == Some(operator) ==> written(kind) == Some(
            assignment_sign(operator),
        ),
        exists|k: TokenKind| #[trigger] operators::assignment_of(k) == Some(operator),
{
    reveal(spelling::spelling);
    reveal(spelling::keyword_text);
    reveal(operators::assignment_of);
    reveal(binary_sign);
    reveal(logical_sign);
    reveal(combined);
    if operators::assignment_of(kind) == Some(operator) {
        assert(written(kind)->0 =~= assignment_sign(operator));
    }
    match operator {
        AssignmentOperator::Assign => {
            assert(operators::assignment_of(TokenKind::Assign) == Some(operator));
        },
        AssignmentOperator::AddAssign => {
            assert(operators::assignment_of(TokenKind::PlusAssign) == Some(operator));
        },
        AssignmentOperator::SubAssign => {
            assert(operators::assignment_of(TokenKind::MinusAssign) == Some(operator));
        },
        AssignmentOperator::MulAssign => {
            assert(operators::assignment_of(TokenKind::StarAssign) == Some(operator));
        },
        AssignmentOperator::DivAssign => {
            assert(operators::assignment_of(TokenKind::SlashAssign) == Some(operator));
        },
        AssignmentOperator::RemAssign => {
            assert(operators::assignment_of(TokenKind::PercentAssign) == Some(operator));
        },
        AssignmentOperator::ExpAssign => {
            assert(operators::assignment_of(TokenKind::StarStarAssign) == Some(operator));
        },
        AssignmentOperator::BitAndAssign => {
            assert(operators::assignment_of(TokenKind::AmpAssign) == Some(operator));
        },
        AssignmentOperator::BitOrAssign => {
            assert(operators::assignment_of(TokenKind::PipeAssign) == Some(operator));
        },
        AssignmentOperator::BitXorAssign => {
            assert(operators::assignment_of(TokenKind::CaretAssign) == Some(operator));
        },
        AssignmentOperator::ShlAssign => {
            assert(operators::assignment_of(TokenKind::LtLtAssign) == Some(operator));
        },
        AssignmentOperator::ShrAssign => {
            assert(operators::assignment_of(TokenKind::GtGtAssign) == Some(operator));
        },
        AssignmentOperator::UShrAssign => {
            assert(operators::assignment_of(TokenKind::GtGtGtAssign) == Some(operator));
        },
        AssignmentOperator::AndAssign => {
            assert(operators::assignment_of(TokenKind::AmpAmpAssign) == Some(operator));
        },
        AssignmentOperator::OrAssign => {
            assert(operators::assignment_of(TokenKind::PipePipeAssign) == Some(operator));
        },
        AssignmentOperator::NullishAssign => {
            assert(operators::assignment_of(TokenKind::QuestionQuestionAssign) == Some(operator));
        },
    }
}

/// A token that is taken for a unary operator is written as its sign, and there is one for each.
pub proof fn law_unary_sign(kind: TokenKind, operator: UnaryOperator)
    ensures
        operators::unary_of(kind) == Some(operator) ==> written(kind) == Some(unary_sign(operator)),
        exists|k: TokenKind| #[trigger] operators::unary_of(k) == Some(operator),
{
    reveal(spelling::spelling);
    reveal(spelling::keyword_text);
    reveal(operators::unary_of);
    reveal(unary_sign);
    match operator {
        UnaryOperator::Minus => {
            assert(operators::unary_of(TokenKind::Minus) == Some(operator));
        },
        UnaryOperator::Plus => {
            assert(operators::unary_of(TokenKind::Plus) == Some(operator));
        },
        UnaryOperator::Not => {
            assert(operators::unary_of(TokenKind::Bang) == Some(operator));
        },
        UnaryOperator::BitNot => {
            assert(operators::unary_of(TokenKind::Tilde) == Some(operator));
        },
        UnaryOperator::TypeOf => {
            assert(operators::unary_of(TokenKind::Typeof) == Some(operator));
        },
        UnaryOperator::Void => {
            assert(operators::unary_of(TokenKind::Void) == Some(operator));
        },
        UnaryOperator::Delete => {
            assert(operators::unary_of(TokenKind::Delete) == Some(operator));
        },
    }
}

/// A token that is taken for an update operator is written as its sign, and there is one for each.
pub proof fn law_update_sign(kind: TokenKind, operator: UpdateOperator)
    ensures
        operators::update_of(kind) == Some(operator) ==> written(kind) == Some(
            update_sign(operator),
        ),
        exists|k: TokenKind| #[trigger] operators::update_of(k) == Some(operator),
{
    reveal(spelling::spelling);
    reveal(spelling::keyword_text);
    reveal(operators::update_of);
    reveal(update_sign);
    match operator {
        UpdateOperator::Increment => {
            assert(operators::update_of(TokenKind::PlusPlus) == Some(operator));
        },
        UpdateOperator::Decrement => {
            assert(operators::update_of(TokenKind::MinusMinus) == Some(operator));
        },
    }
}

/// A token that starts a declaration is written as the word of its kind, and there is one for
/// each.
pub proof fn law_declaration_word(kind: TokenKind, operator: VarKind)
    ensures
        operators::declaration_of(kind) == Some(operator) ==> written(kind) == Some(
            declaration_word(operator),
        ),
        exists|k: TokenKind| #[trigger] operators::declaration_of(k) == Some(operator),
{
    reveal(spelling::spelling);
    reveal(spelling::keyword_text);
    reveal(operators::declaration_of);
    reveal(declaration_word);
    match operator {
        VarKind::Var => {
            assert(operators::declaration_of(TokenKind::Var) == Some(operator));
        },
        VarKind::Let => {
            assert(operators::declaration_of(TokenKind::Let) == Some(operator));
        },
        VarKind::Const => {
            assert(operators::declaration_of(TokenKind::Const) == Some(operator));
        },
    }
}

/// The rung of the grammar on which an infix operator stands, from the comma up to
/// exponentiation.
#[verifier::opaque]
pub open spec fn rung(kind: TokenKind) -> Option<int> {
    match kind {
        TokenKind::Comma => Some(0int),
        TokenKind::Question => Some(2int),
        TokenKind::QuestionQuestion => Some(3int),
        TokenKind::PipePipe => Some(4int),
        TokenKind::AmpAmp => Some(5int),
        TokenKind::Pipe => Some(6int),
        TokenKind::Caret => Some(7int),
        TokenKind::Amp => Some(8int),
        TokenKind::EqEq | TokenKind::NotEq | TokenKind::EqEqEq | TokenKind::NotEqEq => Some(9int),
        TokenKind::Lt | TokenKind::LtEq | TokenKind::Gt | TokenKind::GtEq => Some(10int),
        TokenKind::In | TokenKind::Instanceof => Some(10int),
        TokenKind::LtLt | TokenKind::GtGt | TokenKind::GtGtGt => Some(11int),
        TokenKind::Plus | TokenKind::Minus => Some(12int),
        TokenKind::Star | TokenKind::Slash | TokenKind::Percent => Some(13int),
        TokenKind::StarStar => Some(14int),
        _ => if operators::assignment_of(kind) is Some {
            Some(1int)
        } else {
            None
        },
    }
}

/// Whether an operand between two infix operators goes with the second, the first being read
/// already.
pub open spec fn goes_right(first: TokenKind, second: TokenKind) -> bool {
    match (operators::binding_power(first), operators::binding_power(second)) {
        (Some((_, right)), Some((left, _))) => left >= right,
        _ => false,
    }
}

/// An operand between two infix operators goes with the one on the higher rung of the grammar.
/// Between two on the same rung it goes with the first, but for assignments and
/// exponentiation, which group from the right. Behind the colon of a conditional expression
/// stands all that an assignment can be.
pub proof fn law_ladder(first: TokenKind, second: TokenKind)
    ensures
        operators::binding_power(first) is Some <==> rung(first) is Some,
        rung(first) is Some && rung(second) is Some ==> {
            let (a, b) = (rung(first)->0, rung(second)->0);
            goes_right(first, second) == if first == TokenKind::Question {
                b >= 1
            } else if a == b {
                a == 1 || a == 14
            } else {
                a < b
            }
        },
{
    reveal(rung);
    reveal(operators::binding_power);
    reveal(operators::assignment_of);
}

/// Operators on the same rung have the same powers, and those on a higher rung higher ones.
/// None binds as tightly as member accesses and calls.
pub proof fn law_powers_ordered(first: TokenKind, second: TokenKind)
    requires
        rung(first) is Some,
        rung(second) is Some,
    ensures
        ({
            let (a, b) = (
                operators::binding_power(first)->0,
                operators::binding_power(second)->0,
            );
            &&& rung(first) == rung(second) ==> a == b
            &&& rung(first)->0 < rung(second)->0 ==> a.0 < b.0
            &&& 0 < a.0 < 30
        }),
{
    reveal(rung);
    reveal(operators::binding_power);
    reveal(operators::assignment_of);
}

/// Whether a token is an operand by itself: a number, `true`, `false`, `null` or `this`.
pub open spec fn operand(kind: TokenKind) -> bool {
    match kind {
        TokenKind::Number
        | TokenKind::True
        | TokenKind::False
        | TokenKind::Null
        | TokenKind::This => true,
        _ => false,
    }
}

/// The expression that an operand is.
pub open spec fn operand_of(st: ParserState) -> ExpressionView {
    let span = st.span();
    match st.current_kind() {
        TokenKind::Number => ExpressionView::NumberLiteral(
            NumberLiteral { value: number_literal::literal_bits(st.current_text()), span },
        ),
        TokenKind::True => ExpressionView::BooleanLiteral(BooleanLiteral { value: true, span }),
        TokenKind::False => ExpressionView::BooleanLiteral(BooleanLiteral { value: false, span }),
        TokenKind::Null => ExpressionView::NullLiteral(span),
        _ => ExpressionView::This(span),
    }
}

/// Whether an expression ends before a token: it is neither a suffix nor an infix operator.
pub open spec fn ends(st: ParserState) -> bool {
    &&& operators::binding_power(st.current_kind()) is None
    &&& forall|min: u8| !#[trigger] operators::suffix(
        st.current_kind(),
        st.preceded_by_newline(),
        min,
    )
}

/// A binary operation of two expressions.
pub open spec fn operation(
    operator: BinaryOperator,
    left: ExpressionView,
    right: ExpressionView,
) -> ExpressionView {
    ExpressionView::Binary(
        Box::new(
            BinaryExpressionView {
                operator,
                left,
                right,
                span: Span { start: cover::span_of(left).start, end: cover::span_of(right).end },
            },
        ),
    )
}

proof fn lemma_operand(st: ParserState, fuel: nat)
    requires
        fuel > 0,
        operand(st.current_kind()),
    ensures
        st.parse_prefix(fuel) == (st.advance(), Ok::<ExpressionView, ErrorView>(operand_of(st))),
{
}

proof fn lemma_binary_token(kind: TokenKind)
    requires
        operators::binary_of(kind) is Some,
    ensures
        operators::binding_power(kind) is Some,
        operators::assignment_of(kind) is None,
        operators::logical_of(kind) is None,
        kind != TokenKind::Question,
        forall|newline: bool, min: u8| !#[trigger] operators::suffix(kind, newline, min),
{
    reveal(operators::binary_of);
    reveal(operators::binding_power);
    reveal(operators::assignment_of);
    reveal(operators::logical_of);
    reveal(operators::suffix);
}

/// Where an expression ends, or an operator binds less tightly than it has to, nothing more
/// is read.
proof fn lemma_stop(st: ParserState, fuel: nat, left: ExpressionView, min: u8)
    requires
        fuel > 0,
        ends(st) || (operators::binary_of(st.current_kind()) is Some && (operators::binding_power(
            st.current_kind(),
        ) matches Some((l, _)) && l < min)),
    ensures
        st.parse_infix(fuel, left, min) == (st, Ok::<ExpressionView, ErrorView>(left)),
{
    if operators::binary_of(st.current_kind()) is Some {
        lemma_binary_token(st.current_kind());
    }
}

/// Where an operator binds tightly enough, its right operand is read and the two are joined.
proof fn lemma_join(
    st: ParserState,
    fuel: nat,
    left: ExpressionView,
    min: u8,
    next: ParserState,
    right: ExpressionView,
)
    requires
        fuel > 2,
        operators::binary_of(st.current_kind()) is Some,
        operators::binding_power(st.current_kind()) matches Some((l, r)) && l >= min
            && st.advance().expression_within((fuel - 2) as nat, r) == (next, Ok::<
            ExpressionView,
            ErrorView,
        >(right)),
    ensures
        st.parse_infix(fuel, left, min) == next.parse_infix(
            (fuel - 1) as nat,
            operation(operators::binary_of(st.current_kind())->0, left, right),
            min,
        ),
{
    let kind = st.current_kind();
    lemma_binary_token(kind);
    let r = match operators::binding_power(kind) {
        Some((_, r)) => r,
        None => 0,
    };
    assert(st.advance().parse_operation((fuel - 1) as nat, left, kind, r) == (next, Ok::<
        ExpressionView,
        ErrorView,
    >(operation(operators::binary_of(kind)->0, left, right))));
}

/// An operand, read up to what does not bind tightly enough.
proof fn lemma_alone(st: ParserState, fuel: nat, min: u8)
    requires
        fuel > 1,
        operand(st.current_kind()),
        ends(st.advance()) || (operators::binary_of(st.advance().current_kind()) is Some && (
        operators::binding_power(st.advance().current_kind()) matches Some((l, _)) && l < min)),
    ensures
        st.expression_within(fuel, min) == (st.advance(), Ok::<ExpressionView, ErrorView>(
            operand_of(st),
        )),
{
    lemma_operand(st, (fuel - 1) as nat);
    lemma_stop(st.advance(), (fuel - 1) as nat, operand_of(st), min);
}

/// Of three operands with two binary operators between them, the one in the middle goes with
/// the operator on the higher rung of the grammar, and with the first of two on the same
/// rung, but for exponentiation, which groups from the right.
#[verifier::spinoff_prover]
pub proof fn law_grouping(st: ParserState, fuel: nat)
    requires
        fuel >= 12,
        operand(st.current_kind()),
        operators::binary_of(st.advance().current_kind()) is Some,
        operand(st.advance().advance().current_kind()),
        operators::binary_of(st.advance().advance().advance().current_kind()) is Some,
        operand(st.advance().advance().advance().advance().current_kind()),
        ends(st.advance().advance().advance().advance().advance()),
    ensures
        ({
            let b = st.advance().advance();
            let c = b.advance().advance();
            let (first, second) = (st.advance().current_kind(), b.advance().current_kind());
            let (x, y) = (operators::binary_of(first)->0, operators::binary_of(second)->0);
            let (p, q) = (rung(first)->0, rung(second)->0);
            st.expression_within(fuel, 0) == (c.advance(), Ok::<ExpressionView, ErrorView>(
                if p < q || p == q == 14 {
                    operation(x, operand_of(st), operation(y, operand_of(b), operand_of(c)))
                } else {
                    operation(y, operation(x, operand_of(st), operand_of(b)), operand_of(c))
                },
            ))
        }),
{
    let s1 = st.advance();
    let b = s1.advance();
    let s3 = b.advance();
    let c = s3.advance();
    let end = c.advance();
    let (first, second) = (s1.current_kind(), s3.current_kind());
    let (x, y) = (operators::binary_of(first)->0, operators::binary_of(second)->0);
    lemma_binary_token(first);
    lemma_binary_token(second);
    law_ladder(first, second);
    law_ladder(second, first);
    lemma_binary_rungs(first);
    lemma_binary_rungs(second);
    let (one, two, three) = (operand_of(st), operand_of(b), operand_of(c));
    let f = (fuel - 1) as nat;
    lemma_operand(st, f);
    assert(st.expression_within(fuel, 0) == s1.parse_infix(f, one, 0));
    let r1 = match operators::binding_power(first) {
        Some((_, r)) => r,
        None => 0,
    };
    let r2 = match operators::binding_power(second) {
        Some((_, r)) => r,
        None => 0,
    };
    if goes_right(first, second) {
        let g = (f - 2) as nat;
        lemma_operand(b, (g - 1) as nat);
        assert(b.expression_within(g, r1) == s3.parse_infix((g - 1) as nat, two, r1));
        lemma_alone(c, (g - 3) as nat, r2);
        lemma_join(s3, (g - 1) as nat, two, r1, end, three);
        lemma_stop(end, (g - 2) as nat, operation(y, two, three), r1);
        lemma_join(s1, f, one, 0, end, operation(y, two, three));
        lemma_stop(end, (f - 1) as nat, operation(x, one, operation(y, two, three)), 0);
    } else {
        lemma_alone(b, (f - 2) as nat, r1);
        lemma_join(s1, f, one, 0, s3, two);
        let left = operation(x, one, two);
        lemma_alone(c, (f - 3) as nat, r2);
        lemma_join(s3, (f - 1) as nat, left, 0, end, three);
        lemma_stop(end, (f - 2) as nat, operation(y, left, three), 0);
    }
}

proof fn lemma_binary_rungs(kind: TokenKind)
    requires
        operators::binary_of(kind) is Some,
    ensures
        rung(kind) is Some,
        rung(kind)->0 != 1,
        kind != TokenKind::Question,
{
    reveal(operators::binary_of);
    reveal(rung);
}

/// A unary operation of an expression.
pub open spec fn unary_operation(
    operator: UnaryOperator,
    argument: ExpressionView,
    start: u32,
) -> ExpressionView {
    ExpressionView::Unary(
        Box::new(
            UnaryExpressionView {
                operator,
                argument,
                prefix: true,
                span: Span { start, end: cover::span_of(argument).end },
            },
        ),
    )
}

proof fn lemma_unary_token(kind: TokenKind)
    requires
        operators::unary_of(kind) is Some,
    ensures
        match kind {
            TokenKind::Minus
            | TokenKind::Plus
            | TokenKind::Bang
            | TokenKind::Tilde
            | TokenKind::Typeof
            | TokenKind::Void
            | TokenKind::Delete => true,
            _ => false,
        },
{
    reveal(operators::unary_of);
}

proof fn lemma_unary_prefix(
    st: ParserState,
    fuel: nat,
    next: ParserState,
    argument: ExpressionView,
)
    requires
        fuel > 2,
        operators::unary_of(st.current_kind()) is Some,
        st.advance().expression_within((fuel - 2) as nat, 27) == (next, Ok::<
            ExpressionView,
            ErrorView,
        >(argument)),
    ensures
        st.parse_prefix(fuel) == (next, Ok::<ExpressionView, ErrorView>(
            unary_operation(operators::unary_of(st.current_kind())->0, argument, st.pos()),
        )),
{
    lemma_unary_token(st.current_kind());
    assert(!st.current_kind().contextual_keyword());
    assert(st.parse_unary((fuel - 1) as nat, st.pos(), st.current_kind()) == (next, Ok::<
        ExpressionView,
        ErrorView,
    >(unary_operation(operators::unary_of(st.current_kind())->0, argument, st.pos()))));
}

/// A unary operator takes the operand behind it before a binary operator does, but for
/// exponentiation, which takes it first.
#[verifier::spinoff_prover]
pub proof fn law_unary_grouping(st: ParserState, fuel: nat)
    requires
        fuel >= 14,
        operators::unary_of(st.current_kind()) is Some,
        operand(st.advance().current_kind()),
        operators::binary_of(st.advance().advance().current_kind()) is Some,
        operand(st.advance().advance().advance().current_kind()),
        ends(st.advance().advance().advance().advance()),
    ensures
        ({
            let a = st.advance();
            let b = a.advance().advance();
            let kind = a.advance().current_kind();
            let x = operators::unary_of(st.current_kind())->0;
            let y = operators::binary_of(kind)->0;
            st.expression_within(fuel, 0) == (b.advance(), Ok::<ExpressionView, ErrorView>(
                if rung(kind) == Some(14int) {
                    unary_operation(x, operation(y, operand_of(a), operand_of(b)), st.pos())
                } else {
                    operation(y, unary_operation(x, operand_of(a), st.pos()), operand_of(b))
                },
            ))
        }),
{
    let a = st.advance();
    let s2 = a.advance();
    let b = s2.advance();
    let end = b.advance();
    let kind = s2.current_kind();
    let x = operators::unary_of(st.current_kind())->0;
    let y = operators::binary_of(kind)->0;
    lemma_binary_token(kind);
    lemma_binary_rungs(kind);
    lemma_tight(kind);
    let r = match operators::binding_power(kind) {
        Some((_, r)) => r,
        None => 0,
    };
    let f = (fuel - 1) as nat;
    let g = (f - 2) as nat;
    let (one, two) = (operand_of(a), operand_of(b));
    if rung(kind) == Some(14int) {
        lemma_operand(a, (g - 1) as nat);
        assert(a.expression_within(g, 27) == s2.parse_infix((g - 1) as nat, one, 27));
        lemma_alone(b, (g - 3) as nat, r);
        lemma_join(s2, (g - 1) as nat, one, 27, end, two);
        lemma_stop(end, (g - 2) as nat, operation(y, one, two), 27);
        lemma_unary_prefix(st, f, end, operation(y, one, two));
        let whole = unary_operation(x, operation(y, one, two), st.pos());
        lemma_stop(end, f, whole, 0);
    } else {
        lemma_alone(a, g, 27);
        lemma_unary_prefix(st, f, s2, one);
        let left = unary_operation(x, one, st.pos());
        lemma_alone(b, (f - 2) as nat, r);
        assert(st.expression_within(fuel, 0) == s2.parse_infix(f, left, 0));
        lemma_join(s2, f, left, 0, end, two);
        lemma_stop(end, (f - 1) as nat, operation(y, left, two), 0);
    }
}

proof fn lemma_tight(kind: TokenKind)
    requires
        operators::binary_of(kind) is Some,
    ensures
        operators::binding_power(kind) matches Some((l, _)) && (l >= 27 <==> rung(kind) == Some(
            14int,
        )),
{
    reveal(operators::binary_of);
    reveal(operators::binding_power);
    reveal(rung);
}

} // verus!
