//! Syntax errors.

use vstd::prelude::*;
use crate::ast::span::Span;
use crate::lexer::token::TokenKind;
use crate::util::text;
use crate::util::text::push_decimal;

verus! {

/// A syntax error: what is wrong, and where.
pub struct ParseError {
    pub message: String,
    pub span: Span,
}

/// A syntax error as a value.
pub struct ErrorView {
    pub message: Seq<char>,
    pub span: Span,
}

/// What a parsing function returns.
pub type ParseResult<T> = Result<T, ParseError>;

/// A syntax error as a value.
pub open spec fn error_at(message: Seq<char>, span: Span) -> ErrorView {
    ErrorView { message, span }
}

/// The error of a missing piece of syntax.
pub open spec fn expected_error(expected: Seq<char>, got: TokenKind, span: Span) -> ErrorView {
    error_at("Expected "@ + expected + ", got "@ + got.label(), span)
}

/// The error of a token that fits nowhere.
pub open spec fn unexpected_error(kind: TokenKind, span: Span) -> ErrorView {
    error_at("Unexpected token "@ + kind.label(), span)
}

impl ParseError {
    /// The error as a value.
    pub open spec fn view(self) -> ErrorView {
        ErrorView { message: self.message@, span: self.span }
    }

    /// The text of the error.
    pub open spec fn text(&self) -> Seq<char> {
        "SyntaxError at "@ + text::decimal(self.span.start as nat) + ".."@ + text::decimal(
            self.span.end as nat,
        ) + ": "@ + self.message@
    }

    /// An error with a message of its own.
    pub fn new(message: &str, span: Span) -> (error: Self)
        ensures
            error@ == error_at(message@, span),
    {
        ParseError { message: message.to_owned(), span }
    }

    /// A piece of syntax is missing.
    pub fn expected(expected: &str, got: TokenKind, span: Span) -> (error: Self)
        ensures
            error@ == expected_error(expected@, got, span),
    {
        let mut message: String = "Expected ".to_owned();
        message.append(expected);
        message.append(", got ");
        message.append(got.name());
        ParseError { message, span }
    }

    /// A token fits nowhere.
    pub fn unexpected(kind: TokenKind, span: Span) -> (error: Self)
        ensures
            error@ == unexpected_error(kind, span),
    {
        let mut message: String = "Unexpected token ".to_owned();
        message.append(kind.name());
        ParseError { message, span }
    }

    /// The text of the error.
    pub fn to_string(&self) -> (shown: String)
        ensures
            shown@ == self.text(),
    {
        let mut shown: String = "SyntaxError at ".to_owned();
        push_decimal(&mut shown, self.span.start as u64);
        shown.append("..");
        push_decimal(&mut shown, self.span.end as u64);
        shown.append(": ");
        shown.append(self.message.as_str());
        shown
    }
}

} // verus!
