//! The parser's state and its handling of tokens.

use vstd::prelude::*;
use vstd::string::*;
use vstd::utf8;
use crate::ast::node::PropertyKey;
use crate::ast::span::Span;
use crate::ast::tree::PropertyKeyView;
use crate::lexer::cursor;
use crate::lexer::cursor::slice_of;
use crate::lexer::token::{Token, TokenKind};
use crate::parser::error;
use crate::parser::error::{ErrorView, ParseError, ParseResult};
use crate::parser::escapes;
use crate::parser::escapes::{decode_unicode_escapes, inner_text, unescape_string};
use crate::runtime::number_literal;
use crate::runtime::number_literal::parse_number_text;
use crate::util::interner;
use crate::util::interner::{same_text, Interner, StringId};

verus! {

/// The parser: recursive descent with Pratt expression parsing.
pub struct Parser<'a> {
    tokens: Vec<Token>,
    pos: usize,
    source: &'a str,
    interner: Interner,
    /// The strings that were interned when the parser was made.
    base: Ghost<Seq<Seq<char>>>,
    pub errors: Vec<ParseError>,
}

/// What parsing goes by: the tokens and the source text, the position among the tokens,
/// the interned strings, and the errors found.
pub struct ParserState {
    pub tokens: Seq<Token>,
    pub bytes: Seq<u8>,
    pub at: nat,
    pub table: Seq<Seq<char>>,
    /// The strings that were interned when the parser was made.
    pub base: Seq<Seq<char>>,
    pub errors: Seq<ErrorView>,
}

/// The outcome of a parsing step: the state it leaves, and what it parsed.
pub type Step<T> = (ParserState, Result<T, ErrorView>);

/// A token in an empty list of tokens.
pub open spec fn no_token() -> Token {
    Token { kind: TokenKind::Eof, span: Span { start: 0, end: 0 }, preceded_by_newline: false }
}

impl ParserState {
    /// What every step keeps: no string that was interned when the parser was made is
    /// forgotten, and the position is that of a token.
    #[verifier::opaque]
    pub open spec fn kept(self) -> bool {
        &&& self.base.is_prefix_of(self.table)
        &&& self.at < self.tokens.len() || self.at == 0
    }

    /// What a step of parsing leaves alone: the tokens and the source, and the errors noted
    /// so far. The position never moves back.
    pub open spec fn moved(self, later: ParserState) -> bool {
        &&& later.tokens == self.tokens
        &&& later.bytes == self.bytes
        &&& later.base == self.base
        &&& later.errors == self.errors
        &&& self.at <= later.at
        &&& self.kept() ==> later.kept()
    }

    /// The token at a position; behind the end, the last token.
    #[verifier::opaque]
    pub open spec fn token_at(self, i: nat) -> Token {
        if self.tokens.len() == 0 {
            no_token()
        } else if i < self.tokens.len() {
            self.tokens[i as int]
        } else {
            self.tokens.last()
        }
    }

    /// The current token.
    #[verifier::opaque]
    pub open spec fn current(self) -> Token {
        self.token_at(self.at)
    }

    /// The kind of the current token.
    #[verifier::opaque]
    pub open spec fn current_kind(self) -> TokenKind {
        self.current().kind
    }

    /// The range of the current token.
    #[verifier::opaque]
    pub open spec fn span(self) -> Span {
        self.current().span
    }

    /// Where the current token starts.
    #[verifier::opaque]
    pub open spec fn pos(self) -> u32 {
        self.current().span.start
    }

    /// Whether the current token is of a kind.
    #[verifier::opaque]
    pub open spec fn at(self, kind: TokenKind) -> bool {
        self.current_kind() == kind
    }

    /// Whether a line terminator stands before the current token.
    #[verifier::opaque]
    pub open spec fn preceded_by_newline(self) -> bool {
        self.current().preceded_by_newline
    }

    /// The token behind the current one.
    #[verifier::opaque]
    pub open spec fn peek(self) -> Token {
        self.token_at(self.at + 1)
    }

    /// The kind of the token behind the current one.
    #[verifier::opaque]
    pub open spec fn peek_kind(self) -> TokenKind {
        self.peek().kind
    }

    /// The text of a token; empty where the token's range is no stretch of the source.
    #[verifier::opaque]
    pub open spec fn token_text(self, token: Token) -> Seq<char> {
        let start = token.span.start as int;
        let end = token.span.end as int;
        if start <= end <= self.bytes.len() && utf8::is_char_boundary(self.bytes, start)
            && utf8::is_char_boundary(self.bytes, end) {
            cursor::text_between(self.bytes, start, end)
        } else {
            Seq::empty()
        }
    }

    /// The text of the current token.
    #[verifier::opaque]
    pub open spec fn current_text(self) -> Seq<char> {
        self.token_text(self.current())
    }

    /// Whether the current token is an identifier of a given text.
    #[verifier::opaque]
    pub open spec fn at_word(self, word: Seq<char>) -> bool {
        self.at(TokenKind::Identifier) && self.current_text() == word
    }

    /// Whether the next token is an identifier of a given text.
    #[verifier::opaque]
    pub open spec fn peek_word(self, word: Seq<char>) -> bool {
        self.peek_kind() == TokenKind::Identifier && self.token_text(self.peek()) == word
    }

    /// Move on to the next token. The last token is never passed.
    #[verifier::opaque]
    pub open spec fn advance(self) -> ParserState {
        if self.at + 1 < self.tokens.len() {
            ParserState { at: self.at + 1, ..self }
        } else {
            self
        }
    }

    /// Move on if the current token is of a kind, and whether it is.
    #[verifier::opaque]
    pub open spec fn eat(self, kind: TokenKind) -> (ParserState, bool) {
        if self.at(kind) {
            (self.advance(), true)
        } else {
            (self, false)
        }
    }

    /// The error of a missing piece of syntax at the current token.
    #[verifier::opaque]
    pub open spec fn expected(self, what: Seq<char>) -> ErrorView {
        error::expected_error(what, self.current_kind(), self.span())
    }

    /// The error of a current token that fits nowhere.
    #[verifier::opaque]
    pub open spec fn unexpected(self) -> ErrorView {
        error::unexpected_error(self.current_kind(), self.span())
    }

    /// The error of a program that is nested beyond measure.
    #[verifier::opaque]
    pub open spec fn too_deep(self) -> ErrorView {
        error::error_at("program nested too deeply"@, self.span())
    }

    /// Move on if the current token is of a kind; otherwise it is an error.
    #[verifier::opaque]
    pub open spec fn expect(self, kind: TokenKind) -> Step<Token> {
        if self.at(kind) {
            (self.advance(), Ok(self.current()))
        } else {
            (self, Err(self.expected(kind.label())))
        }
    }

    /// A list goes on with a comma, unless its closing token follows.
    #[verifier::opaque]
    pub open spec fn separate(self, closing: TokenKind) -> Step<()> {
        if self.at(closing) {
            (self, Ok(()))
        } else {
            match self.expect(TokenKind::Comma) {
                (st, Ok(_)) => (st, Ok(())),
                (st, Err(e)) => (st, Err(e)),
            }
        }
    }

    /// A semicolon, or a place where one may be left out.
    #[verifier::opaque]
    pub open spec fn expect_semicolon(self) -> Step<()> {
        if self.at(TokenKind::Semicolon) {
            (self.advance(), Ok(()))
        } else if self.preceded_by_newline() || self.at(TokenKind::RBrace) || self.at(
            TokenKind::Eof,
        ) {
            (self, Ok(()))
        } else {
            (self, Err(self.expected("';'"@)))
        }
    }

    /// Intern a text.
    #[verifier::opaque]
    pub open spec fn intern(self, text: Seq<char>) -> (ParserState, StringId) {
        (
            ParserState { table: interner::interned(self.table, text), ..self },
            interner::id_of(self.table, text),
        )
    }

    /// Intern the current token's text, with its Unicode escapes decoded.
    #[verifier::opaque]
    pub open spec fn intern_current(self) -> (ParserState, StringId) {
        self.intern(escapes::decoded(self.current_text(), 0))
    }

    /// Intern the content of a string literal.
    #[verifier::opaque]
    pub open spec fn parse_string_value(self, text: Seq<char>) -> (ParserState, StringId) {
        self.intern(escapes::unescaped(escapes::inner(text, 1, 1), 0))
    }

    /// Whether a property key is the name `constructor`.
    #[verifier::opaque]
    pub open spec fn names_constructor(self, key: PropertyKeyView) -> bool {
        match key {
            PropertyKeyView::Identifier(id) => interner::text_of(self.table, id)
                == "constructor"@,
            _ => false,
        }
    }

    /// Note an error.
    #[verifier::opaque]
    pub open spec fn report(self, error: ErrorView) -> ParserState {
        ParserState { errors: self.errors.push(error), ..self }
    }

    /// Skip tokens until a likely statement boundary.
    #[verifier::opaque]
    pub open spec fn synchronize(self) -> ParserState
        decreases self.tokens.len() - self.at,
    {
        if self.at(TokenKind::Eof) {
            self
        } else if self.at(TokenKind::Semicolon) {
            self.advance()
        } else if starts_statement(self.current_kind()) || self.at + 1 >= self.tokens.len() {
            self
        } else {
            proof {
                reveal(ParserState::advance);
            }
            self.advance().synchronize()
        }
    }
}

/// Whether a kind of token usually starts a statement.
pub open spec fn starts_statement(kind: TokenKind) -> bool {
    match kind {
        TokenKind::Function
        | TokenKind::Class
        | TokenKind::Var
        | TokenKind::Let
        | TokenKind::Const
        | TokenKind::If
        | TokenKind::While
        | TokenKind::For
        | TokenKind::Return
        | TokenKind::Switch
        | TokenKind::Try
        | TokenKind::Throw => true,
        _ => false,
    }
}

/// The errors of a parser, as values.
pub open spec fn error_views(errors: Seq<ParseError>) -> Seq<ErrorView> {
    Seq::new(errors.len(), |i: int| errors[i]@)
}

impl<'a> Parser<'a> {
    /// What parsing goes by.
    pub closed spec fn st(&self) -> ParserState {
        ParserState {
            tokens: self.tokens@,
            bytes: self.source.spec_bytes(),
            at: self.pos as nat,
            table: self.interner@,
            base: self.base@,
            errors: error_views(self.errors@),
        }
    }

    /// A parser at the start of a list of tokens. It takes over the interned strings.
    pub fn new(tokens: Vec<Token>, source: &'a str, interner: Interner) -> (parser: Self)
        ensures
            parser.st() == (ParserState {
                tokens: tokens@,
                bytes: source.spec_bytes(),
                at: 0,
                table: interner@,
                base: interner@,
                errors: Seq::empty(),
            }),
            parser.st().kept(),
    {
        let base: Ghost<Seq<Seq<char>>> = Ghost(interner@);
        let parser = Parser { tokens, pos: 0, source, interner, base, errors: Vec::new() };
        reveal(ParserState::kept);
        assert(error_views(parser.errors@) =~= Seq::empty());
        parser
    }

    /// Hand back the interned strings and the errors.
    pub fn finish(self) -> (rest: (Interner, Vec<ParseError>))
        ensures
            rest.0@ == self.st().table,
            error_views(rest.1@) == self.st().errors,
    {
        (self.interner, self.errors)
    }

    fn token_at(&self, i: usize) -> (token: Token)
        ensures
            token == self.st().token_at(i as nat),
    {
        reveal(ParserState::token_at);
        if self.tokens.len() == 0 {
            Token {
                kind: TokenKind::Eof,
                span: Span { start: 0, end: 0 },
                preceded_by_newline: false,
            }
        } else if i < self.tokens.len() {
            self.tokens[i]
        } else {
            self.tokens[self.tokens.len() - 1]
        }
    }

    /// The current token.
    pub(crate) fn current(&self) -> (token: Token)
        ensures
            token == self.st().current(),
    {
        reveal(ParserState::current);
        self.token_at(self.pos)
    }

    /// The kind of the current token.
    pub(crate) fn current_kind(&self) -> (kind: TokenKind)
        ensures
            kind == self.st().current_kind(),
    {
        reveal(ParserState::current_kind);
        self.current().kind
    }

    /// The range of the current token.
    pub(crate) fn span(&self) -> (span: Span)
        ensures
            span == self.st().span(),
    {
        reveal(ParserState::span);
        self.current().span
    }

    /// Where the current token starts.
    pub(crate) fn pos(&self) -> (pos: u32)
        ensures
            pos == self.st().pos(),
    {
        reveal(ParserState::pos);
        self.current().span.start
    }

    /// Whether the current token is of the given kind.
    pub(crate) fn at(&self, kind: TokenKind) -> (result: bool)
        ensures
            result == self.st().at(kind),
    {
        reveal(ParserState::at);
        self.current_kind() == kind
    }

    /// Whether a line terminator stands before the current token (for automatic semicolon
    /// insertion).
    pub(crate) fn preceded_by_newline(&self) -> (result: bool)
        ensures
            result == self.st().preceded_by_newline(),
    {
        reveal(ParserState::preceded_by_newline);
        self.current().preceded_by_newline
    }

    /// The token behind the current one.
    pub(crate) fn peek(&self) -> (token: Token)
        ensures
            token == self.st().peek(),
    {
        reveal(ParserState::peek);
        reveal(ParserState::token_at);
        if self.pos < self.tokens.len() {
            self.token_at(self.pos + 1)
        } else {
            self.token_at(self.pos)
        }
    }

    /// The kind of the token behind the current one.
    pub(crate) fn peek_kind(&self) -> (kind: TokenKind)
        ensures
            kind == self.st().peek_kind(),
    {
        reveal(ParserState::peek_kind);
        self.peek().kind
    }

    /// The text of a token in the source.
    pub(crate) fn token_text(&self, token: Token) -> (text: &'a str)
        ensures
            text@ == self.st().token_text(token),
    {
        reveal(ParserState::token_text);
        let start: usize = token.span.start as usize;
        let end: usize = token.span.end as usize;
        proof {
            cursor::lemma_source_text(self.source);
        }
        if start <= end && end <= self.source.as_bytes().len() && self.source.is_char_boundary(start)
            && self.source.is_char_boundary(end) {
            slice_of(self.source, start, end)
        } else {
            proof {
                reveal_strlit("");
            }
            assert(""@ =~= Seq::<char>::empty());
            ""
        }
    }

    /// The text of the current token.
    pub(crate) fn current_text(&self) -> (text: &'a str)
        ensures
            text@ == self.st().current_text(),
    {
        reveal(ParserState::current_text);
        self.token_text(self.current())
    }

    /// Whether the current token is an identifier of the given text.
    pub(crate) fn at_word(&self, word: &str) -> (result: bool)
        ensures
            result == self.st().at_word(word@),
    {
        reveal(ParserState::at_word);
        self.at(TokenKind::Identifier) && same_text(self.current_text(), word)
    }

    /// Whether the next token is an identifier of the given text.
    pub(crate) fn peek_word(&self, word: &str) -> (result: bool)
        ensures
            result == self.st().peek_word(word@),
    {
        reveal(ParserState::peek_word);
        self.peek_kind() == TokenKind::Identifier && same_text(self.token_text(self.peek()), word)
    }

    /// Move on to the next token.
    pub(crate) fn advance(&mut self)
        ensures
            final(self).st() == old(self).st().advance(),
            old(self).st().moved(final(self).st()),
    {
        reveal(ParserState::kept);
        reveal(ParserState::advance);
        if self.tokens.len() > 0 && self.pos < self.tokens.len() - 1 {
            self.pos = self.pos + 1;
        }
    }

    /// Move on if the current token is of the given kind, and tell whether it is.
    pub(crate) fn eat(&mut self, kind: TokenKind) -> (eaten: bool)
        ensures
            (final(self).st(), eaten) == old(self).st().eat(kind),
            old(self).st().moved(final(self).st()),
    {
        reveal(ParserState::kept);
        reveal(ParserState::eat);
        if self.at(kind) {
            self.advance();
            true
        } else {
            false
        }
    }

    /// The error of a missing piece of syntax at the current token.
    pub(crate) fn expected(&self, what: &str) -> (error: ParseError)
        ensures
            error@ == self.st().expected(what@),
    {
        reveal(ParserState::expected);
        ParseError::expected(what, self.current_kind(), self.span())
    }

    /// The error of a current token that fits nowhere.
    pub(crate) fn unexpected(&self) -> (error: ParseError)
        ensures
            error@ == self.st().unexpected(),
    {
        reveal(ParserState::unexpected);
        ParseError::unexpected(self.current_kind(), self.span())
    }

    /// The error of a program that is nested beyond measure.
    pub(crate) fn too_deep(&self) -> (error: ParseError)
        ensures
            error@ == self.st().too_deep(),
    {
        reveal(ParserState::too_deep);
        ParseError::new("program nested too deeply", self.span())
    }

    /// Move on if the current token is of the given kind; otherwise it is an error.
    pub(crate) fn expect(&mut self, kind: TokenKind) -> (parsed: ParseResult<Token>)
        ensures
            old(self).st().expect(kind) == (
                final(self).st(),
                match parsed {
                    Ok(token) => Ok(token),
                    Err(e) => Err(e@),
                },
            ),
            old(self).st().moved(final(self).st()),
    {
        reveal(ParserState::kept);
        reveal(ParserState::expect);
        if self.at(kind) {
            let token = self.current();
            self.advance();
            Ok(token)
        } else {
            Err(self.expected(kind.name()))
        }
    }

    /// A list goes on with a comma, unless its closing token follows.
    pub(crate) fn separate(&mut self, closing: TokenKind) -> (parsed: ParseResult<()>)
        ensures
            old(self).st().separate(closing) == (
                final(self).st(),
                match parsed {
                    Ok(done) => Ok(done),
                    Err(e) => Err(e@),
                },
            ),
            old(self).st().moved(final(self).st()),
    {
        reveal(ParserState::kept);
        reveal(ParserState::separate);
        if !self.at(closing) {
            self.expect(TokenKind::Comma)?;
        }
        Ok(())
    }

    /// Expect a semicolon (with automatic insertion).
    pub(crate) fn expect_semicolon(&mut self) -> (parsed: ParseResult<()>)
        ensures
            old(self).st().expect_semicolon() == (
                final(self).st(),
                match parsed {
                    Ok(done) => Ok(done),
                    Err(e) => Err(e@),
                },
            ),
            old(self).st().moved(final(self).st()),
    {
        reveal(ParserState::kept);
        reveal(ParserState::expect_semicolon);
        reveal(ParserState::eat);
        if self.eat(TokenKind::Semicolon) {
            return Ok(());
        }
        if self.preceded_by_newline() || self.at(TokenKind::RBrace) || self.at(TokenKind::Eof) {
            return Ok(());
        }
        Err(self.expected("';'"))
    }

    /// Intern a text.
    pub(crate) fn intern(&mut self, text: &str) -> (id: StringId)
        ensures
            (final(self).st(), id) == old(self).st().intern(text@),
            old(self).st().moved(final(self).st()),
    {
        reveal(ParserState::kept);
        reveal(ParserState::intern);
        self.interner.intern(text)
    }

    /// Intern the current token's text, with its Unicode escapes decoded.
    pub(crate) fn intern_current(&mut self) -> (id: StringId)
        ensures
            (final(self).st(), id) == old(self).st().intern_current(),
            old(self).st().moved(final(self).st()),
    {
        reveal(ParserState::kept);
        reveal(ParserState::intern_current);
        let decoded = decode_unicode_escapes(self.current_text());
        self.intern(decoded.as_str())
    }

    /// The number that a numeric literal denotes, by its bit pattern.
    pub(crate) fn parse_number(&self, text: &str) -> (bits: u64)
        ensures
            bits == number_literal::literal_bits(text@),
    {
        parse_number_text(text)
    }

    /// Intern the string content between quotes, with its escapes replaced.
    pub(crate) fn parse_string_value(&mut self, text: &str) -> (id: StringId)
        ensures
            (final(self).st(), id) == old(self).st().parse_string_value(text@),
            old(self).st().moved(final(self).st()),
    {
        reveal(ParserState::kept);
        reveal(ParserState::parse_string_value);
        let content = inner_text(text, 1, 1);
        let unescaped = unescape_string(content.as_str());
        self.intern(unescaped.as_str())
    }

    /// Whether a property key is the name `constructor`.
    pub(crate) fn names_constructor(&self, key: &PropertyKey) -> (result: bool)
        ensures
            result == self.st().names_constructor(key@),
    {
        reveal(ParserState::names_constructor);
        match key {
            PropertyKey::Identifier(id) => same_text(self.interner.text(*id), "constructor"),
            _ => false,
        }
    }

    /// Note an error.
    pub(crate) fn report(&mut self, error: ParseError)
        ensures
            final(self).st() == old(self).st().report(error@),
            old(self).st().errors.is_prefix_of(final(self).st().errors),
            old(self).st().kept() ==> final(self).st().kept(),
            final(self).st() == (ParserState {
                errors: final(self).st().errors,
                ..old(self).st()
            }),
    {
        reveal(ParserState::kept);
        reveal(ParserState::report);
        self.errors.push(error);
        assert(error_views(self.errors@) =~= error_views(old(self).errors@).push(error@));
    }

    /// Skip tokens until a likely statement boundary.
    pub(crate) fn synchronize(&mut self)
        ensures
            final(self).st() == old(self).st().synchronize(),
            old(self).st().moved(final(self).st()),
    {
        reveal(ParserState::kept);
        reveal(ParserState::eat);
        reveal(ParserState::at);
        reveal(ParserState::current_kind);
        reveal(ParserState::advance);
        reveal(ParserState::synchronize);
        while !self.at(TokenKind::Eof)
            invariant
                old(self).st().moved(self.st()),
                self.st().synchronize() == old(self).st().synchronize(),
            decreases self.st().tokens.len() - self.st().at,
        {
            reveal(ParserState::synchronize);
            reveal(ParserState::eat);
            reveal(ParserState::at);
            reveal(ParserState::current_kind);
            reveal(ParserState::advance);
            if self.eat(TokenKind::Semicolon) {
                return;
            }
            match self.current_kind() {
                TokenKind::Function
                | TokenKind::Class
                | TokenKind::Var
                | TokenKind::Let
                | TokenKind::Const
                | TokenKind::If
                | TokenKind::While
                | TokenKind::For
                | TokenKind::Return
                | TokenKind::Switch
                | TokenKind::Try
                | TokenKind::Throw => {
                    return;
                },
                _ => {
                    if self.tokens.len() == 0 || self.pos >= self.tokens.len() - 1 {
                        return;
                    }
                    self.advance();
                },
            }
        }
    }
}

} // verus!
