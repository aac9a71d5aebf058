//! Whole programs.

use vstd::prelude::*;
use crate::ast::list::{no_statements, push_statement};
use crate::ast::node::{Program, SourceType, Statement};
use crate::ast::span::Span;
use crate::ast::tree;
use crate::ast::tree::{ProgramView, StatementView};
use crate::lexer::token::TokenKind;
use crate::parser::error::ParseResult;
use crate::parser::parser::{Parser, ParserState, Step};
use crate::parser::statement::statement_within;

verus! {

impl ParserState {
    /// Parse the statements of a program up to the end. After an error, which is noted,
    /// parsing goes on at the next likely statement.
    pub open spec fn program_from(self, fuel: nat, body: Seq<StatementView>) -> Step<
        Seq<StatementView>,
    >
        decreases fuel,
    {
        let st = self;
        if st.at(TokenKind::Eof) {
            (st, Ok(body))
        } else if fuel == 0 {
            (st, Err(st.too_deep()))
        } else {
            match st.statement_within(u32::MAX as nat) {
                (st, Ok(statement)) => st.program_from((fuel - 1) as nat, body.push(statement)),
                (st, Err(error)) => st.report(error).synchronize().program_from(
                    (fuel - 1) as nat,
                    body,
                ),
            }
        }
    }

    /// Parse a complete program (script).
    pub open spec fn program(self) -> Step<ProgramView> {
        let start: u32 = self.pos();
        match self.program_from(u32::MAX as nat, Seq::empty()) {
            (st, Err(error)) => (st, Err(error)),
            (st, Ok(body)) => {
                let span: Span = Span { start, end: st.pos() };
                (st, Ok(ProgramView { body, source_type: SourceType::Script, span }))
            },
        }
    }
}

impl<'a> Parser<'a> {
    /// Parse a complete program (script). Syntax errors are collected in `errors`.
    pub fn parse_program(&mut self) -> (parsed: ParseResult<Program>)
        ensures
            old(self).st().program() == (
                final(self).st(),
                match parsed {
                    Ok(node) => Ok(node@),
                    Err(e) => Err(e@),
                },
            ),
            final(self).st().tokens == old(self).st().tokens,
            final(self).st().base == old(self).st().base,
            old(self).st().at <= final(self).st().at,
            old(self).st().errors.is_prefix_of(final(self).st().errors),
            old(self).st().kept() ==> final(self).st().kept(),
    {
        let start: u32 = self.pos();
        let mut body: Vec<Statement> = no_statements();
        let mut budget: u32 = u32::MAX;
        while !self.at(TokenKind::Eof)
            invariant
                self.st().tokens == old(self).st().tokens,
                self.st().base == old(self).st().base,
                old(self).st().at <= self.st().at,
                old(self).st().errors.is_prefix_of(self.st().errors),
                old(self).st().kept() ==> self.st().kept(),
                self.st().program_from(budget as nat, tree::statements(body)) == old(
                    self,
                ).st().program_from(u32::MAX as nat, Seq::empty()),
            decreases budget,
        {
            if budget == 0 {
                return Err(self.too_deep());
            }
            budget = budget - 1;
            match statement_within(self, u32::MAX) {
                Ok(statement) => {
                    push_statement(&mut body, statement);
                },
                Err(error) => {
                    self.report(error);
                    self.synchronize();
                },
            }
        }
        let span: Span = Span::new(start, self.pos());
        Ok(Program { body, source_type: SourceType::Script, span })
    }
}

} // verus!
