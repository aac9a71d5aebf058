//! Statements and declarations.

use vstd::prelude::*;
use crate::ast::list::{
    no_class_members, no_declarators, no_statements, no_switch_cases, one_declarator,
    push_class_member, push_declarator, push_statement, push_switch_case,
};
use crate::ast::node::{
    BlockStatement, BreakStatement, CatchClause, ClassBody, ClassDeclaration, ClassExpression,
    ClassMember, ClassProperty, ContinueStatement, DoWhileStatement, ExportDeclaration,
    ExportSpecifier, Expression, ExpressionStatement, ForInOfLeft, ForInStatement, ForInit,
    ForOfStatement, ForStatement, FunctionDeclaration, IfStatement, ImportDeclaration,
    ImportSpecifier, LabeledStatement, MethodDefinition, MethodKind, Pattern, ReturnStatement,
    Statement, SwitchCase, SwitchStatement, TryStatement, VarKind, VariableDeclaration,
    VariableDeclarator, WhileStatement,
};
use crate::ast::span::Span;
use crate::ast::tree;
use crate::ast::tree::{
    BlockStatementView, CatchClauseView, ClassBodyView, ClassDeclarationView, ClassExpressionView,
    ClassMemberView, ClassPropertyView, DoWhileStatementView, ExportDeclarationView,
    ExpressionStatementView, ExpressionView, ForInOfLeftView, ForInStatementView, ForInitView,
    ForOfStatementView, ForStatementView, FunctionDeclarationView, IfStatementView,
    ImportDeclarationView, LabeledStatementView, MethodDefinitionView, PatternView,
    ReturnStatementView, StatementView, SwitchCaseView, SwitchStatementView, TryStatementView,
    VariableDeclarationView, VariableDeclaratorView, WhileStatementView,
};
use crate::lexer::token::TokenKind;
use crate::parser::cover;
use crate::parser::cover::{
    export_statement, for_variable, identifier_pattern, method_kind, throw_statement,
};
use crate::parser::error;
use crate::parser::error::{ParseError, ParseResult};
use crate::parser::expression::{
    block_within, expression_within, params_within, parse_function_body, parse_function_expression,
    parse_optional_name, parse_property_key,
};
use crate::parser::pattern::parse_binding_target;
use crate::parser::operators;
use crate::parser::operators::{declaration_kind, is_case_end};
use crate::parser::parser::{Parser, ParserState, Step};
use crate::util::interner::StringId;

verus! {

impl ParserState {
    /// Parse a statement or declaration.
    pub open spec fn statement_within(self, fuel: nat) -> Step<StatementView>
        decreases fuel,
    {
        let st = self;
        if fuel == 0 {
            (st, Err(st.too_deep()))
        } else {
            let fuel = (fuel - 1) as nat;
            let span: Span = st.span();
            match st.current_kind() {
                TokenKind::LBrace => {
                    match st.block_within(fuel) {
                        (st, Err(e)) => (st, Err(e)),
                        (st, Ok(block)) => (st, Ok(StatementView::Block(block))),
                    }
                },
                TokenKind::Var => st.parse_variable_declaration(fuel),
                TokenKind::Let => st.parse_variable_declaration(fuel),
                TokenKind::Const => st.parse_variable_declaration(fuel),
                TokenKind::Semicolon => {
                    let st = st.advance();
                    (st, Ok(StatementView::Empty(span)))
                },
                TokenKind::If => st.parse_if(fuel),
                TokenKind::While => st.parse_while(fuel),
                TokenKind::Do => st.parse_do_while(fuel),
                TokenKind::For => st.parse_for(fuel),
                TokenKind::Switch => st.parse_switch(fuel),
                TokenKind::Return => st.parse_return(fuel),
                TokenKind::Break => st.parse_break(fuel),
                TokenKind::Continue => st.parse_continue(fuel),
                TokenKind::Throw => st.parse_throw(fuel),
                TokenKind::Try => st.parse_try(fuel),
                TokenKind::Function => st.parse_function_declaration(fuel, false),
                TokenKind::Class => st.parse_class_declaration(fuel),
                TokenKind::Debugger => {
                    let st = st.advance();
                    match st.expect_semicolon() {
                        (st, Err(e)) => (st, Err(e)),
                        (st, Ok(_)) => (st, Ok(StatementView::Debugger(span))),
                    }
                },
                TokenKind::Identifier => {
                    if st.at_word("async"@) && st.peek_kind() == TokenKind::Function {
                        let st = st.advance();
                        st.parse_function_declaration(fuel, true)
                    } else {
                        if st.peek_kind() == TokenKind::Colon {
                            st.parse_labeled(fuel)
                        } else {
                            st.parse_expression_statement(fuel)
                        }
                    }
                },
                TokenKind::Import => st.parse_import_declaration(fuel),
                TokenKind::Export => st.parse_export_declaration(fuel),
                _ => st.parse_expression_statement(fuel),
            }
        }
    }

    /// Parse a labeled statement: `identifier : statement`.
    pub open spec fn parse_labeled(self, fuel: nat) -> Step<StatementView>
        decreases fuel,
    {
        let st = self;
        if fuel == 0 {
            (st, Err(st.too_deep()))
        } else {
            let fuel = (fuel - 1) as nat;
            let start: u32 = st.pos();
            let (st, label) = st.intern_current();
            let st = st.advance();
            let st = st.advance();
            match st.statement_within(fuel) {
                (st, Err(e)) => (st, Err(e)),
                (st, Ok(body)) => {
                    let span: Span = Span { start: start, end: st.pos() };
                    (
                        st,
                        Ok(
                            StatementView::Labeled(
                                Box::new(LabeledStatementView { label, body, span }),
                            ),
                        ),
                    )
                },
            }
        }
    }

    /// Parse an import declaration.
    pub open spec fn parse_import_declaration(self, fuel: nat) -> Step<StatementView>
        decreases fuel,
    {
        let st = self;
        if fuel == 0 {
            (st, Err(st.too_deep()))
        } else {
            let fuel = (fuel - 1) as nat;
            let start: u32 = st.pos();
            let st = st.advance();
            let specifiers: Seq<ImportSpecifier> = Seq::empty();
            if st.at(TokenKind::String) {
                let (st, source) = st.intern_current();
                let st = st.advance();
                match st.expect_semicolon() {
                    (st, Err(e)) => (st, Err(e)),
                    (st, Ok(_)) => {
                        let span: Span = Span { start: start, end: st.pos() };
                        (
                            st,
                            Ok(
                                StatementView::Import(
                                    ImportDeclarationView::Standard { specifiers, source, span },
                                ),
                            ),
                        )
                    },
                }
            } else {
                match st.parse_import_clause(fuel, specifiers) {
                    (st, Err(e)) => (st, Err(e)),
                    (st, Ok(specifiers)) => {
                        let st = if st.at_word("from"@) {
                            let st = st.advance();
                            st
                        } else {
                            st
                        };
                        let (st, source) = st.intern_current();
                        match st.expect(TokenKind::String) {
                            (st, Err(e)) => (st, Err(e)),
                            (st, Ok(_)) => {
                                match st.expect_semicolon() {
                                    (st, Err(e)) => (st, Err(e)),
                                    (st, Ok(_)) => {
                                        let span: Span = Span { start: start, end: st.pos() };
                                        (
                                            st,
                                            Ok(
                                                StatementView::Import(
                                                    ImportDeclarationView::Standard {
                                                        specifiers,
                                                        source,
                                                        span,
                                                    },
                                                ),
                                            ),
                                        )
                                    },
                                }
                            },
                        }
                    },
                }
            }
        }
    }

    /// Parse what an import declaration imports.
    pub open spec fn parse_import_clause(
        self,
        fuel: nat,
        specifiers: Seq<ImportSpecifier>,
    ) -> Step<Seq<ImportSpecifier>>
        decreases fuel,
    {
        let st = self;
        if fuel == 0 {
            (st, Err(st.too_deep()))
        } else {
            let fuel = (fuel - 1) as nat;
            if st.at(
                TokenKind::Identifier,
            ) && st.peek_kind() != TokenKind::Comma && !st.at_word("from"@) {
                let (st, local) = st.intern_current();
                let span: Span = st.span();
                let listed: bool = st.peek_kind() == TokenKind::LBrace || st.peek_word("from"@);
                let st = st.advance();
                let specifiers = specifiers.push(ImportSpecifier::Default { local, span });
                if listed {
                    let (st, more) = st.eat(TokenKind::Comma);
                    if more {
                        st.parse_import_list(fuel, specifiers)
                    } else {
                        (st, Ok(specifiers))
                    }
                } else {
                    (st, Ok(specifiers))
                }
            } else {
                st.parse_import_list(fuel, specifiers)
            }
        }
    }

    /// Parse the named imports or the namespace import, if there are any.
    pub open spec fn parse_import_list(
        self,
        fuel: nat,
        specifiers: Seq<ImportSpecifier>,
    ) -> Step<Seq<ImportSpecifier>>
        decreases fuel,
    {
        let st = self;
        if fuel == 0 {
            (st, Err(st.too_deep()))
        } else {
            let fuel = (fuel - 1) as nat;
            if st.at(TokenKind::LBrace) {
                match st.expect(TokenKind::LBrace) {
                    (st, Err(e)) => (st, Err(e)),
                    (st, Ok(_)) => {
                        match st.parse_named_imports(fuel, specifiers) {
                            (st, Err(e)) => (st, Err(e)),
                            (st, Ok(specifiers)) => {
                                match st.expect(TokenKind::RBrace) {
                                    (st, Err(e)) => (st, Err(e)),
                                    (st, Ok(_)) => (st, Ok(specifiers)),
                                }
                            },
                        }
                    },
                }
            } else {
                if st.at(TokenKind::Star) {
                    st.parse_namespace_import(fuel, specifiers)
                } else {
                    (st, Ok(specifiers))
                }
            }
        }
    }

    /// Parse named imports.
    pub open spec fn parse_named_imports(
        self,
        fuel: nat,
        specifiers: Seq<ImportSpecifier>,
    ) -> Step<Seq<ImportSpecifier>>
        decreases fuel,
    {
        let st = self;
        if fuel == 0 {
            (st, Err(st.too_deep()))
        } else {
            let fuel = (fuel - 1) as nat;
            if st.at(TokenKind::RBrace) || st.at(TokenKind::Eof) {
                (st, Ok(specifiers))
            } else {
                let (st, imported) = st.intern_current();
                let span: Span = st.span();
                let st = st.advance();
                match st.parse_alias(fuel, imported) {
                    (st, Err(e)) => (st, Err(e)),
                    (st, Ok(local)) => {
                        let specifiers = specifiers.push(
                            ImportSpecifier::Named { imported, local, span },
                        );
                        match st.separate(TokenKind::RBrace) {
                            (st, Err(e)) => (st, Err(e)),
                            (st, Ok(_)) => st.parse_named_imports(fuel, specifiers),
                        }
                    },
                }
            }
        }
    }

    /// Parse `as name`, if it is there; otherwise the name stays.
    pub open spec fn parse_alias(self, fuel: nat, name: StringId) -> Step<StringId>
        decreases fuel,
    {
        let st = self;
        if fuel == 0 {
            (st, Err(st.too_deep()))
        } else {
            let fuel = (fuel - 1) as nat;
            if st.at_word("as"@) {
                let st = st.advance();
                let (st, alias) = st.intern_current();
                let st = st.advance();
                (st, Ok(alias))
            } else {
                (st, Ok(name))
            }
        }
    }

    /// Parse a namespace import: `* as name`.
    pub open spec fn parse_namespace_import(
        self,
        fuel: nat,
        specifiers: Seq<ImportSpecifier>,
    ) -> Step<Seq<ImportSpecifier>>
        decreases fuel,
    {
        let st = self;
        if fuel == 0 {
            (st, Err(st.too_deep()))
        } else {
            let fuel = (fuel - 1) as nat;
            let span: Span = st.span();
            let st = st.advance();
            let st = if st.at_word("as"@) {
                let st = st.advance();
                st
            } else {
                st
            };
            let (st, local) = st.intern_current();
            let st = st.advance();
            let specifiers = specifiers.push(ImportSpecifier::Namespace { local, span });
            (st, Ok(specifiers))
        }
    }

    /// Parse an export declaration.
    pub open spec fn parse_export_declaration(self, fuel: nat) -> Step<StatementView>
        decreases fuel,
    {
        let st = self;
        if fuel == 0 {
            (st, Err(st.too_deep()))
        } else {
            let fuel = (fuel - 1) as nat;
            let start: u32 = st.pos();
            let st = st.advance();
            if st.at(TokenKind::Default) {
                let st = st.advance();
                match st.parse_export_default(fuel) {
                    (st, Err(e)) => (st, Err(e)),
                    (st, Ok(declaration)) => {
                        let span: Span = Span { start: start, end: st.pos() };
                        let export = ExportDeclarationView::Default { declaration, span };
                        (st, Ok(cover::export_of(export)))
                    },
                }
            } else {
                if st.at(TokenKind::Function) {
                    match st.parse_function_declaration(fuel, false) {
                        (st, Err(e)) => (st, Err(e)),
                        (st, Ok(statement)) => st.parse_exported(fuel, start, statement),
                    }
                } else {
                    if st.at(TokenKind::Class) {
                        match st.parse_class_declaration(fuel) {
                            (st, Err(e)) => (st, Err(e)),
                            (st, Ok(statement)) => st.parse_exported(fuel, start, statement),
                        }
                    } else {
                        if st.at(TokenKind::Var) || st.at(TokenKind::Let) || st.at(
                            TokenKind::Const,
                        ) {
                            match st.parse_variable_declaration(fuel) {
                                (st, Err(e)) => (st, Err(e)),
                                (st, Ok(statement)) => st.parse_exported(fuel, start, statement),
                            }
                        } else {
                            if st.at(TokenKind::LBrace) {
                                let st = st.advance();
                                st.parse_export_named(fuel, start)
                            } else {
                                if st.at(TokenKind::Star) {
                                    let st = st.advance();
                                    st.parse_export_all(fuel, start)
                                } else {
                                    (st, Err(st.unexpected()))
                                }
                            }
                        }
                    }
                }
            }
        }
    }

    /// A declaration that is exported.
    pub open spec fn parse_exported(
        self,
        fuel: nat,
        start: u32,
        statement: StatementView,
    ) -> Step<StatementView>
        decreases fuel,
    {
        let st = self;
        if fuel == 0 {
            (st, Err(st.too_deep()))
        } else {
            let fuel = (fuel - 1) as nat;
            let span: Span = Span { start: start, end: st.pos() };
            let export = ExportDeclarationView::Declaration {
                declaration: Box::new(statement),
                span,
            };
            (st, Ok(cover::export_of(export)))
        }
    }

    /// Parse the value of `export default`.
    pub open spec fn parse_export_default(self, fuel: nat) -> Step<ExpressionView>
        decreases fuel,
    {
        let st = self;
        if fuel == 0 {
            (st, Err(st.too_deep()))
        } else {
            let fuel = (fuel - 1) as nat;
            if st.at(TokenKind::Function) {
                st.parse_function_expression(fuel)
            } else {
                if st.at(TokenKind::Class) {
                    let start: u32 = st.pos();
                    match st.expect(TokenKind::Class) {
                        (st, Err(e)) => (st, Err(e)),
                        (st, Ok(_)) => {
                            match st.parse_optional_name(fuel) {
                                (st, Err(e)) => (st, Err(e)),
                                (st, Ok(id)) => {
                                    match st.parse_heritage(fuel) {
                                        (st, Err(e)) => (st, Err(e)),
                                        (st, Ok(super_class)) => {
                                            match st.parse_class_body(fuel) {
                                                (st, Err(e)) => (st, Err(e)),
                                                (st, Ok(body)) => {
                                                    let span: Span = Span {
                                                        start: start,
                                                        end: st.pos(),
                                                    };
                                                    (
                                                        st,
                                                        Ok(
                                                            ExpressionView::Class(
                                                                Box::new(
                                                                    ClassExpressionView {
                                                                        id,
                                                                        super_class,
                                                                        body,
                                                                        span,
                                                                    },
                                                                ),
                                                            ),
                                                        ),
                                                    )
                                                },
                                            }
                                        },
                                    }
                                },
                            }
                        },
                    }
                } else {
                    match st.expression_within(fuel, 0) {
                        (st, Err(e)) => (st, Err(e)),
                        (st, Ok(expr)) => {
                            match st.expect_semicolon() {
                                (st, Err(e)) => (st, Err(e)),
                                (st, Ok(_)) => (st, Ok(expr)),
                            }
                        },
                    }
                }
            }
        }
    }

    /// Parse `export { a, b }` or `export { a, b } from 'mod'`, behind the opening brace.
    pub open spec fn parse_export_named(self, fuel: nat, start: u32) -> Step<StatementView>
        decreases fuel,
    {
        let st = self;
        if fuel == 0 {
            (st, Err(st.too_deep()))
        } else {
            let fuel = (fuel - 1) as nat;
            let none: Seq<ExportSpecifier> = Seq::empty();
            match st.parse_export_specifiers(fuel, none) {
                (st, Err(e)) => (st, Err(e)),
                (st, Ok(specifiers)) => {
                    match st.expect(TokenKind::RBrace) {
                        (st, Err(e)) => (st, Err(e)),
                        (st, Ok(_)) => {
                            match st.parse_export_source(fuel) {
                                (st, Err(e)) => (st, Err(e)),
                                (st, Ok(source)) => {
                                    match st.expect_semicolon() {
                                        (st, Err(e)) => (st, Err(e)),
                                        (st, Ok(_)) => {
                                            let span: Span = Span { start: start, end: st.pos() };
                                            let export = ExportDeclarationView::Named {
                                                specifiers,
                                                source,
                                                span,
                                            };
                                            (st, Ok(cover::export_of(export)))
                                        },
                                    }
                                },
                            }
                        },
                    }
                },
            }
        }
    }

    /// Parse the names of an export declaration.
    pub open spec fn parse_export_specifiers(
        self,
        fuel: nat,
        specifiers: Seq<ExportSpecifier>,
    ) -> Step<Seq<ExportSpecifier>>
        decreases fuel,
    {
        let st = self;
        if fuel == 0 {
            (st, Err(st.too_deep()))
        } else {
            let fuel = (fuel - 1) as nat;
            if st.at(TokenKind::RBrace) || st.at(TokenKind::Eof) {
                (st, Ok(specifiers))
            } else {
                let (st, local) = st.intern_current();
                let span: Span = st.span();
                let st = st.advance();
                match st.parse_alias(fuel, local) {
                    (st, Err(e)) => (st, Err(e)),
                    (st, Ok(exported)) => {
                        let specifiers = specifiers.push(ExportSpecifier { local, exported, span });
                        match st.separate(TokenKind::RBrace) {
                            (st, Err(e)) => (st, Err(e)),
                            (st, Ok(_)) => st.parse_export_specifiers(fuel, specifiers),
                        }
                    },
                }
            }
        }
    }

    /// Parse the module that named exports come from, if there is one.
    pub open spec fn parse_export_source(self, fuel: nat) -> Step<Option<StringId>>
        decreases fuel,
    {
        let st = self;
        if fuel == 0 {
            (st, Err(st.too_deep()))
        } else {
            let fuel = (fuel - 1) as nat;
            if st.at_word("from"@) {
                let st = st.advance();
                let (st, source) = st.intern_current();
                match st.expect(TokenKind::String) {
                    (st, Err(e)) => (st, Err(e)),
                    (st, Ok(_)) => (st, Ok(Some(source))),
                }
            } else {
                (st, Ok(None))
            }
        }
    }

    /// Parse `export * from 'mod'`, behind the star.
    pub open spec fn parse_export_all(self, fuel: nat, start: u32) -> Step<StatementView>
        decreases fuel,
    {
        let st = self;
        if fuel == 0 {
            (st, Err(st.too_deep()))
        } else {
            let fuel = (fuel - 1) as nat;
            match st.parse_export_name(fuel) {
                (st, Err(e)) => (st, Err(e)),
                (st, Ok(exported)) => {
                    let st = if st.at_word("from"@) {
                        let st = st.advance();
                        st
                    } else {
                        st
                    };
                    let (st, source) = st.intern_current();
                    match st.expect(TokenKind::String) {
                        (st, Err(e)) => (st, Err(e)),
                        (st, Ok(_)) => {
                            match st.expect_semicolon() {
                                (st, Err(e)) => (st, Err(e)),
                                (st, Ok(_)) => {
                                    let span: Span = Span { start: start, end: st.pos() };
                                    let export = ExportDeclarationView::All {
                                        source,
                                        exported,
                                        span,
                                    };
                                    (st, Ok(cover::export_of(export)))
                                },
                            }
                        },
                    }
                },
            }
        }
    }

    /// Parse `as name`, if it is there.
    pub open spec fn parse_export_name(self, fuel: nat) -> Step<Option<StringId>>
        decreases fuel,
    {
        let st = self;
        if fuel == 0 {
            (st, Err(st.too_deep()))
        } else {
            let fuel = (fuel - 1) as nat;
            if st.at_word("as"@) {
                let st = st.advance();
                let (st, name) = st.intern_current();
                let st = st.advance();
                (st, Ok(Some(name)))
            } else {
                (st, Ok(None))
            }
        }
    }

    /// Parse a variable declaration.
    pub open spec fn parse_variable_declaration(self, fuel: nat) -> Step<StatementView>
        decreases fuel,
    {
        let st = self;
        if fuel == 0 {
            (st, Err(st.too_deep()))
        } else {
            let fuel = (fuel - 1) as nat;
            let start: u32 = st.pos();
            match operators::declaration_of(st.current_kind()) {
                Some(kind) => {
                    let st = st.advance();
                    let none: Seq<VariableDeclaratorView> = Seq::empty();
                    match st.parse_declarators(fuel, none) {
                        (st, Err(e)) => (st, Err(e)),
                        (st, Ok(declarations)) => {
                            match st.expect_semicolon() {
                                (st, Err(e)) => (st, Err(e)),
                                (st, Ok(_)) => {
                                    let span: Span = Span { start: start, end: st.pos() };
                                    (
                                        st,
                                        Ok(
                                            StatementView::Variable(
                                                VariableDeclarationView {
                                                    kind,
                                                    declarations,
                                                    span,
                                                },
                                            ),
                                        ),
                                    )
                                },
                            }
                        },
                    }
                },
                None => (st, Err(st.unexpected())),
            }
        }
    }

    /// Parse the declarators of a variable declaration.
    pub open spec fn parse_declarators(
        self,
        fuel: nat,
        declarations: Seq<VariableDeclaratorView>,
    ) -> Step<Seq<VariableDeclaratorView>>
        decreases fuel,
    {
        let st = self;
        if fuel == 0 {
            (st, Err(st.too_deep()))
        } else {
            let fuel = (fuel - 1) as nat;
            match st.parse_declarator(fuel) {
                (st, Err(e)) => (st, Err(e)),
                (st, Ok(declarator)) => {
                    let declarations = declarations.push(declarator);
                    let (st, more) = st.eat(TokenKind::Comma);
                    if !more {
                        (st, Ok(declarations))
                    } else {
                        st.parse_declarators(fuel, declarations)
                    }
                },
            }
        }
    }

    /// Parse a declarator: a binding with its initial value.
    pub open spec fn parse_declarator(self, fuel: nat) -> Step<VariableDeclaratorView>
        decreases fuel,
    {
        let st = self;
        if fuel == 0 {
            (st, Err(st.too_deep()))
        } else {
            let fuel = (fuel - 1) as nat;
            let start: u32 = st.pos();
            match st.parse_binding_target(fuel) {
                (st, Err(e)) => (st, Err(e)),
                (st, Ok(id)) => {
                    match st.parse_initializer(fuel) {
                        (st, Err(e)) => (st, Err(e)),
                        (st, Ok(init)) => {
                            let span: Span = Span { start: start, end: st.pos() };
                            (st, Ok(VariableDeclaratorView { id, init, span }))
                        },
                    }
                },
            }
        }
    }

    /// Parse an initial value, if there is one.
    pub open spec fn parse_initializer(self, fuel: nat) -> Step<Option<ExpressionView>>
        decreases fuel,
    {
        let st = self;
        if fuel == 0 {
            (st, Err(st.too_deep()))
        } else {
            let fuel = (fuel - 1) as nat;
            let (st, initialized) = st.eat(TokenKind::Assign);
            if initialized {
                match st.expression_within(fuel, 3) {
                    (st, Err(e)) => (st, Err(e)),
                    (st, Ok(value)) => (st, Ok(Some(value))),
                }
            } else {
                (st, Ok(None))
            }
        }
    }

    /// Parse an `if` statement.
    pub open spec fn parse_if(self, fuel: nat) -> Step<StatementView>
        decreases fuel,
    {
        let st = self;
        if fuel == 0 {
            (st, Err(st.too_deep()))
        } else {
            let fuel = (fuel - 1) as nat;
            let start: u32 = st.pos();
            match st.expect(TokenKind::If) {
                (st, Err(e)) => (st, Err(e)),
                (st, Ok(_)) => {
                    match st.expect(TokenKind::LParen) {
                        (st, Err(e)) => (st, Err(e)),
                        (st, Ok(_)) => {
                            match st.expression_within(fuel, 0) {
                                (st, Err(e)) => (st, Err(e)),
                                (st, Ok(test)) => {
                                    match st.expect(TokenKind::RParen) {
                                        (st, Err(e)) => (st, Err(e)),
                                        (st, Ok(_)) => {
                                            match st.statement_within(fuel) {
                                                (st, Err(e)) => (st, Err(e)),
                                                (st, Ok(consequent)) => {
                                                    match st.parse_else(fuel) {
                                                        (st, Err(e)) => (st, Err(e)),
                                                        (st, Ok(alternate)) => {
                                                            let span: Span = Span {
                                                                start: start,
                                                                end: st.pos(),
                                                            };
                                                            (
                                                                st,
                                                                Ok(
                                                                    StatementView::If(
                                                                        Box::new(
                                                                            IfStatementView {
                                                                                test,
                                                                                consequent,
                                                                                alternate,
                                                                                span,
                                                                            },
                                                                        ),
                                                                    ),
                                                                ),
                                                            )
                                                        },
                                                    }
                                                },
                                            }
                                        },
                                    }
                                },
                            }
                        },
                    }
                },
            }
        }
    }

    /// Parse an `else` branch, if there is one.
    pub open spec fn parse_else(self, fuel: nat) -> Step<Option<StatementView>>
        decreases fuel,
    {
        let st = self;
        if fuel == 0 {
            (st, Err(st.too_deep()))
        } else {
            let fuel = (fuel - 1) as nat;
            let (st, present) = st.eat(TokenKind::Else);
            if present {
                match st.statement_within(fuel) {
                    (st, Err(e)) => (st, Err(e)),
                    (st, Ok(branch)) => (st, Ok(Some(branch))),
                }
            } else {
                (st, Ok(None))
            }
        }
    }

    /// Parse a `while` loop.
    pub open spec fn parse_while(self, fuel: nat) -> Step<StatementView>
        decreases fuel,
    {
        let st = self;
        if fuel == 0 {
            (st, Err(st.too_deep()))
        } else {
            let fuel = (fuel - 1) as nat;
            let start: u32 = st.pos();
            match st.expect(TokenKind::While) {
                (st, Err(e)) => (st, Err(e)),
                (st, Ok(_)) => {
                    match st.expect(TokenKind::LParen) {
                        (st, Err(e)) => (st, Err(e)),
                        (st, Ok(_)) => {
                            match st.expression_within(fuel, 0) {
                                (st, Err(e)) => (st, Err(e)),
                                (st, Ok(test)) => {
                                    match st.expect(TokenKind::RParen) {
                                        (st, Err(e)) => (st, Err(e)),
                                        (st, Ok(_)) => {
                                            match st.statement_within(fuel) {
                                                (st, Err(e)) => (st, Err(e)),
                                                (st, Ok(body)) => {
                                                    let span: Span = Span {
                                                        start: start,
                                                        end: st.pos(),
                                                    };
                                                    (
                                                        st,
                                                        Ok(
                                                            StatementView::While(
                                                                Box::new(
                                                                    WhileStatementView {
                                                                        test,
                                                                        body,
                                                                        span,
                                                                    },
                                                                ),
                                                            ),
                                                        ),
                                                    )
                                                },
                                            }
                                        },
                                    }
                                },
                            }
                        },
                    }
                },
            }
        }
    }

    /// Parse a `do` loop.
    pub open spec fn parse_do_while(self, fuel: nat) -> Step<StatementView>
        decreases fuel,
    {
        let st = self;
        if fuel == 0 {
            (st, Err(st.too_deep()))
        } else {
            let fuel = (fuel - 1) as nat;
            let start: u32 = st.pos();
            match st.expect(TokenKind::Do) {
                (st, Err(e)) => (st, Err(e)),
                (st, Ok(_)) => {
                    match st.statement_within(fuel) {
                        (st, Err(e)) => (st, Err(e)),
                        (st, Ok(body)) => {
                            match st.expect(TokenKind::While) {
                                (st, Err(e)) => (st, Err(e)),
                                (st, Ok(_)) => {
                                    match st.expect(TokenKind::LParen) {
                                        (st, Err(e)) => (st, Err(e)),
                                        (st, Ok(_)) => {
                                            match st.expression_within(fuel, 0) {
                                                (st, Err(e)) => (st, Err(e)),
                                                (st, Ok(test)) => {
                                                    match st.expect(TokenKind::RParen) {
                                                        (st, Err(e)) => (st, Err(e)),
                                                        (st, Ok(_)) => {
                                                            match st.expect_semicolon() {
                                                                (st, Err(e)) => (st, Err(e)),
                                                                (st, Ok(_)) => {
                                                                    let span: Span = Span {
                                                                        start: start,
                                                                        end: st.pos(),
                                                                    };
                                                                    (
                                                                        st,
                                                                        Ok(
                                                                            StatementView::DoWhile(
                                                                                Box::new(
                                                                                    DoWhileStatementView {
                                                                                        body,
                                                                                        test,
                                                                                        span,
                                                                                    },
                                                                                ),
                                                                            ),
                                                                        ),
                                                                    )
                                                                },
                                                            }
                                                        },
                                                    }
                                                },
                                            }
                                        },
                                    }
                                },
                            }
                        },
                    }
                },
            }
        }
    }

    /// Parse a `for` loop of any kind.
    pub open spec fn parse_for(self, fuel: nat) -> Step<StatementView>
        decreases fuel,
    {
        let st = self;
        if fuel == 0 {
            (st, Err(st.too_deep()))
        } else {
            let fuel = (fuel - 1) as nat;
            let start: u32 = st.pos();
            match st.expect(TokenKind::For) {
                (st, Err(e)) => (st, Err(e)),
                (st, Ok(_)) => {
                    match st.expect(TokenKind::LParen) {
                        (st, Err(e)) => (st, Err(e)),
                        (st, Ok(_)) => {
                            if st.at(TokenKind::Semicolon) {
                                let none: Option<ForInitView> = None;
                                st.parse_for_rest(fuel, start, none)
                            } else {
                                let var_start: u32 = st.pos();
                                match operators::declaration_of(st.current_kind()) {
                                    Some(kind) => {
                                        let st = st.advance();
                                        if st.at(TokenKind::LBracket) || st.at(TokenKind::LBrace) {
                                            st.parse_for_pattern(fuel, start, var_start, kind)
                                        } else {
                                            st.parse_for_name(fuel, start, var_start, kind)
                                        }
                                    },
                                    None => {
                                        if st.at(TokenKind::Identifier) && (
                                            st.peek_kind() == TokenKind::In || st.peek_kind() == TokenKind::Of || st.peek_word("of"@)
                                        ) {
                                            let (st, name) = st.intern_current();
                                            let name_span: Span = st.span();
                                            let st = st.advance();
                                            let is_of: bool = st.current_kind() != TokenKind::In;
                                            let st = st.advance();
                                            let left = ForInOfLeftView::Pattern(
                                                cover::name_pattern(name, name_span),
                                            );
                                            st.parse_for_each(fuel, start, left, is_of, 0)
                                        } else {
                                            match st.expression_within(fuel, 0) {
                                                (st, Err(e)) => (st, Err(e)),
                                                (st, Ok(expr)) => {
                                                    if st.at(TokenKind::Of) || st.at(
                                                        TokenKind::In,
                                                    ) {
                                                        let is_of: bool = st.at(TokenKind::Of);
                                                        let st = st.advance();
                                                        let left = ForInOfLeftView::Expression(expr);
                                                        st.parse_for_each(
                                                            fuel,
                                                            start,
                                                            left,
                                                            is_of,
                                                            0,
                                                        )
                                                    } else {
                                                        let init: Option<ForInitView> = Some(
                                                            ForInitView::Expression(expr),
                                                        );
                                                        st.parse_for_rest(fuel, start, init)
                                                    }
                                                },
                                            }
                                        }
                                    },
                                }
                            }
                        },
                    }
                },
            }
        }
    }

    /// Parse a `for` loop that declares a pattern, behind the keyword of the declaration.
    pub open spec fn parse_for_pattern(
        self,
        fuel: nat,
        start: u32,
        var_start: u32,
        kind: VarKind,
    ) -> Step<StatementView>
        decreases fuel,
    {
        let st = self;
        if fuel == 0 {
            (st, Err(st.too_deep()))
        } else {
            let fuel = (fuel - 1) as nat;
            let pat_start: u32 = st.pos();
            match st.parse_binding_target(fuel) {
                (st, Err(e)) => (st, Err(e)),
                (st, Ok(id)) => {
                    let pat_span: Span = Span { start: pat_start, end: st.pos() };
                    let decl_span: Span = Span { start: var_start, end: st.pos() };
                    if st.at(TokenKind::In) {
                        let st = st.advance();
                        let left = cover::declared_left(kind, id, pat_span, decl_span);
                        st.parse_for_each(fuel, start, left, false, 0)
                    } else {
                        if st.at(TokenKind::Of) || st.at_word("of"@) {
                            let st = st.advance();
                            let left = cover::declared_left(kind, id, pat_span, decl_span);
                            st.parse_for_each(fuel, start, left, true, 3)
                        } else {
                            if st.at(TokenKind::Assign) {
                                let st = st.advance();
                                match st.expression_within(fuel, 3) {
                                    (st, Err(e)) => (st, Err(e)),
                                    (st, Ok(value)) => {
                                        let init: Option<ExpressionView> = Some(value);
                                        let span: Span = Span { start: pat_start, end: st.pos() };
                                        let first: Seq<VariableDeclaratorView> = seq![
                                            VariableDeclaratorView { id, init, span }
                                        ];
                                        match st.parse_more_declarators(fuel, first) {
                                            (st, Err(e)) => (st, Err(e)),
                                            (st, Ok(declarations)) => {
                                                let whole: Span = Span {
                                                    start: var_start,
                                                    end: st.pos(),
                                                };
                                                let declared = ForInitView::Variable(
                                                    VariableDeclarationView {
                                                        kind,
                                                        declarations,
                                                        span: whole,
                                                    },
                                                );
                                                let head: Option<ForInitView> = Some(declared);
                                                st.parse_for_rest(fuel, start, head)
                                            },
                                        }
                                    },
                                }
                            } else {
                                (st, Err(st.unexpected()))
                            }
                        }
                    }
                },
            }
        }
    }

    /// Parse a `for` loop that declares a name, behind the keyword of the declaration.
    pub open spec fn parse_for_name(
        self,
        fuel: nat,
        start: u32,
        var_start: u32,
        kind: VarKind,
    ) -> Step<StatementView>
        decreases fuel,
    {
        let st = self;
        if fuel == 0 {
            (st, Err(st.too_deep()))
        } else {
            let fuel = (fuel - 1) as nat;
            let (st, name) = st.intern_current();
            let name_span: Span = st.span();
            match st.expect(TokenKind::Identifier) {
                (st, Err(e)) => (st, Err(e)),
                (st, Ok(_)) => {
                    let id = cover::name_pattern(name, name_span);
                    let decl_span: Span = Span { start: var_start, end: name_span.end };
                    if st.at(TokenKind::In) {
                        let st = st.advance();
                        let left = cover::declared_left(kind, id, name_span, decl_span);
                        st.parse_for_each(fuel, start, left, false, 0)
                    } else {
                        if st.at(TokenKind::Of) || st.at_word("of"@) {
                            let st = st.advance();
                            let left = cover::declared_left(kind, id, name_span, decl_span);
                            st.parse_for_each(fuel, start, left, true, 3)
                        } else {
                            match st.parse_initializer(fuel) {
                                (st, Err(e)) => (st, Err(e)),
                                (st, Ok(init)) => {
                                    let span: Span = Span { start: var_start, end: st.pos() };
                                    let first: Seq<VariableDeclaratorView> = seq![
                                        VariableDeclaratorView { id, init, span }
                                    ];
                                    match st.parse_more_names(fuel, first) {
                                        (st, Err(e)) => (st, Err(e)),
                                        (st, Ok(declarations)) => {
                                            let whole: Span = Span {
                                                start: var_start,
                                                end: st.pos(),
                                            };
                                            let declared = ForInitView::Variable(
                                                VariableDeclarationView {
                                                    kind,
                                                    declarations,
                                                    span: whole,
                                                },
                                            );
                                            let head: Option<ForInitView> = Some(declared);
                                            st.parse_for_rest(fuel, start, head)
                                        },
                                    }
                                },
                            }
                        }
                    }
                },
            }
        }
    }

    /// Parse further declarators in the head of a `for` loop.
    pub open spec fn parse_more_declarators(
        self,
        fuel: nat,
        declarations: Seq<VariableDeclaratorView>,
    ) -> Step<Seq<VariableDeclaratorView>>
        decreases fuel,
    {
        let st = self;
        if fuel == 0 {
            (st, Err(st.too_deep()))
        } else {
            let fuel = (fuel - 1) as nat;
            let (st, more) = st.eat(TokenKind::Comma);
            if !more {
                (st, Ok(declarations))
            } else {
                match st.parse_declarator(fuel) {
                    (st, Err(e)) => (st, Err(e)),
                    (st, Ok(declarator)) => {
                        let declarations = declarations.push(declarator);
                        st.parse_more_declarators(fuel, declarations)
                    },
                }
            }
        }
    }

    /// Parse further names with their initial values in the head of a `for` loop.
    pub open spec fn parse_more_names(
        self,
        fuel: nat,
        declarations: Seq<VariableDeclaratorView>,
    ) -> Step<Seq<VariableDeclaratorView>>
        decreases fuel,
    {
        let st = self;
        if fuel == 0 {
            (st, Err(st.too_deep()))
        } else {
            let fuel = (fuel - 1) as nat;
            let (st, more) = st.eat(TokenKind::Comma);
            if !more {
                (st, Ok(declarations))
            } else {
                let start: u32 = st.pos();
                let (st, name) = st.intern_current();
                let name_span: Span = st.span();
                match st.expect(TokenKind::Identifier) {
                    (st, Err(e)) => (st, Err(e)),
                    (st, Ok(_)) => {
                        match st.parse_initializer(fuel) {
                            (st, Err(e)) => (st, Err(e)),
                            (st, Ok(init)) => {
                                let span: Span = Span { start: start, end: st.pos() };
                                let id = cover::name_pattern(name, name_span);
                                let declarations = declarations.push(
                                    VariableDeclaratorView { id, init, span },
                                );
                                st.parse_more_names(fuel, declarations)
                            },
                        }
                    },
                }
            }
        }
    }

    /// Parse a `for`-`in` or `for`-`of` loop behind its keyword.
    pub open spec fn parse_for_each(
        self,
        fuel: nat,
        start: u32,
        left: ForInOfLeftView,
        is_of: bool,
        min_bp: u8,
    ) -> Step<StatementView>
        decreases fuel,
    {
        let st = self;
        if fuel == 0 {
            (st, Err(st.too_deep()))
        } else {
            let fuel = (fuel - 1) as nat;
            match st.expression_within(fuel, min_bp) {
                (st, Err(e)) => (st, Err(e)),
                (st, Ok(right)) => {
                    match st.expect(TokenKind::RParen) {
                        (st, Err(e)) => (st, Err(e)),
                        (st, Ok(_)) => {
                            match st.statement_within(fuel) {
                                (st, Err(e)) => (st, Err(e)),
                                (st, Ok(body)) => {
                                    let span: Span = Span { start: start, end: st.pos() };
                                    if is_of {
                                        (
                                            st,
                                            Ok(
                                                StatementView::ForOf(
                                                    Box::new(
                                                        ForOfStatementView {
                                                            left,
                                                            right,
                                                            body,
                                                            is_await: false,
                                                            span,
                                                        },
                                                    ),
                                                ),
                                            ),
                                        )
                                    } else {
                                        (
                                            st,
                                            Ok(
                                                StatementView::ForIn(
                                                    Box::new(
                                                        ForInStatementView {
                                                            left,
                                                            right,
                                                            body,
                                                            span,
                                                        },
                                                    ),
                                                ),
                                            ),
                                        )
                                    }
                                },
                            }
                        },
                    }
                },
            }
        }
    }

    /// Parse a `for` loop behind its initial part.
    pub open spec fn parse_for_rest(
        self,
        fuel: nat,
        start: u32,
        init: Option<ForInitView>,
    ) -> Step<StatementView>
        decreases fuel,
    {
        let st = self;
        if fuel == 0 {
            (st, Err(st.too_deep()))
        } else {
            let fuel = (fuel - 1) as nat;
            match st.expect(TokenKind::Semicolon) {
                (st, Err(e)) => (st, Err(e)),
                (st, Ok(_)) => {
                    match st.parse_unless(fuel, TokenKind::Semicolon) {
                        (st, Err(e)) => (st, Err(e)),
                        (st, Ok(test)) => {
                            match st.expect(TokenKind::Semicolon) {
                                (st, Err(e)) => (st, Err(e)),
                                (st, Ok(_)) => {
                                    match st.parse_unless(fuel, TokenKind::RParen) {
                                        (st, Err(e)) => (st, Err(e)),
                                        (st, Ok(update)) => {
                                            match st.expect(TokenKind::RParen) {
                                                (st, Err(e)) => (st, Err(e)),
                                                (st, Ok(_)) => {
                                                    match st.statement_within(fuel) {
                                                        (st, Err(e)) => (st, Err(e)),
                                                        (st, Ok(body)) => {
                                                            let span: Span = Span {
                                                                start: start,
                                                                end: st.pos(),
                                                            };
                                                            (
                                                                st,
                                                                Ok(
                                                                    StatementView::For(
                                                                        Box::new(
                                                                            ForStatementView {
                                                                                init,
                                                                                test,
                                                                                update,
                                                                                body,
                                                                                span,
                                                                            },
                                                                        ),
                                                                    ),
                                                                ),
                                                            )
                                                        },
                                                    }
                                                },
                                            }
                                        },
                                    }
                                },
                            }
                        },
                    }
                },
            }
        }
    }

    /// Parse an expression, unless a token ends the place for it.
    pub open spec fn parse_unless(
        self,
        fuel: nat,
        closing: TokenKind,
    ) -> Step<Option<ExpressionView>>
        decreases fuel,
    {
        let st = self;
        if fuel == 0 {
            (st, Err(st.too_deep()))
        } else {
            let fuel = (fuel - 1) as nat;
            if st.at(closing) {
                (st, Ok(None))
            } else {
                match st.expression_within(fuel, 0) {
                    (st, Err(e)) => (st, Err(e)),
                    (st, Ok(expr)) => (st, Ok(Some(expr))),
                }
            }
        }
    }

    /// Parse a `switch` statement.
    pub open spec fn parse_switch(self, fuel: nat) -> Step<StatementView>
        decreases fuel,
    {
        let st = self;
        if fuel == 0 {
            (st, Err(st.too_deep()))
        } else {
            let fuel = (fuel - 1) as nat;
            let start: u32 = st.pos();
            match st.expect(TokenKind::Switch) {
                (st, Err(e)) => (st, Err(e)),
                (st, Ok(_)) => {
                    match st.expect(TokenKind::LParen) {
                        (st, Err(e)) => (st, Err(e)),
                        (st, Ok(_)) => {
                            match st.expression_within(fuel, 0) {
                                (st, Err(e)) => (st, Err(e)),
                                (st, Ok(discriminant)) => {
                                    match st.expect(TokenKind::RParen) {
                                        (st, Err(e)) => (st, Err(e)),
                                        (st, Ok(_)) => {
                                            match st.expect(TokenKind::LBrace) {
                                                (st, Err(e)) => (st, Err(e)),
                                                (st, Ok(_)) => {
                                                    let none: Seq<SwitchCaseView> = Seq::empty();
                                                    match st.parse_cases(fuel, none) {
                                                        (st, Err(e)) => (st, Err(e)),
                                                        (st, Ok(cases)) => {
                                                            match st.expect(TokenKind::RBrace) {
                                                                (st, Err(e)) => (st, Err(e)),
                                                                (st, Ok(_)) => {
                                                                    let span: Span = Span {
                                                                        start: start,
                                                                        end: st.pos(),
                                                                    };
                                                                    (
                                                                        st,
                                                                        Ok(
                                                                            StatementView::Switch(
                                                                                Box::new(
                                                                                    SwitchStatementView {
                                                                                        discriminant,
                                                                                        cases,
                                                                                        span,
                                                                                    },
                                                                                ),
                                                                            ),
                                                                        ),
                                                                    )
                                                                },
                                                            }
                                                        },
                                                    }
                                                },
                                            }
                                        },
                                    }
                                },
                            }
                        },
                    }
                },
            }
        }
    }

    /// Parse the cases of a `switch` statement.
    pub open spec fn parse_cases(
        self,
        fuel: nat,
        cases: Seq<SwitchCaseView>,
    ) -> Step<Seq<SwitchCaseView>>
        decreases fuel,
    {
        let st = self;
        if fuel == 0 {
            (st, Err(st.too_deep()))
        } else {
            let fuel = (fuel - 1) as nat;
            if st.at(TokenKind::RBrace) || st.at(TokenKind::Eof) {
                (st, Ok(cases))
            } else {
                let start: u32 = st.pos();
                match st.parse_case_test(fuel) {
                    (st, Err(e)) => (st, Err(e)),
                    (st, Ok(test)) => {
                        match st.expect(TokenKind::Colon) {
                            (st, Err(e)) => (st, Err(e)),
                            (st, Ok(_)) => {
                                let none: Seq<StatementView> = Seq::empty();
                                match st.parse_consequent(fuel, none) {
                                    (st, Err(e)) => (st, Err(e)),
                                    (st, Ok(consequent)) => {
                                        let span: Span = Span { start: start, end: st.pos() };
                                        let cases = cases.push(
                                            SwitchCaseView { test, consequent, span },
                                        );
                                        st.parse_cases(fuel, cases)
                                    },
                                }
                            },
                        }
                    },
                }
            }
        }
    }

    /// Parse `case` with its value, or `default`.
    pub open spec fn parse_case_test(self, fuel: nat) -> Step<Option<ExpressionView>>
        decreases fuel,
    {
        let st = self;
        if fuel == 0 {
            (st, Err(st.too_deep()))
        } else {
            let fuel = (fuel - 1) as nat;
            let (st, tested) = st.eat(TokenKind::Case);
            if tested {
                match st.expression_within(fuel, 0) {
                    (st, Err(e)) => (st, Err(e)),
                    (st, Ok(test)) => (st, Ok(Some(test))),
                }
            } else {
                match st.expect(TokenKind::Default) {
                    (st, Err(e)) => (st, Err(e)),
                    (st, Ok(_)) => (st, Ok(None)),
                }
            }
        }
    }

    /// Parse the statements of a `switch` case.
    pub open spec fn parse_consequent(
        self,
        fuel: nat,
        consequent: Seq<StatementView>,
    ) -> Step<Seq<StatementView>>
        decreases fuel,
    {
        let st = self;
        if fuel == 0 {
            (st, Err(st.too_deep()))
        } else {
            let fuel = (fuel - 1) as nat;
            if operators::ends_case(st.current_kind()) {
                (st, Ok(consequent))
            } else {
                match st.statement_within(fuel) {
                    (st, Err(e)) => (st, Err(e)),
                    (st, Ok(statement)) => {
                        let consequent = consequent.push(statement);
                        st.parse_consequent(fuel, consequent)
                    },
                }
            }
        }
    }

    /// Parse a `return` statement.
    pub open spec fn parse_return(self, fuel: nat) -> Step<StatementView>
        decreases fuel,
    {
        let st = self;
        if fuel == 0 {
            (st, Err(st.too_deep()))
        } else {
            let fuel = (fuel - 1) as nat;
            let start: u32 = st.pos();
            match st.expect(TokenKind::Return) {
                (st, Err(e)) => (st, Err(e)),
                (st, Ok(_)) => {
                    match st.parse_return_value(fuel) {
                        (st, Err(e)) => (st, Err(e)),
                        (st, Ok(argument)) => {
                            match st.expect_semicolon() {
                                (st, Err(e)) => (st, Err(e)),
                                (st, Ok(_)) => {
                                    let span: Span = Span { start: start, end: st.pos() };
                                    (
                                        st,
                                        Ok(
                                            StatementView::Return(
                                                ReturnStatementView { argument, span },
                                            ),
                                        ),
                                    )
                                },
                            }
                        },
                    }
                },
            }
        }
    }

    /// Parse the value of a `return` statement, if there is one.
    pub open spec fn parse_return_value(self, fuel: nat) -> Step<Option<ExpressionView>>
        decreases fuel,
    {
        let st = self;
        if fuel == 0 {
            (st, Err(st.too_deep()))
        } else {
            let fuel = (fuel - 1) as nat;
            if st.at(TokenKind::Semicolon) || st.at(TokenKind::RBrace) || st.at(
                TokenKind::Eof,
            ) || st.preceded_by_newline() {
                (st, Ok(None))
            } else {
                match st.expression_within(fuel, 0) {
                    (st, Err(e)) => (st, Err(e)),
                    (st, Ok(value)) => (st, Ok(Some(value))),
                }
            }
        }
    }

    /// Parse the label of a jump, if there is one.
    pub open spec fn parse_jump_label(self, fuel: nat) -> Step<Option<StringId>>
        decreases fuel,
    {
        let st = self;
        if fuel == 0 {
            (st, Err(st.too_deep()))
        } else {
            let fuel = (fuel - 1) as nat;
            if !st.preceded_by_newline() && st.at(TokenKind::Identifier) {
                let (st, name) = st.intern_current();
                let st = st.advance();
                (st, Ok(Some(name)))
            } else {
                (st, Ok(None))
            }
        }
    }

    /// Parse a `break` statement.
    pub open spec fn parse_break(self, fuel: nat) -> Step<StatementView>
        decreases fuel,
    {
        let st = self;
        if fuel == 0 {
            (st, Err(st.too_deep()))
        } else {
            let fuel = (fuel - 1) as nat;
            let start: u32 = st.pos();
            match st.expect(TokenKind::Break) {
                (st, Err(e)) => (st, Err(e)),
                (st, Ok(_)) => {
                    match st.parse_jump_label(fuel) {
                        (st, Err(e)) => (st, Err(e)),
                        (st, Ok(label)) => {
                            match st.expect_semicolon() {
                                (st, Err(e)) => (st, Err(e)),
                                (st, Ok(_)) => {
                                    let span: Span = Span { start: start, end: st.pos() };
                                    (st, Ok(StatementView::Break(BreakStatement { label, span })))
                                },
                            }
                        },
                    }
                },
            }
        }
    }

    /// Parse a `continue` statement.
    pub open spec fn parse_continue(self, fuel: nat) -> Step<StatementView>
        decreases fuel,
    {
        let st = self;
        if fuel == 0 {
            (st, Err(st.too_deep()))
        } else {
            let fuel = (fuel - 1) as nat;
            let start: u32 = st.pos();
            match st.expect(TokenKind::Continue) {
                (st, Err(e)) => (st, Err(e)),
                (st, Ok(_)) => {
                    match st.parse_jump_label(fuel) {
                        (st, Err(e)) => (st, Err(e)),
                        (st, Ok(label)) => {
                            match st.expect_semicolon() {
                                (st, Err(e)) => (st, Err(e)),
                                (st, Ok(_)) => {
                                    let span: Span = Span { start: start, end: st.pos() };
                                    (
                                        st,
                                        Ok(
                                            StatementView::Continue(
                                                ContinueStatement { label, span },
                                            ),
                                        ),
                                    )
                                },
                            }
                        },
                    }
                },
            }
        }
    }

    /// Parse a `throw` statement.
    pub open spec fn parse_throw(self, fuel: nat) -> Step<StatementView>
        decreases fuel,
    {
        let st = self;
        if fuel == 0 {
            (st, Err(st.too_deep()))
        } else {
            let fuel = (fuel - 1) as nat;
            let start: u32 = st.pos();
            match st.expect(TokenKind::Throw) {
                (st, Err(e)) => (st, Err(e)),
                (st, Ok(_)) => {
                    if st.preceded_by_newline() {
                        (
                            st,
                            Err(error::error_at("No line break allowed after 'throw'"@, st.span())),
                        )
                    } else {
                        match st.expression_within(fuel, 0) {
                            (st, Err(e)) => (st, Err(e)),
                            (st, Ok(argument)) => {
                                match st.expect_semicolon() {
                                    (st, Err(e)) => (st, Err(e)),
                                    (st, Ok(_)) => {
                                        let span: Span = Span { start: start, end: st.pos() };
                                        (st, Ok(cover::throw_of(argument, span)))
                                    },
                                }
                            },
                        }
                    }
                },
            }
        }
    }

    /// Parse a `try` statement.
    pub open spec fn parse_try(self, fuel: nat) -> Step<StatementView>
        decreases fuel,
    {
        let st = self;
        if fuel == 0 {
            (st, Err(st.too_deep()))
        } else {
            let fuel = (fuel - 1) as nat;
            let start: u32 = st.pos();
            match st.expect(TokenKind::Try) {
                (st, Err(e)) => (st, Err(e)),
                (st, Ok(_)) => {
                    match st.block_within(fuel) {
                        (st, Err(e)) => (st, Err(e)),
                        (st, Ok(block)) => {
                            match st.parse_catch(fuel) {
                                (st, Err(e)) => (st, Err(e)),
                                (st, Ok(handler)) => {
                                    match st.parse_finally(fuel) {
                                        (st, Err(e)) => (st, Err(e)),
                                        (st, Ok(finalizer)) => {
                                            let span: Span = Span { start: start, end: st.pos() };
                                            if handler is None && finalizer is None {
                                                (
                                                    st,
                                                    Err(
                                                        error::error_at(
                                                            "try must have catch or finally"@,
                                                            span,
                                                        ),
                                                    ),
                                                )
                                            } else {
                                                (
                                                    st,
                                                    Ok(
                                                        StatementView::Try(
                                                            Box::new(
                                                                TryStatementView {
                                                                    block,
                                                                    handler,
                                                                    finalizer,
                                                                    span,
                                                                },
                                                            ),
                                                        ),
                                                    ),
                                                )
                                            }
                                        },
                                    }
                                },
                            }
                        },
                    }
                },
            }
        }
    }

    /// Parse a `catch` clause, if there is one.
    pub open spec fn parse_catch(self, fuel: nat) -> Step<Option<CatchClauseView>>
        decreases fuel,
    {
        let st = self;
        if fuel == 0 {
            (st, Err(st.too_deep()))
        } else {
            let fuel = (fuel - 1) as nat;
            let (st, present) = st.eat(TokenKind::Catch);
            if !present {
                (st, Ok(None))
            } else {
                let start: u32 = st.pos();
                match st.parse_catch_param(fuel) {
                    (st, Err(e)) => (st, Err(e)),
                    (st, Ok(param)) => {
                        match st.block_within(fuel) {
                            (st, Err(e)) => (st, Err(e)),
                            (st, Ok(body)) => {
                                let span: Span = Span { start: start, end: st.pos() };
                                (st, Ok(Some(CatchClauseView { param, body, span })))
                            },
                        }
                    },
                }
            }
        }
    }

    /// Parse the parameter of a `catch` clause, if there is one.
    pub open spec fn parse_catch_param(self, fuel: nat) -> Step<Option<PatternView>>
        decreases fuel,
    {
        let st = self;
        if fuel == 0 {
            (st, Err(st.too_deep()))
        } else {
            let fuel = (fuel - 1) as nat;
            let (st, present) = st.eat(TokenKind::LParen);
            if present {
                match st.parse_binding_target(fuel) {
                    (st, Err(e)) => (st, Err(e)),
                    (st, Ok(pattern)) => {
                        match st.expect(TokenKind::RParen) {
                            (st, Err(e)) => (st, Err(e)),
                            (st, Ok(_)) => (st, Ok(Some(pattern))),
                        }
                    },
                }
            } else {
                (st, Ok(None))
            }
        }
    }

    /// Parse a `finally` block, if there is one.
    pub open spec fn parse_finally(self, fuel: nat) -> Step<Option<BlockStatementView>>
        decreases fuel,
    {
        let st = self;
        if fuel == 0 {
            (st, Err(st.too_deep()))
        } else {
            let fuel = (fuel - 1) as nat;
            let (st, present) = st.eat(TokenKind::Finally);
            if present {
                match st.block_within(fuel) {
                    (st, Err(e)) => (st, Err(e)),
                    (st, Ok(block)) => (st, Ok(Some(block))),
                }
            } else {
                (st, Ok(None))
            }
        }
    }

    /// Parse a function declaration.
    pub open spec fn parse_function_declaration(
        self,
        fuel: nat,
        is_async: bool,
    ) -> Step<StatementView>
        decreases fuel,
    {
        let st = self;
        if fuel == 0 {
            (st, Err(st.too_deep()))
        } else {
            let fuel = (fuel - 1) as nat;
            let start: u32 = st.pos();
            match st.expect(TokenKind::Function) {
                (st, Err(e)) => (st, Err(e)),
                (st, Ok(_)) => {
                    let (st, is_generator) = st.eat(TokenKind::Star);
                    match st.parse_optional_name(fuel) {
                        (st, Err(e)) => (st, Err(e)),
                        (st, Ok(id)) => {
                            match st.params_within(fuel) {
                                (st, Err(e)) => (st, Err(e)),
                                (st, Ok(params)) => {
                                    match st.block_within(fuel) {
                                        (st, Err(e)) => (st, Err(e)),
                                        (st, Ok(body)) => {
                                            let span: Span = Span { start: start, end: st.pos() };
                                            (
                                                st,
                                                Ok(
                                                    StatementView::Function(
                                                        FunctionDeclarationView {
                                                            id,
                                                            params,
                                                            body,
                                                            is_async,
                                                            is_generator,
                                                            span,
                                                        },
                                                    ),
                                                ),
                                            )
                                        },
                                    }
                                },
                            }
                        },
                    }
                },
            }
        }
    }

    /// Parse the superclass of a class, if there is one.
    pub open spec fn parse_heritage(self, fuel: nat) -> Step<Option<ExpressionView>>
        decreases fuel,
    {
        let st = self;
        if fuel == 0 {
            (st, Err(st.too_deep()))
        } else {
            let fuel = (fuel - 1) as nat;
            let (st, present) = st.eat(TokenKind::Extends);
            if present {
                match st.expression_within(fuel, 0) {
                    (st, Err(e)) => (st, Err(e)),
                    (st, Ok(parent)) => (st, Ok(Some(parent))),
                }
            } else {
                (st, Ok(None))
            }
        }
    }

    /// Parse a class declaration.
    pub open spec fn parse_class_declaration(self, fuel: nat) -> Step<StatementView>
        decreases fuel,
    {
        let st = self;
        if fuel == 0 {
            (st, Err(st.too_deep()))
        } else {
            let fuel = (fuel - 1) as nat;
            let start: u32 = st.pos();
            match st.expect(TokenKind::Class) {
                (st, Err(e)) => (st, Err(e)),
                (st, Ok(_)) => {
                    match st.parse_optional_name(fuel) {
                        (st, Err(e)) => (st, Err(e)),
                        (st, Ok(id)) => {
                            match st.parse_heritage(fuel) {
                                (st, Err(e)) => (st, Err(e)),
                                (st, Ok(super_class)) => {
                                    match st.parse_class_body(fuel) {
                                        (st, Err(e)) => (st, Err(e)),
                                        (st, Ok(body)) => {
                                            let span: Span = Span { start: start, end: st.pos() };
                                            (
                                                st,
                                                Ok(
                                                    StatementView::Class(
                                                        ClassDeclarationView {
                                                            id,
                                                            super_class,
                                                            body,
                                                            span,
                                                        },
                                                    ),
                                                ),
                                            )
                                        },
                                    }
                                },
                            }
                        },
                    }
                },
            }
        }
    }

    /// Parse the body of a class.
    pub open spec fn parse_class_body(self, fuel: nat) -> Step<ClassBodyView>
        decreases fuel,
    {
        let st = self;
        if fuel == 0 {
            (st, Err(st.too_deep()))
        } else {
            let fuel = (fuel - 1) as nat;
            let start: u32 = st.pos();
            match st.expect(TokenKind::LBrace) {
                (st, Err(e)) => (st, Err(e)),
                (st, Ok(_)) => {
                    let none: Seq<ClassMemberView> = Seq::empty();
                    match st.parse_members(fuel, none) {
                        (st, Err(e)) => (st, Err(e)),
                        (st, Ok(body)) => {
                            match st.expect(TokenKind::RBrace) {
                                (st, Err(e)) => (st, Err(e)),
                                (st, Ok(_)) => {
                                    let span: Span = Span { start: start, end: st.pos() };
                                    (st, Ok(ClassBodyView { body, span }))
                                },
                            }
                        },
                    }
                },
            }
        }
    }

    /// Parse the members of a class. Semicolons between them are skipped.
    pub open spec fn parse_members(
        self,
        fuel: nat,
        body: Seq<ClassMemberView>,
    ) -> Step<Seq<ClassMemberView>>
        decreases fuel,
    {
        let st = self;
        if fuel == 0 {
            (st, Err(st.too_deep()))
        } else {
            let fuel = (fuel - 1) as nat;
            if st.at(TokenKind::RBrace) || st.at(TokenKind::Eof) {
                (st, Ok(body))
            } else {
                let (st, skipped) = st.eat(TokenKind::Semicolon);
                if skipped {
                    st.parse_members(fuel, body)
                } else {
                    let start: u32 = st.pos();
                    let is_static: bool = st.at(
                        TokenKind::Static,
                    ) && st.peek_kind() != TokenKind::LParen && st.peek_kind() != TokenKind::Assign;
                    let st = if is_static {
                        let st = st.advance();
                        st
                    } else {
                        st
                    };
                    match st.parse_member(fuel, start, is_static) {
                        (st, Err(e)) => (st, Err(e)),
                        (st, Ok(member)) => {
                            let body = body.push(member);
                            st.parse_members(fuel, body)
                        },
                    }
                }
            }
        }
    }

    /// Parse a member of a class: an accessor, a constructor or method, or a field.
    pub open spec fn parse_member(
        self,
        fuel: nat,
        start: u32,
        is_static: bool,
    ) -> Step<ClassMemberView>
        decreases fuel,
    {
        let st = self;
        if fuel == 0 {
            (st, Err(st.too_deep()))
        } else {
            let fuel = (fuel - 1) as nat;
            if st.at_word("get"@) && st.peek_kind() != TokenKind::LParen {
                let st = st.advance();
                st.parse_accessor(fuel, start, is_static, MethodKind::Getter)
            } else {
                if st.at_word("set"@) && st.peek_kind() != TokenKind::LParen {
                    let st = st.advance();
                    st.parse_accessor(fuel, start, is_static, MethodKind::Setter)
                } else {
                    match st.parse_property_key(fuel) {
                        (st, Err(e)) => (st, Err(e)),
                        (st, Ok((key, computed))) => {
                            if st.at(TokenKind::LParen) {
                                let kind: MethodKind = cover::kind_of_method(
                                    !computed && st.names_constructor(key),
                                );
                                match st.parse_function_body(fuel, false, false) {
                                    (st, Err(e)) => (st, Err(e)),
                                    (st, Ok(value)) => {
                                        let span: Span = Span { start: start, end: st.pos() };
                                        (
                                            st,
                                            Ok(
                                                ClassMemberView::Method(
                                                    MethodDefinitionView {
                                                        key,
                                                        value,
                                                        kind,
                                                        is_static,
                                                        computed,
                                                        span,
                                                    },
                                                ),
                                            ),
                                        )
                                    },
                                }
                            } else {
                                match st.parse_initializer(fuel) {
                                    (st, Err(e)) => (st, Err(e)),
                                    (st, Ok(value)) => {
                                        match st.expect_semicolon() {
                                            (st, Err(e)) => (st, Err(e)),
                                            (st, Ok(_)) => {
                                                let span: Span = Span {
                                                    start: start,
                                                    end: st.pos(),
                                                };
                                                (
                                                    st,
                                                    Ok(
                                                        ClassMemberView::Property(
                                                            ClassPropertyView {
                                                                key,
                                                                value,
                                                                is_static,
                                                                computed,
                                                                span,
                                                            },
                                                        ),
                                                    ),
                                                )
                                            },
                                        }
                                    },
                                }
                            }
                        },
                    }
                }
            }
        }
    }

    /// Parse an accessor of a class behind `get` or `set`.
    pub open spec fn parse_accessor(
        self,
        fuel: nat,
        start: u32,
        is_static: bool,
        kind: MethodKind,
    ) -> Step<ClassMemberView>
        decreases fuel,
    {
        let st = self;
        if fuel == 0 {
            (st, Err(st.too_deep()))
        } else {
            let fuel = (fuel - 1) as nat;
            match st.parse_property_key(fuel) {
                (st, Err(e)) => (st, Err(e)),
                (st, Ok((key, computed))) => {
                    match st.parse_function_body(fuel, false, false) {
                        (st, Err(e)) => (st, Err(e)),
                        (st, Ok(value)) => {
                            let span: Span = Span { start: start, end: st.pos() };
                            (
                                st,
                                Ok(
                                    ClassMemberView::Method(
                                        MethodDefinitionView {
                                            key,
                                            value,
                                            kind,
                                            is_static,
                                            computed,
                                            span,
                                        },
                                    ),
                                ),
                            )
                        },
                    }
                },
            }
        }
    }

    /// Parse an expression statement.
    pub open spec fn parse_expression_statement(self, fuel: nat) -> Step<StatementView>
        decreases fuel,
    {
        let st = self;
        if fuel == 0 {
            (st, Err(st.too_deep()))
        } else {
            let fuel = (fuel - 1) as nat;
            let start: u32 = st.pos();
            match st.expression_within(fuel, 0) {
                (st, Err(e)) => (st, Err(e)),
                (st, Ok(expression)) => {
                    match st.expect_semicolon() {
                        (st, Err(e)) => (st, Err(e)),
                        (st, Ok(_)) => {
                            let span: Span = Span { start: start, end: st.pos() };
                            (
                                st,
                                Ok(
                                    StatementView::Expression(
                                        ExpressionStatementView { expression, span },
                                    ),
                                ),
                            )
                        },
                    }
                },
            }
        }
    }
}

/// Parse a statement or declaration.
#[verifier::rlimit(40)]
pub(crate) fn statement_within(p: &mut Parser, fuel: u32) -> (parsed: ParseResult<Statement>)
    ensures
        old(p).st().statement_within(fuel as nat) == (
            final(p).st(),
            match parsed {
                Ok(node) => Ok(node@),
                Err(e) => Err(e@),
            },
        ),
        old(p).st().moved(final(p).st()),
    decreases fuel,
{
    if fuel == 0 {
        return Err(p.too_deep());
    }
    let fuel: u32 = fuel - 1;
    let span: Span = p.span();
    match p.current_kind() {
        TokenKind::LBrace => {
            let block = block_within(p, fuel)?;
            Ok(Statement::Block(block))
        },
        TokenKind::Var => parse_variable_declaration(p, fuel),
        TokenKind::Let => parse_variable_declaration(p, fuel),
        TokenKind::Const => parse_variable_declaration(p, fuel),
        TokenKind::Semicolon => {
            p.advance();
            Ok(Statement::Empty(span))
        },
        TokenKind::If => parse_if(p, fuel),
        TokenKind::While => parse_while(p, fuel),
        TokenKind::Do => parse_do_while(p, fuel),
        TokenKind::For => parse_for(p, fuel),
        TokenKind::Switch => parse_switch(p, fuel),
        TokenKind::Return => parse_return(p, fuel),
        TokenKind::Break => parse_break(p, fuel),
        TokenKind::Continue => parse_continue(p, fuel),
        TokenKind::Throw => parse_throw(p, fuel),
        TokenKind::Try => parse_try(p, fuel),
        TokenKind::Function => parse_function_declaration(p, fuel, false),
        TokenKind::Class => parse_class_declaration(p, fuel),
        TokenKind::Debugger => {
            p.advance();
            p.expect_semicolon()?;
            Ok(Statement::Debugger(span))
        },
        TokenKind::Identifier => {
            if p.at_word("async") && p.peek_kind() == TokenKind::Function {
                p.advance();
                return parse_function_declaration(p, fuel, true);
            }
            if p.peek_kind() == TokenKind::Colon {
                return parse_labeled(p, fuel);
            }
            parse_expression_statement(p, fuel)
        },
        TokenKind::Import => parse_import_declaration(p, fuel),
        TokenKind::Export => parse_export_declaration(p, fuel),
        _ => parse_expression_statement(p, fuel),
    }
}

/// Parse a labeled statement: `identifier : statement`.
pub(crate) fn parse_labeled(p: &mut Parser, fuel: u32) -> (parsed: ParseResult<Statement>)
    ensures
        old(p).st().parse_labeled(fuel as nat) == (
            final(p).st(),
            match parsed {
                Ok(node) => Ok(node@),
                Err(e) => Err(e@),
            },
        ),
        old(p).st().moved(final(p).st()),
    decreases fuel,
{
    if fuel == 0 {
        return Err(p.too_deep());
    }
    let fuel: u32 = fuel - 1;
    let start: u32 = p.pos();
    let label: StringId = p.intern_current();
    p.advance();
    p.advance();
    let body = statement_within(p, fuel)?;
    let span: Span = Span::new(start, p.pos());
    Ok(Statement::Labeled(Box::new(LabeledStatement { label, body, span })))
}

/// Parse an import declaration.
pub(crate) fn parse_import_declaration(
    p: &mut Parser,
    fuel: u32,
) -> (parsed: ParseResult<Statement>)
    ensures
        old(p).st().parse_import_declaration(fuel as nat) == (
            final(p).st(),
            match parsed {
                Ok(node) => Ok(node@),
                Err(e) => Err(e@),
            },
        ),
        old(p).st().moved(final(p).st()),
    decreases fuel,
{
    if fuel == 0 {
        return Err(p.too_deep());
    }
    let fuel: u32 = fuel - 1;
    let start: u32 = p.pos();
    p.advance();
    let specifiers: Vec<ImportSpecifier> = Vec::new();
    if p.at(TokenKind::String) {
        let source: StringId = p.intern_current();
        p.advance();
        p.expect_semicolon()?;
        let span: Span = Span::new(start, p.pos());
        return Ok(Statement::Import(ImportDeclaration::Standard { specifiers, source, span }));
    }
    let specifiers = parse_import_clause(p, fuel, specifiers)?;
    if p.at_word("from") {
        p.advance();
    }
    let source: StringId = p.intern_current();
    p.expect(TokenKind::String)?;
    p.expect_semicolon()?;
    let span: Span = Span::new(start, p.pos());
    Ok(Statement::Import(ImportDeclaration::Standard { specifiers, source, span }))
}

/// Parse what an import declaration imports.
pub(crate) fn parse_import_clause(
    p: &mut Parser,
    fuel: u32,
    first_specifiers: Vec<ImportSpecifier>,
) -> (parsed: ParseResult<Vec<ImportSpecifier>>)
    ensures
        old(p).st().parse_import_clause(fuel as nat, first_specifiers@) == (
            final(p).st(),
            match parsed {
                Ok(node) => Ok(node@),
                Err(e) => Err(e@),
            },
        ),
        old(p).st().moved(final(p).st()),
    decreases fuel,
{
    let mut specifiers = first_specifiers;
    if fuel == 0 {
        return Err(p.too_deep());
    }
    let fuel: u32 = fuel - 1;
    if p.at(TokenKind::Identifier) && p.peek_kind() != TokenKind::Comma && !p.at_word("from") {
        let local: StringId = p.intern_current();
        let span: Span = p.span();
        let listed: bool = p.peek_kind() == TokenKind::LBrace || p.peek_word("from");
        p.advance();
        specifiers.push(ImportSpecifier::Default { local, span });
        if listed {
            let more: bool = p.eat(TokenKind::Comma);
            if more {
                return parse_import_list(p, fuel, specifiers);
            }
        }
        return Ok(specifiers);
    }
    parse_import_list(p, fuel, specifiers)
}

/// Parse the named imports or the namespace import, if there are any.
pub(crate) fn parse_import_list(
    p: &mut Parser,
    fuel: u32,
    specifiers: Vec<ImportSpecifier>,
) -> (parsed: ParseResult<Vec<ImportSpecifier>>)
    ensures
        old(p).st().parse_import_list(fuel as nat, specifiers@) == (
            final(p).st(),
            match parsed {
                Ok(node) => Ok(node@),
                Err(e) => Err(e@),
            },
        ),
        old(p).st().moved(final(p).st()),
    decreases fuel,
{
    if fuel == 0 {
        return Err(p.too_deep());
    }
    let fuel: u32 = fuel - 1;
    if p.at(TokenKind::LBrace) {
        p.expect(TokenKind::LBrace)?;
        let specifiers = parse_named_imports(p, fuel, specifiers)?;
        p.expect(TokenKind::RBrace)?;
        return Ok(specifiers);
    }
    if p.at(TokenKind::Star) {
        return parse_namespace_import(p, fuel, specifiers);
    }
    Ok(specifiers)
}

/// Parse named imports.
pub(crate) fn parse_named_imports(
    p: &mut Parser,
    fuel: u32,
    first_specifiers: Vec<ImportSpecifier>,
) -> (parsed: ParseResult<Vec<ImportSpecifier>>)
    ensures
        old(p).st().parse_named_imports(fuel as nat, first_specifiers@) == (
            final(p).st(),
            match parsed {
                Ok(node) => Ok(node@),
                Err(e) => Err(e@),
            },
        ),
        old(p).st().moved(final(p).st()),
    decreases fuel,
{
    let mut specifiers = first_specifiers;
    let mut budget: u32 = fuel;
    loop
        invariant
            budget <= fuel,
            old(p).st().moved(p.st()),
            p.st().parse_named_imports(
                budget as nat,
                specifiers@,
            ) == old(p).st().parse_named_imports(fuel as nat, first_specifiers@),
        decreases budget,
    {
        if budget == 0 {
            return Err(p.too_deep());
        }
        budget = budget - 1;
        if p.at(TokenKind::RBrace) || p.at(TokenKind::Eof) {
            return Ok(specifiers);
        }
        let imported: StringId = p.intern_current();
        let span: Span = p.span();
        p.advance();
        let local = parse_alias(p, budget, imported)?;
        specifiers.push(ImportSpecifier::Named { imported, local, span });
        p.separate(TokenKind::RBrace)?;
    }
}

/// Parse `as name`, if it is there; otherwise the name stays.
pub(crate) fn parse_alias(
    p: &mut Parser,
    fuel: u32,
    name: StringId,
) -> (parsed: ParseResult<StringId>)
    ensures
        old(p).st().parse_alias(fuel as nat, name) == (
            final(p).st(),
            match parsed {
                Ok(node) => Ok(node),
                Err(e) => Err(e@),
            },
        ),
        old(p).st().moved(final(p).st()),
    decreases fuel,
{
    if fuel == 0 {
        return Err(p.too_deep());
    }
    let fuel: u32 = fuel - 1;
    if p.at_word("as") {
        p.advance();
        let alias: StringId = p.intern_current();
        p.advance();
        return Ok(alias);
    }
    Ok(name)
}

/// Parse a namespace import: `* as name`.
pub(crate) fn parse_namespace_import(
    p: &mut Parser,
    fuel: u32,
    first_specifiers: Vec<ImportSpecifier>,
) -> (parsed: ParseResult<Vec<ImportSpecifier>>)
    ensures
        old(p).st().parse_namespace_import(fuel as nat, first_specifiers@) == (
            final(p).st(),
            match parsed {
                Ok(node) => Ok(node@),
                Err(e) => Err(e@),
            },
        ),
        old(p).st().moved(final(p).st()),
    decreases fuel,
{
    let mut specifiers = first_specifiers;
    if fuel == 0 {
        return Err(p.too_deep());
    }
    let fuel: u32 = fuel - 1;
    let span: Span = p.span();
    p.advance();
    if p.at_word("as") {
        p.advance();
    }
    let local: StringId = p.intern_current();
    p.advance();
    specifiers.push(ImportSpecifier::Namespace { local, span });
    Ok(specifiers)
}

/// Parse an export declaration.
pub(crate) fn parse_export_declaration(
    p: &mut Parser,
    fuel: u32,
) -> (parsed: ParseResult<Statement>)
    ensures
        old(p).st().parse_export_declaration(fuel as nat) == (
            final(p).st(),
            match parsed {
                Ok(node) => Ok(node@),
                Err(e) => Err(e@),
            },
        ),
        old(p).st().moved(final(p).st()),
    decreases fuel,
{
    if fuel == 0 {
        return Err(p.too_deep());
    }
    let fuel: u32 = fuel - 1;
    let start: u32 = p.pos();
    p.advance();
    if p.at(TokenKind::Default) {
        p.advance();
        let declaration = parse_export_default(p, fuel)?;
        let span: Span = Span::new(start, p.pos());
        let export = ExportDeclaration::Default { declaration, span };
        return Ok(export_statement(export));
    }
    if p.at(TokenKind::Function) {
        let statement = parse_function_declaration(p, fuel, false)?;
        return parse_exported(p, fuel, start, statement);
    }
    if p.at(TokenKind::Class) {
        let statement = parse_class_declaration(p, fuel)?;
        return parse_exported(p, fuel, start, statement);
    }
    if p.at(TokenKind::Var) || p.at(TokenKind::Let) || p.at(TokenKind::Const) {
        let statement = parse_variable_declaration(p, fuel)?;
        return parse_exported(p, fuel, start, statement);
    }
    if p.at(TokenKind::LBrace) {
        p.advance();
        return parse_export_named(p, fuel, start);
    }
    if p.at(TokenKind::Star) {
        p.advance();
        return parse_export_all(p, fuel, start);
    }
    Err(p.unexpected())
}

/// A declaration that is exported.
pub(crate) fn parse_exported(
    p: &mut Parser,
    fuel: u32,
    start: u32,
    statement: Statement,
) -> (parsed: ParseResult<Statement>)
    ensures
        old(p).st().parse_exported(fuel as nat, start, statement@) == (
            final(p).st(),
            match parsed {
                Ok(node) => Ok(node@),
                Err(e) => Err(e@),
            },
        ),
        old(p).st().moved(final(p).st()),
    decreases fuel,
{
    if fuel == 0 {
        return Err(p.too_deep());
    }
    let fuel: u32 = fuel - 1;
    let span: Span = Span::new(start, p.pos());
    let export = ExportDeclaration::Declaration { declaration: Box::new(statement), span };
    Ok(export_statement(export))
}

/// Parse the value of `export default`.
pub(crate) fn parse_export_default(p: &mut Parser, fuel: u32) -> (parsed: ParseResult<Expression>)
    ensures
        old(p).st().parse_export_default(fuel as nat) == (
            final(p).st(),
            match parsed {
                Ok(node) => Ok(node@),
                Err(e) => Err(e@),
            },
        ),
        old(p).st().moved(final(p).st()),
    decreases fuel,
{
    if fuel == 0 {
        return Err(p.too_deep());
    }
    let fuel: u32 = fuel - 1;
    if p.at(TokenKind::Function) {
        return parse_function_expression(p, fuel);
    }
    if p.at(TokenKind::Class) {
        let start: u32 = p.pos();
        p.expect(TokenKind::Class)?;
        let id = parse_optional_name(p, fuel)?;
        let super_class = parse_heritage(p, fuel)?;
        let body = parse_class_body(p, fuel)?;
        let span: Span = Span::new(start, p.pos());
        return Ok(Expression::Class(Box::new(ClassExpression { id, super_class, body, span })));
    }
    let expr = expression_within(p, fuel, 0)?;
    p.expect_semicolon()?;
    Ok(expr)
}

/// Parse `export { a, b }` or `export { a, b } from 'mod'`, behind the opening brace.
pub(crate) fn parse_export_named(
    p: &mut Parser,
    fuel: u32,
    start: u32,
) -> (parsed: ParseResult<Statement>)
    ensures
        old(p).st().parse_export_named(fuel as nat, start) == (
            final(p).st(),
            match parsed {
                Ok(node) => Ok(node@),
                Err(e) => Err(e@),
            },
        ),
        old(p).st().moved(final(p).st()),
    decreases fuel,
{
    if fuel == 0 {
        return Err(p.too_deep());
    }
    let fuel: u32 = fuel - 1;
    let none: Vec<ExportSpecifier> = Vec::new();
    let specifiers = parse_export_specifiers(p, fuel, none)?;
    p.expect(TokenKind::RBrace)?;
    let source = parse_export_source(p, fuel)?;
    p.expect_semicolon()?;
    let span: Span = Span::new(start, p.pos());
    let export = ExportDeclaration::Named { specifiers, source, span };
    Ok(export_statement(export))
}

/// Parse the names of an export declaration.
pub(crate) fn parse_export_specifiers(
    p: &mut Parser,
    fuel: u32,
    first_specifiers: Vec<ExportSpecifier>,
) -> (parsed: ParseResult<Vec<ExportSpecifier>>)
    ensures
        old(p).st().parse_export_specifiers(fuel as nat, first_specifiers@) == (
            final(p).st(),
            match parsed {
                Ok(node) => Ok(node@),
                Err(e) => Err(e@),
            },
        ),
        old(p).st().moved(final(p).st()),
    decreases fuel,
{
    let mut specifiers = first_specifiers;
    let mut budget: u32 = fuel;
    loop
        invariant
            budget <= fuel,
            old(p).st().moved(p.st()),
            p.st().parse_export_specifiers(
                budget as nat,
                specifiers@,
            ) == old(p).st().parse_export_specifiers(fuel as nat, first_specifiers@),
        decreases budget,
    {
        if budget == 0 {
            return Err(p.too_deep());
        }
        budget = budget - 1;
        if p.at(TokenKind::RBrace) || p.at(TokenKind::Eof) {
            return Ok(specifiers);
        }
        let local: StringId = p.intern_current();
        let span: Span = p.span();
        p.advance();
        let exported = parse_alias(p, budget, local)?;
        specifiers.push(ExportSpecifier { local, exported, span });
        p.separate(TokenKind::RBrace)?;
    }
}

/// Parse the module that named exports come from, if there is one.
pub(crate) fn parse_export_source(
    p: &mut Parser,
    fuel: u32,
) -> (parsed: ParseResult<Option<StringId>>)
    ensures
        old(p).st().parse_export_source(fuel as nat) == (
            final(p).st(),
            match parsed {
                Ok(node) => Ok(node),
                Err(e) => Err(e@),
            },
        ),
        old(p).st().moved(final(p).st()),
    decreases fuel,
{
    if fuel == 0 {
        return Err(p.too_deep());
    }
    let fuel: u32 = fuel - 1;
    if p.at_word("from") {
        p.advance();
        let source: StringId = p.intern_current();
        p.expect(TokenKind::String)?;
        return Ok(Some(source));
    }
    Ok(None)
}

/// Parse `export * from 'mod'`, behind the star.
pub(crate) fn parse_export_all(
    p: &mut Parser,
    fuel: u32,
    start: u32,
) -> (parsed: ParseResult<Statement>)
    ensures
        old(p).st().parse_export_all(fuel as nat, start) == (
            final(p).st(),
            match parsed {
                Ok(node) => Ok(node@),
                Err(e) => Err(e@),
            },
        ),
        old(p).st().moved(final(p).st()),
    decreases fuel,
{
    if fuel == 0 {
        return Err(p.too_deep());
    }
    let fuel: u32 = fuel - 1;
    let exported = parse_export_name(p, fuel)?;
    if p.at_word("from") {
        p.advance();
    }
    let source: StringId = p.intern_current();
    p.expect(TokenKind::String)?;
    p.expect_semicolon()?;
    let span: Span = Span::new(start, p.pos());
    let export = ExportDeclaration::All { source, exported, span };
    Ok(export_statement(export))
}

/// Parse `as name`, if it is there.
pub(crate) fn parse_export_name(
    p: &mut Parser,
    fuel: u32,
) -> (parsed: ParseResult<Option<StringId>>)
    ensures
        old(p).st().parse_export_name(fuel as nat) == (
            final(p).st(),
            match parsed {
                Ok(node) => Ok(node),
                Err(e) => Err(e@),
            },
        ),
        old(p).st().moved(final(p).st()),
    decreases fuel,
{
    if fuel == 0 {
        return Err(p.too_deep());
    }
    let fuel: u32 = fuel - 1;
    if p.at_word("as") {
        p.advance();
        let name: StringId = p.intern_current();
        p.advance();
        return Ok(Some(name));
    }
    Ok(None)
}

/// Parse a variable declaration.
pub(crate) fn parse_variable_declaration(
    p: &mut Parser,
    fuel: u32,
) -> (parsed: ParseResult<Statement>)
    ensures
        old(p).st().parse_variable_declaration(fuel as nat) == (
            final(p).st(),
            match parsed {
                Ok(node) => Ok(node@),
                Err(e) => Err(e@),
            },
        ),
        old(p).st().moved(final(p).st()),
    decreases fuel,
{
    if fuel == 0 {
        return Err(p.too_deep());
    }
    let fuel: u32 = fuel - 1;
    let start: u32 = p.pos();
    match declaration_kind(p.current_kind()) {
        Some(kind) => {
            p.advance();
            let none: Vec<VariableDeclarator> = no_declarators();
            let declarations = parse_declarators(p, fuel, none)?;
            p.expect_semicolon()?;
            let span: Span = Span::new(start, p.pos());
            Ok(Statement::Variable(VariableDeclaration { kind, declarations, span }))
        },
        None => Err(p.unexpected()),
    }
}

/// Parse the declarators of a variable declaration.
pub(crate) fn parse_declarators(
    p: &mut Parser,
    fuel: u32,
    first_declarations: Vec<VariableDeclarator>,
) -> (parsed: ParseResult<Vec<VariableDeclarator>>)
    ensures
        old(p).st().parse_declarators(fuel as nat, tree::declarators(first_declarations)) == (
            final(p).st(),
            match parsed {
                Ok(node) => Ok(tree::declarators(node)),
                Err(e) => Err(e@),
            },
        ),
        old(p).st().moved(final(p).st()),
    decreases fuel,
{
    let mut declarations = first_declarations;
    let mut budget: u32 = fuel;
    loop
        invariant
            budget <= fuel,
            old(p).st().moved(p.st()),
            p.st().parse_declarators(
                budget as nat,
                tree::declarators(declarations),
            ) == old(p).st().parse_declarators(fuel as nat, tree::declarators(first_declarations)),
        decreases budget,
    {
        if budget == 0 {
            return Err(p.too_deep());
        }
        budget = budget - 1;
        let declarator = parse_declarator(p, budget)?;
        push_declarator(&mut declarations, declarator);
        let more: bool = p.eat(TokenKind::Comma);
        if !more {
            return Ok(declarations);
        }
    }
}

/// Parse a declarator: a binding with its initial value.
pub(crate) fn parse_declarator(
    p: &mut Parser,
    fuel: u32,
) -> (parsed: ParseResult<VariableDeclarator>)
    ensures
        old(p).st().parse_declarator(fuel as nat) == (
            final(p).st(),
            match parsed {
                Ok(node) => Ok(node@),
                Err(e) => Err(e@),
            },
        ),
        old(p).st().moved(final(p).st()),
    decreases fuel,
{
    if fuel == 0 {
        return Err(p.too_deep());
    }
    let fuel: u32 = fuel - 1;
    let start: u32 = p.pos();
    let id = parse_binding_target(p, fuel)?;
    let init = parse_initializer(p, fuel)?;
    let span: Span = Span::new(start, p.pos());
    Ok(VariableDeclarator { id, init, span })
}

/// Parse an initial value, if there is one.
pub(crate) fn parse_initializer(
    p: &mut Parser,
    fuel: u32,
) -> (parsed: ParseResult<Option<Expression>>)
    ensures
        old(p).st().parse_initializer(fuel as nat) == (
            final(p).st(),
            match parsed {
                Ok(node) => Ok(tree::optional_expression(node)),
                Err(e) => Err(e@),
            },
        ),
        old(p).st().moved(final(p).st()),
    decreases fuel,
{
    if fuel == 0 {
        return Err(p.too_deep());
    }
    let fuel: u32 = fuel - 1;
    let initialized: bool = p.eat(TokenKind::Assign);
    if initialized {
        let value = expression_within(p, fuel, 3)?;
        return Ok(Some(value));
    }
    Ok(None)
}

/// Parse an `if` statement.
pub(crate) fn parse_if(p: &mut Parser, fuel: u32) -> (parsed: ParseResult<Statement>)
    ensures
        old(p).st().parse_if(fuel as nat) == (
            final(p).st(),
            match parsed {
                Ok(node) => Ok(node@),
                Err(e) => Err(e@),
            },
        ),
        old(p).st().moved(final(p).st()),
    decreases fuel,
{
    if fuel == 0 {
        return Err(p.too_deep());
    }
    let fuel: u32 = fuel - 1;
    let start: u32 = p.pos();
    p.expect(TokenKind::If)?;
    p.expect(TokenKind::LParen)?;
    let test = expression_within(p, fuel, 0)?;
    p.expect(TokenKind::RParen)?;
    let consequent = statement_within(p, fuel)?;
    let alternate = parse_else(p, fuel)?;
    let span: Span = Span::new(start, p.pos());
    Ok(Statement::If(Box::new(IfStatement { test, consequent, alternate, span })))
}

/// Parse an `else` branch, if there is one.
pub(crate) fn parse_else(p: &mut Parser, fuel: u32) -> (parsed: ParseResult<Option<Statement>>)
    ensures
        old(p).st().parse_else(fuel as nat) == (
            final(p).st(),
            match parsed {
                Ok(node) => Ok(tree::optional_statement(node)),
                Err(e) => Err(e@),
            },
        ),
        old(p).st().moved(final(p).st()),
    decreases fuel,
{
    if fuel == 0 {
        return Err(p.too_deep());
    }
    let fuel: u32 = fuel - 1;
    let present: bool = p.eat(TokenKind::Else);
    if present {
        let branch = statement_within(p, fuel)?;
        return Ok(Some(branch));
    }
    Ok(None)
}

/// Parse a `while` loop.
pub(crate) fn parse_while(p: &mut Parser, fuel: u32) -> (parsed: ParseResult<Statement>)
    ensures
        old(p).st().parse_while(fuel as nat) == (
            final(p).st(),
            match parsed {
                Ok(node) => Ok(node@),
                Err(e) => Err(e@),
            },
        ),
        old(p).st().moved(final(p).st()),
    decreases fuel,
{
    if fuel == 0 {
        return Err(p.too_deep());
    }
    let fuel: u32 = fuel - 1;
    let start: u32 = p.pos();
    p.expect(TokenKind::While)?;
    p.expect(TokenKind::LParen)?;
    let test = expression_within(p, fuel, 0)?;
    p.expect(TokenKind::RParen)?;
    let body = statement_within(p, fuel)?;
    let span: Span = Span::new(start, p.pos());
    Ok(Statement::While(Box::new(WhileStatement { test, body, span })))
}

/// Parse a `do` loop.
pub(crate) fn parse_do_while(p: &mut Parser, fuel: u32) -> (parsed: ParseResult<Statement>)
    ensures
        old(p).st().parse_do_while(fuel as nat) == (
            final(p).st(),
            match parsed {
                Ok(node) => Ok(node@),
                Err(e) => Err(e@),
            },
        ),
        old(p).st().moved(final(p).st()),
    decreases fuel,
{
    if fuel == 0 {
        return Err(p.too_deep());
    }
    let fuel: u32 = fuel - 1;
    let start: u32 = p.pos();
    p.expect(TokenKind::Do)?;
    let body = statement_within(p, fuel)?;
    p.expect(TokenKind::While)?;
    p.expect(TokenKind::LParen)?;
    let test = expression_within(p, fuel, 0)?;
    p.expect(TokenKind::RParen)?;
    p.expect_semicolon()?;
    let span: Span = Span::new(start, p.pos());
    Ok(Statement::DoWhile(Box::new(DoWhileStatement { body, test, span })))
}

/// Parse a `for` loop of any kind.
pub(crate) fn parse_for(p: &mut Parser, fuel: u32) -> (parsed: ParseResult<Statement>)
    ensures
        old(p).st().parse_for(fuel as nat) == (
            final(p).st(),
            match parsed {
                Ok(node) => Ok(node@),
                Err(e) => Err(e@),
            },
        ),
        old(p).st().moved(final(p).st()),
    decreases fuel,
{
    if fuel == 0 {
        return Err(p.too_deep());
    }
    let fuel: u32 = fuel - 1;
    let start: u32 = p.pos();
    p.expect(TokenKind::For)?;
    p.expect(TokenKind::LParen)?;
    if p.at(TokenKind::Semicolon) {
        let none: Option<ForInit> = None;
        return parse_for_rest(p, fuel, start, none);
    }
    let var_start: u32 = p.pos();
    match declaration_kind(p.current_kind()) {
        Some(kind) => {
            p.advance();
            if p.at(TokenKind::LBracket) || p.at(TokenKind::LBrace) {
                return parse_for_pattern(p, fuel, start, var_start, kind);
            }
            return parse_for_name(p, fuel, start, var_start, kind);
        },
        None => {},
    }
    if p.at(TokenKind::Identifier) && (
        p.peek_kind() == TokenKind::In || p.peek_kind() == TokenKind::Of || p.peek_word("of")
    ) {
        let name: StringId = p.intern_current();
        let name_span: Span = p.span();
        p.advance();
        let is_of: bool = p.current_kind() != TokenKind::In;
        p.advance();
        let left = ForInOfLeft::Pattern(identifier_pattern(name, name_span));
        return parse_for_each(p, fuel, start, left, is_of, 0);
    }
    let expr = expression_within(p, fuel, 0)?;
    if p.at(TokenKind::Of) || p.at(TokenKind::In) {
        let is_of: bool = p.at(TokenKind::Of);
        p.advance();
        let left = ForInOfLeft::Expression(expr);
        return parse_for_each(p, fuel, start, left, is_of, 0);
    }
    let init: Option<ForInit> = Some(ForInit::Expression(expr));
    parse_for_rest(p, fuel, start, init)
}

/// Parse a `for` loop that declares a pattern, behind the keyword of the declaration.
pub(crate) fn parse_for_pattern(
    p: &mut Parser,
    fuel: u32,
    start: u32,
    var_start: u32,
    kind: VarKind,
) -> (parsed: ParseResult<Statement>)
    ensures
        old(p).st().parse_for_pattern(fuel as nat, start, var_start, kind) == (
            final(p).st(),
            match parsed {
                Ok(node) => Ok(node@),
                Err(e) => Err(e@),
            },
        ),
        old(p).st().moved(final(p).st()),
    decreases fuel,
{
    if fuel == 0 {
        return Err(p.too_deep());
    }
    let fuel: u32 = fuel - 1;
    let pat_start: u32 = p.pos();
    let id = parse_binding_target(p, fuel)?;
    let pat_span: Span = Span::new(pat_start, p.pos());
    let decl_span: Span = Span::new(var_start, p.pos());
    if p.at(TokenKind::In) {
        p.advance();
        let left = for_variable(kind, id, pat_span, decl_span);
        return parse_for_each(p, fuel, start, left, false, 0);
    }
    if p.at(TokenKind::Of) || p.at_word("of") {
        p.advance();
        let left = for_variable(kind, id, pat_span, decl_span);
        return parse_for_each(p, fuel, start, left, true, 3);
    }
    if p.at(TokenKind::Assign) {
        p.advance();
        let value = expression_within(p, fuel, 3)?;
        let init: Option<Expression> = Some(value);
        let span: Span = Span::new(pat_start, p.pos());
        let first: Vec<VariableDeclarator> = one_declarator(VariableDeclarator { id, init, span });
        let declarations = parse_more_declarators(p, fuel, first)?;
        let whole: Span = Span::new(var_start, p.pos());
        let declared = ForInit::Variable(VariableDeclaration { kind, declarations, span: whole });
        let head: Option<ForInit> = Some(declared);
        return parse_for_rest(p, fuel, start, head);
    }
    Err(p.unexpected())
}

/// Parse a `for` loop that declares a name, behind the keyword of the declaration.
pub(crate) fn parse_for_name(
    p: &mut Parser,
    fuel: u32,
    start: u32,
    var_start: u32,
    kind: VarKind,
) -> (parsed: ParseResult<Statement>)
    ensures
        old(p).st().parse_for_name(fuel as nat, start, var_start, kind) == (
            final(p).st(),
            match parsed {
                Ok(node) => Ok(node@),
                Err(e) => Err(e@),
            },
        ),
        old(p).st().moved(final(p).st()),
    decreases fuel,
{
    if fuel == 0 {
        return Err(p.too_deep());
    }
    let fuel: u32 = fuel - 1;
    let name: StringId = p.intern_current();
    let name_span: Span = p.span();
    p.expect(TokenKind::Identifier)?;
    let id = identifier_pattern(name, name_span);
    let decl_span: Span = Span::new(var_start, name_span.end);
    if p.at(TokenKind::In) {
        p.advance();
        let left = for_variable(kind, id, name_span, decl_span);
        return parse_for_each(p, fuel, start, left, false, 0);
    }
    if p.at(TokenKind::Of) || p.at_word("of") {
        p.advance();
        let left = for_variable(kind, id, name_span, decl_span);
        return parse_for_each(p, fuel, start, left, true, 3);
    }
    let init = parse_initializer(p, fuel)?;
    let span: Span = Span::new(var_start, p.pos());
    let first: Vec<VariableDeclarator> = one_declarator(VariableDeclarator { id, init, span });
    let declarations = parse_more_names(p, fuel, first)?;
    let whole: Span = Span::new(var_start, p.pos());
    let declared = ForInit::Variable(VariableDeclaration { kind, declarations, span: whole });
    let head: Option<ForInit> = Some(declared);
    parse_for_rest(p, fuel, start, head)
}

/// Parse further declarators in the head of a `for` loop.
pub(crate) fn parse_more_declarators(
    p: &mut Parser,
    fuel: u32,
    first_declarations: Vec<VariableDeclarator>,
) -> (parsed: ParseResult<Vec<VariableDeclarator>>)
    ensures
        old(p).st().parse_more_declarators(fuel as nat, tree::declarators(first_declarations)) == (
            final(p).st(),
            match parsed {
                Ok(node) => Ok(tree::declarators(node)),
                Err(e) => Err(e@),
            },
        ),
        old(p).st().moved(final(p).st()),
    decreases fuel,
{
    let mut declarations = first_declarations;
    let mut budget: u32 = fuel;
    loop
        invariant
            budget <= fuel,
            old(p).st().moved(p.st()),
            p.st().parse_more_declarators(
                budget as nat,
                tree::declarators(declarations),
            ) == old(p).st().parse_more_declarators(
                fuel as nat,
                tree::declarators(first_declarations),
            ),
        decreases budget,
    {
        if budget == 0 {
            return Err(p.too_deep());
        }
        budget = budget - 1;
        let more: bool = p.eat(TokenKind::Comma);
        if !more {
            return Ok(declarations);
        }
        let declarator = parse_declarator(p, budget)?;
        push_declarator(&mut declarations, declarator);
    }
}

/// Parse further names with their initial values in the head of a `for` loop.
pub(crate) fn parse_more_names(
    p: &mut Parser,
    fuel: u32,
    first_declarations: Vec<VariableDeclarator>,
) -> (parsed: ParseResult<Vec<VariableDeclarator>>)
    ensures
        old(p).st().parse_more_names(fuel as nat, tree::declarators(first_declarations)) == (
            final(p).st(),
            match parsed {
                Ok(node) => Ok(tree::declarators(node)),
                Err(e) => Err(e@),
            },
        ),
        old(p).st().moved(final(p).st()),
    decreases fuel,
{
    let mut declarations = first_declarations;
    let mut budget: u32 = fuel;
    loop
        invariant
            budget <= fuel,
            old(p).st().moved(p.st()),
            p.st().parse_more_names(
                budget as nat,
                tree::declarators(declarations),
            ) == old(p).st().parse_more_names(fuel as nat, tree::declarators(first_declarations)),
        decreases budget,
    {
        if budget == 0 {
            return Err(p.too_deep());
        }
        budget = budget - 1;
        let more: bool = p.eat(TokenKind::Comma);
        if !more {
            return Ok(declarations);
        }
        let start: u32 = p.pos();
        let name: StringId = p.intern_current();
        let name_span: Span = p.span();
        p.expect(TokenKind::Identifier)?;
        let init = parse_initializer(p, budget)?;
        let span: Span = Span::new(start, p.pos());
        let id = identifier_pattern(name, name_span);
        push_declarator(&mut declarations, VariableDeclarator { id, init, span });
    }
}

/// Parse a `for`-`in` or `for`-`of` loop behind its keyword.
pub(crate) fn parse_for_each(
    p: &mut Parser,
    fuel: u32,
    start: u32,
    left: ForInOfLeft,
    is_of: bool,
    min_bp: u8,
) -> (parsed: ParseResult<Statement>)
    ensures
        old(p).st().parse_for_each(fuel as nat, start, left@, is_of, min_bp) == (
            final(p).st(),
            match parsed {
                Ok(node) => Ok(node@),
                Err(e) => Err(e@),
            },
        ),
        old(p).st().moved(final(p).st()),
    decreases fuel,
{
    if fuel == 0 {
        return Err(p.too_deep());
    }
    let fuel: u32 = fuel - 1;
    let right = expression_within(p, fuel, min_bp)?;
    p.expect(TokenKind::RParen)?;
    let body = statement_within(p, fuel)?;
    let span: Span = Span::new(start, p.pos());
    if is_of {
        return Ok(
            Statement::ForOf(Box::new(ForOfStatement { left, right, body, is_await: false, span })),
        );
    }
    Ok(Statement::ForIn(Box::new(ForInStatement { left, right, body, span })))
}

/// Parse a `for` loop behind its initial part.
pub(crate) fn parse_for_rest(
    p: &mut Parser,
    fuel: u32,
    start: u32,
    init: Option<ForInit>,
) -> (parsed: ParseResult<Statement>)
    ensures
        old(p).st().parse_for_rest(fuel as nat, start, tree::optional_for_init(init)) == (
            final(p).st(),
            match parsed {
                Ok(node) => Ok(node@),
                Err(e) => Err(e@),
            },
        ),
        old(p).st().moved(final(p).st()),
    decreases fuel,
{
    if fuel == 0 {
        return Err(p.too_deep());
    }
    let fuel: u32 = fuel - 1;
    p.expect(TokenKind::Semicolon)?;
    let test = parse_unless(p, fuel, TokenKind::Semicolon)?;
    p.expect(TokenKind::Semicolon)?;
    let update = parse_unless(p, fuel, TokenKind::RParen)?;
    p.expect(TokenKind::RParen)?;
    let body = statement_within(p, fuel)?;
    let span: Span = Span::new(start, p.pos());
    Ok(Statement::For(Box::new(ForStatement { init, test, update, body, span })))
}

/// Parse an expression, unless a token ends the place for it.
pub(crate) fn parse_unless(
    p: &mut Parser,
    fuel: u32,
    closing: TokenKind,
) -> (parsed: ParseResult<Option<Expression>>)
    ensures
        old(p).st().parse_unless(fuel as nat, closing) == (
            final(p).st(),
            match parsed {
                Ok(node) => Ok(tree::optional_expression(node)),
                Err(e) => Err(e@),
            },
        ),
        old(p).st().moved(final(p).st()),
    decreases fuel,
{
    if fuel == 0 {
        return Err(p.too_deep());
    }
    let fuel: u32 = fuel - 1;
    if p.at(closing) {
        return Ok(None);
    }
    let expr = expression_within(p, fuel, 0)?;
    Ok(Some(expr))
}

/// Parse a `switch` statement.
pub(crate) fn parse_switch(p: &mut Parser, fuel: u32) -> (parsed: ParseResult<Statement>)
    ensures
        old(p).st().parse_switch(fuel as nat) == (
            final(p).st(),
            match parsed {
                Ok(node) => Ok(node@),
                Err(e) => Err(e@),
            },
        ),
        old(p).st().moved(final(p).st()),
    decreases fuel,
{
    if fuel == 0 {
        return Err(p.too_deep());
    }
    let fuel: u32 = fuel - 1;
    let start: u32 = p.pos();
    p.expect(TokenKind::Switch)?;
    p.expect(TokenKind::LParen)?;
    let discriminant = expression_within(p, fuel, 0)?;
    p.expect(TokenKind::RParen)?;
    p.expect(TokenKind::LBrace)?;
    let none: Vec<SwitchCase> = no_switch_cases();
    let cases = parse_cases(p, fuel, none)?;
    p.expect(TokenKind::RBrace)?;
    let span: Span = Span::new(start, p.pos());
    Ok(Statement::Switch(Box::new(SwitchStatement { discriminant, cases, span })))
}

/// Parse the cases of a `switch` statement.
pub(crate) fn parse_cases(
    p: &mut Parser,
    fuel: u32,
    first_cases: Vec<SwitchCase>,
) -> (parsed: ParseResult<Vec<SwitchCase>>)
    ensures
        old(p).st().parse_cases(fuel as nat, tree::switch_cases(first_cases)) == (
            final(p).st(),
            match parsed {
                Ok(node) => Ok(tree::switch_cases(node)),
                Err(e) => Err(e@),
            },
        ),
        old(p).st().moved(final(p).st()),
    decreases fuel,
{
    let mut cases = first_cases;
    let mut budget: u32 = fuel;
    loop
        invariant
            budget <= fuel,
            old(p).st().moved(p.st()),
            p.st().parse_cases(budget as nat, tree::switch_cases(cases)) == old(p).st().parse_cases(
                fuel as nat,
                tree::switch_cases(first_cases),
            ),
        decreases budget,
    {
        if budget == 0 {
            return Err(p.too_deep());
        }
        budget = budget - 1;
        if p.at(TokenKind::RBrace) || p.at(TokenKind::Eof) {
            return Ok(cases);
        }
        let start: u32 = p.pos();
        let test = parse_case_test(p, budget)?;
        p.expect(TokenKind::Colon)?;
        let none: Vec<Statement> = no_statements();
        let consequent = parse_consequent(p, budget, none)?;
        let span: Span = Span::new(start, p.pos());
        push_switch_case(&mut cases, SwitchCase { test, consequent, span });
    }
}

/// Parse `case` with its value, or `default`.
pub(crate) fn parse_case_test(
    p: &mut Parser,
    fuel: u32,
) -> (parsed: ParseResult<Option<Expression>>)
    ensures
        old(p).st().parse_case_test(fuel as nat) == (
            final(p).st(),
            match parsed {
                Ok(node) => Ok(tree::optional_expression(node)),
                Err(e) => Err(e@),
            },
        ),
        old(p).st().moved(final(p).st()),
    decreases fuel,
{
    if fuel == 0 {
        return Err(p.too_deep());
    }
    let fuel: u32 = fuel - 1;
    let tested: bool = p.eat(TokenKind::Case);
    if tested {
        let test = expression_within(p, fuel, 0)?;
        return Ok(Some(test));
    }
    p.expect(TokenKind::Default)?;
    Ok(None)
}

/// Parse the statements of a `switch` case.
pub(crate) fn parse_consequent(
    p: &mut Parser,
    fuel: u32,
    first_consequent: Vec<Statement>,
) -> (parsed: ParseResult<Vec<Statement>>)
    ensures
        old(p).st().parse_consequent(fuel as nat, tree::statements(first_consequent)) == (
            final(p).st(),
            match parsed {
                Ok(node) => Ok(tree::statements(node)),
                Err(e) => Err(e@),
            },
        ),
        old(p).st().moved(final(p).st()),
    decreases fuel,
{
    let mut consequent = first_consequent;
    let mut budget: u32 = fuel;
    loop
        invariant
            budget <= fuel,
            old(p).st().moved(p.st()),
            p.st().parse_consequent(
                budget as nat,
                tree::statements(consequent),
            ) == old(p).st().parse_consequent(fuel as nat, tree::statements(first_consequent)),
        decreases budget,
    {
        if budget == 0 {
            return Err(p.too_deep());
        }
        budget = budget - 1;
        if is_case_end(p.current_kind()) {
            return Ok(consequent);
        }
        let statement = statement_within(p, budget)?;
        push_statement(&mut consequent, statement);
    }
}

/// Parse a `return` statement.
pub(crate) fn parse_return(p: &mut Parser, fuel: u32) -> (parsed: ParseResult<Statement>)
    ensures
        old(p).st().parse_return(fuel as nat) == (
            final(p).st(),
            match parsed {
                Ok(node) => Ok(node@),
                Err(e) => Err(e@),
            },
        ),
        old(p).st().moved(final(p).st()),
    decreases fuel,
{
    if fuel == 0 {
        return Err(p.too_deep());
    }
    let fuel: u32 = fuel - 1;
    let start: u32 = p.pos();
    p.expect(TokenKind::Return)?;
    let argument = parse_return_value(p, fuel)?;
    p.expect_semicolon()?;
    let span: Span = Span::new(start, p.pos());
    Ok(Statement::Return(ReturnStatement { argument, span }))
}

/// Parse the value of a `return` statement, if there is one.
pub(crate) fn parse_return_value(
    p: &mut Parser,
    fuel: u32,
) -> (parsed: ParseResult<Option<Expression>>)
    ensures
        old(p).st().parse_return_value(fuel as nat) == (
            final(p).st(),
            match parsed {
                Ok(node) => Ok(tree::optional_expression(node)),
                Err(e) => Err(e@),
            },
        ),
        old(p).st().moved(final(p).st()),
    decreases fuel,
{
    if fuel == 0 {
        return Err(p.too_deep());
    }
    let fuel: u32 = fuel - 1;
    if p.at(TokenKind::Semicolon) || p.at(TokenKind::RBrace) || p.at(
        TokenKind::Eof,
    ) || p.preceded_by_newline() {
        return Ok(None);
    }
    let value = expression_within(p, fuel, 0)?;
    Ok(Some(value))
}

/// Parse the label of a jump, if there is one.
pub(crate) fn parse_jump_label(p: &mut Parser, fuel: u32) -> (parsed: ParseResult<Option<StringId>>)
    ensures
        old(p).st().parse_jump_label(fuel as nat) == (
            final(p).st(),
            match parsed {
                Ok(node) => Ok(node),
                Err(e) => Err(e@),
            },
        ),
        old(p).st().moved(final(p).st()),
    decreases fuel,
{
    if fuel == 0 {
        return Err(p.too_deep());
    }
    let fuel: u32 = fuel - 1;
    if !p.preceded_by_newline() && p.at(TokenKind::Identifier) {
        let name: StringId = p.intern_current();
        p.advance();
        return Ok(Some(name));
    }
    Ok(None)
}

/// Parse a `break` statement.
pub(crate) fn parse_break(p: &mut Parser, fuel: u32) -> (parsed: ParseResult<Statement>)
    ensures
        old(p).st().parse_break(fuel as nat) == (
            final(p).st(),
            match parsed {
                Ok(node) => Ok(node@),
                Err(e) => Err(e@),
            },
        ),
        old(p).st().moved(final(p).st()),
    decreases fuel,
{
    if fuel == 0 {
        return Err(p.too_deep());
    }
    let fuel: u32 = fuel - 1;
    let start: u32 = p.pos();
    p.expect(TokenKind::Break)?;
    let label = parse_jump_label(p, fuel)?;
    p.expect_semicolon()?;
    let span: Span = Span::new(start, p.pos());
    Ok(Statement::Break(BreakStatement { label, span }))
}

/// Parse a `continue` statement.
pub(crate) fn parse_continue(p: &mut Parser, fuel: u32) -> (parsed: ParseResult<Statement>)
    ensures
        old(p).st().parse_continue(fuel as nat) == (
            final(p).st(),
            match parsed {
                Ok(node) => Ok(node@),
                Err(e) => Err(e@),
            },
        ),
        old(p).st().moved(final(p).st()),
    decreases fuel,
{
    if fuel == 0 {
        return Err(p.too_deep());
    }
    let fuel: u32 = fuel - 1;
    let start: u32 = p.pos();
    p.expect(TokenKind::Continue)?;
    let label = parse_jump_label(p, fuel)?;
    p.expect_semicolon()?;
    let span: Span = Span::new(start, p.pos());
    Ok(Statement::Continue(ContinueStatement { label, span }))
}

/// Parse a `throw` statement.
pub(crate) fn parse_throw(p: &mut Parser, fuel: u32) -> (parsed: ParseResult<Statement>)
    ensures
        old(p).st().parse_throw(fuel as nat) == (
            final(p).st(),
            match parsed {
                Ok(node) => Ok(node@),
                Err(e) => Err(e@),
            },
        ),
        old(p).st().moved(final(p).st()),
    decreases fuel,
{
    if fuel == 0 {
        return Err(p.too_deep());
    }
    let fuel: u32 = fuel - 1;
    let start: u32 = p.pos();
    p.expect(TokenKind::Throw)?;
    if p.preceded_by_newline() {
        return Err(ParseError::new("No line break allowed after 'throw'", p.span()));
    }
    let argument = expression_within(p, fuel, 0)?;
    p.expect_semicolon()?;
    let span: Span = Span::new(start, p.pos());
    Ok(throw_statement(argument, span))
}

/// Parse a `try` statement.
pub(crate) fn parse_try(p: &mut Parser, fuel: u32) -> (parsed: ParseResult<Statement>)
    ensures
        old(p).st().parse_try(fuel as nat) == (
            final(p).st(),
            match parsed {
                Ok(node) => Ok(node@),
                Err(e) => Err(e@),
            },
        ),
        old(p).st().moved(final(p).st()),
    decreases fuel,
{
    if fuel == 0 {
        return Err(p.too_deep());
    }
    let fuel: u32 = fuel - 1;
    let start: u32 = p.pos();
    p.expect(TokenKind::Try)?;
    let block = block_within(p, fuel)?;
    let handler = parse_catch(p, fuel)?;
    let finalizer = parse_finally(p, fuel)?;
    let span: Span = Span::new(start, p.pos());
    if handler.is_none() && finalizer.is_none() {
        return Err(ParseError::new("try must have catch or finally", span));
    }
    Ok(Statement::Try(Box::new(TryStatement { block, handler, finalizer, span })))
}

/// Parse a `catch` clause, if there is one.
pub(crate) fn parse_catch(p: &mut Parser, fuel: u32) -> (parsed: ParseResult<Option<CatchClause>>)
    ensures
        old(p).st().parse_catch(fuel as nat) == (
            final(p).st(),
            match parsed {
                Ok(node) => Ok(tree::optional_catch_clause(node)),
                Err(e) => Err(e@),
            },
        ),
        old(p).st().moved(final(p).st()),
    decreases fuel,
{
    if fuel == 0 {
        return Err(p.too_deep());
    }
    let fuel: u32 = fuel - 1;
    let present: bool = p.eat(TokenKind::Catch);
    if !present {
        return Ok(None);
    }
    let start: u32 = p.pos();
    let param = parse_catch_param(p, fuel)?;
    let body = block_within(p, fuel)?;
    let span: Span = Span::new(start, p.pos());
    Ok(Some(CatchClause { param, body, span }))
}

/// Parse the parameter of a `catch` clause, if there is one.
pub(crate) fn parse_catch_param(p: &mut Parser, fuel: u32) -> (parsed: ParseResult<Option<Pattern>>)
    ensures
        old(p).st().parse_catch_param(fuel as nat) == (
            final(p).st(),
            match parsed {
                Ok(node) => Ok(tree::optional_pattern(node)),
                Err(e) => Err(e@),
            },
        ),
        old(p).st().moved(final(p).st()),
    decreases fuel,
{
    if fuel == 0 {
        return Err(p.too_deep());
    }
    let fuel: u32 = fuel - 1;
    let present: bool = p.eat(TokenKind::LParen);
    if present {
        let pattern = parse_binding_target(p, fuel)?;
        p.expect(TokenKind::RParen)?;
        return Ok(Some(pattern));
    }
    Ok(None)
}

/// Parse a `finally` block, if there is one.
pub(crate) fn parse_finally(
    p: &mut Parser,
    fuel: u32,
) -> (parsed: ParseResult<Option<BlockStatement>>)
    ensures
        old(p).st().parse_finally(fuel as nat) == (
            final(p).st(),
            match parsed {
                Ok(node) => Ok(tree::optional_block_statement(node)),
                Err(e) => Err(e@),
            },
        ),
        old(p).st().moved(final(p).st()),
    decreases fuel,
{
    if fuel == 0 {
        return Err(p.too_deep());
    }
    let fuel: u32 = fuel - 1;
    let present: bool = p.eat(TokenKind::Finally);
    if present {
        let block = block_within(p, fuel)?;
        return Ok(Some(block));
    }
    Ok(None)
}

/// Parse a function declaration.
pub(crate) fn parse_function_declaration(
    p: &mut Parser,
    fuel: u32,
    is_async: bool,
) -> (parsed: ParseResult<Statement>)
    ensures
        old(p).st().parse_function_declaration(fuel as nat, is_async) == (
            final(p).st(),
            match parsed {
                Ok(node) => Ok(node@),
                Err(e) => Err(e@),
            },
        ),
        old(p).st().moved(final(p).st()),
    decreases fuel,
{
    if fuel == 0 {
        return Err(p.too_deep());
    }
    let fuel: u32 = fuel - 1;
    let start: u32 = p.pos();
    p.expect(TokenKind::Function)?;
    let is_generator: bool = p.eat(TokenKind::Star);
    let id = parse_optional_name(p, fuel)?;
    let params = params_within(p, fuel)?;
    let body = block_within(p, fuel)?;
    let span: Span = Span::new(start, p.pos());
    Ok(Statement::Function(FunctionDeclaration { id, params, body, is_async, is_generator, span }))
}

/// Parse the superclass of a class, if there is one.
pub(crate) fn parse_heritage(p: &mut Parser, fuel: u32) -> (parsed: ParseResult<Option<Expression>>)
    ensures
        old(p).st().parse_heritage(fuel as nat) == (
            final(p).st(),
            match parsed {
                Ok(node) => Ok(tree::optional_expression(node)),
                Err(e) => Err(e@),
            },
        ),
        old(p).st().moved(final(p).st()),
    decreases fuel,
{
    if fuel == 0 {
        return Err(p.too_deep());
    }
    let fuel: u32 = fuel - 1;
    let present: bool = p.eat(TokenKind::Extends);
    if present {
        let parent = expression_within(p, fuel, 0)?;
        return Ok(Some(parent));
    }
    Ok(None)
}

/// Parse a class declaration.
pub(crate) fn parse_class_declaration(p: &mut Parser, fuel: u32) -> (parsed: ParseResult<Statement>)
    ensures
        old(p).st().parse_class_declaration(fuel as nat) == (
            final(p).st(),
            match parsed {
                Ok(node) => Ok(node@),
                Err(e) => Err(e@),
            },
        ),
        old(p).st().moved(final(p).st()),
    decreases fuel,
{
    if fuel == 0 {
        return Err(p.too_deep());
    }
    let fuel: u32 = fuel - 1;
    let start: u32 = p.pos();
    p.expect(TokenKind::Class)?;
    let id = parse_optional_name(p, fuel)?;
    let super_class = parse_heritage(p, fuel)?;
    let body = parse_class_body(p, fuel)?;
    let span: Span = Span::new(start, p.pos());
    Ok(Statement::Class(ClassDeclaration { id, super_class, body, span }))
}

/// Parse the body of a class.
pub(crate) fn parse_class_body(p: &mut Parser, fuel: u32) -> (parsed: ParseResult<ClassBody>)
    ensures
        old(p).st().parse_class_body(fuel as nat) == (
            final(p).st(),
            match parsed {
                Ok(node) => Ok(node@),
                Err(e) => Err(e@),
            },
        ),
        old(p).st().moved(final(p).st()),
    decreases fuel,
{
    if fuel == 0 {
        return Err(p.too_deep());
    }
    let fuel: u32 = fuel - 1;
    let start: u32 = p.pos();
    p.expect(TokenKind::LBrace)?;
    let none: Vec<ClassMember> = no_class_members();
    let body = parse_members(p, fuel, none)?;
    p.expect(TokenKind::RBrace)?;
    let span: Span = Span::new(start, p.pos());
    Ok(ClassBody { body, span })
}

/// Parse the members of a class. Semicolons between them are skipped.
pub(crate) fn parse_members(
    p: &mut Parser,
    fuel: u32,
    first_body: Vec<ClassMember>,
) -> (parsed: ParseResult<Vec<ClassMember>>)
    ensures
        old(p).st().parse_members(fuel as nat, tree::class_members(first_body)) == (
            final(p).st(),
            match parsed {
                Ok(node) => Ok(tree::class_members(node)),
                Err(e) => Err(e@),
            },
        ),
        old(p).st().moved(final(p).st()),
    decreases fuel,
{
    let mut body = first_body;
    let mut budget: u32 = fuel;
    loop
        invariant
            budget <= fuel,
            old(p).st().moved(p.st()),
            p.st().parse_members(
                budget as nat,
                tree::class_members(body),
            ) == old(p).st().parse_members(fuel as nat, tree::class_members(first_body)),
        decreases budget,
    {
        if budget == 0 {
            return Err(p.too_deep());
        }
        budget = budget - 1;
        if p.at(TokenKind::RBrace) || p.at(TokenKind::Eof) {
            return Ok(body);
        }
        let skipped: bool = p.eat(TokenKind::Semicolon);
        if skipped {
            continue ;
        }
        let start: u32 = p.pos();
        let is_static: bool = p.at(
            TokenKind::Static,
        ) && p.peek_kind() != TokenKind::LParen && p.peek_kind() != TokenKind::Assign;
        if is_static {
            p.advance();
        }
        let member = parse_member(p, budget, start, is_static)?;
        push_class_member(&mut body, member);
    }
}

/// Parse a member of a class: an accessor, a constructor or method, or a field.
pub(crate) fn parse_member(
    p: &mut Parser,
    fuel: u32,
    start: u32,
    is_static: bool,
) -> (parsed: ParseResult<ClassMember>)
    ensures
        old(p).st().parse_member(fuel as nat, start, is_static) == (
            final(p).st(),
            match parsed {
                Ok(node) => Ok(node@),
                Err(e) => Err(e@),
            },
        ),
        old(p).st().moved(final(p).st()),
    decreases fuel,
{
    if fuel == 0 {
        return Err(p.too_deep());
    }
    let fuel: u32 = fuel - 1;
    if p.at_word("get") && p.peek_kind() != TokenKind::LParen {
        p.advance();
        return parse_accessor(p, fuel, start, is_static, MethodKind::Getter);
    }
    if p.at_word("set") && p.peek_kind() != TokenKind::LParen {
        p.advance();
        return parse_accessor(p, fuel, start, is_static, MethodKind::Setter);
    }
    let (key, computed) = parse_property_key(p, fuel)?;
    if p.at(TokenKind::LParen) {
        let kind: MethodKind = method_kind(!computed && p.names_constructor(&key));
        let value = parse_function_body(p, fuel, false, false)?;
        let span: Span = Span::new(start, p.pos());
        return Ok(
            ClassMember::Method(MethodDefinition { key, value, kind, is_static, computed, span }),
        );
    }
    let value = parse_initializer(p, fuel)?;
    p.expect_semicolon()?;
    let span: Span = Span::new(start, p.pos());
    Ok(ClassMember::Property(ClassProperty { key, value, is_static, computed, span }))
}

/// Parse an accessor of a class behind `get` or `set`.
pub(crate) fn parse_accessor(
    p: &mut Parser,
    fuel: u32,
    start: u32,
    is_static: bool,
    kind: MethodKind,
) -> (parsed: ParseResult<ClassMember>)
    ensures
        old(p).st().parse_accessor(fuel as nat, start, is_static, kind) == (
            final(p).st(),
            match parsed {
                Ok(node) => Ok(node@),
                Err(e) => Err(e@),
            },
        ),
        old(p).st().moved(final(p).st()),
    decreases fuel,
{
    if fuel == 0 {
        return Err(p.too_deep());
    }
    let fuel: u32 = fuel - 1;
    let (key, computed) = parse_property_key(p, fuel)?;
    let value = parse_function_body(p, fuel, false, false)?;
    let span: Span = Span::new(start, p.pos());
    Ok(ClassMember::Method(MethodDefinition { key, value, kind, is_static, computed, span }))
}

/// Parse an expression statement.
pub(crate) fn parse_expression_statement(
    p: &mut Parser,
    fuel: u32,
) -> (parsed: ParseResult<Statement>)
    ensures
        old(p).st().parse_expression_statement(fuel as nat) == (
            final(p).st(),
            match parsed {
                Ok(node) => Ok(node@),
                Err(e) => Err(e@),
            },
        ),
        old(p).st().moved(final(p).st()),
    decreases fuel,
{
    if fuel == 0 {
        return Err(p.too_deep());
    }
    let fuel: u32 = fuel - 1;
    let start: u32 = p.pos();
    let expression = expression_within(p, fuel, 0)?;
    p.expect_semicolon()?;
    let span: Span = Span::new(start, p.pos());
    Ok(Statement::Expression(ExpressionStatement { expression, span }))
}

/// Parse a statement or declaration.
pub fn parse_statement(p: &mut Parser) -> (parsed: ParseResult<Statement>)
    ensures
        old(p).st().statement_within(u32::MAX as nat) == (
            final(p).st(),
            match parsed {
                Ok(node) => Ok(node@),
                Err(e) => Err(e@),
            },
        ),
        old(p).st().moved(final(p).st()),
{
    statement_within(p, u32::MAX)
}

} // verus!
