//! Expressions.

use vstd::prelude::*;
use crate::ast::list::{
    no_chain_elements, no_elements, no_expressions, no_object_properties, no_patterns,
    no_statements, one_pattern, push_chain_element, push_element, push_expression,
    push_object_property, push_pattern, push_statement,
};
use crate::ast::node::{
    ArrayExpression, ArrowBody, ArrowFunctionExpression, AssignmentExpression, AwaitExpression,
    BinaryExpression, BlockStatement, BooleanLiteral, ConditionalExpression, Expression,
    FunctionExpression, Identifier, LogicalExpression, MemberProperty, NewExpression,
    NumberLiteral, ObjectExpression, ObjectProperty, OptionalChainElement, Pattern, Property,
    PropertyKey, PropertyKindVal, RegExpLiteral, SequenceExpression, SpreadElement, Statement,
    StringLiteral, TemplateElement, TemplateLiteral, UnaryExpression, UpdateExpression,
};
use crate::ast::span::Span;
use crate::ast::tree;
use crate::ast::tree::{
    ArrayExpressionView, ArrowBodyView, ArrowFunctionExpressionView, AssignmentExpressionView,
    AwaitExpressionView, BinaryExpressionView, BlockStatementView, ConditionalExpressionView,
    ExpressionView, FunctionExpressionView, LogicalExpressionView, MemberPropertyView,
    NewExpressionView, ObjectExpressionView, ObjectPropertyView, OptionalChainElementView,
    PatternView, PropertyKeyView, PropertyView, SequenceExpressionView, SpreadElementView,
    StatementView, TemplateLiteralView, UnaryExpressionView, UpdateExpressionView,
};
use crate::lexer::token::TokenKind;
use crate::parser::cover;
use crate::parser::cover::{
    arrow_body_end, call_expression, chain_expression, expr_span, expr_to_assignment_target,
    expr_to_params, identifier_pattern, member_expression, plain_name, postfix_expression,
    rest_pattern, tagged_expression, with_default, yield_expression,
};
use crate::parser::error::ParseResult;
use crate::parser::escapes;
use crate::parser::escapes::{inner_text, regexp_parts, trim_suffix};
use crate::parser::statement::statement_within;
use crate::parser::pattern::parse_binding_target;
use crate::parser::operators;
use crate::parser::operators::{
    assignment_operator, binary_operator, infix_binding_power, is_accessor_key, is_async_key,
    is_keyword_property, is_suffix, is_yield_end, logical_operator, unary_operator,
    update_operator,
};
use crate::parser::parser::{Parser, ParserState, Step};
use crate::runtime::number_literal;
use crate::util::interner::StringId;

verus! {

impl ParserState {
    /// Parse an expression with minimum binding power.
    pub open spec fn expression_within(self, fuel: nat, min_bp: u8) -> Step<ExpressionView>
        decreases fuel,
    {
        let st = self;
        if fuel == 0 {
            (st, Err(st.too_deep()))
        } else {
            let fuel = (fuel - 1) as nat;
            match st.parse_prefix(fuel) {
                (st, Err(e)) => (st, Err(e)),
                (st, Ok(left)) => st.parse_infix(fuel, left, min_bp),
            }
        }
    }

    /// Parse what follows an expression: postfix operators, member accesses, calls and infix
    /// operators that bind at least as tightly as the minimum.
    pub open spec fn parse_infix(
        self,
        fuel: nat,
        left: ExpressionView,
        min_bp: u8,
    ) -> Step<ExpressionView>
        decreases fuel,
    {
        let st = self;
        if fuel == 0 {
            (st, Err(st.too_deep()))
        } else {
            let fuel = (fuel - 1) as nat;
            let kind: TokenKind = st.current_kind();
            if operators::suffix(kind, st.preceded_by_newline(), min_bp) {
                match st.parse_suffix(fuel, left, kind) {
                    (st, Err(e)) => (st, Err(e)),
                    (st, Ok(left)) => st.parse_infix(fuel, left, min_bp),
                }
            } else {
                match operators::binding_power(kind) {
                    Some((l_bp, r_bp)) => {
                        if l_bp < min_bp {
                            (st, Ok(left))
                        } else {
                            let st = st.advance();
                            match st.parse_operation(fuel, left, kind, r_bp) {
                                (st, Err(e)) => (st, Err(e)),
                                (st, Ok(left)) => st.parse_infix(fuel, left, min_bp),
                            }
                        }
                    },
                    None => (st, Ok(left)),
                }
            }
        }
    }

    /// Parse what is attached to an expression: a postfix operator, a member access, a call, a
    /// template or an optional chain.
    pub open spec fn parse_suffix(
        self,
        fuel: nat,
        left: ExpressionView,
        kind: TokenKind,
    ) -> Step<ExpressionView>
        decreases fuel,
    {
        let st = self;
        if fuel == 0 {
            (st, Err(st.too_deep()))
        } else {
            let fuel = (fuel - 1) as nat;
            let start: u32 = cover::span_of(left).start;
            match operators::update_of(kind) {
                Some(operator) => {
                    let st = st.advance();
                    let span: Span = Span { start: start, end: st.pos() };
                    (st, Ok(cover::postfix_of(operator, left, span)))
                },
                None => {
                    if kind == TokenKind::Dot || kind == TokenKind::LBracket {
                        let computed: bool = kind == TokenKind::LBracket;
                        match st.parse_access(fuel, computed) {
                            (st, Err(e)) => (st, Err(e)),
                            (st, Ok(property)) => {
                                let span: Span = Span { start: start, end: st.pos() };
                                (st, Ok(cover::member_of(left, property, computed, span)))
                            },
                        }
                    } else {
                        if kind == TokenKind::LParen {
                            match st.arguments_within(fuel) {
                                (st, Err(e)) => (st, Err(e)),
                                (st, Ok(arguments)) => {
                                    let span: Span = Span { start: start, end: st.pos() };
                                    (st, Ok(cover::call_of(left, arguments, span)))
                                },
                            }
                        } else {
                            if kind == TokenKind::QuestionDot {
                                match st.parse_optional_chain(fuel) {
                                    (st, Err(e)) => (st, Err(e)),
                                    (st, Ok(chain)) => {
                                        let span: Span = Span { start: start, end: st.pos() };
                                        (st, Ok(cover::chain_of(left, chain, span)))
                                    },
                                }
                            } else {
                                match st.template_within(fuel) {
                                    (st, Err(e)) => (st, Err(e)),
                                    (st, Ok(quasi)) => {
                                        let span: Span = Span { start: start, end: st.pos() };
                                        (st, Ok(cover::tagged_of(left, quasi, span)))
                                    },
                                }
                            }
                        }
                    }
                },
            }
        }
    }

    /// Parse a member access from its dot or bracket on.
    pub open spec fn parse_access(self, fuel: nat, computed: bool) -> Step<MemberPropertyView>
        decreases fuel,
    {
        let st = self;
        if fuel == 0 {
            (st, Err(st.too_deep()))
        } else {
            let fuel = (fuel - 1) as nat;
            let st = st.advance();
            if computed {
                match st.expression_within(fuel, 0) {
                    (st, Err(e)) => (st, Err(e)),
                    (st, Ok(prop)) => {
                        match st.expect(TokenKind::RBracket) {
                            (st, Err(e)) => (st, Err(e)),
                            (st, Ok(_)) => (st, Ok(MemberPropertyView::Expression(prop))),
                        }
                    },
                }
            } else {
                let (st, name) = st.intern_current();
                if !(
                    st.at(TokenKind::Identifier) || operators::keyword_property(st.current_kind())
                ) {
                    (st, Err(st.expected("property name"@)))
                } else {
                    let st = st.advance();
                    (st, Ok(MemberPropertyView::Identifier(name)))
                }
            }
        }
    }

    /// Parse what stands on the right of an infix operator.
    pub open spec fn parse_operation(
        self,
        fuel: nat,
        left: ExpressionView,
        kind: TokenKind,
        r_bp: u8,
    ) -> Step<ExpressionView>
        decreases fuel,
    {
        let st = self;
        if fuel == 0 {
            (st, Err(st.too_deep()))
        } else {
            let fuel = (fuel - 1) as nat;
            let start: u32 = cover::span_of(left).start;
            if kind == TokenKind::Question {
                match st.expression_within(fuel, 0) {
                    (st, Err(e)) => (st, Err(e)),
                    (st, Ok(consequent)) => {
                        match st.expect(TokenKind::Colon) {
                            (st, Err(e)) => (st, Err(e)),
                            (st, Ok(_)) => {
                                match st.expression_within(fuel, r_bp) {
                                    (st, Err(e)) => (st, Err(e)),
                                    (st, Ok(alternate)) => {
                                        let span: Span = Span {
                                            start: start,
                                            end: cover::span_of(alternate).end,
                                        };
                                        (
                                            st,
                                            Ok(
                                                ExpressionView::Conditional(
                                                    Box::new(
                                                        ConditionalExpressionView {
                                                            test: left,
                                                            consequent,
                                                            alternate,
                                                            span,
                                                        },
                                                    ),
                                                ),
                                            ),
                                        )
                                    },
                                }
                            },
                        }
                    },
                }
            } else {
                match st.expression_within(fuel, r_bp) {
                    (st, Err(e)) => (st, Err(e)),
                    (st, Ok(right)) => {
                        let span: Span = Span { start: start, end: cover::span_of(right).end };
                        match operators::assignment_of(kind) {
                            Some(operator) => {
                                match cover::target_of(left) {
                                    Err(e) => (st, Err(e)),
                                    Ok(target) => {
                                        (
                                            st,
                                            Ok(
                                                ExpressionView::Assignment(
                                                    Box::new(
                                                        AssignmentExpressionView {
                                                            operator,
                                                            left: target,
                                                            right,
                                                            span,
                                                        },
                                                    ),
                                                ),
                                            ),
                                        )
                                    },
                                }
                            },
                            None => {
                                match operators::logical_of(kind) {
                                    Some(operator) => {
                                        (
                                            st,
                                            Ok(
                                                ExpressionView::Logical(
                                                    Box::new(
                                                        LogicalExpressionView {
                                                            operator,
                                                            left,
                                                            right,
                                                            span,
                                                        },
                                                    ),
                                                ),
                                            ),
                                        )
                                    },
                                    None => {
                                        match operators::binary_of(kind) {
                                            Some(operator) => {
                                                (
                                                    st,
                                                    Ok(
                                                        ExpressionView::Binary(
                                                            Box::new(
                                                                BinaryExpressionView {
                                                                    operator,
                                                                    left,
                                                                    right,
                                                                    span,
                                                                },
                                                            ),
                                                        ),
                                                    ),
                                                )
                                            },
                                            None => {
                                                let end: u32 = cover::span_of(right).end;
                                                let pair: Seq<ExpressionView> = Seq::empty();
                                                let pair = pair.push(left);
                                                let pair = pair.push(right);
                                                st.parse_sequence(fuel, start, end, pair, r_bp)
                                            },
                                        }
                                    },
                                }
                            },
                        }
                    },
                }
            }
        }
    }

    /// Parse the rest of a comma expression.
    pub open spec fn parse_sequence(
        self,
        fuel: nat,
        start: u32,
        end: u32,
        expressions: Seq<ExpressionView>,
        r_bp: u8,
    ) -> Step<ExpressionView>
        decreases fuel,
    {
        let st = self;
        if fuel == 0 {
            (st, Err(st.too_deep()))
        } else {
            let fuel = (fuel - 1) as nat;
            let (st, more) = st.eat(TokenKind::Comma);
            if !more {
                let span: Span = Span { start: start, end: end };
                (st, Ok(ExpressionView::Sequence(SequenceExpressionView { expressions, span })))
            } else {
                match st.expression_within(fuel, r_bp) {
                    (st, Err(e)) => (st, Err(e)),
                    (st, Ok(next)) => {
                        let end = cover::span_of(next).end;
                        let expressions = expressions.push(next);
                        st.parse_sequence(fuel, start, end, expressions, r_bp)
                    },
                }
            }
        }
    }

    /// Parse an optional chain from its first `?.` on.
    pub open spec fn parse_optional_chain(self, fuel: nat) -> Step<Seq<OptionalChainElementView>>
        decreases fuel,
    {
        let st = self;
        if fuel == 0 {
            (st, Err(st.too_deep()))
        } else {
            let fuel = (fuel - 1) as nat;
            let st = st.advance();
            match st.parse_optional_chain_element(fuel, true) {
                (st, Err(e)) => (st, Err(e)),
                (st, Ok(first)) => {
                    let chain: Seq<OptionalChainElementView> = Seq::empty();
                    let chain = chain.push(first);
                    st.parse_chain_rest(fuel, chain)
                },
            }
        }
    }

    /// Parse the elements of an optional chain behind the first.
    pub open spec fn parse_chain_rest(
        self,
        fuel: nat,
        chain: Seq<OptionalChainElementView>,
    ) -> Step<Seq<OptionalChainElementView>>
        decreases fuel,
    {
        let st = self;
        if fuel == 0 {
            (st, Err(st.too_deep()))
        } else {
            let fuel = (fuel - 1) as nat;
            if st.at(TokenKind::QuestionDot) {
                let st = st.advance();
                match st.parse_optional_chain_element(fuel, true) {
                    (st, Err(e)) => (st, Err(e)),
                    (st, Ok(element)) => {
                        let chain = chain.push(element);
                        st.parse_chain_rest(fuel, chain)
                    },
                }
            } else {
                if st.at(TokenKind::Dot) {
                    let st = st.advance();
                    let (st, name) = st.intern_current();
                    let st = st.advance();
                    let property = MemberPropertyView::Identifier(name);
                    let element = OptionalChainElementView::Member {
                        property,
                        computed: false,
                        optional: false,
                    };
                    let chain = chain.push(element);
                    st.parse_chain_rest(fuel, chain)
                } else {
                    if st.at(TokenKind::LBracket) {
                        let st = st.advance();
                        match st.expression_within(fuel, 0) {
                            (st, Err(e)) => (st, Err(e)),
                            (st, Ok(prop)) => {
                                match st.expect(TokenKind::RBracket) {
                                    (st, Err(e)) => (st, Err(e)),
                                    (st, Ok(_)) => {
                                        let property = MemberPropertyView::Expression(prop);
                                        let element = OptionalChainElementView::Member {
                                            property,
                                            computed: true,
                                            optional: false,
                                        };
                                        let chain = chain.push(element);
                                        st.parse_chain_rest(fuel, chain)
                                    },
                                }
                            },
                        }
                    } else {
                        if st.at(TokenKind::LParen) {
                            match st.arguments_within(fuel) {
                                (st, Err(e)) => (st, Err(e)),
                                (st, Ok(arguments)) => {
                                    let element = OptionalChainElementView::Call {
                                        arguments,
                                        optional: false,
                                    };
                                    let chain = chain.push(element);
                                    st.parse_chain_rest(fuel, chain)
                                },
                            }
                        } else {
                            (st, Ok(chain))
                        }
                    }
                }
            }
        }
    }

    /// Parse a single optional chain element after `?.`.
    pub open spec fn parse_optional_chain_element(
        self,
        fuel: nat,
        optional: bool,
    ) -> Step<OptionalChainElementView>
        decreases fuel,
    {
        let st = self;
        if fuel == 0 {
            (st, Err(st.too_deep()))
        } else {
            let fuel = (fuel - 1) as nat;
            if st.at(TokenKind::LParen) {
                match st.arguments_within(fuel) {
                    (st, Err(e)) => (st, Err(e)),
                    (st, Ok(arguments)) => {
                        (st, Ok(OptionalChainElementView::Call { arguments, optional }))
                    },
                }
            } else {
                if st.at(TokenKind::LBracket) {
                    let st = st.advance();
                    match st.expression_within(fuel, 0) {
                        (st, Err(e)) => (st, Err(e)),
                        (st, Ok(prop)) => {
                            match st.expect(TokenKind::RBracket) {
                                (st, Err(e)) => (st, Err(e)),
                                (st, Ok(_)) => {
                                    let property = MemberPropertyView::Expression(prop);
                                    (
                                        st,
                                        Ok(
                                            OptionalChainElementView::Member {
                                                property,
                                                computed: true,
                                                optional,
                                            },
                                        ),
                                    )
                                },
                            }
                        },
                    }
                } else {
                    let (st, name) = st.intern_current();
                    let st = st.advance();
                    let property = MemberPropertyView::Identifier(name);
                    (
                        st,
                        Ok(
                            OptionalChainElementView::Member {
                                property,
                                computed: false,
                                optional,
                            },
                        ),
                    )
                }
            }
        }
    }

    /// Parse a prefix expression (unary, literal, identifier, etc.).
    pub open spec fn parse_prefix(self, fuel: nat) -> Step<ExpressionView>
        decreases fuel,
    {
        let st = self;
        if fuel == 0 {
            (st, Err(st.too_deep()))
        } else {
            let fuel = (fuel - 1) as nat;
            let kind: TokenKind = st.current_kind();
            let start: u32 = st.pos();
            let span: Span = st.span();
            match kind {
                TokenKind::Number => {
                    let text = st.current_text();
                    let st = st.advance();
                    let value: u64 = number_literal::literal_bits(text);
                    (st, Ok(ExpressionView::NumberLiteral(NumberLiteral { value, span })))
                },
                TokenKind::BigInt => {
                    let text = st.current_text();
                    let st = st.advance();
                    let digits = escapes::trimmed(text);
                    let value: u64 = number_literal::literal_bits(digits);
                    (st, Ok(ExpressionView::NumberLiteral(NumberLiteral { value, span })))
                },
                TokenKind::String => {
                    let text = st.current_text();
                    let st = st.advance();
                    let (st, value) = st.parse_string_value(text);
                    (st, Ok(ExpressionView::StringLiteral(StringLiteral { value, span })))
                },
                TokenKind::True => {
                    let st = st.advance();
                    (st, Ok(ExpressionView::BooleanLiteral(BooleanLiteral { value: true, span })))
                },
                TokenKind::False => {
                    let st = st.advance();
                    (st, Ok(ExpressionView::BooleanLiteral(BooleanLiteral { value: false, span })))
                },
                TokenKind::Null => {
                    let st = st.advance();
                    (st, Ok(ExpressionView::NullLiteral(span)))
                },
                TokenKind::RegExp => {
                    let text = st.current_text();
                    let st = st.advance();
                    let parts = escapes::regexp_of(text);
                    let (st, pattern) = st.intern(parts.0);
                    let (st, flags) = st.intern(parts.1);
                    (st, Ok(ExpressionView::RegExpLiteral(RegExpLiteral { pattern, flags, span })))
                },
                TokenKind::Undefined => {
                    let (st, name) = st.intern_current();
                    let st = st.advance();
                    (st, Ok(ExpressionView::Identifier(Identifier { name, span })))
                },
                TokenKind::Identifier => {
                    let (st, name) = st.intern_current();
                    let st = st.advance();
                    if st.at(TokenKind::Arrow) && !st.preceded_by_newline() {
                        let st = st.advance();
                        let params: Seq<PatternView> = seq![cover::name_pattern(name, span)];
                        st.parse_arrow(fuel, start, params)
                    } else {
                        (st, Ok(ExpressionView::Identifier(Identifier { name, span })))
                    }
                },
                TokenKind::This => {
                    let st = st.advance();
                    (st, Ok(ExpressionView::This(span)))
                },
                TokenKind::Super => {
                    let st = st.advance();
                    (st, Ok(ExpressionView::Super(span)))
                },
                TokenKind::LParen => {
                    let st = st.advance();
                    st.parse_parenthesized(fuel, start)
                },
                TokenKind::LBracket => {
                    let st = st.advance();
                    let list: Seq<Option<ExpressionView>> = Seq::empty();
                    match st.parse_elements(fuel, list) {
                        (st, Err(e)) => (st, Err(e)),
                        (st, Ok(elements)) => {
                            match st.expect(TokenKind::RBracket) {
                                (st, Err(e)) => (st, Err(e)),
                                (st, Ok(_)) => {
                                    let whole: Span = Span { start: start, end: st.pos() };
                                    (
                                        st,
                                        Ok(
                                            ExpressionView::Array(
                                                ArrayExpressionView { elements, span: whole },
                                            ),
                                        ),
                                    )
                                },
                            }
                        },
                    }
                },
                TokenKind::LBrace => st.parse_object_expression(fuel),
                TokenKind::Function => st.parse_function_expression(fuel),
                TokenKind::New => {
                    let st = st.advance();
                    match st.expression_within(fuel, 31) {
                        (st, Err(e)) => (st, Err(e)),
                        (st, Ok(callee)) => {
                            match st.parse_new_arguments(fuel) {
                                (st, Err(e)) => (st, Err(e)),
                                (st, Ok(arguments)) => {
                                    let whole: Span = Span { start: start, end: st.pos() };
                                    (
                                        st,
                                        Ok(
                                            ExpressionView::New(
                                                Box::new(
                                                    NewExpressionView {
                                                        callee,
                                                        arguments,
                                                        span: whole,
                                                    },
                                                ),
                                            ),
                                        ),
                                    )
                                },
                            }
                        },
                    }
                },
                TokenKind::Yield => {
                    let st = st.advance();
                    st.parse_yield(fuel, start)
                },
                TokenKind::Await => {
                    let st = st.advance();
                    match st.expression_within(fuel, 27) {
                        (st, Err(e)) => (st, Err(e)),
                        (st, Ok(argument)) => {
                            let whole: Span = Span {
                                start: start,
                                end: cover::span_of(argument).end,
                            };
                            (
                                st,
                                Ok(
                                    ExpressionView::Await(
                                        Box::new(AwaitExpressionView { argument, span: whole }),
                                    ),
                                ),
                            )
                        },
                    }
                },
                TokenKind::DotDotDot => st.parse_spread(fuel),
                TokenKind::TemplateLiteralFull => {
                    match st.template_within(fuel) {
                        (st, Err(e)) => (st, Err(e)),
                        (st, Ok(template)) => (st, Ok(ExpressionView::TemplateLiteral(template))),
                    }
                },
                TokenKind::TemplateLiteralHead => {
                    match st.template_within(fuel) {
                        (st, Err(e)) => (st, Err(e)),
                        (st, Ok(template)) => (st, Ok(ExpressionView::TemplateLiteral(template))),
                    }
                },
                _ => {
                    if kind.contextual_keyword() {
                        let (st, name) = st.intern_current();
                        let st = st.advance();
                        (st, Ok(ExpressionView::Identifier(Identifier { name, span })))
                    } else {
                        st.parse_unary(fuel, start, kind)
                    }
                },
            }
        }
    }

    /// Parse a unary or an update expression.
    pub open spec fn parse_unary(
        self,
        fuel: nat,
        start: u32,
        kind: TokenKind,
    ) -> Step<ExpressionView>
        decreases fuel,
    {
        let st = self;
        if fuel == 0 {
            (st, Err(st.too_deep()))
        } else {
            let fuel = (fuel - 1) as nat;
            match operators::unary_of(kind) {
                Some(operator) => {
                    let st = st.advance();
                    match st.expression_within(fuel, 27) {
                        (st, Err(e)) => (st, Err(e)),
                        (st, Ok(argument)) => {
                            let span: Span = Span {
                                start: start,
                                end: cover::span_of(argument).end,
                            };
                            (
                                st,
                                Ok(
                                    ExpressionView::Unary(
                                        Box::new(
                                            UnaryExpressionView {
                                                operator,
                                                argument,
                                                prefix: true,
                                                span,
                                            },
                                        ),
                                    ),
                                ),
                            )
                        },
                    }
                },
                None => {
                    match operators::update_of(kind) {
                        Some(operator) => {
                            let st = st.advance();
                            match st.expression_within(fuel, 27) {
                                (st, Err(e)) => (st, Err(e)),
                                (st, Ok(argument)) => {
                                    let span: Span = Span {
                                        start: start,
                                        end: cover::span_of(argument).end,
                                    };
                                    (
                                        st,
                                        Ok(
                                            ExpressionView::Update(
                                                Box::new(
                                                    UpdateExpressionView {
                                                        operator,
                                                        argument,
                                                        prefix: true,
                                                        span,
                                                    },
                                                ),
                                            ),
                                        ),
                                    )
                                },
                            }
                        },
                        None => (st, Err(st.unexpected())),
                    }
                },
            }
        }
    }

    /// Parse `yield`, behind the keyword.
    pub open spec fn parse_yield(self, fuel: nat, start: u32) -> Step<ExpressionView>
        decreases fuel,
    {
        let st = self;
        if fuel == 0 {
            (st, Err(st.too_deep()))
        } else {
            let fuel = (fuel - 1) as nat;
            let (st, delegate) = st.eat(TokenKind::Star);
            if !st.preceded_by_newline() && !operators::ends_yield(st.current_kind()) {
                match st.expression_within(fuel, 3) {
                    (st, Err(e)) => (st, Err(e)),
                    (st, Ok(value)) => {
                        let span: Span = Span { start: start, end: cover::span_of(value).end };
                        let argument: Option<ExpressionView> = Some(value);
                        (st, Ok(cover::yield_of(argument, delegate, span)))
                    },
                }
            } else {
                let span: Span = Span { start: start, end: st.pos() };
                let argument: Option<ExpressionView> = None;
                (st, Ok(cover::yield_of(argument, delegate, span)))
            }
        }
    }

    /// Parse the arguments of `new`, if there are any.
    pub open spec fn parse_new_arguments(self, fuel: nat) -> Step<Seq<ExpressionView>>
        decreases fuel,
    {
        let st = self;
        if fuel == 0 {
            (st, Err(st.too_deep()))
        } else {
            let fuel = (fuel - 1) as nat;
            if st.at(TokenKind::LParen) {
                st.arguments_within(fuel)
            } else {
                let none: Seq<ExpressionView> = Seq::empty();
                (st, Ok(none))
            }
        }
    }

    /// Parse a spread argument or element: `...expr`.
    pub open spec fn parse_spread(self, fuel: nat) -> Step<ExpressionView>
        decreases fuel,
    {
        let st = self;
        if fuel == 0 {
            (st, Err(st.too_deep()))
        } else {
            let fuel = (fuel - 1) as nat;
            let start: u32 = st.pos();
            let st = st.advance();
            match st.expression_within(fuel, 3) {
                (st, Err(e)) => (st, Err(e)),
                (st, Ok(argument)) => {
                    let span: Span = Span { start: start, end: cover::span_of(argument).end };
                    (st, Ok(ExpressionView::Spread(Box::new(SpreadElementView { argument, span }))))
                },
            }
        }
    }

    /// Parse an argument of a call or an element of an array literal.
    pub open spec fn parse_argument(self, fuel: nat) -> Step<ExpressionView>
        decreases fuel,
    {
        let st = self;
        if fuel == 0 {
            (st, Err(st.too_deep()))
        } else {
            let fuel = (fuel - 1) as nat;
            if st.at(TokenKind::DotDotDot) {
                st.parse_spread(fuel)
            } else {
                st.expression_within(fuel, 3)
            }
        }
    }

    /// Parse an expression in parentheses, or the parameters of an arrow function, behind the
    /// opening parenthesis.
    pub open spec fn parse_parenthesized(self, fuel: nat, start: u32) -> Step<ExpressionView>
        decreases fuel,
    {
        let st = self;
        if fuel == 0 {
            (st, Err(st.too_deep()))
        } else {
            let fuel = (fuel - 1) as nat;
            if st.at(TokenKind::RParen) {
                let st = st.advance();
                match st.expect(TokenKind::Arrow) {
                    (st, Err(e)) => (st, Err(e)),
                    (st, Ok(_)) => {
                        let none: Seq<PatternView> = Seq::empty();
                        st.parse_arrow(fuel, start, none)
                    },
                }
            } else {
                match st.expression_within(fuel, 0) {
                    (st, Err(e)) => (st, Err(e)),
                    (st, Ok(expr)) => {
                        match st.expect(TokenKind::RParen) {
                            (st, Err(e)) => (st, Err(e)),
                            (st, Ok(_)) => {
                                if st.at(TokenKind::Arrow) && !st.preceded_by_newline() {
                                    let st = st.advance();
                                    match cover::params_of(expr) {
                                        Err(e) => (st, Err(e)),
                                        Ok(params) => st.parse_arrow(fuel, start, params),
                                    }
                                } else {
                                    (st, Ok(expr))
                                }
                            },
                        }
                    },
                }
            }
        }
    }

    /// Parse an arrow function behind its arrow.
    pub open spec fn parse_arrow(
        self,
        fuel: nat,
        start: u32,
        params: Seq<PatternView>,
    ) -> Step<ExpressionView>
        decreases fuel,
    {
        let st = self;
        if fuel == 0 {
            (st, Err(st.too_deep()))
        } else {
            let fuel = (fuel - 1) as nat;
            match st.parse_arrow_body(fuel) {
                (st, Err(e)) => (st, Err(e)),
                (st, Ok(body)) => {
                    let span: Span = Span { start: start, end: cover::end_of_body(body) };
                    (
                        st,
                        Ok(
                            ExpressionView::ArrowFunction(
                                Box::new(
                                    ArrowFunctionExpressionView {
                                        params,
                                        body,
                                        is_async: false,
                                        span,
                                    },
                                ),
                            ),
                        ),
                    )
                },
            }
        }
    }

    /// Parse arrow function body: expression or block.
    pub open spec fn parse_arrow_body(self, fuel: nat) -> Step<ArrowBodyView>
        decreases fuel,
    {
        let st = self;
        if fuel == 0 {
            (st, Err(st.too_deep()))
        } else {
            let fuel = (fuel - 1) as nat;
            if st.at(TokenKind::LBrace) {
                match st.block_within(fuel) {
                    (st, Err(e)) => (st, Err(e)),
                    (st, Ok(block)) => (st, Ok(ArrowBodyView::Block(block))),
                }
            } else {
                match st.expression_within(fuel, 3) {
                    (st, Err(e)) => (st, Err(e)),
                    (st, Ok(expr)) => (st, Ok(ArrowBodyView::Expression(expr))),
                }
            }
        }
    }

    /// Parse the elements of an array literal.
    pub open spec fn parse_elements(
        self,
        fuel: nat,
        elements: Seq<Option<ExpressionView>>,
    ) -> Step<Seq<Option<ExpressionView>>>
        decreases fuel,
    {
        let st = self;
        if fuel == 0 {
            (st, Err(st.too_deep()))
        } else {
            let fuel = (fuel - 1) as nat;
            if st.at(TokenKind::RBracket) || st.at(TokenKind::Eof) {
                (st, Ok(elements))
            } else {
                if st.at(TokenKind::Comma) {
                    let elements = elements.push(None);
                    let st = st.advance();
                    st.parse_elements(fuel, elements)
                } else {
                    match st.parse_argument(fuel) {
                        (st, Err(e)) => (st, Err(e)),
                        (st, Ok(element)) => {
                            let elements = elements.push(Some(element));
                            match st.separate(TokenKind::RBracket) {
                                (st, Err(e)) => (st, Err(e)),
                                (st, Ok(_)) => st.parse_elements(fuel, elements),
                            }
                        },
                    }
                }
            }
        }
    }

    /// Parse a parenthesized argument list: `(expr, expr, ...)`.
    pub open spec fn arguments_within(self, fuel: nat) -> Step<Seq<ExpressionView>>
        decreases fuel,
    {
        let st = self;
        if fuel == 0 {
            (st, Err(st.too_deep()))
        } else {
            let fuel = (fuel - 1) as nat;
            match st.expect(TokenKind::LParen) {
                (st, Err(e)) => (st, Err(e)),
                (st, Ok(_)) => {
                    let none: Seq<ExpressionView> = Seq::empty();
                    match st.parse_argument_list(fuel, none) {
                        (st, Err(e)) => (st, Err(e)),
                        (st, Ok(args)) => {
                            match st.expect(TokenKind::RParen) {
                                (st, Err(e)) => (st, Err(e)),
                                (st, Ok(_)) => (st, Ok(args)),
                            }
                        },
                    }
                },
            }
        }
    }

    /// Parse the arguments of a call.
    pub open spec fn parse_argument_list(
        self,
        fuel: nat,
        args: Seq<ExpressionView>,
    ) -> Step<Seq<ExpressionView>>
        decreases fuel,
    {
        let st = self;
        if fuel == 0 {
            (st, Err(st.too_deep()))
        } else {
            let fuel = (fuel - 1) as nat;
            if st.at(TokenKind::RParen) || st.at(TokenKind::Eof) {
                (st, Ok(args))
            } else {
                match st.parse_argument(fuel) {
                    (st, Err(e)) => (st, Err(e)),
                    (st, Ok(arg)) => {
                        let args = args.push(arg);
                        match st.separate(TokenKind::RParen) {
                            (st, Err(e)) => (st, Err(e)),
                            (st, Ok(_)) => st.parse_argument_list(fuel, args),
                        }
                    },
                }
            }
        }
    }

    /// Parse an object expression: `{ key: value, ... }`.
    pub open spec fn parse_object_expression(self, fuel: nat) -> Step<ExpressionView>
        decreases fuel,
    {
        let st = self;
        if fuel == 0 {
            (st, Err(st.too_deep()))
        } else {
            let fuel = (fuel - 1) as nat;
            let start: u32 = st.pos();
            let st = st.advance();
            let none: Seq<ObjectPropertyView> = Seq::empty();
            match st.parse_properties(fuel, none) {
                (st, Err(e)) => (st, Err(e)),
                (st, Ok(properties)) => {
                    match st.expect(TokenKind::RBrace) {
                        (st, Err(e)) => (st, Err(e)),
                        (st, Ok(_)) => {
                            let span: Span = Span { start: start, end: st.pos() };
                            (
                                st,
                                Ok(
                                    ExpressionView::Object(
                                        ObjectExpressionView { properties, span },
                                    ),
                                ),
                            )
                        },
                    }
                },
            }
        }
    }

    /// Parse the properties of an object literal.
    pub open spec fn parse_properties(
        self,
        fuel: nat,
        properties: Seq<ObjectPropertyView>,
    ) -> Step<Seq<ObjectPropertyView>>
        decreases fuel,
    {
        let st = self;
        if fuel == 0 {
            (st, Err(st.too_deep()))
        } else {
            let fuel = (fuel - 1) as nat;
            if st.at(TokenKind::RBrace) || st.at(TokenKind::Eof) {
                (st, Ok(properties))
            } else {
                match st.parse_object_property(fuel) {
                    (st, Err(e)) => (st, Err(e)),
                    (st, Ok(property)) => {
                        let properties = properties.push(property);
                        match st.separate(TokenKind::RBrace) {
                            (st, Err(e)) => (st, Err(e)),
                            (st, Ok(_)) => st.parse_properties(fuel, properties),
                        }
                    },
                }
            }
        }
    }

    /// Parse a property of an object literal, or a spread.
    pub open spec fn parse_object_property(self, fuel: nat) -> Step<ObjectPropertyView>
        decreases fuel,
    {
        let st = self;
        if fuel == 0 {
            (st, Err(st.too_deep()))
        } else {
            let fuel = (fuel - 1) as nat;
            if st.at(TokenKind::DotDotDot) {
                let start: u32 = st.pos();
                let st = st.advance();
                match st.expression_within(fuel, 3) {
                    (st, Err(e)) => (st, Err(e)),
                    (st, Ok(argument)) => {
                        let span: Span = Span { start: start, end: cover::span_of(argument).end };
                        (
                            st,
                            Ok(
                                ObjectPropertyView::SpreadElement(
                                    SpreadElementView { argument, span },
                                ),
                            ),
                        )
                    },
                }
            } else {
                match st.parse_property(fuel) {
                    (st, Err(e)) => (st, Err(e)),
                    (st, Ok(property)) => (st, Ok(ObjectPropertyView::Property(property))),
                }
            }
        }
    }

    /// Parse a property of an object literal.
    pub open spec fn parse_property(self, fuel: nat) -> Step<PropertyView>
        decreases fuel,
    {
        let st = self;
        if fuel == 0 {
            (st, Err(st.too_deep()))
        } else {
            let fuel = (fuel - 1) as nat;
            let start: u32 = st.pos();
            if st.at_word("get"@) && operators::accessor_key(st.peek_kind()) {
                let st = st.advance();
                st.parse_method(fuel, start, PropertyKindVal::Getter, false, false)
            } else {
                if st.at_word("set"@) && operators::accessor_key(st.peek_kind()) {
                    let st = st.advance();
                    st.parse_method(fuel, start, PropertyKindVal::Setter, false, false)
                } else {
                    if st.at_word("async"@) && !st.peek().preceded_by_newline && operators::async_key(
                        st.peek_kind(),
                    ) {
                        let st = st.advance();
                        let (st, is_generator) = st.eat(TokenKind::Star);
                        st.parse_method(fuel, start, PropertyKindVal::Init, true, is_generator)
                    } else {
                        if st.at(TokenKind::Star) {
                            let st = st.advance();
                            st.parse_method(fuel, start, PropertyKindVal::Init, false, true)
                        } else {
                            match st.parse_property_key(fuel) {
                                (st, Err(e)) => (st, Err(e)),
                                (st, Ok((key, computed))) => {
                                    match cover::name_of_key(key) {
                                        Some(name) => {
                                            if !computed && (
                                                st.at(TokenKind::Comma) || st.at(TokenKind::RBrace)
                                            ) {
                                                let span: Span = Span {
                                                    start: start,
                                                    end: st.pos(),
                                                };
                                                let value = ExpressionView::Identifier(
                                                    Identifier { name, span },
                                                );
                                                (
                                                    st,
                                                    Ok(
                                                        PropertyView {
                                                            key,
                                                            value,
                                                            kind: PropertyKindVal::Init,
                                                            shorthand: true,
                                                            computed: false,
                                                            method: false,
                                                            span,
                                                        },
                                                    ),
                                                )
                                            } else {
                                                if st.at(TokenKind::LParen) {
                                                    match st.parse_function_body(
                                                        fuel,
                                                        false,
                                                        false,
                                                    ) {
                                                        (st, Err(e)) => (st, Err(e)),
                                                        (st, Ok(value)) => {
                                                            let span: Span = Span {
                                                                start: start,
                                                                end: st.pos(),
                                                            };
                                                            (
                                                                st,
                                                                Ok(
                                                                    PropertyView {
                                                                        key,
                                                                        value,
                                                                        kind: PropertyKindVal::Init,
                                                                        shorthand: false,
                                                                        computed,
                                                                        method: true,
                                                                        span,
                                                                    },
                                                                ),
                                                            )
                                                        },
                                                    }
                                                } else {
                                                    match st.expect(TokenKind::Colon) {
                                                        (st, Err(e)) => (st, Err(e)),
                                                        (st, Ok(_)) => {
                                                            match st.expression_within(fuel, 3) {
                                                                (st, Err(e)) => (st, Err(e)),
                                                                (st, Ok(value)) => {
                                                                    let span: Span = Span {
                                                                        start: start,
                                                                        end: st.pos(),
                                                                    };
                                                                    (
                                                                        st,
                                                                        Ok(
                                                                            PropertyView {
                                                                                key,
                                                                                value,
                                                                                kind: PropertyKindVal::Init,
                                                                                shorthand: false,
                                                                                computed,
                                                                                method: false,
                                                                                span,
                                                                            },
                                                                        ),
                                                                    )
                                                                },
                                                            }
                                                        },
                                                    }
                                                }
                                            }
                                        },
                                        None => {
                                            if st.at(TokenKind::LParen) {
                                                match st.parse_function_body(fuel, false, false) {
                                                    (st, Err(e)) => (st, Err(e)),
                                                    (st, Ok(value)) => {
                                                        let span: Span = Span {
                                                            start: start,
                                                            end: st.pos(),
                                                        };
                                                        (
                                                            st,
                                                            Ok(
                                                                PropertyView {
                                                                    key,
                                                                    value,
                                                                    kind: PropertyKindVal::Init,
                                                                    shorthand: false,
                                                                    computed,
                                                                    method: true,
                                                                    span,
                                                                },
                                                            ),
                                                        )
                                                    },
                                                }
                                            } else {
                                                match st.expect(TokenKind::Colon) {
                                                    (st, Err(e)) => (st, Err(e)),
                                                    (st, Ok(_)) => {
                                                        match st.expression_within(fuel, 3) {
                                                            (st, Err(e)) => (st, Err(e)),
                                                            (st, Ok(value)) => {
                                                                let span: Span = Span {
                                                                    start: start,
                                                                    end: st.pos(),
                                                                };
                                                                (
                                                                    st,
                                                                    Ok(
                                                                        PropertyView {
                                                                            key,
                                                                            value,
                                                                            kind: PropertyKindVal::Init,
                                                                            shorthand: false,
                                                                            computed,
                                                                            method: false,
                                                                            span,
                                                                        },
                                                                    ),
                                                                )
                                                            },
                                                        }
                                                    },
                                                }
                                            }
                                        },
                                    }
                                },
                            }
                        }
                    }
                }
            }
        }
    }

    /// Parse the key and the body of a method of an object literal.
    pub open spec fn parse_method(
        self,
        fuel: nat,
        start: u32,
        kind: PropertyKindVal,
        is_async: bool,
        is_generator: bool,
    ) -> Step<PropertyView>
        decreases fuel,
    {
        let st = self;
        if fuel == 0 {
            (st, Err(st.too_deep()))
        } else {
            let fuel = (fuel - 1) as nat;
            match st.parse_property_key(fuel) {
                (st, Err(e)) => (st, Err(e)),
                (st, Ok((key, computed))) => {
                    match st.parse_function_body(fuel, is_async, is_generator) {
                        (st, Err(e)) => (st, Err(e)),
                        (st, Ok(value)) => {
                            let span: Span = Span { start: start, end: st.pos() };
                            (
                                st,
                                Ok(
                                    PropertyView {
                                        key,
                                        value,
                                        kind,
                                        shorthand: false,
                                        computed,
                                        method: true,
                                        span,
                                    },
                                ),
                            )
                        },
                    }
                },
            }
        }
    }

    /// Parse a property key, and whether it is computed.
    pub open spec fn parse_property_key(self, fuel: nat) -> Step<(PropertyKeyView, bool)>
        decreases fuel,
    {
        let st = self;
        if fuel == 0 {
            (st, Err(st.too_deep()))
        } else {
            let fuel = (fuel - 1) as nat;
            match st.current_kind() {
                TokenKind::Identifier => {
                    let (st, name) = st.intern_current();
                    let st = st.advance();
                    (st, Ok((PropertyKeyView::Identifier(name), false)))
                },
                TokenKind::String => {
                    let text = st.current_text();
                    let st = st.advance();
                    let (st, value) = st.parse_string_value(text);
                    (st, Ok((PropertyKeyView::StringLiteral(value), false)))
                },
                TokenKind::Number => {
                    let text = st.current_text();
                    let st = st.advance();
                    let value: u64 = number_literal::literal_bits(text);
                    (st, Ok((PropertyKeyView::NumberLiteral(value), false)))
                },
                TokenKind::LBracket => {
                    let st = st.advance();
                    match st.expression_within(fuel, 0) {
                        (st, Err(e)) => (st, Err(e)),
                        (st, Ok(expr)) => {
                            match st.expect(TokenKind::RBracket) {
                                (st, Err(e)) => (st, Err(e)),
                                (st, Ok(_)) => {
                                    (st, Ok((PropertyKeyView::Computed(Box::new(expr)), true)))
                                },
                            }
                        },
                    }
                },
                _ => {
                    if operators::keyword_property(st.current_kind()) {
                        let (st, name) = st.intern_current();
                        let st = st.advance();
                        (st, Ok((PropertyKeyView::Identifier(name), false)))
                    } else {
                        (st, Err(st.expected("property name"@)))
                    }
                },
            }
        }
    }

    /// Parse a name, if there is one.
    pub open spec fn parse_optional_name(self, fuel: nat) -> Step<Option<StringId>>
        decreases fuel,
    {
        let st = self;
        if fuel == 0 {
            (st, Err(st.too_deep()))
        } else {
            let fuel = (fuel - 1) as nat;
            if st.at(TokenKind::Identifier) {
                let (st, name) = st.intern_current();
                let st = st.advance();
                (st, Ok(Some(name)))
            } else {
                (st, Ok(None))
            }
        }
    }

    /// Parse a function expression: `function name?(params) { body }`.
    pub open spec fn parse_function_expression(self, fuel: nat) -> Step<ExpressionView>
        decreases fuel,
    {
        let st = self;
        if fuel == 0 {
            (st, Err(st.too_deep()))
        } else {
            let fuel = (fuel - 1) as nat;
            let start: u32 = st.pos();
            match st.expect(TokenKind::Function) {
                (st, Err(e)) => (st, Err(e)),
                (st, Ok(_)) => {
                    let (st, is_generator) = st.eat(TokenKind::Star);
                    match st.parse_optional_name(fuel) {
                        (st, Err(e)) => (st, Err(e)),
                        (st, Ok(id)) => {
                            match st.params_within(fuel) {
                                (st, Err(e)) => (st, Err(e)),
                                (st, Ok(params)) => {
                                    match st.block_within(fuel) {
                                        (st, Err(e)) => (st, Err(e)),
                                        (st, Ok(body)) => {
                                            let span: Span = Span { start: start, end: st.pos() };
                                            (
                                                st,
                                                Ok(
                                                    ExpressionView::Function(
                                                        Box::new(
                                                            FunctionExpressionView {
                                                                id,
                                                                params,
                                                                body,
                                                                is_async: false,
                                                                is_generator,
                                                                span,
                                                            },
                                                        ),
                                                    ),
                                                ),
                                            )
                                        },
                                    }
                                },
                            }
                        },
                    }
                },
            }
        }
    }

    /// Parse function parameters: `(a, b = 1, ...rest)`.
    pub open spec fn params_within(self, fuel: nat) -> Step<Seq<PatternView>>
        decreases fuel,
    {
        let st = self;
        if fuel == 0 {
            (st, Err(st.too_deep()))
        } else {
            let fuel = (fuel - 1) as nat;
            match st.expect(TokenKind::LParen) {
                (st, Err(e)) => (st, Err(e)),
                (st, Ok(_)) => {
                    let none: Seq<PatternView> = Seq::empty();
                    match st.parse_param_list(fuel, none) {
                        (st, Err(e)) => (st, Err(e)),
                        (st, Ok(params)) => {
                            match st.expect(TokenKind::RParen) {
                                (st, Err(e)) => (st, Err(e)),
                                (st, Ok(_)) => (st, Ok(params)),
                            }
                        },
                    }
                },
            }
        }
    }

    /// Parse the parameters of a function. A rest parameter is the last.
    pub open spec fn parse_param_list(
        self,
        fuel: nat,
        params: Seq<PatternView>,
    ) -> Step<Seq<PatternView>>
        decreases fuel,
    {
        let st = self;
        if fuel == 0 {
            (st, Err(st.too_deep()))
        } else {
            let fuel = (fuel - 1) as nat;
            if st.at(TokenKind::RParen) || st.at(TokenKind::Eof) {
                (st, Ok(params))
            } else {
                let start: u32 = st.pos();
                if st.at(TokenKind::DotDotDot) {
                    let st = st.advance();
                    match st.parse_binding_target(fuel) {
                        (st, Err(e)) => (st, Err(e)),
                        (st, Ok(argument)) => {
                            let span: Span = Span { start: start, end: st.pos() };
                            let params = params.push(cover::rest_of(argument, span));
                            (st, Ok(params))
                        },
                    }
                } else {
                    match st.parse_binding_target(fuel) {
                        (st, Err(e)) => (st, Err(e)),
                        (st, Ok(base)) => {
                            match st.parse_param_default(fuel, start, base) {
                                (st, Err(e)) => (st, Err(e)),
                                (st, Ok(param)) => {
                                    let params = params.push(param);
                                    match st.separate(TokenKind::RParen) {
                                        (st, Err(e)) => (st, Err(e)),
                                        (st, Ok(_)) => st.parse_param_list(fuel, params),
                                    }
                                },
                            }
                        },
                    }
                }
            }
        }
    }

    /// Parse the default value of a parameter, if there is one.
    pub open spec fn parse_param_default(
        self,
        fuel: nat,
        start: u32,
        base: PatternView,
    ) -> Step<PatternView>
        decreases fuel,
    {
        let st = self;
        if fuel == 0 {
            (st, Err(st.too_deep()))
        } else {
            let fuel = (fuel - 1) as nat;
            let (st, defaulted) = st.eat(TokenKind::Assign);
            if defaulted {
                match st.expression_within(fuel, 3) {
                    (st, Err(e)) => (st, Err(e)),
                    (st, Ok(value)) => {
                        let span: Span = Span { start: start, end: cover::span_of(value).end };
                        (st, Ok(cover::default_pattern(base, value, span)))
                    },
                }
            } else {
                (st, Ok(base))
            }
        }
    }

    /// Parse a block statement: `{ ... }`.
    pub open spec fn block_within(self, fuel: nat) -> Step<BlockStatementView>
        decreases fuel,
    {
        let st = self;
        if fuel == 0 {
            (st, Err(st.too_deep()))
        } else {
            let fuel = (fuel - 1) as nat;
            let start: u32 = st.pos();
            match st.expect(TokenKind::LBrace) {
                (st, Err(e)) => (st, Err(e)),
                (st, Ok(_)) => {
                    let none: Seq<StatementView> = Seq::empty();
                    match st.parse_statements(fuel, none) {
                        (st, Err(e)) => (st, Err(e)),
                        (st, Ok(body)) => {
                            match st.expect(TokenKind::RBrace) {
                                (st, Err(e)) => (st, Err(e)),
                                (st, Ok(_)) => {
                                    let span: Span = Span { start: start, end: st.pos() };
                                    (st, Ok(BlockStatementView { body, span }))
                                },
                            }
                        },
                    }
                },
            }
        }
    }

    /// Parse the statements of a block.
    pub open spec fn parse_statements(
        self,
        fuel: nat,
        body: Seq<StatementView>,
    ) -> Step<Seq<StatementView>>
        decreases fuel,
    {
        let st = self;
        if fuel == 0 {
            (st, Err(st.too_deep()))
        } else {
            let fuel = (fuel - 1) as nat;
            if st.at(TokenKind::RBrace) || st.at(TokenKind::Eof) {
                (st, Ok(body))
            } else {
                match st.statement_within(fuel) {
                    (st, Err(e)) => (st, Err(e)),
                    (st, Ok(statement)) => {
                        let body = body.push(statement);
                        st.parse_statements(fuel, body)
                    },
                }
            }
        }
    }

    /// Parse function body (for methods), `(params) { body }`, as a function expression.
    pub open spec fn parse_function_body(
        self,
        fuel: nat,
        is_async: bool,
        is_generator: bool,
    ) -> Step<ExpressionView>
        decreases fuel,
    {
        let st = self;
        if fuel == 0 {
            (st, Err(st.too_deep()))
        } else {
            let fuel = (fuel - 1) as nat;
            let start: u32 = st.pos();
            match st.params_within(fuel) {
                (st, Err(e)) => (st, Err(e)),
                (st, Ok(params)) => {
                    match st.block_within(fuel) {
                        (st, Err(e)) => (st, Err(e)),
                        (st, Ok(body)) => {
                            let span: Span = Span { start: start, end: st.pos() };
                            (
                                st,
                                Ok(
                                    ExpressionView::Function(
                                        Box::new(
                                            FunctionExpressionView {
                                                id: None,
                                                params,
                                                body,
                                                is_async,
                                                is_generator,
                                                span,
                                            },
                                        ),
                                    ),
                                ),
                            )
                        },
                    }
                },
            }
        }
    }

    /// Parse a template literal starting at the current TemplateLiteralFull or
    /// TemplateLiteralHead token.
    pub open spec fn template_within(self, fuel: nat) -> Step<TemplateLiteralView>
        decreases fuel,
    {
        let st = self;
        if fuel == 0 {
            (st, Err(st.too_deep()))
        } else {
            let fuel = (fuel - 1) as nat;
            let span: Span = st.span();
            let text = st.current_text();
            if st.at(TokenKind::TemplateLiteralFull) {
                let st = st.advance();
                let content = escapes::inner(text, 1, 1);
                let (st, raw) = st.intern(content);
                let quasis: Seq<TemplateElement> = Seq::empty();
                let quasis = quasis.push(
                    TemplateElement { raw, cooked: Some(raw), tail: true, span },
                );
                let expressions: Seq<ExpressionView> = Seq::empty();
                (st, Ok(TemplateLiteralView { quasis, expressions, span }))
            } else {
                let st = st.advance();
                let content = escapes::inner(text, 1, 2);
                let (st, raw) = st.intern(content);
                let quasis: Seq<TemplateElement> = Seq::empty();
                let quasis = quasis.push(
                    TemplateElement { raw, cooked: Some(raw), tail: false, span },
                );
                let expressions: Seq<ExpressionView> = Seq::empty();
                st.parse_template_rest(fuel, span.start, quasis, expressions)
            }
        }
    }

    /// Parse a template literal from its next interpolated expression on.
    pub open spec fn parse_template_rest(
        self,
        fuel: nat,
        start: u32,
        quasis: Seq<TemplateElement>,
        expressions: Seq<ExpressionView>,
    ) -> Step<TemplateLiteralView>
        decreases fuel,
    {
        let st = self;
        if fuel == 0 {
            (st, Err(st.too_deep()))
        } else {
            let fuel = (fuel - 1) as nat;
            match st.expression_within(fuel, 0) {
                (st, Err(e)) => (st, Err(e)),
                (st, Ok(expr)) => {
                    let expressions = expressions.push(expr);
                    let span: Span = st.span();
                    let text = st.current_text();
                    match st.current_kind() {
                        TokenKind::TemplateLiteralMiddle => {
                            let st = st.advance();
                            let content = escapes::inner(text, 1, 2);
                            let (st, raw) = st.intern(content);
                            let quasis = quasis.push(
                                TemplateElement { raw, cooked: Some(raw), tail: false, span },
                            );
                            st.parse_template_rest(fuel, start, quasis, expressions)
                        },
                        TokenKind::TemplateLiteralTail => {
                            let st = st.advance();
                            let content = escapes::inner(text, 1, 1);
                            let (st, raw) = st.intern(content);
                            let quasis = quasis.push(
                                TemplateElement { raw, cooked: Some(raw), tail: true, span },
                            );
                            let whole: Span = Span { start: start, end: st.pos() };
                            (st, Ok(TemplateLiteralView { quasis, expressions, span: whole }))
                        },
                        _ => (st, Err(st.expected("template continuation"@))),
                    }
                },
            }
        }
    }
}

/// Parse an expression with minimum binding power.
pub(crate) fn expression_within(
    p: &mut Parser,
    fuel: u32,
    min_bp: u8,
) -> (parsed: ParseResult<Expression>)
    ensures
        old(p).st().expression_within(fuel as nat, min_bp) == (
            final(p).st(),
            match parsed {
                Ok(node) => Ok(node@),
                Err(e) => Err(e@),
            },
        ),
        old(p).st().moved(final(p).st()),
    decreases fuel,
{
    if fuel == 0 {
        return Err(p.too_deep());
    }
    let fuel: u32 = fuel - 1;
    let left = parse_prefix(p, fuel)?;
    parse_infix(p, fuel, left, min_bp)
}

/// Parse what follows an expression: postfix operators, member accesses, calls and infix
/// operators that bind at least as tightly as the minimum.
pub(crate) fn parse_infix(
    p: &mut Parser,
    fuel: u32,
    first_left: Expression,
    min_bp: u8,
) -> (parsed: ParseResult<Expression>)
    ensures
        old(p).st().parse_infix(fuel as nat, first_left@, min_bp) == (
            final(p).st(),
            match parsed {
                Ok(node) => Ok(node@),
                Err(e) => Err(e@),
            },
        ),
        old(p).st().moved(final(p).st()),
    decreases fuel,
{
    let mut left = first_left;
    let mut budget: u32 = fuel;
    loop
        invariant
            budget <= fuel,
            old(p).st().moved(p.st()),
            p.st().parse_infix(budget as nat, left@, min_bp) == old(p).st().parse_infix(
                fuel as nat,
                first_left@,
                min_bp,
            ),
        decreases budget,
    {
        if budget == 0 {
            return Err(p.too_deep());
        }
        budget = budget - 1;
        let kind: TokenKind = p.current_kind();
        if is_suffix(kind, p.preceded_by_newline(), min_bp) {
            left = parse_suffix(p, budget, left, kind)?;
            continue ;
        }
        match infix_binding_power(kind) {
            Some((l_bp, r_bp)) => {
                if l_bp < min_bp {
                    return Ok(left);
                }
                p.advance();
                left = parse_operation(p, budget, left, kind, r_bp)?;
                continue ;
            },
            None => {
                return Ok(left);
            },
        }
    }
}

/// Parse what is attached to an expression: a postfix operator, a member access, a call, a
/// template or an optional chain.
pub(crate) fn parse_suffix(
    p: &mut Parser,
    fuel: u32,
    left: Expression,
    kind: TokenKind,
) -> (parsed: ParseResult<Expression>)
    ensures
        old(p).st().parse_suffix(fuel as nat, left@, kind) == (
            final(p).st(),
            match parsed {
                Ok(node) => Ok(node@),
                Err(e) => Err(e@),
            },
        ),
        old(p).st().moved(final(p).st()),
    decreases fuel,
{
    if fuel == 0 {
        return Err(p.too_deep());
    }
    let fuel: u32 = fuel - 1;
    let start: u32 = expr_span(&left).start;
    match update_operator(kind) {
        Some(operator) => {
            p.advance();
            let span: Span = Span::new(start, p.pos());
            return Ok(postfix_expression(operator, left, span));
        },
        None => {},
    }
    if kind == TokenKind::Dot || kind == TokenKind::LBracket {
        let computed: bool = kind == TokenKind::LBracket;
        let property = parse_access(p, fuel, computed)?;
        let span: Span = Span::new(start, p.pos());
        return Ok(member_expression(left, property, computed, span));
    }
    if kind == TokenKind::LParen {
        let arguments = arguments_within(p, fuel)?;
        let span: Span = Span::new(start, p.pos());
        return Ok(call_expression(left, arguments, span));
    }
    if kind == TokenKind::QuestionDot {
        let chain = parse_optional_chain(p, fuel)?;
        let span: Span = Span::new(start, p.pos());
        return Ok(chain_expression(left, chain, span));
    }
    let quasi = template_within(p, fuel)?;
    let span: Span = Span::new(start, p.pos());
    Ok(tagged_expression(left, quasi, span))
}

/// Parse a member access from its dot or bracket on.
pub(crate) fn parse_access(
    p: &mut Parser,
    fuel: u32,
    computed: bool,
) -> (parsed: ParseResult<MemberProperty>)
    ensures
        old(p).st().parse_access(fuel as nat, computed) == (
            final(p).st(),
            match parsed {
                Ok(node) => Ok(node@),
                Err(e) => Err(e@),
            },
        ),
        old(p).st().moved(final(p).st()),
    decreases fuel,
{
    if fuel == 0 {
        return Err(p.too_deep());
    }
    let fuel: u32 = fuel - 1;
    p.advance();
    if computed {
        let prop = expression_within(p, fuel, 0)?;
        p.expect(TokenKind::RBracket)?;
        return Ok(MemberProperty::Expression(prop));
    }
    let name: StringId = p.intern_current();
    if !(p.at(TokenKind::Identifier) || is_keyword_property(p.current_kind())) {
        return Err(p.expected("property name"));
    }
    p.advance();
    Ok(MemberProperty::Identifier(name))
}

/// Parse what stands on the right of an infix operator.
pub(crate) fn parse_operation(
    p: &mut Parser,
    fuel: u32,
    left: Expression,
    kind: TokenKind,
    r_bp: u8,
) -> (parsed: ParseResult<Expression>)
    ensures
        old(p).st().parse_operation(fuel as nat, left@, kind, r_bp) == (
            final(p).st(),
            match parsed {
                Ok(node) => Ok(node@),
                Err(e) => Err(e@),
            },
        ),
        old(p).st().moved(final(p).st()),
    decreases fuel,
{
    if fuel == 0 {
        return Err(p.too_deep());
    }
    let fuel: u32 = fuel - 1;
    let start: u32 = expr_span(&left).start;
    if kind == TokenKind::Question {
        let consequent = expression_within(p, fuel, 0)?;
        p.expect(TokenKind::Colon)?;
        let alternate = expression_within(p, fuel, r_bp)?;
        let span: Span = Span::new(start, expr_span(&alternate).end);
        return Ok(
            Expression::Conditional(
                Box::new(ConditionalExpression { test: left, consequent, alternate, span }),
            ),
        );
    }
    let right = expression_within(p, fuel, r_bp)?;
    let span: Span = Span::new(start, expr_span(&right).end);
    match assignment_operator(kind) {
        Some(operator) => {
            let target = expr_to_assignment_target(left)?;
            return Ok(
                Expression::Assignment(
                    Box::new(AssignmentExpression { operator, left: target, right, span }),
                ),
            );
        },
        None => {},
    }
    match logical_operator(kind) {
        Some(operator) => {
            return Ok(
                Expression::Logical(Box::new(LogicalExpression { operator, left, right, span })),
            );
        },
        None => {},
    }
    match binary_operator(kind) {
        Some(operator) => {
            return Ok(
                Expression::Binary(Box::new(BinaryExpression { operator, left, right, span })),
            );
        },
        None => {},
    }
    let end: u32 = expr_span(&right).end;
    let mut pair: Vec<Expression> = no_expressions();
    push_expression(&mut pair, left);
    push_expression(&mut pair, right);
    parse_sequence(p, fuel, start, end, pair, r_bp)
}

/// Parse the rest of a comma expression.
pub(crate) fn parse_sequence(
    p: &mut Parser,
    fuel: u32,
    start: u32,
    first_end: u32,
    first_expressions: Vec<Expression>,
    r_bp: u8,
) -> (parsed: ParseResult<Expression>)
    ensures
        old(p).st().parse_sequence(
            fuel as nat,
            start,
            first_end,
            tree::expressions(first_expressions),
            r_bp,
        ) == (
            final(p).st(),
            match parsed {
                Ok(node) => Ok(node@),
                Err(e) => Err(e@),
            },
        ),
        old(p).st().moved(final(p).st()),
    decreases fuel,
{
    let mut end = first_end;
    let mut expressions = first_expressions;
    let mut budget: u32 = fuel;
    loop
        invariant
            budget <= fuel,
            old(p).st().moved(p.st()),
            p.st().parse_sequence(
                budget as nat,
                start,
                end,
                tree::expressions(expressions),
                r_bp,
            ) == old(p).st().parse_sequence(
                fuel as nat,
                start,
                first_end,
                tree::expressions(first_expressions),
                r_bp,
            ),
        decreases budget,
    {
        if budget == 0 {
            return Err(p.too_deep());
        }
        budget = budget - 1;
        let more: bool = p.eat(TokenKind::Comma);
        if !more {
            let span: Span = Span::new(start, end);
            return Ok(Expression::Sequence(SequenceExpression { expressions, span }));
        }
        let next = expression_within(p, budget, r_bp)?;
        end = expr_span(&next).end;
        push_expression(&mut expressions, next);
    }
}

/// Parse an optional chain from its first `?.` on.
pub(crate) fn parse_optional_chain(
    p: &mut Parser,
    fuel: u32,
) -> (parsed: ParseResult<Vec<OptionalChainElement>>)
    ensures
        old(p).st().parse_optional_chain(fuel as nat) == (
            final(p).st(),
            match parsed {
                Ok(node) => Ok(tree::chain_elements(node)),
                Err(e) => Err(e@),
            },
        ),
        old(p).st().moved(final(p).st()),
    decreases fuel,
{
    if fuel == 0 {
        return Err(p.too_deep());
    }
    let fuel: u32 = fuel - 1;
    p.advance();
    let first = parse_optional_chain_element(p, fuel, true)?;
    let mut chain: Vec<OptionalChainElement> = no_chain_elements();
    push_chain_element(&mut chain, first);
    parse_chain_rest(p, fuel, chain)
}

/// Parse the elements of an optional chain behind the first.
pub(crate) fn parse_chain_rest(
    p: &mut Parser,
    fuel: u32,
    first_chain: Vec<OptionalChainElement>,
) -> (parsed: ParseResult<Vec<OptionalChainElement>>)
    ensures
        old(p).st().parse_chain_rest(fuel as nat, tree::chain_elements(first_chain)) == (
            final(p).st(),
            match parsed {
                Ok(node) => Ok(tree::chain_elements(node)),
                Err(e) => Err(e@),
            },
        ),
        old(p).st().moved(final(p).st()),
    decreases fuel,
{
    let mut chain = first_chain;
    let mut budget: u32 = fuel;
    loop
        invariant
            budget <= fuel,
            old(p).st().moved(p.st()),
            p.st().parse_chain_rest(
                budget as nat,
                tree::chain_elements(chain),
            ) == old(p).st().parse_chain_rest(fuel as nat, tree::chain_elements(first_chain)),
        decreases budget,
    {
        if budget == 0 {
            return Err(p.too_deep());
        }
        budget = budget - 1;
        if p.at(TokenKind::QuestionDot) {
            p.advance();
            let element = parse_optional_chain_element(p, budget, true)?;
            push_chain_element(&mut chain, element);
            continue ;
        }
        if p.at(TokenKind::Dot) {
            p.advance();
            let name: StringId = p.intern_current();
            p.advance();
            let property = MemberProperty::Identifier(name);
            let element = OptionalChainElement::Member {
                property,
                computed: false,
                optional: false,
            };
            push_chain_element(&mut chain, element);
            continue ;
        }
        if p.at(TokenKind::LBracket) {
            p.advance();
            let prop = expression_within(p, budget, 0)?;
            p.expect(TokenKind::RBracket)?;
            let property = MemberProperty::Expression(prop);
            let element = OptionalChainElement::Member {
                property,
                computed: true,
                optional: false,
            };
            push_chain_element(&mut chain, element);
            continue ;
        }
        if p.at(TokenKind::LParen) {
            let arguments = arguments_within(p, budget)?;
            let element = OptionalChainElement::Call { arguments, optional: false };
            push_chain_element(&mut chain, element);
            continue ;
        }
        return Ok(chain);
    }
}

/// Parse a single optional chain element after `?.`.
pub(crate) fn parse_optional_chain_element(
    p: &mut Parser,
    fuel: u32,
    optional: bool,
) -> (parsed: ParseResult<OptionalChainElement>)
    ensures
        old(p).st().parse_optional_chain_element(fuel as nat, optional) == (
            final(p).st(),
            match parsed {
                Ok(node) => Ok(node@),
                Err(e) => Err(e@),
            },
        ),
        old(p).st().moved(final(p).st()),
    decreases fuel,
{
    if fuel == 0 {
        return Err(p.too_deep());
    }
    let fuel: u32 = fuel - 1;
    if p.at(TokenKind::LParen) {
        let arguments = arguments_within(p, fuel)?;
        return Ok(OptionalChainElement::Call { arguments, optional });
    }
    if p.at(TokenKind::LBracket) {
        p.advance();
        let prop = expression_within(p, fuel, 0)?;
        p.expect(TokenKind::RBracket)?;
        let property = MemberProperty::Expression(prop);
        return Ok(OptionalChainElement::Member { property, computed: true, optional });
    }
    let name: StringId = p.intern_current();
    p.advance();
    let property = MemberProperty::Identifier(name);
    Ok(OptionalChainElement::Member { property, computed: false, optional })
}

/// Parse a prefix expression (unary, literal, identifier, etc.).
#[verifier::rlimit(40)]
pub(crate) fn parse_prefix(p: &mut Parser, fuel: u32) -> (parsed: ParseResult<Expression>)
    ensures
        old(p).st().parse_prefix(fuel as nat) == (
            final(p).st(),
            match parsed {
                Ok(node) => Ok(node@),
                Err(e) => Err(e@),
            },
        ),
        old(p).st().moved(final(p).st()),
    decreases fuel,
{
    if fuel == 0 {
        return Err(p.too_deep());
    }
    let fuel: u32 = fuel - 1;
    let kind: TokenKind = p.current_kind();
    let start: u32 = p.pos();
    let span: Span = p.span();
    match kind {
        TokenKind::Number => {
            let text = p.current_text();
            p.advance();
            let value: u64 = p.parse_number(text);
            Ok(Expression::NumberLiteral(NumberLiteral { value, span }))
        },
        TokenKind::BigInt => {
            let text = p.current_text();
            p.advance();
            let digits = trim_suffix(text);
            let value: u64 = p.parse_number(digits.as_str());
            Ok(Expression::NumberLiteral(NumberLiteral { value, span }))
        },
        TokenKind::String => {
            let text = p.current_text();
            p.advance();
            let value: StringId = p.parse_string_value(text);
            Ok(Expression::StringLiteral(StringLiteral { value, span }))
        },
        TokenKind::True => {
            p.advance();
            Ok(Expression::BooleanLiteral(BooleanLiteral { value: true, span }))
        },
        TokenKind::False => {
            p.advance();
            Ok(Expression::BooleanLiteral(BooleanLiteral { value: false, span }))
        },
        TokenKind::Null => {
            p.advance();
            Ok(Expression::NullLiteral(span))
        },
        TokenKind::RegExp => {
            let text = p.current_text();
            p.advance();
            let parts = regexp_parts(text);
            let pattern: StringId = p.intern(parts.0.as_str());
            let flags: StringId = p.intern(parts.1.as_str());
            Ok(Expression::RegExpLiteral(RegExpLiteral { pattern, flags, span }))
        },
        TokenKind::Undefined => {
            let name: StringId = p.intern_current();
            p.advance();
            Ok(Expression::Identifier(Identifier { name, span }))
        },
        TokenKind::Identifier => {
            let name: StringId = p.intern_current();
            p.advance();
            if p.at(TokenKind::Arrow) && !p.preceded_by_newline() {
                p.advance();
                let params: Vec<Pattern> = one_pattern(identifier_pattern(name, span));
                return parse_arrow(p, fuel, start, params);
            }
            Ok(Expression::Identifier(Identifier { name, span }))
        },
        TokenKind::This => {
            p.advance();
            Ok(Expression::This(span))
        },
        TokenKind::Super => {
            p.advance();
            Ok(Expression::Super(span))
        },
        TokenKind::LParen => {
            p.advance();
            parse_parenthesized(p, fuel, start)
        },
        TokenKind::LBracket => {
            p.advance();
            let list: Vec<Option<Expression>> = no_elements();
            let elements = parse_elements(p, fuel, list)?;
            p.expect(TokenKind::RBracket)?;
            let whole: Span = Span::new(start, p.pos());
            Ok(Expression::Array(ArrayExpression { elements, span: whole }))
        },
        TokenKind::LBrace => parse_object_expression(p, fuel),
        TokenKind::Function => parse_function_expression(p, fuel),
        TokenKind::New => {
            p.advance();
            let callee = expression_within(p, fuel, 31)?;
            let arguments = parse_new_arguments(p, fuel)?;
            let whole: Span = Span::new(start, p.pos());
            Ok(Expression::New(Box::new(NewExpression { callee, arguments, span: whole })))
        },
        TokenKind::Yield => {
            p.advance();
            parse_yield(p, fuel, start)
        },
        TokenKind::Await => {
            p.advance();
            let argument = expression_within(p, fuel, 27)?;
            let whole: Span = Span::new(start, expr_span(&argument).end);
            Ok(Expression::Await(Box::new(AwaitExpression { argument, span: whole })))
        },
        TokenKind::DotDotDot => parse_spread(p, fuel),
        TokenKind::TemplateLiteralFull => {
            let template = template_within(p, fuel)?;
            Ok(Expression::TemplateLiteral(template))
        },
        TokenKind::TemplateLiteralHead => {
            let template = template_within(p, fuel)?;
            Ok(Expression::TemplateLiteral(template))
        },
        _ => {
            if kind.is_contextual_keyword() {
                let name: StringId = p.intern_current();
                p.advance();
                return Ok(Expression::Identifier(Identifier { name, span }));
            }
            parse_unary(p, fuel, start, kind)
        },
    }
}

/// Parse a unary or an update expression.
pub(crate) fn parse_unary(
    p: &mut Parser,
    fuel: u32,
    start: u32,
    kind: TokenKind,
) -> (parsed: ParseResult<Expression>)
    ensures
        old(p).st().parse_unary(fuel as nat, start, kind) == (
            final(p).st(),
            match parsed {
                Ok(node) => Ok(node@),
                Err(e) => Err(e@),
            },
        ),
        old(p).st().moved(final(p).st()),
    decreases fuel,
{
    if fuel == 0 {
        return Err(p.too_deep());
    }
    let fuel: u32 = fuel - 1;
    match unary_operator(kind) {
        Some(operator) => {
            p.advance();
            let argument = expression_within(p, fuel, 27)?;
            let span: Span = Span::new(start, expr_span(&argument).end);
            return Ok(
                Expression::Unary(
                    Box::new(UnaryExpression { operator, argument, prefix: true, span }),
                ),
            );
        },
        None => {},
    }
    match update_operator(kind) {
        Some(operator) => {
            p.advance();
            let argument = expression_within(p, fuel, 27)?;
            let span: Span = Span::new(start, expr_span(&argument).end);
            Ok(
                Expression::Update(
                    Box::new(UpdateExpression { operator, argument, prefix: true, span }),
                ),
            )
        },
        None => Err(p.unexpected()),
    }
}

/// Parse `yield`, behind the keyword.
pub(crate) fn parse_yield(
    p: &mut Parser,
    fuel: u32,
    start: u32,
) -> (parsed: ParseResult<Expression>)
    ensures
        old(p).st().parse_yield(fuel as nat, start) == (
            final(p).st(),
            match parsed {
                Ok(node) => Ok(node@),
                Err(e) => Err(e@),
            },
        ),
        old(p).st().moved(final(p).st()),
    decreases fuel,
{
    if fuel == 0 {
        return Err(p.too_deep());
    }
    let fuel: u32 = fuel - 1;
    let delegate: bool = p.eat(TokenKind::Star);
    if !p.preceded_by_newline() && !is_yield_end(p.current_kind()) {
        let value = expression_within(p, fuel, 3)?;
        let span: Span = Span::new(start, expr_span(&value).end);
        let argument: Option<Expression> = Some(value);
        return Ok(yield_expression(argument, delegate, span));
    }
    let span: Span = Span::new(start, p.pos());
    let argument: Option<Expression> = None;
    Ok(yield_expression(argument, delegate, span))
}

/// Parse the arguments of `new`, if there are any.
pub(crate) fn parse_new_arguments(
    p: &mut Parser,
    fuel: u32,
) -> (parsed: ParseResult<Vec<Expression>>)
    ensures
        old(p).st().parse_new_arguments(fuel as nat) == (
            final(p).st(),
            match parsed {
                Ok(node) => Ok(tree::expressions(node)),
                Err(e) => Err(e@),
            },
        ),
        old(p).st().moved(final(p).st()),
    decreases fuel,
{
    if fuel == 0 {
        return Err(p.too_deep());
    }
    let fuel: u32 = fuel - 1;
    if p.at(TokenKind::LParen) {
        return arguments_within(p, fuel);
    }
    let none: Vec<Expression> = no_expressions();
    Ok(none)
}

/// Parse a spread argument or element: `...expr`.
pub(crate) fn parse_spread(p: &mut Parser, fuel: u32) -> (parsed: ParseResult<Expression>)
    ensures
        old(p).st().parse_spread(fuel as nat) == (
            final(p).st(),
            match parsed {
                Ok(node) => Ok(node@),
                Err(e) => Err(e@),
            },
        ),
        old(p).st().moved(final(p).st()),
    decreases fuel,
{
    if fuel == 0 {
        return Err(p.too_deep());
    }
    let fuel: u32 = fuel - 1;
    let start: u32 = p.pos();
    p.advance();
    let argument = expression_within(p, fuel, 3)?;
    let span: Span = Span::new(start, expr_span(&argument).end);
    Ok(Expression::Spread(Box::new(SpreadElement { argument, span })))
}

/// Parse an argument of a call or an element of an array literal.
pub(crate) fn parse_argument(p: &mut Parser, fuel: u32) -> (parsed: ParseResult<Expression>)
    ensures
        old(p).st().parse_argument(fuel as nat) == (
            final(p).st(),
            match parsed {
                Ok(node) => Ok(node@),
                Err(e) => Err(e@),
            },
        ),
        old(p).st().moved(final(p).st()),
    decreases fuel,
{
    if fuel == 0 {
        return Err(p.too_deep());
    }
    let fuel: u32 = fuel - 1;
    if p.at(TokenKind::DotDotDot) {
        return parse_spread(p, fuel);
    }
    expression_within(p, fuel, 3)
}

/// Parse an expression in parentheses, or the parameters of an arrow function, behind the
/// opening parenthesis.
pub(crate) fn parse_parenthesized(
    p: &mut Parser,
    fuel: u32,
    start: u32,
) -> (parsed: ParseResult<Expression>)
    ensures
        old(p).st().parse_parenthesized(fuel as nat, start) == (
            final(p).st(),
            match parsed {
                Ok(node) => Ok(node@),
                Err(e) => Err(e@),
            },
        ),
        old(p).st().moved(final(p).st()),
    decreases fuel,
{
    if fuel == 0 {
        return Err(p.too_deep());
    }
    let fuel: u32 = fuel - 1;
    if p.at(TokenKind::RParen) {
        p.advance();
        p.expect(TokenKind::Arrow)?;
        let none: Vec<Pattern> = no_patterns();
        return parse_arrow(p, fuel, start, none);
    }
    let expr = expression_within(p, fuel, 0)?;
    p.expect(TokenKind::RParen)?;
    if p.at(TokenKind::Arrow) && !p.preceded_by_newline() {
        p.advance();
        let params = expr_to_params(expr)?;
        return parse_arrow(p, fuel, start, params);
    }
    Ok(expr)
}

/// Parse an arrow function behind its arrow.
pub(crate) fn parse_arrow(
    p: &mut Parser,
    fuel: u32,
    start: u32,
    params: Vec<Pattern>,
) -> (parsed: ParseResult<Expression>)
    ensures
        old(p).st().parse_arrow(fuel as nat, start, tree::patterns(params)) == (
            final(p).st(),
            match parsed {
                Ok(node) => Ok(node@),
                Err(e) => Err(e@),
            },
        ),
        old(p).st().moved(final(p).st()),
    decreases fuel,
{
    if fuel == 0 {
        return Err(p.too_deep());
    }
    let fuel: u32 = fuel - 1;
    let body = parse_arrow_body(p, fuel)?;
    let span: Span = Span::new(start, arrow_body_end(&body));
    Ok(
        Expression::ArrowFunction(
            Box::new(ArrowFunctionExpression { params, body, is_async: false, span }),
        ),
    )
}

/// Parse arrow function body: expression or block.
pub(crate) fn parse_arrow_body(p: &mut Parser, fuel: u32) -> (parsed: ParseResult<ArrowBody>)
    ensures
        old(p).st().parse_arrow_body(fuel as nat) == (
            final(p).st(),
            match parsed {
                Ok(node) => Ok(node@),
                Err(e) => Err(e@),
            },
        ),
        old(p).st().moved(final(p).st()),
    decreases fuel,
{
    if fuel == 0 {
        return Err(p.too_deep());
    }
    let fuel: u32 = fuel - 1;
    if p.at(TokenKind::LBrace) {
        let block = block_within(p, fuel)?;
        return Ok(ArrowBody::Block(block));
    }
    let expr = expression_within(p, fuel, 3)?;
    Ok(ArrowBody::Expression(expr))
}

/// Parse the elements of an array literal.
pub(crate) fn parse_elements(
    p: &mut Parser,
    fuel: u32,
    first_elements: Vec<Option<Expression>>,
) -> (parsed: ParseResult<Vec<Option<Expression>>>)
    ensures
        old(p).st().parse_elements(fuel as nat, tree::elements(first_elements)) == (
            final(p).st(),
            match parsed {
                Ok(node) => Ok(tree::elements(node)),
                Err(e) => Err(e@),
            },
        ),
        old(p).st().moved(final(p).st()),
    decreases fuel,
{
    let mut elements = first_elements;
    let mut budget: u32 = fuel;
    loop
        invariant
            budget <= fuel,
            old(p).st().moved(p.st()),
            p.st().parse_elements(
                budget as nat,
                tree::elements(elements),
            ) == old(p).st().parse_elements(fuel as nat, tree::elements(first_elements)),
        decreases budget,
    {
        if budget == 0 {
            return Err(p.too_deep());
        }
        budget = budget - 1;
        if p.at(TokenKind::RBracket) || p.at(TokenKind::Eof) {
            return Ok(elements);
        }
        if p.at(TokenKind::Comma) {
            push_element(&mut elements, None);
            p.advance();
            continue ;
        }
        let element = parse_argument(p, budget)?;
        push_element(&mut elements, Some(element));
        p.separate(TokenKind::RBracket)?;
    }
}

/// Parse a parenthesized argument list: `(expr, expr, ...)`.
pub(crate) fn arguments_within(p: &mut Parser, fuel: u32) -> (parsed: ParseResult<Vec<Expression>>)
    ensures
        old(p).st().arguments_within(fuel as nat) == (
            final(p).st(),
            match parsed {
                Ok(node) => Ok(tree::expressions(node)),
                Err(e) => Err(e@),
            },
        ),
        old(p).st().moved(final(p).st()),
    decreases fuel,
{
    if fuel == 0 {
        return Err(p.too_deep());
    }
    let fuel: u32 = fuel - 1;
    p.expect(TokenKind::LParen)?;
    let none: Vec<Expression> = no_expressions();
    let args = parse_argument_list(p, fuel, none)?;
    p.expect(TokenKind::RParen)?;
    Ok(args)
}

/// Parse the arguments of a call.
pub(crate) fn parse_argument_list(
    p: &mut Parser,
    fuel: u32,
    first_args: Vec<Expression>,
) -> (parsed: ParseResult<Vec<Expression>>)
    ensures
        old(p).st().parse_argument_list(fuel as nat, tree::expressions(first_args)) == (
            final(p).st(),
            match parsed {
                Ok(node) => Ok(tree::expressions(node)),
                Err(e) => Err(e@),
            },
        ),
        old(p).st().moved(final(p).st()),
    decreases fuel,
{
    let mut args = first_args;
    let mut budget: u32 = fuel;
    loop
        invariant
            budget <= fuel,
            old(p).st().moved(p.st()),
            p.st().parse_argument_list(
                budget as nat,
                tree::expressions(args),
            ) == old(p).st().parse_argument_list(fuel as nat, tree::expressions(first_args)),
        decreases budget,
    {
        if budget == 0 {
            return Err(p.too_deep());
        }
        budget = budget - 1;
        if p.at(TokenKind::RParen) || p.at(TokenKind::Eof) {
            return Ok(args);
        }
        let arg = parse_argument(p, budget)?;
        push_expression(&mut args, arg);
        p.separate(TokenKind::RParen)?;
    }
}

/// Parse an object expression: `{ key: value, ... }`.
pub(crate) fn parse_object_expression(
    p: &mut Parser,
    fuel: u32,
) -> (parsed: ParseResult<Expression>)
    ensures
        old(p).st().parse_object_expression(fuel as nat) == (
            final(p).st(),
            match parsed {
                Ok(node) => Ok(node@),
                Err(e) => Err(e@),
            },
        ),
        old(p).st().moved(final(p).st()),
    decreases fuel,
{
    if fuel == 0 {
        return Err(p.too_deep());
    }
    let fuel: u32 = fuel - 1;
    let start: u32 = p.pos();
    p.advance();
    let none: Vec<ObjectProperty> = no_object_properties();
    let properties = parse_properties(p, fuel, none)?;
    p.expect(TokenKind::RBrace)?;
    let span: Span = Span::new(start, p.pos());
    Ok(Expression::Object(ObjectExpression { properties, span }))
}

/// Parse the properties of an object literal.
pub(crate) fn parse_properties(
    p: &mut Parser,
    fuel: u32,
    first_properties: Vec<ObjectProperty>,
) -> (parsed: ParseResult<Vec<ObjectProperty>>)
    ensures
        old(p).st().parse_properties(fuel as nat, tree::object_properties(first_properties)) == (
            final(p).st(),
            match parsed {
                Ok(node) => Ok(tree::object_properties(node)),
                Err(e) => Err(e@),
            },
        ),
        old(p).st().moved(final(p).st()),
    decreases fuel,
{
    let mut properties = first_properties;
    let mut budget: u32 = fuel;
    loop
        invariant
            budget <= fuel,
            old(p).st().moved(p.st()),
            p.st().parse_properties(
                budget as nat,
                tree::object_properties(properties),
            ) == old(p).st().parse_properties(
                fuel as nat,
                tree::object_properties(first_properties),
            ),
        decreases budget,
    {
        if budget == 0 {
            return Err(p.too_deep());
        }
        budget = budget - 1;
        if p.at(TokenKind::RBrace) || p.at(TokenKind::Eof) {
            return Ok(properties);
        }
        let property = parse_object_property(p, budget)?;
        push_object_property(&mut properties, property);
        p.separate(TokenKind::RBrace)?;
    }
}

/// Parse a property of an object literal, or a spread.
pub(crate) fn parse_object_property(
    p: &mut Parser,
    fuel: u32,
) -> (parsed: ParseResult<ObjectProperty>)
    ensures
        old(p).st().parse_object_property(fuel as nat) == (
            final(p).st(),
            match parsed {
                Ok(node) => Ok(node@),
                Err(e) => Err(e@),
            },
        ),
        old(p).st().moved(final(p).st()),
    decreases fuel,
{
    if fuel == 0 {
        return Err(p.too_deep());
    }
    let fuel: u32 = fuel - 1;
    if p.at(TokenKind::DotDotDot) {
        let start: u32 = p.pos();
        p.advance();
        let argument = expression_within(p, fuel, 3)?;
        let span: Span = Span::new(start, expr_span(&argument).end);
        return Ok(ObjectProperty::SpreadElement(SpreadElement { argument, span }));
    }
    let property = parse_property(p, fuel)?;
    Ok(ObjectProperty::Property(property))
}

/// Parse a property of an object literal.
pub(crate) fn parse_property(p: &mut Parser, fuel: u32) -> (parsed: ParseResult<Property>)
    ensures
        old(p).st().parse_property(fuel as nat) == (
            final(p).st(),
            match parsed {
                Ok(node) => Ok(node@),
                Err(e) => Err(e@),
            },
        ),
        old(p).st().moved(final(p).st()),
    decreases fuel,
{
    if fuel == 0 {
        return Err(p.too_deep());
    }
    let fuel: u32 = fuel - 1;
    let start: u32 = p.pos();
    if p.at_word("get") && is_accessor_key(p.peek_kind()) {
        p.advance();
        return parse_method(p, fuel, start, PropertyKindVal::Getter, false, false);
    }
    if p.at_word("set") && is_accessor_key(p.peek_kind()) {
        p.advance();
        return parse_method(p, fuel, start, PropertyKindVal::Setter, false, false);
    }
    if p.at_word("async") && !p.peek().preceded_by_newline && is_async_key(p.peek_kind()) {
        p.advance();
        let is_generator: bool = p.eat(TokenKind::Star);
        return parse_method(p, fuel, start, PropertyKindVal::Init, true, is_generator);
    }
    if p.at(TokenKind::Star) {
        p.advance();
        return parse_method(p, fuel, start, PropertyKindVal::Init, false, true);
    }
    let (key, computed) = parse_property_key(p, fuel)?;
    match plain_name(&key) {
        Some(name) => {
            if !computed && (p.at(TokenKind::Comma) || p.at(TokenKind::RBrace)) {
                let span: Span = Span::new(start, p.pos());
                let value = Expression::Identifier(Identifier { name, span });
                return Ok(
                    Property {
                        key,
                        value,
                        kind: PropertyKindVal::Init,
                        shorthand: true,
                        computed: false,
                        method: false,
                        span,
                    },
                );
            }
        },
        None => {},
    }
    if p.at(TokenKind::LParen) {
        let value = parse_function_body(p, fuel, false, false)?;
        let span: Span = Span::new(start, p.pos());
        return Ok(
            Property {
                key,
                value,
                kind: PropertyKindVal::Init,
                shorthand: false,
                computed,
                method: true,
                span,
            },
        );
    }
    p.expect(TokenKind::Colon)?;
    let value = expression_within(p, fuel, 3)?;
    let span: Span = Span::new(start, p.pos());
    Ok(
        Property {
            key,
            value,
            kind: PropertyKindVal::Init,
            shorthand: false,
            computed,
            method: false,
            span,
        },
    )
}

/// Parse the key and the body of a method of an object literal.
pub(crate) fn parse_method(
    p: &mut Parser,
    fuel: u32,
    start: u32,
    kind: PropertyKindVal,
    is_async: bool,
    is_generator: bool,
) -> (parsed: ParseResult<Property>)
    ensures
        old(p).st().parse_method(fuel as nat, start, kind, is_async, is_generator) == (
            final(p).st(),
            match parsed {
                Ok(node) => Ok(node@),
                Err(e) => Err(e@),
            },
        ),
        old(p).st().moved(final(p).st()),
    decreases fuel,
{
    if fuel == 0 {
        return Err(p.too_deep());
    }
    let fuel: u32 = fuel - 1;
    let (key, computed) = parse_property_key(p, fuel)?;
    let value = parse_function_body(p, fuel, is_async, is_generator)?;
    let span: Span = Span::new(start, p.pos());
    Ok(Property { key, value, kind, shorthand: false, computed, method: true, span })
}

/// Parse a property key, and whether it is computed.
pub(crate) fn parse_property_key(
    p: &mut Parser,
    fuel: u32,
) -> (parsed: ParseResult<(PropertyKey, bool)>)
    ensures
        old(p).st().parse_property_key(fuel as nat) == (
            final(p).st(),
            match parsed {
                Ok(node) => Ok((node.0@, node.1)),
                Err(e) => Err(e@),
            },
        ),
        old(p).st().moved(final(p).st()),
    decreases fuel,
{
    if fuel == 0 {
        return Err(p.too_deep());
    }
    let fuel: u32 = fuel - 1;
    match p.current_kind() {
        TokenKind::Identifier => {
            let name: StringId = p.intern_current();
            p.advance();
            Ok((PropertyKey::Identifier(name), false))
        },
        TokenKind::String => {
            let text = p.current_text();
            p.advance();
            let value: StringId = p.parse_string_value(text);
            Ok((PropertyKey::StringLiteral(value), false))
        },
        TokenKind::Number => {
            let text = p.current_text();
            p.advance();
            let value: u64 = p.parse_number(text);
            Ok((PropertyKey::NumberLiteral(value), false))
        },
        TokenKind::LBracket => {
            p.advance();
            let expr = expression_within(p, fuel, 0)?;
            p.expect(TokenKind::RBracket)?;
            Ok((PropertyKey::Computed(Box::new(expr)), true))
        },
        _ => {
            if is_keyword_property(p.current_kind()) {
                let name: StringId = p.intern_current();
                p.advance();
                return Ok((PropertyKey::Identifier(name), false));
            }
            Err(p.expected("property name"))
        },
    }
}

/// Parse a name, if there is one.
pub(crate) fn parse_optional_name(
    p: &mut Parser,
    fuel: u32,
) -> (parsed: ParseResult<Option<StringId>>)
    ensures
        old(p).st().parse_optional_name(fuel as nat) == (
            final(p).st(),
            match parsed {
                Ok(node) => Ok(node),
                Err(e) => Err(e@),
            },
        ),
        old(p).st().moved(final(p).st()),
    decreases fuel,
{
    if fuel == 0 {
        return Err(p.too_deep());
    }
    let fuel: u32 = fuel - 1;
    if p.at(TokenKind::Identifier) {
        let name: StringId = p.intern_current();
        p.advance();
        return Ok(Some(name));
    }
    Ok(None)
}

/// Parse a function expression: `function name?(params) { body }`.
pub(crate) fn parse_function_expression(
    p: &mut Parser,
    fuel: u32,
) -> (parsed: ParseResult<Expression>)
    ensures
        old(p).st().parse_function_expression(fuel as nat) == (
            final(p).st(),
            match parsed {
                Ok(node) => Ok(node@),
                Err(e) => Err(e@),
            },
        ),
        old(p).st().moved(final(p).st()),
    decreases fuel,
{
    if fuel == 0 {
        return Err(p.too_deep());
    }
    let fuel: u32 = fuel - 1;
    let start: u32 = p.pos();
    p.expect(TokenKind::Function)?;
    let is_generator: bool = p.eat(TokenKind::Star);
    let id = parse_optional_name(p, fuel)?;
    let params = params_within(p, fuel)?;
    let body = block_within(p, fuel)?;
    let span: Span = Span::new(start, p.pos());
    Ok(
        Expression::Function(
            Box::new(FunctionExpression { id, params, body, is_async: false, is_generator, span }),
        ),
    )
}

/// Parse function parameters: `(a, b = 1, ...rest)`.
pub(crate) fn params_within(p: &mut Parser, fuel: u32) -> (parsed: ParseResult<Vec<Pattern>>)
    ensures
        old(p).st().params_within(fuel as nat) == (
            final(p).st(),
            match parsed {
                Ok(node) => Ok(tree::patterns(node)),
                Err(e) => Err(e@),
            },
        ),
        old(p).st().moved(final(p).st()),
    decreases fuel,
{
    if fuel == 0 {
        return Err(p.too_deep());
    }
    let fuel: u32 = fuel - 1;
    p.expect(TokenKind::LParen)?;
    let none: Vec<Pattern> = no_patterns();
    let params = parse_param_list(p, fuel, none)?;
    p.expect(TokenKind::RParen)?;
    Ok(params)
}

/// Parse the parameters of a function. A rest parameter is the last.
pub(crate) fn parse_param_list(
    p: &mut Parser,
    fuel: u32,
    first_params: Vec<Pattern>,
) -> (parsed: ParseResult<Vec<Pattern>>)
    ensures
        old(p).st().parse_param_list(fuel as nat, tree::patterns(first_params)) == (
            final(p).st(),
            match parsed {
                Ok(node) => Ok(tree::patterns(node)),
                Err(e) => Err(e@),
            },
        ),
        old(p).st().moved(final(p).st()),
    decreases fuel,
{
    let mut params = first_params;
    let mut budget: u32 = fuel;
    loop
        invariant
            budget <= fuel,
            old(p).st().moved(p.st()),
            p.st().parse_param_list(
                budget as nat,
                tree::patterns(params),
            ) == old(p).st().parse_param_list(fuel as nat, tree::patterns(first_params)),
        decreases budget,
    {
        if budget == 0 {
            return Err(p.too_deep());
        }
        budget = budget - 1;
        if p.at(TokenKind::RParen) || p.at(TokenKind::Eof) {
            return Ok(params);
        }
        let start: u32 = p.pos();
        if p.at(TokenKind::DotDotDot) {
            p.advance();
            let argument = parse_binding_target(p, budget)?;
            let span: Span = Span::new(start, p.pos());
            push_pattern(&mut params, rest_pattern(argument, span));
            return Ok(params);
        }
        let base = parse_binding_target(p, budget)?;
        let param = parse_param_default(p, budget, start, base)?;
        push_pattern(&mut params, param);
        p.separate(TokenKind::RParen)?;
    }
}

/// Parse the default value of a parameter, if there is one.
pub(crate) fn parse_param_default(
    p: &mut Parser,
    fuel: u32,
    start: u32,
    base: Pattern,
) -> (parsed: ParseResult<Pattern>)
    ensures
        old(p).st().parse_param_default(fuel as nat, start, base@) == (
            final(p).st(),
            match parsed {
                Ok(node) => Ok(node@),
                Err(e) => Err(e@),
            },
        ),
        old(p).st().moved(final(p).st()),
    decreases fuel,
{
    if fuel == 0 {
        return Err(p.too_deep());
    }
    let fuel: u32 = fuel - 1;
    let defaulted: bool = p.eat(TokenKind::Assign);
    if defaulted {
        let value = expression_within(p, fuel, 3)?;
        let span: Span = Span::new(start, expr_span(&value).end);
        return Ok(with_default(base, value, span));
    }
    Ok(base)
}

/// Parse a block statement: `{ ... }`.
pub(crate) fn block_within(p: &mut Parser, fuel: u32) -> (parsed: ParseResult<BlockStatement>)
    ensures
        old(p).st().block_within(fuel as nat) == (
            final(p).st(),
            match parsed {
                Ok(node) => Ok(node@),
                Err(e) => Err(e@),
            },
        ),
        old(p).st().moved(final(p).st()),
    decreases fuel,
{
    if fuel == 0 {
        return Err(p.too_deep());
    }
    let fuel: u32 = fuel - 1;
    let start: u32 = p.pos();
    p.expect(TokenKind::LBrace)?;
    let none: Vec<Statement> = no_statements();
    let body = parse_statements(p, fuel, none)?;
    p.expect(TokenKind::RBrace)?;
    let span: Span = Span::new(start, p.pos());
    Ok(BlockStatement { body, span })
}

/// Parse the statements of a block.
pub(crate) fn parse_statements(
    p: &mut Parser,
    fuel: u32,
    first_body: Vec<Statement>,
) -> (parsed: ParseResult<Vec<Statement>>)
    ensures
        old(p).st().parse_statements(fuel as nat, tree::statements(first_body)) == (
            final(p).st(),
            match parsed {
                Ok(node) => Ok(tree::statements(node)),
                Err(e) => Err(e@),
            },
        ),
        old(p).st().moved(final(p).st()),
    decreases fuel,
{
    let mut body = first_body;
    let mut budget: u32 = fuel;
    loop
        invariant
            budget <= fuel,
            old(p).st().moved(p.st()),
            p.st().parse_statements(
                budget as nat,
                tree::statements(body),
            ) == old(p).st().parse_statements(fuel as nat, tree::statements(first_body)),
        decreases budget,
    {
        if budget == 0 {
            return Err(p.too_deep());
        }
        budget = budget - 1;
        if p.at(TokenKind::RBrace) || p.at(TokenKind::Eof) {
            return Ok(body);
        }
        let statement = statement_within(p, budget)?;
        push_statement(&mut body, statement);
    }
}

/// Parse function body (for methods), `(params) { body }`, as a function expression.
pub(crate) fn parse_function_body(
    p: &mut Parser,
    fuel: u32,
    is_async: bool,
    is_generator: bool,
) -> (parsed: ParseResult<Expression>)
    ensures
        old(p).st().parse_function_body(fuel as nat, is_async, is_generator) == (
            final(p).st(),
            match parsed {
                Ok(node) => Ok(node@),
                Err(e) => Err(e@),
            },
        ),
        old(p).st().moved(final(p).st()),
    decreases fuel,
{
    if fuel == 0 {
        return Err(p.too_deep());
    }
    let fuel: u32 = fuel - 1;
    let start: u32 = p.pos();
    let params = params_within(p, fuel)?;
    let body = block_within(p, fuel)?;
    let span: Span = Span::new(start, p.pos());
    Ok(
        Expression::Function(
            Box::new(FunctionExpression { id: None, params, body, is_async, is_generator, span }),
        ),
    )
}

/// Parse a template literal starting at the current TemplateLiteralFull or
/// TemplateLiteralHead token.
pub(crate) fn template_within(p: &mut Parser, fuel: u32) -> (parsed: ParseResult<TemplateLiteral>)
    ensures
        old(p).st().template_within(fuel as nat) == (
            final(p).st(),
            match parsed {
                Ok(node) => Ok(node@),
                Err(e) => Err(e@),
            },
        ),
        old(p).st().moved(final(p).st()),
    decreases fuel,
{
    if fuel == 0 {
        return Err(p.too_deep());
    }
    let fuel: u32 = fuel - 1;
    let span: Span = p.span();
    let text = p.current_text();
    if p.at(TokenKind::TemplateLiteralFull) {
        p.advance();
        let content = inner_text(text, 1, 1);
        let raw: StringId = p.intern(content.as_str());
        let mut quasis: Vec<TemplateElement> = Vec::new();
        quasis.push(TemplateElement { raw, cooked: Some(raw), tail: true, span });
        let expressions: Vec<Expression> = no_expressions();
        return Ok(TemplateLiteral { quasis, expressions, span });
    }
    p.advance();
    let content = inner_text(text, 1, 2);
    let raw: StringId = p.intern(content.as_str());
    let mut quasis: Vec<TemplateElement> = Vec::new();
    quasis.push(TemplateElement { raw, cooked: Some(raw), tail: false, span });
    let expressions: Vec<Expression> = no_expressions();
    parse_template_rest(p, fuel, span.start, quasis, expressions)
}

/// Parse a template literal from its next interpolated expression on.
pub(crate) fn parse_template_rest(
    p: &mut Parser,
    fuel: u32,
    start: u32,
    first_quasis: Vec<TemplateElement>,
    first_expressions: Vec<Expression>,
) -> (parsed: ParseResult<TemplateLiteral>)
    ensures
        old(p).st().parse_template_rest(
            fuel as nat,
            start,
            first_quasis@,
            tree::expressions(first_expressions),
        ) == (
            final(p).st(),
            match parsed {
                Ok(node) => Ok(node@),
                Err(e) => Err(e@),
            },
        ),
        old(p).st().moved(final(p).st()),
    decreases fuel,
{
    let mut quasis = first_quasis;
    let mut expressions = first_expressions;
    let mut budget: u32 = fuel;
    loop
        invariant
            budget <= fuel,
            old(p).st().moved(p.st()),
            p.st().parse_template_rest(
                budget as nat,
                start,
                quasis@,
                tree::expressions(expressions),
            ) == old(p).st().parse_template_rest(
                fuel as nat,
                start,
                first_quasis@,
                tree::expressions(first_expressions),
            ),
        decreases budget,
    {
        if budget == 0 {
            return Err(p.too_deep());
        }
        budget = budget - 1;
        let expr = expression_within(p, budget, 0)?;
        push_expression(&mut expressions, expr);
        let span: Span = p.span();
        let text = p.current_text();
        match p.current_kind() {
            TokenKind::TemplateLiteralMiddle => {
                p.advance();
                let content = inner_text(text, 1, 2);
                let raw: StringId = p.intern(content.as_str());
                quasis.push(TemplateElement { raw, cooked: Some(raw), tail: false, span });
                continue ;
            },
            TokenKind::TemplateLiteralTail => {
                p.advance();
                let content = inner_text(text, 1, 1);
                let raw: StringId = p.intern(content.as_str());
                quasis.push(TemplateElement { raw, cooked: Some(raw), tail: true, span });
                let whole: Span = Span::new(start, p.pos());
                return Ok(TemplateLiteral { quasis, expressions, span: whole });
            },
            _ => {
                return Err(p.expected("template continuation"));
            },
        }
    }
}

/// Parse an expression with minimum binding power.
pub fn parse_expression(p: &mut Parser, min_bp: u8) -> (parsed: ParseResult<Expression>)
    ensures
        old(p).st().expression_within(u32::MAX as nat, min_bp) == (
            final(p).st(),
            match parsed {
                Ok(node) => Ok(node@),
                Err(e) => Err(e@),
            },
        ),
        old(p).st().moved(final(p).st()),
{
    expression_within(p, u32::MAX, min_bp)
}

/// Parse a parenthesized argument list: `(expr, expr, ...)`.
pub fn parse_arguments(p: &mut Parser) -> (parsed: ParseResult<Vec<Expression>>)
    ensures
        old(p).st().arguments_within(u32::MAX as nat) == (
            final(p).st(),
            match parsed {
                Ok(node) => Ok(tree::expressions(node)),
                Err(e) => Err(e@),
            },
        ),
        old(p).st().moved(final(p).st()),
{
    arguments_within(p, u32::MAX)
}

/// Parse function parameters: `(a, b = 1, ...rest)`.
pub fn parse_params(p: &mut Parser) -> (parsed: ParseResult<Vec<Pattern>>)
    ensures
        old(p).st().params_within(u32::MAX as nat) == (
            final(p).st(),
            match parsed {
                Ok(node) => Ok(tree::patterns(node)),
                Err(e) => Err(e@),
            },
        ),
        old(p).st().moved(final(p).st()),
{
    params_within(p, u32::MAX)
}

/// Parse a block statement: `{ ... }`.
pub fn parse_block_statement(p: &mut Parser) -> (parsed: ParseResult<BlockStatement>)
    ensures
        old(p).st().block_within(u32::MAX as nat) == (
            final(p).st(),
            match parsed {
                Ok(node) => Ok(node@),
                Err(e) => Err(e@),
            },
        ),
        old(p).st().moved(final(p).st()),
{
    block_within(p, u32::MAX)
}

/// Parse a property key of a class member, and whether it is computed.
pub fn parse_property_key_for_class(p: &mut Parser) -> (parsed: ParseResult<(PropertyKey, bool)>)
    ensures
        old(p).st().parse_property_key(u32::MAX as nat) == (
            final(p).st(),
            match parsed {
                Ok(node) => Ok((node.0@, node.1)),
                Err(e) => Err(e@),
            },
        ),
        old(p).st().moved(final(p).st()),
{
    parse_property_key(p, u32::MAX)
}

/// Parse the parameters and the body of a class method as a function expression.
pub fn parse_function_body_expr(
    p: &mut Parser,
    is_async: bool,
    is_generator: bool,
) -> (parsed: ParseResult<Expression>)
    ensures
        old(p).st().parse_function_body(u32::MAX as nat, is_async, is_generator) == (
            final(p).st(),
            match parsed {
                Ok(node) => Ok(node@),
                Err(e) => Err(e@),
            },
        ),
        old(p).st().moved(final(p).st()),
{
    parse_function_body(p, u32::MAX, is_async, is_generator)
}

/// Parse a template literal starting at the current TemplateLiteralFull or
/// TemplateLiteralHead token.
pub fn parse_template_literal(p: &mut Parser) -> (parsed: ParseResult<TemplateLiteral>)
    ensures
        old(p).st().template_within(u32::MAX as nat) == (
            final(p).st(),
            match parsed {
                Ok(node) => Ok(node@),
                Err(e) => Err(e@),
            },
        ),
        old(p).st().moved(final(p).st()),
{
    template_within(p, u32::MAX)
}

} // verus!
