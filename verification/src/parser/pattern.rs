//! Destructuring patterns.

use vstd::prelude::*;
use crate::ast::list::{
    no_pattern_elements, no_pattern_properties, push_pattern_element, push_pattern_property,
};
use crate::ast::node::{
    ArrayPattern, ObjectPattern, ObjectPatternProperty, Pattern, PropertyKey, RestElement,
};
use crate::ast::span::Span;
use crate::ast::tree;
use crate::ast::tree::{
    ArrayPatternView, ObjectPatternPropertyView, ObjectPatternView, PatternView, PropertyKeyView,
    RestElementView,
};
use crate::lexer::token::TokenKind;
use crate::parser::cover;
use crate::parser::cover::{identifier_pattern, rest_pattern, with_default};
use crate::parser::error::ParseResult;
use crate::parser::expression::expression_within;
use crate::parser::parser::{Parser, ParserState, Step};
use crate::util::interner::StringId;

verus! {

impl ParserState {
    /// Parse what a declaration binds: a name, or an array or object pattern.
    pub open spec fn parse_binding_target(self, fuel: nat) -> Step<PatternView>
        decreases fuel,
    {
        let st = self;
        if fuel == 0 {
            (st, Err(st.too_deep()))
        } else {
            let fuel = (fuel - 1) as nat;
            if st.at(TokenKind::LBracket) {
                st.parse_array_pattern(fuel)
            } else {
                if st.at(TokenKind::LBrace) {
                    st.parse_object_pattern(fuel)
                } else {
                    let (st, name) = st.intern_current();
                    let span: Span = st.span();
                    match st.expect(TokenKind::Identifier) {
                        (st, Err(e)) => (st, Err(e)),
                        (st, Ok(_)) => (st, Ok(cover::name_pattern(name, span))),
                    }
                }
            }
        }
    }

    /// Parse an object destructuring pattern: `{ a, b, c }` or `{ a: x, b: y }`.
    pub open spec fn parse_object_pattern(self, fuel: nat) -> Step<PatternView>
        decreases fuel,
    {
        let st = self;
        if fuel == 0 {
            (st, Err(st.too_deep()))
        } else {
            let fuel = (fuel - 1) as nat;
            let start: u32 = st.pos();
            match st.expect(TokenKind::LBrace) {
                (st, Err(e)) => (st, Err(e)),
                (st, Ok(_)) => {
                    let none: Seq<ObjectPatternPropertyView> = Seq::empty();
                    match st.parse_pattern_properties(fuel, none) {
                        (st, Err(e)) => (st, Err(e)),
                        (st, Ok(properties)) => {
                            match st.expect(TokenKind::RBrace) {
                                (st, Err(e)) => (st, Err(e)),
                                (st, Ok(_)) => {
                                    let span: Span = Span { start: start, end: st.pos() };
                                    (
                                        st,
                                        Ok(
                                            PatternView::Object(
                                                ObjectPatternView { properties, span },
                                            ),
                                        ),
                                    )
                                },
                            }
                        },
                    }
                },
            }
        }
    }

    /// Parse the properties of an object pattern. A rest property is the last.
    pub open spec fn parse_pattern_properties(
        self,
        fuel: nat,
        properties: Seq<ObjectPatternPropertyView>,
    ) -> Step<Seq<ObjectPatternPropertyView>>
        decreases fuel,
    {
        let st = self;
        if fuel == 0 {
            (st, Err(st.too_deep()))
        } else {
            let fuel = (fuel - 1) as nat;
            if st.at(TokenKind::RBrace) || st.at(TokenKind::Eof) {
                (st, Ok(properties))
            } else {
                if st.at(TokenKind::DotDotDot) {
                    let start: u32 = st.pos();
                    let st = st.advance();
                    let (st, name) = st.intern_current();
                    let name_span: Span = st.span();
                    match st.expect(TokenKind::Identifier) {
                        (st, Err(e)) => (st, Err(e)),
                        (st, Ok(_)) => {
                            let span: Span = Span { start: start, end: st.pos() };
                            let argument = cover::name_pattern(name, name_span);
                            let properties = properties.push(
                                ObjectPatternPropertyView::Rest(RestElementView { argument, span }),
                            );
                            (st, Ok(properties))
                        },
                    }
                } else {
                    match st.parse_pattern_property(fuel) {
                        (st, Err(e)) => (st, Err(e)),
                        (st, Ok(property)) => {
                            let properties = properties.push(property);
                            match st.separate(TokenKind::RBrace) {
                                (st, Err(e)) => (st, Err(e)),
                                (st, Ok(_)) => st.parse_pattern_properties(fuel, properties),
                            }
                        },
                    }
                }
            }
        }
    }

    /// Parse a property of an object pattern.
    pub open spec fn parse_pattern_property(self, fuel: nat) -> Step<ObjectPatternPropertyView>
        decreases fuel,
    {
        let st = self;
        if fuel == 0 {
            (st, Err(st.too_deep()))
        } else {
            let fuel = (fuel - 1) as nat;
            let start: u32 = st.pos();
            if st.at(TokenKind::LBracket) {
                let st = st.advance();
                match st.expression_within(fuel, 0) {
                    (st, Err(e)) => (st, Err(e)),
                    (st, Ok(key_expr)) => {
                        match st.expect(TokenKind::RBracket) {
                            (st, Err(e)) => (st, Err(e)),
                            (st, Ok(_)) => {
                                match st.expect(TokenKind::Colon) {
                                    (st, Err(e)) => (st, Err(e)),
                                    (st, Ok(_)) => {
                                        match st.parse_binding_target(fuel) {
                                            (st, Err(e)) => (st, Err(e)),
                                            (st, Ok(value)) => {
                                                let span: Span = Span {
                                                    start: start,
                                                    end: st.pos(),
                                                };
                                                let key = PropertyKeyView::Computed(
                                                    Box::new(key_expr),
                                                );
                                                (
                                                    st,
                                                    Ok(
                                                        ObjectPatternPropertyView::Property {
                                                            key,
                                                            value,
                                                            computed: true,
                                                            shorthand: false,
                                                            span,
                                                        },
                                                    ),
                                                )
                                            },
                                        }
                                    },
                                }
                            },
                        }
                    },
                }
            } else {
                let (st, name) = st.intern_current();
                let name_span: Span = st.span();
                let st = st.advance();
                let key = PropertyKeyView::Identifier(name);
                let (st, renamed) = st.eat(TokenKind::Colon);
                if renamed {
                    match st.parse_pattern_value(fuel) {
                        (st, Err(e)) => (st, Err(e)),
                        (st, Ok(value)) => {
                            let span: Span = Span { start: start, end: st.pos() };
                            (
                                st,
                                Ok(
                                    ObjectPatternPropertyView::Property {
                                        key,
                                        value,
                                        computed: false,
                                        shorthand: false,
                                        span,
                                    },
                                ),
                            )
                        },
                    }
                } else {
                    match st.parse_pattern_default(fuel, name, name_span) {
                        (st, Err(e)) => (st, Err(e)),
                        (st, Ok(value)) => {
                            let span: Span = Span { start: start, end: st.pos() };
                            (
                                st,
                                Ok(
                                    ObjectPatternPropertyView::Property {
                                        key,
                                        value,
                                        computed: false,
                                        shorthand: true,
                                        span,
                                    },
                                ),
                            )
                        },
                    }
                }
            }
        }
    }

    /// Parse the target of a renamed property: a nested pattern, or a name that may have a
    /// default value.
    pub open spec fn parse_pattern_value(self, fuel: nat) -> Step<PatternView>
        decreases fuel,
    {
        let st = self;
        if fuel == 0 {
            (st, Err(st.too_deep()))
        } else {
            let fuel = (fuel - 1) as nat;
            if st.at(TokenKind::LBrace) {
                st.parse_object_pattern(fuel)
            } else {
                if st.at(TokenKind::LBracket) {
                    st.parse_array_pattern(fuel)
                } else {
                    let (st, name) = st.intern_current();
                    let name_span: Span = st.span();
                    match st.expect(TokenKind::Identifier) {
                        (st, Err(e)) => (st, Err(e)),
                        (st, Ok(_)) => st.parse_pattern_default(fuel, name, name_span),
                    }
                }
            }
        }
    }

    /// Parse the default value of a name in a pattern, if there is one.
    pub open spec fn parse_pattern_default(
        self,
        fuel: nat,
        name: StringId,
        name_span: Span,
    ) -> Step<PatternView>
        decreases fuel,
    {
        let st = self;
        if fuel == 0 {
            (st, Err(st.too_deep()))
        } else {
            let fuel = (fuel - 1) as nat;
            let (st, defaulted) = st.eat(TokenKind::Assign);
            let left = cover::name_pattern(name, name_span);
            if defaulted {
                match st.expression_within(fuel, 3) {
                    (st, Err(e)) => (st, Err(e)),
                    (st, Ok(right)) => {
                        let span: Span = Span { start: name_span.start, end: st.pos() };
                        (st, Ok(cover::default_pattern(left, right, span)))
                    },
                }
            } else {
                (st, Ok(left))
            }
        }
    }

    /// Parse an array destructuring pattern: `[ a, b, c ]`.
    pub open spec fn parse_array_pattern(self, fuel: nat) -> Step<PatternView>
        decreases fuel,
    {
        let st = self;
        if fuel == 0 {
            (st, Err(st.too_deep()))
        } else {
            let fuel = (fuel - 1) as nat;
            let start: u32 = st.pos();
            match st.expect(TokenKind::LBracket) {
                (st, Err(e)) => (st, Err(e)),
                (st, Ok(_)) => {
                    let none: Seq<Option<PatternView>> = Seq::empty();
                    match st.parse_pattern_elements(fuel, none) {
                        (st, Err(e)) => (st, Err(e)),
                        (st, Ok(elements)) => {
                            match st.expect(TokenKind::RBracket) {
                                (st, Err(e)) => (st, Err(e)),
                                (st, Ok(_)) => {
                                    let span: Span = Span { start: start, end: st.pos() };
                                    (
                                        st,
                                        Ok(PatternView::Array(ArrayPatternView { elements, span })),
                                    )
                                },
                            }
                        },
                    }
                },
            }
        }
    }

    /// Parse the elements of an array pattern. A rest element is the last.
    pub open spec fn parse_pattern_elements(
        self,
        fuel: nat,
        elements: Seq<Option<PatternView>>,
    ) -> Step<Seq<Option<PatternView>>>
        decreases fuel,
    {
        let st = self;
        if fuel == 0 {
            (st, Err(st.too_deep()))
        } else {
            let fuel = (fuel - 1) as nat;
            if st.at(TokenKind::RBracket) || st.at(TokenKind::Eof) {
                (st, Ok(elements))
            } else {
                if st.at(TokenKind::Comma) {
                    let elements = elements.push(None);
                    let st = st.advance();
                    st.parse_pattern_elements(fuel, elements)
                } else {
                    if st.at(TokenKind::DotDotDot) {
                        let start: u32 = st.pos();
                        let st = st.advance();
                        let (st, name) = st.intern_current();
                        let name_span: Span = st.span();
                        match st.expect(TokenKind::Identifier) {
                            (st, Err(e)) => (st, Err(e)),
                            (st, Ok(_)) => {
                                let span: Span = Span { start: start, end: st.pos() };
                                let argument = cover::name_pattern(name, name_span);
                                let elements = elements.push(Some(cover::rest_of(argument, span)));
                                (st, Ok(elements))
                            },
                        }
                    } else {
                        match st.parse_pattern_value(fuel) {
                            (st, Err(e)) => (st, Err(e)),
                            (st, Ok(element)) => {
                                let elements = elements.push(Some(element));
                                match st.separate(TokenKind::RBracket) {
                                    (st, Err(e)) => (st, Err(e)),
                                    (st, Ok(_)) => st.parse_pattern_elements(fuel, elements),
                                }
                            },
                        }
                    }
                }
            }
        }
    }
}

/// Parse what a declaration binds: a name, or an array or object pattern.
pub(crate) fn parse_binding_target(p: &mut Parser, fuel: u32) -> (parsed: ParseResult<Pattern>)
    ensures
        old(p).st().parse_binding_target(fuel as nat) == (
            final(p).st(),
            match parsed {
                Ok(node) => Ok(node@),
                Err(e) => Err(e@),
            },
        ),
        old(p).st().moved(final(p).st()),
    decreases fuel,
{
    if fuel == 0 {
        return Err(p.too_deep());
    }
    let fuel: u32 = fuel - 1;
    if p.at(TokenKind::LBracket) {
        return parse_array_pattern(p, fuel);
    }
    if p.at(TokenKind::LBrace) {
        return parse_object_pattern(p, fuel);
    }
    let name: StringId = p.intern_current();
    let span: Span = p.span();
    p.expect(TokenKind::Identifier)?;
    Ok(identifier_pattern(name, span))
}

/// Parse an object destructuring pattern: `{ a, b, c }` or `{ a: x, b: y }`.
pub(crate) fn parse_object_pattern(p: &mut Parser, fuel: u32) -> (parsed: ParseResult<Pattern>)
    ensures
        old(p).st().parse_object_pattern(fuel as nat) == (
            final(p).st(),
            match parsed {
                Ok(node) => Ok(node@),
                Err(e) => Err(e@),
            },
        ),
        old(p).st().moved(final(p).st()),
    decreases fuel,
{
    if fuel == 0 {
        return Err(p.too_deep());
    }
    let fuel: u32 = fuel - 1;
    let start: u32 = p.pos();
    p.expect(TokenKind::LBrace)?;
    let none: Vec<ObjectPatternProperty> = no_pattern_properties();
    let properties = parse_pattern_properties(p, fuel, none)?;
    p.expect(TokenKind::RBrace)?;
    let span: Span = Span::new(start, p.pos());
    Ok(Pattern::Object(ObjectPattern { properties, span }))
}

/// Parse the properties of an object pattern. A rest property is the last.
pub(crate) fn parse_pattern_properties(
    p: &mut Parser,
    fuel: u32,
    first_properties: Vec<ObjectPatternProperty>,
) -> (parsed: ParseResult<Vec<ObjectPatternProperty>>)
    ensures
        old(p).st().parse_pattern_properties(
            fuel as nat,
            tree::pattern_properties(first_properties),
        ) == (
            final(p).st(),
            match parsed {
                Ok(node) => Ok(tree::pattern_properties(node)),
                Err(e) => Err(e@),
            },
        ),
        old(p).st().moved(final(p).st()),
    decreases fuel,
{
    let mut properties = first_properties;
    let mut budget: u32 = fuel;
    loop
        invariant
            budget <= fuel,
            old(p).st().moved(p.st()),
            p.st().parse_pattern_properties(
                budget as nat,
                tree::pattern_properties(properties),
            ) == old(p).st().parse_pattern_properties(
                fuel as nat,
                tree::pattern_properties(first_properties),
            ),
        decreases budget,
    {
        if budget == 0 {
            return Err(p.too_deep());
        }
        budget = budget - 1;
        if p.at(TokenKind::RBrace) || p.at(TokenKind::Eof) {
            return Ok(properties);
        }
        if p.at(TokenKind::DotDotDot) {
            let start: u32 = p.pos();
            p.advance();
            let name: StringId = p.intern_current();
            let name_span: Span = p.span();
            p.expect(TokenKind::Identifier)?;
            let span: Span = Span::new(start, p.pos());
            let argument = identifier_pattern(name, name_span);
            push_pattern_property(
                &mut properties,
                ObjectPatternProperty::Rest(RestElement { argument, span }),
            );
            return Ok(properties);
        }
        let property = parse_pattern_property(p, budget)?;
        push_pattern_property(&mut properties, property);
        p.separate(TokenKind::RBrace)?;
    }
}

/// Parse a property of an object pattern.
pub(crate) fn parse_pattern_property(
    p: &mut Parser,
    fuel: u32,
) -> (parsed: ParseResult<ObjectPatternProperty>)
    ensures
        old(p).st().parse_pattern_property(fuel as nat) == (
            final(p).st(),
            match parsed {
                Ok(node) => Ok(node@),
                Err(e) => Err(e@),
            },
        ),
        old(p).st().moved(final(p).st()),
    decreases fuel,
{
    if fuel == 0 {
        return Err(p.too_deep());
    }
    let fuel: u32 = fuel - 1;
    let start: u32 = p.pos();
    if p.at(TokenKind::LBracket) {
        p.advance();
        let key_expr = expression_within(p, fuel, 0)?;
        p.expect(TokenKind::RBracket)?;
        p.expect(TokenKind::Colon)?;
        let value = parse_binding_target(p, fuel)?;
        let span: Span = Span::new(start, p.pos());
        let key = PropertyKey::Computed(Box::new(key_expr));
        return Ok(
            ObjectPatternProperty::Property { key, value, computed: true, shorthand: false, span },
        );
    }
    let name: StringId = p.intern_current();
    let name_span: Span = p.span();
    p.advance();
    let key = PropertyKey::Identifier(name);
    let renamed: bool = p.eat(TokenKind::Colon);
    if renamed {
        let value = parse_pattern_value(p, fuel)?;
        let span: Span = Span::new(start, p.pos());
        return Ok(
            ObjectPatternProperty::Property { key, value, computed: false, shorthand: false, span },
        );
    }
    let value = parse_pattern_default(p, fuel, name, name_span)?;
    let span: Span = Span::new(start, p.pos());
    Ok(ObjectPatternProperty::Property { key, value, computed: false, shorthand: true, span })
}

/// Parse the target of a renamed property: a nested pattern, or a name that may have a
/// default value.
pub(crate) fn parse_pattern_value(p: &mut Parser, fuel: u32) -> (parsed: ParseResult<Pattern>)
    ensures
        old(p).st().parse_pattern_value(fuel as nat) == (
            final(p).st(),
            match parsed {
                Ok(node) => Ok(node@),
                Err(e) => Err(e@),
            },
        ),
        old(p).st().moved(final(p).st()),
    decreases fuel,
{
    if fuel == 0 {
        return Err(p.too_deep());
    }
    let fuel: u32 = fuel - 1;
    if p.at(TokenKind::LBrace) {
        return parse_object_pattern(p, fuel);
    }
    if p.at(TokenKind::LBracket) {
        return parse_array_pattern(p, fuel);
    }
    let name: StringId = p.intern_current();
    let name_span: Span = p.span();
    p.expect(TokenKind::Identifier)?;
    parse_pattern_default(p, fuel, name, name_span)
}

/// Parse the default value of a name in a pattern, if there is one.
pub(crate) fn parse_pattern_default(
    p: &mut Parser,
    fuel: u32,
    name: StringId,
    name_span: Span,
) -> (parsed: ParseResult<Pattern>)
    ensures
        old(p).st().parse_pattern_default(fuel as nat, name, name_span) == (
            final(p).st(),
            match parsed {
                Ok(node) => Ok(node@),
                Err(e) => Err(e@),
            },
        ),
        old(p).st().moved(final(p).st()),
    decreases fuel,
{
    if fuel == 0 {
        return Err(p.too_deep());
    }
    let fuel: u32 = fuel - 1;
    let defaulted: bool = p.eat(TokenKind::Assign);
    let left = identifier_pattern(name, name_span);
    if defaulted {
        let right = expression_within(p, fuel, 3)?;
        let span: Span = Span::new(name_span.start, p.pos());
        return Ok(with_default(left, right, span));
    }
    Ok(left)
}

/// Parse an array destructuring pattern: `[ a, b, c ]`.
pub(crate) fn parse_array_pattern(p: &mut Parser, fuel: u32) -> (parsed: ParseResult<Pattern>)
    ensures
        old(p).st().parse_array_pattern(fuel as nat) == (
            final(p).st(),
            match parsed {
                Ok(node) => Ok(node@),
                Err(e) => Err(e@),
            },
        ),
        old(p).st().moved(final(p).st()),
    decreases fuel,
{
    if fuel == 0 {
        return Err(p.too_deep());
    }
    let fuel: u32 = fuel - 1;
    let start: u32 = p.pos();
    p.expect(TokenKind::LBracket)?;
    let none: Vec<Option<Pattern>> = no_pattern_elements();
    let elements = parse_pattern_elements(p, fuel, none)?;
    p.expect(TokenKind::RBracket)?;
    let span: Span = Span::new(start, p.pos());
    Ok(Pattern::Array(ArrayPattern { elements, span }))
}

/// Parse the elements of an array pattern. A rest element is the last.
pub(crate) fn parse_pattern_elements(
    p: &mut Parser,
    fuel: u32,
    first_elements: Vec<Option<Pattern>>,
) -> (parsed: ParseResult<Vec<Option<Pattern>>>)
    ensures
        old(p).st().parse_pattern_elements(fuel as nat, tree::pattern_elements(first_elements)) == (
            final(p).st(),
            match parsed {
                Ok(node) => Ok(tree::pattern_elements(node)),
                Err(e) => Err(e@),
            },
        ),
        old(p).st().moved(final(p).st()),
    decreases fuel,
{
    let mut elements = first_elements;
    let mut budget: u32 = fuel;
    loop
        invariant
            budget <= fuel,
            old(p).st().moved(p.st()),
            p.st().parse_pattern_elements(
                budget as nat,
                tree::pattern_elements(elements),
            ) == old(p).st().parse_pattern_elements(
                fuel as nat,
                tree::pattern_elements(first_elements),
            ),
        decreases budget,
    {
        if budget == 0 {
            return Err(p.too_deep());
        }
        budget = budget - 1;
        if p.at(TokenKind::RBracket) || p.at(TokenKind::Eof) {
            return Ok(elements);
        }
        if p.at(TokenKind::Comma) {
            push_pattern_element(&mut elements, None);
            p.advance();
            continue ;
        }
        if p.at(TokenKind::DotDotDot) {
            let start: u32 = p.pos();
            p.advance();
            let name: StringId = p.intern_current();
            let name_span: Span = p.span();
            p.expect(TokenKind::Identifier)?;
            let span: Span = Span::new(start, p.pos());
            let argument = identifier_pattern(name, name_span);
            push_pattern_element(&mut elements, Some(rest_pattern(argument, span)));
            return Ok(elements);
        }
        let element = parse_pattern_value(p, budget)?;
        push_pattern_element(&mut elements, Some(element));
        p.separate(TokenKind::RBracket)?;
    }
}

} // verus!
