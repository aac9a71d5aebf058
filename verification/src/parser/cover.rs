//! Expressions read again as assignment targets and parameters.

use vstd::prelude::*;
use crate::ast::list::{
    no_pattern_elements, no_pattern_properties, no_patterns, one_declarator, one_pattern,
    push_pattern, push_pattern_element, push_pattern_property,
};
use crate::ast::node::{
    ArrayExpression, ArrayPattern, ArrowBody, AssignmentPattern, AssignmentTarget,
    CallExpression, ExportDeclaration, Expression, ForInOfLeft, Identifier, MemberExpression,
    MemberProperty, MethodKind, ObjectExpression, ObjectPattern, ObjectPatternProperty,
    ObjectProperty, OptionalChainElement, OptionalChainExpression, Pattern, PropertyKey,
    RestElement, Statement, TaggedTemplateExpression, TemplateLiteral, ThrowStatement,
    UpdateExpression, UpdateOperator, VarKind, VariableDeclaration, VariableDeclarator,
    YieldExpression,
};
use crate::ast::span::Span;
use crate::ast::tree;
use crate::ast::tree::{
    ArrayPatternView, ArrowBodyView, AssignmentPatternView, AssignmentTargetView,
    CallExpressionView, ExportDeclarationView, ExpressionView, ForInOfLeftView,
    MemberExpressionView, MemberPropertyView, ObjectPatternPropertyView, ObjectPatternView,
    ObjectPropertyView, OptionalChainElementView, OptionalChainExpressionView, PatternView,
    PropertyKeyView, RestElementView, StatementView, TaggedTemplateExpressionView,
    TemplateLiteralView, ThrowStatementView, UpdateExpressionView, VariableDeclarationView,
    VariableDeclaratorView, YieldExpressionView,
};
use crate::parser::error;
use crate::parser::error::{ErrorView, ParseError, ParseResult};
use crate::util::interner::StringId;

verus! {

/// The range of an expression.
#[verifier::opaque]
pub open spec fn span_of(e: ExpressionView) -> Span {
    match e {
        ExpressionView::NumberLiteral(n) => n.span,
        ExpressionView::BigIntLiteral(b) => b.span,
        ExpressionView::StringLiteral(s) => s.span,
        ExpressionView::BooleanLiteral(b) => b.span,
        ExpressionView::NullLiteral(s) => s,
        ExpressionView::RegExpLiteral(r) => r.span,
        ExpressionView::TemplateLiteral(t) => t.span,
        ExpressionView::Identifier(i) => i.span,
        ExpressionView::This(s) => s,
        ExpressionView::Array(a) => a.span,
        ExpressionView::Object(o) => o.span,
        ExpressionView::Function(f) => f.span,
        ExpressionView::ArrowFunction(a) => a.span,
        ExpressionView::Class(c) => c.span,
        ExpressionView::Unary(u) => u.span,
        ExpressionView::Update(u) => u.span,
        ExpressionView::Binary(b) => b.span,
        ExpressionView::Logical(l) => l.span,
        ExpressionView::Conditional(c) => c.span,
        ExpressionView::Assignment(a) => a.span,
        ExpressionView::Sequence(s) => s.span,
        ExpressionView::Member(m) => m.span,
        ExpressionView::Call(c) => c.span,
        ExpressionView::New(n) => n.span,
        ExpressionView::TaggedTemplate(t) => t.span,
        ExpressionView::OptionalChain(o) => o.span,
        ExpressionView::Spread(s) => s.span,
        ExpressionView::Yield(y) => y.span,
        ExpressionView::Await(a) => a.span,
        ExpressionView::MetaProperty(m) => m.span,
        ExpressionView::Import(i) => i.span,
        ExpressionView::Super(s) => s,
    }
}

/// Get the range of an expression.
pub fn expr_span(expr: &Expression) -> (span: Span)
    ensures
        span == span_of(expr@),
{
    reveal(span_of);
    match expr {
        Expression::NumberLiteral(n) => n.span,
        Expression::BigIntLiteral(b) => b.span,
        Expression::StringLiteral(s) => s.span,
        Expression::BooleanLiteral(b) => b.span,
        Expression::NullLiteral(s) => *s,
        Expression::RegExpLiteral(r) => r.span,
        Expression::TemplateLiteral(t) => t.span,
        Expression::Identifier(i) => i.span,
        Expression::This(s) => *s,
        Expression::Array(a) => a.span,
        Expression::Object(o) => o.span,
        Expression::Function(f) => f.span,
        Expression::ArrowFunction(a) => a.span,
        Expression::Class(c) => c.span,
        Expression::Unary(u) => u.span,
        Expression::Update(u) => u.span,
        Expression::Binary(b) => b.span,
        Expression::Logical(l) => l.span,
        Expression::Conditional(c) => c.span,
        Expression::Assignment(a) => a.span,
        Expression::Sequence(s) => s.span,
        Expression::Member(m) => m.span,
        Expression::Call(c) => c.span,
        Expression::New(n) => n.span,
        Expression::TaggedTemplate(t) => t.span,
        Expression::OptionalChain(o) => o.span,
        Expression::Spread(s) => s.span,
        Expression::Yield(y) => y.span,
        Expression::Await(a) => a.span,
        Expression::MetaProperty(m) => m.span,
        Expression::Import(i) => i.span,
        Expression::Super(s) => *s,
    }
}

/// Where the body of an arrow function ends.
#[verifier::opaque]
pub open spec fn end_of_body(body: ArrowBodyView) -> u32 {
    match body {
        ArrowBodyView::Expression(e) => span_of(e).end,
        ArrowBodyView::Block(b) => b.span.end,
    }
}

/// Where the body of an arrow function ends.
pub(crate) fn arrow_body_end(body: &ArrowBody) -> (end: u32)
    ensures
        end == end_of_body(body@),
{
    reveal(end_of_body);
    match body {
        ArrowBody::Expression(e) => expr_span(e).end,
        ArrowBody::Block(b) => b.span.end,
    }
}

/// The element of an array pattern that an element of an array literal is read as, on the
/// left of an assignment. What is no plain target counts as a hole.
pub open spec fn target_element(element: Option<ExpressionView>) -> Option<PatternView> {
    match element {
        Some(ExpressionView::Identifier(id)) => Some(PatternView::Identifier(id)),
        Some(ExpressionView::Assignment(a)) => match a.left {
            AssignmentTargetView::Identifier(id) => Some(
                PatternView::Assignment(
                    Box::new(
                        AssignmentPatternView {
                            left: PatternView::Identifier(id),
                            right: a.right,
                            span: a.span,
                        },
                    ),
                ),
            ),
            _ => None,
        },
        Some(ExpressionView::Spread(s)) => match s.argument {
            ExpressionView::Identifier(id) => Some(
                PatternView::Rest(
                    Box::new(
                        RestElementView { argument: PatternView::Identifier(id), span: s.span },
                    ),
                ),
            ),
            _ => None,
        },
        _ => None,
    }
}

/// The elements of an array pattern that those of an array literal are read as.
pub open spec fn target_elements(elements: Seq<Option<ExpressionView>>) -> Seq<
    Option<PatternView>,
> {
    Seq::new(elements.len(), |i: int| target_element(elements[i]))
}

/// The property of an object pattern that a property of an object literal is read as, on
/// the left of an assignment. What is no name with a plain target is left out.
pub open spec fn target_property(property: ObjectPropertyView) -> Option<
    ObjectPatternPropertyView,
> {
    match property {
        ObjectPropertyView::Property(p) => match (p.value, plain_key(p.key)) {
            (ExpressionView::Identifier(id), Some(key)) => Some(
                ObjectPatternPropertyView::Property {
                    key: PropertyKeyView::Identifier(key),
                    value: PatternView::Identifier(id),
                    computed: false,
                    shorthand: p.shorthand,
                    span: p.span,
                },
            ),
            _ => None,
        },
        _ => None,
    }
}

/// The name that a property key is.
pub open spec fn plain_key(key: PropertyKeyView) -> Option<StringId> {
    match key {
        PropertyKeyView::Identifier(s) => Some(s),
        PropertyKeyView::StringLiteral(s) => Some(s),
        _ => None,
    }
}

/// The properties of an object pattern that the first properties of an object literal are
/// read as.
pub open spec fn target_properties(properties: Seq<ObjectPropertyView>, n: nat) -> Seq<
    ObjectPatternPropertyView,
>
    decreases n,
{
    if n == 0 {
        Seq::empty()
    } else {
        let before = target_properties(properties, (n - 1) as nat);
        match target_property(properties[n - 1]) {
            Some(p) => before.push(p),
            None => before,
        }
    }
}

/// The assignment target that an expression is read as.
pub open spec fn target_of(e: ExpressionView) -> Result<AssignmentTargetView, ErrorView> {
    match e {
        ExpressionView::Identifier(id) => Ok(AssignmentTargetView::Identifier(id)),
        ExpressionView::Member(m) => Ok(AssignmentTargetView::Member(m)),
        ExpressionView::Array(a) => Ok(
            AssignmentTargetView::Pattern(
                PatternView::Array(
                    ArrayPatternView { elements: target_elements(a.elements), span: a.span },
                ),
            ),
        ),
        ExpressionView::Object(o) => Ok(
            AssignmentTargetView::Pattern(
                PatternView::Object(
                    ObjectPatternView {
                        properties: target_properties(o.properties, o.properties.len()),
                        span: o.span,
                    },
                ),
            ),
        ),
        _ => Err(error::error_at("Invalid assignment target"@, span_of(e))),
    }
}

/// The parameter that an expression is read as.
pub open spec fn param_of(e: ExpressionView) -> Result<PatternView, ErrorView>
    decreases e, 0int,
{
    match e {
        ExpressionView::Identifier(id) => Ok(PatternView::Identifier(id)),
        ExpressionView::Assignment(a) => match a.left {
            AssignmentTargetView::Identifier(id) => Ok(
                default_pattern(PatternView::Identifier(id), a.right, a.span),
            ),
            AssignmentTargetView::Pattern(p) => Ok(default_pattern(p, a.right, a.span)),
            _ => Err(error::error_at("Invalid parameter"@, a.span)),
        },
        ExpressionView::Spread(s) => match param_of(s.argument) {
            Ok(argument) => Ok(
                PatternView::Rest(Box::new(RestElementView { argument, span: s.span })),
            ),
            Err(error) => Err(error),
        },
        ExpressionView::Array(a) => match param_elements(a.elements, 0, Seq::empty()) {
            Ok(elements) => Ok(PatternView::Array(ArrayPatternView { elements, span: a.span })),
            Err(error) => Err(error),
        },
        ExpressionView::Object(o) => match param_properties(o.properties, 0, Seq::empty()) {
            Ok(properties) => Ok(
                PatternView::Object(ObjectPatternView { properties, span: o.span }),
            ),
            Err(error) => Err(error),
        },
        _ => Err(error::error_at("Invalid parameter"@, span_of(e))),
    }
}

/// A pattern with a default value.
pub open spec fn default_pattern(
    left: PatternView,
    right: ExpressionView,
    span: Span,
) -> PatternView {
    PatternView::Assignment(Box::new(AssignmentPatternView { left, right, span }))
}

/// The elements of an array pattern that those of an array literal are read as, as
/// parameters, from a position on.
pub open spec fn param_elements(
    elements: Seq<Option<ExpressionView>>,
    i: int,
    read: Seq<Option<PatternView>>,
) -> Result<Seq<Option<PatternView>>, ErrorView>
    decreases elements, elements.len() - i,
{
    if i < 0 || i >= elements.len() {
        Ok(read)
    } else {
        match elements[i] {
            Some(e) => match param_of(e) {
                Ok(p) => param_elements(elements, i + 1, read.push(Some(p))),
                Err(error) => Err(error),
            },
            None => param_elements(elements, i + 1, read.push(None)),
        }
    }
}

/// The properties of an object pattern that those of an object literal are read as, as
/// parameters, from a position on.
pub open spec fn param_properties(
    properties: Seq<ObjectPropertyView>,
    i: int,
    read: Seq<ObjectPatternPropertyView>,
) -> Result<Seq<ObjectPatternPropertyView>, ErrorView>
    decreases properties, properties.len() - i,
{
    if i < 0 || i >= properties.len() {
        Ok(read)
    } else {
        match properties[i] {
            ObjectPropertyView::Property(p) => match param_of(p.value) {
                Ok(value) => param_properties(
                    properties,
                    i + 1,
                    read.push(
                        ObjectPatternPropertyView::Property {
                            key: p.key,
                            value,
                            computed: p.computed,
                            shorthand: p.shorthand,
                            span: p.span,
                        },
                    ),
                ),
                Err(error) => Err(error),
            },
            _ => param_properties(properties, i + 1, read),
        }
    }
}

/// The parameters that the expressions of a sequence are read as, from a position on.
pub open spec fn params_from(
    expressions: Seq<ExpressionView>,
    i: int,
    read: Seq<PatternView>,
) -> Result<Seq<PatternView>, ErrorView>
    decreases expressions.len() - i,
{
    if i < 0 || i >= expressions.len() {
        Ok(read)
    } else {
        match param_of(expressions[i]) {
            Ok(p) => params_from(expressions, i + 1, read.push(p)),
            Err(error) => Err(error),
        }
    }
}

/// The parameters that an expression in parentheses is read as.
pub open spec fn params_of(e: ExpressionView) -> Result<Seq<PatternView>, ErrorView> {
    match e {
        ExpressionView::Identifier(id) => Ok(seq![PatternView::Identifier(id)]),
        ExpressionView::Sequence(s) => params_from(s.expressions, 0, Seq::empty()),
        ExpressionView::Assignment(a) => match a.left {
            AssignmentTargetView::Identifier(id) => Ok(
                seq![default_pattern(PatternView::Identifier(id), a.right, a.span)],
            ),
            _ => Err(error::error_at("Invalid parameter"@, a.span)),
        },
        _ => match param_of(e) {
            Ok(p) => Ok(seq![p]),
            Err(error) => Err(error),
        },
    }
}

/// A plain name as a pattern.
pub open spec fn name_pattern(name: StringId, span: Span) -> PatternView {
    PatternView::Identifier(Identifier { name, span })
}

/// A pattern for all the rest.
pub open spec fn rest_of(argument: PatternView, span: Span) -> PatternView {
    PatternView::Rest(Box::new(RestElementView { argument, span }))
}

/// The name that a property key is, if it is written as one.
pub open spec fn name_of_key(key: PropertyKeyView) -> Option<StringId> {
    match key {
        PropertyKeyView::Identifier(id) => Some(id),
        _ => None,
    }
}

/// The name that a property key is, if it is written as one.
pub(crate) fn plain_name(key: &PropertyKey) -> (name: Option<StringId>)
    ensures
        name == name_of_key(key@),
{
    match key {
        PropertyKey::Identifier(id) => Some(*id),
        _ => None,
    }
}

/// A declaration of one binding on the left of a `for`-`in` or `for`-`of` loop.
pub open spec fn declared_left(
    kind: VarKind,
    id: PatternView,
    span: Span,
    whole: Span,
) -> ForInOfLeftView {
    ForInOfLeftView::Variable(
        VariableDeclarationView {
            kind,
            declarations: seq![VariableDeclaratorView { id, init: None, span }],
            span: whole,
        },
    )
}

/// A declaration of one binding on the left of a `for`-`in` or `for`-`of` loop.
pub(crate) fn for_variable(
    kind: VarKind,
    id: Pattern,
    span: Span,
    whole: Span,
) -> (left: ForInOfLeft)
    ensures
        left@ == declared_left(kind, id@, span, whole),
{
    let declarator = VariableDeclarator { id, init: None, span };
    let declarations: Vec<VariableDeclarator> = one_declarator(declarator);
    ForInOfLeft::Variable(VariableDeclaration { kind, declarations, span: whole })
}

/// An export declaration as a statement.
pub open spec fn export_of(export: ExportDeclarationView) -> StatementView {
    StatementView::Export(Box::new(export))
}

/// An export declaration as a statement.
pub(crate) fn export_statement(export: ExportDeclaration) -> (statement: Statement)
    ensures
        statement@ == export_of(export@),
{
    Statement::Export(Box::new(export))
}

/// A member access.
pub open spec fn member_of(
    object: ExpressionView,
    property: MemberPropertyView,
    computed: bool,
    span: Span,
) -> ExpressionView {
    ExpressionView::Member(Box::new(MemberExpressionView { object, property, computed, span }))
}

/// A member access.
pub(crate) fn member_expression(
    object: Expression,
    property: MemberProperty,
    computed: bool,
    span: Span,
) -> (expr: Expression)
    ensures
        expr@ == member_of(object@, property@, computed, span),
{
    Expression::Member(Box::new(MemberExpression { object, property, computed, span }))
}

/// A `throw` statement.
pub open spec fn throw_of(argument: ExpressionView, span: Span) -> StatementView {
    StatementView::Throw(ThrowStatementView { argument, span })
}

/// A `throw` statement.
pub(crate) fn throw_statement(argument: Expression, span: Span) -> (statement: Statement)
    ensures
        statement@ == throw_of(argument@, span),
{
    Statement::Throw(ThrowStatement { argument, span })
}

/// An increment or decrement behind its operand.
pub open spec fn postfix_of(
    operator: UpdateOperator,
    argument: ExpressionView,
    span: Span,
) -> ExpressionView {
    ExpressionView::Update(
        Box::new(UpdateExpressionView { operator, argument, prefix: false, span }),
    )
}

/// An increment or decrement behind its operand.
pub(crate) fn postfix_expression(
    operator: UpdateOperator,
    argument: Expression,
    span: Span,
) -> (expr: Expression)
    ensures
        expr@ == postfix_of(operator, argument@, span),
{
    Expression::Update(Box::new(UpdateExpression { operator, argument, prefix: false, span }))
}

/// A call.
pub open spec fn call_of(
    callee: ExpressionView,
    arguments: Seq<ExpressionView>,
    span: Span,
) -> ExpressionView {
    ExpressionView::Call(Box::new(CallExpressionView { callee, arguments, span }))
}

/// A call.
pub(crate) fn call_expression(
    callee: Expression,
    arguments: Vec<Expression>,
    span: Span,
) -> (expr: Expression)
    ensures
        expr@ == call_of(callee@, tree::expressions(arguments), span),
{
    Expression::Call(Box::new(CallExpression { callee, arguments, span }))
}

/// An optional chain.
pub open spec fn chain_of(
    base: ExpressionView,
    chain: Seq<OptionalChainElementView>,
    span: Span,
) -> ExpressionView {
    ExpressionView::OptionalChain(Box::new(OptionalChainExpressionView { base, chain, span }))
}

/// An optional chain.
pub(crate) fn chain_expression(
    base: Expression,
    chain: Vec<OptionalChainElement>,
    span: Span,
) -> (expr: Expression)
    ensures
        expr@ == chain_of(base@, tree::chain_elements(chain), span),
{
    Expression::OptionalChain(Box::new(OptionalChainExpression { base, chain, span }))
}

/// A tagged template.
pub open spec fn tagged_of(
    tag: ExpressionView,
    quasi: TemplateLiteralView,
    span: Span,
) -> ExpressionView {
    ExpressionView::TaggedTemplate(Box::new(TaggedTemplateExpressionView { tag, quasi, span }))
}

/// A tagged template.
pub(crate) fn tagged_expression(tag: Expression, quasi: TemplateLiteral, span: Span) -> (expr:
    Expression)
    ensures
        expr@ == tagged_of(tag@, quasi@, span),
{
    Expression::TaggedTemplate(Box::new(TaggedTemplateExpression { tag, quasi, span }))
}

/// A `yield` expression.
pub open spec fn yield_of(
    argument: Option<ExpressionView>,
    delegate: bool,
    span: Span,
) -> ExpressionView {
    ExpressionView::Yield(Box::new(YieldExpressionView { argument, delegate, span }))
}

/// A `yield` expression.
pub(crate) fn yield_expression(
    argument: Option<Expression>,
    delegate: bool,
    span: Span,
) -> (expr: Expression)
    ensures
        expr@ == yield_of(tree::optional_expression(argument), delegate, span),
{
    Expression::Yield(Box::new(YieldExpression { argument, delegate, span }))
}

/// The kind of a method that is no accessor.
pub open spec fn kind_of_method(constructor: bool) -> MethodKind {
    if constructor {
        MethodKind::Constructor
    } else {
        MethodKind::Method
    }
}

/// The kind of a method that is no accessor.
pub(crate) fn method_kind(constructor: bool) -> (kind: MethodKind)
    ensures
        kind == kind_of_method(constructor),
{
    if constructor {
        MethodKind::Constructor
    } else {
        MethodKind::Method
    }
}

/// A plain name as a pattern.
pub(crate) fn identifier_pattern(name: StringId, span: Span) -> (pattern: Pattern)
    ensures
        pattern@ == name_pattern(name, span),
{
    Pattern::Identifier(Identifier { name, span })
}

/// A pattern with a default value.
pub(crate) fn with_default(left: Pattern, right: Expression, span: Span) -> (pattern: Pattern)
    ensures
        pattern@ == default_pattern(left@, right@, span),
{
    Pattern::Assignment(Box::new(AssignmentPattern { left, right, span }))
}

/// A pattern for all the rest.
pub(crate) fn rest_pattern(argument: Pattern, span: Span) -> (pattern: Pattern)
    ensures
        pattern@ == rest_of(argument@, span),
{
    Pattern::Rest(Box::new(RestElement { argument, span }))
}

fn element_to_target(element: Option<Expression>) -> (target: Option<Pattern>)
    ensures
        tree::optional_pattern(target) == target_element(tree::optional_expression(element)),
{
    proof {
        reveal_with_fuel(tree::optional_expression, 3);
    }
    match element {
        Some(Expression::Identifier(id)) => Some(identifier_pattern(id.name, id.span)),
        Some(Expression::Assignment(a)) => {
            let a = *a;
            match a.left {
                AssignmentTarget::Identifier(id) => Some(
                    with_default(identifier_pattern(id.name, id.span), a.right, a.span),
                ),
                _ => None,
            }
        },
        Some(Expression::Spread(s)) => {
            let s = *s;
            match s.argument {
                Expression::Identifier(id) => Some(
                    rest_pattern(identifier_pattern(id.name, id.span), s.span),
                ),
                _ => None,
            }
        },
        _ => None,
    }
}

fn elements_to_targets(elements: Vec<Option<Expression>>) -> (targets: Vec<Option<Pattern>>)
    ensures
        tree::pattern_elements(targets) == target_elements(tree::elements(elements)),
{
    let ghost all = tree::elements(elements);
    let mut targets: Vec<Option<Pattern>> = no_pattern_elements();
    for element in it: elements
        invariant
            it.seq() == elements@,
            all == tree::elements(elements),
            tree::pattern_elements(targets) == target_elements(all).take(it.index()),
    {
        assert(all[it.index()] == tree::optional_expression(element));
        push_pattern_element(&mut targets, element_to_target(element));
        assert(tree::pattern_elements(targets) =~= target_elements(all).take(it.index() + 1));
    }
    assert(target_elements(all).take(all.len() as int) =~= target_elements(all));
    targets
}

fn property_to_target(property: ObjectProperty) -> (target: Option<ObjectPatternProperty>)
    ensures
        match target {
            Some(p) => target_property(property@) == Some(p@),
            None => target_property(property@) is None,
        },
{
    proof {
        reveal_with_fuel(ObjectProperty::view, 2);
        reveal_with_fuel(ObjectPatternProperty::view, 2);
    }
    match property {
        ObjectProperty::Property(p) => match p.value {
            Expression::Identifier(id) => match p.key {
                PropertyKey::Identifier(s) | PropertyKey::StringLiteral(s) => Some(
                    ObjectPatternProperty::Property {
                        key: PropertyKey::Identifier(s),
                        value: Pattern::Identifier(id),
                        computed: false,
                        shorthand: p.shorthand,
                        span: p.span,
                    },
                ),
                _ => None,
            },
            _ => None,
        },
        _ => None,
    }
}

fn properties_to_targets(properties: Vec<ObjectProperty>) -> (targets: Vec<ObjectPatternProperty>)
    ensures
        tree::pattern_properties(targets) == target_properties(
            tree::object_properties(properties),
            properties@.len(),
        ),
{
    let ghost all = tree::object_properties(properties);
    let mut targets: Vec<ObjectPatternProperty> = no_pattern_properties();
    for property in it: properties
        invariant
            it.seq() == properties@,
            all == tree::object_properties(properties),
            tree::pattern_properties(targets) == target_properties(all, it.index() as nat),
    {
        assert(all[it.index()] == property@);
        match property_to_target(property) {
            Some(target) => {
                push_pattern_property(&mut targets, target);
            },
            None => {},
        }
    }
    targets
}

/// Convert an expression to an assignment target.
pub(crate) fn expr_to_assignment_target(expr: Expression) -> (target: ParseResult<
    AssignmentTarget,
>)
    ensures
        target_of(expr@) == match target {
            Ok(t) => Ok(t@),
            Err(e) => Err(e@),
        },
{
    proof {
        reveal_with_fuel(AssignmentTarget::view, 2);
    }
    match expr {
        Expression::Identifier(id) => Ok(AssignmentTarget::Identifier(id)),
        Expression::Member(m) => Ok(AssignmentTarget::Member(m)),
        Expression::Array(arr) => Ok(
            AssignmentTarget::Pattern(
                Pattern::Array(
                    ArrayPattern { elements: elements_to_targets(arr.elements), span: arr.span },
                ),
            ),
        ),
        Expression::Object(obj) => Ok(
            AssignmentTarget::Pattern(
                Pattern::Object(
                    ObjectPattern {
                        properties: properties_to_targets(obj.properties),
                        span: obj.span,
                    },
                ),
            ),
        ),
        _ => {
            let span: Span = expr_span(&expr);
            Err(ParseError::new("Invalid assignment target", span))
        },
    }
}

/// Convert an expression to a parameter.
pub(crate) fn expr_to_param(expr: Expression) -> (param: ParseResult<Pattern>)
    ensures
        param_of(expr@) == match param {
            Ok(p) => Ok(p@),
            Err(e) => Err(e@),
        },
    decreases expr, 0int,
{
    proof {
        reveal_with_fuel(Expression::view, 2);
    }
    match expr {
        Expression::Identifier(id) => Ok(identifier_pattern(id.name, id.span)),
        Expression::Assignment(a) => {
            let a = *a;
            match a.left {
                AssignmentTarget::Identifier(id) => Ok(
                    with_default(identifier_pattern(id.name, id.span), a.right, a.span),
                ),
                AssignmentTarget::Pattern(p) => Ok(with_default(p, a.right, a.span)),
                _ => Err(ParseError::new("Invalid parameter", a.span)),
            }
        },
        Expression::Spread(s) => {
            let s = *s;
            let argument = expr_to_param(s.argument)?;
            Ok(rest_pattern(argument, s.span))
        },
        Expression::Array(a) => array_expr_to_pattern(a),
        Expression::Object(o) => object_expr_to_pattern(o),
        _ => {
            let span: Span = expr_span(&expr);
            Err(ParseError::new("Invalid parameter", span))
        },
    }
}

/// Convert an array literal to an array pattern.
fn array_expr_to_pattern(arr: ArrayExpression) -> (pattern: ParseResult<Pattern>)
    ensures
        match param_elements(tree::elements(arr.elements), 0, Seq::empty()) {
            Ok(elements) => pattern is Ok && pattern->Ok_0@ == PatternView::Array(
                ArrayPatternView { elements, span: arr.span },
            ),
            Err(e) => pattern is Err && pattern->Err_0@ == e,
        },
    decreases arr, 0int,
{
    let mut elements: Vec<Option<Pattern>> = no_pattern_elements();
    let list = arr.elements;
    let ghost all = tree::elements(list);
    for element in it: list
        invariant
            it.seq() == list@,
            list == arr.elements,
            all == tree::elements(list),
            param_elements(all, 0, Seq::empty()) == param_elements(
                all,
                it.index(),
                tree::pattern_elements(elements),
            ),
    {
        assert(all[it.index()] == tree::optional_expression(element));
        assert(decreases_to!(arr => list@[it.index()]));
        match element {
            Some(e) => {
                let param = expr_to_param(e)?;
                push_pattern_element(&mut elements, Some(param));
            },
            None => {
                push_pattern_element(&mut elements, None);
            },
        }
    }
    Ok(Pattern::Array(ArrayPattern { elements, span: arr.span }))
}

/// Convert an object literal to an object pattern.
fn object_expr_to_pattern(o: ObjectExpression) -> (pattern: ParseResult<Pattern>)
    ensures
        match param_properties(tree::object_properties(o.properties), 0, Seq::empty()) {
            Ok(properties) => pattern is Ok && pattern->Ok_0@ == PatternView::Object(
                ObjectPatternView { properties, span: o.span },
            ),
            Err(e) => pattern is Err && pattern->Err_0@ == e,
        },
    decreases o, 0int,
{
    let mut properties: Vec<ObjectPatternProperty> = no_pattern_properties();
    let list = o.properties;
    let ghost all = tree::object_properties(list);
    for property in it: list
        invariant
            it.seq() == list@,
            list == o.properties,
            all == tree::object_properties(list),
            param_properties(all, 0, Seq::empty()) == param_properties(
                all,
                it.index(),
                tree::pattern_properties(properties),
            ),
    {
        assert(all[it.index()] == property@);
        assert(decreases_to!(o => list@[it.index()]));
        match property {
            ObjectProperty::Property(p) => {
                let value = expr_to_param(p.value)?;
                let read = ObjectPatternProperty::Property {
                    key: p.key,
                    value,
                    computed: p.computed,
                    shorthand: p.shorthand,
                    span: p.span,
                };
                push_pattern_property(&mut properties, read);
            },
            _ => {},
        }
    }
    Ok(Pattern::Object(ObjectPattern { properties, span: o.span }))
}

/// Convert a parenthesized expression to arrow function params.
pub(crate) fn expr_to_params(expr: Expression) -> (params: ParseResult<Vec<Pattern>>)
    ensures
        params_of(expr@) == match params {
            Ok(p) => Ok(tree::patterns(p)),
            Err(e) => Err(e@),
        },
{
    proof {
        reveal_with_fuel(Expression::view, 2);
    }
    match expr {
        Expression::Identifier(id) => Ok(one_pattern(identifier_pattern(id.name, id.span))),
        Expression::Sequence(seq) => {
            let mut params: Vec<Pattern> = no_patterns();
            let list = seq.expressions;
            let ghost all = tree::expressions(list);
            for e in it: list
                invariant
                    it.seq() == list@,
                    all == tree::expressions(list),
                    params_of(expr@) == params_from(all, it.index(), tree::patterns(params)),
            {
                assert(all[it.index()] == e@);
                let param = expr_to_param(e)?;
                push_pattern(&mut params, param);
            }
            Ok(params)
        },
        Expression::Assignment(a) => {
            let a = *a;
            match a.left {
                AssignmentTarget::Identifier(id) => Ok(
                    one_pattern(
                        with_default(identifier_pattern(id.name, id.span), a.right, a.span),
                    ),
                ),
                _ => Err(ParseError::new("Invalid parameter", a.span)),
            }
        },
        other => {
            let param = expr_to_param(other)?;
            Ok(one_pattern(param))
        },
    }
}

} // verus!
