//! What the compiler asks of syntax trees.

use vstd::prelude::*;
use crate::ast::node::{
    AssignmentOperator, BinaryOperator, Expression, ForInOfLeft, ForInit, ForStatement,
    MemberProperty, MethodKind, ObjectPatternProperty, ObjectProperty, OptionalChainElement,
    Pattern, Property, PropertyKey, Statement, SwitchCase, TemplateElement, TemplateLiteral,
    UnaryOperator, VarKind, VariableDeclarator,
};
use crate::compiler::opcode::OpCode;
use crate::util::interner::StringId;

verus! {

/// Whether an expression is a function or class without a name of its own.
pub open spec fn anonymous_fn(expr: Expression) -> bool {
    match expr {
        Expression::Function(f) => f.id is None,
        Expression::ArrowFunction(_) => true,
        Expression::Class(c) => c.id is None,
        _ => false,
    }
}

/// Whether an expression is a function or class without a name of its own.
pub fn is_anonymous_fn_def(expr: &Expression) -> (result: bool)
    ensures
        result == anonymous_fn(*expr),
{
    match expr {
        Expression::Function(f) => f.id.is_none(),
        Expression::ArrowFunction(_) => true,
        Expression::Class(c) => c.id.is_none(),
        _ => false,
    }
}

/// Whether an assignment operator short-circuits.
pub open spec fn logical_assignment(operator: AssignmentOperator) -> bool {
    match operator {
        AssignmentOperator::AndAssign => true,
        AssignmentOperator::OrAssign => true,
        AssignmentOperator::NullishAssign => true,
        _ => false,
    }
}

/// Whether an assignment operator short-circuits.
pub fn is_logical_assignment(operator: AssignmentOperator) -> (result: bool)
    ensures
        result == logical_assignment(operator),
{
    match operator {
        AssignmentOperator::AndAssign => true,
        AssignmentOperator::OrAssign => true,
        AssignmentOperator::NullishAssign => true,
        _ => false,
    }
}

/// Whether an expression is `super`.
pub open spec fn super_expr(expr: Expression) -> bool {
    match expr {
        Expression::Super(_) => true,
        _ => false,
    }
}

/// Whether an expression is `super`.
pub fn is_super(expr: &Expression) -> (result: bool)
    ensures
        result == super_expr(*expr),
{
    match expr {
        Expression::Super(_) => true,
        _ => false,
    }
}

/// Whether an expression can be read as a pattern.
pub open spec fn pattern_expr(expr: Expression) -> bool
    decreases expr,
{
    match expr {
        Expression::Identifier(_) => true,
        Expression::Array(_) => true,
        Expression::Object(_) => true,
        Expression::Member(_) => true,
        Expression::Assignment(_) => true,
        Expression::Spread(s) => pattern_expr(s.argument),
        _ => false,
    }
}

/// Whether an expression can be read as a pattern.
pub fn is_pattern_expr(expr: &Expression) -> (result: bool)
    ensures
        result == pattern_expr(*expr),
    decreases expr,
{
    match expr {
        Expression::Identifier(_) => true,
        Expression::Array(_) => true,
        Expression::Object(_) => true,
        Expression::Member(_) => true,
        Expression::Assignment(_) => true,
        Expression::Spread(s) => is_pattern_expr(&s.argument),
        _ => false,
    }
}

/// Whether an argument is a spread.
pub open spec fn spread_arg(item: Expression) -> bool {
    match item {
        Expression::Spread(_) => true,
        _ => false,
    }
}

/// Whether an argument is a spread.
pub fn is_spread_arg(item: &Expression) -> (result: bool)
    ensures
        result == spread_arg(*item),
{
    match item {
        Expression::Spread(_) => true,
        _ => false,
    }
}

/// Whether an argument list holds a spread.
pub open spec fn any_spread(items: Seq<Expression>) -> bool {
    exists|i: int| 0 <= i < items.len() && spread_arg(#[trigger] items[i])
}

/// Whether an argument list holds a spread.
pub fn has_spread(items: &Vec<Expression>) -> (has: bool)
    ensures
        has == any_spread(items@),
{
    let mut i: usize = 0;
    while i < items.len()
        invariant
            i <= items@.len(),
            forall|j: int| 0 <= j < i ==> !(spread_arg(#[trigger] items@[j])),
        decreases items@.len() - i,
    {
        let item = &items[i];
        assert(items@[i as int] == item);
        if is_spread_arg(item) {
            return true;
        }
        i = i + 1;
    }
    false
}

/// Whether an element of an array pattern is a rest element.
pub open spec fn rest_element(item: Option<Pattern>) -> bool {
    match item {
        Some(Pattern::Rest(_)) => true,
        _ => false,
    }
}

/// Whether an element of an array pattern is a rest element.
pub fn is_rest_element(item: &Option<Pattern>) -> (result: bool)
    ensures
        result == rest_element(*item),
{
    match item {
        Some(Pattern::Rest(_)) => true,
        _ => false,
    }
}

/// Whether an array pattern has a rest element.
pub open spec fn array_rest(items: Seq<Option<Pattern>>) -> bool {
    exists|i: int| 0 <= i < items.len() && rest_element(#[trigger] items[i])
}

/// Whether an array pattern has a rest element.
pub fn has_array_rest(items: &Vec<Option<Pattern>>) -> (has: bool)
    ensures
        has == array_rest(items@),
{
    let mut i: usize = 0;
    while i < items.len()
        invariant
            i <= items@.len(),
            forall|j: int| 0 <= j < i ==> !(rest_element(#[trigger] items@[j])),
        decreases items@.len() - i,
    {
        let item = &items[i];
        assert(items@[i as int] == item);
        if is_rest_element(item) {
            return true;
        }
        i = i + 1;
    }
    false
}

/// Whether an element of an array expression is a spread that can be read as a rest
/// element.
pub open spec fn spread_pattern(item: Option<Expression>) -> bool {
    match item {
        Some(Expression::Spread(s)) => pattern_expr(s.argument),
        _ => false,
    }
}

fn is_spread_pattern(item: &Option<Expression>) -> (result: bool)
    ensures
        result == spread_pattern(*item),
{
    match item {
        Some(Expression::Spread(s)) => is_pattern_expr(&s.argument),
        _ => false,
    }
}

/// Whether an array expression, read as a pattern, has a rest element.
pub open spec fn spread_element(items: Seq<Option<Expression>>) -> bool {
    exists|i: int| 0 <= i < items.len() && spread_pattern(#[trigger] items[i])
}

/// Whether an array expression, read as a pattern, has a rest element.
pub fn has_spread_element(items: &Vec<Option<Expression>>) -> (has: bool)
    ensures
        has == spread_element(items@),
{
    let mut i: usize = 0;
    while i < items.len()
        invariant
            i <= items@.len(),
            forall|j: int| 0 <= j < i ==> !(spread_pattern(#[trigger] items@[j])),
        decreases items@.len() - i,
    {
        let item = &items[i];
        assert(items@[i as int] == item);
        if is_spread_pattern(item) {
            return true;
        }
        i = i + 1;
    }
    false
}

/// Whether a property of an object pattern is a rest element.
pub open spec fn rest_property(item: ObjectPatternProperty) -> bool {
    match item {
        ObjectPatternProperty::Rest(_) => true,
        _ => false,
    }
}

/// Whether a property of an object pattern is a rest element.
pub fn is_rest_property(item: &ObjectPatternProperty) -> (result: bool)
    ensures
        result == rest_property(*item),
{
    match item {
        ObjectPatternProperty::Rest(_) => true,
        _ => false,
    }
}

/// Whether an object pattern has a rest element.
pub open spec fn object_rest(items: Seq<ObjectPatternProperty>) -> bool {
    exists|i: int| 0 <= i < items.len() && rest_property(#[trigger] items[i])
}

/// Whether an object pattern has a rest element.
pub fn has_object_rest(items: &Vec<ObjectPatternProperty>) -> (has: bool)
    ensures
        has == object_rest(items@),
{
    let mut i: usize = 0;
    while i < items.len()
        invariant
            i <= items@.len(),
            forall|j: int| 0 <= j < i ==> !(rest_property(#[trigger] items@[j])),
        decreases items@.len() - i,
    {
        let item = &items[i];
        assert(items@[i as int] == item);
        if is_rest_property(item) {
            return true;
        }
        i = i + 1;
    }
    false
}

/// Whether a property of an object expression is a spread.
pub open spec fn spread_property(item: ObjectProperty) -> bool {
    match item {
        ObjectProperty::SpreadElement(_) => true,
        _ => false,
    }
}

/// Whether a property of an object expression is a spread.
pub fn is_spread_property(item: &ObjectProperty) -> (result: bool)
    ensures
        result == spread_property(*item),
{
    match item {
        ObjectProperty::SpreadElement(_) => true,
        _ => false,
    }
}

/// Whether an object expression has a spread.
pub open spec fn any_object_spread(items: Seq<ObjectProperty>) -> bool {
    exists|i: int| 0 <= i < items.len() && spread_property(#[trigger] items[i])
}

/// Whether an object expression has a spread.
pub fn has_any_spread(items: &Vec<ObjectProperty>) -> (has: bool)
    ensures
        has == any_object_spread(items@),
{
    let mut i: usize = 0;
    while i < items.len()
        invariant
            i <= items@.len(),
            forall|j: int| 0 <= j < i ==> !(spread_property(#[trigger] items@[j])),
        decreases items@.len() - i,
    {
        let item = &items[i];
        assert(items@[i as int] == item);
        if is_spread_property(item) {
            return true;
        }
        i = i + 1;
    }
    false
}

/// Whether a property of an object expression is a spread that can be read as a rest
/// element.
pub open spec fn spread_property_pattern(item: ObjectProperty) -> bool {
    match item {
        ObjectProperty::SpreadElement(s) => pattern_expr(s.argument),
        _ => false,
    }
}

fn is_spread_property_pattern(item: &ObjectProperty) -> (result: bool)
    ensures
        result == spread_property_pattern(*item),
{
    match item {
        ObjectProperty::SpreadElement(s) => is_pattern_expr(&s.argument),
        _ => false,
    }
}

/// Whether an object expression, read as a pattern, has a rest element.
pub open spec fn object_spread(items: Seq<ObjectProperty>) -> bool {
    exists|i: int| 0 <= i < items.len() && spread_property_pattern(#[trigger] items[i])
}

/// Whether an object expression, read as a pattern, has a rest element.
pub fn has_object_spread(items: &Vec<ObjectProperty>) -> (has: bool)
    ensures
        has == object_spread(items@),
{
    let mut i: usize = 0;
    while i < items.len()
        invariant
            i <= items@.len(),
            forall|j: int| 0 <= j < i ==> !(spread_property_pattern(#[trigger] items@[j])),
        decreases items@.len() - i,
    {
        let item = &items[i];
        assert(items@[i as int] == item);
        if is_spread_property_pattern(item) {
            return true;
        }
        i = i + 1;
    }
    false
}

/// The index at which argument `i` of a list with spreads is stored: unknown, which is
/// the largest one, behind the first spread.
pub open spec fn spread_at(items: Seq<Expression>, i: usize) -> u32 {
    if any_spread(items.take(i as int)) || i >= u32::MAX {
        u32::MAX
    } else {
        i as u32
    }
}

/// The index at which argument `i` of a list with spreads is stored.
pub fn spread_index(items: &Vec<Expression>, i: usize) -> (index: u32)
    requires
        i <= items@.len(),
    ensures
        index == spread_at(items@, i),
{
    let mut j: usize = 0;
    while j < i
        invariant
            j <= i <= items@.len(),
            forall|k: int| 0 <= k < j ==> !spread_arg(#[trigger] items@[k]),
        decreases i - j,
    {
        if is_spread_arg(&items[j]) {
            assert(spread_arg(items@.take(i as int)[j as int]));
            return u32::MAX;
        }
        j = j + 1;
    }
    assert(!any_spread(items@.take(i as int)));
    if i >= u32::MAX as usize {
        u32::MAX
    } else {
        i as u32
    }
}

/// The plain key of a property of an object pattern.
pub open spec fn excluded_name(item: ObjectPatternProperty) -> Option<StringId> {
    match item {
        ObjectPatternProperty::Property { key: PropertyKey::Identifier(name), .. } => Some(name),
        ObjectPatternProperty::Property { key: PropertyKey::StringLiteral(name), .. } => Some(name),
        _ => None,
    }
}

fn excluded_name_of(item: &ObjectPatternProperty) -> (name: Option<StringId>)
    ensures
        name == excluded_name(*item),
{
    match item {
        ObjectPatternProperty::Property { key: PropertyKey::Identifier(name), .. } => Some(*name),
        ObjectPatternProperty::Property {
            key: PropertyKey::StringLiteral(name),
            ..
        } => Some(*name),
        _ => None,
    }
}

/// The keys that a rest element of an object pattern leaves out.
pub open spec fn excluded_names(items: Seq<ObjectPatternProperty>) -> Seq<StringId>
    decreases items.len(),
{
    if items.len() == 0 {
        Seq::empty()
    } else {
        let rest = excluded_names(items.drop_last());
        match excluded_name(items.last()) {
            Some(name) => rest.push(name),
            None => rest,
        }
    }
}

/// The keys that a rest element of an object pattern leaves out.
pub fn collect_excluded(items: &Vec<ObjectPatternProperty>) -> (names: Vec<StringId>)
    ensures
        names@ == excluded_names(items@),
{
    let mut names: Vec<StringId> = Vec::new();
    let mut i: usize = 0;
    while i < items.len()
        invariant
            i <= items@.len(),
            names@ == excluded_names(items@.take(i as int)),
        decreases items@.len() - i,
    {
        assert(items@.take(i + 1).drop_last() =~= items@.take(i as int));
        match excluded_name_of(&items[i]) {
            Some(name) => {
                names.push(name);
            },
            None => {},
        }
        i = i + 1;
    }
    assert(items@.take(i as int) =~= items@);
    names
}

/// The plain key of a property of an object expression.
pub open spec fn excluded_key(item: ObjectProperty) -> Option<StringId> {
    match item {
        ObjectProperty::Property(Property { key: PropertyKey::Identifier(name), .. }) => Some(name),
        ObjectProperty::Property(
            Property { key: PropertyKey::StringLiteral(name), .. },
        ) => Some(name),
        _ => None,
    }
}

fn excluded_key_of(item: &ObjectProperty) -> (name: Option<StringId>)
    ensures
        name == excluded_key(*item),
{
    match item {
        ObjectProperty::Property(
            Property { key: PropertyKey::Identifier(name), .. },
        ) => Some(*name),
        ObjectProperty::Property(
            Property { key: PropertyKey::StringLiteral(name), .. },
        ) => Some(*name),
        _ => None,
    }
}

/// The keys that a rest element leaves out of an object expression read as a pattern.
pub open spec fn excluded_keys(items: Seq<ObjectProperty>) -> Seq<StringId>
    decreases items.len(),
{
    if items.len() == 0 {
        Seq::empty()
    } else {
        let rest = excluded_keys(items.drop_last());
        match excluded_key(items.last()) {
            Some(name) => rest.push(name),
            None => rest,
        }
    }
}

/// The keys that a rest element leaves out of an object expression read as a pattern.
pub fn collect_excluded_keys(items: &Vec<ObjectProperty>) -> (names: Vec<StringId>)
    ensures
        names@ == excluded_keys(items@),
{
    let mut names: Vec<StringId> = Vec::new();
    let mut i: usize = 0;
    while i < items.len()
        invariant
            i <= items@.len(),
            names@ == excluded_keys(items@.take(i as int)),
        decreases items@.len() - i,
    {
        assert(items@.take(i + 1).drop_last() =~= items@.take(i as int));
        match excluded_key_of(&items[i]) {
            Some(name) => {
                names.push(name);
            },
            None => {},
        }
        i = i + 1;
    }
    assert(items@.take(i as int) =~= items@);
    names
}

/// The number of names, as an operand.
pub fn name_count(names: &Vec<StringId>) -> (count: u8)
    ensures
        count == names@.len() as u8,
{
    names.len() as u8
}

/// The number of names, as an operand that saturates.
pub open spec fn clamped(names: Seq<StringId>) -> u8 {
    if names.len() > 255 {
        255
    } else {
        names.len() as u8
    }
}

/// The number of names, as an operand that saturates.
pub fn clamped_count(names: &Vec<StringId>) -> (count: u8)
    ensures
        count == clamped(names@),
{
    if names.len() > 255 {
        255
    } else {
        names.len() as u8
    }
}

/// The text of a template element: cooked where there is one.
pub open spec fn text_of_element(element: TemplateElement) -> StringId {
    match element.cooked {
        Some(text) => text,
        None => element.raw,
    }
}

/// The text of a template element: cooked where there is one.
pub fn element_text(element: &TemplateElement) -> (text: StringId)
    ensures
        text == text_of_element(*element),
{
    match element.cooked {
        Some(text) => text,
        None => element.raw,
    }
}

/// The number of texts and values of a tagged template, as an operand.
pub open spec fn tagged_total(quasi: TemplateLiteral) -> u8 {
    ((quasi.quasis@.len() as usize).wrapping_add(quasi.expressions@.len() as usize)) as u8
}

/// The number of texts and values of a tagged template, as an operand.
pub fn tagged_count(quasi: &TemplateLiteral) -> (count: u8)
    ensures
        count == tagged_total(*quasi),
{
    quasi.quasis.len().wrapping_add(quasi.expressions.len()) as u8
}

/// The property that link `i` of an optional chain calls, where that link is a plain call
/// right behind a named property.
pub open spec fn called_property(chain: Seq<OptionalChainElement>, i: int) -> Option<StringId> {
    if 0 < i < chain.len() {
        match chain[i] {
            OptionalChainElement::Call { optional: false, .. } => match chain[i - 1] {
                OptionalChainElement::Member { property: MemberProperty::Identifier(id), .. } =>
                    Some(id),
                _ => None,
            },
            _ => None,
        }
    } else {
        None
    }
}

/// The property that link `i` of an optional chain calls, if it is a plain call behind a
/// named property.
pub fn method_link(chain: &Vec<OptionalChainElement>, i: usize) -> (id: Option<StringId>)
    ensures
        id == called_property(chain@, i as int),
{
    if 0 < i && i < chain.len() {
        match &chain[i] {
            OptionalChainElement::Call { optional: false, .. } => match &chain[i - 1] {
                OptionalChainElement::Member { property: MemberProperty::Identifier(id), .. } =>
                    Some(*id),
                _ => None,
            },
            _ => None,
        }
    } else {
        None
    }
}

/// Whether the next link of an optional chain calls link `i` as a method.
pub fn links_method(chain: &Vec<OptionalChainElement>, i: usize) -> (links: bool)
    ensures
        links == (called_property(chain@, i + 1) is Some),
{
    assert(chain@.len() == chain.len());
    if i < chain.len() {
        method_link(chain, i + 1).is_some()
    } else {
        false
    }
}

/// The opcode of a binary operator.
pub open spec fn binary_op(operator: BinaryOperator) -> OpCode {
    match operator {
        BinaryOperator::Add => OpCode::Add,
        BinaryOperator::Sub => OpCode::Sub,
        BinaryOperator::Mul => OpCode::Mul,
        BinaryOperator::Div => OpCode::Div,
        BinaryOperator::Rem => OpCode::Rem,
        BinaryOperator::Exp => OpCode::Exp,
        BinaryOperator::EqEq => OpCode::Eq,
        BinaryOperator::NotEq => OpCode::Ne,
        BinaryOperator::StrictEq => OpCode::StrictEq,
        BinaryOperator::StrictNotEq => OpCode::StrictNe,
        BinaryOperator::Lt => OpCode::Lt,
        BinaryOperator::LtEq => OpCode::Le,
        BinaryOperator::Gt => OpCode::Gt,
        BinaryOperator::GtEq => OpCode::Ge,
        BinaryOperator::BitAnd => OpCode::BitAnd,
        BinaryOperator::BitOr => OpCode::BitOr,
        BinaryOperator::BitXor => OpCode::BitXor,
        BinaryOperator::Shl => OpCode::Shl,
        BinaryOperator::Shr => OpCode::Shr,
        BinaryOperator::UShr => OpCode::UShr,
        BinaryOperator::In => OpCode::In,
        BinaryOperator::InstanceOf => OpCode::InstanceOf,
    }
}

/// The opcode of a binary operator.
pub fn binary_opcode(operator: BinaryOperator) -> (result: OpCode)
    ensures
        result == binary_op(operator),
{
    match operator {
        BinaryOperator::Add => OpCode::Add,
        BinaryOperator::Sub => OpCode::Sub,
        BinaryOperator::Mul => OpCode::Mul,
        BinaryOperator::Div => OpCode::Div,
        BinaryOperator::Rem => OpCode::Rem,
        BinaryOperator::Exp => OpCode::Exp,
        BinaryOperator::EqEq => OpCode::Eq,
        BinaryOperator::NotEq => OpCode::Ne,
        BinaryOperator::StrictEq => OpCode::StrictEq,
        BinaryOperator::StrictNotEq => OpCode::StrictNe,
        BinaryOperator::Lt => OpCode::Lt,
        BinaryOperator::LtEq => OpCode::Le,
        BinaryOperator::Gt => OpCode::Gt,
        BinaryOperator::GtEq => OpCode::Ge,
        BinaryOperator::BitAnd => OpCode::BitAnd,
        BinaryOperator::BitOr => OpCode::BitOr,
        BinaryOperator::BitXor => OpCode::BitXor,
        BinaryOperator::Shl => OpCode::Shl,
        BinaryOperator::Shr => OpCode::Shr,
        BinaryOperator::UShr => OpCode::UShr,
        BinaryOperator::In => OpCode::In,
        BinaryOperator::InstanceOf => OpCode::InstanceOf,
    }
}

/// The opcode of a unary operator.
pub open spec fn unary_op(operator: UnaryOperator) -> OpCode {
    match operator {
        UnaryOperator::Minus => OpCode::Neg,
        UnaryOperator::Plus => OpCode::Pos,
        UnaryOperator::Not => OpCode::Not,
        UnaryOperator::BitNot => OpCode::BitNot,
        UnaryOperator::TypeOf => OpCode::TypeOf,
        UnaryOperator::Void => OpCode::Void,
        UnaryOperator::Delete => OpCode::Void,
    }
}

/// The opcode of a unary operator.
pub fn unary_opcode(operator: UnaryOperator) -> (result: OpCode)
    ensures
        result == unary_op(operator),
{
    match operator {
        UnaryOperator::Minus => OpCode::Neg,
        UnaryOperator::Plus => OpCode::Pos,
        UnaryOperator::Not => OpCode::Not,
        UnaryOperator::BitNot => OpCode::BitNot,
        UnaryOperator::TypeOf => OpCode::TypeOf,
        UnaryOperator::Void => OpCode::Void,
        UnaryOperator::Delete => OpCode::Void,
    }
}

/// The opcode of the operation in a compound assignment operator.
pub open spec fn compound_op(operator: AssignmentOperator) -> Option<OpCode> {
    match operator {
        AssignmentOperator::AddAssign => Some(OpCode::Add),
        AssignmentOperator::SubAssign => Some(OpCode::Sub),
        AssignmentOperator::MulAssign => Some(OpCode::Mul),
        AssignmentOperator::DivAssign => Some(OpCode::Div),
        AssignmentOperator::RemAssign => Some(OpCode::Rem),
        AssignmentOperator::ExpAssign => Some(OpCode::Exp),
        AssignmentOperator::BitAndAssign => Some(OpCode::BitAnd),
        AssignmentOperator::BitOrAssign => Some(OpCode::BitOr),
        AssignmentOperator::BitXorAssign => Some(OpCode::BitXor),
        AssignmentOperator::ShlAssign => Some(OpCode::Shl),
        AssignmentOperator::ShrAssign => Some(OpCode::Shr),
        AssignmentOperator::UShrAssign => Some(OpCode::UShr),
        _ => None,
    }
}

/// The opcode of the operation in a compound assignment operator.
pub fn compound_opcode(operator: AssignmentOperator) -> (result: Option<OpCode>)
    ensures
        result == compound_op(operator),
{
    match operator {
        AssignmentOperator::AddAssign => Some(OpCode::Add),
        AssignmentOperator::SubAssign => Some(OpCode::Sub),
        AssignmentOperator::MulAssign => Some(OpCode::Mul),
        AssignmentOperator::DivAssign => Some(OpCode::Div),
        AssignmentOperator::RemAssign => Some(OpCode::Rem),
        AssignmentOperator::ExpAssign => Some(OpCode::Exp),
        AssignmentOperator::BitAndAssign => Some(OpCode::BitAnd),
        AssignmentOperator::BitOrAssign => Some(OpCode::BitOr),
        AssignmentOperator::BitXorAssign => Some(OpCode::BitXor),
        AssignmentOperator::ShlAssign => Some(OpCode::Shl),
        AssignmentOperator::ShrAssign => Some(OpCode::Shr),
        AssignmentOperator::UShrAssign => Some(OpCode::UShr),
        _ => None,
    }
}

/// The opcode that defines a method with a key known at runtime only.
pub open spec fn method_op(kind: MethodKind) -> OpCode {
    match kind {
        MethodKind::Getter => OpCode::DefineGetter,
        MethodKind::Setter => OpCode::DefineSetter,
        _ => OpCode::DefineDataProp,
    }
}

/// The opcode that defines a method with a key known at runtime only.
pub fn method_opcode(kind: MethodKind) -> (result: OpCode)
    ensures
        result == method_op(kind),
{
    match kind {
        MethodKind::Getter => OpCode::DefineGetter,
        MethodKind::Setter => OpCode::DefineSetter,
        _ => OpCode::DefineDataProp,
    }
}

/// The opcode that defines a method with a known key.
pub open spec fn class_method_op(key: PropertyKey, is_static: bool) -> OpCode {
    if is_static {
        OpCode::ClassStaticMethod
    } else if key is Private {
        OpCode::ClassPrivateMethod
    } else {
        OpCode::ClassMethod
    }
}

/// The opcode that defines a method with a known key.
pub fn class_method_opcode(key: &PropertyKey, is_static: bool) -> (op: OpCode)
    ensures
        op == class_method_op(*key, is_static),
{
    if is_static {
        OpCode::ClassStaticMethod
    } else {
        match key {
            PropertyKey::Private(_) => OpCode::ClassPrivateMethod,
            _ => OpCode::ClassMethod,
        }
    }
}

/// Whether a class field needs its key computed at runtime.
pub open spec fn runtime_key(key: PropertyKey) -> bool {
    match key {
        PropertyKey::Computed(_) => true,
        PropertyKey::NumberLiteral(_) => true,
        _ => false,
    }
}

/// Whether a class field needs its key computed at runtime.
pub fn is_runtime_key(key: &PropertyKey) -> (result: bool)
    ensures
        result == runtime_key(*key),
{
    match key {
        PropertyKey::Computed(_) => true,
        PropertyKey::NumberLiteral(_) => true,
        _ => false,
    }
}

/// Whether the head of a for loop declares lexicals.
pub open spec fn lexical_head(f: ForStatement) -> bool {
    match f.init {
        Some(ForInit::Variable(decl)) => decl.kind != VarKind::Var,
        _ => false,
    }
}

/// Whether the head of a for loop declares lexicals.
pub fn for_needs_scope(f: &ForStatement) -> (needs: bool)
    ensures
        needs == lexical_head(*f),
{
    match &f.init {
        Some(ForInit::Variable(decl)) => decl.kind != VarKind::Var,
        _ => false,
    }
}

/// Whether a for-in or for-of head declares a `var`.
pub open spec fn var_head(left: ForInOfLeft) -> bool {
    match left {
        ForInOfLeft::Variable(decl) => decl.kind == VarKind::Var,
        _ => false,
    }
}

/// Whether a for-in or for-of head declares a `var`.
pub fn head_is_var(left: &ForInOfLeft) -> (result: bool)
    ensures
        result == var_head(*left),
{
    match left {
        ForInOfLeft::Variable(decl) => decl.kind == VarKind::Var,
        _ => false,
    }
}

/// Whether a for-in or for-of head declares a `const`.
pub open spec fn const_head(left: ForInOfLeft) -> bool {
    match left {
        ForInOfLeft::Variable(decl) => decl.kind == VarKind::Const,
        _ => false,
    }
}

/// Whether a for-in or for-of head declares a `const`.
pub fn head_is_const(left: &ForInOfLeft) -> (result: bool)
    ensures
        result == const_head(*left),
{
    match left {
        ForInOfLeft::Variable(decl) => decl.kind == VarKind::Const,
        _ => false,
    }
}

/// Whether a for-in head is an identifier without a declaration.
pub open spec fn bare_head(left: ForInOfLeft) -> bool {
    match left {
        ForInOfLeft::Pattern(Pattern::Identifier(_)) => true,
        _ => false,
    }
}

/// Whether a for-in head is an identifier without a declaration.
pub fn head_is_bare(left: &ForInOfLeft) -> (result: bool)
    ensures
        result == bare_head(*left),
{
    match left {
        ForInOfLeft::Pattern(Pattern::Identifier(_)) => true,
        _ => false,
    }
}

/// The identifier of a pattern that is just an identifier.
pub open spec fn plain_name(pat: Pattern) -> Option<StringId> {
    match pat {
        Pattern::Identifier(id) => Some(id.name),
        _ => None,
    }
}

/// The identifier of a pattern that is just an identifier.
pub fn plain_pattern_name(pat: &Pattern) -> (result: Option<StringId>)
    ensures
        result == plain_name(*pat),
{
    match pat {
        Pattern::Identifier(id) => Some(id.name),
        _ => None,
    }
}

/// The single name that a for-in head binds or assigns.
pub open spec fn name_of_head(left: ForInOfLeft) -> Option<StringId> {
    match left {
        ForInOfLeft::Variable(decl) => if decl.declarations@.len() > 0 {
            plain_name(decl.declarations@[0].id)
        } else {
            None
        },
        ForInOfLeft::Pattern(p) => plain_name(p),
        _ => None,
    }
}

/// The single name that a for-in head binds or assigns.
pub fn head_name(left: &ForInOfLeft) -> (name: Option<StringId>)
    ensures
        name == name_of_head(*left),
{
    match left {
        ForInOfLeft::Variable(decl) => {
            if decl.declarations.len() > 0 {
                plain_pattern_name(&decl.declarations[0].id)
            } else {
                None
            }
        },
        ForInOfLeft::Pattern(p) => plain_pattern_name(p),
        _ => None,
    }
}

/// Whether a declaration in a for-of head gets a fresh binding per iteration: a lexical that
/// is a plain identifier.
pub open spec fn fresh_declaration(kind: VarKind, declarations: Seq<VariableDeclarator>) -> bool {
    kind != VarKind::Var && declarations.len() > 0 && plain_name(declarations[0].id) is Some
}

/// Whether a for-of head gets a fresh binding per iteration.
pub open spec fn fresh_head(left: ForInOfLeft) -> bool {
    match left {
        ForInOfLeft::Variable(decl) => fresh_declaration(decl.kind, decl.declarations@),
        _ => false,
    }
}

/// Whether a for-of head gets a fresh binding per iteration.
pub fn head_is_fresh(left: &ForInOfLeft) -> (fresh: bool)
    ensures
        fresh == fresh_head(*left),
{
    match left {
        ForInOfLeft::Variable(decl) => decl.kind != VarKind::Var && decl.declarations.len() > 0
            && plain_pattern_name(&decl.declarations[0].id).is_some(),
        _ => false,
    }
}

/// Whether a statement adopts the label before it.
pub open spec fn adopts_label(item: Statement) -> bool {
    match item {
        Statement::For(_) => true,
        Statement::While(_) => true,
        Statement::DoWhile(_) => true,
        Statement::ForIn(_) => true,
        Statement::ForOf(_) => true,
        Statement::Labeled(_) => true,
        _ => false,
    }
}

/// Whether a statement adopts the label before it.
pub fn is_loop_statement(item: &Statement) -> (result: bool)
    ensures
        result == adopts_label(*item),
{
    match item {
        Statement::For(_) => true,
        Statement::While(_) => true,
        Statement::DoWhile(_) => true,
        Statement::ForIn(_) => true,
        Statement::ForOf(_) => true,
        Statement::Labeled(_) => true,
        _ => false,
    }
}

/// The number of the first `n` cases that have a test.
pub open spec fn tested_cases(cases: Seq<SwitchCase>, n: nat) -> nat
    decreases n,
{
    if n == 0 {
        0
    } else {
        tested_cases(cases, (n - 1) as nat) + if cases[n - 1].test is Some {
            1nat
        } else {
            0nat
        }
    }
}

/// The number of cases before case `i` that have a test.
pub fn tests_before(cases: &Vec<SwitchCase>, i: usize) -> (count: usize)
    requires
        i <= cases@.len(),
    ensures
        count == tested_cases(cases@, i as nat) as usize,
        count <= i,
{
    let mut count: usize = 0;
    let mut j: usize = 0;
    while j < i
        invariant
            j <= i <= cases@.len(),
            count <= j,
            count == tested_cases(cases@, j as nat),
        decreases i - j,
    {
        if cases[j].test.is_some() {
            count = count + 1;
        }
        j = j + 1;
    }
    count
}

/// The last of the first `n` cases that has no test.
pub open spec fn untested_case(cases: Seq<SwitchCase>, n: nat) -> Option<usize>
    decreases n,
{
    if n == 0 {
        None
    } else if cases[n - 1].test is None {
        Some((n - 1) as usize)
    } else {
        untested_case(cases, (n - 1) as nat)
    }
}

/// The default case of a switch.
pub fn default_case(cases: &Vec<SwitchCase>) -> (at: Option<usize>)
    ensures
        at == untested_case(cases@, cases@.len()),
{
    let mut i: usize = cases.len();
    while i > 0
        invariant
            i <= cases@.len(),
            untested_case(cases@, cases@.len()) == untested_case(cases@, i as nat),
        decreases i,
    {
        i = i - 1;
        if cases[i].test.is_none() {
            return Some(i);
        }
    }
    None
}

/// The name of the local that a parameter becomes, unless it needs a placeholder.
pub open spec fn name_of_param(param: Pattern) -> Option<StringId> {
    match param {
        Pattern::Identifier(id) => Some(id.name),
        Pattern::Assignment(a) => plain_name(a.left),
        Pattern::Rest(r) => plain_name(r.argument),
        _ => None,
    }
}

/// The name of the local that a parameter becomes, unless it needs a placeholder.
pub fn param_name(param: &Pattern) -> (name: Option<StringId>)
    ensures
        name == name_of_param(*param),
{
    match param {
        Pattern::Identifier(id) => Some(id.name),
        Pattern::Assignment(a) => plain_pattern_name(&a.left),
        Pattern::Rest(r) => plain_pattern_name(&r.argument),
        _ => None,
    }
}

/// Whether a parameter has a default, is a rest parameter or a destructuring pattern.
pub open spec fn param_expr(item: Pattern) -> bool {
    match item {
        Pattern::Assignment(_) => true,
        Pattern::Array(_) => true,
        Pattern::Object(_) => true,
        Pattern::Rest(_) => true,
        _ => false,
    }
}

/// Whether a parameter has a default, is a rest parameter or a destructuring pattern.
pub fn is_param_expr(item: &Pattern) -> (result: bool)
    ensures
        result == param_expr(*item),
{
    match item {
        Pattern::Assignment(_) => true,
        Pattern::Array(_) => true,
        Pattern::Object(_) => true,
        Pattern::Rest(_) => true,
        _ => false,
    }
}

/// Whether a parameter list has defaults, a rest parameter or destructuring patterns.
pub open spec fn param_exprs(items: Seq<Pattern>) -> bool {
    exists|i: int| 0 <= i < items.len() && param_expr(#[trigger] items[i])
}

/// Whether a parameter list has defaults, a rest parameter or destructuring patterns.
pub fn has_param_exprs(items: &Vec<Pattern>) -> (has: bool)
    ensures
        has == param_exprs(items@),
{
    let mut i: usize = 0;
    while i < items.len()
        invariant
            i <= items@.len(),
            forall|j: int| 0 <= j < i ==> !(param_expr(#[trigger] items@[j])),
        decreases items@.len() - i,
    {
        let item = &items[i];
        assert(items@[i as int] == item);
        if is_param_expr(item) {
            return true;
        }
        i = i + 1;
    }
    false
}

/// The number of parameters before the first default or rest parameter among the
/// parameters from `i` on.
pub open spec fn formals_from(params: Seq<Pattern>, i: nat) -> nat
    decreases params.len() - i,
{
    if i >= params.len() {
        0
    } else {
        match params[i as int] {
            Pattern::Assignment(_) => 0,
            Pattern::Rest(_) => 0,
            _ => 1 + formals_from(params, i + 1),
        }
    }
}

/// The `length` of a function with these parameters.
pub fn formal_length(params: &Vec<Pattern>) -> (length: u16)
    ensures
        length == formals_from(params@, 0) as u16,
{
    let mut i: usize = 0;
    while i < params.len()
        invariant
            i <= params@.len(),
            formals_from(params@, 0) == i + formals_from(params@, i as nat),
        decreases params@.len() - i,
    {
        match &params[i] {
            Pattern::Assignment(_) => {
                return i as u16;
            },
            Pattern::Rest(_) => {
                return i as u16;
            },
            _ => {},
        }
        i = i + 1;
    }
    i as u16
}

/// Whether a statement declares lexicals by `let` or `const`.
pub open spec fn lexical_statement(item: Statement) -> bool {
    match item {
        Statement::Variable(decl) => decl.kind != VarKind::Var,
        _ => false,
    }
}

/// Whether a statement declares lexicals by `let` or `const`.
pub fn is_lexical_statement(item: &Statement) -> (result: bool)
    ensures
        result == lexical_statement(*item),
{
    match item {
        Statement::Variable(decl) => decl.kind != VarKind::Var,
        _ => false,
    }
}

/// Whether a body declares lexicals at its top level.
pub open spec fn top_level_lex(items: Seq<Statement>) -> bool {
    exists|i: int| 0 <= i < items.len() && lexical_statement(#[trigger] items[i])
}

/// Whether a body declares lexicals at its top level.
pub fn has_top_level_lex(items: &Vec<Statement>) -> (has: bool)
    ensures
        has == top_level_lex(items@),
{
    let mut i: usize = 0;
    while i < items.len()
        invariant
            i <= items@.len(),
            forall|j: int| 0 <= j < i ==> !(lexical_statement(#[trigger] items@[j])),
        decreases items@.len() - i,
    {
        let item = &items[i];
        assert(items@[i as int] == item);
        if is_lexical_statement(item) {
            return true;
        }
        i = i + 1;
    }
    false
}

/// Whether a statement is a function declaration with a name.
pub open spec fn named_function(item: Statement) -> bool {
    match item {
        Statement::Function(f) => f.id is Some,
        _ => false,
    }
}

/// Whether a statement is a function declaration with a name.
pub fn is_named_function(item: &Statement) -> (result: bool)
    ensures
        result == named_function(*item),
{
    match item {
        Statement::Function(f) => f.id.is_some(),
        _ => false,
    }
}

/// Whether a body declares functions at its top level.
pub open spec fn fn_decls(items: Seq<Statement>) -> bool {
    exists|i: int| 0 <= i < items.len() && named_function(#[trigger] items[i])
}

/// Whether a body declares functions at its top level.
pub fn has_fn_decls(items: &Vec<Statement>) -> (has: bool)
    ensures
        has == fn_decls(items@),
{
    let mut i: usize = 0;
    while i < items.len()
        invariant
            i <= items@.len(),
            forall|j: int| 0 <= j < i ==> !(named_function(#[trigger] items@[j])),
        decreases items@.len() - i,
    {
        let item = &items[i];
        assert(items@[i as int] == item);
        if is_named_function(item) {
            return true;
        }
        i = i + 1;
    }
    false
}

/// Whether a declarator binds more than an identifier.
pub open spec fn pattern_declarator(item: VariableDeclarator) -> bool {
    plain_name(item.id) is None
}

fn is_pattern_declarator(item: &VariableDeclarator) -> (result: bool)
    ensures
        result == pattern_declarator(*item),
{
    plain_pattern_name(&item.id).is_none()
}

/// Whether a declaration destructures.
pub open spec fn pattern_declarators(items: Seq<VariableDeclarator>) -> bool {
    exists|i: int| 0 <= i < items.len() && pattern_declarator(#[trigger] items[i])
}

/// Whether a declaration destructures.
pub fn has_pattern_declarator(items: &Vec<VariableDeclarator>) -> (has: bool)
    ensures
        has == pattern_declarators(items@),
{
    let mut i: usize = 0;
    while i < items.len()
        invariant
            i <= items@.len(),
            forall|j: int| 0 <= j < i ==> !(pattern_declarator(#[trigger] items@[j])),
        decreases items@.len() - i,
    {
        let item = &items[i];
        assert(items@[i as int] == item);
        if is_pattern_declarator(item) {
            return true;
        }
        i = i + 1;
    }
    false
}

/// Whether a statement declares lexicals by destructuring.
pub open spec fn lexical_pattern(item: Statement) -> bool {
    match item {
        Statement::Variable(decl) => decl.kind != VarKind::Var && pattern_declarators(
            decl.declarations@,
        ),
        _ => false,
    }
}

fn is_lexical_pattern(item: &Statement) -> (result: bool)
    ensures
        result == lexical_pattern(*item),
{
    match item {
        Statement::Variable(decl) => decl.kind != VarKind::Var && has_pattern_declarator(
            &decl.declarations,
        ),
        _ => false,
    }
}

/// Whether a body declares lexicals by destructuring at its top level.
pub open spec fn lexical_patterns(items: Seq<Statement>) -> bool {
    exists|i: int| 0 <= i < items.len() && lexical_pattern(#[trigger] items[i])
}

/// Whether a body declares lexicals by destructuring at its top level.
pub fn has_lexical_pattern(items: &Vec<Statement>) -> (has: bool)
    ensures
        has == lexical_patterns(items@),
{
    let mut i: usize = 0;
    while i < items.len()
        invariant
            i <= items@.len(),
            forall|j: int| 0 <= j < i ==> !(lexical_pattern(#[trigger] items@[j])),
        decreases items@.len() - i,
    {
        let item = &items[i];
        assert(items@[i as int] == item);
        if is_lexical_pattern(item) {
            return true;
        }
        i = i + 1;
    }
    false
}

/// Whether the function declarations of a body are hoisted: not if it declares lexicals by
/// destructuring, nor if it declares lexicals but no functions.
pub open spec fn hoisting(stmts: Seq<Statement>) -> bool {
    !top_level_lex(stmts) || (!lexical_patterns(stmts) && fn_decls(stmts))
}

/// Whether the function declarations of a body are hoisted.
pub fn hoists_functions(stmts: &Vec<Statement>) -> (hoists: bool)
    ensures
        hoists == hoisting(stmts@),
{
    !has_top_level_lex(stmts) || (!has_lexical_pattern(stmts) && has_fn_decls(stmts))
}

/// Whether a parameter list binds a name by a plain identifier.
pub open spec fn binds_plainly(params: Seq<Pattern>, name: StringId) -> bool {
    exists|i: int| 0 <= i < params.len() && plain_name(#[trigger] params[i]) == Some(name)
}

/// Whether a parameter list binds a name by a plain identifier.
pub fn binds_param(params: &Vec<Pattern>, name: StringId) -> (binds: bool)
    ensures
        binds == binds_plainly(params@, name),
{
    let mut i: usize = 0;
    while i < params.len()
        invariant
            i <= params@.len(),
            forall|j: int| 0 <= j < i ==> plain_name(#[trigger] params@[j]) != Some(name),
        decreases params@.len() - i,
    {
        match plain_pattern_name(&params[i]) {
            Some(found) => {
                if found == name {
                    assert(plain_name(params@[i as int]) == Some(name));
                    return true;
                }
            },
            None => {},
        }
        i = i + 1;
    }
    false
}

/// Whether a function declaration with a name would hide the `arguments` object, which
/// stays visible unless a plain parameter has taken its name.
pub open spec fn hides(name: StringId, arguments_id: StringId, params: Seq<Pattern>) -> bool {
    name == arguments_id && (param_exprs(params) || !binds_plainly(params, arguments_id))
}

/// Whether a function declaration with a name would hide the `arguments` object.
pub fn hides_arguments(name: StringId, arguments_id: StringId, params: &Vec<Pattern>) -> (result:
    bool)
    ensures
        result == hides(name, arguments_id, params@),
{
    name == arguments_id && (has_param_exprs(params) || !binds_param(params, arguments_id))
}

} // verus!
