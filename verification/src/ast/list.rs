//! Lists of syntax tree nodes.

use vstd::prelude::*;
use crate::ast::node::{
    ClassMember, Expression, ObjectPatternProperty, ObjectProperty, OptionalChainElement, Pattern,
    Statement, SwitchCase, VariableDeclarator,
};
use crate::ast::tree;

verus! {

/// An empty list.
pub fn no_statements() -> (list: Vec<Statement>)
    ensures
        tree::statements(list) == Seq::<tree::StatementView>::empty(),
{
    let list: Vec<Statement> = Vec::new();
    assert(tree::statements(list) =~= Seq::empty());
    list
}

/// Append a node to a list.
pub fn push_statement(list: &mut Vec<Statement>, node: Statement)
    ensures
        tree::statements(*final(list)) == tree::statements(*old(list)).push(node@),
{
    list.push(node);
    assert(tree::statements(*list) =~= tree::statements(*old(list)).push(node@));
}

/// An empty list.
pub fn no_switch_cases() -> (list: Vec<SwitchCase>)
    ensures
        tree::switch_cases(list) == Seq::<tree::SwitchCaseView>::empty(),
{
    let list: Vec<SwitchCase> = Vec::new();
    assert(tree::switch_cases(list) =~= Seq::empty());
    list
}

/// Append a node to a list.
pub fn push_switch_case(list: &mut Vec<SwitchCase>, node: SwitchCase)
    ensures
        tree::switch_cases(*final(list)) == tree::switch_cases(*old(list)).push(node@),
{
    list.push(node);
    assert(tree::switch_cases(*list) =~= tree::switch_cases(*old(list)).push(node@));
}

/// An empty list.
pub fn no_declarators() -> (list: Vec<VariableDeclarator>)
    ensures
        tree::declarators(list) == Seq::<tree::VariableDeclaratorView>::empty(),
{
    let list: Vec<VariableDeclarator> = Vec::new();
    assert(tree::declarators(list) =~= Seq::empty());
    list
}

/// Append a node to a list.
pub fn push_declarator(list: &mut Vec<VariableDeclarator>, node: VariableDeclarator)
    ensures
        tree::declarators(*final(list)) == tree::declarators(*old(list)).push(node@),
{
    list.push(node);
    assert(tree::declarators(*list) =~= tree::declarators(*old(list)).push(node@));
}

/// A list of one node.
pub fn one_declarator(node: VariableDeclarator) -> (list: Vec<VariableDeclarator>)
    ensures
        tree::declarators(list) == seq![node@],
{
    let mut list: Vec<VariableDeclarator> = no_declarators();
    push_declarator(&mut list, node);
    assert(tree::declarators(list) =~= seq![node@]);
    list
}

/// An empty list.
pub fn no_patterns() -> (list: Vec<Pattern>)
    ensures
        tree::patterns(list) == Seq::<tree::PatternView>::empty(),
{
    let list: Vec<Pattern> = Vec::new();
    assert(tree::patterns(list) =~= Seq::empty());
    list
}

/// Append a node to a list.
pub fn push_pattern(list: &mut Vec<Pattern>, node: Pattern)
    ensures
        tree::patterns(*final(list)) == tree::patterns(*old(list)).push(node@),
{
    list.push(node);
    assert(tree::patterns(*list) =~= tree::patterns(*old(list)).push(node@));
}

/// A list of one node.
pub fn one_pattern(node: Pattern) -> (list: Vec<Pattern>)
    ensures
        tree::patterns(list) == seq![node@],
{
    let mut list: Vec<Pattern> = no_patterns();
    push_pattern(&mut list, node);
    assert(tree::patterns(list) =~= seq![node@]);
    list
}

/// An empty list.
pub fn no_class_members() -> (list: Vec<ClassMember>)
    ensures
        tree::class_members(list) == Seq::<tree::ClassMemberView>::empty(),
{
    let list: Vec<ClassMember> = Vec::new();
    assert(tree::class_members(list) =~= Seq::empty());
    list
}

/// Append a node to a list.
pub fn push_class_member(list: &mut Vec<ClassMember>, node: ClassMember)
    ensures
        tree::class_members(*final(list)) == tree::class_members(*old(list)).push(node@),
{
    list.push(node);
    assert(tree::class_members(*list) =~= tree::class_members(*old(list)).push(node@));
}

/// An empty list.
pub fn no_expressions() -> (list: Vec<Expression>)
    ensures
        tree::expressions(list) == Seq::<tree::ExpressionView>::empty(),
{
    let list: Vec<Expression> = Vec::new();
    assert(tree::expressions(list) =~= Seq::empty());
    list
}

/// Append a node to a list.
pub fn push_expression(list: &mut Vec<Expression>, node: Expression)
    ensures
        tree::expressions(*final(list)) == tree::expressions(*old(list)).push(node@),
{
    list.push(node);
    assert(tree::expressions(*list) =~= tree::expressions(*old(list)).push(node@));
}

/// An empty list.
pub fn no_elements() -> (list: Vec<Option<Expression>>)
    ensures
        tree::elements(list) == Seq::<Option<tree::ExpressionView>>::empty(),
{
    let list: Vec<Option<Expression>> = Vec::new();
    assert(tree::elements(list) =~= Seq::empty());
    list
}

/// Append a node to a list.
pub fn push_element(list: &mut Vec<Option<Expression>>, node: Option<Expression>)
    ensures
        tree::elements(*final(list)) == tree::elements(*old(list)).push(
            tree::optional_expression(node),
        ),
{
    list.push(node);
    assert(
        tree::elements(*list) =~= tree::elements(*old(list)).push(tree::optional_expression(node))
    );
}

/// An empty list.
pub fn no_object_properties() -> (list: Vec<ObjectProperty>)
    ensures
        tree::object_properties(list) == Seq::<tree::ObjectPropertyView>::empty(),
{
    let list: Vec<ObjectProperty> = Vec::new();
    assert(tree::object_properties(list) =~= Seq::empty());
    list
}

/// Append a node to a list.
pub fn push_object_property(list: &mut Vec<ObjectProperty>, node: ObjectProperty)
    ensures
        tree::object_properties(*final(list)) == tree::object_properties(*old(list)).push(node@),
{
    list.push(node);
    assert(tree::object_properties(*list) =~= tree::object_properties(*old(list)).push(node@));
}

/// An empty list.
pub fn no_chain_elements() -> (list: Vec<OptionalChainElement>)
    ensures
        tree::chain_elements(list) == Seq::<tree::OptionalChainElementView>::empty(),
{
    let list: Vec<OptionalChainElement> = Vec::new();
    assert(tree::chain_elements(list) =~= Seq::empty());
    list
}

/// Append a node to a list.
pub fn push_chain_element(list: &mut Vec<OptionalChainElement>, node: OptionalChainElement)
    ensures
        tree::chain_elements(*final(list)) == tree::chain_elements(*old(list)).push(node@),
{
    list.push(node);
    assert(tree::chain_elements(*list) =~= tree::chain_elements(*old(list)).push(node@));
}

/// An empty list.
pub fn no_pattern_elements() -> (list: Vec<Option<Pattern>>)
    ensures
        tree::pattern_elements(list) == Seq::<Option<tree::PatternView>>::empty(),
{
    let list: Vec<Option<Pattern>> = Vec::new();
    assert(tree::pattern_elements(list) =~= Seq::empty());
    list
}

/// Append a node to a list.
pub fn push_pattern_element(list: &mut Vec<Option<Pattern>>, node: Option<Pattern>)
    ensures
        tree::pattern_elements(*final(list)) == tree::pattern_elements(*old(list)).push(
            tree::optional_pattern(node),
        ),
{
    list.push(node);
    assert(
        tree::pattern_elements(*list) =~= tree::pattern_elements(*old(list)).push(
            tree::optional_pattern(node),
        )
    );
}

/// An empty list.
pub fn no_pattern_properties() -> (list: Vec<ObjectPatternProperty>)
    ensures
        tree::pattern_properties(list) == Seq::<tree::ObjectPatternPropertyView>::empty(),
{
    let list: Vec<ObjectPatternProperty> = Vec::new();
    assert(tree::pattern_properties(list) =~= Seq::empty());
    list
}

/// Append a node to a list.
pub fn push_pattern_property(list: &mut Vec<ObjectPatternProperty>, node: ObjectPatternProperty)
    ensures
        tree::pattern_properties(*final(list)) == tree::pattern_properties(*old(list)).push(node@),
{
    list.push(node);
    assert(tree::pattern_properties(*list) =~= tree::pattern_properties(*old(list)).push(node@));
}

} // verus!
