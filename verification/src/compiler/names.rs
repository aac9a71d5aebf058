//! The names that patterns and declarations bind.

use vstd::prelude::*;
use crate::compiler::shape;
use crate::ast::node::{
    ForInOfLeft, ForInit, ObjectPatternProperty, Pattern, Statement, SwitchCase, VarKind,
    VariableDeclaration, VariableDeclarator,
};
use crate::compiler::shape::{hides_arguments, hoists_functions, plain_pattern_name};
use crate::util::interner::StringId;

verus! {

/// The identifiers that a pattern binds, from left to right.
pub open spec fn binding_names(pat: Pattern) -> Seq<StringId>
    decreases pat, 0int,
{
    match pat {
        Pattern::Identifier(id) => seq![id.name],
        Pattern::Array(inner) => element_names(
            inner.elements@,
            inner.elements@.len() as int,
        ),
        Pattern::Object(inner) => property_names(
            inner.properties@,
            inner.properties@.len() as int,
        ),
        Pattern::Rest(r) => binding_names(r.argument),
        Pattern::Assignment(a) => binding_names(a.left),
        Pattern::Member(_) => Seq::empty(),
    }
}

/// The identifiers that the first `n` elements of an array pattern bind.
pub open spec fn element_names(elements: Seq<Option<Pattern>>, n: int) -> Seq<StringId>
    decreases elements, n,
{
    if n <= 0 || n > elements.len() {
        Seq::empty()
    } else {
        element_names(elements, n - 1) + (match elements[n - 1] {
            Some(p) => binding_names(p),
            None => Seq::empty(),
        })
    }
}

/// The identifiers that the first `n` properties of an object pattern bind.
pub open spec fn property_names(properties: Seq<ObjectPatternProperty>, n: int) -> Seq<StringId>
    decreases properties, n,
{
    if n <= 0 || n > properties.len() {
        Seq::empty()
    } else {
        property_names(properties, n - 1) + (match properties[n - 1] {
            ObjectPatternProperty::Property { value, .. } => binding_names(value),
            ObjectPatternProperty::Rest(r) => binding_names(r.argument),
        })
    }
}

/// Append the identifiers that a pattern binds.
pub fn collect_pattern_names(pat: &Pattern, out: &mut Vec<StringId>)
    ensures
        final(out)@ == old(out)@ + binding_names(*pat),
    decreases pat,
{
    match pat {
        Pattern::Identifier(id) => {
            out.push(id.name);
            assert(out@ =~= old(out)@ + binding_names(*pat));
        },
        Pattern::Array(inner) => {
            collect_element_names(&inner.elements, out);
        },
        Pattern::Object(inner) => {
            collect_property_names(&inner.properties, out);
        },
        Pattern::Rest(r) => {
            collect_pattern_names(&r.argument, out);
        },
        Pattern::Assignment(a) => {
            collect_pattern_names(&a.left, out);
        },
        Pattern::Member(_) => {
            assert(out@ =~= old(out)@ + binding_names(*pat));
        },
    }
}

fn collect_element_names(elements: &Vec<Option<Pattern>>, out: &mut Vec<StringId>)
    ensures
        final(out)@ == old(out)@ + element_names(elements@, elements@.len() as int),
    decreases elements,
{
    let mut i: usize = 0;
    assert(out@ =~= old(out)@ + element_names(elements@, 0));
    while i < elements.len()
        invariant
            i <= elements@.len(),
            out@ == old(out)@ + element_names(elements@, i as int),
        decreases elements@.len() - i,
    {
        let element = &elements[i];
        assert(decreases_to!(elements => elements[i as int]));
        match element {
            Some(p) => {
                collect_pattern_names(p, out);
            },
            None => {},
        }
        i = i + 1;
        assert(out@ =~= old(out)@ + element_names(elements@, i as int));
    }
}

fn collect_property_names(properties: &Vec<ObjectPatternProperty>, out: &mut Vec<StringId>)
    ensures
        final(out)@ == old(out)@ + property_names(properties@, properties@.len() as int),
    decreases properties,
{
    let mut i: usize = 0;
    assert(out@ =~= old(out)@ + property_names(properties@, 0));
    while i < properties.len()
        invariant
            i <= properties@.len(),
            out@ == old(out)@ + property_names(properties@, i as int),
        decreases properties@.len() - i,
    {
        let property = &properties[i];
        assert(decreases_to!(properties => properties[i as int]));
        match property {
            ObjectPatternProperty::Property { value, .. } => {
                collect_pattern_names(value, out);
            },
            ObjectPatternProperty::Rest(r) => {
                collect_pattern_names(&r.argument, out);
            },
        }
        i = i + 1;
        assert(out@ =~= old(out)@ + property_names(properties@, i as int));
    }
}

/// The identifiers that a pattern binds.
pub fn collect_binding_names(pat: &Pattern) -> (names: Vec<StringId>)
    ensures
        names@ == binding_names(*pat),
{
    let mut names: Vec<StringId> = Vec::new();
    collect_pattern_names(pat, &mut names);
    assert(names@ =~= binding_names(*pat));
    names
}

/// The plain identifiers that declarators declare.
pub open spec fn declared_names(items: Seq<VariableDeclarator>) -> Seq<StringId>
    decreases items.len(),
{
    if items.len() == 0 {
        Seq::empty()
    } else {
        let rest = declared_names(items.drop_last());
        match shape::plain_name(items.last().id) {
            Some(name) => rest.push(name),
            None => rest,
        }
    }
}

/// The plain identifiers that declarators declare.
pub fn collect_declared_names(items: &Vec<VariableDeclarator>) -> (names: Vec<StringId>)
    ensures
        names@ == declared_names(items@),
{
    let mut names: Vec<StringId> = Vec::new();
    let mut i: usize = 0;
    while i < items.len()
        invariant
            i <= items@.len(),
            names@ == declared_names(items@.take(i as int)),
        decreases items@.len() - i,
    {
        assert(items@.take(i + 1).drop_last() =~= items@.take(i as int));
        match plain_pattern_name(&items[i].id) {
            Some(name) => {
                names.push(name);
            },
            None => {},
        }
        i = i + 1;
    }
    assert(items@.take(i as int) =~= items@);
    names
}

/// The names that `var` declarators bind, none for lexicals.
pub open spec fn var_declared(decl: VariableDeclaration) -> Seq<StringId> {
    if decl.kind == VarKind::Var {
        bound_names(decl.declarations@)
    } else {
        Seq::empty()
    }
}

/// The names that the head of a for-in or for-of loop declares by `var`.
pub open spec fn head_var_names(left: ForInOfLeft) -> Seq<StringId> {
    match left {
        ForInOfLeft::Variable(decl) => var_declared(decl),
        _ => Seq::empty(),
    }
}

/// The names that the head of a for loop declares by `var`.
pub open spec fn init_var_names(init: Option<ForInit>) -> Seq<StringId> {
    match init {
        Some(ForInit::Variable(decl)) => var_declared(decl),
        _ => Seq::empty(),
    }
}

/// The names declared by `var` anywhere in a statement, nested functions excepted.
pub open spec fn var_names(stmt: Statement) -> Seq<StringId>
    decreases stmt, 0int,
{
    match stmt {
        Statement::Variable(decl) => var_declared(decl),
        Statement::Block(b) => list_var_names(b.body@, b.body@.len() as int),
        Statement::If(i) => var_names(i.consequent) + (match i.alternate {
            Some(alternate) => var_names(alternate),
            None => Seq::empty(),
        }),
        Statement::While(w) => var_names(w.body),
        Statement::DoWhile(d) => var_names(d.body),
        Statement::For(f) => init_var_names(f.init) + var_names(f.body),
        Statement::ForIn(f) => head_var_names(f.left) + var_names(f.body),
        Statement::ForOf(f) => head_var_names(f.left) + var_names(f.body),
        Statement::Switch(s) => case_var_names(s.cases@, s.cases@.len() as int),
        Statement::Try(t) => list_var_names(t.block.body@, t.block.body@.len() as int) + (
        match t.handler {
            Some(h) => list_var_names(h.body.body@, h.body.body@.len() as int),
            None => Seq::empty(),
        }) + (match t.finalizer {
            Some(f) => list_var_names(f.body@, f.body@.len() as int),
            None => Seq::empty(),
        }),
        Statement::Labeled(l) => var_names(l.body),
        Statement::With(w) => var_names(w.body),
        _ => Seq::empty(),
    }
}

/// The names declared by `var` in the first `n` statements of a list.
pub open spec fn list_var_names(stmts: Seq<Statement>, n: int) -> Seq<StringId>
    decreases stmts, n,
{
    if n <= 0 || n > stmts.len() {
        Seq::empty()
    } else {
        list_var_names(stmts, n - 1) + var_names(stmts[n - 1])
    }
}

/// The names declared by `var` in the first `n` cases of a switch.
pub open spec fn case_var_names(cases: Seq<SwitchCase>, n: int) -> Seq<StringId>
    decreases cases, n,
{
    if n <= 0 || n > cases.len() {
        Seq::empty()
    } else {
        case_var_names(cases, n - 1) + list_var_names(
            cases[n - 1].consequent@,
            cases[n - 1].consequent@.len() as int,
        )
    }
}

fn append_names(out: &mut Vec<StringId>, names: &Vec<StringId>)
    ensures
        final(out)@ == old(out)@ + names@,
{
    let mut i: usize = 0;
    while i < names.len()
        invariant
            i <= names@.len(),
            out@ == old(out)@ + names@.take(i as int),
        decreases names@.len() - i,
    {
        out.push(names[i]);
        i = i + 1;
        assert(names@.take(i as int) =~= names@.take(i - 1).push(names@[i - 1]));
        assert(out@ =~= old(out)@ + names@.take(i as int));
    }
    assert(names@.take(i as int) =~= names@);
}

fn append_var_declared(out: &mut Vec<StringId>, decl: &VariableDeclaration)
    ensures
        final(out)@ == old(out)@ + var_declared(*decl),
{
    if decl.kind == VarKind::Var {
        let names = collect_bound_names(&decl.declarations);
        append_names(out, &names);
    }
    assert(out@ =~= old(out)@ + var_declared(*decl));
}

/// Append the names declared by `var` anywhere in a statement, nested functions excepted.
pub fn collect_var_declarations(stmt: &Statement, out: &mut Vec<StringId>)
    ensures
        final(out)@ == old(out)@ + var_names(*stmt),
    decreases stmt, 0int,
{
    match stmt {
        Statement::Variable(decl) => {
            append_var_declared(out, decl);
        },
        Statement::Block(b) => {
            collect_list(&b.body, out);
        },
        Statement::If(i) => {
            collect_var_declarations(&i.consequent, out);
            match &i.alternate {
                Some(alternate) => {
                    collect_var_declarations(alternate, out);
                },
                None => {},
            }
        },
        Statement::While(w) => {
            collect_var_declarations(&w.body, out);
        },
        Statement::DoWhile(d) => {
            collect_var_declarations(&d.body, out);
        },
        Statement::For(f) => {
            match &f.init {
                Some(ForInit::Variable(decl)) => {
                    append_var_declared(out, decl);
                },
                _ => {},
            }
            assert(out@ =~= old(out)@ + init_var_names(f.init));
            collect_var_declarations(&f.body, out);
        },
        Statement::ForIn(f) => {
            match &f.left {
                ForInOfLeft::Variable(decl) => {
                    append_var_declared(out, decl);
                },
                _ => {},
            }
            assert(out@ =~= old(out)@ + head_var_names(f.left));
            collect_var_declarations(&f.body, out);
        },
        Statement::ForOf(f) => {
            match &f.left {
                ForInOfLeft::Variable(decl) => {
                    append_var_declared(out, decl);
                },
                _ => {},
            }
            assert(out@ =~= old(out)@ + head_var_names(f.left));
            collect_var_declarations(&f.body, out);
        },
        Statement::Switch(s) => {
            collect_cases(&s.cases, out);
        },
        Statement::Try(t) => {
            collect_list(&t.block.body, out);
            match &t.handler {
                Some(h) => {
                    collect_list(&h.body.body, out);
                },
                None => {},
            }
            match &t.finalizer {
                Some(f) => {
                    collect_list(&f.body, out);
                },
                None => {},
            }
        },
        Statement::Labeled(l) => {
            collect_var_declarations(&l.body, out);
        },
        Statement::With(w) => {
            collect_var_declarations(&w.body, out);
        },
        _ => {},
    }
    assert(out@ =~= old(out)@ + var_names(*stmt));
}

fn collect_list(stmts: &Vec<Statement>, out: &mut Vec<StringId>)
    ensures
        final(out)@ == old(out)@ + list_var_names(stmts@, stmts@.len() as int),
    decreases stmts, 1int,
{
    let mut i: usize = 0;
    assert(out@ =~= old(out)@ + list_var_names(stmts@, 0));
    while i < stmts.len()
        invariant
            i <= stmts@.len(),
            out@ == old(out)@ + list_var_names(stmts@, i as int),
        decreases stmts@.len() - i,
    {
        assert(decreases_to!(stmts => stmts[i as int]));
        collect_var_declarations(&stmts[i], out);
        i = i + 1;
        assert(out@ =~= old(out)@ + list_var_names(stmts@, i as int));
    }
}

fn collect_cases(cases: &Vec<SwitchCase>, out: &mut Vec<StringId>)
    ensures
        final(out)@ == old(out)@ + case_var_names(cases@, cases@.len() as int),
    decreases cases, 1int,
{
    let mut i: usize = 0;
    assert(out@ =~= old(out)@ + case_var_names(cases@, 0));
    while i < cases.len()
        invariant
            i <= cases@.len(),
            out@ == old(out)@ + case_var_names(cases@, i as int),
        decreases cases@.len() - i,
    {
        assert(decreases_to!(cases => cases[i as int]));
        collect_list(&cases[i].consequent, out);
        i = i + 1;
        assert(out@ =~= old(out)@ + case_var_names(cases@, i as int));
    }
}

/// The names declared by `var` in a statement list.
pub open spec fn program_var_names(body: Seq<Statement>) -> Seq<StringId> {
    list_var_names(body, body.len() as int)
}

/// The names declared by `var` in a statement list, nested functions excepted.
pub fn collect_program_var_names(body: &Vec<Statement>) -> (names: Vec<StringId>)
    ensures
        names@ == program_var_names(body@),
{
    let mut names: Vec<StringId> = Vec::new();
    collect_list(body, &mut names);
    assert(names@ =~= program_var_names(body@));
    names
}

/// The names that declarators bind.
pub open spec fn bound_names(items: Seq<VariableDeclarator>) -> Seq<StringId>
    decreases items.len(),
{
    if items.len() == 0 {
        Seq::empty()
    } else {
        bound_names(items.drop_last()) + binding_names(items.last().id)
    }
}

/// The names that declarators bind.
pub fn collect_bound_names(items: &Vec<VariableDeclarator>) -> (names: Vec<StringId>)
    ensures
        names@ == bound_names(items@),
{
    let mut names: Vec<StringId> = Vec::new();
    let mut i: usize = 0;
    while i < items.len()
        invariant
            i <= items@.len(),
            names@ == bound_names(items@.take(i as int)),
        decreases items@.len() - i,
    {
        assert(items@.take(i + 1).drop_last() =~= items@.take(i as int));
        assert(items@.take(i + 1).last() == items@[i as int]);
        collect_pattern_names(&items[i].id, &mut names);
        i = i + 1;
        assert(names@ =~= bound_names(items@.take(i as int)));
    }
    assert(items@.take(i as int) =~= items@);
    names
}

/// The lexical names that a statement declares.
pub open spec fn lexical_names(stmt: Statement) -> Seq<StringId> {
    match stmt {
        Statement::Variable(decl) => if decl.kind != VarKind::Var {
            bound_names(decl.declarations@)
        } else {
            Seq::empty()
        },
        Statement::Class(c) => match c.id {
            Some(name) => seq![name],
            None => Seq::empty(),
        },
        _ => Seq::empty(),
    }
}

fn append_lexical_names(out: &mut Vec<StringId>, stmt: &Statement)
    ensures
        final(out)@ == old(out)@ + lexical_names(*stmt),
{
    match stmt {
        Statement::Variable(decl) => {
            if decl.kind != VarKind::Var {
                let names = collect_bound_names(&decl.declarations);
                append_names(out, &names);
            }
        },
        Statement::Class(c) => {
            match c.id {
                Some(name) => {
                    out.push(name);
                },
                None => {},
            }
        },
        _ => {},
    }
    assert(out@ =~= old(out)@ + lexical_names(*stmt));
}

/// The lexical names (let, const, class) that a body declares at its top level.
pub open spec fn body_lexical_names(items: Seq<Statement>) -> Seq<StringId>
    decreases items.len(),
{
    if items.len() == 0 {
        Seq::empty()
    } else {
        body_lexical_names(items.drop_last()) + lexical_names(items.last())
    }
}

/// The lexical names (let, const, class) that a body declares at its top level.
pub fn collect_body_lexical_names(items: &Vec<Statement>) -> (names: Vec<StringId>)
    ensures
        names@ == body_lexical_names(items@),
{
    let mut names: Vec<StringId> = Vec::new();
    let mut i: usize = 0;
    while i < items.len()
        invariant
            i <= items@.len(),
            names@ == body_lexical_names(items@.take(i as int)),
        decreases items@.len() - i,
    {
        assert(items@.take(i + 1).drop_last() =~= items@.take(i as int));
        assert(items@.take(i + 1).last() == items@[i as int]);
        append_lexical_names(&mut names, &items[i]);
        i = i + 1;
        assert(names@ =~= body_lexical_names(items@.take(i as int)));
    }
    assert(items@.take(i as int) =~= items@);
    names
}

/// The names that parameters bind.
pub open spec fn params_bind(items: Seq<Pattern>) -> Seq<StringId>
    decreases items.len(),
{
    if items.len() == 0 {
        Seq::empty()
    } else {
        params_bind(items.drop_last()) + binding_names(items.last())
    }
}

/// The names that parameters bind.
pub fn collect_param_names(items: &Vec<Pattern>) -> (names: Vec<StringId>)
    ensures
        names@ == params_bind(items@),
{
    let mut names: Vec<StringId> = Vec::new();
    let mut i: usize = 0;
    while i < items.len()
        invariant
            i <= items@.len(),
            names@ == params_bind(items@.take(i as int)),
        decreases items@.len() - i,
    {
        assert(items@.take(i + 1).drop_last() =~= items@.take(i as int));
        assert(items@.take(i + 1).last() == items@[i as int]);
        collect_pattern_names(&items[i], &mut names);
        i = i + 1;
        assert(names@ =~= params_bind(items@.take(i as int)));
    }
    assert(items@.take(i as int) =~= items@);
    names
}

/// The names that an exported declaration declares.
pub open spec fn declaration_names(stmt: Statement) -> Seq<StringId> {
    match stmt {
        Statement::Variable(decl) => declared_names(decl.declarations@),
        Statement::Function(f) => match f.id {
            Some(name) => seq![name],
            None => Seq::empty(),
        },
        Statement::Class(c) => match c.id {
            Some(name) => seq![name],
            None => Seq::empty(),
        },
        _ => Seq::empty(),
    }
}

/// The names that an exported declaration declares.
pub fn extract_declaration_names(stmt: &Statement) -> (names: Vec<StringId>)
    ensures
        names@ == declaration_names(*stmt),
{
    let mut names: Vec<StringId> = Vec::new();
    match stmt {
        Statement::Variable(decl) => {
            return collect_declared_names(&decl.declarations);
        },
        Statement::Function(f) => {
            match f.id {
                Some(name) => {
                    names.push(name);
                },
                None => {},
            }
        },
        Statement::Class(c) => {
            match c.id {
                Some(name) => {
                    names.push(name);
                },
                None => {},
            }
        },
        _ => {},
    }
    assert(names@ =~= declaration_names(*stmt));
    names
}

/// The name of a function declaration.
pub open spec fn function_decl_name(stmt: Statement) -> Option<StringId> {
    match stmt {
        Statement::Function(f) => f.id,
        _ => None,
    }
}

fn name_of_function(stmt: &Statement) -> (name: Option<StringId>)
    ensures
        name == function_decl_name(*stmt),
{
    match stmt {
        Statement::Function(f) => f.id,
        _ => None,
    }
}

/// The names of the functions that a list of statements declares.
pub open spec fn function_names(items: Seq<Statement>) -> Seq<StringId>
    decreases items.len(),
{
    if items.len() == 0 {
        Seq::empty()
    } else {
        let rest = function_names(items.drop_last());
        match function_decl_name(items.last()) {
            Some(name) => rest.push(name),
            None => rest,
        }
    }
}

/// The names of the functions that a list of statements declares.
pub fn collect_function_names(items: &Vec<Statement>) -> (names: Vec<StringId>)
    ensures
        names@ == function_names(items@),
{
    let mut names: Vec<StringId> = Vec::new();
    let mut i: usize = 0;
    while i < items.len()
        invariant
            i <= items@.len(),
            names@ == function_names(items@.take(i as int)),
        decreases items@.len() - i,
    {
        assert(items@.take(i + 1).drop_last() =~= items@.take(i as int));
        match name_of_function(&items[i]) {
            Some(name) => {
                names.push(name);
            },
            None => {},
        }
        i = i + 1;
    }
    assert(items@.take(i as int) =~= items@);
    names
}

/// The names without one of them.
pub open spec fn names_without(names: Seq<StringId>, dropped: StringId) -> Seq<StringId>
    decreases names.len(),
{
    if names.len() == 0 {
        names
    } else if names.last() == dropped {
        names_without(names.drop_last(), dropped)
    } else {
        names_without(names.drop_last(), dropped).push(names.last())
    }
}

fn without_name(names: &Vec<StringId>, dropped: StringId) -> (rest: Vec<StringId>)
    ensures
        rest@ == names_without(names@, dropped),
{
    let mut rest: Vec<StringId> = Vec::new();
    let mut i: usize = 0;
    while i < names.len()
        invariant
            i <= names@.len(),
            rest@ == names_without(names@.take(i as int), dropped),
        decreases names@.len() - i,
    {
        assert(names@.take(i + 1).drop_last() =~= names@.take(i as int));
        if names[i] != dropped {
            rest.push(names[i]);
        }
        i = i + 1;
    }
    assert(names@.take(i as int) =~= names@);
    rest
}

/// The names of the functions of a body that are hoisted.
pub open spec fn hoisted_names(
    stmts: Seq<Statement>,
    params: Seq<Pattern>,
    arguments_id: StringId,
) -> Seq<StringId> {
    if !shape::hoisting(stmts) {
        Seq::empty()
    } else if shape::hides(arguments_id, arguments_id, params) {
        names_without(function_names(stmts), arguments_id)
    } else {
        function_names(stmts)
    }
}

/// The names of the functions of a body that are hoisted.
pub fn collect_hoisted(
    stmts: &Vec<Statement>,
    params: &Vec<Pattern>,
    arguments_id: StringId,
) -> (names: Vec<StringId>)
    ensures
        names@ == hoisted_names(stmts@, params@, arguments_id),
{
    if !hoists_functions(stmts) {
        Vec::new()
    } else {
        let names = collect_function_names(stmts);
        if hides_arguments(arguments_id, arguments_id, params) {
            without_name(&names, arguments_id)
        } else {
            names
        }
    }
}

/// The names of the functions of a static block that are hoisted.
pub open spec fn block_hoisted_names(stmts: Seq<Statement>, arguments_id: StringId) -> Seq<
    StringId,
> {
    hoisted_names(stmts, Seq::empty(), arguments_id)
}

/// The names of the functions of a static block that are hoisted.
pub fn collect_block_hoisted(stmts: &Vec<Statement>, arguments_id: StringId) -> (names: Vec<
    StringId,
>)
    ensures
        names@ == block_hoisted_names(stmts@, arguments_id),
{
    let params: Vec<Pattern> = Vec::new();
    assert(params@ =~= Seq::<Pattern>::empty());
    collect_hoisted(stmts, &params, arguments_id)
}

/// The names with one more at the end.
pub fn with_name(names: Vec<StringId>, name: StringId) -> (all: Vec<StringId>)
    ensures
        all@ == names@.push(name),
{
    let mut all = names;
    all.push(name);
    all
}

/// No names.
pub fn no_names() -> (names: Vec<StringId>)
    ensures
        names@ == Seq::<StringId>::empty(),
{
    Vec::new()
}

} // verus!
