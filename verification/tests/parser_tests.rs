use zinc::ast::node::{
    ArrowBody, AssignmentOperator, AssignmentTarget, BinaryOperator, ClassMember,
    ExportDeclaration, Expression, ForInOfLeft, ForInit, ImportDeclaration, ImportSpecifier,
    LogicalOperator, MemberProperty, MethodKind, ObjectPatternProperty, ObjectProperty,
    OptionalChainElement, Pattern, Program, PropertyKey, PropertyKindVal, SourceType, Statement,
    UnaryOperator, UpdateOperator, VarKind,
};
use zinc::ast::span::Span;
use zinc::lexer::lexer::Lexer;
use zinc::lexer::token::{Token, TokenKind};
use zinc::parser::error::ParseError;
use zinc::parser::escapes::{
    decode_unicode_escapes, inner_text, regexp_parts, trim_suffix, unescape_string,
};
use zinc::parser::expression::{
    parse_arguments, parse_block_statement, parse_expression, parse_function_body_expr,
    parse_params, parse_property_key_for_class, parse_template_literal,
};
use zinc::parser::operators::infix_binding_power;
use zinc::parser::parser::Parser;
use zinc::parser::statement::parse_statement;
use zinc::util::interner::Interner;

fn parser_of(source: &str) -> Parser<'_> {
    let mut lexer = Lexer::new(source, Interner::new());
    let tokens = lexer.tokenize();
    Parser::new(tokens, source, lexer.finish())
}

fn parse(source: &str) -> (Program, Interner, Vec<String>) {
    let mut parser = parser_of(source);
    let program = match parser.parse_program() {
        Ok(program) => program,
        Err(e) => panic!("{}", e.to_string()),
    };
    let (interner, errors) = parser.finish();
    let texts = errors.iter().map(|e| e.to_string()).collect();
    (program, interner, texts)
}

fn statement(source: &str) -> (Statement, Interner) {
    let (program, interner, errors) = parse(source);
    assert_eq!(errors, Vec::<String>::new(), "{}", source);
    let mut body = program.body;
    assert_eq!(body.len(), 1, "{}", source);
    (body.remove(0), interner)
}

fn expression(source: &str) -> (Expression, Interner) {
    match statement(source) {
        (Statement::Expression(s), interner) => (s.expression, interner),
        _ => panic!("an expression statement was expected: {}", source),
    }
}

/// The expression with explicit parentheses.
fn shape(e: &Expression, names: &Interner) -> String {
    match e {
        Expression::NumberLiteral(n) => format!("{}", f64::from_bits(n.value)),
        Expression::StringLiteral(s) => format!("{:?}", names.resolve(s.value)),
        Expression::BooleanLiteral(b) => format!("{}", b.value),
        Expression::NullLiteral(_) => "null".to_string(),
        Expression::Identifier(i) => names.resolve(i.name).to_string(),
        Expression::This(_) => "this".to_string(),
        Expression::Binary(b) => {
            let op = match b.operator {
                BinaryOperator::Add => "+",
                BinaryOperator::Sub => "-",
                BinaryOperator::Mul => "*",
                BinaryOperator::Exp => "**",
                BinaryOperator::Lt => "<",
                BinaryOperator::StrictEq => "===",
                BinaryOperator::Shl => "<<",
                BinaryOperator::BitOr => "|",
                BinaryOperator::BitAnd => "&",
                BinaryOperator::In => "in",
                BinaryOperator::InstanceOf => "instanceof",
                _ => "?",
            };
            format!("({} {} {})", shape(&b.left, names), op, shape(&b.right, names))
        }
        Expression::Logical(l) => {
            let op = match l.operator {
                LogicalOperator::And => "&&",
                LogicalOperator::Or => "||",
                LogicalOperator::NullishCoalescing => "??",
            };
            format!("({} {} {})", shape(&l.left, names), op, shape(&l.right, names))
        }
        Expression::Unary(u) => {
            let op = match u.operator {
                UnaryOperator::Minus => "-",
                UnaryOperator::Plus => "+",
                UnaryOperator::Not => "!",
                UnaryOperator::BitNot => "~",
                UnaryOperator::TypeOf => "typeof ",
                UnaryOperator::Void => "void ",
                UnaryOperator::Delete => "delete ",
            };
            format!("{}{}", op, shape(&u.argument, names))
        }
        Expression::Update(u) => {
            let op = if u.operator == UpdateOperator::Increment { "++" } else { "--" };
            if u.prefix {
                format!("({}{})", op, shape(&u.argument, names))
            } else {
                format!("({}{})", shape(&u.argument, names), op)
            }
        }
        Expression::Conditional(c) => format!(
            "({} ? {} : {})",
            shape(&c.test, names),
            shape(&c.consequent, names),
            shape(&c.alternate, names)
        ),
        Expression::Assignment(a) => {
            let left = match &a.left {
                AssignmentTarget::Identifier(i) => names.resolve(i.name).to_string(),
                AssignmentTarget::Member(_) => "member".to_string(),
                AssignmentTarget::Pattern(p) => pattern(p, names),
            };
            let op = match a.operator {
                AssignmentOperator::Assign => "=",
                AssignmentOperator::AddAssign => "+=",
                AssignmentOperator::NullishAssign => "??=",
                _ => "?=",
            };
            format!("({} {} {})", left, op, shape(&a.right, names))
        }
        Expression::Sequence(s) => {
            let parts: Vec<String> = s.expressions.iter().map(|e| shape(e, names)).collect();
            format!("({})", parts.join(", "))
        }
        Expression::Member(m) => {
            let object = shape(&m.object, names);
            match &m.property {
                MemberProperty::Identifier(id) => format!("{}.{}", object, names.resolve(*id)),
                MemberProperty::Expression(e) => format!("{}[{}]", object, shape(e, names)),
                MemberProperty::PrivateIdentifier(_) => format!("{}.#", object),
            }
        }
        Expression::Call(c) => {
            let args: Vec<String> = c.arguments.iter().map(|e| shape(e, names)).collect();
            format!("{}({})", shape(&c.callee, names), args.join(", "))
        }
        Expression::New(n) => {
            let args: Vec<String> = n.arguments.iter().map(|e| shape(e, names)).collect();
            format!("new {}({})", shape(&n.callee, names), args.join(", "))
        }
        Expression::Spread(s) => format!("...{}", shape(&s.argument, names)),
        Expression::Array(a) => {
            let parts: Vec<String> = a
                .elements
                .iter()
                .map(|e| match e {
                    Some(e) => shape(e, names),
                    None => "hole".to_string(),
                })
                .collect();
            format!("[{}]", parts.join(", "))
        }
        Expression::ArrowFunction(a) => {
            let params: Vec<String> = a.params.iter().map(|p| pattern(p, names)).collect();
            let body = match &a.body {
                ArrowBody::Expression(e) => shape(e, names),
                ArrowBody::Block(b) => format!("block {}", b.body.len()),
            };
            format!("({}) => {}", params.join(", "), body)
        }
        Expression::Yield(y) => format!(
            "yield{} {}",
            if y.delegate { "*" } else { "" },
            match &y.argument {
                Some(e) => shape(e, names),
                None => "nothing".to_string(),
            }
        ),
        Expression::Await(a) => format!("await {}", shape(&a.argument, names)),
        Expression::TemplateLiteral(t) => {
            let parts: Vec<String> =
                t.quasis.iter().map(|q| names.resolve(q.raw).to_string()).collect();
            let inner: Vec<String> = t.expressions.iter().map(|e| shape(e, names)).collect();
            format!("`{}|{}`", parts.join("_"), inner.join("_"))
        }
        Expression::TaggedTemplate(t) => {
            format!("{}`{}`", shape(&t.tag, names), t.quasi.quasis.len())
        }
        Expression::RegExpLiteral(r) => {
            format!("/{}/{}", names.resolve(r.pattern), names.resolve(r.flags))
        }
        Expression::OptionalChain(o) => {
            let mut text = shape(&o.base, names);
            for link in &o.chain {
                match link {
                    OptionalChainElement::Member { property, computed, optional } => {
                        text += if *optional { "?." } else { "." };
                        match property {
                            MemberProperty::Identifier(id) => text += names.resolve(*id),
                            MemberProperty::Expression(e) => {
                                text += &format!("[{}]", shape(e, names))
                            }
                            MemberProperty::PrivateIdentifier(_) => text += "#",
                        }
                        assert_eq!(*computed, matches!(property, MemberProperty::Expression(_)));
                    }
                    OptionalChainElement::Call { arguments, optional } => {
                        text += &format!(
                            "{}({})",
                            if *optional { "?." } else { "" },
                            arguments.len()
                        );
                    }
                }
            }
            text
        }
        Expression::Function(f) => format!(
            "function{} {}/{}",
            if f.is_generator { "*" } else { "" },
            f.params.len(),
            f.body.body.len()
        ),
        Expression::Object(o) => format!("object {}", o.properties.len()),
        Expression::Super(_) => "super".to_string(),
        _ => "other".to_string(),
    }
}

fn pattern(p: &Pattern, names: &Interner) -> String {
    match p {
        Pattern::Identifier(i) => names.resolve(i.name).to_string(),
        Pattern::Array(a) => {
            let parts: Vec<String> = a
                .elements
                .iter()
                .map(|e| match e {
                    Some(p) => pattern(p, names),
                    None => "hole".to_string(),
                })
                .collect();
            format!("[{}]", parts.join(", "))
        }
        Pattern::Object(o) => {
            let parts: Vec<String> = o
                .properties
                .iter()
                .map(|p| match p {
                    ObjectPatternProperty::Property { key, value, .. } => {
                        let key = match key {
                            PropertyKey::Identifier(id) => names.resolve(*id).to_string(),
                            PropertyKey::Computed(e) => format!("[{}]", shape(e, names)),
                            _ => "key".to_string(),
                        };
                        format!("{}: {}", key, pattern(value, names))
                    }
                    ObjectPatternProperty::Rest(r) => format!("...{}", pattern(&r.argument, names)),
                })
                .collect();
            format!("{{{}}}", parts.join(", "))
        }
        Pattern::Assignment(a) => format!("{} = {}", pattern(&a.left, names), shape(&a.right, names)),
        Pattern::Rest(r) => format!("...{}", pattern(&r.argument, names)),
        Pattern::Member(_) => "member".to_string(),
    }
}

fn check(source: &str, expected: &str) {
    let (e, names) = expression(source);
    assert_eq!(shape(&e, &names), expected, "{}", source);
}

#[test]
fn operators_bind_by_precedence() {
    check("1 + 2 * 3;", "(1 + (2 * 3))");
    check("1 - 2 - 3;", "((1 - 2) - 3)");
    check("2 ** 3 ** 2;", "(2 ** (3 ** 2))");
    check("a || b && c;", "(a || (b && c))");
    check("a ?? b;", "(a ?? b)");
    check("a < b === c;", "((a < b) === c)");
    check("a | b & c << 1;", "(a | (b & (c << 1)))");
    check("x in y instanceof z;", "((x in y) instanceof z)");
    check("a = b = c;", "(a = (b = c))");
    check("a += 1;", "(a += 1)");
    check("a ??= 1;", "(a ??= 1)");
    check("a ? b : c ? d : e;", "(a ? b : (c ? d : e))");
    check("a, b, c;", "(a, b, c)");
    check("!a + -b;", "(!a + -b)");
    check("typeof a + void 0;", "(typeof a + void 0)");
    check("delete a.b;", "delete a.b");
    check("++a + b--;", "((++a) + (b--))");
    check("a = b, c = d;", "((a = b), (c = d))");
    check("a ? b = c : d = e;", "(a ? (b = c) : (d = e))");
    check("a ** b * c ** d;", "((a ** b) * (c ** d))");
}

#[test]
fn binding_powers() {
    assert_eq!(infix_binding_power(TokenKind::Assign), Some((3, 3)));
    assert_eq!(infix_binding_power(TokenKind::QuestionQuestionAssign), Some((3, 3)));
    assert_eq!(infix_binding_power(TokenKind::StarStar), Some((28, 28)));
    assert_eq!(infix_binding_power(TokenKind::Question), Some((4, 3)));
    assert_eq!(infix_binding_power(TokenKind::Comma), Some((1, 2)));
    assert_eq!(infix_binding_power(TokenKind::Plus), Some((23, 24)));
    assert_eq!(infix_binding_power(TokenKind::Dot), None);
}

#[test]
fn suffixes_attach() {
    check("a.b.if[c](d, ...e);", "a.b.if[c](d, ...e)");
    check("new Foo(1).bar;", "new Foo(1).bar");
    check("new Foo;", "new Foo()");
    check("a?.b.c?.[d]?.(e)(f);", "a?.b.c?.[d]?.(1)(1)");
    check("tag`x${1}y`;", "tag`2`");
    assert_eq!(parse("a\n++b;").0.body.len(), 2);
}

#[test]
fn literals_are_read() {
    check("0x1F;", "31");
    check("42n;", "42");
    check("\"a\\n\\u0041\\x42\\u{43}\";", "\"a\\nABC\"");
    check("null;", "null");
    check("this;", "this");
    check("`a${x}b${y}c`;", "`a_b_c|x_y`");
    check("`plain`;", "`plain|`");
    check("[1,,...b];", "[1, hole, ...b]");
    check("undefined;", "undefined");
}

#[test]
fn arrow_functions() {
    check("x => x + 1;", "(x) => (x + 1)");
    check("() => {};", "() => block 0");
    check("(a, b = 1, ...c) => a;", "(a, b = 1, ...c) => a");
    check("([a, , b], {c, d: e}) => a;", "([a, hole, b], {c: c, d: e}) => a");
    check("(a = 1) => a;", "(a = 1) => a");
}

#[test]
fn destructuring_assignments() {
    check("[a, b = 1, ...c] = d;", "([a, b = 1, ...c] = d)");
    check("({a, b: c} = d);", "({a: a, b: c} = d)");
    check("[a.b] = d;", "([hole] = d)");
}

#[test]
fn generators_and_async() {
    check("await a;", "await a");
    check("yield;", "yield nothing");
    check("yield* a;", "yield* a");
    let (s, _) = statement("async function* f(a, b) { yield a; }");
    match s {
        Statement::Function(f) => {
            assert!(f.is_async);
            assert!(f.is_generator);
            assert_eq!(f.params.len(), 2);
            assert_eq!(f.body.body.len(), 1);
        }
        _ => panic!(),
    }
}

#[test]
fn object_literals() {
    let (e, names) = expression(
        "({a, b: 1, 'c': 2, 3: 4, [d]: 5, e() {}, get f() {}, set f(v) {}, async g() {}, *h() {}, ...i, if: 1});",
    );
    let o = match e {
        Expression::Object(o) => o,
        _ => panic!(),
    };
    let mut seen: Vec<String> = Vec::new();
    for p in &o.properties {
        match p {
            ObjectProperty::Property(p) => {
                let key = match &p.key {
                    PropertyKey::Identifier(id) => names.resolve(*id).to_string(),
                    PropertyKey::StringLiteral(id) => format!("'{}'", names.resolve(*id)),
                    PropertyKey::NumberLiteral(bits) => format!("{}", f64::from_bits(*bits)),
                    PropertyKey::Computed(e) => format!("[{}]", shape(e, &names)),
                    PropertyKey::Private(_) => "#".to_string(),
                };
                let kind = match p.kind {
                    PropertyKindVal::Init => "",
                    PropertyKindVal::Getter => "get ",
                    PropertyKindVal::Setter => "set ",
                };
                seen.push(format!("{}{}{}{}", kind, key, if p.method { "()" } else { "" }, if p.shorthand { "!" } else { "" }));
            }
            ObjectProperty::SpreadElement(s) => seen.push(format!("...{}", shape(&s.argument, &names))),
        }
    }
    assert_eq!(
        seen,
        vec!["a!", "b", "'c'", "3", "[d]", "e()", "get f()", "set f()", "g()", "h()", "...i", "if"]
    );
}

#[test]
fn classes() {
    let (s, names) = statement(
        "class A extends B { constructor() {} static m() {} get x() {} set x(v) {} y = 1; static z; ; [k]() {} }",
    );
    let c = match s {
        Statement::Class(c) => c,
        _ => panic!(),
    };
    assert_eq!(names.resolve(c.id.unwrap()), "A");
    assert!(c.super_class.is_some());
    let kinds: Vec<String> = c
        .body
        .body
        .iter()
        .map(|m| match m {
            ClassMember::Method(m) => format!(
                "{}{}",
                if m.is_static { "static " } else { "" },
                match m.kind {
                    MethodKind::Method => "method",
                    MethodKind::Getter => "get",
                    MethodKind::Setter => "set",
                    MethodKind::Constructor => "constructor",
                }
            ),
            ClassMember::Property(p) => format!(
                "{}field {}",
                if p.is_static { "static " } else { "" },
                p.value.is_some()
            ),
            ClassMember::StaticBlock(_) => "block".to_string(),
        })
        .collect();
    assert_eq!(
        kinds,
        vec!["constructor", "static method", "get", "set", "field true", "static field false", "method"]
    );
}

#[test]
fn loops_of_all_kinds() {
    match statement("for (var i = 0, j; i < 3; i++) {}").0 {
        Statement::For(f) => {
            match &f.init {
                Some(ForInit::Variable(v)) => {
                    assert_eq!(v.kind, VarKind::Var);
                    assert_eq!(v.declarations.len(), 2);
                }
                _ => panic!(),
            }
            assert!(f.test.is_some());
            assert!(f.update.is_some());
        }
        _ => panic!(),
    }
    assert!(matches!(statement("for (;;) ;").0, Statement::For(_)));
    assert!(matches!(statement("for (let [a, b] = c, d = 1; ;) ;").0, Statement::For(_)));
    match statement("for (const {a} of b) ;").0 {
        Statement::ForOf(f) => assert!(matches!(f.left, ForInOfLeft::Variable(_))),
        _ => panic!(),
    }
    match statement("for (x of y) ;").0 {
        Statement::ForOf(f) => assert!(matches!(f.left, ForInOfLeft::Pattern(_))),
        _ => panic!(),
    }
    match statement("for (var k in o) ;").0 {
        Statement::ForIn(f) => assert!(matches!(f.left, ForInOfLeft::Variable(_))),
        _ => panic!(),
    }
    match statement("for (a.b of c) ;").0 {
        Statement::ForOf(f) => assert!(matches!(f.left, ForInOfLeft::Expression(_))),
        _ => panic!(),
    }
    assert!(matches!(statement("while (a) b;").0, Statement::While(_)));
    assert!(matches!(statement("do a; while (b)").0, Statement::DoWhile(_)));
}

#[test]
fn control_statements() {
    match statement("switch (a) { case 1: b; c; break; default: d; }").0 {
        Statement::Switch(s) => {
            assert_eq!(s.cases.len(), 2);
            assert_eq!(s.cases[0].consequent.len(), 3);
            assert!(s.cases[1].test.is_none());
        }
        _ => panic!(),
    }
    match statement("try { a; } catch ({b}) { c; } finally { d; }").0 {
        Statement::Try(t) => {
            assert!(t.handler.unwrap().param.is_some());
            assert!(t.finalizer.is_some());
        }
        _ => panic!(),
    }
    match statement("if (a) b; else if (c) d;").0 {
        Statement::If(s) => assert!(matches!(s.alternate, Some(Statement::If(_)))),
        _ => panic!(),
    }
    assert!(matches!(statement("outer: for (;;) continue outer;").0, Statement::Labeled(_)));
    assert!(matches!(statement("debugger;").0, Statement::Debugger(_)));
    assert!(matches!(statement(";").0, Statement::Empty(_)));
    assert!(matches!(statement("{ a; b; }").0, Statement::Block(_)));
    assert!(matches!(statement("throw a;").0, Statement::Throw(_)));
    match statement("let {a, b: [c], d = 1, [e]: f, ...g} = h;") {
        (Statement::Variable(v), names) => assert_eq!(
            pattern(&v.declarations[0].id, &names),
            "{a: a, b: [c], d: d = 1, [e]: f, ...g}"
        ),
        _ => panic!(),
    }
}

#[test]
fn modules() {
    match statement("import a from 'm';") {
        (Statement::Import(ImportDeclaration::Standard { specifiers, source, .. }), names) => {
            assert_eq!(specifiers.len(), 1);
            assert!(matches!(specifiers[0], ImportSpecifier::Default { .. }));
            assert_eq!(names.resolve(source), "'m'");
        }
        _ => panic!(),
    }
    match statement("import { a, b as c } from 'm';").0 {
        Statement::Import(ImportDeclaration::Standard { specifiers, .. }) => {
            assert_eq!(specifiers.len(), 2)
        }
        _ => panic!(),
    }
    match statement("import * as n from 'm';").0 {
        Statement::Import(ImportDeclaration::Standard { specifiers, .. }) => {
            assert!(matches!(specifiers[0], ImportSpecifier::Namespace { .. }))
        }
        _ => panic!(),
    }
    match statement("export default class {}").0 {
        Statement::Export(e) => assert!(matches!(*e, ExportDeclaration::Default { .. })),
        _ => panic!(),
    }
    match statement("export { a as b } from 'm';").0 {
        Statement::Export(e) => {
            assert!(matches!(*e, ExportDeclaration::Named { source: Some(_), .. }))
        }
        _ => panic!(),
    }
    match statement("export * as n from 'm';").0 {
        Statement::Export(e) => {
            assert!(matches!(*e, ExportDeclaration::All { exported: Some(_), .. }))
        }
        _ => panic!(),
    }
    match statement("export const x = 1;").0 {
        Statement::Export(e) => assert!(matches!(*e, ExportDeclaration::Declaration { .. })),
        _ => panic!(),
    }
}

#[test]
fn semicolons_are_inserted() {
    let (program, _, errors) = parse("a\nb\nreturn\n1");
    assert!(errors.is_empty());
    assert_eq!(program.body.len(), 4);
    assert_eq!(program.source_type, SourceType::Script);
    assert_eq!(program.span, Span::new(0, 12));
    let (_, _, errors) = parse("a b");
    assert_eq!(errors, vec!["SyntaxError at 2..3: Expected ';', got Identifier"]);
}

#[test]
fn errors_are_reported_and_parsing_goes_on() {
    let (program, _, errors) = parse("var 1; var x = 2; throw\n3; 1 = 2; try {} y;");
    assert_eq!(
        errors,
        vec![
            "SyntaxError at 4..5: Expected Identifier, got Number",
            "SyntaxError at 24..25: No line break allowed after 'throw'",
            "SyntaxError at 27..28: Invalid assignment target",
            "SyntaxError at 34..41: try must have catch or finally",
        ]
    );
    assert_eq!(program.body.len(), 1);
    let (_, _, errors) = parse("(1) => 2;");
    assert_eq!(errors, vec!["SyntaxError at 1..2: Invalid parameter"]);
    let (_, _, errors) = parse("a.;");
    assert_eq!(errors, vec!["SyntaxError at 2..3: Expected property name, got Semicolon"]);
    let error = ParseError::unexpected(TokenKind::Eof, Span::new(1, 2));
    assert_eq!(error.to_string(), "SyntaxError at 1..2: Unexpected token Eof");
    assert_eq!(
        ParseError::expected("x", TokenKind::Dot, Span::new(3, 4)).to_string(),
        "SyntaxError at 3..4: Expected x, got Dot"
    );
    assert_eq!(ParseError::new("m", Span::new(5, 6)).message, "m");
}

#[test]
fn token_lists_that_no_lexer_made() {
    let mut parser = Parser::new(Vec::new(), "", Interner::new());
    assert_eq!(parser.parse_program().ok().unwrap().body.len(), 0);
    let stray = Token::new(TokenKind::Identifier, Span::new(5, 90), false);
    let eof = Token::new(TokenKind::Eof, Span::new(3, 3), false);
    let mut parser = Parser::new(vec![stray, eof], "abc", Interner::new());
    let program = parser.parse_program().ok().unwrap();
    assert_eq!(program.body.len(), 1);
    let source = "/a\\/b/gi";
    let literal = Token::new(TokenKind::RegExp, Span::new(0, 8), false);
    let mut parser = Parser::new(vec![literal], source, Interner::new());
    match parse_expression(&mut parser, 0).ok().unwrap() {
        Expression::RegExpLiteral(r) => {
            let names = parser.finish().0;
            assert_eq!(names.resolve(r.pattern), "a\\/b");
            assert_eq!(names.resolve(r.flags), "gi");
        }
        _ => panic!(),
    }
}

#[test]
fn pieces_can_be_parsed_alone() {
    let mut p = parser_of("(1, ...a)");
    assert_eq!(parse_arguments(&mut p).ok().unwrap().len(), 2);
    let mut p = parser_of("(a, {b}, ...c)");
    assert_eq!(parse_params(&mut p).ok().unwrap().len(), 3);
    let mut p = parser_of("{ a; b }");
    assert_eq!(parse_block_statement(&mut p).ok().unwrap().body.len(), 2);
    let mut p = parser_of("[x] ");
    assert!(parse_property_key_for_class(&mut p).ok().unwrap().1);
    let mut p = parser_of("(a) { return a; }");
    match parse_function_body_expr(&mut p, true, false).ok().unwrap() {
        Expression::Function(f) => assert!(f.is_async && !f.is_generator),
        _ => panic!(),
    }
    let mut p = parser_of("`a${1}b`");
    assert_eq!(parse_template_literal(&mut p).ok().unwrap().quasis.len(), 2);
    let mut p = parser_of("a = 1, b");
    assert!(matches!(parse_expression(&mut p, 3).ok().unwrap(), Expression::Assignment(_)));
    let mut p = parser_of("if (a) b;");
    assert!(matches!(parse_statement(&mut p).ok().unwrap(), Statement::If(_)));
}

#[test]
fn escapes_are_decoded() {
    assert_eq!(decode_unicode_escapes("plain"), "plain");
    assert_eq!(decode_unicode_escapes("\\u0061\\u{62}c"), "abc");
    assert_eq!(decode_unicode_escapes("\\u{1F600}!"), "\u{1F600}!");
    assert_eq!(decode_unicode_escapes("\\uD800x"), "x");
    assert_eq!(decode_unicode_escapes("\\u12"), "12");
    assert_eq!(decode_unicode_escapes("\\u{61"), "a");
    assert_eq!(unescape_string("a\\n\\r\\t\\b\\f\\v\\\\\\'\\\"\\`"), "a\n\r\t\u{8}\u{c}\u{b}\\'\"`");
    assert_eq!(unescape_string("\\0"), "\0");
    assert_eq!(unescape_string("\\01"), "01");
    assert_eq!(unescape_string("\\x41\\u0042\\u{43}\\q"), "ABCq");
    assert_eq!(unescape_string("\\xZZ!"), "!");
    assert_eq!(unescape_string("\\u{+41}"), "A");
    assert_eq!(unescape_string("end\\"), "end\\");
    assert_eq!(inner_text("'abc'", 1, 1), "abc");
    assert_eq!(inner_text("'", 1, 1), "");
    assert_eq!(trim_suffix("42nn"), "42");
    assert_eq!(regexp_parts("/a/b/g"), ("a/b".to_string(), "g".to_string()));
    assert_eq!(regexp_parts("/abc"), ("abc".to_string(), "".to_string()));
}
