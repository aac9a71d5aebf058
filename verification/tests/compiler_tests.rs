use zinc::compiler::chunk::Chunk;
use zinc::compiler::compiler::Compiler;
use zinc::compiler::disassemble::disassemble;
use zinc::compiler::names::collect_program_var_names;
use zinc::compiler::opcode::OpCode;
use zinc::lexer::lexer::Lexer;
use zinc::parser::parser::Parser;
use zinc::util::interner::Interner;

fn compile(source: &str) -> (Chunk, Interner) {
    let mut lexer = Lexer::new(source, Interner::new());
    let tokens = lexer.tokenize();
    let mut parser = Parser::new(tokens, source, lexer.finish());
    let program = match parser.parse_program() {
        Ok(program) => program,
        Err(e) => panic!("parse error: {}", e.to_string()),
    };
    let (interner, _) = parser.finish();
    let compiler = Compiler::new(interner);
    let (chunk, interner) = compiler.compile_program(&program);
    (chunk.expect("compile error"), interner)
}

#[test]
fn test_compile_number() {
    let (chunk, interner) = compile("42;");
    let dis = disassemble(&chunk, &interner);
    assert!(dis.contains("Const"));
    assert!(dis.contains("Halt"));
}

#[test]
fn test_compile_addition() {
    let (chunk, interner) = compile("1 + 2;");
    let dis = disassemble(&chunk, &interner);
    assert!(dis.contains("One"));
    assert!(dis.contains("Add"));
}

#[test]
fn test_compile_variable() {
    let (chunk, interner) = compile("var x = 10;");
    let dis = disassemble(&chunk, &interner);
    assert!(dis.contains("DefineGlobal"));
}

#[test]
fn test_compile_if() {
    let (chunk, interner) = compile("if (true) { 1; } else { 2; }");
    let dis = disassemble(&chunk, &interner);
    assert!(dis.contains("JumpIfFalse"));
    assert!(dis.contains("Jump"));
}

#[test]
fn test_compile_while() {
    let (chunk, interner) = compile("while (true) { 1; }");
    let dis = disassemble(&chunk, &interner);
    assert!(dis.contains("Loop"));
}

#[test]
fn test_compile_function() {
    let (chunk, interner) = compile("function foo(x) { return x + 1; }");
    let dis = disassemble(&chunk, &interner);
    assert!(dis.contains("Closure"));
    assert!(dis.contains("DefineGlobal"));
    assert!(dis.contains("Return"));
}

#[test]
fn test_compile_boolean_true() {
    let (chunk, _) = compile("true;");
    assert_eq!(chunk.code[0], OpCode::True.to_byte());
}

#[test]
fn test_compile_boolean_false() {
    let (chunk, _) = compile("false;");
    assert_eq!(chunk.code[0], OpCode::False.to_byte());
}

#[test]
fn test_compile_null() {
    let (chunk, _) = compile("null;");
    assert_eq!(chunk.code[0], OpCode::Null.to_byte());
}

#[test]
fn test_compile_zero_one() {
    let (chunk, _) = compile("0;");
    assert_eq!(chunk.code[0], OpCode::Zero.to_byte());
    let (chunk, _) = compile("1;");
    assert_eq!(chunk.code[0], OpCode::One.to_byte());
}

#[test]
fn test_compile_for_loop() {
    let (chunk, interner) = compile("for (var i = 0; i < 10; i++) { i; }");
    let dis = disassemble(&chunk, &interner);
    assert!(dis.contains("Loop"));
    assert!(dis.contains("JumpIfFalse"));
}

#[test]
fn test_compile_logical_and() {
    let (chunk, interner) = compile("true && false;");
    let dis = disassemble(&chunk, &interner);
    assert!(dis.contains("JumpIfFalsePeek"));
}

#[test]
fn test_compile_logical_or() {
    let (chunk, interner) = compile("false || true;");
    let dis = disassemble(&chunk, &interner);
    assert!(dis.contains("JumpIfTruePeek"));
}

#[test]
fn test_compile_ternary() {
    let (chunk, interner) = compile("true ? 1 : 2;");
    let dis = disassemble(&chunk, &interner);
    assert!(dis.contains("JumpIfFalse"));
    assert!(dis.contains("Jump"));
}

#[test]
fn test_compile_unary_neg() {
    let (chunk, interner) = compile("-1;");
    let dis = disassemble(&chunk, &interner);
    assert!(dis.contains("Neg"));
}

#[test]
fn test_compile_typeof_global() {
    let (chunk, interner) = compile("typeof x;");
    let dis = disassemble(&chunk, &interner);
    assert!(dis.contains("TypeOfGlobal"));
}

#[test]
fn test_compile_throw() {
    let (chunk, interner) = compile("throw 42;");
    let dis = disassemble(&chunk, &interner);
    assert!(dis.contains("Throw"));
}

#[test]
fn test_compile_return() {
    let (chunk, interner) = compile("function f() { return 1; }");
    let dis = disassemble(&chunk, &interner);
    assert!(dis.contains("Return"));
}

#[test]
fn test_compile_new() {
    let (chunk, interner) = compile("new Foo(1, 2);");
    let dis = disassemble(&chunk, &interner);
    assert!(dis.contains("Construct"));
}

#[test]
fn test_compile_array() {
    let (chunk, interner) = compile("[1, 2, 3];");
    let dis = disassemble(&chunk, &interner);
    assert!(dis.contains("CreateArray"));
    assert!(dis.contains("SetArrayItem"));
}

#[test]
fn test_compile_object() {
    let (chunk, interner) = compile("({a: 1});");
    let dis = disassemble(&chunk, &interner);
    assert!(dis.contains("CreateObject"));
    assert!(dis.contains("DefineDataProp"));
}

#[test]
fn test_compile_arrow() {
    let (chunk, interner) = compile("var f = (x) => x + 1;");
    let dis = disassemble(&chunk, &interner);
    assert!(dis.contains("Closure"));
}

#[test]
fn test_compile_arrow_block() {
    let (chunk, interner) = compile("var f = (x) => { return x; };");
    let dis = disassemble(&chunk, &interner);
    assert!(dis.contains("Closure"));
    assert!(dis.contains("Return"));
}

#[test]
fn test_compile_string() {
    let (chunk, interner) = compile("\"hello\";");
    let dis = disassemble(&chunk, &interner);
    assert!(dis.contains("Const"));
}

#[test]
fn test_compile_break_continue() {
    let (chunk, interner) = compile("while (true) { break; }");
    let dis = disassemble(&chunk, &interner);
    assert!(dis.contains("Jump"));
    assert!(dis.contains("Loop"));
}

#[test]
fn test_compile_do_while() {
    let (chunk, interner) = compile("do { 1; } while (true);");
    let dis = disassemble(&chunk, &interner);
    assert!(dis.contains("Loop"));
}

#[test]
fn test_compile_member_access() {
    let (chunk, interner) = compile("a.b;");
    let dis = disassemble(&chunk, &interner);
    assert!(dis.contains("GetProperty"));
}

#[test]
fn test_compile_computed_access() {
    let (chunk, interner) = compile("a[0];");
    let dis = disassemble(&chunk, &interner);
    assert!(dis.contains("GetElement"));
}

#[test]
fn test_compile_assignment_add() {
    let (chunk, interner) = compile("var x = 0; x += 1;");
    let dis = disassemble(&chunk, &interner);
    assert!(dis.contains("Add"));
    assert!(dis.contains("SetGlobal"));
}

#[test]
fn test_compile_debugger() {
    let (chunk, _) = compile("debugger;");
    assert!(chunk.code.contains(&OpCode::Debugger.to_byte()));
}

#[test]
fn test_compile_undefined_ident() {
    let (chunk, _) = compile("undefined;");
    assert_eq!(chunk.code[0], OpCode::Undefined.to_byte());
}

#[test]
fn test_compile_delete_global() {
    let (chunk, interner) = compile("delete x;");
    let dis = disassemble(&chunk, &interner);
    assert!(dis.contains("DeleteGlobal"));
}

#[test]
fn test_compile_method_call() {
    let (chunk, interner) = compile("a.b(1);");
    let dis = disassemble(&chunk, &interner);
    assert!(dis.contains("CallMethod"));
}

#[test]
fn defaults_see_the_parameters_before_them() {
    let (chunk, interner) = compile("function f(a = b, b) { return b; }");
    let dis = disassemble(&chunk.child_chunks[0], &interner);
    assert!(dis.contains("'ReferenceError'"), "{}", dis);
    assert!(dis.contains("Throw"), "{}", dis);
    let message = chunk.child_chunks[0].constants[1].as_string_id().unwrap();
    assert_eq!(interner.resolve(message), "Cannot access 'b' before initialization");
    let (chunk, interner) = compile("(a = (a = 1)) => a;");
    let texts: Vec<&str> = chunk.child_chunks[0]
        .constants
        .iter()
        .filter_map(|value| value.as_string_id())
        .map(|id| interner.resolve(id))
        .collect();
    assert_eq!(texts, vec!["ReferenceError", "Cannot access 'a' before initialization"]);
    for source in [
        "function f(a, b = a) { a = b; return a; }",
        "function f(a = () => b, b) { return a; }",
        "function f(a = function (c) { c = b; }, b) { return b; }",
    ] {
        let (chunk, interner) = compile(source);
        let dis = disassemble(&chunk.child_chunks[0], &interner);
        assert!(!dis.contains("ReferenceError"), "{}", dis);
        assert!(!dis.contains("Throw"), "{}", dis);
    }
}

fn var_names(source: &str) -> Vec<String> {
    let mut lexer = Lexer::new(source, Interner::new());
    let tokens = lexer.tokenize();
    let mut parser = Parser::new(tokens, source, lexer.finish());
    let program = match parser.parse_program() {
        Ok(program) => program,
        Err(e) => panic!("parse error: {}", e.to_string()),
    };
    let (interner, _) = parser.finish();
    let names = collect_program_var_names(&program.body);
    names.iter().map(|id| interner.resolve(*id).to_string()).collect()
}

#[test]
fn every_var_is_collected() {
    assert_eq!(
        var_names("var [a] = xs; { var b; } function f() { var c; } let d;"),
        vec!["a", "b"]
    );
    assert_eq!(
        var_names("for (var {a, b: [c, ...d], ...e} of xs) { var f = 1, [g = 2] = xs; }"),
        vec!["a", "c", "d", "e", "f", "g"]
    );
}

#[test]
fn destructured_vars_fill_the_hoisted_slots() {
    let (chunk, interner) = compile("function f(x) { { var [a] = x; } return a; }");
    let dis = disassemble(&chunk.child_chunks[0], &interner);
    assert!(dis.contains("SetLocal slot:1"), "{}", dis);
    assert!(dis.ends_with("ReturnUndefined\n"), "{}", dis);
    let lines: Vec<&str> = dis.lines().collect();
    assert!(lines[lines.len() - 3].ends_with("GetLocal slot:1"), "{}", dis);
    assert!(!dis.contains("GetGlobal"), "{}", dis);
    // a lexical stays in its block
    let (chunk, interner) = compile("function f(x) { { let [a] = x; } return a; }");
    let dis = disassemble(&chunk.child_chunks[0], &interner);
    assert!(dis.contains("GetGlobal"), "{}", dis);
}

#[test]
fn closures_with_captures_are_listed_in_step() {
    let source = "function f(a, b) { return function g() { return a + b; }; }";
    let (chunk, interner) = compile(source);
    let dis = disassemble(&chunk.child_chunks[0], &interner);
    assert!(dis.contains("              | local 0\n              | local 1\n"), "{}", dis);
    let start = dis.find("| local 1").unwrap();
    let rest: Vec<&str> = dis[start..].lines().skip(1).take(2).collect();
    assert!(rest[0].ends_with("Return"), "{}", dis);
    assert!(rest[1].ends_with("ReturnUndefined"), "{}", dis);
}

#[test]
fn computed_keys_are_canonical() {
    let (chunk, interner) = compile("class C { [1e20]() {} [1e-7]() {} [3]() {} }");
    let texts: Vec<&str> = chunk
        .constants
        .iter()
        .filter_map(|value| value.as_string_id())
        .map(|id| interner.resolve(id))
        .collect();
    for key in ["100000000000000000000", "1e-7", "3"] {
        assert!(texts.contains(&key), "{:?}", texts);
    }
}

#[test]
fn compound_assignments_compile_like_plain_ones() {
    for (compound, plain) in [("x += y;", "x = x + y;"), ("x >>>= f(1);", "x = x >>> f(1);")] {
        let (a, names_a) = compile(compound);
        let (b, names_b) = compile(plain);
        assert_eq!(a.code, b.code);
        let texts = |chunk: &Chunk, names: &Interner| -> Vec<String> {
            chunk
                .constants
                .iter()
                .map(|v| match v.as_string_id() {
                    Some(id) => names.resolve(id).to_string(),
                    None => format!("{:?}", v),
                })
                .collect()
        };
        assert_eq!(texts(&a, &names_a), texts(&b, &names_b));
    }
}
