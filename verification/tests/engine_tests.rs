use zinc::compiler::disassemble::try_disassemble;
use zinc::engine::{json_report, Engine, EngineError, HostObject, HostTag};
use zinc::runtime::value::Value;
use zinc::util::interner::StringId;

#[test]
fn scripts_share_the_interned_strings() {
    let mut engine = Engine::new();
    let first = engine.compile_source("var shared = 1;");
    assert!(first.is_ok());
    let chunk = match engine.compile_source("shared + other;") {
        Ok(chunk) => chunk,
        Err(e) => panic!("{}", e.to_string()),
    };
    let listing = try_disassemble(&chunk, engine.interner()).unwrap();
    assert!(listing.starts_with("=== <script> ===\nlocals: 0 params: 0 upvalues: 0\n"), "{}", listing);
    assert!(listing.contains("'shared'\n"), "{}", listing);
    assert!(listing.contains("'other'\n"), "{}", listing);
}

#[test]
fn syntax_errors_are_collected() {
    let mut engine = Engine::new();
    match engine.compile_source("var = 1;\nvar y = 2;\nif (;") {
        Err(EngineError::ParseError(text)) => {
            let lines: Vec<&str> = text.split('\n').collect();
            assert_eq!(lines[0], "SyntaxError at 4..5: Expected Identifier, got Assign");
            assert_eq!(lines.len(), 2);
        }
        _ => panic!("a syntax error was expected"),
    }
    let error = engine.compile_source("1 +;").err().unwrap();
    assert_eq!(error.to_string(), "SyntaxError: SyntaxError at 3..4: Unexpected token Semicolon");
}

#[test]
fn compile_errors_are_told_apart() {
    let mut engine = Engine::new();
    match engine.compile_source("break;") {
        Err(EngineError::CompileError(text)) => assert!(!text.is_empty()),
        _ => panic!("a compile error was expected"),
    }
    assert_eq!(
        EngineError::RuntimeError("x".to_string()).to_string(),
        "RuntimeError: x"
    );
    assert_eq!(
        EngineError::CompileError("x".to_string()).to_string(),
        "CompileError: x"
    );
}

#[test]
fn values_are_displayed() {
    let mut engine = Engine::new();
    engine.define_global("name", Value::small_int(5));
    assert_eq!(engine.display_value(&Value::undefined()), "undefined");
    assert_eq!(engine.display_value(&Value::null()), "null");
    assert_eq!(engine.display_value(&Value::Bool(true)), "true");
    assert_eq!(engine.display_value(&Value::Bool(false)), "false");
    assert_eq!(engine.display_value(&Value::small_int(-12)), "-12");
    assert_eq!(engine.display_value(&Value::number(0.5f64.to_bits())), "0.5");
    assert_eq!(engine.display_value(&Value::object_id(3)), "[object Object]");
    assert_eq!(engine.display_outcome(&Ok(Value::small_int(7))), "7");
    assert_eq!(engine.display_outcome(&Err("boom".to_string())), "Error: boom");
    assert!(Value::undefined().is_undefined());
    assert!(!Value::null().is_undefined());
}

#[test]
fn host_objects_keep_tag_and_payload() {
    let mut engine = Engine::default();
    let element = engine.register_host_class("HTMLElement");
    let event = engine.register_host_class("EventTarget");
    assert_eq!(element, HostTag(1));
    assert_eq!(event, HostTag(2));
    let a = engine.alloc_host_object(element, 99);
    let b = engine.alloc_host_object(event, u64::MAX);
    assert_eq!(engine.host_payload(a), Some((element, 99)));
    assert_eq!(engine.host_payload(b), Some((event, u64::MAX)));
    assert_eq!(engine.host_payload(Value::object_id(17)), None);
    assert_eq!(engine.host_payload(Value::small_int(0)), None);
}

#[test]
fn limits_and_globals_persist() {
    let mut engine = Engine::new();
    engine.set_max_steps(1000);
    engine.set_silent_console(true);
    assert_eq!(engine.max_steps(), 1000);
    assert!(engine.silent_console());
    engine.define_global("a", Value::small_int(1));
    engine.define_global("b", Value::small_int(2));
    engine.define_global("a", Value::small_int(3));
    let chunk = engine.compile_source("a;").ok().unwrap();
    let id = chunk.constants[0].as_string_id().unwrap();
    assert_eq!(engine.interner().resolve(id), "a");
    assert_eq!(engine.global(id), Some(Value::small_int(3)));
}

#[test]
fn reports_are_json() {
    let output = vec!["say \"hi\"".to_string(), "a\\b\nc".to_string()];
    assert_eq!(
        json_report("x\"y\\z", &output),
        "{\"result\":\"x\\\"y\\\\z\",\"output\":[\"say \\\"hi\\\"\",\"a\\\\b\\nc\"]}"
    );
    assert_eq!(json_report("a\nb", &Vec::new()), "{\"result\":\"a\\nb\",\"output\":[]}");
    let output = vec!["\r\t".to_string(), "\u{1}\u{1f} \u{7f}".to_string()];
    assert_eq!(
        json_report("\u{8}\u{0}", &output),
        "{\"result\":\"\\u0008\\u0000\",\"output\":[\"\\r\\t\",\"\\u0001\\u001f \u{7f}\"]}"
    );
    assert_eq!(json_report("", &Vec::new()), "{\"result\":\"\",\"output\":[]}");
}

#[test]
fn host_functions_are_globals() {
    let mut engine = Engine::new();
    let object = engine.alloc_host_object(HostTag(4), 8);
    let print = engine.register_host_fn("print");
    let chunk = engine.compile_source("print(1);").ok().unwrap();
    let id = chunk.constants[0].as_string_id().unwrap();
    assert_eq!(engine.interner().resolve(id), "print");
    assert_eq!(engine.global(id), Some(print));
    assert_eq!(engine.global_this_property(id), Some(print));
    let again = engine.register_host_fn("print");
    assert_ne!(again, print);
    assert_eq!(engine.global(id), Some(again));
    assert_eq!(engine.global_this_property(id), Some(again));
    engine.register_host_fn("other");
    assert_eq!(engine.global_this_property(id), Some(again));
    assert_eq!(engine.global_this_property(StringId(0)), None);
    assert_eq!(engine.host_object(print), Some(HostObject::Function { name: id }));
    assert_eq!(engine.host_payload(print), None);
    assert_eq!(engine.host_object(object), Some(HostObject::Host { tag: 4, payload: 8 }));
    assert_eq!(engine.host_object(Value::null()), None);
    assert_ne!(print, object);
}
