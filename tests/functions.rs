use vrl_stdlib::arguments::{Argument, ArgumentList};
use vrl_stdlib::diagnostic::{CompileError, Span};
use vrl_stdlib::eval::{captures_to_object, Context, Expr, Node, RuntimeError, TypeDef};
use vrl_stdlib::functions::{CompileContext, CompiledLiteral, GetHostname, Md5, ParseGrok};
use vrl_stdlib::native::{vrl_fn_get_hostname, vrl_fn_md5, vrl_fn_parse_grok};
use vrl_stdlib::value::{Value, KIND_BYTES, KIND_INTEGER, KIND_OBJECT};

const PATTERN: &str = "%{TIMESTAMP_ISO8601:timestamp} %{LOGLEVEL:level} %{GREEDYDATA:message}";

fn bytes(s: &str) -> Value {
    Value::Bytes(s.as_bytes().to_vec())
}

fn arg(keyword: &str, expr: Expr, start: usize) -> Argument {
    Argument { keyword: keyword.to_string(), expr, span: Span { start, end: start + 1 } }
}

fn list(arguments: Vec<Argument>) -> ArgumentList {
    ArgumentList { arguments, span: Span { start: 0, end: 100 } }
}

fn no_host() -> Context {
    Context::with_hostname(vec![], Ok(b"box".to_vec()))
}

fn compile_md5(value: Expr) -> Node {
    let mut ctx = CompileContext { specializations: 0 };
    Md5.compile(list(vec![arg("value", value, 0)]), &mut ctx).unwrap()
}

fn compile_grok(value: &str, pattern: &str, remove_empty: Option<bool>) -> Result<Node, CompileError> {
    let mut args = vec![
        arg("value", Expr::Literal(bytes(value)), 0),
        arg("pattern", Expr::Literal(bytes(pattern)), 10),
    ];
    if let Some(flag) = remove_empty {
        args.push(arg("remove_empty", Expr::Literal(Value::Boolean(flag)), 20));
    }
    let mut ctx = CompileContext { specializations: 0 };
    ParseGrok.compile(list(args), &mut ctx)
}

fn object(entries: &[(&str, &str)]) -> Value {
    Value::Object(entries.iter().map(|(k, v)| (k.to_string(), bytes(v))).collect())
}

#[test]
fn md5() {
    let node = compile_md5(Expr::Literal(bytes("foo")));
    assert_eq!(node.resolve(&no_host()), Ok(bytes("acbd18db4cc2f85cedef654fccc4a4d8")));
    assert_eq!(node.type_def(), TypeDef { kind: KIND_BYTES, fallible: false });
}

#[test]
fn md5_documented_example() {
    let node = compile_md5(Expr::Literal(bytes("foobar")));
    assert_eq!(node.resolve(&no_host()), Ok(bytes("3858f62230ac3c915f300c664312c63f")));
}

#[test]
fn md5_of_empty_input() {
    let node = compile_md5(Expr::Literal(bytes("")));
    assert_eq!(node.resolve(&no_host()), Ok(bytes("d41d8cd98f00b204e9800998ecf8427e")));
}

#[test]
fn md5_rejects_integer_and_is_fallible() {
    let node = compile_md5(Expr::Literal(Value::Integer(7)));
    assert_eq!(
        node.resolve(&no_host()),
        Err(RuntimeError::ExpectedKind { expected: KIND_BYTES, found: KIND_INTEGER })
    );
    assert!(node.type_def().fallible);
    assert_eq!(node.resolve(&no_host()).unwrap_err().message(), "expected bytes, got integer");
}

#[test]
fn md5_of_variable() {
    let node = compile_md5(Expr::Variable("msg".to_string()));
    let ctx = Context::with_hostname(vec![("msg".to_string(), bytes("foo"))], Ok(b"box".to_vec()));
    assert_eq!(node.resolve(&ctx), Ok(bytes("acbd18db4cc2f85cedef654fccc4a4d8")));
    assert!(node.type_def().fallible);
}

#[test]
fn md5_native_matches_interpreter() {
    let mut slot = bytes("foo");
    let mut result = Ok(Value::Null);
    vrl_fn_md5(&mut slot, &mut result);
    assert_eq!(slot, Value::Null);
    let node = compile_md5(Expr::Literal(bytes("foo")));
    assert_eq!(result, node.resolve(&no_host()));
}

#[test]
fn md5_descriptor() {
    assert_eq!(Md5.identifier(), "md5");
    let params = Md5.parameters();
    assert_eq!(params.len(), 1);
    assert_eq!(params[0].keyword, "value");
    assert!(params[0].required);
    assert_eq!(Md5.symbol(), None);
    assert_eq!(Md5.examples()[0].result, Ok("3858f62230ac3c915f300c664312c63f"));
}

#[test]
fn parsed() {
    let node = compile_grok("2020-10-02T23:22:12.223222Z info Hello world", PATTERN, None).unwrap();
    assert_eq!(
        node.resolve(&no_host()),
        Ok(object(&[
            ("level", "info"),
            ("message", "Hello world"),
            ("timestamp", "2020-10-02T23:22:12.223222Z"),
        ]))
    );
    assert_eq!(node.type_def(), TypeDef { kind: KIND_OBJECT, fallible: true });
}

#[test]
fn error() {
    let node = compile_grok("an ungrokkable message", PATTERN, None).unwrap();
    assert_eq!(node.resolve(&no_host()), Err(RuntimeError::NoMatch));
    assert_eq!(RuntimeError::NoMatch.message(), "unable to parse input with pattern");
    assert!(node.type_def().fallible);
}

#[test]
fn error2() {
    let node = compile_grok("2020-10-02T23:22:12.223222Z an ungrokkable message", PATTERN, None).unwrap();
    assert_eq!(node.resolve(&no_host()), Err(RuntimeError::NoMatch));
}

#[test]
fn invalid_grok() {
    let err = compile_grok("foo", "%{NOG}", None).unwrap_err();
    assert_eq!(err.code(), 109);
    let labels = err.labels();
    assert_eq!(labels.len(), 1);
    assert_eq!(
        labels[0].message,
        "grok pattern error: The given pattern definition name \"NOG\" could not be found in the definition map"
    );
    assert_eq!(labels[0].span, Span { start: 10, end: 11 });
    assert_eq!(err.diagnostic().code, 109);
}

#[test]
fn empty_capture_kept_by_default() {
    let node = compile_grok("abc:", "%{WORD:word}:%{DATA:rest}", None).unwrap();
    assert_eq!(node.resolve(&no_host()), Ok(object(&[("rest", ""), ("word", "abc")])));
    let node = compile_grok("abc:", "%{WORD:word}:%{DATA:rest}", Some(false)).unwrap();
    assert_eq!(node.resolve(&no_host()), Ok(object(&[("rest", ""), ("word", "abc")])));
}

#[test]
fn remove_empty_drops_empty_capture() {
    let node = compile_grok("abc:", "%{WORD:word}:%{DATA:rest}", Some(true)).unwrap();
    assert_eq!(node.resolve(&no_host()), Ok(object(&[("word", "abc")])));
}

#[test]
fn remove_empty_must_be_boolean() {
    let args = vec![
        arg("value", Expr::Literal(bytes("abc")), 0),
        arg("pattern", Expr::Literal(bytes("%{WORD:word}")), 10),
        arg("remove_empty", Expr::Literal(Value::Integer(1)), 20),
    ];
    let mut ctx = CompileContext { specializations: 0 };
    let node = ParseGrok.compile(list(args), &mut ctx).unwrap();
    assert_eq!(
        node.resolve(&no_host()),
        Err(RuntimeError::ExpectedKind { expected: 4, found: KIND_INTEGER })
    );
}

#[test]
fn pattern_must_be_literal() {
    let args = vec![
        arg("value", Expr::Literal(bytes("abc")), 0),
        arg("pattern", Expr::Variable("p".to_string()), 10),
    ];
    let mut ctx = CompileContext { specializations: 0 };
    let err = ParseGrok.compile(list(args), &mut ctx).unwrap_err();
    assert_eq!(err, CompileError::ExpectedLiteral { keyword: "pattern".to_string(), span: Span { start: 10, end: 11 } });
    assert_eq!(err.code(), 110);
    assert_eq!(err.labels()[0].message, "argument must be a literal: pattern");
    assert_eq!(ctx.specializations, 0);
}

#[test]
fn pattern_must_be_bytes() {
    let args = vec![
        arg("value", Expr::Literal(bytes("abc")), 0),
        arg("pattern", Expr::Literal(Value::Boolean(true)), 10),
    ];
    let mut ctx = CompileContext { specializations: 0 };
    let err = ParseGrok.compile(list(args), &mut ctx).unwrap_err();
    assert_eq!(err.code(), 111);
}

#[test]
fn pattern_specialised_once_per_compile() {
    let mut ctx = CompileContext { specializations: 0 };
    let make = || {
        list(vec![
            arg("value", Expr::Literal(bytes("2020-10-02T23:22:12.223222Z info Hi")), 0),
            arg("pattern", Expr::Literal(bytes(PATTERN)), 10),
        ])
    };
    let first = ParseGrok.compile(make(), &mut ctx).unwrap();
    assert_eq!(ctx.specializations, 1);
    let second = ParseGrok.compile(make(), &mut ctx).unwrap();
    assert_eq!(ctx.specializations, 2);
    for _ in 0..3 {
        assert_eq!(first.resolve(&no_host()), second.resolve(&no_host()));
    }
    assert_eq!(ctx.specializations, 2);
}

#[test]
fn parse_grok_native_matches_interpreter() {
    let mut ctx = CompileContext { specializations: 0 };
    let literal = ParseGrok
        .compile_argument(&"pattern".to_string(), Some(arg("pattern", Expr::Literal(bytes(PATTERN)), 10)), &mut ctx)
        .unwrap()
        .unwrap();
    assert!(matches!(literal, CompiledLiteral::GrokPattern(_)));
    let input = "2020-10-02T23:22:12.223222Z info Hello world";
    let mut value = bytes(input);
    let mut remove_empty = None;
    let mut result = Ok(Value::Null);
    vrl_fn_parse_grok(&mut value, &mut remove_empty, &literal, &mut result);
    assert_eq!(value, Value::Null);
    let node = compile_grok(input, PATTERN, None).unwrap();
    assert_eq!(result, node.resolve(&no_host()));

    let other = ParseGrok.compile_argument(&"value".to_string(), Some(arg("value", Expr::Literal(bytes("x")), 0)), &mut ctx);
    assert!(matches!(other, Ok(None)));
    assert_eq!(ctx.specializations, 1);
}

#[test]
fn parse_grok_descriptor() {
    assert_eq!(ParseGrok.identifier(), "parse_grok");
    let params = ParseGrok.parameters();
    assert_eq!(params.len(), 3);
    assert_eq!(params[2].keyword, "remove_empty");
    assert!(!params[2].required);
    assert_eq!(ParseGrok.symbol(), Some("vrl_fn_parse_grok"));
}

#[test]
fn first_failure_stops_evaluation() {
    let inner = compile_grok("no match here", PATTERN, None).unwrap();
    let outer = compile_md5(Expr::Call(Box::new(inner)));
    assert_eq!(outer.resolve(&no_host()), Err(RuntimeError::NoMatch));
    assert!(outer.type_def().fallible);
}

#[test]
fn hostname_read_twice_is_identical() {
    let ctx = Context::new(vec![]);
    let mut cctx = CompileContext { specializations: 0 };
    let node = GetHostname.compile(list(vec![]), &mut cctx).unwrap();
    let a = node.resolve(&ctx);
    let b = node.resolve(&ctx);
    assert_eq!(a, b);
    if let Ok(Value::Bytes(name)) = &a {
        assert!(!name.is_empty());
    }
    let mut result = Ok(Value::Null);
    vrl_fn_get_hostname(&ctx, &mut result);
    assert_eq!(result, a);
    assert!(node.type_def().fallible);
    assert_eq!(GetHostname.identifier(), "get_hostname");
    assert_eq!(GetHostname.symbol(), None);
}

#[test]
fn hostname_failure_is_runtime_error() {
    let ctx = Context::with_hostname(vec![], Err("denied".to_string()));
    let mut cctx = CompileContext { specializations: 0 };
    let node = GetHostname.compile(list(vec![]), &mut cctx).unwrap();
    let err = node.resolve(&ctx).unwrap_err();
    assert_eq!(err, RuntimeError::Hostname { reason: "denied".to_string() });
    assert_eq!(err.message(), "failed to get hostname: denied");
}

// With grok 2.x on its onig engine, a named group outside the alternative
// that matched is not reported at all, so `level` is absent here rather than
// present with an empty value.
#[test]
fn parsed2() {
    let node = compile_grok(
        "2020-10-02T23:22:12.223222Z",
        "(%{TIMESTAMP_ISO8601:timestamp}|%{LOGLEVEL:level})",
        None,
    )
    .unwrap();
    assert_eq!(node.resolve(&no_host()), Ok(object(&[("timestamp", "2020-10-02T23:22:12.223222Z")])));
    assert_eq!(node.type_def(), TypeDef { kind: KIND_OBJECT, fallible: true });
}

// Same inputs as above with `remove_empty: true`; the unmatched group is
// already absent, so the result is the same.
#[test]
fn remove_empty() {
    let node = compile_grok(
        "2020-10-02T23:22:12.223222Z",
        "(%{TIMESTAMP_ISO8601:timestamp}|%{LOGLEVEL:level})",
        Some(true),
    )
    .unwrap();
    assert_eq!(node.resolve(&no_host()), Ok(object(&[("timestamp", "2020-10-02T23:22:12.223222Z")])));
}

#[test]
fn captures_become_object() {
    let captures = vec![("a".to_string(), vec![]), ("b".to_string(), b"x".to_vec())];
    assert_eq!(captures_to_object(captures.clone(), false), object(&[("a", ""), ("b", "x")]));
    assert_eq!(captures_to_object(captures, true), object(&[("b", "x")]));
}

#[test]
fn empty_hostname_is_runtime_error() {
    let ctx = Context::with_hostname(vec![], Ok(vec![]));
    let mut cctx = CompileContext { specializations: 0 };
    let node = GetHostname.compile(list(vec![]), &mut cctx).unwrap();
    let err = node.resolve(&ctx).unwrap_err();
    assert_eq!(err, RuntimeError::EmptyHostname);
    assert_eq!(err.message(), "failed to get hostname: the name is empty");
}
