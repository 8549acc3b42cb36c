use vrl_stdlib::arguments::Argument;
use vrl_stdlib::diagnostic::{CompileError, Span};
use vrl_stdlib::eval::{Context, Expr};
use vrl_stdlib::functions::{CompileContext, Function};
use vrl_stdlib::value::Value;

fn arg(keyword: &str, value: &str, start: usize) -> Argument {
    Argument {
        keyword: keyword.to_string(),
        expr: Expr::Literal(Value::Bytes(value.as_bytes().to_vec())),
        span: Span { start, end: start + 2 },
    }
}

#[test]
fn lookup_by_identifier() {
    assert_eq!(Function::from_identifier(&"md5".to_string()), Some(Function::Md5));
    assert_eq!(Function::from_identifier(&"parse_grok".to_string()), Some(Function::ParseGrok));
    assert_eq!(Function::from_identifier(&"get_hostname".to_string()), Some(Function::GetHostname));
    assert_eq!(Function::from_identifier(&"sha1".to_string()), None);
}

#[test]
fn registry_compiles_and_evaluates() {
    let f = Function::from_identifier(&"md5".to_string()).unwrap();
    let mut ctx = CompileContext { specializations: 0 };
    let node = f.compile(vec![arg("value", "foo", 4)], Span { start: 0, end: 10 }, &mut ctx).unwrap();
    let eval = Context::with_hostname(vec![], Ok(b"h".to_vec()));
    assert_eq!(node.resolve(&eval), Ok(Value::Bytes(b"acbd18db4cc2f85cedef654fccc4a4d8".to_vec())));
    assert_eq!(ctx.specializations, 0);
}

#[test]
fn registry_reports_binding_errors() {
    let mut ctx = CompileContext { specializations: 0 };
    let err = Function::ParseGrok
        .compile(vec![arg("value", "x", 4)], Span { start: 0, end: 10 }, &mut ctx)
        .unwrap_err();
    assert_eq!(err, CompileError::MissingArgument { keyword: "pattern".to_string(), span: Span { start: 0, end: 10 } });
    let err = Function::GetHostname
        .compile(vec![arg("value", "x", 4)], Span { start: 0, end: 10 }, &mut ctx)
        .unwrap_err();
    assert_eq!(err.code(), 108);
    assert_eq!(ctx.specializations, 0);
}

#[test]
fn registry_compiles_grok_once() {
    let mut ctx = CompileContext { specializations: 0 };
    let node = Function::ParseGrok
        .compile(
            vec![arg("pattern", "%{WORD:w}", 10), arg("value", "hello", 4)],
            Span { start: 0, end: 30 },
            &mut ctx,
        )
        .unwrap();
    assert_eq!(ctx.specializations, 1);
    let eval = Context::with_hostname(vec![], Ok(b"h".to_vec()));
    assert_eq!(
        node.resolve(&eval),
        Ok(Value::Object(vec![("w".to_string(), Value::Bytes(b"hello".to_vec()))]))
    );
    assert_eq!(Function::ParseGrok.parameters().len(), 3);
}
