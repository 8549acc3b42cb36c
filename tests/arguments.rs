use vrl_stdlib::arguments::{Argument, ArgumentList};
use vrl_stdlib::diagnostic::{CompileError, Span};
use vrl_stdlib::eval::Expr;
use vrl_stdlib::functions::ParseGrok;
use vrl_stdlib::value::Value;

fn arg(keyword: &str, value: Value) -> Argument {
    Argument { keyword: keyword.to_string(), expr: Expr::Literal(value), span: Span { start: 3, end: 8 } }
}

#[test]
fn bind_accepts_known_keywords() {
    let params = ParseGrok.parameters();
    let args = vec![arg("pattern", Value::Null), arg("value", Value::Null)];
    let list = ArgumentList::bind(&params, args, Span { start: 0, end: 20 }).unwrap();
    assert_eq!(list.arguments.len(), 2);
    assert_eq!(list.arguments[0].keyword, "pattern");
}

#[test]
fn bind_rejects_unknown_keyword() {
    let params = ParseGrok.parameters();
    let args = vec![arg("value", Value::Null), arg("colour", Value::Null)];
    let err = ArgumentList::bind(&params, args, Span { start: 0, end: 20 }).unwrap_err();
    assert_eq!(err, CompileError::UnknownKeyword { keyword: "colour".to_string(), span: Span { start: 3, end: 8 } });
    assert_eq!(err.code(), 108);
    assert_eq!(err.labels()[0].message, "unknown argument keyword: colour");
}

#[test]
fn bind_rejects_missing_required() {
    let params = ParseGrok.parameters();
    let args = vec![arg("value", Value::Null), arg("remove_empty", Value::Boolean(true))];
    let err = ArgumentList::bind(&params, args, Span { start: 0, end: 20 }).unwrap_err();
    assert_eq!(err, CompileError::MissingArgument { keyword: "pattern".to_string(), span: Span { start: 0, end: 20 } });
    assert_eq!(err.code(), 107);
}

#[test]
fn optional_and_required_take_first() {
    let mut list = ArgumentList {
        arguments: vec![arg("value", Value::Integer(1)), arg("value", Value::Integer(2))],
        span: Span { start: 0, end: 1 },
    };
    assert!(list.optional(&"remove_empty".to_string()).is_none());
    assert_eq!(list.required_literal(&"value".to_string()), Ok(Value::Integer(1)));
    assert_eq!(list.arguments.len(), 1);
    assert!(matches!(list.required(&"value".to_string()), Expr::Literal(Value::Integer(2))));
    assert!(list.arguments.is_empty());
}

#[test]
fn duplicate_copies_nested_values() {
    let v = Value::Array(vec![
        Value::Object(vec![("a".to_string(), Value::Bytes(vec![1, 2]))]),
        Value::Boolean(true),
        Value::Null,
    ]);
    assert_eq!(v.duplicate(), v);
}
