//! Native entry points. Each takes its arguments out of caller-owned slots,
//! leaving a placeholder behind, runs the same function body as the
//! interpreter and writes the result into the caller's result slot.
use vstd::prelude::*;
use std::sync::Arc;
use crate::eval::{
    Context, Expr, Node, RuntimeError, eval_node, get_hostname, hostname_model, md5, md5_model,
    parse_grok, parse_grok_model, result_model,
};
use crate::functions::CompiledLiteral;
use crate::pattern::CompiledPattern;
use crate::value::{Model, Value};

verus! {

/// The value in an optional slot, or `false` where the argument was left out.
pub open spec fn or_false(v: Option<Value>) -> Model {
    match v {
        Some(v) => v@,
        None => Model::Boolean(false),
    }
}

/// Takes the value out of a caller's slot, leaving null behind.
fn take_value(slot: &mut Value) -> (r: Value)
    ensures
        r == *old(slot),
        *final(slot) == Value::Null,
{
    let mut moved = Value::Null;
    std::mem::swap(slot, &mut moved);
    moved
}

/// Takes the value out of a caller's optional slot, leaving `None` behind.
fn take_option(slot: &mut Option<Value>) -> (r: Option<Value>)
    ensures
        r == *old(slot),
        *final(slot) is None,
{
    let mut moved: Option<Value> = None;
    std::mem::swap(slot, &mut moved);
    moved
}

/// Native entry point of `get_hostname`.
pub fn vrl_fn_get_hostname(ctx: &Context, result: &mut Result<Value, RuntimeError>)
    ensures
        result_model(*final(result)) == hostname_model(ctx.hostname),
{
    *result = get_hostname(ctx);
}

/// Native entry point of `md5`: takes the value out of its slot.
pub fn vrl_fn_md5(value: &mut Value, result: &mut Result<Value, RuntimeError>)
    ensures
        *final(value) == Value::Null,
        result_model(*final(result)) == md5_model(old(value)@),
{
    let value = take_value(value);
    *result = md5(value);
}

/// Native entry point of `parse_grok`: takes the value and the optional
/// flag out of their slots; the pattern comes compiled, by handle.
pub fn vrl_fn_parse_grok(
    value: &mut Value,
    remove_empty: &mut Option<Value>,
    pattern: &CompiledLiteral,
    result: &mut Result<Value, RuntimeError>,
)
    ensures
        *final(value) == Value::Null,
        *final(remove_empty) is None,
        result_model(*final(result)) == parse_grok_model(old(value)@, or_false(*old(remove_empty)), pattern.definition()),
{
    let value = take_value(value);
    let remove_empty = match take_option(remove_empty) {
        Some(v) => v,
        None => Value::Boolean(false),
    };
    match pattern {
        CompiledLiteral::GrokPattern(p) => {
            *result = parse_grok(value, remove_empty, p);
        },
    }
}

/// The interpreter, on a call whose arguments evaluate to some values, gives
/// what the native entry point gives on those values: the two paths share
/// one function body per function.
pub proof fn lemma_paths_agree(value: Value, remove_empty: Option<Value>, pattern: Arc<CompiledPattern>, ctx: Context)
    ensures
        eval_node(Node::GetHostname, ctx) == hostname_model(ctx.hostname),
        eval_node(Node::Md5 { value: Box::new(Expr::Literal(value)) }, ctx) == md5_model(value@),
        eval_node(
            Node::ParseGrok {
                value: Box::new(Expr::Literal(value)),
                pattern,
                remove_empty: Box::new(
                    match remove_empty {
                        Some(v) => Expr::Literal(v),
                        None => Expr::Literal(Value::Boolean(false)),
                    },
                ),
            },
            ctx,
        ) == parse_grok_model(value@, or_false(remove_empty), CompiledLiteral::GrokPattern(pattern).definition()),
{
}

} // verus!
